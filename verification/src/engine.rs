//! The engine's device registry: which devices exist, under which stable
//! ids they were registered, and whether a driver holds each one or
//! someone is viewing it.
use vstd::prelude::*;
use crate::device::DeviceInfo;
use crate::plugin::DeviceAlreadyExists;

verus! {

/// One registered device: its identifier, its description, whether a
/// driver holds its handle, and how many views of it are open.
pub struct DeviceSlot {
    pub uuid: u128,
    pub info: DeviceInfo,
    pub held: bool,
    pub views: usize,
}

/// The registry as the contracts see it: the devices in registration
/// order, and each stable id with the identifier it was given.
pub struct RegistryView {
    pub slots: Seq<DeviceSlot>,
    pub ids: Seq<(Seq<char>, u128)>,
}

/// Nobody holds or views the device any more: it is dropped at the next
/// look at the registry.
pub open spec fn released(s: DeviceSlot) -> bool {
    !s.held && s.views == 0
}

/// The devices that are not released, in order.
pub open spec fn live(slots: Seq<DeviceSlot>) -> Seq<DeviceSlot>
    decreases slots.len(),
{
    if slots.len() == 0 {
        slots
    } else if released(slots.last()) {
        live(slots.drop_last())
    } else {
        live(slots.drop_last()).push(slots.last())
    }
}

/// The position of the first device with identifier `u`.
pub open spec fn find(slots: Seq<DeviceSlot>, u: u128) -> Option<int>
    decreases slots.len(),
{
    if slots.len() == 0 {
        None
    } else if slots[0].uuid == u {
        Some(0)
    } else {
        match find(slots.drop_first(), u) {
            Some(i) => Some(i + 1),
            None => None,
        }
    }
}

/// The devices with `slot` stored: in place of the device with its
/// identifier, or appended.
pub open spec fn put(slots: Seq<DeviceSlot>, slot: DeviceSlot) -> Seq<DeviceSlot> {
    match find(slots, slot.uuid) {
        Some(i) => slots.update(i, slot),
        None => slots.push(slot),
    }
}

/// The identifier first registered under the stable id `s`.
pub open spec fn lookup(ids: Seq<(Seq<char>, u128)>, s: Seq<char>) -> Option<u128>
    decreases ids.len(),
{
    if ids.len() == 0 {
        None
    } else if ids[0].0 == s {
        Some(ids[0].1)
    } else {
        lookup(ids.drop_first(), s)
    }
}

/// A freshly created device, held by the caller.
pub open spec fn new_slot(uuid: u128, info: DeviceInfo) -> DeviceSlot {
    DeviceSlot { uuid, info, held: true, views: 0 }
}

/// The registry after a driver asks for a device described by `info`, and
/// the answer, where `fresh` is the identifier a new device would get.
/// Released devices are dropped first. A device without a stable id is
/// created under `fresh`. A stable id seen before gets its identifier
/// back: its device, when it is still there, is handed out unless a
/// driver still holds it (then the answer is `DeviceAlreadyExists`), and
/// is otherwise created again. A new stable id is recorded with `fresh`.
/// The answer tells the identifier and whether the device was created.
pub open spec fn claim(v: RegistryView, info: DeviceInfo, fresh: u128) -> (RegistryView, Result<(u128, bool), DeviceAlreadyExists>) {
    let slots = live(v.slots);
    match info.id {
        None => (RegistryView { slots: put(slots, new_slot(fresh, info)), ids: v.ids }, Ok((fresh, true))),
        Some(s) => match lookup(v.ids, s@) {
            Some(u) => match find(slots, u) {
                Some(i) => if slots[i].held {
                    (RegistryView { slots, ids: v.ids }, Err(DeviceAlreadyExists))
                } else {
                    (RegistryView { slots: slots.update(i, DeviceSlot { held: true, ..slots[i] }), ids: v.ids }, Ok((u, false)))
                },
                None => (RegistryView { slots: put(slots, new_slot(u, info)), ids: v.ids }, Ok((u, true))),
            },
            None => (RegistryView { slots: put(slots, new_slot(fresh, info)), ids: v.ids.push((s@, fresh)) }, Ok((fresh, true))),
        },
    }
}

/// The registry after the driver holding device `u` lets it go.
pub open spec fn handle_dropped(v: RegistryView, u: u128) -> RegistryView {
    match find(v.slots, u) {
        Some(i) => RegistryView { slots: v.slots.update(i, DeviceSlot { held: false, ..v.slots[i] }), ids: v.ids },
        None => v,
    }
}

/// One more view: the count goes up by one, wrapping around as an
/// atomic counter does.
pub open spec fn one_more(n: usize) -> usize {
    if n == usize::MAX {
        0
    } else {
        (n + 1) as usize
    }
}

/// The registry after someone asks to view device `u`, and whether it
/// exists: released devices are dropped first, then the device's view
/// count goes up.
pub open spec fn view_opened(v: RegistryView, u: u128) -> (RegistryView, bool) {
    let slots = live(v.slots);
    match find(slots, u) {
        Some(i) => (RegistryView { slots: slots.update(i, DeviceSlot { views: one_more(slots[i].views), ..slots[i] }), ids: v.ids }, true),
        None => (RegistryView { slots, ids: v.ids }, false),
    }
}

/// The registry after a view of device `u` is closed.
pub open spec fn view_closed(v: RegistryView, u: u128) -> RegistryView {
    match find(v.slots, u) {
        Some(i) => RegistryView { slots: v.slots.update(i, DeviceSlot { views: (v.slots[i].views - 1) as usize, ..v.slots[i] }), ids: v.ids },
        None => v,
    }
}

/// Device `u` is registered and held by a driver.
pub open spec fn is_held(v: RegistryView, u: u128) -> bool {
    find(v.slots, u) matches Some(i) && v.slots[i].held
}

/// Device `u` is registered and has at least one open view.
pub open spec fn is_viewed(v: RegistryView, u: u128) -> bool {
    find(v.slots, u) matches Some(i) && v.slots[i].views > 0
}

/// No two devices share an identifier.
pub open spec fn distinct(slots: Seq<DeviceSlot>) -> bool {
    forall|i: int, j: int| 0 <= i < j < slots.len() ==> slots[i].uuid != slots[j].uuid
}

/// What `find` gives: the first device with the identifier, if any.
pub proof fn lemma_find(slots: Seq<DeviceSlot>, u: u128)
    ensures
        match find(slots, u) {
            Some(i) => 0 <= i < slots.len() && slots[i].uuid == u && forall|j: int| 0 <= j < i ==> slots[j].uuid != u,
            None => forall|j: int| 0 <= j < slots.len() ==> slots[j].uuid != u,
        },
    decreases slots.len(),
{
    if slots.len() > 0 {
        lemma_find(slots.drop_first(), u);
        assert forall|j: int| 1 <= j < slots.len() implies slots[j] == slots.drop_first()[j - 1] by {}
    }
}

/// The live devices are the devices that are not released, in order: each
/// is a device of `slots`, and each device of `slots` that is not released
/// is live.
pub proof fn lemma_live(slots: Seq<DeviceSlot>)
    ensures
        forall|k: int| 0 <= k < live(slots).len() ==> !released(#[trigger] live(slots)[k]),
        forall|k: int| 0 <= k < live(slots).len() ==> exists|j: int| 0 <= j < slots.len() && #[trigger] live(slots)[k] == slots[j],
        forall|j: int| 0 <= j < slots.len() && !released(#[trigger] slots[j]) ==> live(slots).contains(slots[j]),
        distinct(slots) ==> distinct(live(slots)),
        live(slots).len() <= slots.len(),
    decreases slots.len(),
{
    if slots.len() > 0 {
        let rest = slots.drop_last();
        lemma_live(rest);
        let l = live(slots);
        let lr = live(rest);
        assert forall|k: int| 0 <= k < l.len() implies exists|j: int| 0 <= j < slots.len() && #[trigger] l[k] == slots[j] by {
            if k < lr.len() {
                assert(l[k] == lr[k]);
                let j = choose|j: int| 0 <= j < rest.len() && lr[k] == rest[j];
                assert(l[k] == slots[j]);
            } else {
                assert(l[k] == slots[slots.len() - 1]);
            }
        }
        assert forall|j: int| 0 <= j < slots.len() && !released(#[trigger] slots[j]) implies l.contains(slots[j]) by {
            if j < slots.len() - 1 {
                assert(rest[j] == slots[j]);
                let k = choose|k: int| 0 <= k < lr.len() && lr[k] == rest[j];
                assert(l[k] == slots[j]);
            } else {
                assert(l[l.len() - 1] == slots[j]);
            }
        }
        if distinct(slots) {
            assert(distinct(rest));
            assert forall|a: int, b: int| 0 <= a < b < l.len() implies l[a].uuid != l[b].uuid by {
                if b < lr.len() {
                    assert(l[a] == lr[a] && l[b] == lr[b]);
                } else {
                    assert(l[b] == slots.last());
                    assert(l[a] == lr[a]);
                    let j = choose|j: int| 0 <= j < rest.len() && lr[a] == rest[j];
                    assert(slots[j] == rest[j]);
                }
            }
        }
    }
}

/// Storing a device keeps the identifiers distinct, and the device is then
/// found where it was stored.
pub proof fn lemma_put(slots: Seq<DeviceSlot>, slot: DeviceSlot)
    requires
        distinct(slots),
    ensures
        distinct(put(slots, slot)),
        find(put(slots, slot), slot.uuid) matches Some(i) && put(slots, slot)[i] == slot,
        forall|u: u128| u != slot.uuid ==> #[trigger] find(put(slots, slot), u) == find(slots, u),
{
    lemma_find(slots, slot.uuid);
    let p = put(slots, slot);
    match find(slots, slot.uuid) {
        Some(i) => {
            assert forall|a: int, b: int| 0 <= a < b < p.len() implies p[a].uuid != p[b].uuid by {
                if a == i {
                    assert(p[b] == slots[b]);
                } else if b == i {
                    assert(p[a] == slots[a]);
                } else {
                    assert(p[a] == slots[a] && p[b] == slots[b]);
                }
            }
        },
        None => {
            assert forall|a: int, b: int| 0 <= a < b < p.len() implies p[a].uuid != p[b].uuid by {
                assert(p[a] == slots[a]);
            }
        },
    }
    let at: int = match find(slots, slot.uuid) {
        Some(i) => i,
        None => slots.len() as int,
    };
    assert(p[at] == slot);
    lemma_find_unique(p, slot.uuid);
    assert(find(p, slot.uuid) == Some(at));
    assert forall|u: u128| u != slot.uuid implies #[trigger] find(p, u) == find(slots, u) by {
        lemma_find(slots, u);
        lemma_find(p, u);
        match find(slots, u) {
            Some(j) => {
                assert(j != at);
                assert(p[j] == slots[j]);
                lemma_find_unique(p, u);
            },
            None => {
                assert forall|j: int| 0 <= j < p.len() implies p[j].uuid != u by {
                    if j != at {
                        assert(p[j] == slots[j]);
                    }
                }
            },
        }
    }
}

/// The first device with identifier `u` is the one `find` gives.
pub proof fn lemma_find_first(slots: Seq<DeviceSlot>, u: u128, i: int)
    requires
        0 <= i < slots.len(),
        slots[i].uuid == u,
        forall|j: int| 0 <= j < i ==> slots[j].uuid != u,
    ensures
        find(slots, u) == Some(i),
{
    lemma_find(slots, u);
}

/// In a list with distinct identifiers, a device with identifier `u` is
/// the one `find` gives.
pub proof fn lemma_find_unique(slots: Seq<DeviceSlot>, u: u128)
    ensures
        distinct(slots) ==> forall|j: int| 0 <= j < slots.len() && #[trigger] slots[j].uuid == u ==> find(slots, u) == Some(j),
{
    lemma_find(slots, u);
}

/// Dropping released devices keeps exactly the devices that are held or
/// viewed: device `u` survives exactly when it was registered and not
/// released.
pub proof fn law_release_keeps_held_or_viewed(slots: Seq<DeviceSlot>, u: u128)
    requires
        distinct(slots),
    ensures
        find(live(slots), u) is Some <==> (find(slots, u) matches Some(i) && !released(slots[i])),
        find(live(slots), u) matches Some(k) ==> find(slots, u) matches Some(i) && live(slots)[k] == slots[i],
{
    lemma_live(slots);
    lemma_find(slots, u);
    lemma_find(live(slots), u);
    lemma_find_unique(slots, u);
    lemma_find_unique(live(slots), u);
    match find(live(slots), u) {
        Some(k) => {
            let j = choose|j: int| 0 <= j < slots.len() && #[trigger] live(slots)[k] == slots[j];
            assert(slots[j].uuid == u);
            assert(find(slots, u) == Some(j));
            assert(!released(live(slots)[k]));
        },
        None => {
            match find(slots, u) {
                Some(i) => {
                    if !released(slots[i]) {
                        assert(live(slots).contains(slots[i]));
                        let k = choose|k: int| 0 <= k < live(slots).len() && live(slots)[k] == slots[i];
                        assert(live(slots)[k].uuid == u);
                    }
                },
                None => {},
            }
        },
    }
}

/// Answering a request keeps the identifiers of the devices distinct.
pub proof fn law_claim_keeps_distinct(v: RegistryView, info: DeviceInfo, fresh: u128)
    requires
        distinct(v.slots),
    ensures
        distinct(claim(v, info, fresh).0.slots),
{
    let slots = live(v.slots);
    lemma_live(v.slots);
    lemma_put(slots, new_slot(fresh, info));
    match info.id {
        None => {},
        Some(s) => match lookup(v.ids, s@) {
            Some(u) => {
                lemma_put(slots, new_slot(u, info));
                match find(slots, u) {
                    Some(i) => {
                        lemma_find(slots, u);
                        let t = slots.update(i, DeviceSlot { held: true, ..slots[i] });
                        assert forall|a: int, b: int| 0 <= a < b < t.len() implies t[a].uuid != t[b].uuid by {
                            assert(t[a].uuid == slots[a].uuid && t[b].uuid == slots[b].uuid);
                        }
                    },
                    None => {},
                }
            },
            None => {},
        },
    }
}

/// Whatever answers a request gets the device it names: the device is
/// then registered and held, and a stable id stays bound to it.
pub proof fn law_claimed_device_is_held(v: RegistryView, info: DeviceInfo, fresh: u128, u: u128, created: bool)
    requires
        distinct(v.slots),
        claim(v, info, fresh).1 == Ok::<(u128, bool), DeviceAlreadyExists>((u, created)),
    ensures
        is_held(claim(v, info, fresh).0, u),
        info.id matches Some(s) ==> lookup(claim(v, info, fresh).0.ids, s@) == Some(u),
{
    let slots = live(v.slots);
    lemma_live(v.slots);
    match info.id {
        None => {
            lemma_put(slots, new_slot(fresh, info));
        },
        Some(s) => match lookup(v.ids, s@) {
            Some(w) => match find(slots, w) {
                Some(i) => {
                    lemma_find(slots, w);
                    let t = slots.update(i, DeviceSlot { held: true, ..slots[i] });
                    assert forall|j: int| 0 <= j < i implies t[j].uuid != w by {
                        assert(t[j] == slots[j]);
                    }
                    lemma_find_first(t, w, i);
                },
                None => {
                    lemma_put(slots, new_slot(w, info));
                },
            },
            None => {
                lemma_put(slots, new_slot(fresh, info));
                lemma_lookup_push(v.ids, s@, fresh);
            },
        },
    }
}

/// Recording a new stable id makes it find its identifier; ids recorded
/// before keep theirs.
pub proof fn lemma_lookup_push(ids: Seq<(Seq<char>, u128)>, s: Seq<char>, u: u128)
    ensures
        lookup(ids, s) is None ==> lookup(ids.push((s, u)), s) == Some(u),
        forall|t: Seq<char>| #[trigger] lookup(ids, t) is Some ==> lookup(ids.push((s, u)), t) == lookup(ids, t),
    decreases ids.len(),
{
    if ids.len() > 0 {
        lemma_lookup_push(ids.drop_first(), s, u);
        assert(ids.push((s, u)).drop_first() =~= ids.drop_first().push((s, u)));
        assert(ids.push((s, u))[0] == ids[0]);
        assert forall|t: Seq<char>| #[trigger] lookup(ids, t) is Some implies lookup(ids.push((s, u)), t) == lookup(ids, t) by {
            if ids[0].0 != t {
                assert(lookup(ids.drop_first(), t) is Some);
            }
        }
    } else {
        assert(ids.push((s, u))[0] == (s, u));
    }
}

/// A stable id seen before always gets the device it was first given:
/// whenever the answer is a device, it is that one.
pub proof fn law_stable_id_gets_same_device(v: RegistryView, info: DeviceInfo, fresh: u128, u: u128)
    requires
        info.id matches Some(s) && lookup(v.ids, s@) == Some(u),
    ensures
        claim(v, info, fresh).1 matches Ok((w, _)) ==> w == u,
        claim(v, info, fresh).0.ids == v.ids,
{
}

/// A device held by a driver is not handed out again: a second request
/// with the same stable id is answered `DeviceAlreadyExists`.
pub proof fn law_held_device_is_exclusive(v: RegistryView, first: DeviceInfo, second: DeviceInfo, f1: u128, f2: u128)
    requires
        distinct(v.slots),
        first.id is Some,
        second.id is Some,
        first.id.unwrap()@ == second.id.unwrap()@,
        claim(v, first, f1).1 is Ok,
    ensures
        claim(claim(v, first, f1).0, second, f2).1 == Err::<(u128, bool), DeviceAlreadyExists>(DeviceAlreadyExists),
{
    let (v2, r) = claim(v, first, f1);
    let (u, created) = r.unwrap();
    law_claimed_device_is_held(v, first, f1, u, created);
    law_claim_keeps_distinct(v, first, f1);
    let i = find(v2.slots, u).unwrap();
    lemma_find(v2.slots, u);
    law_release_keeps_held_or_viewed(v2.slots, u);
    let k = find(live(v2.slots), u).unwrap();
    assert(live(v2.slots)[k] == v2.slots[i]);
}

/// Once its driver lets a device go, the next request with its stable id
/// gets that same device back (the one still registered, or a new one
/// under the same identifier if nobody was viewing it).
pub proof fn law_let_go_then_reclaimed(v: RegistryView, first: DeviceInfo, second: DeviceInfo, f1: u128, f2: u128)
    requires
        distinct(v.slots),
        first.id is Some,
        second.id is Some,
        first.id.unwrap()@ == second.id.unwrap()@,
        claim(v, first, f1).1 is Ok,
    ensures
        claim(handle_dropped(claim(v, first, f1).0, claim(v, first, f1).1.unwrap().0), second, f2).1 matches Ok((w, _))
            && w == claim(v, first, f1).1.unwrap().0,
{
    let (v2, r) = claim(v, first, f1);
    let (u, created) = r.unwrap();
    law_claimed_device_is_held(v, first, f1, u, created);
    law_claim_keeps_distinct(v, first, f1);
    let i = find(v2.slots, u).unwrap();
    lemma_find(v2.slots, u);
    let v3 = handle_dropped(v2, u);
    assert(v3.slots[i].uuid == u && !v3.slots[i].held);
    assert(distinct(v3.slots)) by {
        assert forall|a: int, b: int| 0 <= a < b < v3.slots.len() implies v3.slots[a].uuid != v3.slots[b].uuid by {
            assert(v3.slots[a].uuid == v2.slots[a].uuid && v3.slots[b].uuid == v2.slots[b].uuid);
        }
    }
    lemma_find_unique(v3.slots, u);
    law_release_keeps_held_or_viewed(v3.slots, u);
}

/// A new random identifier: a call of `uuid::Uuid::new_v4`, read as its
/// 128-bit value with `as_u128`. Nothing is claimed of the value.
#[verifier::external_body]
fn random_uuid() -> u128 {
    uuid::Uuid::new_v4().as_u128()
}

/// The devices of the engine.
pub struct DeviceRegistry {
    slots: Vec<DeviceSlot>,
    ids: Vec<(String, u128)>,
}

impl DeviceRegistry {
    #[verifier::type_invariant]
    spec fn wf(self) -> bool {
        distinct(self.slots@)
    }

    /// The registry's contents.
    pub closed spec fn view(&self) -> RegistryView {
        RegistryView {
            slots: self.slots@,
            ids: self.ids@.map_values(|p: (String, u128)| (p.0@, p.1)),
        }
    }

    /// An empty registry.
    pub fn new() -> (r: Self)
        ensures
            r.view().slots == Seq::<DeviceSlot>::empty(),
            r.view().ids == Seq::<(Seq<char>, u128)>::empty(),
            distinct(r.view().slots),
    {
        let r = DeviceRegistry { slots: Vec::new(), ids: Vec::new() };
        proof {
            use_type_invariant(&r);
        }
        assert(r.view().ids =~= Seq::<(Seq<char>, u128)>::empty());
        r
    }

    /// Drops the released devices.
    pub fn release(&mut self)
        ensures
            final(self).view() == (RegistryView { slots: live(old(self).view().slots), ids: old(self).view().ids }),
            distinct(final(self).view().slots),
    {
        proof {
            use_type_invariant(&*self);
            lemma_live(self.slots@);
        }
        let ghost orig = self.slots@;
        let mut rest: Vec<DeviceSlot> = Vec::new();
        std::mem::swap(&mut rest, &mut self.slots);
        let mut kept: Vec<DeviceSlot> = Vec::new();
        let n = rest.len();
        let mut i: usize = 0;
        assert(orig.take(0) =~= Seq::<DeviceSlot>::empty());
        while i < n
            invariant
                n == orig.len(),
                i <= n,
                rest@ == orig.subrange(i as int, n as int),
                kept@ == live(orig.take(i as int)),
                self.slots@ == Seq::<DeviceSlot>::empty(),
                self.ids == old(self).ids,
            decreases n - i,
        {
            let slot = rest.remove(0);
            assert(orig.take(i + 1).drop_last() =~= orig.take(i as int));
            assert(orig.take(i + 1).last() == slot);
            if slot.held || slot.views > 0 {
                kept.push(slot);
            }
            assert(rest@ =~= orig.subrange(i + 1, n as int));
            i = i + 1;
        }
        assert(orig.take(n as int) =~= orig);
        self.slots = kept;
        proof {
            use_type_invariant(&*self);
        }
    }

    /// Where the device with identifier `u` is.
    fn find_slot(&self, u: u128) -> (r: Option<usize>)
        ensures
            match r {
                Some(i) => find(self.view().slots, u) == Some(i as int),
                None => find(self.view().slots, u).is_none(),
            },
    {
        proof {
            use_type_invariant(self);
            lemma_find(self.slots@, u);
            lemma_find_unique(self.slots@, u);
        }
        let mut i: usize = 0;
        while i < self.slots.len()
            invariant
                i <= self.slots@.len(),
                forall|j: int| 0 <= j < i ==> self.slots@[j].uuid != u,
            decreases self.slots@.len() - i,
        {
            if self.slots[i].uuid == u {
                proof {
                    lemma_find_first(self.slots@, u, i as int);
                }
                return Some(i);
            }
            i = i + 1;
        }
        None
    }

    /// The identifier recorded for the stable id `s`.
    fn lookup_id(&self, s: &String) -> (r: Option<u128>)
        ensures
            r == lookup(self.view().ids, s@),
    {
        let ghost ids = self.view().ids;
        let mut i: usize = 0;
        assert(ids.subrange(0, ids.len() as int) =~= ids);
        while i < self.ids.len()
            invariant
                i <= self.ids@.len(),
                ids == self.view().ids,
                ids.len() == self.ids@.len(),
                lookup(ids, s@) == lookup(ids.subrange(i as int, ids.len() as int), s@),
            decreases self.ids@.len() - i,
        {
            let ghost tail = ids.subrange(i as int, ids.len() as int);
            assert(tail.drop_first() =~= ids.subrange(i + 1, ids.len() as int));
            assert(tail[0] == ids[i as int]);
            if self.ids[i].0 == *s {
                return Some(self.ids[i].1);
            }
            i = i + 1;
        }
        None
    }

    /// Stores a device in place of the one with its identifier, or at the
    /// end.
    fn store(&mut self, slot: DeviceSlot)
        ensures
            final(self).view() == (RegistryView { slots: put(old(self).view().slots, slot), ids: old(self).view().ids }),
    {
        proof {
            use_type_invariant(&*self);
            lemma_put(self.slots@, slot);
        }
        let found = self.find_slot(slot.uuid);
        proof {
            lemma_find(self.slots@, slot.uuid);
        }
        let mut slots: Vec<DeviceSlot> = Vec::new();
        std::mem::swap(&mut slots, &mut self.slots);
        match found {
            Some(i) => {
                let ghost before = slots@;
                let _ = slots.remove(i);
                slots.insert(i, slot);
                assert(slots@ =~= before.update(i as int, slot));
            },
            None => {
                slots.push(slot);
            },
        }
        self.slots = slots;
    }

    /// Answers a driver that asks for a device described by `info`, a new
    /// device getting a random identifier: the answer is `claim`'s for
    /// some identifier.
    pub fn new_device(&mut self, info: DeviceInfo) -> (r: Result<(u128, bool), DeviceAlreadyExists>)
        ensures
            exists|fresh: u128| (final(self).view(), r) == #[trigger] claim(old(self).view(), info, fresh),
            distinct(final(self).view().slots),
    {
        let fresh = random_uuid();
        self.claim_with(info, fresh)
    }

    /// Answers a driver that asks for a device described by `info`;
    /// `fresh` is the identifier a new device gets (see `claim`).
    pub fn claim_with(&mut self, info: DeviceInfo, fresh: u128) -> (r: Result<(u128, bool), DeviceAlreadyExists>)
        ensures
            (final(self).view(), r) == claim(old(self).view(), info, fresh),
            distinct(final(self).view().slots),
    {
        let r = self.claim_device(info, fresh);
        proof {
            use_type_invariant(&*self);
        }
        r
    }

    /// The answer to a request, as `claim` describes it.
    fn claim_device(&mut self, info: DeviceInfo, fresh: u128) -> (r: Result<(u128, bool), DeviceAlreadyExists>)
        ensures
            (final(self).view(), r) == claim(old(self).view(), info, fresh),
    {
        self.release();
        let id: Option<String> = match &info.id {
            Some(s) => Some(s.clone()),
            None => None,
        };
        match id {
            None => {
                self.store(DeviceSlot { uuid: fresh, info, held: true, views: 0 });
                Ok((fresh, true))
            },
            Some(s) => match self.lookup_id(&s) {
                Some(u) => match self.find_slot(u) {
                    Some(i) => {
                        proof {
                            lemma_find(self.view().slots, u);
                        }
                        if self.slots[i].held {
                            Err(DeviceAlreadyExists)
                        } else {
                            proof {
                                use_type_invariant(&*self);
                            }
                            let views = self.slots[i].views;
                            self.set_state(i, true, views);
                            Ok((u, false))
                        }
                    },
                    None => {
                        self.store(DeviceSlot { uuid: u, info, held: true, views: 0 });
                        Ok((u, true))
                    },
                },
                None => {
                    let ghost before = self.view().ids;
                    proof {
                        use_type_invariant(&*self);
                    }
                    let mut ids: Vec<(String, u128)> = Vec::new();
                    std::mem::swap(&mut ids, &mut self.ids);
                    ids.push((s, fresh));
                    self.ids = ids;
                    assert(self.view().ids =~= before.push((s@, fresh)));
                    self.store(DeviceSlot { uuid: fresh, info, held: true, views: 0 });
                    Ok((fresh, true))
                },
            },
        }
    }

    /// Sets whether device `i` is held and how many views it has.
    fn set_state(&mut self, i: usize, held: bool, views: usize)
        requires
            i < old(self).view().slots.len(),
        ensures
            final(self).view() == (RegistryView {
                slots: old(self).view().slots.update(i as int, DeviceSlot { held, views, ..old(self).view().slots[i as int] }),
                ids: old(self).view().ids,
            }),
    {
        proof {
            use_type_invariant(&*self);
        }
        let ghost before = self.slots@;
        let mut slots: Vec<DeviceSlot> = Vec::new();
        std::mem::swap(&mut slots, &mut self.slots);
        let mut slot = slots.remove(i);
        slot.held = held;
        slot.views = views;
        slots.insert(i, slot);
        assert(slots@ =~= before.update(i as int, DeviceSlot { held, views, ..before[i as int] }));
        assert(distinct(slots@)) by {
            assert forall|a: int, b: int| 0 <= a < b < slots@.len() implies slots@[a].uuid != slots@[b].uuid by {
                assert(slots@[a].uuid == before[a].uuid && slots@[b].uuid == before[b].uuid);
            }
        }
        self.slots = slots;
    }

    /// Whether device `u` is registered and held by a driver.
    pub fn holds(&self, u: u128) -> (r: bool)
        ensures
            r == is_held(self.view(), u),
    {
        match self.find_slot(u) {
            Some(i) => {
                proof {
                    lemma_find(self.view().slots, u);
                }
                self.slots[i].held
            },
            None => false,
        }
    }

    /// Whether device `u` is registered and has an open view.
    pub fn viewed(&self, u: u128) -> (r: bool)
        ensures
            r == is_viewed(self.view(), u),
    {
        match self.find_slot(u) {
            Some(i) => {
                proof {
                    lemma_find(self.view().slots, u);
                }
                self.slots[i].views > 0
            },
            None => false,
        }
    }

    /// The driver holding device `u` lets it go.
    pub fn drop_handle(&mut self, u: u128)
        requires
            is_held(old(self).view(), u),
        ensures
            final(self).view() == handle_dropped(old(self).view(), u),
            distinct(final(self).view().slots),
    {
        match self.find_slot(u) {
            Some(i) => {
                proof {
                    lemma_find(self.view().slots, u);
                }
                let views = self.slots[i].views;
                self.set_state(i, false, views);
            },
            None => {},
        }
        proof {
            use_type_invariant(&*self);
        }
    }

    /// Opens a view of device `u`, if it is registered; released devices
    /// are dropped first.
    pub fn open_view(&mut self, u: u128) -> (found: bool)
        ensures
            (final(self).view(), found) == view_opened(old(self).view(), u),
            distinct(final(self).view().slots),
    {
        self.release();
        let found = match self.find_slot(u) {
            Some(i) => {
                proof {
                    lemma_find(self.view().slots, u);
                }
                let held = self.slots[i].held;
                let views = self.slots[i].views.wrapping_add(1);
                self.set_state(i, held, views);
                true
            },
            None => false,
        };
        proof {
            use_type_invariant(&*self);
        }
        found
    }

    /// Closes a view of device `u`.
    pub fn close_view(&mut self, u: u128)
        requires
            is_viewed(old(self).view(), u),
        ensures
            final(self).view() == view_closed(old(self).view(), u),
            distinct(final(self).view().slots),
    {
        match self.find_slot(u) {
            Some(i) => {
                proof {
                    lemma_find(self.view().slots, u);
                }
                let held = self.slots[i].held;
                let views = self.slots[i].views - 1;
                self.set_state(i, held, views);
            },
            None => {},
        }
        proof {
            use_type_invariant(&*self);
        }
    }

    /// The description of device `u`, if it is registered.
    pub fn info_of(&self, u: u128) -> (r: Option<&DeviceInfo>)
        ensures
            match find(self.view().slots, u) {
                Some(i) => r == Some(&self.view().slots[i].info),
                None => r.is_none(),
            },
    {
        match self.find_slot(u) {
            Some(i) => {
                proof {
                    lemma_find(self.view().slots, u);
                }
                Some(&self.slots[i].info)
            },
            None => None,
        }
    }

    /// The identifiers of the devices, in order, after dropping the
    /// released ones.
    pub fn uuids(&mut self) -> (r: Vec<u128>)
        ensures
            final(self).view() == (RegistryView { slots: live(old(self).view().slots), ids: old(self).view().ids }),
            r@ == final(self).view().slots.map_values(|s: DeviceSlot| s.uuid),
            distinct(final(self).view().slots),
    {
        self.release();
        let mut r: Vec<u128> = Vec::new();
        let mut i: usize = 0;
        while i < self.slots.len()
            invariant
                i <= self.slots@.len(),
                r@ == self.slots@.take(i as int).map_values(|s: DeviceSlot| s.uuid),
            decreases self.slots@.len() - i,
        {
            r.push(self.slots[i].uuid);
            assert(r@ =~= self.slots@.take(i + 1).map_values(|s: DeviceSlot| s.uuid));
            i = i + 1;
        }
        assert(self.slots@.take(self.slots@.len() as int) =~= self.slots@);
        proof {
            use_type_invariant(&*self);
        }
        r
    }
}

} // verus!
