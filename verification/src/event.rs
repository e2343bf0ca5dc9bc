//! Engine events and the plugins' view of them.
use vstd::prelude::*;
use crate::device::DeviceInfo;

verus! {

/// Declaration of the `uuid` crate's identifier type, which events carry
/// through unread.
#[verifier::external_type_specification]
#[verifier::external_body]
pub struct ExUuid(uuid::Uuid);

/// `Uuid` is `Copy`: its `clone` (derived) gives back the same identifier.
pub assume_specification[ <uuid::Uuid as Clone>::clone ](u: &uuid::Uuid) -> (r: uuid::Uuid)
    ensures
        r == *u,
;

/// Something that happened in the engine.
#[derive(Clone)]
pub enum Event {
    DeviceUpdate(uuid::Uuid),
    DeviceAdded(uuid::Uuid, DeviceInfo),
    DeviceRemoved(uuid::Uuid),
    UsbConnected,
    UsbDisconnected,
}

/// The kinds of event.
#[derive(Copy, Clone, Debug, PartialEq, Eq, Structural)]
pub enum EventKind {
    DeviceUpdate,
    DeviceAdded,
    DeviceRemoved,
    UsbConnected,
    UsbDisconnected,
}

/// Number of event kinds that plugins can subscribe to.
pub const NUM_INDICES: usize = 3;

impl Event {
    /// The kind of the event.
    pub open spec fn spec_kind(self) -> EventKind {
        match self {
            Event::DeviceUpdate(_) => EventKind::DeviceUpdate,
            Event::DeviceAdded(_, _) => EventKind::DeviceAdded,
            Event::DeviceRemoved(_) => EventKind::DeviceRemoved,
            Event::UsbConnected => EventKind::UsbConnected,
            Event::UsbDisconnected => EventKind::UsbDisconnected,
        }
    }

    /// The kind of the event.
    pub fn kind(&self) -> (k: EventKind)
        ensures
            k == self.spec_kind(),
    {
        match self {
            Event::DeviceUpdate(_) => EventKind::DeviceUpdate,
            Event::DeviceAdded(_, _) => EventKind::DeviceAdded,
            Event::DeviceRemoved(_) => EventKind::DeviceRemoved,
            Event::UsbConnected => EventKind::UsbConnected,
            Event::UsbDisconnected => EventKind::UsbDisconnected,
        }
    }

    /// The subscription slot of the event's kind, if it has one.
    pub fn to_index(&self) -> (i: Option<usize>)
        ensures
            i == self.spec_kind().spec_index(),
    {
        self.kind().to_index()
    }
}

impl EventKind {
    /// The subscription slot of the kind: device updates, additions and
    /// removals have slots 0, 1 and 2; USB events have none.
    pub open spec fn spec_index(self) -> Option<usize> {
        match self {
            EventKind::DeviceUpdate => Some(0),
            EventKind::DeviceAdded => Some(1),
            EventKind::DeviceRemoved => Some(2),
            EventKind::UsbConnected => None,
            EventKind::UsbDisconnected => None,
        }
    }

    /// The subscription slot of the kind, if it has one.
    pub fn to_index(&self) -> (i: Option<usize>)
        ensures
            i == self.spec_index(),
            i matches Some(n) ==> n < NUM_INDICES,
    {
        match self {
            EventKind::DeviceUpdate => Some(0),
            EventKind::DeviceAdded => Some(1),
            EventKind::DeviceRemoved => Some(2),
            EventKind::UsbConnected => None,
            EventKind::UsbDisconnected => None,
        }
    }
}

/// For each subscription slot, the plugins (by index) that subscribed to
/// it, in plugin order, once per subscribing entry.
pub open spec fn dispatch_list(plugin_events: Seq<Seq<EventKind>>, slot: usize) -> Seq<usize>
    decreases plugin_events.len(),
{
    if plugin_events.len() == 0 {
        seq![]
    } else {
        let last = (plugin_events.len() - 1) as int;
        dispatch_list(plugin_events.drop_last(), slot) + Seq::new(
            plugin_events[last].filter(|k: EventKind| k.spec_index() == Some(slot)).len(),
            |j: int| last as usize,
        )
    }
}

/// The table that routes each event to its subscribers: entry `s` lists,
/// for slot `s`, the index of every plugin once for each kind of its list
/// that has slot `s`.
pub fn dispatch_table(plugin_events: &Vec<Vec<EventKind>>) -> (table: Vec<Vec<usize>>)
    ensures
        table@.len() == NUM_INDICES,
        forall|s: int| 0 <= s < NUM_INDICES ==> #[trigger] table@[s]@ == dispatch_list(plugin_events@.map_values(|v: Vec<EventKind>| v@), s as usize),
{
    let ghost pe = plugin_events@.map_values(|v: Vec<EventKind>| v@);
    let mut r0: Vec<usize> = Vec::new();
    let mut r1: Vec<usize> = Vec::new();
    let mut r2: Vec<usize> = Vec::new();
    let mut p: usize = 0;
    while p < plugin_events.len()
        invariant
            p <= plugin_events@.len(),
            pe == plugin_events@.map_values(|v: Vec<EventKind>| v@),
            r0@ == dispatch_list(pe.take(p as int), 0),
            r1@ == dispatch_list(pe.take(p as int), 1),
            r2@ == dispatch_list(pe.take(p as int), 2),
        decreases plugin_events@.len() - p,
    {
        let kinds = &plugin_events[p];
        let ghost b0 = r0@;
        let ghost b1 = r1@;
        let ghost b2 = r2@;
        let mut e: usize = 0;
        while e < kinds.len()
            invariant
                p < plugin_events@.len(),
                kinds@ == pe[p as int],
                e <= kinds@.len(),
                r0@ == b0 + Seq::new(kinds@.take(e as int).filter(|k: EventKind| k.spec_index() == Some(0usize)).len(), |j: int| p),
                r1@ == b1 + Seq::new(kinds@.take(e as int).filter(|k: EventKind| k.spec_index() == Some(1usize)).len(), |j: int| p),
                r2@ == b2 + Seq::new(kinds@.take(e as int).filter(|k: EventKind| k.spec_index() == Some(2usize)).len(), |j: int| p),
            decreases kinds@.len() - e,
        {
            assert(kinds@.take(e + 1).drop_last() =~= kinds@.take(e as int));
            reveal_with_fuel(Seq::filter, 1);
            match kinds[e].to_index() {
                Some(slot) => {
                    if slot == 0 {
                        r0.push(p);
                    } else if slot == 1 {
                        r1.push(p);
                    } else {
                        r2.push(p);
                    }
                },
                None => {},
            }
            assert(r0@ =~= b0 + Seq::new(kinds@.take(e + 1).filter(|k: EventKind| k.spec_index() == Some(0usize)).len(), |j: int| p));
            assert(r1@ =~= b1 + Seq::new(kinds@.take(e + 1).filter(|k: EventKind| k.spec_index() == Some(1usize)).len(), |j: int| p));
            assert(r2@ =~= b2 + Seq::new(kinds@.take(e + 1).filter(|k: EventKind| k.spec_index() == Some(2usize)).len(), |j: int| p));
            e = e + 1;
        }
        assert(kinds@.take(kinds@.len() as int) =~= kinds@);
        assert(pe.take(p + 1).drop_last() =~= pe.take(p as int));
        assert(pe.take(p + 1)[p as int] == kinds@);
        p = p + 1;
    }
    assert(pe.take(plugin_events@.len() as int) =~= pe);
    let mut table: Vec<Vec<usize>> = Vec::new();
    table.push(r0);
    table.push(r1);
    table.push(r2);
    table
}

} // verus!
