//! Routing of input-device updates to the virtual devices that read them:
//! for each input device, which virtual device reads it and as which of its
//! inputs.
use vstd::prelude::*;

verus! {

/// A virtual device that reads an input device, as its input number
/// `view`.
#[derive(Copy, Clone, Debug, PartialEq, Eq, Structural)]
pub struct RecvDest {
    pub device: u128,
    pub view: usize,
}

/// The destinations left after removing, from position `i` on, every one
/// of virtual device `device`; each is removed by moving the last
/// destination into its place.
pub open spec fn purge(d: Seq<RecvDest>, device: u128, i: int) -> Seq<RecvDest>
    decreases d.len(), d.len() - i,
{
    if i < 0 || i >= d.len() {
        d
    } else if d[i].device == device {
        purge(d.update(i, d.last()).drop_last(), device, i)
    } else {
        purge(d, device, i + 1)
    }
}

/// Where the destinations of input device `input` are kept.
pub open spec fn route_index(routes: Seq<(u128, Seq<RecvDest>)>, input: u128) -> Option<int>
    decreases routes.len(),
{
    if routes.len() == 0 {
        None
    } else if routes[0].0 == input {
        Some(0)
    } else {
        match route_index(routes.drop_first(), input) {
            Some(k) => Some(k + 1),
            None => None,
        }
    }
}

/// The destinations of input device `input`, in order.
pub open spec fn dests(routes: Seq<(u128, Seq<RecvDest>)>, input: u128) -> Seq<RecvDest> {
    match route_index(routes, input) {
        Some(k) => routes[k].1,
        None => Seq::empty(),
    }
}

/// The routes with `d` appended to the destinations of `input`.
pub open spec fn add_route(routes: Seq<(u128, Seq<RecvDest>)>, input: u128, d: RecvDest) -> Seq<(u128, Seq<RecvDest>)> {
    match route_index(routes, input) {
        Some(k) => routes.update(k, (input, routes[k].1.push(d))),
        None => routes.push((input, seq![d])),
    }
}

/// The routes after virtual device `device` starts reading the input
/// devices `inputs`, the `v`-th as its input `v`.
pub open spec fn add_device(routes: Seq<(u128, Seq<RecvDest>)>, device: u128, inputs: Seq<u128>) -> Seq<(u128, Seq<RecvDest>)>
    decreases inputs.len(),
{
    if inputs.len() == 0 {
        routes
    } else {
        add_route(add_device(routes, device, inputs.drop_last()), inputs.last(), RecvDest { device, view: (inputs.len() - 1) as usize })
    }
}

/// The routes after virtual device `device` is removed: every input keeps
/// its place, with the destinations of that device purged.
pub open spec fn remove_device(routes: Seq<(u128, Seq<RecvDest>)>, device: u128) -> Seq<(u128, Seq<RecvDest>)> {
    Seq::new(routes.len(), |k: int| (routes[k].0, purge(routes[k].1, device, 0)))
}

proof fn lemma_route_index(routes: Seq<(u128, Seq<RecvDest>)>, input: u128)
    ensures
        match route_index(routes, input) {
            Some(k) => 0 <= k < routes.len() && routes[k].0 == input && forall|j: int| 0 <= j < k ==> routes[j].0 != input,
            None => forall|j: int| 0 <= j < routes.len() ==> routes[j].0 != input,
        },
    decreases routes.len(),
{
    if routes.len() > 0 {
        lemma_route_index(routes.drop_first(), input);
        assert forall|j: int| 1 <= j < routes.len() implies routes[j] == routes.drop_first()[j - 1] by {}
    }
}

proof fn lemma_route_index_first(routes: Seq<(u128, Seq<RecvDest>)>, input: u128, k: int)
    requires
        0 <= k < routes.len(),
        routes[k].0 == input,
        forall|j: int| 0 <= j < k ==> routes[j].0 != input,
    ensures
        route_index(routes, input) == Some(k),
{
    lemma_route_index(routes, input);
}

/// Routes that keep the same inputs in the same places find them in the
/// same places.
proof fn lemma_route_index_same_keys(a: Seq<(u128, Seq<RecvDest>)>, b: Seq<(u128, Seq<RecvDest>)>, input: u128)
    requires
        a.len() == b.len(),
        forall|k: int| 0 <= k < a.len() ==> a[k].0 == b[k].0,
    ensures
        route_index(a, input) == route_index(b, input),
{
    lemma_route_index(a, input);
    lemma_route_index(b, input);
    match route_index(a, input) {
        Some(k) => lemma_route_index_first(b, input, k),
        None => {},
    }
}

/// Purging removes every destination of the device and keeps every other
/// one.
pub proof fn lemma_purge(d: Seq<RecvDest>, device: u128, i: int)
    requires
        0 <= i <= d.len(),
        forall|j: int| 0 <= j < i ==> d[j].device != device,
    ensures
        forall|j: int| 0 <= j < purge(d, device, i).len() ==> purge(d, device, i)[j].device != device,
        forall|x: RecvDest| x.device != device ==> (#[trigger] purge(d, device, i).contains(x) <==> d.contains(x)),
    decreases d.len(), d.len() - i,
{
    if i < d.len() {
        if d[i].device == device {
            let e = d.update(i, d.last()).drop_last();
            assert forall|j: int| 0 <= j < i implies e[j].device != device by {
                assert(e[j] == d[j]);
            }
            lemma_purge(e, device, i);
            assert(purge(d, device, i) == purge(e, device, i));
            assert forall|x: RecvDest| x.device != device implies (e.contains(x) <==> d.contains(x)) by {
                if d.contains(x) {
                    let j = choose|j: int| 0 <= j < d.len() && d[j] == x;
                    assert(j != i);
                    if j == d.len() - 1 {
                        assert(e[i] == x);
                    } else {
                        assert(e[j] == x);
                    }
                }
                if e.contains(x) {
                    let j = choose|j: int| 0 <= j < e.len() && e[j] == x;
                    if j == i {
                        assert(d[d.len() - 1] == x);
                    } else {
                        assert(d[j] == x);
                    }
                }
            }
        } else {
            lemma_purge(d, device, i + 1);
            assert(purge(d, device, i) == purge(d, device, i + 1));
        }
    } else {
        assert(purge(d, device, i) == d);
    }
}

/// After a virtual device is removed, no input is routed to it any more,
/// and every other destination of every input is kept.
pub proof fn law_removed_device_gets_no_updates(routes: Seq<(u128, Seq<RecvDest>)>, device: u128, input: u128, x: RecvDest)
    ensures
        dests(remove_device(routes, device), input).contains(x) ==> x.device != device,
        x.device != device ==> (dests(remove_device(routes, device), input).contains(x) <==> dests(routes, input).contains(x)),
{
    let r = remove_device(routes, device);
    lemma_route_index_same_keys(routes, r, input);
    match route_index(routes, input) {
        Some(k) => {
            lemma_route_index(routes, input);
            lemma_purge(routes[k].1, device, 0);
            if r[k].1.contains(x) {
                let j = choose|j: int| 0 <= j < r[k].1.len() && r[k].1[j] == x;
                assert(r[k].1[j].device != device);
            }
        },
        None => {},
    }
}

/// Adding a route appends the destination to its input and changes no
/// other input's destinations.
proof fn lemma_add_route(routes: Seq<(u128, Seq<RecvDest>)>, input: u128, d: RecvDest)
    ensures
        dests(add_route(routes, input, d), input) == dests(routes, input).push(d),
        forall|other: u128| other != input ==> #[trigger] dests(add_route(routes, input, d), other) == dests(routes, other),
{
    let a = add_route(routes, input, d);
    lemma_route_index(routes, input);
    match route_index(routes, input) {
        Some(k) => {
            assert forall|j: int| 0 <= j < k implies a[j].0 != input by {
                assert(a[j] == routes[j]);
            }
            lemma_route_index_first(a, input, k);
            assert forall|j: int| 0 <= j < routes.len() implies routes[j].0 == a[j].0 by {}
            assert forall|other: u128| other != input implies #[trigger] dests(a, other) == dests(routes, other) by {
                lemma_route_index_same_keys(routes, a, other);
                lemma_route_index(routes, other);
                match route_index(routes, other) {
                    Some(m) => {
                        assert(m != k);
                        assert(a[m] == routes[m]);
                    },
                    None => {},
                }
            }
        },
        None => {
            assert forall|j: int| 0 <= j < routes.len() implies a[j].0 != input by {
                assert(a[j] == routes[j]);
            }
            lemma_route_index_first(a, input, routes.len() as int);
            assert forall|other: u128| other != input implies #[trigger] dests(a, other) == dests(routes, other) by {
                lemma_route_index(routes, other);
                lemma_route_index(a, other);
                match route_index(routes, other) {
                    Some(k) => {
                        assert(a[k] == routes[k]);
                        lemma_route_index_first(a, other, k);
                    },
                    None => {
                        assert forall|j: int| 0 <= j < a.len() implies a[j].0 != other by {
                            if j < routes.len() {
                                assert(a[j] == routes[j]);
                            }
                        }
                    },
                }
            }
        },
    }
}

/// A virtual device that starts reading input devices is routed the
/// updates of each of them, as the input number it was given there.
pub proof fn law_added_device_gets_updates(routes: Seq<(u128, Seq<RecvDest>)>, device: u128, inputs: Seq<u128>, v: int)
    requires
        0 <= v < inputs.len(),
    ensures
        dests(add_device(routes, device, inputs), inputs[v]).contains(RecvDest { device, view: v as usize }),
    decreases inputs.len(),
{
    let prev = add_device(routes, device, inputs.drop_last());
    let d = RecvDest { device, view: (inputs.len() - 1) as usize };
    lemma_add_route(prev, inputs.last(), d);
    if v == inputs.len() - 1 {
        assert(dests(add_device(routes, device, inputs), inputs[v]).last() == d);
    } else {
        law_added_device_gets_updates(routes, device, inputs.drop_last(), v);
        let x = RecvDest { device, view: v as usize };
        let old_d = dests(prev, inputs[v]);
        let j = choose|j: int| 0 <= j < old_d.len() && old_d[j] == x;
        if inputs[v] == inputs.last() {
            assert(dests(add_device(routes, device, inputs), inputs[v])[j] == x);
        } else {
            assert(dests(add_device(routes, device, inputs), inputs[v]) == old_d);
        }
    }
}

/// For each input device, the virtual devices that read it.
pub struct Routes {
    entries: Vec<(u128, Vec<RecvDest>)>,
}

impl Routes {
    /// The routes, input by input in the order they were first routed.
    pub closed spec fn view(&self) -> Seq<(u128, Seq<RecvDest>)> {
        self.entries@.map_values(|e: (u128, Vec<RecvDest>)| (e.0, e.1@))
    }

    /// No routes.
    pub fn new() -> (r: Self)
        ensures
            r.view() == Seq::<(u128, Seq<RecvDest>)>::empty(),
    {
        let r = Routes { entries: Vec::new() };
        assert(r.view() =~= Seq::<(u128, Seq<RecvDest>)>::empty());
        r
    }

    fn index_of(&self, input: u128) -> (r: Option<usize>)
        ensures
            match r {
                Some(k) => route_index(self.view(), input) == Some(k as int),
                None => route_index(self.view(), input).is_none(),
            },
    {
        proof {
            lemma_route_index(self.view(), input);
        }
        let mut k: usize = 0;
        while k < self.entries.len()
            invariant
                k <= self.entries@.len(),
                self.view().len() == self.entries@.len(),
                forall|j: int| 0 <= j < k ==> self.view()[j].0 != input,
            decreases self.entries@.len() - k,
        {
            if self.entries[k].0 == input {
                proof {
                    lemma_route_index_first(self.view(), input, k as int);
                }
                return Some(k);
            }
            k = k + 1;
        }
        None
    }

    fn add(&mut self, input: u128, d: RecvDest)
        ensures
            final(self).view() == add_route(old(self).view(), input, d),
    {
        proof {
            lemma_route_index(self.view(), input);
        }
        match self.index_of(input) {
            Some(k) => {
                let ghost before = self.view();
                let (key, mut list) = self.entries.remove(k);
                list.push(d);
                self.entries.insert(k, (key, list));
                assert(self.view() =~= before.update(k as int, (input, before[k as int].1.push(d))));
            },
            None => {
                let ghost before = self.view();
                let mut list: Vec<RecvDest> = Vec::new();
                list.push(d);
                assert(list@ =~= seq![d]);
                self.entries.push((input, list));
                assert(self.view() =~= before.push((input, seq![d])));
            },
        }
    }

    /// Virtual device `device` starts reading the input devices `inputs`,
    /// the `v`-th as its input `v`.
    pub fn insert(&mut self, device: u128, inputs: &[u128])
        ensures
            final(self).view() == add_device(old(self).view(), device, inputs@),
    {
        let mut v: usize = 0;
        assert(inputs@.take(0) =~= Seq::<u128>::empty());
        while v < inputs.len()
            invariant
                v <= inputs@.len(),
                self.view() == add_device(old(self).view(), device, inputs@.take(v as int)),
            decreases inputs@.len() - v,
        {
            assert(inputs@.take(v + 1).drop_last() =~= inputs@.take(v as int));
            assert(inputs@.take(v + 1).last() == inputs@[v as int]);
            self.add(inputs[v], RecvDest { device, view: v });
            v = v + 1;
        }
        assert(inputs@.take(inputs@.len() as int) =~= inputs@);
    }

    /// Virtual device `device` stops reading: its destinations are removed
    /// from every input.
    pub fn remove(&mut self, device: u128)
        ensures
            final(self).view() == remove_device(old(self).view(), device),
    {
        let ghost orig = self.view();
        let mut rest: Vec<(u128, Vec<RecvDest>)> = Vec::new();
        std::mem::swap(&mut rest, &mut self.entries);
        let mut done: Vec<(u128, Vec<RecvDest>)> = Vec::new();
        let n = rest.len();
        let mut k: usize = 0;
        while k < n
            invariant
                k <= n,
                n == orig.len(),
                rest@.len() == n - k,
                forall|j: int| 0 <= j < n - k ==> (rest@[j].0, rest@[j].1@) == #[trigger] orig[j + k],
                done@.len() == k,
                forall|j: int| 0 <= j < k ==> (done@[j].0, done@[j].1@) == #[trigger] remove_device(orig, device)[j],
            decreases n - k,
        {
            let ghost before_rest = rest@;
            assert((before_rest[0].0, before_rest[0].1@) == orig[0 + k]);
            let e = rest.remove(0);
            let (key, mut list) = e;
            assert((key, list@) == orig[k as int]);
            let ghost start = list@;
            let mut i: usize = 0;
            while i < list.len()
                invariant
                    i <= list@.len(),
                    purge(start, device, 0) == purge(list@, device, i as int),
                decreases 2 * list@.len() - i,
            {
                if list[i].device == device {
                    let _ = list.swap_remove(i);
                } else {
                    i = i + 1;
                }
            }
            done.push((key, list));
            proof {
                assert forall|j: int| 0 <= j < n - (k + 1) implies (rest@[j].0, rest@[j].1@) == #[trigger] orig[j + (k + 1)] by {
                    assert(rest@[j] == before_rest[j + 1]);
                    assert((before_rest[j + 1].0, before_rest[j + 1].1@) == orig[(j + 1) + k]);
                }
            }
            k = k + 1;
        }
        self.entries = done;
        assert(self.view() =~= remove_device(orig, device));
    }

    /// The virtual devices that read input device `input`, in order.
    pub fn dests_of(&self, input: u128) -> (r: Vec<RecvDest>)
        ensures
            r@ == dests(self.view(), input),
    {
        match self.index_of(input) {
            Some(k) => {
                proof {
                    lemma_route_index(self.view(), input);
                }
                let list = &self.entries[k].1;
                let mut r: Vec<RecvDest> = Vec::new();
                let mut i: usize = 0;
                while i < list.len()
                    invariant
                        i <= list@.len(),
                        r@ == list@.take(i as int),
                    decreases list@.len() - i,
                {
                    r.push(list[i]);
                    assert(r@ =~= list@.take(i + 1));
                    i = i + 1;
                }
                assert(list@.take(list@.len() as int) =~= list@);
                r
            },
            None => Vec::new(),
        }
    }
}

} // verus!
