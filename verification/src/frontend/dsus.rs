//! The DSU (cemuhook) server: the pad data sent for gamepad states, and
//! which slots each client asked for.
use vstd::prelude::*;
use crate::bits::{bit16, bit64};
use crate::component::controller::{Button, Controller};
use crate::frontend::vigem::{pack_sources, source_pressed};

verus! {

/// Number of pad slots of the server.
pub const NUM_SLOTS: usize = 4;

/// The gamepad button behind bit `k` of a DSU pad's buttons: Share
/// (Select), L3, R3, Options (Start), the d-pad (up, right, down, left),
/// then L2, R2, L1, R1 and the face buttons X, A, B, Y.
pub open spec fn dsu_source(k: u16) -> Option<Button> {
    if k == 0 {
        Some(Button::Select)
    } else if k == 1 {
        Some(Button::LStick)
    } else if k == 2 {
        Some(Button::RStick)
    } else if k == 3 {
        Some(Button::Start)
    } else if k == 4 {
        Some(Button::Up)
    } else if k == 5 {
        Some(Button::Right)
    } else if k == 6 {
        Some(Button::Down)
    } else if k == 7 {
        Some(Button::Left)
    } else if k == 8 {
        Some(Button::L2)
    } else if k == 9 {
        Some(Button::R2)
    } else if k == 10 {
        Some(Button::L1)
    } else if k == 11 {
        Some(Button::R1)
    } else if k == 12 {
        Some(Button::X)
    } else if k == 13 {
        Some(Button::A)
    } else if k == 14 {
        Some(Button::B)
    } else if k == 15 {
        Some(Button::Y)
    } else {
        None
    }
}

/// The gamepad buttons behind the bits of a DSU pad, by bit.
pub fn dsu_sources() -> (t: [Option<Button>; 16])
    ensures
        forall|k: u16| k < 16 ==> #[trigger] t@[k as int] == dsu_source(k),
{
    [
        Some(Button::Select),
        Some(Button::LStick),
        Some(Button::RStick),
        Some(Button::Start),
        Some(Button::Up),
        Some(Button::Right),
        Some(Button::Down),
        Some(Button::Left),
        Some(Button::L2),
        Some(Button::R2),
        Some(Button::L1),
        Some(Button::R1),
        Some(Button::X),
        Some(Button::A),
        Some(Button::B),
        Some(Button::Y),
    ]
}

/// What the server sends of one pad slot, besides motion.
#[derive(Copy, Clone, Debug, Default, PartialEq, Eq, Structural)]
pub struct DsuPad {
    pub slot: u8,
    pub connected: bool,
    pub packet_number: u32,
    pub buttons: u16,
    pub ps_button: u8,
    pub left_stick_x: u8,
    pub left_stick_y: u8,
    pub right_stick_x: u8,
    pub right_stick_y: u8,
    pub analog_dpad_left: u8,
    pub analog_dpad_down: u8,
    pub analog_dpad_right: u8,
    pub analog_dpad_up: u8,
    pub analog_y: u8,
    pub analog_b: u8,
    pub analog_a: u8,
    pub analog_x: u8,
    pub analog_r1: u8,
    pub analog_l1: u8,
    pub analog_r2: u8,
    pub analog_l2: u8,
}

/// A pressure value: full while the button is pressed, none otherwise.
pub open spec fn full_if(pressed: bool) -> u8 {
    if pressed {
        255
    } else {
        0
    }
}

fn full_when(pressed: bool) -> (v: u8)
    ensures
        v == full_if(pressed),
{
    if pressed {
        255
    } else {
        0
    }
}

impl DsuPad {
    /// A disconnected pad of slot `slot` with nothing pressed.
    pub fn new(slot: u8) -> (p: DsuPad)
        ensures
            p == (DsuPad { slot, ..DsuPad::zero() }),
    {
        DsuPad { slot, ..DsuPad::empty() }
    }

    /// The pad with every field zero.
    pub open spec fn zero() -> DsuPad {
        DsuPad {
            slot: 0,
            connected: false,
            packet_number: 0,
            buttons: 0,
            ps_button: 0,
            left_stick_x: 0,
            left_stick_y: 0,
            right_stick_x: 0,
            right_stick_y: 0,
            analog_dpad_left: 0,
            analog_dpad_down: 0,
            analog_dpad_right: 0,
            analog_dpad_up: 0,
            analog_y: 0,
            analog_b: 0,
            analog_a: 0,
            analog_x: 0,
            analog_r1: 0,
            analog_l1: 0,
            analog_r2: 0,
            analog_l2: 0,
        }
    }

    fn empty() -> (p: DsuPad)
        ensures
            p == DsuPad::zero(),
    {
        DsuPad {
            slot: 0,
            connected: false,
            packet_number: 0,
            buttons: 0,
            ps_button: 0,
            left_stick_x: 0,
            left_stick_y: 0,
            right_stick_x: 0,
            right_stick_y: 0,
            analog_dpad_left: 0,
            analog_dpad_down: 0,
            analog_dpad_right: 0,
            analog_dpad_up: 0,
            analog_y: 0,
            analog_b: 0,
            analog_a: 0,
            analog_x: 0,
            analog_r1: 0,
            analog_l1: 0,
            analog_r2: 0,
            analog_l2: 0,
        }
    }

    /// The pad's input fields follow `data`: each button pressed exactly
    /// when its source is; the pressures of the face buttons, the d-pad,
    /// L1 and R1 full while pressed; the L2 pressure from R2 and the R2
    /// pressure from L2 (so the server has always sent them); the PS
    /// button from Home; the sticks as they are.
    pub open spec fn follows(self, data: Controller) -> bool {
        let b = data.buttons;
        &&& forall|k: u16| k < 16 ==> #[trigger] bit16(self.buttons, k) == source_pressed(dsu_source(k), b)
        &&& self.analog_a == full_if(Button::A.pressed_in(b))
        &&& self.analog_b == full_if(Button::B.pressed_in(b))
        &&& self.analog_x == full_if(Button::X.pressed_in(b))
        &&& self.analog_y == full_if(Button::Y.pressed_in(b))
        &&& self.analog_dpad_up == full_if(Button::Up.pressed_in(b))
        &&& self.analog_dpad_down == full_if(Button::Down.pressed_in(b))
        &&& self.analog_dpad_left == full_if(Button::Left.pressed_in(b))
        &&& self.analog_dpad_right == full_if(Button::Right.pressed_in(b))
        &&& self.analog_l1 == full_if(Button::L1.pressed_in(b))
        &&& self.analog_r1 == full_if(Button::R1.pressed_in(b))
        &&& self.analog_r2 == full_if(Button::L2.pressed_in(b))
        &&& self.analog_l2 == full_if(Button::R2.pressed_in(b))
        &&& self.ps_button == full_if(Button::Home.pressed_in(b))
        &&& self.left_stick_x == data.left_stick_x
        &&& self.left_stick_y == data.left_stick_y
        &&& self.right_stick_x == data.right_stick_x
        &&& self.right_stick_y == data.right_stick_y
    }

    /// Writes the gamepad state into the pad; its slot, connection and
    /// packet number are kept.
    pub fn update_controller(&mut self, data: &Controller)
        ensures
            final(self).follows(*data),
            final(self).slot == old(self).slot,
            final(self).connected == old(self).connected,
            final(self).packet_number == old(self).packet_number,
    {
        let b = data.buttons;
        let sources = dsu_sources();
        self.buttons = pack_sources(&sources, b);
        self.analog_a = full_when(Button::A.is_pressed(b));
        self.analog_b = full_when(Button::B.is_pressed(b));
        self.analog_x = full_when(Button::X.is_pressed(b));
        self.analog_y = full_when(Button::Y.is_pressed(b));
        self.analog_dpad_up = full_when(Button::Up.is_pressed(b));
        self.analog_dpad_down = full_when(Button::Down.is_pressed(b));
        self.analog_dpad_left = full_when(Button::Left.is_pressed(b));
        self.analog_dpad_right = full_when(Button::Right.is_pressed(b));
        self.analog_l1 = full_when(Button::L1.is_pressed(b));
        self.analog_r1 = full_when(Button::R1.is_pressed(b));
        self.analog_r2 = full_when(Button::L2.is_pressed(b));
        self.analog_l2 = full_when(Button::R2.is_pressed(b));
        self.ps_button = full_when(Button::Home.is_pressed(b));
        self.left_stick_x = data.left_stick_x;
        self.left_stick_y = data.left_stick_y;
        self.right_stick_x = data.right_stick_x;
        self.right_stick_y = data.right_stick_y;
    }
}

/// The input fields of a DSU pad that follows a gamepad state, from the
/// gamepad buttons (bit `i` of the gamepad field is the button of index
/// `i`: A 0, B 1, X 2, Y 3, Up 4, Down 5, Left 6, Right 7, Start 8, Select
/// 9, L1 10, R1 11, L2 12, R2 13, LStick 18, RStick 19, Home 20): the pad's
/// buttons are Share from Select, L3 and R3 from the stick clicks, Options
/// from Start, the d-pad up, right, down and left, then L2, R2, L1, R1 and
/// X, A, B, Y from their namesakes; the face, d-pad and L1/R1 pressures are
/// full exactly while their button is pressed, the L2 pressure follows R2
/// and the R2 pressure L2, and the PS button follows Home.
pub proof fn law_dsu_pad_layout(pad: DsuPad, data: Controller)
    requires
        pad.follows(data),
    ensures
        bit16(pad.buttons, 0) == bit64(data.buttons, 9),
        bit16(pad.buttons, 1) == bit64(data.buttons, 18),
        bit16(pad.buttons, 2) == bit64(data.buttons, 19),
        bit16(pad.buttons, 3) == bit64(data.buttons, 8),
        bit16(pad.buttons, 4) == bit64(data.buttons, 4),
        bit16(pad.buttons, 5) == bit64(data.buttons, 7),
        bit16(pad.buttons, 6) == bit64(data.buttons, 5),
        bit16(pad.buttons, 7) == bit64(data.buttons, 6),
        bit16(pad.buttons, 8) == bit64(data.buttons, 12),
        bit16(pad.buttons, 9) == bit64(data.buttons, 13),
        bit16(pad.buttons, 10) == bit64(data.buttons, 10),
        bit16(pad.buttons, 11) == bit64(data.buttons, 11),
        bit16(pad.buttons, 12) == bit64(data.buttons, 2),
        bit16(pad.buttons, 13) == bit64(data.buttons, 0),
        bit16(pad.buttons, 14) == bit64(data.buttons, 1),
        bit16(pad.buttons, 15) == bit64(data.buttons, 3),
        pad.analog_a == (if bit64(data.buttons, 0) { 255u8 } else { 0u8 }),
        pad.analog_b == (if bit64(data.buttons, 1) { 255u8 } else { 0u8 }),
        pad.analog_x == (if bit64(data.buttons, 2) { 255u8 } else { 0u8 }),
        pad.analog_y == (if bit64(data.buttons, 3) { 255u8 } else { 0u8 }),
        pad.analog_dpad_up == (if bit64(data.buttons, 4) { 255u8 } else { 0u8 }),
        pad.analog_dpad_down == (if bit64(data.buttons, 5) { 255u8 } else { 0u8 }),
        pad.analog_dpad_left == (if bit64(data.buttons, 6) { 255u8 } else { 0u8 }),
        pad.analog_dpad_right == (if bit64(data.buttons, 7) { 255u8 } else { 0u8 }),
        pad.analog_l1 == (if bit64(data.buttons, 10) { 255u8 } else { 0u8 }),
        pad.analog_r1 == (if bit64(data.buttons, 11) { 255u8 } else { 0u8 }),
        pad.analog_r2 == (if bit64(data.buttons, 12) { 255u8 } else { 0u8 }),
        pad.analog_l2 == (if bit64(data.buttons, 13) { 255u8 } else { 0u8 }),
        pad.ps_button == (if bit64(data.buttons, 20) { 255u8 } else { 0u8 }),
{
    assert(bit16(pad.buttons, 0) == source_pressed(dsu_source(0), data.buttons));
    assert(bit16(pad.buttons, 1) == source_pressed(dsu_source(1), data.buttons));
    assert(bit16(pad.buttons, 2) == source_pressed(dsu_source(2), data.buttons));
    assert(bit16(pad.buttons, 3) == source_pressed(dsu_source(3), data.buttons));
    assert(bit16(pad.buttons, 4) == source_pressed(dsu_source(4), data.buttons));
    assert(bit16(pad.buttons, 5) == source_pressed(dsu_source(5), data.buttons));
    assert(bit16(pad.buttons, 6) == source_pressed(dsu_source(6), data.buttons));
    assert(bit16(pad.buttons, 7) == source_pressed(dsu_source(7), data.buttons));
    assert(bit16(pad.buttons, 8) == source_pressed(dsu_source(8), data.buttons));
    assert(bit16(pad.buttons, 9) == source_pressed(dsu_source(9), data.buttons));
    assert(bit16(pad.buttons, 10) == source_pressed(dsu_source(10), data.buttons));
    assert(bit16(pad.buttons, 11) == source_pressed(dsu_source(11), data.buttons));
    assert(bit16(pad.buttons, 12) == source_pressed(dsu_source(12), data.buttons));
    assert(bit16(pad.buttons, 13) == source_pressed(dsu_source(13), data.buttons));
    assert(bit16(pad.buttons, 14) == source_pressed(dsu_source(14), data.buttons));
    assert(bit16(pad.buttons, 15) == source_pressed(dsu_source(15), data.buttons));
}

/// How a client asks for pad data.
#[derive(Copy, Clone, Debug, PartialEq, Eq, Structural)]
pub enum Registration {
    AllControllers,
    SlotBased,
    MacBased,
}

/// A client of the server: when it last asked for data (in milliseconds),
/// the slots it asked for and how many packet rounds it was sent.
#[derive(Copy, Clone, Debug)]
pub struct DsuClient {
    pub last_seen: u64,
    pub packet_count: u32,
    pub slots: [bool; 4],
}

/// How long a client is served after its last request, in milliseconds.
pub const CLIENT_TIMEOUT_MS: u64 = 10_000;

/// A client whose last request is more than the timeout before `now`.
/// A clock that reads earlier than the last request counts as no time
/// passed.
pub open spec fn client_expired(c: DsuClient, now: u64) -> bool {
    now > c.last_seen + CLIENT_TIMEOUT_MS
}

/// The clients of a table that have not expired at `now`, in order, each
/// with its address.
pub open spec fn live_clients<A>(s: Seq<(A, DsuClient)>, now: u64) -> Seq<(A, DsuClient)>
    decreases s.len(),
{
    if s.len() == 0 {
        Seq::empty()
    } else if client_expired(s[0].1, now) {
        live_clients(s.drop_first(), now)
    } else {
        seq![s[0]] + live_clients(s.drop_first(), now)
    }
}

/// The clients kept are exactly those of the table that have not expired.
pub proof fn lemma_live_clients<A>(s: Seq<(A, DsuClient)>, now: u64)
    ensures
        forall|e: (A, DsuClient)| #[trigger] live_clients(s, now).contains(e) <==> (s.contains(e) && !client_expired(e.1, now)),
    decreases s.len(),
{
    if s.len() > 0 {
        lemma_live_clients(s.drop_first(), now);
        let rest = live_clients(s.drop_first(), now);
        assert forall|e: (A, DsuClient)| #[trigger] live_clients(s, now).contains(e) <==> (s.contains(e) && !client_expired(e.1, now)) by {
            if s.contains(e) {
                let k = choose|k: int| 0 <= k < s.len() && s[k] == e;
                if k > 0 {
                    assert(s.drop_first()[k - 1] == e);
                }
            }
            if s.drop_first().contains(e) {
                let k = choose|k: int| 0 <= k < s.len() - 1 && s.drop_first()[k] == e;
                assert(s[k + 1] == e);
            }
            if !client_expired(s[0].1, now) {
                let l = seq![s[0]] + rest;
                assert(l[0] == s[0]);
                if l.contains(e) {
                    let k = choose|k: int| 0 <= k < l.len() && l[k] == e;
                    if k > 0 {
                        assert(rest[k - 1] == e);
                    }
                }
                if rest.contains(e) {
                    let k = choose|k: int| 0 <= k < rest.len() && rest[k] == e;
                    assert(l[k + 1] == e);
                }
            }
        }
    }
}

/// Drops the clients that have not asked for data for longer than the
/// timeout; the others stay, in order.
pub fn expire<A>(clients: &mut Vec<(A, DsuClient)>, now: u64)
    ensures
        final(clients)@ == live_clients(old(clients)@, now),
{
    let ghost orig = clients@;
    let mut i: usize = 0;
    proof {
        assert(clients@.subrange(0, 0) + live_clients(clients@.subrange(0, clients@.len() as int), now) =~= live_clients(orig, now)) by {
            assert(clients@.subrange(0, clients@.len() as int) =~= orig);
        }
    }
    while i < clients.len()
        invariant
            i <= clients@.len(),
            clients@.subrange(0, i as int) + live_clients(clients@.subrange(i as int, clients@.len() as int), now) == live_clients(orig, now),
        decreases clients@.len() - i,
    {
        let ghost before = clients@;
        let ghost tail = before.subrange(i as int, before.len() as int);
        assert(tail[0] == before[i as int]);
        assert(tail.drop_first() =~= before.subrange(i + 1, before.len() as int));
        if now > clients[i].1.last_seen && now - clients[i].1.last_seen > CLIENT_TIMEOUT_MS {
            clients.remove(i);
            assert(clients@.subrange(0, i as int) =~= before.subrange(0, i as int));
            assert(clients@.subrange(i as int, clients@.len() as int) =~= before.subrange(i + 1, before.len() as int));
        } else {
            assert(clients@.subrange(0, i + 1) =~= before.subrange(0, i as int) + seq![tail[0]]);
            i = i + 1;
        }
    }
    assert(clients@.subrange(0, clients@.len() as int) =~= clients@);
    assert(clients@.subrange(clients@.len() as int, clients@.len() as int) =~= Seq::<(A, DsuClient)>::empty());
}

/// Whether a request `reg` for slot `slot` asks for slot `s`: all slots,
/// the slot `slot & 3`, or none for a request by MAC address.
pub open spec fn slot_requested(reg: Registration, slot: u8, s: int) -> bool {
    match reg {
        Registration::AllControllers => true,
        Registration::SlotBased => s == slot % 4,
        Registration::MacBased => false,
    }
}

/// `after` is `before` after a request for pad data made at `now`: seen at
/// `now`, the same packet count, and the slots it asked for before together
/// with those of the request.
pub open spec fn registered(before: DsuClient, after: DsuClient, reg: Registration, slot: u8, now: u64) -> bool {
    &&& after.last_seen == now
    &&& after.packet_count == before.packet_count
    &&& forall|s: int| 0 <= s < 4 ==> #[trigger] after.slots@[s] == (before.slots@[s] || slot_requested(reg, slot, s))
}

/// `c` is a client first seen with a request for pad data made at `now`:
/// no packets sent yet, and exactly the slots of the request.
pub open spec fn registered_new(c: DsuClient, reg: Registration, slot: u8, now: u64) -> bool {
    &&& c.last_seen == now
    &&& c.packet_count == 0
    &&& forall|s: int| 0 <= s < 4 ==> #[trigger] c.slots@[s] == slot_requested(reg, slot, s)
}

impl DsuClient {
    /// A client that asked for nothing yet, first seen at `now`.
    pub fn new(now: u64) -> (c: DsuClient)
        ensures
            c.last_seen == now,
            c.packet_count == 0,
            forall|s: int| 0 <= s < 4 ==> !#[trigger] c.slots@[s],
    {
        DsuClient { last_seen: now, packet_count: 0, slots: [false; 4] }
    }

    /// Records a request for pad data made at `now`: all slots, or the
    /// slot `slot & 3`; a request by MAC address adds no slot. Slots
    /// already asked for stay, and the client is seen at `now`.
    pub fn register(&mut self, reg: Registration, slot: u8, now: u64)
        ensures
            registered(*old(self), *final(self), reg, slot, now),
    {
        self.last_seen = now;
        match reg {
            Registration::AllControllers => {
                self.slots = [true; 4];
            },
            Registration::SlotBased => {
                let s = slot & 0b11;
                assert(s == slot % 4) by (bit_vector)
                    requires
                        s == slot & 0b11,
                ;
                self.slots[s as usize] = true;
            },
            Registration::MacBased => {},
        }
    }
}

/// The address a client sends its requests from.
#[derive(Copy, Clone, Debug, PartialEq, Eq, Structural)]
pub struct ClientAddr {
    /// Whether the address is an IPv6 one.
    pub v6: bool,
    /// The IP address (an IPv4 address in the low 32 bits).
    pub ip: u128,
    pub port: u16,
}

/// No two entries of a table are for the same address.
pub open spec fn unique_addrs(s: Seq<(ClientAddr, DsuClient)>) -> bool {
    forall|i: int, j: int| 0 <= i < j < s.len() ==> #[trigger] s[i].0 != #[trigger] s[j].0
}

/// Index of the entry for `addr`, if the table has one.
pub open spec fn addr_index(s: Seq<(ClientAddr, DsuClient)>, addr: ClientAddr) -> Option<int>
    decreases s.len(),
{
    if s.len() == 0 {
        None
    } else if s.last().0 == addr {
        Some(s.len() - 1)
    } else {
        addr_index(s.drop_last(), addr)
    }
}

proof fn lemma_addr_index(s: Seq<(ClientAddr, DsuClient)>, addr: ClientAddr)
    ensures
        match addr_index(s, addr) {
            Some(k) => 0 <= k < s.len() && s[k].0 == addr,
            None => forall|i: int| 0 <= i < s.len() ==> #[trigger] s[i].0 != addr,
        },
    decreases s.len(),
{
    if s.len() > 0 {
        lemma_addr_index(s.drop_last(), addr);
        if s.last().0 != addr {
            assert forall|i: int| 0 <= i < s.len() - 1 implies #[trigger] s[i] == s.drop_last()[i] by {}
        }
    }
}

/// `after` is the table `before` once the client at `addr` asked for pad
/// data at `now`: its entry, if it had one, is registered in place; else a
/// new entry for it is added at the end. Every other entry is kept, and
/// the table has exactly one entry for `addr`.
pub open spec fn requested(
    before: Seq<(ClientAddr, DsuClient)>,
    after: Seq<(ClientAddr, DsuClient)>,
    addr: ClientAddr,
    reg: Registration,
    slot: u8,
    now: u64,
) -> bool {
    let pos = match addr_index(before, addr) {
        Some(k) => k,
        None => before.len() as int,
    };
    &&& after.len() == (if addr_index(before, addr) is Some { before.len() } else { before.len() + 1 })
    &&& forall|i: int| 0 <= i < before.len() && i != pos ==> #[trigger] after[i] == before[i]
    &&& after[pos].0 == addr
    &&& match addr_index(before, addr) {
        Some(k) => registered(before[k].1, after[k].1, reg, slot, now),
        None => registered_new(after[pos].1, reg, slot, now),
    }
    &&& forall|i: int| 0 <= i < after.len() && after[i].0 == addr ==> i == pos
}

/// A request for pad data, as received from a client.
#[derive(Copy, Clone, Debug)]
pub struct DataRequest {
    pub addr: ClientAddr,
    pub registration: Registration,
    pub slot: u8,
}

/// The clients of the server, at most one per address, in the order they
/// first asked for data.
pub struct DsuClients {
    entries: Vec<(ClientAddr, DsuClient)>,
}

proof fn lemma_live_unique(s: Seq<(ClientAddr, DsuClient)>, now: u64)
    requires
        unique_addrs(s),
    ensures
        unique_addrs(live_clients(s, now)),
    decreases s.len(),
{
    if s.len() > 0 {
        let t = s.drop_first();
        assert forall|i: int, j: int| 0 <= i < j < t.len() implies #[trigger] t[i].0 != #[trigger] t[j].0 by {
            assert(t[i] == s[i + 1] && t[j] == s[j + 1]);
        }
        lemma_live_unique(t, now);
        lemma_live_clients(t, now);
        if !client_expired(s[0].1, now) {
            let rest = live_clients(t, now);
            let l = seq![s[0]] + rest;
            assert forall|i: int, j: int| 0 <= i < j < l.len() implies #[trigger] l[i].0 != #[trigger] l[j].0 by {
                if i == 0 {
                    assert(l[j] == rest[j - 1]);
                    assert(rest.contains(rest[j - 1]));
                    assert(t.contains(l[j]));
                    let k = choose|k: int| 0 <= k < t.len() && t[k] == l[j];
                    assert(s[k + 1] == l[j]);
                } else {
                    assert(l[i] == rest[i - 1] && l[j] == rest[j - 1]);
                }
            }
        }
    }
}

impl DsuClients {
    #[verifier::type_invariant]
    spec fn wf(self) -> bool {
        unique_addrs(self.entries@)
    }

    /// The clients, each with its address.
    pub closed spec fn view(&self) -> Seq<(ClientAddr, DsuClient)> {
        self.entries@
    }

    /// No clients.
    pub fn new() -> (t: DsuClients)
        ensures
            t.view() == Seq::<(ClientAddr, DsuClient)>::empty(),
    {
        DsuClients { entries: Vec::new() }
    }

    /// The clients, each with its address, in order.
    pub fn clients(&self) -> (c: &Vec<(ClientAddr, DsuClient)>)
        ensures
            c@ == self.view(),
            unique_addrs(c@),
    {
        proof {
            use_type_invariant(self);
        }
        &self.entries
    }

    /// The clients, to be sent pad data (their packet counts change).
    pub fn clients_mut(&mut self) -> (c: Vec<(ClientAddr, DsuClient)>)
        ensures
            c@ == old(self).view(),
            final(self).view() == Seq::<(ClientAddr, DsuClient)>::empty(),
    {
        let mut c: Vec<(ClientAddr, DsuClient)> = Vec::new();
        std::mem::swap(&mut c, &mut self.entries);
        c
    }

    /// Drops the clients idle for longer than the timeout at `now`.
    pub fn expire(&mut self, now: u64)
        ensures
            final(self).view() == live_clients(old(self).view(), now),
            unique_addrs(final(self).view()),
    {
        proof {
            use_type_invariant(&*self);
        }
        let mut v: Vec<(ClientAddr, DsuClient)> = Vec::new();
        std::mem::swap(&mut v, &mut self.entries);
        let ghost orig = v@;
        expire(&mut v, now);
        proof {
            lemma_live_unique(orig, now);
        }
        self.entries = v;
    }

    /// Records a request for pad data from `addr` made at `now`: the
    /// client's entry is registered, or a new client is added for it.
    pub fn request(&mut self, addr: ClientAddr, reg: Registration, slot: u8, now: u64)
        ensures
            requested(old(self).view(), final(self).view(), addr, reg, slot, now),
            unique_addrs(final(self).view()),
    {
        proof {
            use_type_invariant(&*self);
        }
        let mut v: Vec<(ClientAddr, DsuClient)> = Vec::new();
        std::mem::swap(&mut v, &mut self.entries);
        let ghost orig = v@;
        proof {
            lemma_addr_index(orig, addr);
            assert(orig.subrange(0, orig.len() as int) =~= orig);
        }
        let mut i: usize = v.len();
        while i > 0
            invariant
                i <= v@.len(),
                v@ == orig,
                addr_index(orig, addr) == addr_index(orig.subrange(0, i as int), addr),
            ensures
                i <= v@.len(),
                v@ == orig,
                addr_index(orig, addr) == addr_index(orig.subrange(0, i as int), addr),
                i == 0 || v@[i - 1].0 == addr,
            decreases i,
        {
            let ghost pre = orig.subrange(0, i as int);
            assert(pre.drop_last() =~= orig.subrange(0, i - 1));
            assert(pre.last() == orig[i - 1]);
            if v[i - 1].0 == addr {
                break;
            }
            i = i - 1;
        }
        if i > 0 && v[i - 1].0 == addr {
            let k = i - 1;
            let ghost pre = orig.subrange(0, i as int);
            assert(pre.last() == orig[k as int]);
            assert(addr_index(orig, addr) == Some(k as int));
            let (a, mut c) = v[k];
            c.register(reg, slot, now);
            v.set(k, (a, c));
            proof {
                assert forall|j: int| 0 <= j < v@.len() && v@[j].0 == addr implies j == k by {
                    if j != k {
                        assert(v@[j] == orig[j]);
                        if j < k {
                            assert(orig[j].0 != orig[k as int].0);
                        } else {
                            assert(orig[k as int].0 != orig[j].0);
                        }
                    }
                }
                assert forall|x: int, y: int| 0 <= x < y < v@.len() implies #[trigger] v@[x].0 != #[trigger] v@[y].0 by {
                    assert(v@[x].0 == orig[x].0 && v@[y].0 == orig[y].0);
                }
            }
        } else {
            assert(orig.subrange(0, 0) =~= Seq::<(ClientAddr, DsuClient)>::empty());
            assert(addr_index(orig, addr) is None);
            let mut c = DsuClient::new(now);
            c.register(reg, slot, now);
            v.push((addr, c));
            proof {
                assert forall|x: int, y: int| 0 <= x < y < v@.len() implies #[trigger] v@[x].0 != #[trigger] v@[y].0 by {
                    if y < orig.len() {
                        assert(v@[x] == orig[x] && v@[y] == orig[y]);
                    } else {
                        assert(v@[x] == orig[x]);
                    }
                }
            }
        }
        self.entries = v;
    }

    /// One turn of the server's request loop at time `now`: the idle
    /// clients are dropped first, then a request for pad data, if one came
    /// in, is recorded.
    pub fn query_step(&mut self, now: u64, req: Option<DataRequest>)
        ensures
            match req {
                Some(r) => requested(live_clients(old(self).view(), now), final(self).view(), r.addr, r.registration, r.slot, now),
                None => final(self).view() == live_clients(old(self).view(), now),
            },
            unique_addrs(final(self).view()),
            forall|i: int| 0 <= i < final(self).view().len() ==> !client_expired(#[trigger] final(self).view()[i].1, now),
    {
        self.expire(now);
        let ghost mid = self.view();
        proof {
            lemma_live_clients(old(self).view(), now);
            assert forall|i: int| 0 <= i < mid.len() implies !client_expired(#[trigger] mid[i].1, now) by {
                assert(mid.contains(mid[i]));
            }
        }
        if let Some(r) = req {
            self.request(r.addr, r.registration, r.slot, now);
            proof {
                let fin = self.view();
                assert forall|i: int| 0 <= i < fin.len() implies !client_expired(#[trigger] fin[i].1, now) by {
                    let pos = match addr_index(mid, r.addr) {
                        Some(k) => k,
                        None => mid.len() as int,
                    };
                    if i != pos {
                        assert(fin[i] == mid[i]);
                    }
                }
            }
        }
    }
}

/// The answer to a request for controller information: for each asked
/// slot, in order, the slot and whether its pad is connected.
pub fn info_answers(connected: &[bool; 4], slots: &Vec<u8>) -> (a: Vec<(u8, bool)>)
    requires
        forall|i: int| 0 <= i < slots@.len() ==> #[trigger] slots@[i] < 4,
    ensures
        a@.len() == slots@.len(),
        forall|i: int| 0 <= i < slots@.len() ==> #[trigger] a@[i] == (slots@[i], connected@[slots@[i] as int]),
{
    let mut a: Vec<(u8, bool)> = Vec::new();
    let mut i: usize = 0;
    while i < slots.len()
        invariant
            i <= slots@.len(),
            a@.len() == i,
            forall|k: int| 0 <= k < slots@.len() ==> #[trigger] slots@[k] < 4,
            forall|k: int| 0 <= k < i ==> #[trigger] a@[k] == (slots@[k], connected@[slots@[k] as int]),
        decreases slots@.len() - i,
    {
        let s = slots[i];
        a.push((s, connected[s as usize]));
        i = i + 1;
    }
    a
}

/// The pads of the server, one per slot.
#[derive(Copy, Clone, Debug)]
pub struct DsuServer {
    pub pads: [DsuPad; 4],
}

impl DsuServer {
    /// The server's pads are those of slots 0 to 3, in order.
    pub open spec fn wf(self) -> bool {
        forall|s: int| 0 <= s < 4 ==> (#[trigger] self.pads@[s]).slot == s
    }

    /// Four disconnected pads, of slots 0 to 3.
    pub fn new() -> (srv: DsuServer)
        ensures
            srv.wf(),
            forall|s: int| 0 <= s < 4 ==> #[trigger] srv.pads@[s] == (DsuPad { slot: s as u8, ..DsuPad::zero() }),
    {
        DsuServer { pads: [DsuPad::new(0), DsuPad::new(1), DsuPad::new(2), DsuPad::new(3)] }
    }

    /// Marks the pad of slot `slot & 3` connected or disconnected; nothing
    /// else changes.
    pub fn set_connected(&mut self, slot: u8, connected: bool)
        ensures
            forall|s: int| 0 <= s < 4 ==> #[trigger] final(self).pads@[s] == (if s == slot % 4 {
                DsuPad { connected, ..old(self).pads@[s] }
            } else {
                old(self).pads@[s]
            }),
    {
        let s = slot & 0b11;
        assert(s == slot % 4) by (bit_vector)
            requires
                s == slot & 0b11,
        ;
        let mut pad = self.pads[s as usize];
        pad.connected = connected;
        self.pads[s as usize] = pad;
    }

    /// Writes the gamepad state into the pad of slot `slot`; the other pads
    /// do not change.
    pub fn update_controller(&mut self, slot: u8, data: &Controller)
        requires
            slot < 4,
        ensures
            final(self).pads@[slot as int].follows(*data),
            final(self).pads@[slot as int].slot == old(self).pads@[slot as int].slot,
            final(self).pads@[slot as int].connected == old(self).pads@[slot as int].connected,
            final(self).pads@[slot as int].packet_number == old(self).pads@[slot as int].packet_number,
            forall|s: int| 0 <= s < 4 && s != slot ==> #[trigger] final(self).pads@[s] == old(self).pads@[s],
    {
        let mut pad = self.pads[slot as usize];
        pad.update_controller(data);
        self.pads[slot as usize] = pad;
    }

    /// Starts a packet round for a client: its count goes up by one, the
    /// pads of the slots it asked for take that count as their packet
    /// number, and those slots are returned in order (the pads to send it).
    pub fn stamp_for(&mut self, client: &mut DsuClient) -> (sent: Vec<usize>)
        requires
            old(client).packet_count < u32::MAX,
        ensures
            final(client).packet_count == old(client).packet_count + 1,
            final(client).slots == old(client).slots,
            final(client).last_seen == old(client).last_seen,
            forall|i: int| 0 <= i < sent@.len() ==> #[trigger] sent@[i] < 4,
            forall|i: int, j: int| 0 <= i < j < sent@.len() ==> sent@[i] < sent@[j],
            forall|s: int| 0 <= s < 4 ==> (#[trigger] old(client).slots@[s] <==> sent@.contains(s as usize)),
            forall|s: int| 0 <= s < 4 ==> #[trigger] final(self).pads@[s] == (if old(client).slots@[s] {
                DsuPad { packet_number: final(client).packet_count, ..old(self).pads@[s] }
            } else {
                old(self).pads@[s]
            }),
    {
        client.packet_count = client.packet_count + 1;
        let count = client.packet_count;
        let mut sent: Vec<usize> = Vec::new();
        let mut s: usize = 0;
        while s < 4
            invariant
                s <= 4,
                client.packet_count == count,
                client.slots == old(client).slots,
                client.last_seen == old(client).last_seen,
                forall|i: int| 0 <= i < sent@.len() ==> #[trigger] sent@[i] < s,
                forall|i: int, j: int| 0 <= i < j < sent@.len() ==> sent@[i] < sent@[j],
                forall|t: int| 0 <= t < s ==> (#[trigger] client.slots@[t] <==> sent@.contains(t as usize)),
                forall|t: int| 0 <= t < 4 ==> #[trigger] self.pads@[t] == (if t < s && client.slots@[t] {
                    DsuPad { packet_number: count, ..old(self).pads@[t] }
                } else {
                    old(self).pads@[t]
                }),
            decreases 4 - s,
        {
            if client.slots[s] {
                let mut pad = self.pads[s];
                pad.packet_number = count;
                self.pads[s] = pad;
                let ghost before = sent@;
                sent.push(s);
                proof {
                    assert forall|t: int| 0 <= t < s + 1 implies (#[trigger] client.slots@[t] <==> sent@.contains(t as usize)) by {
                        if t < s && before.contains(t as usize) {
                            let k = choose|k: int| 0 <= k < before.len() && before[k] == t as usize;
                            assert(sent@[k] == t as usize);
                        }
                        if t < s && sent@.contains(t as usize) {
                            let k = choose|k: int| 0 <= k < sent@.len() && sent@[k] == t as usize;
                            if k == before.len() {
                                assert(false);
                            }
                            assert(before[k] == t as usize);
                        }
                        if t == s {
                            assert(sent@[before.len() as int] == s);
                        }
                    }
                }
            } else {
                proof {
                    assert(!sent@.contains(s));
                }
            }
            s = s + 1;
        }
        sent
    }
}

} // verus!
