//! The znet network protocol: how received devices are named and told
//! apart, and how sent devices are named.
use vstd::prelude::*;
use vstd::utf8::{valid_utf8, decode_utf8, encode_utf8, is_ascii_chars, encode_utf8_valid_utf8, encode_utf8_decode_utf8, is_ascii_chars_encode_utf8};
use crate::component::ComponentKind;
use crate::device::DeviceInfo;
use crate::text::{digit_chars, digits, push_char, push_digits, push_digit_bytes};

verus! {

/// Length of a device name on the wire.
pub const NAME_LEN: usize = 16;

/// `256` to the power `n`.
pub open spec fn pow256(n: nat) -> nat
    decreases n,
{
    if n == 0 {
        1
    } else {
        256 * pow256((n - 1) as nat)
    }
}

/// The number whose little-endian bytes are `bytes`.
pub open spec fn le_value(bytes: Seq<u8>) -> nat
    decreases bytes.len(),
{
    if bytes.len() == 0 {
        0
    } else {
        (bytes[0] + 256 * le_value(bytes.drop_first())) as nat
    }
}

proof fn lemma_le_value_bound(bytes: Seq<u8>)
    ensures
        le_value(bytes) < pow256(bytes.len()),
    decreases bytes.len(),
{
    if bytes.len() > 0 {
        lemma_le_value_bound(bytes.drop_first());
    }
}

proof fn lemma_pow256_monotonic(a: nat, b: nat)
    requires
        a <= b,
    ensures
        pow256(a) <= pow256(b),
    decreases b,
{
    if a < b {
        lemma_pow256_monotonic(a, (b - 1) as nat);
    }
}

/// The name read as a little-endian 128-bit number.
pub fn name_number(name: &[u8; 16]) -> (v: u128)
    ensures
        v == le_value(name@),
{
    proof {
        reveal_with_fuel(pow256, 17);
        assert(pow256(16) == 0x1_0000_0000_0000_0000_0000_0000_0000_0000);
    }
    let mut v: u128 = 0;
    let mut k: usize = 16;
    assert(name@.subrange(16, 16) =~= Seq::<u8>::empty());
    while k > 0
        invariant
            k <= 16,
            v == le_value(name@.subrange(k as int, 16)),
            pow256(16) == 0x1_0000_0000_0000_0000_0000_0000_0000_0000,
        decreases k,
    {
        let ghost rest = name@.subrange(k as int, 16);
        let ghost next = name@.subrange(k - 1, 16);
        assert(next.drop_first() =~= rest);
        proof {
            lemma_le_value_bound(next);
            lemma_pow256_monotonic(next.len(), 16);
        }
        v = name[k - 1] as u128 + 256 * v;
        k = k - 1;
    }
    assert(name@.subrange(0, 16) =~= name@);
    v
}

/// One past the last non-zero byte, or 0 if every byte is zero.
pub open spec fn text_end(bytes: Seq<u8>) -> nat
    decreases bytes.len(),
{
    if bytes.len() == 0 {
        0
    } else if bytes.last() != 0 {
        bytes.len()
    } else {
        text_end(bytes.drop_last())
    }
}

/// One past the last non-zero byte of the name: the name is its bytes up
/// to there, and the rest is padding.
pub fn name_end(name: &[u8; 16]) -> (end: usize)
    ensures
        end == text_end(name@),
        end <= 16,
        forall|k: int| end <= k < 16 ==> name@[k] == 0,
        end > 0 ==> name@[end - 1] != 0,
{
    let mut end: usize = 0;
    let mut i: usize = 0;
    assert(name@.take(0) =~= Seq::<u8>::empty());
    while i < 16
        invariant
            i <= 16,
            end == text_end(name@.take(i as int)),
            end <= i,
            forall|k: int| end <= k < i ==> name@[k] == 0,
            end > 0 ==> name@[end - 1] != 0,
        decreases 16 - i,
    {
        assert(name@.take(i + 1).drop_last() =~= name@.take(i as int));
        if name[i] != 0 {
            end = i + 1;
        }
        i = i + 1;
    }
    assert(name@.take(16) =~= name@);
    end
}

/// The text of `bytes`; a call of std's `str::from_utf8`, which the
/// documentation describes as failing exactly when the bytes are not
/// UTF-8, and otherwise giving the text they encode.
#[verifier::external_body]
fn utf8_text(bytes: &[u8]) -> (r: Option<String>)
    ensures
        r is Some <==> valid_utf8(bytes@),
        r matches Some(t) ==> t@ == decode_utf8(bytes@),
{
    match std::str::from_utf8(bytes) {
        Ok(t) => Some(t.to_owned()),
        Err(_) => None,
    }
}

/// The display name of a received device: `znet: ` and the name's bytes up
/// to `text_end` if they are UTF-8, else the name as a hexadecimal number.
pub open spec fn device_name_text(name: Seq<u8>) -> Seq<char> {
    let text = name.take(text_end(name) as int);
    "znet: "@ + if valid_utf8(text) {
        decode_utf8(text)
    } else {
        digit_chars(le_value(name), 16)
    }
}

/// The display name of a received device.
pub fn device_name(name: &[u8; 16]) -> (s: String)
    ensures
        s@ == device_name_text(name@),
{
    let end = name_end(name);
    let mut text: Vec<u8> = Vec::new();
    let mut i: usize = 0;
    while i < end
        invariant
            i <= end,
            end <= 16,
            text@ == name@.take(i as int),
        decreases end - i,
    {
        text.push(name[i]);
        assert(text@ =~= name@.take(i + 1));
        i = i + 1;
    }
    let mut s = String::new();
    let prefix = "znet: ";
    s.append(prefix);
    match utf8_text(text.as_slice()) {
        Some(t) => s.append(t.as_str()),
        None => push_digits(&mut s, name_number(name), 16),
    }
    proof {
        assert(s@ == "znet: "@ + if valid_utf8(text@) {
            decode_utf8(text@)
        } else {
            digit_chars(le_value(name@), 16)
        });
    }
    s
}

/// The counts of components, each written `,n` in order.
pub open spec fn counts_text(counts: Seq<usize>) -> Seq<char>
    decreases counts.len(),
{
    if counts.len() == 0 {
        Seq::empty()
    } else {
        counts_text(counts.drop_last()).push(',') + digit_chars(counts.last() as nat, 10)
    }
}

/// The kinds of components a znet device carries, in the order of their
/// counts.
pub open spec fn counted_kind(k: int) -> ComponentKind {
    if k == 0 {
        ComponentKind::Controller
    } else if k == 1 {
        ComponentKind::Motion
    } else if k == 2 {
        ComponentKind::Analogs
    } else if k == 3 {
        ComponentKind::Buttons
    } else {
        ComponentKind::TouchPad
    }
}

/// The stable id of a received device: its name as a hexadecimal number,
/// then the number of components of each kind it carries (controllers,
/// motion sensors, analog banks, button banks, touch pads).
pub fn device_id(name: &[u8; 16], counts: &[usize; 5]) -> (s: String)
    ensures
        s@ == digit_chars(le_value(name@), 16) + counts_text(counts@),
{
    let mut s = String::new();
    push_digits(&mut s, name_number(name), 16);
    let ghost head = s@;
    let mut i: usize = 0;
    assert(counts@.take(0) =~= Seq::<usize>::empty());
    while i < 5
        invariant
            i <= 5,
            s@ == head + counts_text(counts@.take(i as int)),
        decreases 5 - i,
    {
        push_char(&mut s, ',');
        push_digits(&mut s, counts[i] as u128, 10);
        assert(counts@.take(i + 1).drop_last() =~= counts@.take(i as int));
        assert(s@ =~= head + counts_text(counts@.take(i + 1)));
        i = i + 1;
    }
    assert(counts@.take(5) =~= counts@);
    s
}

/// A known device still matches what was received: it has as many
/// components of each kind as the packet carries.
pub fn counts_match(info: &DeviceInfo, counts: &[usize; 5]) -> (r: bool)
    ensures
        r == forall|k: int| 0 <= k < 5 ==> #[trigger] info.component_count(counted_kind(k)) == counts@[k],
{
    let r = info.count(ComponentKind::Controller) == counts[0]
        && info.count(ComponentKind::Motion) == counts[1]
        && info.count(ComponentKind::Analogs) == counts[2]
        && info.count(ComponentKind::Buttons) == counts[3]
        && info.count(ComponentKind::TouchPad) == counts[4];
    proof {
        if !r {
            if info.component_count(ComponentKind::Controller) != counts@[0] {
                assert(info.component_count(counted_kind(0)) != counts@[0]);
            } else if info.component_count(ComponentKind::Motion) != counts@[1] {
                assert(info.component_count(counted_kind(1)) != counts@[1]);
            } else if info.component_count(ComponentKind::Analogs) != counts@[2] {
                assert(info.component_count(counted_kind(2)) != counts@[2]);
            } else if info.component_count(ComponentKind::Buttons) != counts@[3] {
                assert(info.component_count(counted_kind(3)) != counts@[3]);
            } else {
                assert(info.component_count(counted_kind(4)) != counts@[4]);
            }
        }
    }
    r
}

/// The bytes of the name under which the `index`-th sent device goes out:
/// `zcon ` and the index in decimal.
pub open spec fn sender_text(index: nat) -> Seq<u8> {
    seq![122u8, 99u8, 111u8, 110u8, 32u8] + digits(index, 10)
}

/// The name of the `index`-th sent device: its text, padded with zeros to
/// the name length.
pub fn sender_name(index: usize) -> (name: [u8; 16])
    requires
        sender_text(index as nat).len() <= 16,
    ensures
        forall|k: int| 0 <= k < 16 ==> #[trigger] name@[k] == if k < sender_text(index as nat).len() {
            sender_text(index as nat)[k]
        } else {
            0u8
        },
{
    let mut text: Vec<u8> = vec![122u8, 99u8, 111u8, 110u8, 32u8];
    push_digit_bytes(&mut text, index as u128, 10);
    assert(text@ =~= sender_text(index as nat));
    let mut name = [0u8; 16];
    let mut i: usize = 0;
    while i < text.len()
        invariant
            i <= text@.len(),
            text@ == sender_text(index as nat),
            text@.len() <= 16,
            forall|k: int| 0 <= k < 16 ==> #[trigger] name@[k] == if k < i {
                text@[k]
            } else {
                0u8
            },
        decreases text@.len() - i,
    {
        name[i] = text[i];
        i = i + 1;
    }
    name
}

/// ASCII bytes read as characters.
pub open spec fn ascii_chars(bytes: Seq<u8>) -> Seq<char> {
    bytes.map_values(|b: u8| b as char)
}

/// Every digit is an ASCII digit or capital letter, and there is at least
/// one.
proof fn lemma_digits_ascii(n: nat, base: nat)
    requires
        2 <= base <= 16,
    ensures
        digits(n, base).len() >= 1,
        forall|i: int| 0 <= i < digits(n, base).len() ==> 48 <= #[trigger] digits(n, base)[i] < 128,
    decreases n,
{
    if n >= base {
        assert(n / base < n) by (nonlinear_arith)
            requires
                n >= base,
                base >= 2,
        ;
        lemma_digits_ascii(n / base, base);
        assert(n % base < 16) by (nonlinear_arith)
            requires
                base <= 16,
                base >= 2,
        ;
    }
}

/// A byte string whose non-zero bytes end at `e` has its text end there.
proof fn lemma_text_end_at(s: Seq<u8>, e: nat)
    requires
        e <= s.len(),
        forall|k: int| e <= k < s.len() ==> s[k] == 0,
        e > 0 ==> s[e - 1] != 0,
    ensures
        text_end(s) == e,
    decreases s.len(),
{
    if s.len() > e {
        lemma_text_end_at(s.drop_last(), e);
    } else if e > 0 {
        assert(s.last() == s[e - 1]);
    }
}

/// ASCII bytes are UTF-8, and they decode to themselves as characters.
proof fn lemma_ascii_utf8(bytes: Seq<u8>)
    requires
        forall|i: int| 0 <= i < bytes.len() ==> #[trigger] bytes[i] < 128,
    ensures
        valid_utf8(bytes),
        decode_utf8(bytes) == ascii_chars(bytes),
{
    let chars = ascii_chars(bytes);
    assert(is_ascii_chars(chars));
    is_ascii_chars_encode_utf8(chars);
    assert(encode_utf8(chars) =~= bytes);
    encode_utf8_valid_utf8(chars);
    encode_utf8_decode_utf8(chars);
}

/// A device sent under the name `sender_name(index)` is shown by the
/// receiver as `znet: zcon ` and the index in decimal.
pub proof fn law_sender_name_read_back(index: usize, name: [u8; 16])
    requires
        sender_text(index as nat).len() <= 16,
        forall|k: int| 0 <= k < 16 ==> #[trigger] name@[k] == if k < sender_text(index as nat).len() {
            sender_text(index as nat)[k]
        } else {
            0u8
        },
    ensures
        device_name_text(name@) == "znet: "@ + ascii_chars(sender_text(index as nat)),
{
    let t = sender_text(index as nat);
    lemma_digits_ascii(index as nat, 10);
    let d = digits(index as nat, 10);
    assert forall|i: int| 0 <= i < t.len() implies 48 <= #[trigger] t[i] || i < 5 by {
        if i >= 5 {
            assert(t[i] == d[i - 5]);
        }
    }
    assert(t[t.len() - 1] == d[d.len() - 1]);
    lemma_text_end_at(name@, t.len());
    assert(name@.take(t.len() as int) =~= t);
    assert forall|i: int| 0 <= i < t.len() implies #[trigger] t[i] < 128 by {
        if i >= 5 {
            assert(t[i] == d[i - 5]);
        }
    }
    lemma_ascii_utf8(t);
}

} // verus!
