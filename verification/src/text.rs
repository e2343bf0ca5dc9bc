//! Building user-facing text: joining strings and writing numbers.
use vstd::prelude::*;

verus! {

/// Appends `c` to `s`; a call of std's `String::push`, which the
/// documentation describes as appending the given char to the end of the
/// string.
#[verifier::external_body]
pub(crate) fn push_char(s: &mut String, c: char)
    ensures
        final(s)@ == old(s)@.push(c),
{
    s.push(c);
}

/// The two texts joined.
pub fn concat(head: &str, tail: &str) -> (r: String)
    ensures
        r@ == head@ + tail@,
{
    let mut s = head.to_owned();
    s.append(tail);
    s
}

/// The ASCII digit of `d` (`0`-`9`, then `A`-`F`), for `d < 16`.
pub open spec fn digit_byte(d: nat) -> u8 {
    if d < 10 {
        (48 + d) as u8
    } else {
        (55 + d) as u8
    }
}

/// The digits of `n` in base `base`, most significant first, without
/// leading zeros (zero is written `0`).
pub open spec fn digits(n: nat, base: nat) -> Seq<u8>
    recommends
        2 <= base <= 16,
    decreases n,
{
    if base < 2 {
        Seq::empty()
    } else if n < base {
        seq![digit_byte(n)]
    } else {
        proof {
            assert(n / base < n) by (nonlinear_arith)
                requires
                    n >= base,
                    base >= 2,
            ;
        }
        digits(n / base, base).push(digit_byte(n % base))
    }
}

/// The digits of `n` as characters.
pub open spec fn digit_chars(n: nat, base: nat) -> Seq<char> {
    digits(n, base).map_values(|b: u8| b as char)
}

/// The ASCII digit of `d`.
fn digit(d: u128) -> (b: u8)
    requires
        d < 16,
    ensures
        b == digit_byte(d as nat),
        b < 128,
{
    if d < 10 {
        48 + d as u8
    } else {
        55 + d as u8
    }
}

/// Appends the digits of `n` in base `base` to `s`.
pub fn push_digits(s: &mut String, n: u128, base: u128)
    requires
        2 <= base <= 16,
    ensures
        final(s)@ == old(s)@ + digit_chars(n as nat, base as nat),
    decreases n,
{
    if n >= base {
        assert(n / base < n) by (nonlinear_arith)
            requires
                n >= base,
                base >= 2,
        ;
        push_digits(s, n / base, base);
    }
    let d = digit(n % base);
    assert(n < base ==> n % base == n) by (nonlinear_arith)
        requires
            base >= 2,
    ;
    push_char(s, d as char);
    proof {
        let ds = digits(n as nat, base as nat);
        if n >= base {
            assert(ds == digits((n / base) as nat, base as nat).push(d));
        } else {
            assert(ds == seq![d]);
        }
        assert(digit_chars(n as nat, base as nat) =~= (if n >= base {
            digit_chars((n / base) as nat, base as nat)
        } else {
            Seq::<char>::empty()
        }).push(d as char));
    }
}

/// Appends the digits of `n` in base `base` to a byte buffer.
pub fn push_digit_bytes(v: &mut Vec<u8>, n: u128, base: u128)
    requires
        2 <= base <= 16,
    ensures
        final(v)@ == old(v)@ + digits(n as nat, base as nat),
    decreases n,
{
    if n >= base {
        assert(n / base < n) by (nonlinear_arith)
            requires
                n >= base,
                base >= 2,
        ;
        push_digit_bytes(v, n / base, base);
    }
    let d = digit(n % base);
    assert(n < base ==> n % base == n) by (nonlinear_arith)
        requires
            base >= 2,
    ;
    v.push(d);
    proof {
        if n >= base {
            assert(digits(n as nat, base as nat) == digits((n / base) as nat, base as nat).push(d));
        } else {
            assert(digits(n as nat, base as nat) == seq![d]);
        }
    }
}

/// `prefix`, then the decimal digits of `n`.
pub fn prefixed_number(prefix: &str, n: u128) -> (r: String)
    ensures
        r@ == prefix@ + digit_chars(n as nat, 10),
{
    let mut s = String::new();
    s.append(prefix);
    push_digits(&mut s, n, 10);
    s
}

/// `prefix`, the decimal digits of `n`, then `suffix`.
pub fn with_number(prefix: &str, n: u128, suffix: &str) -> (r: String)
    ensures
        r@ == prefix@ + digit_chars(n as nat, 10) + suffix@,
{
    let mut s = String::new();
    s.append(prefix);
    push_digits(&mut s, n, 10);
    s.append(suffix);
    s
}

} // verus!
