//! Hidden settings of the application.

use vstd::prelude::*;
use vstd::string::StringSliceAdditionalSpecFns;

verus! {

/// An ASCII decimal digit.
pub open spec fn is_digit(b: u8) -> bool {
    48 <= b <= 57
}

/// The value of a string of decimal digits.
pub open spec fn digits_value(d: Seq<u8>) -> nat
    decreases d.len(),
{
    if d.len() == 0 {
        0
    } else {
        digits_value(d.drop_last()) * 10 + (d.last() - 48) as nat
    }
}

/// Every byte is a decimal digit.
pub open spec fn all_digits(d: Seq<u8>) -> bool {
    forall|i: int| 0 <= i < d.len() ==> is_digit(#[trigger] d[i])
}

/// `s` without its leading `+`, if any.
pub open spec fn unsigned_part(s: Seq<u8>) -> Seq<u8> {
    if s.len() > 0 && s[0] == 43 {
        s.drop_first()
    } else {
        s
    }
}

/// The `u8` written in decimal by `s`: an optional `+`, then one or more
/// digits, of value at most 255; anything else (white space, a `-`, an empty
/// string) is no `u8`.
pub open spec fn decimal_u8(s: Seq<u8>) -> Option<u8> {
    let d = unsigned_part(s);
    if d.len() > 0 && all_digits(d) && digits_value(d) <= 255 {
        Some(digits_value(d) as u8)
    } else {
        None
    }
}

proof fn lemma_digits_value_prefix(d: Seq<u8>, k: int)
    requires
        0 <= k <= d.len(),
        all_digits(d),
    ensures
        digits_value(d.subrange(0, k)) <= digits_value(d),
    decreases d.len() - k,
{
    if k < d.len() {
        let p = d.subrange(0, k + 1);
        assert(p.drop_last() =~= d.subrange(0, k));
        lemma_digits_value_prefix(d, k + 1);
    } else {
        assert(d.subrange(0, k) =~= d);
    }
}

/// Parses a `u8` written in decimal.
pub fn parse_u8(s: &str) -> (r: Option<u8>)
    ensures
        r == decimal_u8(s.spec_bytes()),
{
    let b = s.as_bytes();
    let n = b.len();
    let ghost sb = s.spec_bytes();
    let mut start: usize = 0;
    if n > 0 && b[0] == 43 {
        start = 1;
    }
    let ghost d = unsigned_part(sb);
    assert(d =~= sb.subrange(start as int, n as int));
    if start >= n {
        return None;
    }
    let mut v: u16 = 0;
    let mut i: usize = start;
    while i < n
        invariant
            b@ == sb,
            sb == s.spec_bytes(),
            d == unsigned_part(sb),
            d.len() > 0,
            n == sb.len(),
            start <= i <= n,
            d =~= sb.subrange(start as int, n as int),
            v <= 255,
            v == digits_value(d.subrange(0, i - start)),
            forall|j: int| 0 <= j < i - start ==> is_digit(#[trigger] d[j]),
        decreases n - i,
    {
        let c = b[i];
        if c < 48 || c > 57 {
            assert(!is_digit(d[i - start]));
            return None;
        }
        assert(d.subrange(0, i - start + 1).drop_last() =~= d.subrange(0, i - start));
        v = v * 10 + (c - 48) as u16;
        if v > 255 {
            proof {
                if all_digits(d) {
                    lemma_digits_value_prefix(d, i - start + 1);
                }
            }
            return None;
        }
        i = i + 1;
    }
    assert(d.subrange(0, n - start) =~= d);
    Some(v as u8)
}

/// Whether TLS is disabled, given the value of the hidden setting (`None`
/// when it is not set): only a value that parses as the `u8` 1 disables it.
pub fn no_tls_from(value: Option<&str>) -> (r: bool)
    ensures
        r == (value matches Some(s) && decimal_u8(s.spec_bytes()) == Some(1u8)),
{
    match value {
        Some(s) => match parse_u8(s) {
            Some(x) => x == 1,
            None => false,
        },
        None => false,
    }
}

} // verus!
