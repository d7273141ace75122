//! The `grpc-timeout` request header: an ASCII decimal followed by one unit
//! letter (`H`, `M`, `S`, `m`, `u`, `n`).
use core::time::Duration;
use vstd::prelude::*;

use crate::text::chars_of;
use crate::time::{duration_nanos, from_micros, from_millis, from_nanos, from_secs};

verus! {

pub open spec fn is_digit(c: char) -> bool {
    '0' <= c && c <= '9'
}

pub open spec fn digit_value(c: char) -> nat {
    (c as nat - '0' as nat) as nat
}

/// The number that a string of decimal digits spells.
pub open spec fn decimal_value(s: Seq<char>) -> nat
    decreases s.len(),
{
    if s.len() == 0 {
        0
    } else {
        decimal_value(s.drop_last()) * 10 + digit_value(s.last())
    }
}

/// The text that `u64::from_str` reads as digits: an optional leading `+`
/// is dropped.
pub open spec fn unsigned_digits(s: Seq<char>) -> Seq<char> {
    if s.len() > 0 && s[0] == '+' {
        s.drop_first()
    } else {
        s
    }
}

/// What `u64::from_str` gives back: the value when the text is a non-empty
/// run of digits (after an optional `+`) whose value fits in a `u64`.
pub open spec fn spec_parse_u64(s: Seq<char>) -> Option<u64> {
    let d = unsigned_digits(s);
    if d.len() > 0 && (forall|i: int| 0 <= i < d.len() ==> #[trigger] is_digit(d[i]))
        && decimal_value(d) <= u64::MAX {
        Some(decimal_value(d) as u64)
    } else {
        None
    }
}

/// Nanoseconds per unit of each `grpc-timeout` unit letter.
pub open spec fn unit_nanos(u: char) -> Option<nat> {
    if u == 'H' {
        Some(3_600_000_000_000)
    } else if u == 'M' {
        Some(60_000_000_000)
    } else if u == 'S' {
        Some(1_000_000_000)
    } else if u == 'm' {
        Some(1_000_000)
    } else if u == 'u' {
        Some(1_000)
    } else if u == 'n' {
        Some(1)
    } else {
        None
    }
}

/// The deadline, in nanoseconds, that a `grpc-timeout` value names, if any.
pub open spec fn spec_grpc_timeout(s: Seq<char>) -> Option<nat> {
    if s.len() == 0 {
        None
    } else {
        let v = spec_parse_u64(s.drop_last());
        let f = unit_nanos(s.last());
        if v is Some && f is Some {
            Some(v->0 as nat * f->0)
        } else {
            None
        }
    }
}

/// The inputs on which the header is read without a fault: the unit letter
/// (the last character) is ASCII, and the hours or minutes, counted in
/// seconds, fit in a `u64`.
pub open spec fn grpc_timeout_readable(s: Seq<char>) -> bool {
    s.len() > 0 ==> {
        &&& (s.last() as u32) < 128
        &&& (spec_parse_u64(s.drop_last()) matches Some(v) ==> {
            &&& s.last() == 'H' ==> v * 3600 <= u64::MAX
            &&& s.last() == 'M' ==> v * 60 <= u64::MAX
        })
    }
}

proof fn lemma_decimal_push(s: Seq<char>, c: char)
    ensures
        decimal_value(s.push(c)) == decimal_value(s) * 10 + digit_value(c),
{
    assert(s.push(c).drop_last() =~= s);
}

/// `u64::from_str` on the characters `chars[start..end]`.
fn parse_u64(chars: &Vec<char>, start: usize, end: usize) -> (r: Option<u64>)
    requires
        start <= end <= chars.len(),
    ensures
        r == spec_parse_u64(chars@.subrange(start as int, end as int)),
{
    let ghost s = chars@.subrange(start as int, end as int);
    let mut i = start;
    if i < end && chars[i] == '+' {
        i = i + 1;
    }
    let ghost d = unsigned_digits(s);
    assert(d =~= chars@.subrange(i as int, end as int));
    if i == end {
        return None;
    }
    let mut k = i;
    while k < end
        invariant
            s == chars@.subrange(start as int, end as int),
            d == unsigned_digits(s),
            i <= k <= end <= chars.len(),
            d == chars@.subrange(i as int, end as int),
            forall|m: int| 0 <= m < k - i ==> #[trigger] is_digit(d[m]),
        decreases end - k,
    {
        let c = chars[k];
        assert(d[k - i] == c);
        if !('0' <= c && c <= '9') {
            assert(!is_digit(d[k - i]));
            return None;
        }
        k = k + 1;
    }
    let mut value: u64 = 0;
    let mut j = i;
    while j < end
        invariant
            s == chars@.subrange(start as int, end as int),
            d == unsigned_digits(s),
            i <= j <= end <= chars.len(),
            d == chars@.subrange(i as int, end as int),
            forall|m: int| 0 <= m < d.len() ==> #[trigger] is_digit(d[m]),
            value == decimal_value(d.take(j - i)),
        decreases end - j,
    {
        let c = chars[j];
        assert(d[j - i] == c);
        assert(is_digit(d[j - i]));
        proof {
            lemma_decimal_push(d.take(j - i), c);
            assert(d.take(j - i).push(c) =~= d.take(j - i + 1));
        }
        let digit = (c as u32 - '0' as u32) as u64;
        match value.checked_mul(10) {
            Some(m) => match m.checked_add(digit) {
                Some(v) => {
                    value = v;
                },
                None => {
                    proof {
                        lemma_decimal_prefix_bound(d, (j - i + 1) as int);
                        assert(decimal_value(d) > u64::MAX);
                    }
                    return None;
                },
            },
            None => {
                proof {
                    lemma_decimal_prefix_bound(d, (j - i + 1) as int);
                    assert(decimal_value(d) > u64::MAX);
                }
                return None;
            },
        }
        j = j + 1;
    }
    assert(d.take(j - i) =~= d);
    Some(value)
}

/// A run of digits is worth at least as much as any of its prefixes.
proof fn lemma_decimal_prefix_bound(d: Seq<char>, n: int)
    requires
        0 <= n <= d.len(),
        forall|k: int| 0 <= k < d.len() ==> #[trigger] is_digit(d[k]),
    ensures
        decimal_value(d.take(n)) <= decimal_value(d),
    decreases d.len() - n,
{
    if n < d.len() {
        lemma_decimal_prefix_bound(d, n + 1);
        lemma_decimal_push(d.take(n), d[n]);
        assert(d.take(n).push(d[n]) =~= d.take(n + 1));
    } else {
        assert(d.take(n) =~= d);
    }
}

/// Whether `parse_grpc_timeout` can read `timeout_str` without a fault:
/// see `grpc_timeout_readable`.
pub fn grpc_timeout_is_readable(timeout_str: &str) -> (r: bool)
    ensures
        r == grpc_timeout_readable(timeout_str@),
{
    let chars = chars_of(timeout_str);
    let n = chars.len();
    if n == 0 {
        return true;
    }
    let unit = chars[n - 1];
    assert(chars@.subrange(0, n - 1) =~= timeout_str@.drop_last());
    if !((unit as u32) < 128) {
        return false;
    }
    match parse_u64(&chars, 0, n - 1) {
        Some(val) => if unit == 'H' {
            val.checked_mul(3600).is_some()
        } else if unit == 'M' {
            val.checked_mul(60).is_some()
        } else {
            true
        },
        None => true,
    }
}

/// `val` counted in the unit that the letter `unit` names, if it names one.
fn duration_in_unit(val: u64, unit: char) -> (r: Option<Duration>)
    requires
        unit == 'H' ==> val * 3600 <= u64::MAX,
        unit == 'M' ==> val * 60 <= u64::MAX,
    ensures
        r is Some <==> unit_nanos(unit) is Some,
        r matches Some(d) ==> duration_nanos(d) == val * unit_nanos(unit)->0,
{
    if unit == 'H' {
        let d = from_secs(val * 3600);
        assert(duration_nanos(d) == val * 3_600_000_000_000) by (nonlinear_arith)
            requires
                duration_nanos(d) == (val * 3600) * 1_000_000_000,
        ;
        Some(d)
    } else if unit == 'M' {
        let d = from_secs(val * 60);
        assert(duration_nanos(d) == val * 60_000_000_000) by (nonlinear_arith)
            requires
                duration_nanos(d) == (val * 60) * 1_000_000_000,
        ;
        Some(d)
    } else if unit == 'S' {
        Some(from_secs(val))
    } else if unit == 'm' {
        Some(from_millis(val))
    } else if unit == 'u' {
        Some(from_micros(val))
    } else if unit == 'n' {
        Some(from_nanos(val))
    } else {
        None
    }
}

/// Reads a `grpc-timeout` header value into the deadline it names.
///
/// Gives `None` for an empty value, a value whose digits do not form a
/// `u64`, or an unknown unit letter.
pub fn parse_grpc_timeout(timeout_str: &str) -> (r: Option<Duration>)
    requires
        grpc_timeout_readable(timeout_str@),
    ensures
        r is Some <==> spec_grpc_timeout(timeout_str@) is Some,
        r matches Some(d) ==> duration_nanos(d) == spec_grpc_timeout(timeout_str@)->0,
{
    let chars = chars_of(timeout_str);
    let n = chars.len();
    if n == 0 {
        return None;
    }
    let unit = chars[n - 1];
    assert(chars@.subrange(0, n - 1) =~= timeout_str@.drop_last());
    assert(unit == timeout_str@.last());
    match parse_u64(&chars, 0, n - 1) {
        Some(val) => duration_in_unit(val, unit),
        None => None,
    }
}

} // verus!
