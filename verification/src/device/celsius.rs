//! Temperatures in tenths of a degree, in words.

use crate::text::{decimal, decimal_of, join, signed_decimal, signed_decimal_of};
use vstd::prelude::*;

verus! {

/// Tenths of a degree in whole degrees, rounded towards zero.
pub open spec fn whole_degrees(dc: i32) -> int {
    if dc < 0 {
        -((-dc) / 10)
    } else {
        dc / 10
    }
}

/// Tenths of a degree in whole degrees, rounded towards zero.
pub fn to_degrees(dc: i32) -> (d: i64)
    ensures
        d == whole_degrees(dc),
{
    let wide: i64 = dc as i64;
    if wide < 0 {
        -((-wide) / 10)
    } else {
        wide / 10
    }
}

/// Tenths of a degree, in words: whole degrees, a point, and one place.
pub open spec fn tenths(d: i32) -> Seq<char> {
    signed_decimal(whole_degrees(d)) + "."@ + decimal(
        (if d < 0 {
            (-d) % 10
        } else {
            (d as int) % 10
        }) as nat,
    )
}

/// Tenths of a degree, in words.
pub fn tenths_of(d: i32) -> (s: String)
    ensures
        s@ == tenths(d),
{
    let wide: i64 = d as i64;
    let rest: u64 = if wide < 0 {
        ((-wide) % 10) as u64
    } else {
        (wide % 10) as u64
    };
    let mut s: String = join(signed_decimal_of(to_degrees(d)).as_str(), ".");
    s.append(decimal_of(rest).as_str());
    s
}

/// Tenths of a degree lose less than a degree, and never the sign: the whole degrees are those
/// towards zero.
pub proof fn law_degrees_are_rounded_towards_zero(dc: i32, d: i64)
    requires
        call_ensures(to_degrees, (dc,), d),
    ensures
        dc >= 0 ==> d * 10 <= dc < d * 10 + 10,
        dc <= 0 ==> d * 10 - 10 < dc <= d * 10,
{
}

/// Tenths of a degree are told as the whole degrees towards zero, a point and the tenth.
pub proof fn law_a_temperature_is_told_to_a_tenth(d: i32, s: String, whole: nat, tenth: nat)
    requires
        call_ensures(tenths_of, (d,), s),
        tenth < 10,
    ensures
        d == whole * 10 + tenth ==> s@ == decimal(whole) + "."@ + decimal(tenth),
        d == -(whole * 10 + tenth) && whole > 0 ==> s@ == "-"@ + decimal(whole) + "."@ + decimal(tenth),
{
    assert((whole * 10 + tenth) / 10 == whole && (whole * 10 + tenth) % 10 == tenth);
}

} // verus!
