use vstd::prelude::*;
use vstd::string::StringExecFns;

verus! {

/// One decimal digit as text; only inputs below ten arise.
pub open spec fn spec_digit(d: int) -> Seq<char> {
    if d == 0 {
        "0"@
    } else if d == 1 {
        "1"@
    } else if d == 2 {
        "2"@
    } else if d == 3 {
        "3"@
    } else if d == 4 {
        "4"@
    } else if d == 5 {
        "5"@
    } else if d == 6 {
        "6"@
    } else if d == 7 {
        "7"@
    } else if d == 8 {
        "8"@
    } else {
        "9"@
    }
}

/// Decimal text of a nonnegative integer, most significant digit first, no
/// leading zeros except for zero itself.
pub open spec fn spec_uint_str(n: nat) -> Seq<char>
    decreases n,
{
    if n < 10 {
        spec_digit(n as int)
    } else {
        spec_uint_str(n / 10) + spec_digit((n % 10) as int)
    }
}

/// Decimal text of a signed integer: a leading minus sign for negatives.
pub open spec fn spec_int_str(v: int) -> Seq<char> {
    if v < 0 {
        "-"@ + spec_uint_str((-v) as nat)
    } else {
        spec_uint_str(v as nat)
    }
}

fn digit_str(d: u32) -> (r: &'static str)
    requires
        d < 10,
    ensures
        r@ == spec_digit(d as int),
{
    if d == 0 {
        "0"
    } else if d == 1 {
        "1"
    } else if d == 2 {
        "2"
    } else if d == 3 {
        "3"
    } else if d == 4 {
        "4"
    } else if d == 5 {
        "5"
    } else if d == 6 {
        "6"
    } else if d == 7 {
        "7"
    } else if d == 8 {
        "8"
    } else {
        "9"
    }
}

/// Decimal rendering of an unsigned operand.
pub fn u32_to_string(n: u32) -> (s: String)
    ensures
        s@ == spec_uint_str(n as nat),
    decreases n,
{
    if n < 10 {
        String::from_str(digit_str(n))
    } else {
        let mut s = u32_to_string(n / 10);
        s.append(digit_str(n % 10));
        s
    }
}

/// Decimal rendering of a signed operand.
pub fn i32_to_string(v: i32) -> (s: String)
    ensures
        s@ == spec_int_str(v as int),
{
    if v >= 0 {
        u32_to_string(v as u32)
    } else {
        let mag: u32 = (-(v as i64)) as u32;
        let mut s = String::from_str("-");
        let t = u32_to_string(mag);
        s.append(t.as_str());
        s
    }
}

} // verus!
