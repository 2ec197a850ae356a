use vstd::prelude::*;

verus! {

/// Bit pattern of `+0.0`: the value written in place of a missing sample.
pub const PLACEHOLDER_BITS: u64 = 0;

/// The sign bit of a binary64 bit pattern.
pub const SIGN_BIT: u64 = 0x8000_0000_0000_0000;

/// Everything but the sign bit.
pub const MAGNITUDE_MASK: u64 = 0x7fff_ffff_ffff_ffff;

/// The magnitude bits of positive infinity; any larger magnitude is a NaN.
pub const INFINITY_MAGNITUDE: u64 = 0x7ff0_0000_0000_0000;

pub open spec fn magnitude(b: u64) -> u64 {
    b & MAGNITUDE_MASK
}

pub open spec fn negative(b: u64) -> bool {
    b >= SIGN_BIT
}

/// `b` encodes a NaN: the missing-observation sentinel.
pub open spec fn nan(b: u64) -> bool {
    magnitude(b) > INFINITY_MAGNITUDE
}

/// IEEE-754 `<` on the numbers that two bit patterns encode: false when
/// either is a NaN, and `-0.0` and `+0.0` are equal.
pub open spec fn float_lt(a: u64, b: u64) -> bool {
    &&& !nan(a)
    &&& !nan(b)
    &&& if negative(a) && negative(b) {
        magnitude(b) < magnitude(a)
    } else if !negative(a) && !negative(b) {
        magnitude(a) < magnitude(b)
    } else if negative(a) {
        !(magnitude(a) == 0 && magnitude(b) == 0)
    } else {
        false
    }
}

/// Whether the sample `b` is missing (a NaN).
pub fn is_missing(b: u64) -> (r: bool)
    ensures
        r == nan(b),
{
    (b & MAGNITUDE_MASK) > INFINITY_MAGNITUDE
}

/// Whether the number encoded by `a` is strictly smaller than that encoded by `b`.
pub fn precedes(a: u64, b: u64) -> (r: bool)
    ensures
        r == float_lt(a, b),
{
    if is_missing(a) || is_missing(b) {
        return false;
    }
    let ma = a & MAGNITUDE_MASK;
    let mb = b & MAGNITUDE_MASK;
    let na = a >= SIGN_BIT;
    let nb = b >= SIGN_BIT;
    if na && nb {
        mb < ma
    } else if !na && !nb {
        ma < mb
    } else if na {
        !(ma == 0 && mb == 0)
    } else {
        false
    }
}

} // verus!
