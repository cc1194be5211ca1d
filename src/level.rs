use vstd::prelude::*;

verus! {

/// Levels are fixed-point numbers: `LEVEL_SCALE` units make the full level 1.0.
pub const LEVEL_SCALE: i64 = 1_000_000;

/// The level `x` (in units of `1 / LEVEL_SCALE`) forced into the closed range
/// from 0.0 to 1.0: `max(0, min(1, x))`.
pub open spec fn clamp_spec(x: int) -> int {
    if x < 0 {
        0
    } else if x > LEVEL_SCALE {
        LEVEL_SCALE as int
    } else {
        x
    }
}

/// A level that lies between 0.0 and 1.0, both included.
pub open spec fn level_in_range(x: int) -> bool {
    0 <= x <= LEVEL_SCALE
}

/// Clamps a raw level into the range from 0.0 to 1.0.
pub fn clamp_level(x: i64) -> (r: i64)
    ensures
        r == clamp_spec(x as int),
        level_in_range(r as int),
{
    if x < 0 {
        0
    } else if x > LEVEL_SCALE {
        LEVEL_SCALE
    } else {
        x
    }
}

/// Clamping twice is clamping once.
pub proof fn lemma_clamp_idempotent(x: int)
    ensures
        clamp_spec(clamp_spec(x)) == clamp_spec(x),
        level_in_range(clamp_spec(x)),
        level_in_range(x) ==> clamp_spec(x) == x,
{
}

} // verus!
