//! Semitone arithmetic on pitch classes.
use vstd::prelude::*;

verus! {

/// Number of pitch classes in the chromatic cycle.
pub const OCTAVE: usize = 12;

/// The working pair of a hole after octave correction: when the two reeds lie
/// five or more semitones apart, the lower one is raised by an octave.
pub open spec fn normalized(top: int, bottom: int) -> (int, int) {
    if -5 < top - bottom < 5 {
        (top, bottom)
    } else if top > bottom {
        (top, bottom + 12)
    } else {
        (top + 12, bottom)
    }
}

/// `x` reduced to its pitch class.
pub fn mod12(x: usize) -> (r: usize)
    ensures
        r == x % 12,
        r < 12,
{
    x % OCTAVE
}

/// True when the two pitches lie less than five semitones apart.
pub fn is_within_5_semitones(top: usize, bottom: usize) -> (r: bool)
    ensures
        r == (-5 < top - bottom < 5),
{
    if top >= bottom {
        top - bottom < 5
    } else {
        bottom - top < 5
    }
}

/// Octave correction of a blow/draw pair: when the reeds lie five or more
/// semitones apart, the lower one is raised by twelve semitones.
pub fn normalize_interval(top: usize, bottom: usize) -> (r: (usize, usize))
    requires
        top < 12,
        bottom < 12,
    ensures
        (r.0 as int, r.1 as int) == normalized(top as int, bottom as int),
        r.0 < 24,
        r.1 < 24,
{
    if is_within_5_semitones(top, bottom) {
        (top, bottom)
    } else if top > bottom {
        (top, bottom + OCTAVE)
    } else {
        (top + OCTAVE, bottom)
    }
}

/// A pair that already lies within a fourth is left as it is.
pub proof fn lemma_normalize_idempotent(top: int, bottom: int)
    requires
        -5 < top - bottom < 5,
    ensures
        normalized(top, bottom) == (top, bottom),
{
}

} // verus!
