//! Note layout of a diatonic harmonica: which pitch each hole sounds on blow,
//! on draw and on every bend, and the chromatic note names of a key.
use vstd::prelude::*;

pub mod error;
pub mod pitch;
pub mod scale;
pub mod tuning;

pub use error::HarpError;
pub use scale::Scale;
pub use tuning::Tuning;

use scale::{root_at, ScaleView};
use tuning::derived;

verus! {

/// Blow row of the demonstration instrument.
pub open spec fn wilde_top() -> Seq<usize> {
    seq![0, 4, 7, 0, 4, 4, 7, 0, 4, 9]
}

/// Draw row of the demonstration instrument.
pub open spec fn wilde_bottom() -> Seq<usize> {
    seq![2, 7, 11, 2, 5, 7, 11, 2, 7, 0]
}

/// The demonstration layout: a ten-hole instrument in Wilde tuning, with
/// the scale of C to name its pitches.
pub fn test() -> (r: (Tuning, Scale))
    ensures
        r.0@ == derived(wilde_top(), wilde_bottom()),
        r.0@.wf(),
        r.1@.is_rotation_at(seq!['C'], 0),
{
    let top: Vec<usize> = vec![0, 4, 7, 0, 4, 4, 7, 0, 4, 9];
    let bottom: Vec<usize> = vec![2, 7, 11, 2, 5, 7, 11, 2, 7, 0];
    assert(top@ =~= wilde_top());
    assert(bottom@ =~= wilde_bottom());
    let tuning = Tuning::new(top, bottom);
    proof {
        reveal_strlit("C");
        assert("C"@ =~= seq!['C']);
        assert(root_at(seq!['C'], 0));
    }
    let scale = Scale::new("C");
    assert(scale is Ok);
    let scale = scale.unwrap();
    proof {
        let s: ScaleView = scale@;
        let p = choose|p: int| s.is_rotation_at(seq!['C'], p);
        assert(root_at(seq!['C'], p));
        assert(p == 0) by {
            if p != 0 {
                assert(scale::note_name(true, p).len() == 2 || scale::note_name(true, p)[0] != 'C');
            }
        }
    }
    (tuning, scale)
}

} // verus!
