//! Derivation of a harmonica's full note layout from its blow and draw pitches.
use vstd::prelude::*;

use crate::error::HarpError;
use crate::pitch::{mod12, normalize_interval, normalized};

verus! {

/// Pitch reached by bending the draw reed down a half step, if the hole allows it.
pub open spec fn draw_bend_half(top: int, bottom: int) -> Option<usize> {
    let (t, b) = normalized(top, bottom);
    if b > t && b - t >= 2 { Some(((b - 1) % 12) as usize) } else { None }
}

/// Pitch reached by bending the draw reed down a whole step, if the hole allows it.
pub open spec fn draw_bend_full(top: int, bottom: int) -> Option<usize> {
    let (t, b) = normalized(top, bottom);
    if b > t && b - t >= 3 { Some(((b - 2) % 12) as usize) } else { None }
}

/// Pitch reached by bending the draw reed down a step and a half, if the hole allows it.
pub open spec fn draw_bend_one_and_half(top: int, bottom: int) -> Option<usize> {
    let (t, b) = normalized(top, bottom);
    if b > t && b - t == 4 { Some(((b - 3) % 12) as usize) } else { None }
}

/// Pitch reached by bending the blow reed down a half step, if the hole allows it.
pub open spec fn blow_bend_half(top: int, bottom: int) -> Option<usize> {
    let (t, b) = normalized(top, bottom);
    if t >= b && t - b >= 2 { Some(((t - 1) % 12) as usize) } else { None }
}

/// Pitch reached by bending the blow reed down a whole step, if the hole allows it.
pub open spec fn blow_bend_full(top: int, bottom: int) -> Option<usize> {
    let (t, b) = normalized(top, bottom);
    if t >= b && t - b == 3 { Some(((t - 2) % 12) as usize) } else { None }
}

/// Every value is a pitch class.
pub open spec fn is_pitch_seq(s: Seq<usize>) -> bool {
    forall|i: int| 0 <= i < s.len() ==> s[i] < 12
}

/// Mathematical model of a layout: seven rows, one entry per hole.
#[verifier::ext_equal]
pub struct TuningView {
    pub blow: Seq<Option<usize>>,
    pub draw: Seq<Option<usize>>,
    pub bends_half: Seq<Option<usize>>,
    pub bends_full: Seq<Option<usize>>,
    pub bends_one_and_half: Seq<Option<usize>>,
    pub blow_bends_half: Seq<Option<usize>>,
    pub blow_bends_full: Seq<Option<usize>>,
}

impl TuningView {
    /// Seven rows of one common length; blow and draw present on every hole,
    /// and every present value a pitch class.
    pub open spec fn wf(self) -> bool {
        let n = self.blow.len();
        &&& self.draw.len() == n
        &&& self.bends_half.len() == n
        &&& self.bends_full.len() == n
        &&& self.bends_one_and_half.len() == n
        &&& self.blow_bends_half.len() == n
        &&& self.blow_bends_full.len() == n
        &&& forall|i: int| 0 <= i < n ==> self.blow[i] is Some && self.draw[i] is Some
        &&& forall|i: int| 0 <= i < n ==> row_is_pitched(self.blow, i) && row_is_pitched(self.draw, i)
        &&& forall|i: int| 0 <= i < n ==> row_is_pitched(self.bends_half, i) && row_is_pitched(self.bends_full, i)
        &&& forall|i: int| 0 <= i < n ==> row_is_pitched(self.bends_one_and_half, i)
        &&& forall|i: int| 0 <= i < n ==> row_is_pitched(self.blow_bends_half, i) && row_is_pitched(self.blow_bends_full, i)
    }
}

/// Some draw bend exists on hole `i`.
pub open spec fn draw_bend_at(v: TuningView, i: int) -> bool {
    v.bends_half[i] is Some || v.bends_full[i] is Some || v.bends_one_and_half[i] is Some
}

/// Some blow bend exists on hole `i`.
pub open spec fn blow_bend_at(v: TuningView, i: int) -> bool {
    v.blow_bends_half[i] is Some || v.blow_bends_full[i] is Some
}

/// The entry at `i` is absent or a pitch class.
pub open spec fn row_is_pitched(row: Seq<Option<usize>>, i: int) -> bool {
    match row[i] {
        Some(p) => p < 12,
        None => true,
    }
}

/// The layout of an instrument whose holes blow `top` and draw `bottom`.
pub open spec fn derived(top: Seq<usize>, bottom: Seq<usize>) -> TuningView {
    TuningView {
        blow: Seq::new(top.len(), |i: int| Some(top[i])),
        draw: Seq::new(top.len(), |i: int| Some(bottom[i])),
        bends_half: Seq::new(top.len(), |i: int| draw_bend_half(top[i] as int, bottom[i] as int)),
        bends_full: Seq::new(top.len(), |i: int| draw_bend_full(top[i] as int, bottom[i] as int)),
        bends_one_and_half: Seq::new(
            top.len(),
            |i: int| draw_bend_one_and_half(top[i] as int, bottom[i] as int),
        ),
        blow_bends_half: Seq::new(top.len(), |i: int| blow_bend_half(top[i] as int, bottom[i] as int)),
        blow_bends_full: Seq::new(top.len(), |i: int| blow_bend_full(top[i] as int, bottom[i] as int)),
    }
}

/// Note layout of a harmonica: for each hole, the blow and draw pitch classes
/// and the pitch class of each bend the hole allows.
#[derive(Debug, PartialEq, Clone)]
pub struct Tuning {
    blow: Vec<Option<usize>>,
    draw: Vec<Option<usize>>,
    bends_half: Vec<Option<usize>>,
    bends_full: Vec<Option<usize>>,
    bends_one_and_half: Vec<Option<usize>>,
    blow_bends_half: Vec<Option<usize>>,
    blow_bends_full: Vec<Option<usize>>,
}

impl View for Tuning {
    type V = TuningView;

    closed spec fn view(&self) -> TuningView {
        TuningView {
            blow: self.blow@,
            draw: self.draw@,
            bends_half: self.bends_half@,
            bends_full: self.bends_full@,
            bends_one_and_half: self.bends_one_and_half@,
            blow_bends_half: self.blow_bends_half@,
            blow_bends_full: self.blow_bends_full@,
        }
    }
}

/// `len` holes, none of which has a value in this row yet.
fn empty_row(len: usize) -> (r: Vec<Option<usize>>)
    ensures
        r@ == Seq::new(len as nat, |i: int| None::<usize>),
{
    let mut r: Vec<Option<usize>> = Vec::with_capacity(len);
    while r.len() < len
        invariant
            r.len() <= len,
            forall|i: int| 0 <= i < r.len() ==> r@[i] == None::<usize>,
        decreases len - r.len(),
    {
        r.push(None);
    }
    assert(r@ =~= Seq::new(len as nat, |i: int| None::<usize>));
    r
}

/// The reference (Richter) layout of ten holes, row by row.
pub open spec fn richter() -> TuningView {
    TuningView {
        blow: seq![Some(0), Some(4), Some(7), Some(0), Some(4), Some(7), Some(0), Some(4), Some(7), Some(0)],
        draw: seq![Some(2), Some(7), Some(11), Some(2), Some(5), Some(9), Some(11), Some(2), Some(5), Some(9)],
        bends_half: seq![Some(1), Some(6), Some(10), Some(1), None, Some(8), None, None, None, None],
        bends_full: seq![None, Some(5), Some(9), None, None, None, None, None, None, None],
        bends_one_and_half: seq![None, None, Some(8), None, None, None, None, None, None, None],
        blow_bends_half: seq![None, None, None, None, None, None, None, Some(3), Some(6), Some(11)],
        blow_bends_full: seq![None, None, None, None, None, None, None, None, None, Some(10)],
    }
}

impl Default for Tuning {
    /// The reference (Richter) tuning of ten holes.
    fn default() -> (r: Tuning)
        ensures
            r@ == richter(),
            r@.wf(),
    {
        let r = Tuning {
            blow: vec![Some(0), Some(4), Some(7), Some(0), Some(4), Some(7), Some(0), Some(4), Some(7), Some(0)],
            draw: vec![Some(2), Some(7), Some(11), Some(2), Some(5), Some(9), Some(11), Some(2), Some(5), Some(9)],
            bends_half: vec![Some(1), Some(6), Some(10), Some(1), None, Some(8), None, None, None, None],
            bends_full: vec![None, Some(5), Some(9), None, None, None, None, None, None, None],
            bends_one_and_half: vec![None, None, Some(8), None, None, None, None, None, None, None],
            blow_bends_half: vec![None, None, None, None, None, None, None, Some(3), Some(6), Some(11)],
            blow_bends_full: vec![None, None, None, None, None, None, None, None, None, Some(10)],
        };
        assert(r@ =~= richter());
        proof {
            lemma_richter_wf();
        }
        r
    }
}

impl Tuning {
    /// Derives the layout of an instrument whose holes blow `top_notes` and
    /// draw `bottom_notes`.
    pub fn new(top_notes: Vec<usize>, bottom_notes: Vec<usize>) -> (r: Tuning)
        requires
            top_notes.len() == bottom_notes.len(),
            is_pitch_seq(top_notes@),
            is_pitch_seq(bottom_notes@),
        ensures
            r@ == derived(top_notes@, bottom_notes@),
            r@.wf(),
    {
        let n = top_notes.len();
        let mut blow: Vec<Option<usize>> = Vec::with_capacity(n);
        let mut draw: Vec<Option<usize>> = Vec::with_capacity(n);
        let mut bends_half = empty_row(n);
        let mut bends_full = empty_row(n);
        let mut bends_one_and_half = empty_row(n);
        let mut blow_bends_half = empty_row(n);
        let mut blow_bends_full = empty_row(n);
        let ghost want = derived(top_notes@, bottom_notes@);

        let mut i: usize = 0;
        while i < n
            invariant
                n == top_notes.len(),
                n == bottom_notes.len(),
                is_pitch_seq(top_notes@),
                is_pitch_seq(bottom_notes@),
                want == derived(top_notes@, bottom_notes@),
                i <= n,
                blow@ == want.blow.subrange(0, i as int),
                draw@ == want.draw.subrange(0, i as int),
                bends_half.len() == n,
                bends_full.len() == n,
                bends_one_and_half.len() == n,
                blow_bends_half.len() == n,
                blow_bends_full.len() == n,
                forall|j: int| 0 <= j < i ==> bends_half@[j] == want.bends_half[j],
                forall|j: int| 0 <= j < i ==> bends_full@[j] == want.bends_full[j],
                forall|j: int| 0 <= j < i ==> bends_one_and_half@[j] == want.bends_one_and_half[j],
                forall|j: int| 0 <= j < i ==> blow_bends_half@[j] == want.blow_bends_half[j],
                forall|j: int| 0 <= j < i ==> blow_bends_full@[j] == want.blow_bends_full[j],
                forall|j: int| i <= j < n ==> bends_half@[j] == None::<usize>,
                forall|j: int| i <= j < n ==> bends_full@[j] == None::<usize>,
                forall|j: int| i <= j < n ==> bends_one_and_half@[j] == None::<usize>,
                forall|j: int| i <= j < n ==> blow_bends_half@[j] == None::<usize>,
                forall|j: int| i <= j < n ==> blow_bends_full@[j] == None::<usize>,
            decreases n - i,
        {
            let (top, bottom) = normalize_interval(top_notes[i], bottom_notes[i]);
            if bottom > top {
                if bottom - top == 4 {
                    bends_one_and_half.set(i, Some(mod12(bottom - 3)));
                }
                if bottom - top >= 3 {
                    bends_full.set(i, Some(mod12(bottom - 2)));
                }
                if bottom - top >= 2 {
                    bends_half.set(i, Some(mod12(bottom - 1)));
                }
            } else {
                if top - bottom == 3 {
                    blow_bends_full.set(i, Some(mod12(top - 2)));
                }
                if top - bottom >= 2 {
                    blow_bends_half.set(i, Some(mod12(top - 1)));
                }
            }
            blow.push(Some(top_notes[i]));
            draw.push(Some(bottom_notes[i]));
            i = i + 1;
            assert(blow@ =~= want.blow.subrange(0, i as int));
            assert(draw@ =~= want.draw.subrange(0, i as int));
        }
        let r = Tuning {
            blow,
            draw,
            bends_half,
            bends_full,
            bends_one_and_half,
            blow_bends_half,
            blow_bends_full,
        };
        assert(r@ =~= want);
        proof {
            lemma_derived_wf(top_notes@, bottom_notes@);
        }
        r
    }

    /// Derives the layout of an instrument whose holes blow `top_notes` and
    /// draw `bottom_notes`, rejecting sequences of different lengths and
    /// values that are not pitch classes.
    pub fn derive(top_notes: Vec<usize>, bottom_notes: Vec<usize>) -> (r: Result<Tuning, HarpError>)
        ensures
            top_notes.len() != bottom_notes.len() ==> r == Err::<Tuning, HarpError>(HarpError::LengthMismatch),
            top_notes.len() == bottom_notes.len() && !(is_pitch_seq(top_notes@) && is_pitch_seq(bottom_notes@))
                ==> r == Err::<Tuning, HarpError>(HarpError::IndexOutOfRange),
            top_notes.len() == bottom_notes.len() && is_pitch_seq(top_notes@) && is_pitch_seq(bottom_notes@)
                ==> r is Ok && r->Ok_0@ == derived(top_notes@, bottom_notes@) && r->Ok_0@.wf(),
    {
        if top_notes.len() != bottom_notes.len() {
            return Err(HarpError::LengthMismatch);
        }
        if !all_pitch_classes(&top_notes) || !all_pitch_classes(&bottom_notes) {
            return Err(HarpError::IndexOutOfRange);
        }
        Ok(Tuning::new(top_notes, bottom_notes))
    }

    /// Number of holes.
    pub fn holes(&self) -> (r: usize)
        ensures
            r == self@.blow.len(),
    {
        self.blow.len()
    }

    /// Pitch class of each hole on blow.
    pub fn blow(&self) -> (r: &Vec<Option<usize>>)
        ensures
            r@ == self@.blow,
    {
        &self.blow
    }

    /// Pitch class of each hole on draw.
    pub fn draw(&self) -> (r: &Vec<Option<usize>>)
        ensures
            r@ == self@.draw,
    {
        &self.draw
    }

    /// Half-step draw bend of each hole, where it exists.
    pub fn bends_half(&self) -> (r: &Vec<Option<usize>>)
        ensures
            r@ == self@.bends_half,
    {
        &self.bends_half
    }

    /// Whole-step draw bend of each hole, where it exists.
    pub fn bends_full(&self) -> (r: &Vec<Option<usize>>)
        ensures
            r@ == self@.bends_full,
    {
        &self.bends_full
    }

    /// Step-and-a-half draw bend of each hole, where it exists.
    pub fn bends_one_and_half(&self) -> (r: &Vec<Option<usize>>)
        ensures
            r@ == self@.bends_one_and_half,
    {
        &self.bends_one_and_half
    }

    /// Half-step blow bend of each hole, where it exists.
    pub fn blow_bends_half(&self) -> (r: &Vec<Option<usize>>)
        ensures
            r@ == self@.blow_bends_half,
    {
        &self.blow_bends_half
    }

    /// Whole-step blow bend of each hole, where it exists.
    pub fn blow_bends_full(&self) -> (r: &Vec<Option<usize>>)
        ensures
            r@ == self@.blow_bends_full,
    {
        &self.blow_bends_full
    }
}

/// True when every value of `v` is a pitch class.
fn all_pitch_classes(v: &Vec<usize>) -> (r: bool)
    ensures
        r == is_pitch_seq(v@),
{
    let mut i: usize = 0;
    while i < v.len()
        invariant
            i <= v.len(),
            forall|j: int| 0 <= j < i ==> v@[j] < 12,
        decreases v.len() - i,
    {
        if v[i] >= 12 {
            return false;
        }
        i = i + 1;
    }
    true
}

/// Every derived layout is well formed.
pub proof fn lemma_derived_wf(top: Seq<usize>, bottom: Seq<usize>)
    requires
        top.len() == bottom.len(),
        is_pitch_seq(top),
        is_pitch_seq(bottom),
    ensures
        derived(top, bottom).wf(),
{
}

/// The reference layout is well formed.
pub proof fn lemma_richter_wf()
    ensures
        richter().wf(),
{
    let v = richter();
    assert forall|i: int| 0 <= i < 10 implies row_is_pitched(v.bends_half, i) by {
        assert(0 <= i < 10);
    }
}

/// Bends are nested: on every hole, a deeper bend exists only where the
/// shallower bends on the same reed exist too.
pub proof fn lemma_bend_depths_nested(top: Seq<usize>, bottom: Seq<usize>, i: int)
    requires
        top.len() == bottom.len(),
        0 <= i < top.len(),
    ensures
        derived(top, bottom).bends_full[i] is Some ==> derived(top, bottom).bends_half[i] is Some,
        derived(top, bottom).bends_one_and_half[i] is Some ==> derived(top, bottom).bends_full[i] is Some,
        derived(top, bottom).blow_bends_full[i] is Some ==> derived(top, bottom).blow_bends_half[i] is Some,
{
}

/// No hole offers both a draw bend and a blow bend.
pub proof fn lemma_bend_sides_exclusive(top: Seq<usize>, bottom: Seq<usize>, i: int)
    requires
        top.len() == bottom.len(),
        0 <= i < top.len(),
    ensures
        !(draw_bend_at(derived(top, bottom), i) && blow_bend_at(derived(top, bottom), i)),
{
}

} // verus!
