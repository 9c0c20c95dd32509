//! Chromatic note names rotated to start at a chosen root.
use vstd::prelude::*;

use crate::error::HarpError;
use vstd::arithmetic::div_mod::lemma_add_mod_noop;

verus! {

/// Name of pitch class `i` in the sharp-spelled (`sharp`) or flat-spelled table.
pub open spec fn note_name(sharp: bool, i: int) -> Seq<char> {
    if i == 0 {
        seq!['C']
    } else if i == 1 {
        if sharp { seq!['C', '#'] } else { seq!['D', 'b'] }
    } else if i == 2 {
        seq!['D']
    } else if i == 3 {
        if sharp { seq!['D', '#'] } else { seq!['E', 'b'] }
    } else if i == 4 {
        seq!['E']
    } else if i == 5 {
        seq!['F']
    } else if i == 6 {
        if sharp { seq!['F', '#'] } else { seq!['G', 'b'] }
    } else if i == 7 {
        seq!['G']
    } else if i == 8 {
        if sharp { seq!['G', '#'] } else { seq!['A', 'b'] }
    } else if i == 9 {
        seq!['A']
    } else if i == 10 {
        if sharp { seq!['A', '#'] } else { seq!['B', 'b'] }
    } else {
        seq!['B']
    }
}

/// Keys written with sharps: C, G, D, A, E, B and F#. Every other root uses flats.
pub open spec fn uses_sharps(root: Seq<char>) -> bool {
    ||| root == seq!['C']
    ||| root == seq!['G']
    ||| root == seq!['D']
    ||| root == seq!['A']
    ||| root == seq!['E']
    ||| root == seq!['B']
    ||| root == seq!['F', '#']
}

/// `root` sits at position `p` of the table its spelling selects.
pub open spec fn root_at(root: Seq<char>, p: int) -> bool {
    0 <= p < 12 && note_name(uses_sharps(root), p) == root
}

/// `root` is a name of the table its spelling selects.
pub open spec fn is_known_root(root: Seq<char>) -> bool {
    exists|p: int| root_at(root, p)
}

/// Entry `k` of the rotation of a table that starts at position `p`; the
/// rotation goes on past twelve entries by wrapping around.
pub open spec fn rotated(sharp: bool, p: int, k: int) -> Seq<char> {
    note_name(sharp, (p + k) % 12)
}

/// Mathematical model of a scale: its root and its twelve note names.
#[verifier::ext_equal]
pub struct ScaleView {
    pub root: Seq<char>,
    pub notes: Seq<Seq<char>>,
}

impl ScaleView {
    /// Twelve names, the first being the root.
    pub open spec fn wf(self) -> bool {
        self.notes.len() == 12
    }

    /// This is the scale of `root`, whose name stands at position `p` of its table.
    pub open spec fn is_rotation_at(self, root: Seq<char>, p: int) -> bool {
        &&& root_at(root, p)
        &&& self.root == root
        &&& self.notes.len() == 12
        &&& forall|k: int| 0 <= k < 12 ==> self.notes[k] == rotated(uses_sharps(root), p, k)
    }
}

/// The chromatic note names of a key, starting at its root, spelled with
/// sharps or flats as the key asks.
#[derive(Debug, Clone)]
pub struct Scale {
    root: String,
    notes: Vec<String>,
}

impl View for Scale {
    type V = ScaleView;

    closed spec fn view(&self) -> ScaleView {
        ScaleView { root: self.root@, notes: self.notes@.map_values(|s: String| s@) }
    }
}

/// The twelve names of the sharp-spelled or flat-spelled table.
fn note_table(sharp: bool) -> (r: Vec<String>)
    ensures
        r@.len() == 12,
        forall|i: int| 0 <= i < 12 ==> #[trigger] r@[i]@ == note_name(sharp, i),
{
    proof {
        reveal_strlit("C");
        assert("C"@ =~= seq!['C']);
        reveal_strlit("C#");
        assert("C#"@ =~= seq!['C', '#']);
        reveal_strlit("Db");
        assert("Db"@ =~= seq!['D', 'b']);
        reveal_strlit("D");
        assert("D"@ =~= seq!['D']);
        reveal_strlit("D#");
        assert("D#"@ =~= seq!['D', '#']);
        reveal_strlit("Eb");
        assert("Eb"@ =~= seq!['E', 'b']);
        reveal_strlit("E");
        assert("E"@ =~= seq!['E']);
        reveal_strlit("F");
        assert("F"@ =~= seq!['F']);
        reveal_strlit("F#");
        assert("F#"@ =~= seq!['F', '#']);
        reveal_strlit("Gb");
        assert("Gb"@ =~= seq!['G', 'b']);
        reveal_strlit("G");
        assert("G"@ =~= seq!['G']);
        reveal_strlit("G#");
        assert("G#"@ =~= seq!['G', '#']);
        reveal_strlit("Ab");
        assert("Ab"@ =~= seq!['A', 'b']);
        reveal_strlit("A");
        assert("A"@ =~= seq!['A']);
        reveal_strlit("A#");
        assert("A#"@ =~= seq!['A', '#']);
        reveal_strlit("Bb");
        assert("Bb"@ =~= seq!['B', 'b']);
        reveal_strlit("B");
        assert("B"@ =~= seq!['B']);
    }
    let mut t: Vec<String> = Vec::new();
    t.push("C".to_owned());
    t.push(if sharp { "C#".to_owned() } else { "Db".to_owned() });
    t.push("D".to_owned());
    t.push(if sharp { "D#".to_owned() } else { "Eb".to_owned() });
    t.push("E".to_owned());
    t.push("F".to_owned());
    t.push(if sharp { "F#".to_owned() } else { "Gb".to_owned() });
    t.push("G".to_owned());
    t.push(if sharp { "G#".to_owned() } else { "Ab".to_owned() });
    t.push("A".to_owned());
    t.push(if sharp { "A#".to_owned() } else { "Bb".to_owned() });
    t.push("B".to_owned());
    t
}

/// True when `root` is one of the keys written with sharps.
fn is_sharp_key(root: &String) -> (r: bool)
    ensures
        r == uses_sharps(root@),
{
    proof {
        reveal_strlit("C");
        assert("C"@ =~= seq!['C']);
        reveal_strlit("G");
        assert("G"@ =~= seq!['G']);
        reveal_strlit("D");
        assert("D"@ =~= seq!['D']);
        reveal_strlit("A");
        assert("A"@ =~= seq!['A']);
        reveal_strlit("E");
        assert("E"@ =~= seq!['E']);
        reveal_strlit("B");
        assert("B"@ =~= seq!['B']);
        reveal_strlit("F#");
        assert("F#"@ =~= seq!['F', '#']);
    }
    let c = "C".to_owned();
    let g = "G".to_owned();
    let d = "D".to_owned();
    let a = "A".to_owned();
    let e = "E".to_owned();
    let b = "B".to_owned();
    let f_sharp = "F#".to_owned();
    *root == c || *root == g || *root == d || *root == a || *root == e || *root == b
        || *root == f_sharp
}

impl Scale {
    /// The scale of `note`: the twelve chromatic names starting at `note`,
    /// spelled with sharps for C, G, D, A, E, B and F# and with flats otherwise.
    /// Fails with `UnknownRoot` when `note` is not a name of that table.
    pub fn new(note: &str) -> (r: Result<Scale, HarpError>)
        ensures
            r is Ok <==> is_known_root(note@),
            r is Err ==> r->Err_0 == HarpError::UnknownRoot,
            r is Ok ==> exists|p: int| #[trigger] r->Ok_0@.is_rotation_at(note@, p),
            r is Ok ==> r->Ok_0@.wf() && r->Ok_0@.notes[0] == note@,
    {
        let root = note.to_owned();
        let sharp = is_sharp_key(&root);
        let table = note_table(sharp);
        let mut pos: usize = 0;
        while pos < 12
            invariant
                pos <= 12,
                root@ == note@,
                sharp == uses_sharps(note@),
                table@.len() == 12,
                forall|i: int| 0 <= i < 12 ==> #[trigger] table@[i]@ == note_name(sharp, i),
                forall|i: int| 0 <= i < pos ==> !root_at(note@, i),
            ensures
                pos <= 12,
                pos < 12 ==> root_at(note@, pos as int),
                forall|i: int| 0 <= i < pos ==> !root_at(note@, i),
            decreases 12 - pos,
        {
            if table[pos] == root {
                break;
            }
            pos = pos + 1;
        }
        if pos == 12 {
            return Err(HarpError::UnknownRoot);
        }
        let mut notes: Vec<String> = Vec::new();
        let mut k: usize = 0;
        while k < 12
            invariant
                pos < 12,
                k <= 12,
                table@.len() == 12,
                forall|i: int| 0 <= i < 12 ==> #[trigger] table@[i]@ == note_name(sharp, i),
                notes@.len() == k,
                forall|j: int| 0 <= j < k ==> #[trigger] notes@[j]@ == rotated(sharp, pos as int, j),
            decreases 12 - k,
        {
            notes.push(table[(pos + k) % 12].clone());
            k = k + 1;
        }
        let s = Scale { root, notes };
        assert(s@.notes.len() == 12);
        assert forall|j: int| 0 <= j < 12 implies s@.notes[j] == rotated(sharp, pos as int, j) by {
            assert(notes@[j]@ == rotated(sharp, pos as int, j));
        }
        let r: Result<Scale, HarpError> = Ok(s);
        assert(r->Ok_0@.is_rotation_at(note@, pos as int));
        r
    }

    /// Name of pitch class `pitch % 12` in this key.
    pub fn name_of(&self, pitch: usize) -> (r: &String)
        requires
            self@.wf(),
        ensures
            r@ == self@.notes[pitch as int % 12],
    {
        &self.notes[pitch % 12]
    }

    /// Names of one row of a layout in this key: the name of each present
    /// pitch class, and a single space for each absent one.
    pub fn row_names(&self, row: &Vec<Option<usize>>) -> (r: Vec<String>)
        requires
            self@.wf(),
        ensures
            r@.len() == row@.len(),
            forall|i: int| 0 <= i < row@.len() ==> #[trigger] r@[i]@ == cell_name(self@, row@[i]),
    {
        let mut r: Vec<String> = Vec::with_capacity(row.len());
        let mut i: usize = 0;
        while i < row.len()
            invariant
                self@.wf(),
                i <= row@.len(),
                r@.len() == i,
                forall|j: int| 0 <= j < i ==> #[trigger] r@[j]@ == cell_name(self@, row@[j]),
            decreases row@.len() - i,
        {
            proof {
                reveal_strlit(" ");
                assert(" "@ =~= seq![' ']);
            }
            let cell = match row[i] {
                Some(p) => self.name_of(p).clone(),
                None => " ".to_owned(),
            };
            r.push(cell);
            i = i + 1;
        }
        r
    }

    /// The root this scale was built from.
    pub fn root(&self) -> (r: &String)
        ensures
            r@ == self@.root,
    {
        &self.root
    }

    /// The twelve note names, starting at the root.
    pub fn notes(&self) -> (r: &Vec<String>)
        ensures
            r@.map_values(|s: String| s@) == self@.notes,
    {
        &self.notes
    }
}

/// Display text of one entry of a layout row in the key of `s`.
pub open spec fn cell_name(s: ScaleView, entry: Option<usize>) -> Seq<char> {
    match entry {
        Some(p) => s.notes[p as int % 12],
        None => seq![' '],
    }
}

/// A scale repeats every twelve semitones: continuing the rotation past its
/// twelve names gives, at every position `k`, the name stored at `k % 12`.
pub proof fn lemma_scale_periodic(s: ScaleView, root: Seq<char>, p: int, k: int)
    requires
        s.is_rotation_at(root, p),
        0 <= k,
    ensures
        rotated(uses_sharps(root), p, k) == s.notes[k % 12],
{
    lemma_add_mod_noop(p, k, 12);
    lemma_add_mod_noop(p, k % 12, 12);
    assert((k % 12) % 12 == k % 12);
    assert(p % 12 == p);
}

} // verus!
