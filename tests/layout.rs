use harmonica::pitch::{is_within_5_semitones, mod12, normalize_interval};
use harmonica::{HarpError, Scale, Tuning};

fn names(v: &[&str]) -> Vec<String> {
    v.iter().map(|s| s.to_string()).collect()
}

#[test]
fn test_tuning_new() {
    let tuning = Tuning::new(
        vec![0, 4, 7, 0, 4, 7, 0, 4, 7, 0],
        vec![2, 7, 11, 2, 5, 9, 11, 2, 5, 9],
    );
    assert_eq!(tuning, Tuning::default());
}

#[test]
fn derive_richter_matches_default() {
    let tuning = Tuning::derive(
        vec![0, 4, 7, 0, 4, 7, 0, 4, 7, 0],
        vec![2, 7, 11, 2, 5, 9, 11, 2, 5, 9],
    )
    .unwrap();
    assert_eq!(tuning, Tuning::default());
}

#[test]
fn wilde_tuning_holes() {
    let t = Tuning::derive(
        vec![0, 4, 7, 0, 4, 4, 7, 0, 4, 9],
        vec![2, 7, 11, 2, 5, 7, 11, 2, 7, 0],
    )
    .unwrap();
    // hole 4: bottom 5, top 4, one semitone apart: no bends at all
    assert_eq!(t.bends_half()[4], None);
    assert_eq!(t.bends_full()[4], None);
    assert_eq!(t.bends_one_and_half()[4], None);
    assert_eq!(t.blow_bends_half()[4], None);
    assert_eq!(t.blow_bends_full()[4], None);
    // hole 5: bottom 7, top 4, three semitones apart
    assert_eq!(t.bends_full()[5], Some(5));
    assert_eq!(t.bends_half()[5], Some(6));
    assert_eq!(t.bends_one_and_half()[5], None);
    // hole 9: top 9, bottom 0 wraps to 12
    assert_eq!(t.bends_half()[9], Some(11));
    assert_eq!(t.bends_full()[9], Some(10));
    assert_eq!(t.bends_one_and_half()[9], None);
    assert_eq!(t.blow()[9], Some(9));
    assert_eq!(t.draw()[9], Some(0));
    assert_eq!(t.holes(), 10);
}

#[test]
fn demo_layout() {
    let (t, s) = harmonica::test();
    assert_eq!(t.bends_full()[5], Some(5));
    assert_eq!(s.root(), "C");
    assert_eq!(s.notes()[1], "C#");
}

#[test]
fn derive_length_mismatch() {
    assert_eq!(
        Tuning::derive(vec![0, 1, 2], vec![0, 1]),
        Err(HarpError::LengthMismatch)
    );
}

#[test]
fn derive_out_of_range_pitch() {
    assert_eq!(
        Tuning::derive(vec![0, 12], vec![0, 1]),
        Err(HarpError::IndexOutOfRange)
    );
}

#[test]
fn derive_empty() {
    let t = Tuning::derive(vec![], vec![]).unwrap();
    assert_eq!(t.holes(), 0);
    assert!(t.bends_half().is_empty());
}

#[test]
fn one_and_half_step_sets_three_bends() {
    let t = Tuning::derive(vec![7], vec![11]).unwrap();
    assert_eq!(t.bends_one_and_half()[0], Some(8));
    assert_eq!(t.bends_full()[0], Some(9));
    assert_eq!(t.bends_half()[0], Some(10));
    assert_eq!(t.blow_bends_half()[0], None);
}

#[test]
fn blow_side_bends() {
    // top 5, bottom 2: three apart on the blow side
    let t = Tuning::derive(vec![5], vec![2]).unwrap();
    assert_eq!(t.blow_bends_full()[0], Some(3));
    assert_eq!(t.blow_bends_half()[0], Some(4));
    assert_eq!(t.bends_half()[0], None);
}

#[test]
fn wrapped_draw_side_bends() {
    // top 11, bottom 2: nine apart, so bottom is raised to 14, three above top
    let t = Tuning::derive(vec![11], vec![2]).unwrap();
    assert_eq!(t.bends_full()[0], Some(0));
    assert_eq!(t.bends_half()[0], Some(1));
    assert_eq!(t.blow_bends_half()[0], None);
    assert_eq!(t.blow()[0], Some(11));
    assert_eq!(t.draw()[0], Some(2));
}

#[test]
fn equal_reeds_have_no_bends() {
    let t = Tuning::derive(vec![3], vec![3]).unwrap();
    assert_eq!(t.bends_half()[0], None);
    assert_eq!(t.blow_bends_half()[0], None);
}

#[test]
fn bends_nested_and_sides_exclusive() {
    for top in 0..12usize {
        for bottom in 0..12usize {
            let t = Tuning::derive(vec![top], vec![bottom]).unwrap();
            if t.bends_full()[0].is_some() {
                assert!(t.bends_half()[0].is_some());
            }
            if t.bends_one_and_half()[0].is_some() {
                assert!(t.bends_full()[0].is_some());
            }
            if t.blow_bends_full()[0].is_some() {
                assert!(t.blow_bends_half()[0].is_some());
            }
            let draw = t.bends_half()[0].is_some() || t.bends_full()[0].is_some();
            let blow = t.blow_bends_half()[0].is_some() || t.blow_bends_full()[0].is_some();
            assert!(!(draw && blow));
        }
    }
}

#[test]
fn normalize_interval_values() {
    assert_eq!(normalize_interval(4, 7), (4, 7));
    assert_eq!(normalize_interval(9, 0), (9, 12));
    assert_eq!(normalize_interval(0, 9), (12, 9));
    assert_eq!(normalize_interval(0, 5), (12, 5));
    assert_eq!(normalize_interval(3, 7), (3, 7));
    assert!(is_within_5_semitones(7, 3));
    assert!(!is_within_5_semitones(0, 5));
    assert_eq!(mod12(14), 2);
    assert_eq!(mod12(11), 11);
}

#[test]
fn scale_of_c_is_sharp() {
    let s = Scale::new("C").unwrap();
    assert_eq!(
        s.notes(),
        &names(&["C", "C#", "D", "D#", "E", "F", "F#", "G", "G#", "A", "A#", "B"])
    );
}

#[test]
fn scale_of_f_is_flat() {
    let s = Scale::new("F").unwrap();
    assert_eq!(&s.notes()[..4], &names(&["F", "Gb", "G", "Ab"])[..]);
    assert_eq!(s.root(), "F");
}

#[test]
fn scale_of_f_sharp_is_sharp() {
    let s = Scale::new("F#").unwrap();
    assert_eq!(&s.notes()[..3], &names(&["F#", "G", "G#"])[..]);
}

#[test]
fn scale_unknown_root() {
    assert_eq!(Scale::new("H").unwrap_err(), HarpError::UnknownRoot);
    assert_eq!(Scale::new("").unwrap_err(), HarpError::UnknownRoot);
    // a sharp name outside the sharp keys is looked up in the flat table
    assert_eq!(Scale::new("C#").unwrap_err(), HarpError::UnknownRoot);
}

#[test]
fn scale_root_comes_first() {
    for root in ["C", "G", "D", "A", "E", "B", "F#", "F", "Bb", "Eb", "Ab", "Db", "Gb"] {
        let s = Scale::new(root).unwrap();
        assert_eq!(s.notes()[0], root);
        assert_eq!(s.notes().len(), 12);
    }
}

#[test]
fn scale_lookup_is_periodic() {
    let s = Scale::new("A").unwrap();
    for k in 0..40usize {
        assert_eq!(s.name_of(k), s.name_of(k % 12));
    }
    assert_eq!(s.name_of(0), "A");
    assert_eq!(s.name_of(3), "C");
    assert_eq!(s.name_of(15), "C");
}

#[test]
fn row_names_in_key() {
    let s = Scale::new("C").unwrap();
    let row = s.row_names(&vec![Some(1), None, Some(13)]);
    assert_eq!(row, names(&["C#", " ", "C#"]));
    let g = Scale::new("G").unwrap();
    assert_eq!(g.row_names(&vec![Some(0), Some(4)]), names(&["G", "B"]));
}
