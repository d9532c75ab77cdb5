use ear_trainer::range::{clamp_octaves, NoteRange, MIDDLE_C, NOTES_PER_OCTAVE};

#[test]
fn one_octave_runs_from_middle_c_up() {
    let range = NoteRange::for_octaves(1);
    assert_eq!(range.min_note, 60);
    assert_eq!(range.max_note, 72);
}

#[test]
fn two_octaves_add_the_octave_below() {
    let range = NoteRange::for_octaves(2);
    assert_eq!(range.min_note, 48);
    assert_eq!(range.max_note, 72);
}

#[test]
fn three_and_four_octaves() {
    assert_eq!(NoteRange::for_octaves(3), NoteRange { min_note: 48, max_note: 84 });
    assert_eq!(NoteRange::for_octaves(4), NoteRange { min_note: 36, max_note: 84 });
}

#[test]
fn five_octaves_reach_two_below_and_three_above() {
    let range = NoteRange::for_octaves(5);
    assert_eq!(range.min_note, 60 - 12 * 2);
    assert_eq!(range.max_note, 60 + 12 * 3);
    assert_eq!(range.min_note, 36);
    assert_eq!(range.max_note, 96);
}

#[test]
fn octave_count_is_held_to_one_to_five() {
    assert_eq!(clamp_octaves(0), 1);
    assert_eq!(clamp_octaves(1), 1);
    assert_eq!(clamp_octaves(3), 3);
    assert_eq!(clamp_octaves(5), 5);
    assert_eq!(clamp_octaves(6), 5);
    assert_eq!(clamp_octaves(u32::MAX), 5);
    assert_eq!(NoteRange::for_octaves(0), NoteRange::for_octaves(1));
    assert_eq!(NoteRange::for_octaves(6), NoteRange::for_octaves(5));
    assert_eq!(NoteRange::for_octaves(u32::MAX), NoteRange::for_octaves(5));
}

#[test]
fn every_range_is_made_of_whole_octaves_around_middle_c() {
    for octaves in 0u32..10 {
        let range = NoteRange::for_octaves(octaves);
        assert!(range.min_note <= MIDDLE_C && MIDDLE_C < range.max_note);
        assert_eq!((MIDDLE_C - range.min_note) % NOTES_PER_OCTAVE, 0);
        assert_eq!((range.max_note - MIDDLE_C) % NOTES_PER_OCTAVE, 0);
        assert_eq!(range.max_note - range.min_note, 12 * clamp_octaves(octaves));
    }
}

#[test]
fn includes_counts_both_ends() {
    let range = NoteRange::for_octaves(2);
    assert!(!range.includes(47));
    assert!(range.includes(48));
    assert!(range.includes(60));
    assert!(range.includes(72));
    assert!(!range.includes(73));
    assert!(!range.includes(0));
    assert!(!range.includes(u32::MAX));
}

#[test]
fn draw_stays_in_the_range() {
    for octaves in 1u32..=5 {
        let range = NoteRange::for_octaves(octaves);
        for _ in 0..500 {
            let note = range.draw().unwrap();
            assert!(range.includes(note));
        }
    }
}

#[test]
fn draw_does_not_always_give_the_lowest_note() {
    let range = NoteRange::for_octaves(5);
    let mut low = 0;
    let mut high = 0;
    for _ in 0..400 {
        let note = range.draw().unwrap();
        if note == range.min_note {
            low += 1;
        }
        if note == range.max_note {
            high += 1;
        }
    }
    assert!(low < 400);
    assert!(high < 400);
}

#[test]
fn draw_from_a_single_note_gives_that_note() {
    let range = NoteRange { min_note: 61, max_note: 61 };
    for _ in 0..20 {
        assert_eq!(range.draw(), Some(61));
    }
}

#[test]
fn draw_from_an_empty_range_gives_nothing() {
    let range = NoteRange { min_note: 61, max_note: 60 };
    assert_eq!(range.draw(), None);
}
