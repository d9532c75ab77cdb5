use ear_trainer::score::{grade, score};

#[test]
fn eight_perfect_and_two_wrong_octave_of_ten_score_90() {
    assert_eq!(8 * 2 + 2, 18);
    assert_eq!(18 * 100 / 10, 180);
    assert_eq!((180 + 1) / 2, 90);
    assert_eq!(score(10, 8, 2), 90);
}

#[test]
fn score_of_exactly_90_is_an_a_minus() {
    assert_eq!(grade(score(10, 8, 2)), "A-");
    assert_eq!(grade(90), "A-");
    assert_ne!(grade(90), "B+");
    assert_ne!(grade(90), "B-");
}

#[test]
fn grade_changes_at_each_threshold() {
    let table = [
        (100, "S"),
        (97, "A+"),
        (94, "A"),
        (90, "A-"),
        (87, "B+"),
        (84, "B"),
        (80, "B-"),
        (77, "C+"),
        (74, "C"),
        (70, "C-"),
        (67, "D+"),
        (64, "D"),
        (60, "D-"),
        (0, "F"),
    ];
    for score in 0u64..=120 {
        let mut expected = "F";
        for (threshold, letter) in table {
            if score >= threshold {
                expected = letter;
                break;
            }
        }
        assert_eq!(grade(score), expected, "{}", score);
    }
    assert_eq!(grade(99), "A+");
    assert_eq!(grade(96), "A");
    assert_eq!(grade(93), "A-");
    assert_eq!(grade(89), "B+");
    assert_eq!(grade(86), "B");
    assert_eq!(grade(83), "B-");
    assert_eq!(grade(79), "C+");
    assert_eq!(grade(76), "C");
    assert_eq!(grade(73), "C-");
    assert_eq!(grade(69), "D+");
    assert_eq!(grade(66), "D");
    assert_eq!(grade(63), "D-");
    assert_eq!(grade(59), "F");
    assert_eq!(grade(0), "F");
    assert_eq!(grade(u64::MAX), "S");
}

#[test]
fn score_gives_full_credit_for_perfect_and_half_for_wrong_octave() {
    assert_eq!(score(20, 20, 0), 100);
    assert_eq!(score(20, 0, 20), 50);
    assert_eq!(score(20, 10, 10), 75);
    assert_eq!(score(20, 0, 0), 0);
    assert_eq!(score(1, 1, 0), 100);
    assert_eq!(score(1, 0, 1), 50);
}

#[test]
fn score_rounds_halves_up() {
    assert_eq!(score(8, 1, 0), 13);
    assert_eq!(score(8, 0, 1), 6);
    assert_eq!(score(3, 1, 0), 33);
    assert_eq!(score(3, 2, 0), 67);
    assert_eq!(score(3, 0, 1), 17);
    assert_eq!(score(7, 3, 1), 50);
    assert_eq!(score(200, 1, 0), 1);
    assert_eq!(score(200, 0, 1), 0);
    assert_eq!(score(400, 1, 0), 0);
}

#[test]
fn score_can_reach_100_short_of_all_perfect() {
    assert_eq!(score(100, 99, 1), 100);
    assert_eq!(score(99, 98, 1), 99);
}

#[test]
fn score_does_not_overflow() {
    assert_eq!(score(u32::MAX, u32::MAX, 0), 100);
    assert_eq!(score(u32::MAX, 0, u32::MAX), 50);
    assert_eq!(score(1, u32::MAX, u32::MAX), 644_245_094_250);
    assert_eq!(score(30_000_000, 30_000_000, 0), 100);
}
