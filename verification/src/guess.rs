//! Reading one line of input: the grammar of a guess, and how a guess
//! compares to the note that was played.

use vstd::prelude::*;
use vstd::string::*;

use crate::names::{
    digit_char, full_name, full_note_name, lemma_pitch_class_name_is_one_to_one,
    lemma_signed_decimal_shape, note_name, octave_of, pitch_class_name, pitch_name,
    signed_decimal,
};
use crate::text::{same_text, strip_newlines, without_trailing_newlines};

verus! {

/// How a guess compares to the note that was played.
#[derive(Clone, Copy, Debug, PartialEq, Eq, Structural)]
pub enum Guess {
    /// The pitch class is not that of the note.
    Wrong,
    /// The pitch class is that of the note, the octave is not.
    WrongOctave,
    /// The guess names the note exactly.
    Perfect,
}

/// What one line of input asks for.
#[derive(Clone, Copy, Debug, PartialEq, Eq, Structural)]
pub enum Entry {
    /// The line `?`: play the note once more.
    Replay,
    /// Neither `?` nor a guess.
    Unrecognized,
    /// A guess, compared to the note that was played.
    Answer(Guess),
}

/// A letter that may be followed by a sharp sign.
pub open spec fn takes_sharp(c: char) -> bool {
    c == 'A' || c == 'C' || c == 'D' || c == 'F' || c == 'G'
}

/// A letter that stands alone: there is no B sharp and no E sharp.
pub open spec fn stands_alone(c: char) -> bool {
    c == 'B' || c == 'E'
}

/// An octave that can be guessed: a single digit from 2 to 6.
pub open spec fn is_octave_digit(c: char) -> bool {
    c == '2' || c == '3' || c == '4' || c == '5' || c == '6'
}

/// The grammar of a guess: an optional pitch class, which is one of the
/// letters A, C, D, F, G with or without a sharp sign or one of the letters
/// B, E without, then one octave digit from 2 to 6, and nothing else.
pub open spec fn is_guess(input: Seq<char>) -> bool {
    ||| input.len() == 1 && is_octave_digit(input[0])
    ||| input.len() == 2 && (takes_sharp(input[0]) || stands_alone(input[0])) && is_octave_digit(
        input[1],
    )
    ||| input.len() == 3 && takes_sharp(input[0]) && input[1] == '#' && is_octave_digit(input[2])
}

/// Whether the input is the request to hear the note again.
pub open spec fn is_replay(input: Seq<char>) -> bool {
    input == seq!['?']
}

/// How an input compares to a note given by its two names: equal to the
/// full name it is perfect; equal to the pitch class name once its last
/// character is taken off, it has the octave wrong; else it is wrong.
pub open spec fn classification(input: Seq<char>, name: Seq<char>, full: Seq<char>) -> Guess {
    if input == full {
        Guess::Perfect
    } else if input.len() > 0 && input.drop_last() == name {
        Guess::WrongOctave
    } else {
        Guess::Wrong
    }
}

/// The pitch class of a natural note, in semitones above C.
pub open spec fn letter_pitch_class(letter: char) -> int {
    if letter == 'C' {
        0
    } else if letter == 'D' {
        2
    } else if letter == 'E' {
        4
    } else if letter == 'F' {
        5
    } else if letter == 'G' {
        7
    } else if letter == 'A' {
        9
    } else {
        11
    }
}

/// The pitch class that a guess names, in semitones above C. A guess that is
/// an octave digit alone names none.
pub open spec fn guessed_pitch_class(input: Seq<char>) -> Option<int> {
    if input.len() == 2 {
        Some(letter_pitch_class(input[0]))
    } else if input.len() == 3 {
        Some(letter_pitch_class(input[0]) + 1)
    } else {
        None
    }
}

/// The octave that a guess names.
pub open spec fn guessed_octave(input: Seq<char>) -> int {
    let digit = input.last();
    if digit == '2' {
        2
    } else if digit == '3' {
        3
    } else if digit == '4' {
        4
    } else if digit == '5' {
        5
    } else {
        6
    }
}

/// How a guess compares to a note by what the two stand for: it is perfect
/// when it names the pitch class and the octave of the note, it has the
/// octave wrong when it names the pitch class and another octave, and it is
/// wrong when it names another pitch class or none.
pub open spec fn compared_by_parts(input: Seq<char>, note: int) -> Guess {
    if guessed_pitch_class(input) != Some(note % 12) {
        Guess::Wrong
    } else if guessed_octave(input) == octave_of(note) {
        Guess::Perfect
    } else {
        Guess::WrongOctave
    }
}

/// What a line of input asks for while `note` is to be guessed. The newlines
/// at the end of the line do not count.
pub open spec fn interpretation(line: Seq<char>, note: int) -> Entry {
    let input = without_trailing_newlines(line);
    if is_guess(input) {
        Entry::Answer(classification(input, pitch_name(note), full_name(note)))
    } else if is_replay(input) {
        Entry::Replay
    } else {
        Entry::Unrecognized
    }
}

fn letter_takes_sharp(c: char) -> (yes: bool)
    ensures
        yes == takes_sharp(c),
{
    c == 'A' || c == 'C' || c == 'D' || c == 'F' || c == 'G'
}

fn letter_stands_alone(c: char) -> (yes: bool)
    ensures
        yes == stands_alone(c),
{
    c == 'B' || c == 'E'
}

fn char_is_octave_digit(c: char) -> (yes: bool)
    ensures
        yes == is_octave_digit(c),
{
    c == '2' || c == '3' || c == '4' || c == '5' || c == '6'
}

/// Whether the input follows the grammar of a guess.
pub fn is_valid_guess(input: &str) -> (valid: bool)
    ensures
        valid == is_guess(input@),
{
    let len: usize = input.unicode_len();
    if len == 1 {
        char_is_octave_digit(input.get_char(0))
    } else if len == 2 {
        let letter = input.get_char(0);
        (letter_takes_sharp(letter) || letter_stands_alone(letter)) && char_is_octave_digit(
            input.get_char(1),
        )
    } else if len == 3 {
        letter_takes_sharp(input.get_char(0)) && input.get_char(1) == '#' && char_is_octave_digit(
            input.get_char(2),
        )
    } else {
        false
    }
}

/// Whether the input is `?`, the request to hear the note again.
pub fn is_replay_request(input: &str) -> (replay: bool)
    ensures
        replay == is_replay(input@),
{
    let replay = input.unicode_len() == 1 && input.get_char(0) == '?';
    assert(replay ==> input@ == seq!['?']);
    replay
}

/// Compares an input to a note given by its pitch class name and its full
/// name.
pub fn classify_guess(input: &str, note_name: &str, full_note_name: &str) -> (guess: Guess)
    ensures
        guess == classification(input@, note_name@, full_note_name@),
{
    if same_text(input, full_note_name) {
        return Guess::Perfect;
    }
    let len: usize = input.unicode_len();
    if len > 0 && same_text(input.substring_char(0, len - 1), note_name) {
        Guess::WrongOctave
    } else {
        Guess::Wrong
    }
}

/// Reads one line of input while `note` is to be guessed.
pub fn read_entry(line: &str, note: u32) -> (entry: Entry)
    ensures
        entry == interpretation(line@, note as int),
{
    let input = strip_newlines(line);
    if is_valid_guess(input) {
        let name = note_name(note);
        let full = full_note_name(note);
        Entry::Answer(classify_guess(input, name.as_str(), full.as_str()))
    } else if is_replay_request(input) {
        Entry::Replay
    } else {
        Entry::Unrecognized
    }
}

/// A guess has one to three characters and ends in its octave digit, so the
/// request to replay is no guess: whatever the note, a line asks for a
/// replay exactly when it is `?` once its newlines are taken off.
pub proof fn lemma_replay_is_no_guess(line: Seq<char>, note: int)
    ensures
        ({
            let input = without_trailing_newlines(line);
            &&& is_guess(input) ==> 1 <= input.len() <= 3 && is_octave_digit(input.last())
            &&& is_replay(input) ==> !is_guess(input)
            &&& interpretation(line, note) == Entry::Replay <==> is_replay(input)
            &&& interpretation(line, note) is Answer <==> is_guess(input)
        }),
{
}

/// Comparing a guess to the two names of a note decides what comparing
/// pitch class and octave decides.
pub proof fn lemma_classification_compares_parts(input: Seq<char>, note: nat)
    requires
        is_guess(input),
    ensures
        classification(input, pitch_name(note as int), full_name(note as int)) == compared_by_parts(
            input,
            note as int,
        ),
{
    let name = pitch_name(note as int);
    let octave = signed_decimal(octave_of(note as int));
    let full = full_name(note as int);
    lemma_signed_decimal_shape(octave_of(note as int));
    if input.len() >= 2 {
        let guessed = guessed_pitch_class(input)->0;
        assert(input.drop_last() == pitch_class_name(guessed));
        if input.drop_last() == name {
            lemma_pitch_class_name_is_one_to_one(guessed, note as int % 12);
        }
    }
    if guessed_pitch_class(input) == Some(note as int % 12) && guessed_octave(input) == octave_of(
        note as int,
    ) {
        assert(full == input);
    }
}

} // verus!
