//! Names of notes: the pitch class alone, and the pitch class followed by
//! the octave number.

use vstd::prelude::*;
use vstd::string::*;

use crate::range::NOTES_PER_OCTAVE;

verus! {

/// The symbol of a pitch class, counted in semitones above C.
pub open spec fn pitch_class_name(pitch_class: int) -> Seq<char> {
    if pitch_class == 0 {
        seq!['C']
    } else if pitch_class == 1 {
        seq!['C', '#']
    } else if pitch_class == 2 {
        seq!['D']
    } else if pitch_class == 3 {
        seq!['D', '#']
    } else if pitch_class == 4 {
        seq!['E']
    } else if pitch_class == 5 {
        seq!['F']
    } else if pitch_class == 6 {
        seq!['F', '#']
    } else if pitch_class == 7 {
        seq!['G']
    } else if pitch_class == 8 {
        seq!['G', '#']
    } else if pitch_class == 9 {
        seq!['A']
    } else if pitch_class == 10 {
        seq!['A', '#']
    } else {
        seq!['B']
    }
}

/// The character that writes a single decimal digit.
pub open spec fn digit_char(digit: int) -> char {
    if digit == 0 {
        '0'
    } else if digit == 1 {
        '1'
    } else if digit == 2 {
        '2'
    } else if digit == 3 {
        '3'
    } else if digit == 4 {
        '4'
    } else if digit == 5 {
        '5'
    } else if digit == 6 {
        '6'
    } else if digit == 7 {
        '7'
    } else if digit == 8 {
        '8'
    } else {
        '9'
    }
}

/// The decimal numeral of a natural number, without leading zeros.
pub open spec fn decimal(n: nat) -> Seq<char>
    decreases n,
{
    if n < 10 {
        seq![digit_char(n as int)]
    } else {
        decimal(n / 10).push(digit_char((n % 10) as int))
    }
}

/// The decimal numeral of an integer, with a minus sign below zero.
pub open spec fn signed_decimal(i: int) -> Seq<char> {
    if i < 0 {
        seq!['-'] + decimal((-i) as nat)
    } else {
        decimal(i as nat)
    }
}

/// The octave a note lies in: middle C, note 60, opens octave 4.
pub open spec fn octave_of(note: int) -> int {
    note / 12 - 1
}

/// The name of a note's pitch class, without its octave.
pub open spec fn pitch_name(note: int) -> Seq<char> {
    pitch_class_name(note % 12)
}

/// The full name of a note: its pitch class, then its octave number.
pub open spec fn full_name(note: int) -> Seq<char> {
    pitch_name(note) + signed_decimal(octave_of(note))
}

fn pitch_class_str(pitch_class: u32) -> (s: &'static str)
    requires
        pitch_class < 12,
    ensures
        s@ == pitch_class_name(pitch_class as int),
{
    proof {
        reveal_strlit("C");
        reveal_strlit("C#");
        reveal_strlit("D");
        reveal_strlit("D#");
        reveal_strlit("E");
        reveal_strlit("F");
        reveal_strlit("F#");
        reveal_strlit("G");
        reveal_strlit("G#");
        reveal_strlit("A");
        reveal_strlit("A#");
        reveal_strlit("B");
    }
    match pitch_class {
        0 => "C",
        1 => "C#",
        2 => "D",
        3 => "D#",
        4 => "E",
        5 => "F",
        6 => "F#",
        7 => "G",
        8 => "G#",
        9 => "A",
        10 => "A#",
        _ => "B",
    }
}

fn digit_str(digit: u32) -> (s: &'static str)
    requires
        digit < 10,
    ensures
        s@ == seq![digit_char(digit as int)],
{
    proof {
        reveal_strlit("0");
        reveal_strlit("1");
        reveal_strlit("2");
        reveal_strlit("3");
        reveal_strlit("4");
        reveal_strlit("5");
        reveal_strlit("6");
        reveal_strlit("7");
        reveal_strlit("8");
        reveal_strlit("9");
    }
    match digit {
        0 => "0",
        1 => "1",
        2 => "2",
        3 => "3",
        4 => "4",
        5 => "5",
        6 => "6",
        7 => "7",
        8 => "8",
        _ => "9",
    }
}

/// Appends the decimal numeral of `n` to `text`.
pub fn push_decimal(text: &mut String, n: u32)
    ensures
        final(text)@ == old(text)@ + decimal(n as nat),
    decreases n,
{
    if n >= 10 {
        push_decimal(text, n / 10);
    }
    text.append(digit_str(n % 10));
}

/// The name of the note's pitch class, one of the twelve symbols from `C`
/// to `B`.
pub fn note_name(note: u32) -> (name: String)
    ensures
        name@ == pitch_name(note as int),
{
    String::from_str(pitch_class_str(note % NOTES_PER_OCTAVE))
}

/// The note's pitch class followed by its octave number. The lowest twelve
/// notes lie in octave -1.
pub fn full_note_name(note: u32) -> (name: String)
    ensures
        name@ == full_name(note as int),
{
    let mut name = String::from_str(pitch_class_str(note % NOTES_PER_OCTAVE));
    if note < NOTES_PER_OCTAVE {
        proof {
            reveal_strlit("-1");
        }
        name.append("-1");
    } else {
        push_decimal(&mut name, note / NOTES_PER_OCTAVE - 1);
    }
    name
}

/// A character that a decimal numeral is written with.
pub open spec fn is_digit(c: char) -> bool {
    c == '0' || c == '1' || c == '2' || c == '3' || c == '4' || c == '5' || c == '6' || c == '7'
        || c == '8' || c == '9'
}

/// A character that an octave number is written with: a digit or the minus
/// sign.
pub open spec fn is_octave_char(c: char) -> bool {
    c == '-' || is_digit(c)
}

/// The name without the octave number at its end, that is without the
/// digits and minus signs that it ends in.
pub open spec fn without_octave(name: Seq<char>) -> Seq<char>
    decreases name.len(),
{
    if name.len() > 0 && is_octave_char(name.last()) {
        without_octave(name.drop_last())
    } else {
        name
    }
}

/// A decimal numeral is made of digits only, and has one digit exactly when
/// the number is below ten.
pub proof fn lemma_decimal_shape(n: nat)
    ensures
        decimal(n).len() >= 1,
        decimal(n).len() == 1 <==> n < 10,
        forall|i: int| 0 <= i < decimal(n).len() ==> is_digit(#[trigger] decimal(n)[i]),
    decreases n,
{
    if n >= 10 {
        lemma_decimal_shape(n / 10);
    }
}

/// An octave number is written with octave characters only, and with more
/// than one unless it lies between 0 and 9.
pub proof fn lemma_signed_decimal_shape(i: int)
    ensures
        signed_decimal(i).len() >= 1,
        signed_decimal(i).len() == 1 <==> 0 <= i < 10,
        forall|k: int|
            0 <= k < signed_decimal(i).len() ==> is_octave_char(#[trigger] signed_decimal(i)[k]),
{
    if i < 0 {
        lemma_decimal_shape((-i) as nat);
    } else {
        lemma_decimal_shape(i as nat);
    }
}

/// Taking the octave number off a name that ends in octave characters
/// leaves what is left of the part before them.
pub proof fn lemma_without_octave_of_concat(head: Seq<char>, tail: Seq<char>)
    requires
        forall|k: int| 0 <= k < tail.len() ==> is_octave_char(#[trigger] tail[k]),
    ensures
        without_octave(head + tail) == without_octave(head),
    decreases tail.len(),
{
    if tail.len() > 0 {
        assert((head + tail).drop_last() == head + tail.drop_last());
        lemma_without_octave_of_concat(head, tail.drop_last());
    }
}

/// The pitch class name of a note is its full name with the octave number
/// taken off the end: a proper prefix of the full name, followed by nothing
/// but the octave number.
pub proof fn lemma_note_name_is_full_name_without_octave(note: nat)
    ensures
        pitch_name(note as int).is_prefix_of(full_name(note as int)),
        pitch_name(note as int).len() < full_name(note as int).len(),
        full_name(note as int).subrange(0, pitch_name(note as int).len() as int) == pitch_name(
            note as int,
        ),
        without_octave(full_name(note as int)) == pitch_name(note as int),
{
    let name = pitch_name(note as int);
    let octave = signed_decimal(octave_of(note as int));
    lemma_signed_decimal_shape(octave_of(note as int));
    lemma_without_octave_of_concat(name, octave);
}

/// No two pitch classes share a name.
pub proof fn lemma_pitch_class_name_is_one_to_one(a: int, b: int)
    requires
        0 <= a < 12,
        0 <= b < 12,
        pitch_class_name(a) == pitch_class_name(b),
    ensures
        a == b,
{
    let x = pitch_class_name(a);
    let y = pitch_class_name(b);
    assert(x.len() == y.len());
    assert(x[0] == y[0]);
}

} // verus!
