//! The span of notes a quiz draws from, derived from an octave count.

use rand::Rng;
use vstd::prelude::*;

verus! {

/// Semitones in one octave.
pub const NOTES_PER_OCTAVE: u32 = 12;

/// The note number of middle C.
pub const MIDDLE_C: u32 = 60;

/// The fewest octaves a quiz can cover.
pub const MIN_OCTAVES: u32 = 1;

/// The most octaves a quiz can cover.
pub const MAX_OCTAVES: u32 = 5;

/// The octave count actually used for a requested one: held to one to five.
pub open spec fn clamped_octaves(octaves: int) -> int {
    if octaves < 1 {
        1
    } else if octaves > 5 {
        5
    } else {
        octaves
    }
}

/// The lowest note played when `octaves` octaves were asked for: one octave
/// below middle C for every two octaves, rounded down.
pub open spec fn lowest_note(octaves: int) -> int {
    60 - 12 * (clamped_octaves(octaves) / 2)
}

/// The highest note played when `octaves` octaves were asked for: one octave
/// above middle C for every two octaves, rounded up. An odd count therefore
/// reaches further above middle C than below it.
pub open spec fn highest_note(octaves: int) -> int {
    60 + 12 * ((clamped_octaves(octaves) + 1) / 2)
}

/// An inclusive span of notes.
#[derive(Clone, Copy, Debug, PartialEq, Eq, Structural)]
pub struct NoteRange {
    pub min_note: u32,
    pub max_note: u32,
}

impl NoteRange {
    /// Whether the span is the one derived from the octave count.
    pub open spec fn covers_octaves(self, octaves: int) -> bool {
        &&& self.min_note == lowest_note(octaves)
        &&& self.max_note == highest_note(octaves)
    }

    /// Whether the span is the one derived from some octave count.
    pub open spec fn wf(self) -> bool {
        exists|octaves: int| 1 <= octaves <= 5 && #[trigger] self.covers_octaves(octaves)
    }

    /// Whether the note lies in the span, ends included.
    pub open spec fn contains(self, note: int) -> bool {
        self.min_note <= note <= self.max_note
    }

    /// The span of notes for a requested octave count, which is first held
    /// to one to five.
    pub fn for_octaves(octaves: u32) -> (range: NoteRange)
        ensures
            range.covers_octaves(octaves as int),
            range.wf(),
    {
        let used: u32 = clamp_octaves(octaves);
        let octaves_below: u32 = used / 2;
        let octaves_above: u32 = (used + 1) / 2;
        let range = NoteRange {
            min_note: MIDDLE_C - octaves_below * NOTES_PER_OCTAVE,
            max_note: MIDDLE_C + octaves_above * NOTES_PER_OCTAVE,
        };
        assert(range.covers_octaves(used as int));
        range
    }

    /// Whether the note lies in the span, ends included.
    pub fn includes(&self, note: u32) -> (inside: bool)
        ensures
            inside == self.contains(note as int),
    {
        self.min_note <= note && note <= self.max_note
    }

    /// Draws a note from the span at random. Nothing is promised of the
    /// draw but that it lies in the span; an empty span yields no note.
    pub fn draw(&self) -> (drawn: Option<u32>)
        ensures
            drawn is Some <==> self.min_note <= self.max_note,
            drawn matches Some(note) ==> self.contains(note as int),
    {
        if self.min_note <= self.max_note {
            Some(random_between(self.min_note, self.max_note))
        } else {
            None
        }
    }
}

/// Holds a requested octave count to the supported span of one to five.
pub fn clamp_octaves(octaves: u32) -> (used: u32)
    ensures
        used == clamped_octaves(octaves as int),
{
    if octaves < MIN_OCTAVES {
        MIN_OCTAVES
    } else if octaves > MAX_OCTAVES {
        MAX_OCTAVES
    } else {
        octaves
    }
}

/// The shape of every derived span: it is made of whole octaves measured
/// from middle C, reaches at least one octave above it, never reaches further
/// below than above, and covers as many octaves as were asked for, once that
/// count is held to one to five.
pub proof fn lemma_range_shape(octaves: int)
    ensures
        36 <= lowest_note(octaves) <= 60 < highest_note(octaves) <= 96,
        (60 - lowest_note(octaves)) % 12 == 0,
        (highest_note(octaves) - 60) % 12 == 0,
        highest_note(octaves) - lowest_note(octaves) == 12 * clamped_octaves(octaves),
        60 - lowest_note(octaves) <= highest_note(octaves) - 60 <= 60 - lowest_note(octaves) + 12,
{
}

/// A well-formed span is not empty and holds middle C.
pub proof fn lemma_wf_range_holds_middle_c(range: NoteRange)
    requires
        range.wf(),
    ensures
        range.contains(60),
        36 <= range.min_note,
        range.max_note <= 96,
{
    let octaves = choose|octaves: int| 1 <= octaves <= 5 && #[trigger] range.covers_octaves(octaves);
    lemma_range_shape(octaves);
}

/// Calls `rand::thread_rng()` and, on the generator it returns,
/// `rand::Rng::gen_range` with the inclusive range `low..=high`. The
/// generator is seeded by the system, so no two calls need agree: all that
/// is claimed is that the number drawn lies between the two ends. An empty
/// range, on which `gen_range` panics, is left out. Not covered: a system
/// that gives the generator no seed, on which `thread_rng` panics.
#[verifier::external_body]
fn random_between(low: u32, high: u32) -> (drawn: u32)
    requires
        low <= high,
    ensures
        low <= drawn <= high,
{
    rand::thread_rng().gen_range(low..=high)
}

} // verus!
