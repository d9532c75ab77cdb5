//! The quiz as a state machine: rounds are begun with a note, lines of input
//! are answered, and each step says what is to be shown or played.

use vstd::prelude::*;

use crate::guess::{interpretation, read_entry, Entry, Guess};
use crate::range::{highest_note, lemma_wf_range_holds_middle_c, lowest_note, NoteRange};
use crate::score::{lemma_score_bounds, score, score_of};

verus! {

/// The octave count of a quiz when none is asked for.
pub const DEFAULT_OCTAVES: u32 = 1;

/// The number of rounds of a quiz when none is asked for.
pub const DEFAULT_TEST_COUNT: u32 = 20;

/// The number of guesses allowed in a round when none is asked for.
pub const DEFAULT_ATTEMPT_LIMIT: u32 = 3;

/// Where a quiz stands.
#[derive(Clone, Copy, Debug, PartialEq, Eq, Structural)]
pub enum Stage {
    /// No round is under way.
    Idle,
    /// A note was played and a guess is awaited. `attempts_left` counts the
    /// guesses that may still be made, the awaited one included.
    Guessing { note: u32, attempts_left: u32 },
    /// The input ended: the quiz is over and nothing more is reported.
    Abandoned,
}

/// What a quiz waits for.
#[derive(Clone, Copy, Debug, PartialEq, Eq, Structural)]
pub enum Pending {
    /// The next round is to be begun.
    Round,
    /// A line of input is to be read as a guess at `note`.
    Guess { note: u32 },
    /// All rounds are done: the tallies are to be reported.
    Report,
    /// The quiz was abandoned: nothing is left to do.
    Nothing,
}

/// The answer of the quiz to one line of input.
#[derive(Clone, Copy, Debug, PartialEq, Eq, Structural)]
pub enum Reaction {
    /// No guess was awaited; the line was ignored.
    NotAsked,
    /// The note is to be played again. No attempt was used.
    Replay { note: u32 },
    /// The line was not understood. No attempt was used.
    Hint,
    /// A wrong guess, with two or more guesses left.
    TryAgain { guesses_left: u32 },
    /// A wrong guess, with one guess left.
    LastGuess,
    /// A wrong guess, the last one allowed: the round ends and the note is
    /// revealed.
    OutOfGuesses { note: u32 },
    /// The right pitch class in the wrong octave: the round ends with half
    /// credit and the note is revealed.
    RightNoteWrongOctave { note: u32 },
    /// The very note: the round ends with full credit.
    Correct,
}

/// Everything a quiz remembers.
#[derive(Clone, Copy, Debug, PartialEq, Eq, Structural)]
pub struct QuizState {
    /// The notes that rounds are played with.
    pub range: NoteRange,
    /// The number of rounds in the quiz.
    pub test_count: u32,
    /// The number of guesses allowed in a round.
    pub attempt_limit: u32,
    /// The rounds that have ended.
    pub rounds_done: u32,
    /// The rounds that ended with a perfect guess.
    pub perfect_count: u32,
    /// The rounds that ended with the right note in the wrong octave.
    pub right_count: u32,
    /// Where the quiz stands.
    pub stage: Stage,
}

impl QuizState {
    /// The state a quiz starts in.
    pub open spec fn initial(octaves: int, test_count: u32, attempt_limit: u32) -> QuizState {
        QuizState {
            range: NoteRange {
                min_note: lowest_note(octaves) as u32,
                max_note: highest_note(octaves) as u32,
            },
            test_count,
            attempt_limit,
            rounds_done: 0,
            perfect_count: 0,
            right_count: 0,
            stage: Stage::Idle,
        }
    }

    /// The states a quiz can be in: no round is counted twice, and a note
    /// to be guessed lies in the range, in a round that is not yet counted
    /// and has a guess left.
    pub open spec fn wf(self) -> bool {
        &&& self.range.wf()
        &&& self.rounds_done <= self.test_count
        &&& self.perfect_count + self.right_count <= self.rounds_done
        &&& self.stage matches Stage::Guessing { note, attempts_left } ==> {
            &&& self.rounds_done < self.test_count
            &&& self.range.contains(note as int)
            &&& 1 <= attempts_left <= self.attempt_limit
        }
    }

    /// The rounds that ended with neither full nor half credit.
    pub open spec fn missed_count(self) -> int {
        self.rounds_done - self.perfect_count - self.right_count
    }

    /// What the quiz waits for.
    pub open spec fn pending(self) -> Pending {
        match self.stage {
            Stage::Abandoned => Pending::Nothing,
            Stage::Guessing { note, attempts_left } => Pending::Guess { note },
            Stage::Idle => if self.rounds_done < self.test_count {
                Pending::Round
            } else {
                Pending::Report
            },
        }
    }

    /// The state with one more round ended and `stage` idle.
    pub open spec fn round_ended(self, perfect: int, right: int) -> QuizState {
        QuizState {
            rounds_done: (self.rounds_done + 1) as u32,
            perfect_count: (self.perfect_count + perfect) as u32,
            right_count: (self.right_count + right) as u32,
            stage: Stage::Idle,
            ..self
        }
    }

    /// The state after a round is begun with `note`: a guess is awaited,
    /// unless no guess is allowed at all, in which case the round has ended
    /// already.
    pub open spec fn begun(self, note: u32) -> QuizState {
        if self.attempt_limit == 0 {
            self.round_ended(0, 0)
        } else {
            QuizState { stage: Stage::Guessing { note, attempts_left: self.attempt_limit }, ..self }
        }
    }

    /// The state and the reaction after a guess at `note` was classified,
    /// with `attempts_left` guesses left before it. A perfect guess and one
    /// in the wrong octave end the round with their credit. A wrong guess
    /// uses up an attempt and ends the round, without credit, when it was
    /// the last.
    pub open spec fn judged(self, note: u32, attempts_left: u32, guess: Guess) -> (
        QuizState,
        Reaction,
    ) {
        match guess {
            Guess::Perfect => (self.round_ended(1, 0), Reaction::Correct),
            Guess::WrongOctave => (self.round_ended(0, 1), Reaction::RightNoteWrongOctave { note }),
            Guess::Wrong => {
                let guesses_left: u32 = (attempts_left - 1) as u32;
                if guesses_left > 1 {
                    (
                        QuizState {
                            stage: Stage::Guessing { note, attempts_left: guesses_left },
                            ..self
                        },
                        Reaction::TryAgain { guesses_left },
                    )
                } else if guesses_left > 0 {
                    (
                        QuizState {
                            stage: Stage::Guessing { note, attempts_left: guesses_left },
                            ..self
                        },
                        Reaction::LastGuess,
                    )
                } else {
                    (self.round_ended(0, 0), Reaction::OutOfGuesses { note })
                }
            },
        }
    }

    /// The state and the reaction after a line of input. While a guess is
    /// awaited the line is read against the note of the round; a request to
    /// replay and a line that is not understood leave the state as it was.
    pub open spec fn answered(self, line: Seq<char>) -> (QuizState, Reaction) {
        match self.stage {
            Stage::Guessing { note, attempts_left } => match interpretation(line, note as int) {
                Entry::Replay => (self, Reaction::Replay { note }),
                Entry::Unrecognized => (self, Reaction::Hint),
                Entry::Answer(guess) => self.judged(note, attempts_left, guess),
            },
            _ => (self, Reaction::NotAsked),
        }
    }

    /// The state after the input has ended: the whole quiz is over, not
    /// only the round.
    pub open spec fn abandoned(self) -> QuizState {
        QuizState { stage: Stage::Abandoned, ..self }
    }
}

/// A quiz in progress.
pub struct Quiz {
    state: QuizState,
}

impl View for Quiz {
    type V = QuizState;

    closed spec fn view(&self) -> QuizState {
        self.state
    }
}

impl Quiz {
    #[verifier::type_invariant]
    spec fn inv(self) -> bool {
        self.state.wf()
    }

    /// A quiz of `test_count` rounds with `attempt_limit` guesses each, on
    /// the notes of `octaves` octaves around middle C.
    pub fn new(octaves: u32, test_count: u32, attempt_limit: u32) -> (quiz: Quiz)
        ensures
            quiz@ == QuizState::initial(octaves as int, test_count, attempt_limit),
            quiz@.wf(),
    {
        let range = NoteRange::for_octaves(octaves);
        Quiz {
            state: QuizState {
                range,
                test_count,
                attempt_limit,
                rounds_done: 0,
                perfect_count: 0,
                right_count: 0,
                stage: Stage::Idle,
            },
        }
    }

    /// Everything the quiz remembers.
    pub fn state(&self) -> (state: QuizState)
        ensures
            state == self@,
            state.wf(),
    {
        proof {
            use_type_invariant(self);
        }
        self.state
    }

    /// What the quiz waits for.
    pub fn pending(&self) -> (pending: Pending)
        ensures
            pending == self@.pending(),
    {
        match self.state.stage {
            Stage::Abandoned => Pending::Nothing,
            Stage::Guessing { note, attempts_left } => Pending::Guess { note },
            Stage::Idle => if self.state.rounds_done < self.state.test_count {
                Pending::Round
            } else {
                Pending::Report
            },
        }
    }

    /// Begins the next round with the given note, if a round is pending and
    /// the note lies in the range of the quiz.
    pub fn begin_round_with(&mut self, note: u32) -> (begun: bool)
        ensures
            begun == (old(self)@.pending() == Pending::Round && old(self)@.range.contains(
                note as int,
            )),
            begun ==> final(self)@ == old(self)@.begun(note),
            !begun ==> final(self)@ == old(self)@,
            final(self)@.wf(),
    {
        proof {
            use_type_invariant(&*self);
        }
        let state = self.state;
        match state.stage {
            Stage::Idle => {
                if state.rounds_done < state.test_count && state.range.includes(note) {
                    if state.attempt_limit == 0 {
                        self.state = QuizState { rounds_done: state.rounds_done + 1, ..state };
                    } else {
                        self.state = QuizState {
                            stage: Stage::Guessing { note, attempts_left: state.attempt_limit },
                            ..state
                        };
                    }
                    true
                } else {
                    false
                }
            },
            _ => false,
        }
    }

    /// Begins the next round, if one is pending, with a note drawn at random
    /// from the range of the quiz, and returns the note.
    pub fn begin_round(&mut self) -> (drawn: Option<u32>)
        ensures
            drawn is Some <==> old(self)@.pending() == Pending::Round,
            drawn matches Some(note) ==> old(self)@.range.contains(note as int) && final(self)@
                == old(self)@.begun(note),
            drawn is None ==> final(self)@ == old(self)@,
            final(self)@.wf(),
    {
        proof {
            use_type_invariant(&*self);
            lemma_wf_range_holds_middle_c(self.state.range);
        }
        match self.pending() {
            Pending::Round => {
                let drawn = self.state.range.draw();
                match drawn {
                    Some(note) => {
                        self.begin_round_with(note);
                    },
                    None => {},
                }
                drawn
            },
            _ => None,
        }
    }

    /// Answers one line of input.
    pub fn answer(&mut self, line: &str) -> (reaction: Reaction)
        ensures
            (final(self)@, reaction) == old(self)@.answered(line@),
            final(self)@.wf(),
    {
        proof {
            use_type_invariant(&*self);
        }
        let state = self.state;
        match state.stage {
            Stage::Guessing { note, attempts_left } => match read_entry(line, note) {
                Entry::Replay => Reaction::Replay { note },
                Entry::Unrecognized => Reaction::Hint,
                Entry::Answer(guess) => {
                    let (next, reaction) = judge(state, note, attempts_left, guess);
                    self.state = next;
                    reaction
                },
            },
            _ => Reaction::NotAsked,
        }
    }

    /// Records that the input has ended, which ends the whole quiz.
    pub fn end_of_input(&mut self)
        ensures
            final(self)@ == old(self)@.abandoned(),
            final(self)@.wf(),
    {
        proof {
            use_type_invariant(&*self);
        }
        let state = self.state;
        self.state = QuizState { stage: Stage::Abandoned, ..state };
    }

    /// The score of the rounds played so far, in percent of all rounds of
    /// the quiz. A quiz of no rounds has no score.
    pub fn score(&self) -> (percent: Option<u64>)
        ensures
            percent is Some <==> self@.test_count > 0,
            percent matches Some(p) ==> p == score_of(
                self@.test_count as int,
                self@.perfect_count as int,
                self@.right_count as int,
            ) && p <= 100,
    {
        proof {
            use_type_invariant(self);
        }
        if self.state.test_count > 0 {
            proof {
                lemma_score_bounds(
                    self.state.test_count as int,
                    self.state.perfect_count as int,
                    self.state.right_count as int,
                );
            }
            Some(score(self.state.test_count, self.state.perfect_count, self.state.right_count))
        } else {
            None
        }
    }
}

/// Beginning a pending round with a note of the range leads to a state a
/// quiz can be in.
pub proof fn lemma_begun_keeps_wf(state: QuizState, note: u32)
    requires
        state.wf(),
        state.pending() == Pending::Round,
        state.range.contains(note as int),
    ensures
        state.begun(note).wf(),
{
}

/// Answering a line, and the end of the input, lead to a state a quiz can be
/// in.
pub proof fn lemma_answered_keeps_wf(state: QuizState, line: Seq<char>)
    requires
        state.wf(),
    ensures
        state.answered(line).0.wf(),
        state.abandoned().wf(),
{
}

/// Each round records exactly one outcome. A line ends the round exactly
/// when the reaction is `Correct`, `RightNoteWrongOctave` or `OutOfGuesses`,
/// and then one round more is done: with full credit, with half credit or
/// with none, in this order. A line that does not end the round changes no
/// count.
pub proof fn lemma_one_outcome_per_round(state: QuizState, line: Seq<char>)
    requires
        state.wf(),
    ensures
        ({
            let (next, reaction) = state.answered(line);
            let ends = reaction is Correct || reaction is RightNoteWrongOctave
                || reaction is OutOfGuesses;
            &&& next.range == state.range
            &&& next.test_count == state.test_count
            &&& next.attempt_limit == state.attempt_limit
            &&& ends ==> next.stage is Idle && next.rounds_done == state.rounds_done + 1
            &&& !ends ==> next.rounds_done == state.rounds_done && next.perfect_count
                == state.perfect_count && next.right_count == state.right_count
            &&& reaction is Correct ==> next.perfect_count == state.perfect_count + 1
                && next.right_count == state.right_count
            &&& reaction is RightNoteWrongOctave ==> next.perfect_count == state.perfect_count
                && next.right_count == state.right_count + 1
            &&& reaction is OutOfGuesses ==> next.perfect_count == state.perfect_count
                && next.right_count == state.right_count && next.missed_count()
                == state.missed_count() + 1
        }),
{
}

/// Only a wrong guess uses up an attempt. While a guess is awaited, a
/// request to replay and a line that is not understood leave the state as it
/// was; a wrong guess leaves one attempt fewer, says how many are left, and
/// ends the round when it was the last one.
pub proof fn lemma_attempts_count_down(state: QuizState, line: Seq<char>)
    requires
        state.wf(),
        state.stage is Guessing,
    ensures
        ({
            let (next, reaction) = state.answered(line);
            let note = state.stage->note;
            let attempts_left = state.stage->attempts_left;
            &&& reaction !is NotAsked
            &&& reaction is Replay || reaction is Hint ==> next == state
            &&& reaction matches Reaction::Replay { note: replayed } ==> replayed == note
            &&& reaction matches Reaction::TryAgain { guesses_left } ==> guesses_left >= 2
                && guesses_left == attempts_left - 1 && next.stage == (Stage::Guessing {
                note,
                attempts_left: guesses_left,
            })
            &&& reaction is LastGuess ==> attempts_left == 2 && next.stage == (Stage::Guessing {
                note,
                attempts_left: 1,
            })
            &&& reaction matches Reaction::OutOfGuesses { note: revealed } ==> attempts_left == 1
                && revealed == note
            &&& reaction matches Reaction::RightNoteWrongOctave { note: revealed } ==> revealed
                == note
        }),
{
}

/// When no guess is awaited a line changes nothing.
pub proof fn lemma_unasked_line_is_ignored(state: QuizState, line: Seq<char>)
    requires
        !(state.stage is Guessing),
    ensures
        state.answered(line) == (state, Reaction::NotAsked),
{
}

/// Decides what follows a classified guess.
fn judge(state: QuizState, note: u32, attempts_left: u32, guess: Guess) -> (outcome: (
    QuizState,
    Reaction,
))
    requires
        state.wf(),
        state.stage == (Stage::Guessing { note, attempts_left }),
    ensures
        outcome == state.judged(note, attempts_left, guess),
        outcome.0.wf(),
{
    match guess {
        Guess::Perfect => (
            QuizState {
                rounds_done: state.rounds_done + 1,
                perfect_count: state.perfect_count + 1,
                stage: Stage::Idle,
                ..state
            },
            Reaction::Correct,
        ),
        Guess::WrongOctave => (
            QuizState {
                rounds_done: state.rounds_done + 1,
                right_count: state.right_count + 1,
                stage: Stage::Idle,
                ..state
            },
            Reaction::RightNoteWrongOctave { note },
        ),
        Guess::Wrong => {
            let guesses_left: u32 = attempts_left - 1;
            if guesses_left > 1 {
                (
                    QuizState {
                        stage: Stage::Guessing { note, attempts_left: guesses_left },
                        ..state
                    },
                    Reaction::TryAgain { guesses_left },
                )
            } else if guesses_left > 0 {
                (
                    QuizState {
                        stage: Stage::Guessing { note, attempts_left: guesses_left },
                        ..state
                    },
                    Reaction::LastGuess,
                )
            } else {
                (
                    QuizState { rounds_done: state.rounds_done + 1, stage: Stage::Idle, ..state },
                    Reaction::OutOfGuesses { note },
                )
            }
        },
    }
}

} // verus!
