//! Small operations on text, stated over sequences of characters.

use vstd::prelude::*;
use vstd::std_specs::iter::IteratorSpec;
use vstd::string::*;

verus! {

/// The line without the newline characters at its end.
pub open spec fn without_trailing_newlines(line: Seq<char>) -> Seq<char>
    decreases line.len(),
{
    if line.len() > 0 && line.last() == '\n' {
        without_trailing_newlines(line.drop_last())
    } else {
        line
    }
}

/// What `without_trailing_newlines` keeps is the one prefix of the line that
/// does not end in a newline and leaves only newlines behind it.
pub proof fn lemma_without_trailing_newlines(line: Seq<char>)
    ensures
        ({
            let kept = without_trailing_newlines(line);
            &&& kept.len() <= line.len()
            &&& kept == line.subrange(0, kept.len() as int)
            &&& kept.len() > 0 ==> kept.last() != '\n'
            &&& forall|i: int| kept.len() <= i < line.len() ==> line[i] == '\n'
        }),
    decreases line.len(),
{
    if line.len() > 0 && line.last() == '\n' {
        let head = line.drop_last();
        lemma_without_trailing_newlines(head);
        let kept = without_trailing_newlines(line);
        assert forall|i: int| kept.len() <= i < line.len() implies line[i] == '\n' by {
            if i < head.len() {
                assert(head[i] == line[i]);
            }
        }
    }
}

/// Removes the newline characters at the end of a line.
pub fn strip_newlines(line: &str) -> (kept: &str)
    ensures
        kept@ == without_trailing_newlines(line@),
{
    let mut end: usize = line.unicode_len();
    assert(line@.subrange(0, end as int) == line@);
    loop
        invariant
            end <= line@.len(),
            without_trailing_newlines(line@) == without_trailing_newlines(
                line@.subrange(0, end as int),
            ),
        ensures
            line@.subrange(0, end as int) == without_trailing_newlines(line@),
        decreases end,
    {
        if end == 0 {
            break ;
        }
        if line.get_char(end - 1) != '\n' {
            break ;
        }
        proof {
            let head = line@.subrange(0, end as int);
            assert(head.drop_last() == line@.subrange(0, end - 1));
        }
        end = end - 1;
    }
    line.substring_char(0, end)
}

/// Whether two pieces of text hold the same characters.
pub fn same_text(a: &str, b: &str) -> (same: bool)
    ensures
        same == (a@ == b@),
{
    broadcast use group_string_axioms;

    let mut left = a.chars();
    let mut right = b.chars();
    let ghost mut done: int = 0;
    loop
        invariant
            left.obeys_prophetic_iter_laws(),
            right.obeys_prophetic_iter_laws(),
            0 <= done <= a@.len(),
            done <= b@.len(),
            left.remaining() == a@.subrange(done, a@.len() as int),
            right.remaining() == b@.subrange(done, b@.len() as int),
            a@.subrange(0, done) == b@.subrange(0, done),
        decreases a@.len() - done,
    {
        match (left.next(), right.next()) {
            (None, None) => {
                assert(a@.subrange(0, done) == a@);
                assert(b@.subrange(0, done) == b@);
                return true;
            },
            (Some(c), Some(d)) => {
                if c != d {
                    return false;
                }
                proof {
                    done = done + 1;
                }
            },
            _ => {
                return false;
            },
        }
    }
}

} // verus!
