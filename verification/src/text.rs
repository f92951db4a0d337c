//! Splitting the content of a file into lines.
//!
//! A line ends at a line feed; a carriage return that stands right before
//! that line feed belongs to the line ending. What follows the last line feed
//! is a line of its own unless it is empty.

use crate::lines::{lines_new, lines_push_back, vector_lines};
use im::Vector;
use std::rc::Rc;
use vstd::prelude::*;

verus! {

/// A line without the carriage return that stood before its line feed.
pub open spec fn strip_cr(line: Seq<char>) -> Seq<char> {
    if line.len() > 0 && line.last() == '\r' {
        line.drop_last()
    } else {
        line
    }
}

/// The lines of the text `current + rest`, where `current` is the beginning
/// of a line.
pub open spec fn lines_from(current: Seq<char>, rest: Seq<char>) -> Seq<Seq<char>>
    decreases rest.len(),
{
    if rest.len() == 0 {
        if current.len() == 0 {
            Seq::empty()
        } else {
            seq![current]
        }
    } else if rest[0] == '\n' {
        seq![strip_cr(current)] + lines_from(Seq::empty(), rest.skip(1))
    } else {
        lines_from(current.push(rest[0]), rest.skip(1))
    }
}

/// The lines of a text.
pub open spec fn text_lines(text: Seq<char>) -> Seq<Seq<char>> {
    lines_from(Seq::empty(), text)
}

/// `String::push`: appends one character to a string.
#[verifier::external_body]
fn string_push(s: &mut String, c: char)
    ensures
        final(s)@ == old(s)@.push(c),
{
    s.push(c)
}

/// Splits a text into its lines.
pub fn split_lines(text: &str) -> (lines: Vector<Rc<String>>)
    ensures
        vector_lines(lines) == text_lines(text@),
{
    let total = text.unicode_len();
    let mut lines = lines_new();
    let mut current = String::new();
    // A carriage return that was read and not yet given to `current`.
    let mut held = false;
    assert(text@.skip(0) =~= text@);
    for c in it: text.chars()
        invariant
            it.seq() == text@,
            total == text@.len(),
            vector_lines(lines).len() <= it.index(),
            current@.len() > 0 || held ==> vector_lines(lines).len() < it.index(),
            !held && current@.len() > 0 ==> current@.last() != '\r',
            vector_lines(lines) + lines_from(
                if held {
                    current@.push('\r')
                } else {
                    current@
                },
                text@.skip(it.index()),
            ) == text_lines(text@),
    {
        let ghost rest = text@.skip(it.index());
        assert(rest[0] == c);
        assert(rest.skip(1) =~= text@.skip(it.index() + 1));
        if c == '\n' {
            let ghost done = vector_lines(lines);
            let ghost line = current@;
            assert(strip_cr(line.push('\r')) =~= line);
            lines_push_back(&mut lines, Rc::new(current));
            current = String::new();
            held = false;
            assert(vector_lines(lines) + lines_from(Seq::empty(), rest.skip(1)) =~= done + (
            seq![line] + lines_from(Seq::empty(), rest.skip(1))));
        } else {
            if held {
                string_push(&mut current, '\r');
            }
            if c == '\r' {
                held = true;
            } else {
                string_push(&mut current, c);
                held = false;
            }
        }
    }
    assert(text@.skip(text@.len() as int) =~= Seq::<char>::empty());
    if held {
        string_push(&mut current, '\r');
    }
    if current.unicode_len() > 0 {
        let ghost done = vector_lines(lines);
        lines_push_back(&mut lines, Rc::new(current));
    }
    assert(vector_lines(lines) =~= text_lines(text@));
    lines
}

} // verus!
