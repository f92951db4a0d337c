//! Line sequences.
//!
//! File contents and hunk sides are persistent vectors of shared strings
//! (`im::Vector<Rc<String>>`). Verus cannot look inside such a vector, so this
//! module names what a vector holds, [`vector_lines`], and states what each
//! vector operation used by the crate does to it. The contracts in this
//! module are trusted: they restate the documentation of `im`.

use im::Vector;
use std::rc::Rc;
use vstd::prelude::*;

verus! {

#[verifier::external_type_specification]
#[verifier::external_body]
#[verifier::reject_recursive_types(A)]
pub struct ExVector<A>(Vector<A>);

/// The lines that a vector holds, first to last.
pub uninterp spec fn vector_lines(v: Vector<Rc<String>>) -> Seq<Seq<char>>;

/// `im::Vector::new`: the empty vector.
#[verifier::external_body]
pub(crate) fn lines_new() -> (v: Vector<Rc<String>>)
    ensures
        vector_lines(v) == Seq::<Seq<char>>::empty(),
{
    Vector::new()
}

/// `im::Vector::len`: the number of lines held.
#[verifier::external_body]
pub(crate) fn lines_len(v: &Vector<Rc<String>>) -> (n: usize)
    ensures
        n == vector_lines(*v).len(),
{
    v.len()
}

/// `im::Vector::index`: the line at position `i`; it panics when `i` is out
/// of range, which the precondition excludes.
#[verifier::external_body]
pub(crate) fn lines_at(v: &Vector<Rc<String>>, i: usize) -> (line: &Rc<String>)
    requires
        i < vector_lines(*v).len(),
    ensures
        line@ == vector_lines(*v)[i as int],
{
    &v[i]
}

/// `im::Vector::push_back`: appends one line. The length must stay below
/// `usize::MAX`, or the vector panics on overflow.
#[verifier::external_body]
pub(crate) fn lines_push_back(v: &mut Vector<Rc<String>>, line: Rc<String>)
    requires
        vector_lines(*old(v)).len() < usize::MAX,
    ensures
        vector_lines(*final(v)) == vector_lines(*old(v)).push(line@),
{
    v.push_back(line)
}

/// `im::Vector::split_off`: keeps the first `at` lines in `v` and returns the
/// rest. It panics when `at` exceeds the length.
#[verifier::external_body]
pub(crate) fn lines_split_off(v: &mut Vector<Rc<String>>, at: usize) -> (tail: Vector<Rc<String>>)
    requires
        at <= vector_lines(*old(v)).len(),
    ensures
        vector_lines(*final(v)) == vector_lines(*old(v)).take(at as int),
        vector_lines(tail) == vector_lines(*old(v)).skip(at as int),
{
    v.split_off(at)
}

/// `im::Vector::append`: appends all lines of `other`. The combined length
/// must fit in `usize`, or the vector panics on overflow.
#[verifier::external_body]
pub(crate) fn lines_append(v: &mut Vector<Rc<String>>, other: Vector<Rc<String>>)
    requires
        vector_lines(*old(v)).len() + vector_lines(other).len() <= usize::MAX,
    ensures
        vector_lines(*final(v)) == vector_lines(*old(v)) + vector_lines(other),
{
    v.append(other)
}

/// `im::Vector::clone`: the copy is the same vector, and so holds the same
/// lines.
pub assume_specification<A>[ <Vector<A> as Clone>::clone ](v: &Vector<A>) -> (copy: Vector<A>)
    where A: Clone,
    ensures
        copy == *v,
;

} // verus!
