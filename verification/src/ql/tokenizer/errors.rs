use vstd::prelude::*;

verus! {

/// Represents an error that occurs while tokenizing: the offending text, then
/// the line (counted from 1) and the column at which it ends.
#[derive(Debug)]
pub enum SQLTokenizeError {
    IllegalToken(String, usize, usize),
    UnknownToken(String, usize, usize),
}

/// The mathematical form of a [`SQLTokenizeError`].
pub enum SQLTokenizeErrorV {
    IllegalToken(Seq<char>, usize, usize),
    UnknownToken(Seq<char>, usize, usize),
}

impl View for SQLTokenizeError {
    type V = SQLTokenizeErrorV;

    open spec fn view(&self) -> SQLTokenizeErrorV {
        match self {
            SQLTokenizeError::IllegalToken(s, l, c) => SQLTokenizeErrorV::IllegalToken(s@, *l, *c),
            SQLTokenizeError::UnknownToken(s, l, c) => SQLTokenizeErrorV::UnknownToken(s@, *l, *c),
        }
    }
}

} // verus!
