//! The errors of a decoding procedure.

use vstd::prelude::*;

verus! {

/// What a failed step reports.
#[derive(Clone, Copy, Debug, PartialEq, Eq, Structural)]
pub enum DecodeErrorKind {
    /// A condition on the decoded data does not hold: a `Verify`, an
    /// `ErrorIf`, an `Exact`, a move before the start of the input.
    Verify,
    /// No variant matches the selector.
    Switch,
    /// Input was missing where the step must be complete.
    Complete,
    /// The input does not hold the constant that was expected.
    Tag,
    /// A repeated parser read nothing.
    Many0,
    /// A parser repeated a fixed number of times read nothing.
    ManyMN,
    /// What was read cannot be converted to the value asked for.
    MapRes,
    /// An alignment of zero bytes. The run reports it; the statement
    /// written for the host divides by the alignment, and so does not
    /// return on zero.
    Alignment,
    /// The host gave an answer of the wrong shape, or one that does not fit
    /// the input.
    Host,
}

/// The error of a decoding procedure.
#[derive(Clone, Copy, Debug, PartialEq, Eq, Structural)]
pub enum DecodeError {
    /// More input is needed. The number is the whole count of bytes that
    /// the step that failed asked for, from where it began: the width of
    /// an integer, the count of a `Take` or a skip, the length of a
    /// constant, the offset of a move. It is not the number of bytes that
    /// are still missing. A parser of the host may count otherwise; its
    /// number is passed on as it comes.
    Incomplete(usize),
    /// The step failed at this offset; another parser may be tried.
    Error(DecodeErrorKind, usize),
    /// The step failed at this offset, and no other parser may be tried.
    Failure(DecodeErrorKind, usize),
}

impl DecodeError {
    /// Whether more input is needed.
    pub fn is_incomplete(&self) -> (r: bool)
        ensures
            r == (*self is Incomplete),
    {
        match self {
            DecodeError::Incomplete(_) => true,
            _ => false,
        }
    }
}

} // verus!
