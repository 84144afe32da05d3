//! Recoverable compile errors.
//!
//! Every "this shape or fail" step of the compiler — path conversion,
//! operator lookup, function resolution, numeric decoding — surfaces as a
//! value of [`Error`]; the compiler never aborts on any input tree.

use vstd::prelude::*;
use crate::filter::{Filter, FilterV, filter_v};

verus! {

/// Why a syntax tree failed to compile.
#[derive(Debug, PartialEq, Eq)]
pub enum Error {
    /// No function of this name takes this many arguments.
    Unresolved { name: String, arity: usize },
    /// The left side of an assignment or update is not a path expression;
    /// the offending filter is carried along.
    BadAssignTarget(Box<Filter>),
    /// A numeric literal that the decimal decoder cannot represent.
    BadNumber(String),
    /// An object entry with a key but no value: the shorthand is
    /// deliberately not implemented and is rejected rather than guessed at.
    ObjectShorthand,
    /// The node tree does not have the shape the grammar guarantees; a
    /// well-formed grammar engine never produces this.
    Malformed,
}

/// The mathematical model of an [`Error`].
#[verifier::ext_equal]
pub enum ErrorV {
    Unresolved { name: Seq<char>, arity: nat },
    BadAssignTarget(Box<FilterV>),
    BadNumber(Seq<char>),
    ObjectShorthand,
    Malformed,
}

impl View for Error {
    type V = ErrorV;

    open spec fn view(&self) -> ErrorV {
        match self {
            Error::Unresolved { name, arity } => ErrorV::Unresolved {
                name: name@,
                arity: *arity as nat,
            },
            Error::BadAssignTarget(f) => ErrorV::BadAssignTarget(Box::new(filter_v(*(*f)))),
            Error::BadNumber(s) => ErrorV::BadNumber(s@),
            Error::ObjectShorthand => ErrorV::ObjectShorthand,
            Error::Malformed => ErrorV::Malformed,
        }
    }
}

/// The model of a fallible result: both sides taken to their views.
pub open spec fn res_v<T: View, E: View>(r: Result<T, E>) -> Result<T::V, E::V> {
    match r {
        Ok(t) => Ok(t@),
        Err(e) => Err(e@),
    }
}

} // verus!
