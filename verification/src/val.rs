//! Scalar literal values.

use vstd::prelude::*;

verus! {

/// A decoded numeric literal, held in the canonical textual form that the
/// decimal decoder produced (see [`crate::num`]).
#[derive(Debug, PartialEq, Eq)]
pub struct Num(pub String);

/// A scalar literal: null, boolean, number or string.
#[derive(Debug, PartialEq, Eq)]
pub enum Atom {
    Null,
    Bool(bool),
    Num(Num),
    Str(String),
}

/// The mathematical model of an [`Atom`]: text as character sequences.
#[verifier::ext_equal]
pub enum AtomV {
    Null,
    Bool(bool),
    Num(Seq<char>),
    Str(Seq<char>),
}

impl View for Num {
    type V = Seq<char>;

    open spec fn view(&self) -> Seq<char> {
        self.0@
    }
}

impl View for Atom {
    type V = AtomV;

    open spec fn view(&self) -> AtomV {
        match self {
            Atom::Null => AtomV::Null,
            Atom::Bool(b) => AtomV::Bool(*b),
            Atom::Num(n) => AtomV::Num(n@),
            Atom::Str(s) => AtomV::Str(s@),
        }
    }
}

} // verus!
