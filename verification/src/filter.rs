//! The filter abstract syntax tree and its mathematical model.
//!
//! Every node exclusively owns its operand sub-trees: the AST is a strict
//! tree, built once by the compiler and immutable thereafter.

use vstd::prelude::*;
use crate::ops::{LogicOp, MathOp};
use crate::val::{Atom, AtomV};

verus! {

/// A compiled filter: either a pure-value construct or a
/// reference/control construct.
#[derive(Debug, PartialEq, Eq)]
pub enum Filter {
    New(NewFilter),
    Ref(Ref),
}

/// Pure-value filters: referentially transparent constructs.
#[derive(Debug, PartialEq, Eq)]
pub enum NewFilter {
    /// A literal value.
    Atom(Atom),
    /// An array constructor around one inner filter (the empty generator
    /// for `[]`).
    Array(Box<Filter>),
    /// An object constructor: ordered (key-filter, value-filter) pairs.
    Object(Vec<(Filter, Filter)>),
    /// A binary logic or comparison expression.
    Logic(Box<Filter>, LogicOp, Box<Filter>),
    /// A binary arithmetic expression.
    Math(Box<Filter>, MathOp, Box<Filter>),
    /// A call to a pure named built-in.
    Function(NewFunc),
}

/// The pure named built-ins.
#[derive(Debug, PartialEq, Eq)]
pub enum NewFunc {
    Any,
    All,
    Not,
    Length,
    Type,
    Add,
    MapFn(Box<Filter>),
}

/// Reference/control filters: sequencing, the empty generator,
/// conditionals, path assignment and the variable-arity built-ins that
/// need environment or backtracking support.
#[derive(Debug, PartialEq, Eq)]
pub enum Ref {
    Pipe(Box<Filter>, Box<Filter>),
    Comma(Box<Filter>, Box<Filter>),
    Empty,
    IfThenElse(Box<Filter>, Box<Filter>, Box<Filter>),
    Assign(Path, Box<Filter>),
    Update(Path, Box<Filter>),
    First(Box<Filter>),
    Last(Box<Filter>),
    Recurse(Box<Filter>),
    Fold(Box<Filter>, Box<Filter>, Box<Filter>),
    Limit(Box<Filter>, Box<Filter>),
    Path(Path),
}

/// An ordered sequence of path elements, denoting a location within a value.
#[derive(Debug, PartialEq, Eq)]
pub struct Path(pub Vec<PathElem>);

/// One step of a path: select one key/index, or slice a collection.
#[derive(Debug, PartialEq, Eq)]
pub enum PathElem {
    /// Select the key/index that the inner filter computes.
    Index(Box<Filter>),
    /// Slice between two optional bounds; an absent bound means
    /// "from the beginning" / "to the end".
    Range(Option<Box<Filter>>, Option<Box<Filter>>),
}

/// The mathematical model of a [`Filter`].
#[verifier::ext_equal]
pub enum FilterV {
    New(NewFilterV),
    Ref(RefV),
}

/// The mathematical model of a [`NewFilter`].
#[verifier::ext_equal]
pub enum NewFilterV {
    Atom(AtomV),
    Array(Box<FilterV>),
    Object(Seq<(FilterV, FilterV)>),
    Logic(Box<FilterV>, LogicOp, Box<FilterV>),
    Math(Box<FilterV>, MathOp, Box<FilterV>),
    Function(NewFuncV),
}

/// The mathematical model of a [`NewFunc`].
#[verifier::ext_equal]
pub enum NewFuncV {
    Any,
    All,
    Not,
    Length,
    Type,
    Add,
    MapFn(Box<FilterV>),
}

/// The mathematical model of a [`Ref`].
#[verifier::ext_equal]
pub enum RefV {
    Pipe(Box<FilterV>, Box<FilterV>),
    Comma(Box<FilterV>, Box<FilterV>),
    Empty,
    IfThenElse(Box<FilterV>, Box<FilterV>, Box<FilterV>),
    Assign(Seq<PathElemV>, Box<FilterV>),
    Update(Seq<PathElemV>, Box<FilterV>),
    First(Box<FilterV>),
    Last(Box<FilterV>),
    Recurse(Box<FilterV>),
    Fold(Box<FilterV>, Box<FilterV>, Box<FilterV>),
    Limit(Box<FilterV>, Box<FilterV>),
    Path(Seq<PathElemV>),
}

/// The mathematical model of a [`PathElem`].
#[verifier::ext_equal]
pub enum PathElemV {
    Index(Box<FilterV>),
    Range(Option<Box<FilterV>>, Option<Box<FilterV>>),
}

pub open spec fn filter_v(f: Filter) -> FilterV
    decreases f,
{
    match f {
        Filter::New(nf) => FilterV::New(new_filter_v(nf)),
        Filter::Ref(r) => FilterV::Ref(ref_v(r)),
    }
}

pub open spec fn new_filter_v(nf: NewFilter) -> NewFilterV
    decreases nf,
{
    match nf {
        NewFilter::Atom(a) => NewFilterV::Atom(a@),
        NewFilter::Array(f) => NewFilterV::Array(Box::new(filter_v(*f))),
        NewFilter::Object(kvs) => NewFilterV::Object(object_v(kvs@)),
        NewFilter::Logic(l, op, r) => NewFilterV::Logic(
            Box::new(filter_v(*l)),
            op,
            Box::new(filter_v(*r)),
        ),
        NewFilter::Math(l, op, r) => NewFilterV::Math(
            Box::new(filter_v(*l)),
            op,
            Box::new(filter_v(*r)),
        ),
        NewFilter::Function(nf) => NewFilterV::Function(new_func_v(nf)),
    }
}

pub open spec fn object_v(kvs: Seq<(Filter, Filter)>) -> Seq<(FilterV, FilterV)>
    decreases kvs,
{
    if kvs.len() == 0 {
        Seq::empty()
    } else {
        seq![(filter_v(kvs[0].0), filter_v(kvs[0].1))] + object_v(kvs.drop_first())
    }
}

pub open spec fn new_func_v(nf: NewFunc) -> NewFuncV
    decreases nf,
{
    match nf {
        NewFunc::Any => NewFuncV::Any,
        NewFunc::All => NewFuncV::All,
        NewFunc::Not => NewFuncV::Not,
        NewFunc::Length => NewFuncV::Length,
        NewFunc::Type => NewFuncV::Type,
        NewFunc::Add => NewFuncV::Add,
        NewFunc::MapFn(f) => NewFuncV::MapFn(Box::new(filter_v(*f))),
    }
}

pub open spec fn ref_v(r: Ref) -> RefV
    decreases r,
{
    match r {
        Ref::Pipe(l, rr) => RefV::Pipe(Box::new(filter_v(*l)), Box::new(filter_v(*rr))),
        Ref::Comma(l, rr) => RefV::Comma(Box::new(filter_v(*l)), Box::new(filter_v(*rr))),
        Ref::Empty => RefV::Empty,
        Ref::IfThenElse(c, t, e) => RefV::IfThenElse(
            Box::new(filter_v(*c)),
            Box::new(filter_v(*t)),
            Box::new(filter_v(*e)),
        ),
        Ref::Assign(p, f) => RefV::Assign(path_v(p), Box::new(filter_v(*f))),
        Ref::Update(p, f) => RefV::Update(path_v(p), Box::new(filter_v(*f))),
        Ref::First(f) => RefV::First(Box::new(filter_v(*f))),
        Ref::Last(f) => RefV::Last(Box::new(filter_v(*f))),
        Ref::Recurse(f) => RefV::Recurse(Box::new(filter_v(*f))),
        Ref::Fold(a, b, c) => RefV::Fold(
            Box::new(filter_v(*a)),
            Box::new(filter_v(*b)),
            Box::new(filter_v(*c)),
        ),
        Ref::Limit(n, f) => RefV::Limit(Box::new(filter_v(*n)), Box::new(filter_v(*f))),
        Ref::Path(p) => RefV::Path(path_v(p)),
    }
}

pub open spec fn path_v(p: Path) -> Seq<PathElemV>
    decreases p,
{
    elems_v(p.0@)
}

pub open spec fn elems_v(es: Seq<PathElem>) -> Seq<PathElemV>
    decreases es,
{
    if es.len() == 0 {
        Seq::empty()
    } else {
        seq![elem_v(es[0])] + elems_v(es.drop_first())
    }
}

pub open spec fn elem_v(e: PathElem) -> PathElemV
    decreases e,
{
    match e {
        PathElem::Index(f) => PathElemV::Index(Box::new(filter_v(*f))),
        PathElem::Range(lo, hi) => PathElemV::Range(
            match lo {
                Some(f) => Some(Box::new(filter_v(*f))),
                None => None,
            },
            match hi {
                Some(f) => Some(Box::new(filter_v(*f))),
                None => None,
            },
        ),
    }
}

impl View for Filter {
    type V = FilterV;

    open spec fn view(&self) -> FilterV {
        filter_v(*self)
    }
}

impl View for Path {
    type V = Seq<PathElemV>;

    open spec fn view(&self) -> Seq<PathElemV> {
        path_v(*self)
    }
}

impl View for PathElem {
    type V = PathElemV;

    open spec fn view(&self) -> PathElemV {
        elem_v(*self)
    }
}

/// The identity filter `.`: the empty path, which passes every value
/// through unchanged.
pub open spec fn identity_v() -> FilterV {
    FilterV::Ref(RefV::Path(Seq::empty()))
}

impl Ref {
    /// The identity filter `.`, written as the empty path.
    pub fn identity() -> (r: Self)
        ensures
            ref_v(r) == identity_v()->Ref_0,
            filter_v(Filter::Ref(r)) == identity_v(),
    {
        let p = Path(Vec::new());
        proof {
            assert(path_v(p) =~= Seq::<PathElemV>::empty());
        }
        Ref::Path(p)
    }

    /// `select(f)`: keep the current value iff `f` is truthy, desugared at
    /// build time to `if f then . else empty`.
    pub fn select(f: Box<Filter>) -> (r: Self)
        ensures
            ref_v(r) == RefV::IfThenElse(
                Box::new(filter_v(*f)),
                Box::new(identity_v()),
                Box::new(FilterV::Ref(RefV::Empty)),
            ),
    {
        let ghost fv = filter_v(*f);
        let id = Filter::Ref(Ref::identity());
        let r = Ref::IfThenElse(f, Box::new(id), Box::new(Filter::Ref(Ref::Empty)));
        proof {
            assert(ref_v(r) =~~= RefV::IfThenElse(
                Box::new(fv),
                Box::new(identity_v()),
                Box::new(FilterV::Ref(RefV::Empty)),
            ));
        }
        r
    }
}

impl Path {
    /// A filter converts to a path exactly when it is the `Ref::Path`
    /// variant; any other filter is returned unchanged as the error, so
    /// that an invalid assignment target can be reported.
    pub fn try_from(f: Filter) -> (r: Result<Path, Filter>)
        ensures
            match r {
                Ok(p) => filter_v(f) == FilterV::Ref(RefV::Path(path_v(p))),
                Err(g) => g == f && !(filter_v(f) matches FilterV::Ref(RefV::Path(_))),
            },
    {
        match f {
            Filter::Ref(Ref::Path(p)) => Ok(p),
            other => Err(other),
        }
    }
}

} // verus!
