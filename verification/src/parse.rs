//! The compiler from concrete syntax trees to filter ASTs.
//!
//! The spec functions in this module are the compiler's definition: the
//! precedence-climbing reduction of operand/operator alternations, literal
//! decoding, path-element extraction and arity-based function resolution.
//! The executable functions return exactly what the spec functions say,
//! on every input tree.

use vstd::prelude::*;
use crate::error::{Error, ErrorV, res_v};
use crate::filter::{
    Filter, FilterV, NewFilter, NewFilterV, NewFunc, NewFuncV, Path, PathElem, PathElemV, Ref,
    RefV, elem_v, elems_v, filter_v, identity_v, object_v,
};
use crate::num::json_number;
use crate::ops::{LogicOp, MathOp, is_right_assoc, logic_op_of, math_op_of, prec, prec_of};
use crate::syntax::{Node, NodeKind, str_eq};
use crate::val::{Atom, AtomV, Num};

verus! {

/// The concrete-syntax parser front: hands the root operand/operator
/// alternation of a grammar engine's output to the precedence climber.
pub struct FilterParser;

/// The view of a sequence of filters.
pub open spec fn filters_v(fs: Seq<Filter>) -> Seq<FilterV>
    decreases fs,
{
    if fs.len() == 0 {
        Seq::empty()
    } else {
        seq![filter_v(fs[0])] + filters_v(fs.drop_first())
    }
}

/// What the literal decoder makes of a leaf node.
pub open spec fn atom_spec(n: Node) -> Result<AtomV, ErrorV> {
    match n.kind {
        NodeKind::Null => Ok(AtomV::Null),
        NodeKind::Boole => if n.text@ == "true"@ {
            Ok(AtomV::Bool(true))
        } else if n.text@ == "false"@ {
            Ok(AtomV::Bool(false))
        } else {
            Err(ErrorV::Malformed)
        },
        NodeKind::Number => match json_number(n.text@) {
            Some(c) => Ok(AtomV::Num(c)),
            None => Err(ErrorV::BadNumber(n.text@)),
        },
        NodeKind::Str => Ok(AtomV::Str(n.text@)),
        _ => Err(ErrorV::Malformed),
    }
}

/// Function resolution at arity 0.
pub open spec fn arity0_spec(name: Seq<char>) -> Option<FilterV> {
    if name == "empty"@ {
        Some(FilterV::Ref(RefV::Empty))
    } else if name == "any"@ {
        Some(FilterV::New(NewFilterV::Function(NewFuncV::Any)))
    } else if name == "all"@ {
        Some(FilterV::New(NewFilterV::Function(NewFuncV::All)))
    } else if name == "not"@ {
        Some(FilterV::New(NewFilterV::Function(NewFuncV::Not)))
    } else if name == "length"@ {
        Some(FilterV::New(NewFilterV::Function(NewFuncV::Length)))
    } else if name == "type"@ {
        Some(FilterV::New(NewFilterV::Function(NewFuncV::Type)))
    } else if name == "add"@ {
        Some(FilterV::New(NewFilterV::Function(NewFuncV::Add)))
    } else {
        None
    }
}

/// Function resolution at arity 1.
pub open spec fn arity1_spec(name: Seq<char>, a: FilterV) -> Option<FilterV> {
    if name == "first"@ {
        Some(FilterV::Ref(RefV::First(Box::new(a))))
    } else if name == "last"@ {
        Some(FilterV::Ref(RefV::Last(Box::new(a))))
    } else if name == "map"@ {
        Some(FilterV::New(NewFilterV::Function(NewFuncV::MapFn(Box::new(a)))))
    } else if name == "select"@ {
        Some(FilterV::Ref(RefV::IfThenElse(
            Box::new(a),
            Box::new(identity_v()),
            Box::new(FilterV::Ref(RefV::Empty)),
        )))
    } else if name == "recurse"@ {
        Some(FilterV::Ref(RefV::Recurse(Box::new(a))))
    } else {
        None
    }
}

/// Function resolution at arity 2.
pub open spec fn arity2_spec(name: Seq<char>, a: FilterV, b: FilterV) -> Option<FilterV> {
    if name == "limit"@ {
        Some(FilterV::Ref(RefV::Limit(Box::new(a), Box::new(b))))
    } else {
        None
    }
}

/// Function resolution at arity 3.
pub open spec fn arity3_spec(name: Seq<char>, a: FilterV, b: FilterV, c: FilterV) -> Option<
    FilterV,
> {
    if name == "fold"@ {
        Some(FilterV::Ref(RefV::Fold(Box::new(a), Box::new(b), Box::new(c))))
    } else {
        None
    }
}

/// Arity dispatch: a name together with its realized argument count picks
/// one constructor, or nothing.
pub open spec fn resolve_spec(name: Seq<char>, args: Seq<FilterV>) -> Option<FilterV> {
    if args.len() == 0 {
        arity0_spec(name)
    } else if args.len() == 1 {
        arity1_spec(name, args[0])
    } else if args.len() == 2 {
        arity2_spec(name, args[0], args[1])
    } else if args.len() == 3 {
        arity3_spec(name, args[0], args[1], args[2])
    } else {
        None
    }
}

/// One reduction step of the precedence climber: an operator node applied
/// to its two reduced operands.
pub open spec fn combine_spec(l: FilterV, op: Node, r: FilterV) -> Result<FilterV, ErrorV> {
    match op.kind {
        NodeKind::Assign => match l {
            FilterV::Ref(RefV::Path(p)) => Ok(FilterV::Ref(RefV::Assign(p, Box::new(r)))),
            _ => Err(ErrorV::BadAssignTarget(Box::new(l))),
        },
        NodeKind::Update => match l {
            FilterV::Ref(RefV::Path(p)) => Ok(FilterV::Ref(RefV::Update(p, Box::new(r)))),
            _ => Err(ErrorV::BadAssignTarget(Box::new(l))),
        },
        NodeKind::UpdateWith => if op.children@.len() == 1 && math_op_of(op.children@[0].kind)
            is Some {
            let m = math_op_of(op.children@[0].kind)->Some_0;
            match l {
                FilterV::Ref(RefV::Path(p)) => Ok(FilterV::Ref(RefV::Update(
                    p,
                    Box::new(FilterV::New(NewFilterV::Math(
                        Box::new(identity_v()),
                        m,
                        Box::new(r),
                    ))),
                ))),
                _ => Err(ErrorV::BadAssignTarget(Box::new(l))),
            }
        } else {
            Err(ErrorV::Malformed)
        },
        NodeKind::Pipe => Ok(FilterV::Ref(RefV::Pipe(Box::new(l), Box::new(r)))),
        NodeKind::Comma => Ok(FilterV::Ref(RefV::Comma(Box::new(l), Box::new(r)))),
        k => match logic_op_of(k) {
            Some(lop) => Ok(FilterV::New(NewFilterV::Logic(Box::new(l), lop, Box::new(r)))),
            None => match math_op_of(k) {
                Some(mop) => Ok(FilterV::New(NewFilterV::Math(Box::new(l), mop, Box::new(r)))),
                None => Err(ErrorV::Malformed),
            },
        },
    }
}

/// The operator count of an odd-length alternation.
pub open spec fn op_count(ns: Seq<Node>) -> int {
    (ns.len() - 1) / 2
}

/// The first `k` operators (at odd positions) all stand in the precedence
/// table.
pub open spec fn ops_ok(ns: Seq<Node>, k: int) -> bool {
    forall|j: int| 0 <= j < k ==> prec_of(#[trigger] ns[2 * j + 1].kind) is Some
}

/// Which of the first `k` operators reduces last and so stands at the root:
/// the one with the lowest precedence tier, taking the rightmost such
/// operator for a left-associative tier and the leftmost for a
/// right-associative one.
pub open spec fn best_op(ns: Seq<Node>, k: int) -> int
    decreases k,
{
    if k <= 1 {
        0
    } else {
        let b = best_op(ns, k - 1);
        let lb = match prec_of(ns[2 * b + 1].kind) {
            Some(l) => l,
            None => 0,
        };
        let lj = match prec_of(ns[2 * (k - 1) + 1].kind) {
            Some(l) => l,
            None => 0,
        };
        if lj < lb || (lj == lb && !is_right_assoc(lj)) {
            k - 1
        } else {
            b
        }
    }
}

/// The chosen operator is one of the first `k`.
pub proof fn lemma_best_op_range(ns: Seq<Node>, k: int)
    requires
        1 <= k,
    ensures
        0 <= best_op(ns, k) < k,
    decreases k,
{
    if k > 1 {
        lemma_best_op_range(ns, k - 1);
    }
}

/// The precedence-climbing reduction of an operand/operator alternation:
/// the root operator is the loosest-binding one (ties resolved by
/// associativity), and each side reduces recursively.
pub open spec fn climb_spec(ns: Seq<Node>) -> Result<FilterV, ErrorV>
    decreases ns,
        via climb_spec_dec
{
    let n = ns.len() as int;
    if n == 0 || n % 2 == 0 {
        Err(ErrorV::Malformed)
    } else if n == 1 {
        build_spec(ns[0])
    } else if !ops_ok(ns, op_count(ns)) {
        Err(ErrorV::Malformed)
    } else {
        let pos = 2 * best_op(ns, op_count(ns)) + 1;
        match climb_spec(ns.subrange(0, pos)) {
            Err(e) => Err(e),
            Ok(l) => match climb_spec(ns.subrange(pos + 1, n)) {
                Err(e) => Err(e),
                Ok(r) => combine_spec(l, ns[pos], r),
            },
        }
    }
}

#[via_fn]
proof fn climb_spec_dec(ns: Seq<Node>) {
    let n = ns.len() as int;
    if n >= 3 && n % 2 == 1 {
        lemma_best_op_range(ns, op_count(ns));
        let pos = 2 * best_op(ns, op_count(ns)) + 1;
        assert(decreases_to!(ns => ns.subrange(0, pos)));
        assert(decreases_to!(ns => ns.subrange(pos + 1, n)));
    }
    assert(n == 1 ==> decreases_to!(ns => ns[0]));
}

/// The object constructor's entries, each key/value pair built recursively.
pub open spec fn object_spec(ns: Seq<Node>) -> Result<Seq<(FilterV, FilterV)>, ErrorV>
    decreases ns,
{
    if ns.len() == 0 {
        Ok(Seq::empty())
    } else {
        match pair_spec(ns[0]) {
            Err(e) => Err(e),
            Ok(kv) => match object_spec(ns.drop_first()) {
                Err(e) => Err(e),
                Ok(rest) => Ok(seq![kv] + rest),
            },
        }
    }
}

/// One object entry: a bare-identifier or quoted key becomes a string
/// literal, a parenthesized key a computed filter; the value is built
/// recursively.  An entry without a value is the unimplemented shorthand.
pub open spec fn pair_spec(n: Node) -> Result<(FilterV, FilterV), ErrorV>
    decreases n,
        via pair_spec_dec
{
    if n.kind != NodeKind::ObjectPair {
        Err(ErrorV::Malformed)
    } else if n.children@.len() == 1 {
        Err(ErrorV::ObjectShorthand)
    } else if n.children@.len() != 2 {
        Err(ErrorV::Malformed)
    } else {
        let kn = n.children@[0];
        let key = if kn.kind == NodeKind::Identifier {
            Ok(FilterV::New(NewFilterV::Atom(AtomV::Str(kn.text@))))
        } else if kn.kind == NodeKind::Str {
            Ok(FilterV::New(NewFilterV::Atom(AtomV::Str(kn.text@))))
        } else if kn.kind == NodeKind::Expr {
            build_spec(kn)
        } else {
            Err(ErrorV::Malformed)
        };
        match key {
            Err(e) => Err(e),
            Ok(k) => match build_spec(n.children@[1]) {
                Err(e) => Err(e),
                Ok(v) => Ok((k, v)),
            },
        }
    }
}

#[via_fn]
proof fn pair_spec_dec(n: Node) {
    assert(decreases_to!(n => n.children@));
    if n.children@.len() == 2 {
        assert(decreases_to!(n.children@ => n.children@[0]));
        assert(decreases_to!(n.children@ => n.children@[1]));
    }
}

/// A call's arguments, each built recursively.
pub open spec fn args_spec(ns: Seq<Node>) -> Result<Seq<FilterV>, ErrorV>
    decreases ns,
{
    if ns.len() == 0 {
        Ok(Seq::empty())
    } else {
        match build_spec(ns[0]) {
            Err(e) => Err(e),
            Ok(f) => match args_spec(ns.drop_first()) {
                Err(e) => Err(e),
                Ok(rest) => Ok(seq![f] + rest),
            },
        }
    }
}

/// The path elements of a whole path: the segments' elements in order.
pub open spec fn segs_spec(ns: Seq<Node>) -> Result<Seq<PathElemV>, ErrorV>
    decreases ns,
{
    if ns.len() == 0 {
        Ok(Seq::empty())
    } else {
        match seg_spec(ns[0]) {
            Err(e) => Err(e),
            Ok(es) => match segs_spec(ns.drop_first()) {
                Err(e) => Err(e),
                Ok(rest) => Ok(es + rest),
            },
        }
    }
}

/// One path segment: a head (a lone dot selects nothing; a named index
/// selects that key, its optional presence marker read and deliberately
/// dropped), then one element per bracket qualifier.
pub open spec fn seg_spec(n: Node) -> Result<Seq<PathElemV>, ErrorV>
    decreases n,
        via seg_spec_dec
{
    if n.kind != NodeKind::PathSegment || n.children@.len() == 0 {
        Err(ErrorV::Malformed)
    } else {
        let head = n.children@[0];
        let first: Result<Seq<PathElemV>, ErrorV> = if head.kind == NodeKind::Dot {
            Ok(Seq::empty())
        } else if head.kind == NodeKind::PathIndex {
            head_spec(head)
        } else {
            Err(ErrorV::Malformed)
        };
        match first {
            Err(e) => Err(e),
            Ok(es) => match quals_spec(n.children@.drop_first()) {
                Err(e) => Err(e),
                Ok(rest) => Ok(es + rest),
            },
        }
    }
}

#[via_fn]
proof fn seg_spec_dec(n: Node) {
    assert(decreases_to!(n => n.children@));
    if n.children@.len() > 0 {
        assert(decreases_to!(n.children@ => n.children@[0]));
        assert(decreases_to!(n.children@ => n.children@.drop_first()));
    }
}

/// A named-index head: the identifier becomes a string-literal index.
pub open spec fn head_spec(head: Node) -> Result<Seq<PathElemV>, ErrorV> {
    if head.children@.len() == 1 || (head.children@.len() == 2 && head.children@[1].kind
        == NodeKind::Question) {
        if head.children@[0].kind == NodeKind::Identifier {
            Ok(
                seq![
                    PathElemV::Index(
                        Box::new(
                            FilterV::New(NewFilterV::Atom(AtomV::Str(head.children@[0].text@))),
                        ),
                    ),
                ],
            )
        } else {
            Err(ErrorV::Malformed)
        }
    } else {
        Err(ErrorV::Malformed)
    }
}

/// The bracket qualifiers of one segment, one element each.
pub open spec fn quals_spec(ns: Seq<Node>) -> Result<Seq<PathElemV>, ErrorV>
    decreases ns,
{
    if ns.len() == 0 {
        Ok(Seq::empty())
    } else {
        match range_spec(ns[0]) {
            Err(e) => Err(e),
            Ok(e0) => match quals_spec(ns.drop_first()) {
                Err(e) => Err(e),
                Ok(rest) => Ok(seq![e0] + rest),
            },
        }
    }
}

/// One bracket qualifier: `[]` slices everything, `[e]` indexes, and the
/// `e:`, `:e` and `a:b` forms slice between the given bounds.
pub open spec fn range_spec(n: Node) -> Result<PathElemV, ErrorV>
    decreases n,
        via range_spec_dec
{
    if n.kind != NodeKind::Brackets {
        Err(ErrorV::Malformed)
    } else if n.children@.len() == 0 {
        Ok(PathElemV::Range(None, None))
    } else if n.children@.len() == 1 {
        let c = n.children@[0];
        if c.kind == NodeKind::At {
            match climb_spec(c.children@) {
                Err(e) => Err(e),
                Ok(f) => Ok(PathElemV::Index(Box::new(f))),
            }
        } else if c.kind == NodeKind::From {
            match climb_spec(c.children@) {
                Err(e) => Err(e),
                Ok(f) => Ok(PathElemV::Range(Some(Box::new(f)), None)),
            }
        } else if c.kind == NodeKind::Until {
            match climb_spec(c.children@) {
                Err(e) => Err(e),
                Ok(f) => Ok(PathElemV::Range(None, Some(Box::new(f)))),
            }
        } else if c.kind == NodeKind::FromUntil {
            if c.children@.len() == 2 {
                match build_spec(c.children@[0]) {
                    Err(e) => Err(e),
                    Ok(lo) => match build_spec(c.children@[1]) {
                        Err(e) => Err(e),
                        Ok(hi) => Ok(PathElemV::Range(Some(Box::new(lo)), Some(Box::new(hi)))),
                    },
                }
            } else {
                Err(ErrorV::Malformed)
            }
        } else {
            Err(ErrorV::Malformed)
        }
    } else {
        Err(ErrorV::Malformed)
    }
}

#[via_fn]
proof fn range_spec_dec(n: Node) {
    assert(decreases_to!(n => n.children@));
    if n.children@.len() == 1 {
        let c = n.children@[0];
        assert(decreases_to!(n.children@ => c));
        assert(decreases_to!(c => c.children@));
        if c.children@.len() == 2 {
            assert(decreases_to!(c.children@ => c.children@[0]));
            assert(decreases_to!(c.children@ => c.children@[1]));
        }
    }
}

/// The node-to-AST transform, dispatching on the node kind.
pub open spec fn build_spec(n: Node) -> Result<FilterV, ErrorV>
    decreases n,
        via build_spec_dec
{
    match n.kind {
        NodeKind::Expr => climb_spec(n.children@),
        NodeKind::Atom => if n.children@.len() == 1 {
            match atom_spec(n.children@[0]) {
                Err(e) => Err(e),
                Ok(a) => Ok(FilterV::New(NewFilterV::Atom(a))),
            }
        } else {
            Err(ErrorV::Malformed)
        },
        NodeKind::Array => if n.children@.len() == 0 {
            Ok(FilterV::New(NewFilterV::Array(Box::new(FilterV::Ref(RefV::Empty)))))
        } else {
            match climb_spec(n.children@) {
                Err(e) => Err(e),
                Ok(f) => Ok(FilterV::New(NewFilterV::Array(Box::new(f)))),
            }
        },
        NodeKind::Object => match object_spec(n.children@) {
            Err(e) => Err(e),
            Ok(kvs) => Ok(FilterV::New(NewFilterV::Object(kvs))),
        },
        NodeKind::Ite => if n.children@.len() == 3 {
            match build_spec(n.children@[0]) {
                Err(e) => Err(e),
                Ok(c) => match build_spec(n.children@[1]) {
                    Err(e) => Err(e),
                    Ok(t) => match build_spec(n.children@[2]) {
                        Err(e) => Err(e),
                        Ok(f) => Ok(FilterV::Ref(RefV::IfThenElse(
                            Box::new(c),
                            Box::new(t),
                            Box::new(f),
                        ))),
                    },
                },
            }
        } else {
            Err(ErrorV::Malformed)
        },
        NodeKind::Function => if n.children@.len() == 0 || n.children@[0].kind
            != NodeKind::Identifier {
            Err(ErrorV::Malformed)
        } else if n.children@.len() == 1 {
            match resolve_spec(n.children@[0].text@, Seq::empty()) {
                Some(f) => Ok(f),
                None => Err(ErrorV::Unresolved { name: n.children@[0].text@, arity: 0 }),
            }
        } else if n.children@.len() == 2 && n.children@[1].kind == NodeKind::Args {
            match args_spec(n.children@[1].children@) {
                Err(e) => Err(e),
                Ok(args) => match resolve_spec(n.children@[0].text@, args) {
                    Some(f) => Ok(f),
                    None => Err(ErrorV::Unresolved {
                        name: n.children@[0].text@,
                        arity: args.len(),
                    }),
                },
            }
        } else {
            Err(ErrorV::Malformed)
        },
        NodeKind::Path => match segs_spec(n.children@) {
            Err(e) => Err(e),
            Ok(es) => Ok(FilterV::Ref(RefV::Path(es))),
        },
        _ => Err(ErrorV::Malformed),
    }
}

#[via_fn]
proof fn build_spec_dec(n: Node) {
    assert(decreases_to!(n => n.children@));
    if n.children@.len() == 3 {
        assert(decreases_to!(n.children@ => n.children@[0]));
        assert(decreases_to!(n.children@ => n.children@[1]));
        assert(decreases_to!(n.children@ => n.children@[2]));
    }
    if n.children@.len() == 1 {
        assert(decreases_to!(n.children@ => n.children@[0]));
    }
    if n.children@.len() == 2 {
        assert(decreases_to!(n.children@ => n.children@[1]));
        assert(decreases_to!(n.children@[1] => n.children@[1].children@));
    }
}

/// The view of an optional filter.
pub open spec fn opt_filter_v(r: Option<Filter>) -> Option<FilterV> {
    match r {
        Some(f) => Some(filter_v(f)),
        None => None,
    }
}

/// [`filters_v`] is the element-wise view.
pub proof fn lemma_filters_v(s: Seq<Filter>)
    ensures
        filters_v(s).len() == s.len(),
        forall|i: int| 0 <= i < s.len() ==> filters_v(s)[i] == filter_v(s[i]),
    decreases s,
{
    if s.len() > 0 {
        lemma_filters_v(s.drop_first());
    }
}

impl Atom {
    /// Decode a literal leaf node.
    pub fn from_node(n: &Node) -> (r: Result<Atom, Error>)
        ensures
            res_v(r) == atom_spec(*n),
    {
        match n.kind {
            NodeKind::Null => Ok(Atom::Null),
            NodeKind::Boole => if str_eq(n.text.as_str(), "true") {
                Ok(Atom::Bool(true))
            } else if str_eq(n.text.as_str(), "false") {
                Ok(Atom::Bool(false))
            } else {
                Err(Error::Malformed)
            },
            NodeKind::Number => match crate::num::parse_number(n.text.as_str()) {
                Some(t) => Ok(Atom::Num(Num(t))),
                None => Err(Error::BadNumber(n.text.clone())),
            },
            NodeKind::Str => Ok(Atom::Str(n.text.clone())),
            _ => Err(Error::Malformed),
        }
    }
}

fn resolve0(name: &str) -> (r: Option<Filter>)
    ensures
        opt_filter_v(r) == arity0_spec(name@),
{
    proof {
        reveal_with_fuel(filter_v, 4);
        reveal_with_fuel(crate::filter::new_filter_v, 4);
        reveal_with_fuel(crate::filter::new_func_v, 4);
        reveal_with_fuel(crate::filter::ref_v, 4);
    }
    if str_eq(name, "empty") {
        Some(Filter::Ref(Ref::Empty))
    } else if str_eq(name, "any") {
        Some(Filter::New(NewFilter::Function(NewFunc::Any)))
    } else if str_eq(name, "all") {
        Some(Filter::New(NewFilter::Function(NewFunc::All)))
    } else if str_eq(name, "not") {
        Some(Filter::New(NewFilter::Function(NewFunc::Not)))
    } else if str_eq(name, "length") {
        Some(Filter::New(NewFilter::Function(NewFunc::Length)))
    } else if str_eq(name, "type") {
        Some(Filter::New(NewFilter::Function(NewFunc::Type)))
    } else if str_eq(name, "add") {
        Some(Filter::New(NewFilter::Function(NewFunc::Add)))
    } else {
        None
    }
}

fn resolve1(name: &str, a: Filter) -> (r: Option<Filter>)
    ensures
        opt_filter_v(r) == arity1_spec(name@, filter_v(a)),
{
    proof {
        reveal_with_fuel(filter_v, 4);
        reveal_with_fuel(crate::filter::new_filter_v, 4);
        reveal_with_fuel(crate::filter::new_func_v, 4);
        reveal_with_fuel(crate::filter::ref_v, 4);
    }
    if str_eq(name, "first") {
        Some(Filter::Ref(Ref::First(Box::new(a))))
    } else if str_eq(name, "last") {
        Some(Filter::Ref(Ref::Last(Box::new(a))))
    } else if str_eq(name, "map") {
        Some(Filter::New(NewFilter::Function(NewFunc::MapFn(Box::new(a)))))
    } else if str_eq(name, "select") {
        Some(Filter::Ref(Ref::select(Box::new(a))))
    } else if str_eq(name, "recurse") {
        Some(Filter::Ref(Ref::Recurse(Box::new(a))))
    } else {
        None
    }
}

fn resolve2(name: &str, a: Filter, b: Filter) -> (r: Option<Filter>)
    ensures
        opt_filter_v(r) == arity2_spec(name@, filter_v(a), filter_v(b)),
{
    proof {
        reveal_with_fuel(filter_v, 4);
        reveal_with_fuel(crate::filter::new_filter_v, 4);
        reveal_with_fuel(crate::filter::new_func_v, 4);
        reveal_with_fuel(crate::filter::ref_v, 4);
    }
    if str_eq(name, "limit") {
        Some(Filter::Ref(Ref::Limit(Box::new(a), Box::new(b))))
    } else {
        None
    }
}

fn resolve3(name: &str, a: Filter, b: Filter, c: Filter) -> (r: Option<Filter>)
    ensures
        opt_filter_v(r) == arity3_spec(name@, filter_v(a), filter_v(b), filter_v(c)),
{
    proof {
        reveal_with_fuel(filter_v, 4);
        reveal_with_fuel(crate::filter::new_filter_v, 4);
        reveal_with_fuel(crate::filter::new_func_v, 4);
        reveal_with_fuel(crate::filter::ref_v, 4);
    }
    if str_eq(name, "fold") {
        Some(Filter::Ref(Ref::Fold(Box::new(a), Box::new(b), Box::new(c))))
    } else {
        None
    }
}

impl Filter {
    /// Resolve a call from its name and realized arguments, by arity.
    pub fn try_from(name: &str, args: Vec<Filter>) -> (r: Option<Filter>)
        ensures
            opt_filter_v(r) == resolve_spec(name@, filters_v(args@)),
    {
        proof {
            lemma_filters_v(args@);
        }
        let mut args = args;
        if args.len() == 0 {
            resolve0(name)
        } else if args.len() == 1 {
            let a = args.remove(0);
            resolve1(name, a)
        } else if args.len() == 2 {
            let a = args.remove(0);
            let b = args.remove(0);
            resolve2(name, a, b)
        } else if args.len() == 3 {
            let a = args.remove(0);
            let b = args.remove(0);
            let c = args.remove(0);
            resolve3(name, a, b, c)
        } else {
            None
        }
    }
}

/// One executable reduction step of the precedence climber.
pub fn combine(l: Filter, op: &Node, r: Filter) -> (res: Result<Filter, Error>)
    ensures
        res_v(res) == combine_spec(filter_v(l), *op, filter_v(r)),
{
    proof {
        reveal_with_fuel(filter_v, 4);
        reveal_with_fuel(crate::filter::new_filter_v, 4);
        reveal_with_fuel(crate::filter::ref_v, 4);
    }
    match op.kind {
        NodeKind::Assign => match Path::try_from(l) {
            Ok(p) => Ok(Filter::Ref(Ref::Assign(p, Box::new(r)))),
            Err(f) => Err(Error::BadAssignTarget(Box::new(f))),
        },
        NodeKind::Update => match Path::try_from(l) {
            Ok(p) => Ok(Filter::Ref(Ref::Update(p, Box::new(r)))),
            Err(f) => Err(Error::BadAssignTarget(Box::new(f))),
        },
        NodeKind::UpdateWith => {
            if op.children.len() != 1 {
                return Err(Error::Malformed);
            }
            let m = match MathOp::try_from(op.children[0].kind) {
                Some(m) => m,
                None => return Err(Error::Malformed),
            };
            match Path::try_from(l) {
                Ok(p) => {
                    let id = Box::new(Filter::Ref(Ref::identity()));
                    let f = Box::new(Filter::New(NewFilter::Math(id, m, Box::new(r))));
                    Ok(Filter::Ref(Ref::Update(p, f)))
                },
                Err(f) => Err(Error::BadAssignTarget(Box::new(f))),
            }
        },
        NodeKind::Pipe => Ok(Filter::Ref(Ref::Pipe(Box::new(l), Box::new(r)))),
        NodeKind::Comma => Ok(Filter::Ref(Ref::Comma(Box::new(l), Box::new(r)))),
        k => match LogicOp::try_from(k) {
            Some(lop) => Ok(Filter::New(NewFilter::Logic(Box::new(l), lop, Box::new(r)))),
            None => match MathOp::try_from(k) {
                Some(mop) => Ok(Filter::New(NewFilter::Math(Box::new(l), mop, Box::new(r)))),
                None => Err(Error::Malformed),
            },
        },
    }
}

/// [`elems_v`] distributes over concatenation.
pub proof fn lemma_elems_v_concat(a: Seq<PathElem>, b: Seq<PathElem>)
    ensures
        elems_v(a + b) =~= elems_v(a) + elems_v(b),
    decreases a,
{
    if a.len() == 0 {
        assert(a + b =~= b);
        assert(elems_v(a) =~= Seq::<PathElemV>::empty());
    } else {
        lemma_elems_v_concat(a.drop_first(), b);
        assert((a + b).drop_first() =~= a.drop_first() + b);
        assert(elems_v(a + b) =~= seq![elem_v((a + b)[0])] + elems_v((a + b).drop_first()));
        assert((a + b)[0] == a[0]);
    }
}

/// The executable precedence climber over `v[lo..hi]`, returning exactly
/// what [`climb_spec`] says of that alternation.
pub fn climb(v: &Vec<Node>, lo: usize, hi: usize) -> (r: Result<Filter, Error>)
    requires
        lo <= hi <= v@.len(),
    ensures
        res_v(r) == climb_spec(v@.subrange(lo as int, hi as int)),
    decreases v@.subrange(lo as int, hi as int),
{
    let ghost ns = v@.subrange(lo as int, hi as int);
    let n = hi - lo;
    if n == 0 || n % 2 == 0 {
        return Err(Error::Malformed);
    }
    if n == 1 {
        proof {
            assert(decreases_to!(ns => ns[0]));
            assert(ns[0] == v@[lo as int]);
        }
        return Filter::from_node(&v[lo]);
    }
    let num_ops = (n - 1) / 2;
    proof {
        assert(num_ops as int == op_count(ns));
    }
    let mut best: usize = 0;
    let mut best_level: u8;
    proof {
        assert(ns[2 * 0int + 1] == v@[lo as int + 1]);
    }
    match prec(v[lo + 1].kind) {
        Some(l) => {
            best_level = l;
        },
        None => {
            proof {
                assert(prec_of(ns[2 * 0int + 1].kind) is None);
                assert(!ops_ok(ns, op_count(ns)));
            }
            return Err(Error::Malformed);
        },
    }
    let mut j: usize = 1;
    while j < num_ops
        invariant
            1 <= j <= num_ops,
            lo <= hi <= v@.len(),
            n == hi - lo,
            3 <= n,
            n % 2 == 1,
            num_ops == (n - 1) / 2,
            ns == v@.subrange(lo as int, hi as int),
            ns.len() == n,
            ops_ok(ns, j as int),
            best < j,
            best as int == best_op(ns, j as int),
            prec_of(ns[2 * (best as int) + 1].kind) == Some(best_level as int),
        decreases num_ops - j,
    {
        let pos = lo + 2 * j + 1;
        proof {
            assert(ns[2 * (j as int) + 1] == v@[pos as int]);
        }
        match prec(v[pos].kind) {
            Some(l) => {
                if l < best_level || (l == best_level && l != 2) {
                    best = j;
                    best_level = l;
                }
                proof {
                    assert(ops_ok(ns, j as int + 1));
                    assert(best_op(ns, j as int + 1) == best as int);
                }
            },
            None => {
                proof {
                    assert(prec_of(ns[2 * (j as int) + 1].kind) is None);
                    assert(!ops_ok(ns, op_count(ns)));
                }
                return Err(Error::Malformed);
            },
        }
        j += 1;
    }
    proof {
        lemma_best_op_range(ns, op_count(ns));
    }
    let mid = lo + 2 * best + 1;
    proof {
        assert(v@.subrange(lo as int, mid as int) =~= ns.subrange(0, 2 * (best as int) + 1));
        assert(decreases_to!(ns => ns.subrange(0, 2 * (best as int) + 1)));
    }
    let left = match climb(v, lo, mid) {
        Ok(f) => f,
        Err(e) => return Err(e),
    };
    proof {
        assert(v@.subrange(mid as int + 1, hi as int) =~= ns.subrange(
            2 * (best as int) + 2,
            n as int,
        ));
        assert(decreases_to!(ns => ns.subrange(2 * (best as int) + 2, n as int)));
    }
    let right = match climb(v, mid + 1, hi) {
        Ok(f) => f,
        Err(e) => return Err(e),
    };
    proof {
        assert(ns[2 * (best as int) + 1] == v@[mid as int]);
    }
    combine(left, &v[mid], right)
}

/// The object entries of `v[i..]`, each built by [`object_pair`].
fn object_pairs(v: &Vec<Node>, i: usize) -> (r: Result<Vec<(Filter, Filter)>, Error>)
    requires
        i <= v@.len(),
    ensures
        match r {
            Ok(kvs) => object_spec(v@.subrange(i as int, v@.len() as int)) == Ok::<_, ErrorV>(object_v(kvs@)),
            Err(e) => object_spec(v@.subrange(i as int, v@.len() as int)) == Err::<Seq<(FilterV, FilterV)>, _>(e@),
        },
    decreases v@.subrange(i as int, v@.len() as int),
{
    let ghost tail = v@.subrange(i as int, v@.len() as int);
    if i == v.len() {
        let kvs: Vec<(Filter, Filter)> = Vec::new();
        proof {
            assert(tail.len() == 0);
            assert(object_v(kvs@) =~= Seq::<(FilterV, FilterV)>::empty());
        }
        return Ok(kvs);
    }
    proof {
        assert(decreases_to!(tail => tail[0]));
        assert(tail[0] == v@[i as int]);
    }
    let kv = match object_pair(&v[i]) {
        Ok(kv) => kv,
        Err(e) => return Err(e),
    };
    proof {
        assert(decreases_to!(tail => tail.subrange(1, tail.len() as int)));
        assert(v@.subrange(i as int + 1, v@.len() as int) =~= tail.subrange(1, tail.len() as int));
    }
    let mut rest = match object_pairs(v, i + 1) {
        Ok(rest) => rest,
        Err(e) => return Err(e),
    };
    let ghost old_rest = rest@;
    rest.insert(0, kv);
    proof {
        assert(tail.drop_first() =~= v@.subrange(i as int + 1, v@.len() as int));
        assert(rest@.drop_first() =~= old_rest);
        assert(rest@[0] == kv);
        assert(object_v(rest@) =~= seq![(filter_v(kv.0), filter_v(kv.1))] + object_v(old_rest));
    }
    Ok(rest)
}

/// One object entry, as [`pair_spec`] says.
fn object_pair(n: &Node) -> (r: Result<(Filter, Filter), Error>)
    ensures
        match r {
            Ok(kv) => pair_spec(*n) == Ok::<_, ErrorV>((filter_v(kv.0), filter_v(kv.1))),
            Err(e) => pair_spec(*n) == Err::<(FilterV, FilterV), _>(e@),
        },
    decreases *n,
{
    proof {
        reveal_with_fuel(filter_v, 3);
        reveal_with_fuel(crate::filter::new_filter_v, 3);
    }
    if n.kind != NodeKind::ObjectPair {
        return Err(Error::Malformed);
    }
    if n.children.len() == 1 {
        return Err(Error::ObjectShorthand);
    }
    if n.children.len() != 2 {
        return Err(Error::Malformed);
    }
    proof {
        assert(decreases_to!(*n => n.children@));
        assert(decreases_to!(n.children@ => n.children@[0]));
        assert(decreases_to!(n.children@ => n.children@[1]));
    }
    let kn = &n.children[0];
    let key = if kn.kind == NodeKind::Identifier {
        Filter::New(NewFilter::Atom(Atom::Str(kn.text.clone())))
    } else if kn.kind == NodeKind::Str {
        Filter::New(NewFilter::Atom(Atom::Str(kn.text.clone())))
    } else if kn.kind == NodeKind::Expr {
        match Filter::from_node(kn) {
            Ok(f) => f,
            Err(e) => return Err(e),
        }
    } else {
        return Err(Error::Malformed);
    };
    let value = match Filter::from_node(&n.children[1]) {
        Ok(f) => f,
        Err(e) => return Err(e),
    };
    Ok((key, value))
}

/// The call arguments in `v[i..]`, each built recursively.
fn build_args(v: &Vec<Node>, i: usize) -> (r: Result<Vec<Filter>, Error>)
    requires
        i <= v@.len(),
    ensures
        match r {
            Ok(fs) => args_spec(v@.subrange(i as int, v@.len() as int)) == Ok::<_, ErrorV>(filters_v(fs@)),
            Err(e) => args_spec(v@.subrange(i as int, v@.len() as int)) == Err::<Seq<FilterV>, _>(e@),
        },
    decreases v@.subrange(i as int, v@.len() as int),
{
    let ghost tail = v@.subrange(i as int, v@.len() as int);
    if i == v.len() {
        let fs: Vec<Filter> = Vec::new();
        proof {
            assert(tail.len() == 0);
            assert(filters_v(fs@) =~= Seq::<FilterV>::empty());
        }
        return Ok(fs);
    }
    proof {
        assert(decreases_to!(tail => tail[0]));
        assert(tail[0] == v@[i as int]);
    }
    let f = match Filter::from_node(&v[i]) {
        Ok(f) => f,
        Err(e) => return Err(e),
    };
    proof {
        assert(decreases_to!(tail => tail.subrange(1, tail.len() as int)));
        assert(v@.subrange(i as int + 1, v@.len() as int) =~= tail.subrange(1, tail.len() as int));
    }
    let mut rest = match build_args(v, i + 1) {
        Ok(rest) => rest,
        Err(e) => return Err(e),
    };
    let ghost old_rest = rest@;
    rest.insert(0, f);
    proof {
        assert(tail.drop_first() =~= v@.subrange(i as int + 1, v@.len() as int));
        assert(rest@.drop_first() =~= old_rest);
        assert(rest@[0] == f);
        assert(filters_v(rest@) =~= seq![filter_v(f)] + filters_v(old_rest));
    }
    Ok(rest)
}

/// One bracket qualifier, as [`range_spec`] says.
fn range_elem(n: &Node) -> (r: Result<PathElem, Error>)
    ensures
        match r {
            Ok(e) => range_spec(*n) == Ok::<_, ErrorV>(elem_v(e)),
            Err(e) => range_spec(*n) == Err::<PathElemV, _>(e@),
        },
    decreases *n,
{
    if n.kind != NodeKind::Brackets {
        return Err(Error::Malformed);
    }
    if n.children.len() == 0 {
        return Ok(PathElem::Range(None, None));
    }
    if n.children.len() != 1 {
        return Err(Error::Malformed);
    }
    proof {
        assert(decreases_to!(*n => n.children@));
        assert(decreases_to!(n.children@ => n.children@[0]));
        assert(decreases_to!(n.children@[0] => n.children@[0].children@));
        assert(n.children@[0].children@.subrange(0, n.children@[0].children@.len() as int)
            =~= n.children@[0].children@);
    }
    let c = &n.children[0];
    if c.kind == NodeKind::At {
        match climb(&c.children, 0, c.children.len()) {
            Ok(f) => Ok(PathElem::Index(Box::new(f))),
            Err(e) => Err(e),
        }
    } else if c.kind == NodeKind::From {
        match climb(&c.children, 0, c.children.len()) {
            Ok(f) => Ok(PathElem::Range(Some(Box::new(f)), None)),
            Err(e) => Err(e),
        }
    } else if c.kind == NodeKind::Until {
        match climb(&c.children, 0, c.children.len()) {
            Ok(f) => Ok(PathElem::Range(None, Some(Box::new(f)))),
            Err(e) => Err(e),
        }
    } else if c.kind == NodeKind::FromUntil {
        if c.children.len() != 2 {
            return Err(Error::Malformed);
        }
        proof {
            assert(decreases_to!(c.children@ => c.children@[0]));
            assert(decreases_to!(c.children@ => c.children@[1]));
        }
        let lo = match Filter::from_node(&c.children[0]) {
            Ok(f) => f,
            Err(e) => return Err(e),
        };
        let hi = match Filter::from_node(&c.children[1]) {
            Ok(f) => f,
            Err(e) => return Err(e),
        };
        Ok(PathElem::Range(Some(Box::new(lo)), Some(Box::new(hi))))
    } else {
        Err(Error::Malformed)
    }
}

/// The bracket qualifiers in `v[i..]`, one element each.
#[verifier::rlimit(50)]
fn quals_elems(v: &Vec<Node>, i: usize) -> (r: Result<Vec<PathElem>, Error>)
    requires
        i <= v@.len(),
    ensures
        match r {
            Ok(es) => quals_spec(v@.subrange(i as int, v@.len() as int)) == Ok::<_, ErrorV>(elems_v(es@)),
            Err(e) => quals_spec(v@.subrange(i as int, v@.len() as int)) == Err::<Seq<PathElemV>, _>(e@),
        },
    decreases v@.subrange(i as int, v@.len() as int),
{
    let ghost tail = v@.subrange(i as int, v@.len() as int);
    if i == v.len() {
        let es: Vec<PathElem> = Vec::new();
        proof {
            assert(tail.len() == 0);
            assert(elems_v(es@) =~= Seq::<PathElemV>::empty());
        }
        return Ok(es);
    }
    proof {
        assert(decreases_to!(tail => tail[0]));
        assert(tail[0] == v@[i as int]);
    }
    let e0 = match range_elem(&v[i]) {
        Ok(e0) => e0,
        Err(e) => return Err(e),
    };
    proof {
        assert(decreases_to!(tail => tail.subrange(1, tail.len() as int)));
        assert(v@.subrange(i as int + 1, v@.len() as int) =~= tail.subrange(1, tail.len() as int));
    }
    let mut rest = match quals_elems(v, i + 1) {
        Ok(rest) => rest,
        Err(e) => return Err(e),
    };
    let ghost old_rest = rest@;
    rest.insert(0, e0);
    proof {
        assert(tail.drop_first() =~= v@.subrange(i as int + 1, v@.len() as int));
        assert(rest@.drop_first() =~= old_rest);
        assert(rest@[0] == e0);
        assert(elems_v(rest@) =~= seq![elem_v(e0)] + elems_v(old_rest));
    }
    Ok(rest)
}

/// One path segment's elements, as [`seg_spec`] says.
fn seg_elems(n: &Node) -> (r: Result<Vec<PathElem>, Error>)
    ensures
        match r {
            Ok(es) => seg_spec(*n) == Ok::<_, ErrorV>(elems_v(es@)),
            Err(e) => seg_spec(*n) == Err::<Seq<PathElemV>, _>(e@),
        },
    decreases *n,
{
    proof {
        reveal_with_fuel(filter_v, 3);
        reveal_with_fuel(crate::filter::new_filter_v, 3);
        reveal_with_fuel(elems_v, 2);
    }
    if n.kind != NodeKind::PathSegment || n.children.len() == 0 {
        return Err(Error::Malformed);
    }
    let head = &n.children[0];
    let mut out: Vec<PathElem> = Vec::new();
    proof {
        assert(n.children@[0] == head);
    }
    if head.kind == NodeKind::Dot {
        proof {
            assert(elems_v(out@) =~= Seq::<PathElemV>::empty());
        }
    } else if head.kind == NodeKind::PathIndex {
        let ok = if head.children.len() == 1 {
            true
        } else if head.children.len() == 2 {
            head.children[1].kind == NodeKind::Question
        } else {
            false
        };
        if !ok {
            return Err(Error::Malformed);
        }
        if head.children[0].kind != NodeKind::Identifier {
            return Err(Error::Malformed);
        }
        let key = Atom::Str(head.children[0].text.clone());
        out.push(PathElem::Index(Box::new(Filter::New(NewFilter::Atom(key)))));
        proof {
            assert(out@.drop_first() =~= Seq::<PathElem>::empty());
            assert(elems_v(out@) =~= seq![elem_v(out@[0])]);
        }
    } else {
        return Err(Error::Malformed);
    }
    proof {
        assert(decreases_to!(*n => n.children@));
        assert(decreases_to!(n.children@ => n.children@.subrange(1, n.children@.len() as int)));
    }
    let mut rest = match quals_elems(&n.children, 1) {
        Ok(rest) => rest,
        Err(e) => return Err(e),
    };
    let ghost head_elems = out@;
    let ghost rest_elems = rest@;
    out.append(&mut rest);
    proof {
        assert(out@ =~= head_elems + rest_elems);
        lemma_elems_v_concat(head_elems, rest_elems);
        assert(n.children@.drop_first() =~= n.children@.subrange(1, n.children@.len() as int));
    }
    Ok(out)
}

/// The path elements of the segments in `v[i..]`, concatenated.
fn build_segs(v: &Vec<Node>, i: usize) -> (r: Result<Vec<PathElem>, Error>)
    requires
        i <= v@.len(),
    ensures
        match r {
            Ok(es) => segs_spec(v@.subrange(i as int, v@.len() as int)) == Ok::<_, ErrorV>(elems_v(es@)),
            Err(e) => segs_spec(v@.subrange(i as int, v@.len() as int)) == Err::<Seq<PathElemV>, _>(e@),
        },
    decreases v@.subrange(i as int, v@.len() as int),
{
    let ghost tail = v@.subrange(i as int, v@.len() as int);
    if i == v.len() {
        let es: Vec<PathElem> = Vec::new();
        proof {
            assert(tail.len() == 0);
            assert(elems_v(es@) =~= Seq::<PathElemV>::empty());
        }
        return Ok(es);
    }
    proof {
        assert(decreases_to!(tail => tail[0]));
        assert(tail[0] == v@[i as int]);
    }
    let mut first = match seg_elems(&v[i]) {
        Ok(es) => es,
        Err(e) => return Err(e),
    };
    proof {
        assert(decreases_to!(tail => tail.subrange(1, tail.len() as int)));
        assert(v@.subrange(i as int + 1, v@.len() as int) =~= tail.subrange(1, tail.len() as int));
    }
    let mut rest = match build_segs(v, i + 1) {
        Ok(rest) => rest,
        Err(e) => return Err(e),
    };
    let ghost first_elems = first@;
    let ghost rest_elems = rest@;
    first.append(&mut rest);
    proof {
        assert(first@ =~= first_elems + rest_elems);
        lemma_elems_v_concat(first_elems, rest_elems);
        assert(tail.drop_first() =~= v@.subrange(i as int + 1, v@.len() as int));
    }
    Ok(first)
}

impl Filter {
    /// The node-to-AST transform: returns exactly what [`build_spec`] says
    /// of the node, on every input tree.
    pub fn from_node(n: &Node) -> (r: Result<Filter, Error>)
        ensures
            res_v(r) == build_spec(*n),
        decreases *n,
    {
        proof {
            reveal_with_fuel(filter_v, 3);
            reveal_with_fuel(crate::filter::new_filter_v, 3);
            reveal_with_fuel(crate::filter::ref_v, 3);
        }
        match n.kind {
            NodeKind::Expr => {
                proof {
                    assert(decreases_to!(*n => n.children@));
                    assert(n.children@.subrange(0, n.children@.len() as int) =~= n.children@);
                }
                climb(&n.children, 0, n.children.len())
            },
            NodeKind::Atom => {
                if n.children.len() != 1 {
                    return Err(Error::Malformed);
                }
                match Atom::from_node(&n.children[0]) {
                    Ok(a) => Ok(Filter::New(NewFilter::Atom(a))),
                    Err(e) => Err(e),
                }
            },
            NodeKind::Array => {
                if n.children.len() == 0 {
                    return Ok(Filter::New(NewFilter::Array(Box::new(Filter::Ref(Ref::Empty)))));
                }
                proof {
                    assert(decreases_to!(*n => n.children@));
                    assert(n.children@.subrange(0, n.children@.len() as int) =~= n.children@);
                }
                match climb(&n.children, 0, n.children.len()) {
                    Ok(f) => Ok(Filter::New(NewFilter::Array(Box::new(f)))),
                    Err(e) => Err(e),
                }
            },
            NodeKind::Object => {
                proof {
                    assert(decreases_to!(*n => n.children@));
                    assert(n.children@.subrange(0, n.children@.len() as int) =~= n.children@);
                }
                match object_pairs(&n.children, 0) {
                    Ok(kvs) => Ok(Filter::New(NewFilter::Object(kvs))),
                    Err(e) => Err(e),
                }
            },
            NodeKind::Ite => {
                if n.children.len() != 3 {
                    return Err(Error::Malformed);
                }
                proof {
                    assert(decreases_to!(*n => n.children@));
                    assert(decreases_to!(n.children@ => n.children@[0]));
                    assert(decreases_to!(n.children@ => n.children@[1]));
                    assert(decreases_to!(n.children@ => n.children@[2]));
                }
                let c = match Filter::from_node(&n.children[0]) {
                    Ok(f) => f,
                    Err(e) => return Err(e),
                };
                let t = match Filter::from_node(&n.children[1]) {
                    Ok(f) => f,
                    Err(e) => return Err(e),
                };
                let f = match Filter::from_node(&n.children[2]) {
                    Ok(f) => f,
                    Err(e) => return Err(e),
                };
                Ok(Filter::Ref(Ref::IfThenElse(Box::new(c), Box::new(t), Box::new(f))))
            },
            NodeKind::Function => {
                if n.children.len() == 0 {
                    return Err(Error::Malformed);
                }
                if n.children[0].kind != NodeKind::Identifier {
                    return Err(Error::Malformed);
                }
                let args: Vec<Filter> = if n.children.len() == 1 {
                    Vec::new()
                } else if n.children.len() == 2 && n.children[1].kind == NodeKind::Args {
                    proof {
                        assert(decreases_to!(*n => n.children@));
                        assert(decreases_to!(n.children@ => n.children@[1]));
                        assert(decreases_to!(n.children@[1] => n.children@[1].children@));
                        assert(n.children@[1].children@.subrange(
                            0,
                            n.children@[1].children@.len() as int,
                        ) =~= n.children@[1].children@);
                    }
                    match build_args(&n.children[1].children, 0) {
                        Ok(args) => args,
                        Err(e) => return Err(e),
                    }
                } else {
                    return Err(Error::Malformed);
                };
                proof {
                    if n.children@.len() == 1 {
                        assert(filters_v(args@) =~= Seq::<FilterV>::empty());
                    }
                    lemma_filters_v(args@);
                }
                let arity = args.len();
                let name = &n.children[0].text;
                match Filter::try_from(name.as_str(), args) {
                    Some(f) => Ok(f),
                    None => Err(Error::Unresolved { name: name.clone(), arity }),
                }
            },
            NodeKind::Path => {
                proof {
                    assert(decreases_to!(*n => n.children@));
                    assert(n.children@.subrange(0, n.children@.len() as int) =~= n.children@);
                }
                match build_segs(&n.children, 0) {
                    Ok(es) => {
                        let p = Path(es);
                        proof {
                            assert(crate::filter::path_v(p) == elems_v(p.0@));
                        }
                        Ok(Filter::Ref(Ref::Path(p)))
                    },
                    Err(e) => Err(e),
                }
            },
            _ => Err(Error::Malformed),
        }
    }
}

impl FilterParser {
    /// Compile the root operand/operator alternation that the grammar
    /// engine produced for a filter expression.
    pub fn parse(nodes: &Vec<Node>) -> (r: Result<Filter, Error>)
        ensures
            res_v(r) == climb_spec(nodes@),
    {
        proof {
            assert(nodes@.subrange(0, nodes@.len() as int) =~= nodes@);
        }
        climb(nodes, 0, nodes.len())
    }
}

} // verus!
