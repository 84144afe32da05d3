//! The laws the compiler obeys, stated over the spec functions that the
//! executable functions are proved against.

use vstd::prelude::*;
use crate::error::{Error, ErrorV, res_v};
use crate::filter::{Filter, FilterV, NewFilterV, RefV, filter_v, identity_v};
use crate::ops::{is_right_assoc, math_op_of, prec_of};
use crate::parse::{best_op, build_spec, climb_spec, combine_spec, op_count, ops_ok};
use crate::syntax::{Node, NodeKind};

verus! {

/// The reduction of a five-node alternation split at the operator `pos`.
pub open spec fn climb_split(ns: Seq<Node>, pos: int) -> Result<FilterV, ErrorV> {
    match climb_spec(ns.subrange(0, pos)) {
        Err(e) => Err(e),
        Ok(l) => match climb_spec(ns.subrange(pos + 1, ns.len() as int)) {
            Err(e) => Err(e),
            Ok(r) => combine_spec(l, ns[pos], r),
        },
    }
}

/// Law: in `a op1 b op2 c` with operators of different precedence tiers,
/// the looser-binding operator (the lower tier) is the root of the tree,
/// so the tighter-binding one groups first: `1 + 2 * 3` reduces as
/// `1 + (2 * 3)` and `1 | 2 , 3` as `1 | (2 , 3)`.
pub proof fn lemma_precedence(ns: Seq<Node>)
    requires
        ns.len() == 5,
        prec_of(ns[1].kind) is Some,
        prec_of(ns[3].kind) is Some,
        prec_of(ns[1].kind) != prec_of(ns[3].kind),
    ensures
        climb_spec(ns) == climb_split(
            ns,
            if prec_of(ns[1].kind)->Some_0 < prec_of(ns[3].kind)->Some_0 {
                1int
            } else {
                3int
            },
        ),
{
    reveal_with_fuel(best_op, 3);
    assert(ops_ok(ns, 2)) by {
        assert(prec_of(ns[2 * 0int + 1].kind) is Some);
        assert(prec_of(ns[2 * 1int + 1].kind) is Some);
    }
    assert(op_count(ns) == 2);
}

/// Law: in `a op1 b op2 c` with two operators of one tier, a
/// right-associative tier reduces its rightmost operator first (`a = b = c`
/// is `a = (b = c)`), a left-associative tier its leftmost
/// (`a - b - c` is `(a - b) - c`).
pub proof fn lemma_associativity(ns: Seq<Node>)
    requires
        ns.len() == 5,
        prec_of(ns[1].kind) is Some,
        prec_of(ns[1].kind) == prec_of(ns[3].kind),
    ensures
        climb_spec(ns) == climb_split(
            ns,
            if is_right_assoc(prec_of(ns[1].kind)->Some_0) {
                1int
            } else {
                3int
            },
        ),
{
    reveal_with_fuel(best_op, 3);
    assert(ops_ok(ns, 2)) by {
        assert(prec_of(ns[2 * 0int + 1].kind) is Some);
        assert(prec_of(ns[2 * 1int + 1].kind) is Some);
    }
    assert(op_count(ns) == 2);
}

/// Law: a compound update desugars to a plain update whose transform
/// recomputes the path's value with the carried arithmetic operator:
/// `.x += 1` means exactly `.x |= . + 1`.
pub proof fn lemma_update_with_desugar(l: FilterV, w: Node, u: Node, r: FilterV)
    requires
        w.kind == NodeKind::UpdateWith,
        w.children@.len() == 1,
        math_op_of(w.children@[0].kind) is Some,
        u.kind == NodeKind::Update,
    ensures
        combine_spec(l, w, r) == combine_spec(
            l,
            u,
            FilterV::New(NewFilterV::Math(
                Box::new(identity_v()),
                math_op_of(w.children@[0].kind)->Some_0,
                Box::new(r),
            )),
        ),
{
}

/// Law: compiling path syntax that succeeds always yields a path filter,
/// so it converts to a `Path`; together with `Path::try_from`'s contract
/// (conversion fails exactly on every other filter shape) this is the
/// path round trip.
pub proof fn lemma_path_round_trip(n: Node)
    requires
        n.kind == NodeKind::Path,
        build_spec(n) is Ok,
    ensures
        build_spec(n)->Ok_0 matches FilterV::Ref(RefV::Path(_)),
{
}

/// Law: compilation is a function of the syntax tree alone — any two
/// results that meet the compiler's contract for the same alternation are
/// equal, so compiling the same source twice yields structurally
/// identical ASTs.
pub proof fn lemma_deterministic(
    ns: Seq<Node>,
    r1: Result<Filter, Error>,
    r2: Result<Filter, Error>,
)
    requires
        res_v(r1) == climb_spec(ns),
        res_v(r2) == climb_spec(ns),
    ensures
        res_v(r1) == res_v(r2),
        r1 is Ok <==> r2 is Ok,
        r1 is Ok ==> filter_v(r1->Ok_0) == filter_v(r2->Ok_0),
{
}

/// Law: the empty array literal builds to an array over the empty
/// generator.
pub proof fn lemma_empty_array(n: Node)
    requires
        n.kind == NodeKind::Array,
        n.children@.len() == 0,
    ensures
        build_spec(n) == Ok::<_, ErrorV>(FilterV::New(NewFilterV::Array(
            Box::new(FilterV::Ref(RefV::Empty)),
        ))),
{
}

} // verus!
