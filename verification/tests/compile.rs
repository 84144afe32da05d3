use jaq_core::error::Error;
use jaq_core::filter::{Filter, NewFilter, NewFunc, Path, PathElem, Ref};
use jaq_core::ops::{LogicOp, MathOp};
use jaq_core::parse::FilterParser;
use jaq_core::syntax::{Node, NodeKind};
use jaq_core::val::{Atom, Num};

fn leaf(kind: NodeKind, text: &str) -> Node {
    Node { kind, text: text.to_string(), children: Vec::new() }
}

fn node(kind: NodeKind, children: Vec<Node>) -> Node {
    Node { kind, text: String::new(), children }
}

fn num(text: &str) -> Node {
    node(NodeKind::Atom, vec![leaf(NodeKind::Number, text)])
}

fn ident_path(name: &str) -> Node {
    node(
        NodeKind::Path,
        vec![node(
            NodeKind::PathSegment,
            vec![node(NodeKind::PathIndex, vec![leaf(NodeKind::Identifier, name)])],
        )],
    )
}

fn dot() -> Node {
    node(NodeKind::Path, vec![node(NodeKind::PathSegment, vec![leaf(NodeKind::Dot, ".")])])
}

fn compile(nodes: Vec<Node>) -> Result<Filter, Error> {
    FilterParser::parse(&nodes)
}

fn fnum(text: &str) -> Filter {
    Filter::New(NewFilter::Atom(Atom::Num(Num(text.to_string()))))
}

fn fstr(text: &str) -> Filter {
    Filter::New(NewFilter::Atom(Atom::Str(text.to_string())))
}

fn key_elem(name: &str) -> PathElem {
    PathElem::Index(Box::new(fstr(name)))
}

fn fpath(elems: Vec<PathElem>) -> Filter {
    Filter::Ref(Ref::Path(Path(elems)))
}

fn identity() -> Filter {
    fpath(Vec::new())
}

#[test]
fn precedence_add_before_mul() {
    let r = compile(vec![num("1"), leaf(NodeKind::Add, "+"), num("2"), leaf(NodeKind::Mul, "*"), num("3")]);
    let expected = Filter::New(NewFilter::Math(
        Box::new(fnum("1")),
        MathOp::Add,
        Box::new(Filter::New(NewFilter::Math(Box::new(fnum("2")), MathOp::Mul, Box::new(fnum("3"))))),
    ));
    assert_eq!(r, Ok(expected));
}

#[test]
fn precedence_pipe_looser_than_comma() {
    let r = compile(vec![num("1"), leaf(NodeKind::Pipe, "|"), num("2"), leaf(NodeKind::Comma, ","), num("3")]);
    let expected = Filter::Ref(Ref::Pipe(
        Box::new(fnum("1")),
        Box::new(Filter::Ref(Ref::Comma(Box::new(fnum("2")), Box::new(fnum("3"))))),
    ));
    assert_eq!(r, Ok(expected));
}

#[test]
fn left_associative_subtraction() {
    let r = compile(vec![num("1"), leaf(NodeKind::Sub, "-"), num("2"), leaf(NodeKind::Sub, "-"), num("3")]);
    let expected = Filter::New(NewFilter::Math(
        Box::new(Filter::New(NewFilter::Math(Box::new(fnum("1")), MathOp::Sub, Box::new(fnum("2"))))),
        MathOp::Sub,
        Box::new(fnum("3")),
    ));
    assert_eq!(r, Ok(expected));
}

#[test]
fn assign_chain_groups_right() {
    let r = compile(vec![
        ident_path("a"),
        leaf(NodeKind::Assign, "="),
        ident_path("b"),
        leaf(NodeKind::Assign, "="),
        ident_path("c"),
    ]);
    let inner = Filter::Ref(Ref::Assign(Path(vec![key_elem("b")]), Box::new(fpath(vec![key_elem("c")]))));
    let expected = Filter::Ref(Ref::Assign(Path(vec![key_elem("a")]), Box::new(inner)));
    assert_eq!(r, Ok(expected));
}

#[test]
fn update_chain_groups_right() {
    let r = compile(vec![
        ident_path("a"),
        leaf(NodeKind::Update, "|="),
        ident_path("b"),
        leaf(NodeKind::Update, "|="),
        ident_path("c"),
    ]);
    let inner = Filter::Ref(Ref::Update(Path(vec![key_elem("b")]), Box::new(fpath(vec![key_elem("c")]))));
    let expected = Filter::Ref(Ref::Update(Path(vec![key_elem("a")]), Box::new(inner)));
    assert_eq!(r, Ok(expected));
}

#[test]
fn assign_to_literal_fails() {
    let r = compile(vec![num("1"), leaf(NodeKind::Assign, "="), ident_path("b")]);
    assert_eq!(r, Err(Error::BadAssignTarget(Box::new(fnum("1")))));
}

#[test]
fn compound_update_desugars() {
    let compound = compile(vec![
        ident_path("x"),
        node(NodeKind::UpdateWith, vec![leaf(NodeKind::Add, "+")]),
        num("1"),
    ]);
    let spelled_out = compile(vec![
        ident_path("x"),
        leaf(NodeKind::Update, "|="),
        dot(),
        leaf(NodeKind::Add, "+"),
        num("1"),
    ]);
    let expected = Filter::Ref(Ref::Update(
        Path(vec![key_elem("x")]),
        Box::new(Filter::New(NewFilter::Math(Box::new(identity()), MathOp::Add, Box::new(fnum("1"))))),
    ));
    assert_eq!(compound, Ok(expected));
    assert_eq!(compound, spelled_out);
}

#[test]
fn empty_array_is_array_of_empty() {
    let r = compile(vec![node(NodeKind::Array, vec![])]);
    let expected = Filter::New(NewFilter::Array(Box::new(Filter::Ref(Ref::Empty))));
    assert_eq!(r, Ok(expected));
}

#[test]
fn two_element_array_is_array_of_comma() {
    let r = compile(vec![node(
        NodeKind::Array,
        vec![num("1"), leaf(NodeKind::Comma, ","), num("2")],
    )]);
    let expected = Filter::New(NewFilter::Array(Box::new(Filter::Ref(Ref::Comma(
        Box::new(fnum("1")),
        Box::new(fnum("2")),
    )))));
    assert_eq!(r, Ok(expected));
}

#[test]
fn dotted_path_round_trips() {
    let r = compile(vec![node(
        NodeKind::Path,
        vec![
            node(NodeKind::PathSegment, vec![node(NodeKind::PathIndex, vec![leaf(NodeKind::Identifier, "a")])]),
            node(NodeKind::PathSegment, vec![node(NodeKind::PathIndex, vec![leaf(NodeKind::Identifier, "b")])]),
        ],
    )])
    .unwrap();
    assert_eq!(r, fpath(vec![key_elem("a"), key_elem("b")]));
    let p = Path::try_from(r).unwrap();
    assert_eq!(p, Path(vec![key_elem("a"), key_elem("b")]));
}

#[test]
fn indexed_path_round_trips() {
    let r = compile(vec![node(
        NodeKind::Path,
        vec![
            node(NodeKind::PathSegment, vec![node(NodeKind::PathIndex, vec![leaf(NodeKind::Identifier, "a")])]),
            node(
                NodeKind::PathSegment,
                vec![
                    node(NodeKind::PathIndex, vec![leaf(NodeKind::Identifier, "b")]),
                    node(NodeKind::Brackets, vec![node(NodeKind::At, vec![num("0")])]),
                ],
            ),
        ],
    )])
    .unwrap();
    let expected = vec![key_elem("a"), key_elem("b"), PathElem::Index(Box::new(fnum("0")))];
    assert_eq!(Path::try_from(r), Ok(Path(expected)));
}

#[test]
fn non_path_fails_conversion() {
    assert_eq!(Path::try_from(fnum("1")), Err(fnum("1")));
}

#[test]
fn question_marker_is_dropped() {
    let plain = compile(vec![ident_path("a")]);
    let marked = compile(vec![node(
        NodeKind::Path,
        vec![node(
            NodeKind::PathSegment,
            vec![node(
                NodeKind::PathIndex,
                vec![leaf(NodeKind::Identifier, "a"), leaf(NodeKind::Question, "?")],
            )],
        )],
    )]);
    assert_eq!(plain, marked);
    assert_eq!(plain, Ok(fpath(vec![key_elem("a")])));
}

#[test]
fn limit_resolves_at_arity_two() {
    let r = compile(vec![node(
        NodeKind::Function,
        vec![leaf(NodeKind::Identifier, "limit"), node(NodeKind::Args, vec![num("5"), dot()])],
    )]);
    let expected = Filter::Ref(Ref::Limit(Box::new(fnum("5")), Box::new(identity())));
    assert_eq!(r, Ok(expected));
}

#[test]
fn limit_fails_at_arity_one() {
    let r = compile(vec![node(
        NodeKind::Function,
        vec![leaf(NodeKind::Identifier, "limit"), node(NodeKind::Args, vec![num("5")])],
    )]);
    assert_eq!(r, Err(Error::Unresolved { name: "limit".to_string(), arity: 1 }));
}

#[test]
fn unknown_name_fails_at_arity_zero() {
    let r = compile(vec![node(NodeKind::Function, vec![leaf(NodeKind::Identifier, "foo")])]);
    assert_eq!(r, Err(Error::Unresolved { name: "foo".to_string(), arity: 0 }));
}

#[test]
fn nullary_functions_resolve() {
    let cases: Vec<(&str, Filter)> = vec![
        ("empty", Filter::Ref(Ref::Empty)),
        ("any", Filter::New(NewFilter::Function(NewFunc::Any))),
        ("all", Filter::New(NewFilter::Function(NewFunc::All))),
        ("not", Filter::New(NewFilter::Function(NewFunc::Not))),
        ("length", Filter::New(NewFilter::Function(NewFunc::Length))),
        ("type", Filter::New(NewFilter::Function(NewFunc::Type))),
        ("add", Filter::New(NewFilter::Function(NewFunc::Add))),
    ];
    for (name, expected) in cases {
        let r = compile(vec![node(NodeKind::Function, vec![leaf(NodeKind::Identifier, name)])]);
        assert_eq!(r, Ok(expected));
    }
}

#[test]
fn unary_functions_resolve() {
    let r = compile(vec![node(
        NodeKind::Function,
        vec![leaf(NodeKind::Identifier, "first"), node(NodeKind::Args, vec![dot()])],
    )]);
    assert_eq!(r, Ok(Filter::Ref(Ref::First(Box::new(identity())))));
    let r = compile(vec![node(
        NodeKind::Function,
        vec![leaf(NodeKind::Identifier, "last"), node(NodeKind::Args, vec![dot()])],
    )]);
    assert_eq!(r, Ok(Filter::Ref(Ref::Last(Box::new(identity())))));
    let r = compile(vec![node(
        NodeKind::Function,
        vec![leaf(NodeKind::Identifier, "map"), node(NodeKind::Args, vec![dot()])],
    )]);
    assert_eq!(r, Ok(Filter::New(NewFilter::Function(NewFunc::MapFn(Box::new(identity()))))));
    let r = compile(vec![node(
        NodeKind::Function,
        vec![leaf(NodeKind::Identifier, "recurse"), node(NodeKind::Args, vec![dot()])],
    )]);
    assert_eq!(r, Ok(Filter::Ref(Ref::Recurse(Box::new(identity())))));
}

#[test]
fn select_desugars_to_conditional() {
    let r = compile(vec![node(
        NodeKind::Function,
        vec![leaf(NodeKind::Identifier, "select"), node(NodeKind::Args, vec![dot()])],
    )]);
    let expected = Filter::Ref(Ref::IfThenElse(
        Box::new(identity()),
        Box::new(identity()),
        Box::new(Filter::Ref(Ref::Empty)),
    ));
    assert_eq!(r, Ok(expected));
}

#[test]
fn fold_resolves_at_arity_three() {
    let r = compile(vec![node(
        NodeKind::Function,
        vec![leaf(NodeKind::Identifier, "fold"), node(NodeKind::Args, vec![num("0"), dot(), dot()])],
    )]);
    let expected = Filter::Ref(Ref::Fold(
        Box::new(fnum("0")),
        Box::new(identity()),
        Box::new(identity()),
    ));
    assert_eq!(r, Ok(expected));
}

#[test]
fn arity_four_fails() {
    let r = compile(vec![node(
        NodeKind::Function,
        vec![
            leaf(NodeKind::Identifier, "fold"),
            node(NodeKind::Args, vec![dot(), dot(), dot(), dot()]),
        ],
    )]);
    assert_eq!(r, Err(Error::Unresolved { name: "fold".to_string(), arity: 4 }));
}

fn slice(qual: Node) -> Vec<Node> {
    vec![node(
        NodeKind::Path,
        vec![node(NodeKind::PathSegment, vec![leaf(NodeKind::Dot, "."), qual])],
    )]
}

#[test]
fn slice_both_bounds() {
    let r = compile(slice(node(NodeKind::Brackets, vec![node(NodeKind::FromUntil, vec![num("2"), num("5")])])));
    let expected = fpath(vec![PathElem::Range(Some(Box::new(fnum("2"))), Some(Box::new(fnum("5"))))]);
    assert_eq!(r, Ok(expected));
}

#[test]
fn slice_lower_bound_only() {
    let r = compile(slice(node(NodeKind::Brackets, vec![node(NodeKind::From, vec![num("2")])])));
    let expected = fpath(vec![PathElem::Range(Some(Box::new(fnum("2"))), None)]);
    assert_eq!(r, Ok(expected));
}

#[test]
fn slice_upper_bound_only() {
    let r = compile(slice(node(NodeKind::Brackets, vec![node(NodeKind::Until, vec![num("5")])])));
    let expected = fpath(vec![PathElem::Range(None, Some(Box::new(fnum("5"))))]);
    assert_eq!(r, Ok(expected));
}

#[test]
fn slice_unbounded() {
    let r = compile(slice(node(NodeKind::Brackets, vec![])));
    let expected = fpath(vec![PathElem::Range(None, None)]);
    assert_eq!(r, Ok(expected));
}

#[test]
fn compiling_twice_is_identical() {
    let tree = vec![num("1"), leaf(NodeKind::Add, "+"), num("2"), leaf(NodeKind::Mul, "*"), num("3")];
    let once = FilterParser::parse(&tree);
    let twice = FilterParser::parse(&tree);
    assert_eq!(once, twice);
}

#[test]
fn literal_atoms_decode() {
    let r = compile(vec![node(NodeKind::Atom, vec![leaf(NodeKind::Null, "null")])]);
    assert_eq!(r, Ok(Filter::New(NewFilter::Atom(Atom::Null))));
    let r = compile(vec![node(NodeKind::Atom, vec![leaf(NodeKind::Boole, "true")])]);
    assert_eq!(r, Ok(Filter::New(NewFilter::Atom(Atom::Bool(true)))));
    let r = compile(vec![node(NodeKind::Atom, vec![leaf(NodeKind::Boole, "false")])]);
    assert_eq!(r, Ok(Filter::New(NewFilter::Atom(Atom::Bool(false)))));
    let r = compile(vec![node(NodeKind::Atom, vec![leaf(NodeKind::Str, "hi")])]);
    assert_eq!(r, Ok(fstr("hi")));
}

#[test]
fn number_decoding_canonicalizes() {
    let r = compile(vec![num("1e2")]);
    assert_eq!(r, Ok(fnum("100.0")));
    let r = compile(vec![num("1.5")]);
    assert_eq!(r, Ok(fnum("1.5")));
}

#[test]
fn bad_number_is_reported() {
    let r = compile(vec![num("12x")]);
    assert_eq!(r, Err(Error::BadNumber("12x".to_string())));
}

#[test]
fn object_with_identifier_key() {
    let r = compile(vec![node(
        NodeKind::Object,
        vec![node(NodeKind::ObjectPair, vec![leaf(NodeKind::Identifier, "a"), num("1")])],
    )]);
    let expected = Filter::New(NewFilter::Object(vec![(fstr("a"), fnum("1"))]));
    assert_eq!(r, Ok(expected));
}

#[test]
fn object_with_quoted_and_computed_keys() {
    let computed = node(NodeKind::Expr, vec![num("2")]);
    let r = compile(vec![node(
        NodeKind::Object,
        vec![
            node(NodeKind::ObjectPair, vec![leaf(NodeKind::Str, "k"), num("1")]),
            node(NodeKind::ObjectPair, vec![computed, num("3")]),
        ],
    )]);
    let expected = Filter::New(NewFilter::Object(vec![
        (fstr("k"), fnum("1")),
        (fnum("2"), fnum("3")),
    ]));
    assert_eq!(r, Ok(expected));
}

#[test]
fn object_shorthand_is_rejected() {
    let r = compile(vec![node(
        NodeKind::Object,
        vec![node(NodeKind::ObjectPair, vec![leaf(NodeKind::Identifier, "a")])],
    )]);
    assert_eq!(r, Err(Error::ObjectShorthand));
}

#[test]
fn conditional_builds() {
    let cond = node(NodeKind::Atom, vec![leaf(NodeKind::Boole, "true")]);
    let r = compile(vec![node(NodeKind::Ite, vec![cond, num("1"), num("2")])]);
    let expected = Filter::Ref(Ref::IfThenElse(
        Box::new(Filter::New(NewFilter::Atom(Atom::Bool(true)))),
        Box::new(fnum("1")),
        Box::new(fnum("2")),
    ));
    assert_eq!(r, Ok(expected));
}

#[test]
fn logic_operators_build() {
    let r = compile(vec![num("1"), leaf(NodeKind::Lt, "<"), num("2"), leaf(NodeKind::And, "and"), num("3")]);
    let expected = Filter::New(NewFilter::Logic(
        Box::new(Filter::New(NewFilter::Logic(Box::new(fnum("1")), LogicOp::Lt, Box::new(fnum("2"))))),
        LogicOp::And,
        Box::new(fnum("3")),
    ));
    assert_eq!(r, Ok(expected));
}

#[test]
fn even_alternation_is_malformed() {
    let r = compile(vec![num("1"), leaf(NodeKind::Add, "+")]);
    assert_eq!(r, Err(Error::Malformed));
}

#[test]
fn empty_alternation_is_malformed() {
    let r = compile(vec![]);
    assert_eq!(r, Err(Error::Malformed));
}
