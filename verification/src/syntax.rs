//! The concrete syntax tree that the grammar engine hands to the compiler.

use vstd::prelude::*;

verus! {

/// The label of a concrete-syntax node.
#[derive(Clone, Copy, Debug, PartialEq, Eq, Structural)]
pub enum NodeKind {
    /// A parenthesized or top-level expression: children alternate
    /// operand nodes (even positions) and operator nodes (odd positions).
    Expr,
    /// A literal: one child of kind `Null`, `Boole`, `Number` or `Str`.
    Atom,
    /// The `null` literal (leaf).
    Null,
    /// A boolean literal (leaf); its text is `true` or `false`.
    Boole,
    /// A numeric literal (leaf); its text is the source spelling.
    Number,
    /// A string literal (leaf); its text is the already-unquoted content.
    Str,
    /// An array constructor: no children for `[]`, else an
    /// operand/operator alternation as in `Expr`.
    Array,
    /// An object constructor: each child is an `ObjectPair`.
    Object,
    /// One object entry: a key child (`Identifier`, `Str` or `Expr`)
    /// and, when the entry is not shorthand, a value child.
    ObjectPair,
    /// A bare identifier (leaf); its text is the name.
    Identifier,
    /// A conditional: exactly three children (condition, then, else).
    Ite,
    /// A function call: an `Identifier` child, then optionally an `Args` child.
    Function,
    /// A call's argument list: each child is one argument expression.
    Args,
    /// A path expression: each child is a `PathSegment`.
    Path,
    /// One path segment: a head child (`Dot` or `PathIndex`),
    /// then zero or more `Brackets` qualifiers.
    PathSegment,
    /// A lone dot head (leaf): selects nothing by itself.
    Dot,
    /// A named index head: an `Identifier` child and optionally a
    /// `Question` child (the "suppress failure if absent" marker).
    PathIndex,
    /// The presence marker `?` on a path head (leaf).
    Question,
    /// A bracket qualifier: no children for `[]`, else one child of kind
    /// `At`, `From`, `Until` or `FromUntil`.
    Brackets,
    /// `[e]`: children are the index expression's operand/operator alternation.
    At,
    /// `[e:]`: children are the lower bound's alternation.
    From,
    /// `[:e]`: children are the upper bound's alternation.
    Until,
    /// `[a:b]`: exactly two children, the bound expressions.
    FromUntil,
    /// The `|` operator.
    Pipe,
    /// The `,` operator.
    Comma,
    /// The `=` operator.
    Assign,
    /// The `|=` operator.
    Update,
    /// A compound update such as `+=`: one child, the arithmetic
    /// operator node it desugars through.
    UpdateWith,
    /// The `or` operator.
    Or,
    /// The `and` operator.
    And,
    /// The `==` operator.
    Eq,
    /// The `!=` operator.
    Ne,
    /// The `>` operator.
    Gt,
    /// The `>=` operator.
    Ge,
    /// The `<` operator.
    Lt,
    /// The `<=` operator.
    Le,
    /// The `+` operator.
    Add,
    /// The `-` operator.
    Sub,
    /// The `*` operator.
    Mul,
    /// The `/` operator.
    Div,
    /// The `%` operator.
    Rem,
}

/// A labeled concrete-syntax node: a kind tag, the matched text
/// (meaningful for leaves), and the ordered child nodes.
#[derive(Debug, PartialEq, Eq)]
pub struct Node {
    pub kind: NodeKind,
    pub text: String,
    pub children: Vec<Node>,
}

/// Character-wise equality of two string slices.
pub fn str_eq(a: &str, b: &str) -> (r: bool)
    ensures
        r == (a@ == b@),
{
    let x: String = a.to_owned();
    let y: String = b.to_owned();
    x == y
}

} // verus!
