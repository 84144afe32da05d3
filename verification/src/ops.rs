//! Semantic operator tags for binary logic and arithmetic expressions, and
//! the fixed operator tables: label-to-tag lookups and the precedence table.

use vstd::prelude::*;
use crate::syntax::NodeKind;

verus! {

/// A binary logic or comparison operator.
#[derive(Clone, Copy, Debug, PartialEq, Eq, Structural)]
pub enum LogicOp {
    Or,
    And,
    Eq,
    Ne,
    Gt,
    Ge,
    Lt,
    Le,
}

/// A binary arithmetic operator.
#[derive(Clone, Copy, Debug, PartialEq, Eq, Structural)]
pub enum MathOp {
    Add,
    Sub,
    Mul,
    Div,
    Rem,
}

/// The logic operator tag of an operator label, if it has one.
pub open spec fn logic_op_of(k: NodeKind) -> Option<LogicOp> {
    match k {
        NodeKind::Or => Some(LogicOp::Or),
        NodeKind::And => Some(LogicOp::And),
        NodeKind::Eq => Some(LogicOp::Eq),
        NodeKind::Ne => Some(LogicOp::Ne),
        NodeKind::Gt => Some(LogicOp::Gt),
        NodeKind::Ge => Some(LogicOp::Ge),
        NodeKind::Lt => Some(LogicOp::Lt),
        NodeKind::Le => Some(LogicOp::Le),
        _ => None,
    }
}

/// The arithmetic operator tag of an operator label, if it has one.
pub open spec fn math_op_of(k: NodeKind) -> Option<MathOp> {
    match k {
        NodeKind::Add => Some(MathOp::Add),
        NodeKind::Sub => Some(MathOp::Sub),
        NodeKind::Mul => Some(MathOp::Mul),
        NodeKind::Div => Some(MathOp::Div),
        NodeKind::Rem => Some(MathOp::Rem),
        _ => None,
    }
}

/// The precedence tier of a binary operator label, lowest binding loosest:
/// pipe < comma < the assignment family < `or` < `and` < equality <
/// comparison < additive < multiplicative < remainder.
/// `None` for a label that is no operator.
pub open spec fn prec_of(k: NodeKind) -> Option<int> {
    match k {
        NodeKind::Pipe => Some(0int),
        NodeKind::Comma => Some(1int),
        NodeKind::Assign => Some(2int),
        NodeKind::Update => Some(2int),
        NodeKind::UpdateWith => Some(2int),
        NodeKind::Or => Some(3int),
        NodeKind::And => Some(4int),
        NodeKind::Eq => Some(5int),
        NodeKind::Ne => Some(5int),
        NodeKind::Gt => Some(6int),
        NodeKind::Ge => Some(6int),
        NodeKind::Lt => Some(6int),
        NodeKind::Le => Some(6int),
        NodeKind::Add => Some(7int),
        NodeKind::Sub => Some(7int),
        NodeKind::Mul => Some(8int),
        NodeKind::Div => Some(8int),
        NodeKind::Rem => Some(9int),
        _ => None,
    }
}

/// Only the assignment family associates to the right; every other tier
/// associates to the left.
pub open spec fn is_right_assoc(level: int) -> bool {
    level == 2
}

impl LogicOp {
    /// The logic-operator table lookup.
    pub fn try_from(k: NodeKind) -> (r: Option<LogicOp>)
        ensures
            r == logic_op_of(k),
    {
        match k {
            NodeKind::Or => Some(LogicOp::Or),
            NodeKind::And => Some(LogicOp::And),
            NodeKind::Eq => Some(LogicOp::Eq),
            NodeKind::Ne => Some(LogicOp::Ne),
            NodeKind::Gt => Some(LogicOp::Gt),
            NodeKind::Ge => Some(LogicOp::Ge),
            NodeKind::Lt => Some(LogicOp::Lt),
            NodeKind::Le => Some(LogicOp::Le),
            _ => None,
        }
    }
}

impl MathOp {
    /// The arithmetic-operator table lookup.
    pub fn try_from(k: NodeKind) -> (r: Option<MathOp>)
        ensures
            r == math_op_of(k),
    {
        match k {
            NodeKind::Add => Some(MathOp::Add),
            NodeKind::Sub => Some(MathOp::Sub),
            NodeKind::Mul => Some(MathOp::Mul),
            NodeKind::Div => Some(MathOp::Div),
            NodeKind::Rem => Some(MathOp::Rem),
            _ => None,
        }
    }
}

/// The executable precedence lookup, agreeing with [`prec_of`].
pub fn prec(k: NodeKind) -> (r: Option<u8>)
    ensures
        match r {
            Some(l) => prec_of(k) == Some(l as int),
            None => prec_of(k) is None,
        },
{
    match k {
        NodeKind::Pipe => Some(0),
        NodeKind::Comma => Some(1),
        NodeKind::Assign => Some(2),
        NodeKind::Update => Some(2),
        NodeKind::UpdateWith => Some(2),
        NodeKind::Or => Some(3),
        NodeKind::And => Some(4),
        NodeKind::Eq => Some(5),
        NodeKind::Ne => Some(5),
        NodeKind::Gt => Some(6),
        NodeKind::Ge => Some(6),
        NodeKind::Lt => Some(6),
        NodeKind::Le => Some(6),
        NodeKind::Add => Some(7),
        NodeKind::Sub => Some(7),
        NodeKind::Mul => Some(8),
        NodeKind::Div => Some(8),
        NodeKind::Rem => Some(9),
        _ => None,
    }
}

} // verus!
