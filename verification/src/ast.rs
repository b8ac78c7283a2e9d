//! The syntax tree that the rule inspects.
//!
//! Only the shapes that matter to the rule are told apart: identifiers,
//! member accesses and calls. Every other syntactic form is an
//! [`Node::Other`] that holds its parts in source order.

use vstd::prelude::*;

verus! {

/// The place of a syntax node in the source text, as a range of byte offsets.
#[derive(Clone, Copy, Debug, PartialEq, Eq, Structural)]
pub struct Span {
    /// Offset of the first byte of the node.
    pub lo: u32,
    /// Offset just behind the last byte of the node.
    pub hi: u32,
}

/// A name as it is written in the source text.
#[derive(Debug, PartialEq, Eq)]
pub struct Ident {
    pub span: Span,
    /// The text of the name.
    pub sym: String,
}

impl Clone for Ident {
    fn clone(&self) -> (copy: Self)
        ensures
            copy == *self,
    {
        Ident { span: self.span, sym: self.sym.clone() }
    }
}

/// Either the `super` keyword or an ordinary node.
#[derive(Debug, PartialEq, Eq)]
pub enum ExprOrSuper {
    Super(Span),
    Expr(Box<Node>),
}

/// A member access: `obj.prop` where `computed` is false, `obj[prop]` where
/// it is true.
#[derive(Debug, PartialEq, Eq)]
pub struct MemberExpr {
    pub span: Span,
    pub obj: ExprOrSuper,
    pub prop: Box<Node>,
    pub computed: bool,
}

/// A call: `callee(args...)`.
#[derive(Debug, PartialEq, Eq)]
pub struct CallExpr {
    /// The place of the whole call, callee and arguments included.
    pub span: Span,
    pub callee: ExprOrSuper,
    pub args: Vec<Node>,
}

/// A node of the syntax tree.
#[derive(Debug, PartialEq, Eq)]
pub enum Node {
    Ident(Ident),
    Member(MemberExpr),
    Call(CallExpr),
    /// Any other syntactic form, with the nodes directly below it in source
    /// order.
    Other(Vec<Node>),
}

/// A parsed program: its top-level nodes in source order.
#[derive(Debug, PartialEq, Eq)]
pub struct Program {
    pub body: Vec<Node>,
}

impl Node {
    /// The calls in this node and below it: a call stands before the calls
    /// below it, in its callee first and then in its arguments, and the rest
    /// follows the source order.
    pub open spec fn calls(self) -> Seq<CallExpr>
        decreases self,
    {
        match self {
            Node::Ident(_) => Seq::empty(),
            Node::Member(member) => member.obj.calls() + member.prop.calls(),
            Node::Call(call) => seq![call] + call.callee.calls() + calls_of(call.args@),
            Node::Other(children) => calls_of(children@),
        }
    }
}

impl ExprOrSuper {
    /// The calls in this callee or object and below it.
    pub open spec fn calls(self) -> Seq<CallExpr>
        decreases self,
    {
        match self {
            ExprOrSuper::Super(_) => Seq::empty(),
            ExprOrSuper::Expr(node) => node.calls(),
        }
    }
}

/// The calls in `nodes` and below them, node after node.
pub open spec fn calls_of(nodes: Seq<Node>) -> Seq<CallExpr>
    decreases nodes,
{
    if nodes.len() == 0 {
        Seq::empty()
    } else {
        calls_of(nodes.drop_last()) + nodes.last().calls()
    }
}

impl Program {
    /// Every call of the program, in the order in which a pass meets them.
    pub open spec fn calls(self) -> Seq<CallExpr> {
        calls_of(self.body@)
    }
}

} // verus!
