use vstd::prelude::*;

verus! {

/// A binary arithmetic operator.
#[derive(Clone, Copy, PartialEq, Eq, Debug, Structural)]
pub enum Operator {
    Plus,
    Minus,
    Mult,
    Div,
    Pow,
}

/// An expression tree. Each node owns its children.
#[derive(Debug)]
pub enum Node {
    /// A decimal literal, kept as written.
    Number(String),
    /// Arithmetic negation (a leading `-`).
    Neg(Box<Node>),
    /// A binary operation.
    Expr(Box<Node>, Operator, Box<Node>),
    /// A call of a one-argument function by name.
    Function(String, Box<Node>),
    /// A reference to a named constant.
    Const(String),
}

/// A whole line: an assignment or an expression. Assignments stand only at
/// the top of a line, so evaluating an expression never changes the
/// environment.
#[derive(Debug)]
pub enum Statement {
    Expression(Node),
    /// `name = expression`.
    AssignConst(String, Node),
    /// `name(parameter) = body`; the body is stored, not evaluated.
    AssignFunc(String, String, Node),
}

/// The mathematical value of a `Node`, with names and literals as character
/// sequences.
pub enum NodeView {
    Number(Seq<char>),
    Neg(Box<NodeView>),
    Expr(Box<NodeView>, Operator, Box<NodeView>),
    Function(Seq<char>, Box<NodeView>),
    Const(Seq<char>),
}

pub enum StatementView {
    Expression(NodeView),
    AssignConst(Seq<char>, NodeView),
    AssignFunc(Seq<char>, Seq<char>, NodeView),
}

pub open spec fn node_view(n: Node) -> NodeView
    decreases n,
{
    match n {
        Node::Number(s) => NodeView::Number(s@),
        Node::Neg(a) => NodeView::Neg(Box::new(node_view(*a))),
        Node::Expr(l, op, r) => NodeView::Expr(Box::new(node_view(*l)), op, Box::new(node_view(*r))),
        Node::Function(f, a) => NodeView::Function(f@, Box::new(node_view(*a))),
        Node::Const(s) => NodeView::Const(s@),
    }
}

impl View for Node {
    type V = NodeView;

    open spec fn view(&self) -> NodeView {
        node_view(*self)
    }
}

impl View for Statement {
    type V = StatementView;

    open spec fn view(&self) -> StatementView {
        match self {
            Statement::Expression(e) => StatementView::Expression(e@),
            Statement::AssignConst(n, e) => StatementView::AssignConst(n@, e@),
            Statement::AssignFunc(n, p, b) => StatementView::AssignFunc(n@, p@, b@),
        }
    }
}

} // verus!
