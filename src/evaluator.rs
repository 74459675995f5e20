use vstd::prelude::*;

use crate::ast::{Node, NodeView, Operator, Statement, StatementView};
use crate::builtins::{constant_named, function_named, lookup_constant, lookup_function, BuiltinConst, BuiltinFn};
use crate::lexer::SyntaxError;
use crate::parser::{parse, spec_parse};
use crate::table::Table;

verus! {

/// An arithmetic term in which every name has been resolved: what is left is
/// numeric work, done by the caller in its number type `N`.
#[derive(Debug)]
pub enum Term<N> {
    /// A decimal literal, as written.
    Literal(String),
    /// The value of a user constant.
    Value(N),
    Constant(BuiltinConst),
    Negate(Box<Term<N>>),
    Apply(BuiltinFn, Box<Term<N>>),
    Binary(Box<Term<N>>, Operator, Box<Term<N>>),
}

pub enum TermView<N> {
    Literal(Seq<char>),
    Value(N),
    Constant(BuiltinConst),
    Negate(Box<TermView<N>>),
    Apply(BuiltinFn, Box<TermView<N>>),
    Binary(Box<TermView<N>>, Operator, Box<TermView<N>>),
}

pub open spec fn term_view<N>(t: Term<N>) -> TermView<N>
    decreases t,
{
    match t {
        Term::Literal(s) => TermView::Literal(s@),
        Term::Value(v) => TermView::Value(v),
        Term::Constant(c) => TermView::Constant(c),
        Term::Negate(a) => TermView::Negate(Box::new(term_view(*a))),
        Term::Apply(f, a) => TermView::Apply(f, Box::new(term_view(*a))),
        Term::Binary(l, op, r) => TermView::Binary(Box::new(term_view(*l)), op, Box::new(term_view(*r))),
    }
}

impl<N> View for Term<N> {
    type V = TermView<N>;

    open spec fn view(&self) -> TermView<N> {
        term_view(*self)
    }
}

/// Why a line could not be evaluated.
#[derive(Debug)]
pub enum Error {
    /// The line is malformed.
    Syntax(SyntaxError),
    /// A call names no built-in function.
    UnknownFunction(String),
    /// A name is neither a built-in constant nor a defined one.
    UnknownConstant(String),
}

/// The mathematical value of an `Error`.
pub enum Failure {
    Syntax,
    UnknownFunction(Seq<char>),
    UnknownConstant(Seq<char>),
}

impl View for Error {
    type V = Failure;

    open spec fn view(&self) -> Failure {
        match self {
            Error::Syntax(_) => Failure::Syntax,
            Error::UnknownFunction(f) => Failure::UnknownFunction(f@),
            Error::UnknownConstant(c) => Failure::UnknownConstant(c@),
        }
    }
}

impl Error {
    /// A human-readable description of the error.
    pub fn message(&self) -> (r: String)
        ensures
            match self {
                Error::Syntax(_) => r@ == "syntax error"@,
                Error::UnknownFunction(f) => r@ == "invalid function name: "@ + f@,
                Error::UnknownConstant(c) => r@ == "invalid constant name: "@ + c@,
            },
    {
        match self {
            Error::Syntax(_) => String::from_str("syntax error"),
            Error::UnknownFunction(f) => String::from_str("invalid function name: ").concat(f.as_str()),
            Error::UnknownConstant(c) => String::from_str("invalid constant name: ").concat(c.as_str()),
        }
    }
}

/// What the caller is to do with a line that was resolved.
#[derive(Debug)]
pub enum Action<N> {
    /// Reduce the term; its value is the line's result.
    Evaluate(Term<N>),
    /// Reduce the term, store its value under the name with
    /// `Environment::define_const`, and return it.
    Store(String, Term<N>),
    /// A function was defined; the line's result is zero.
    Defined,
}

pub enum ActionView<N> {
    Evaluate(TermView<N>),
    Store(Seq<char>, TermView<N>),
    Defined,
}

impl<N> View for Action<N> {
    type V = ActionView<N>;

    open spec fn view(&self) -> ActionView<N> {
        match self {
            Action::Evaluate(t) => ActionView::Evaluate(t@),
            Action::Store(n, t) => ActionView::Store(n@, t@),
            Action::Defined => ActionView::Defined,
        }
    }
}

pub open spec fn term_outcome<N>(r: Result<Term<N>, Error>) -> Result<TermView<N>, Failure> {
    match r {
        Ok(t) => Ok(t@),
        Err(e) => Err(e@),
    }
}

pub open spec fn action_outcome<N>(r: Result<Action<N>, Error>) -> Result<ActionView<N>, Failure> {
    match r {
        Ok(a) => Ok(a@),
        Err(e) => Err(e@),
    }
}

/// Resolves every name of an expression, from left to right, against the
/// user constants `consts`. A built-in constant wins over a user constant of
/// the same name; a call resolves only to a built-in function, whose name is
/// checked before its argument. The first name that resolves to nothing is
/// the error.
pub open spec fn spec_resolve<N>(consts: Map<Seq<char>, N>, n: NodeView) -> Result<TermView<N>, Failure>
    decreases n,
{
    match n {
        NodeView::Number(s) => Ok(TermView::Literal(s)),
        NodeView::Neg(a) => match spec_resolve(consts, *a) {
            Ok(t) => Ok(TermView::Negate(Box::new(t))),
            Err(e) => Err(e),
        },
        NodeView::Expr(l, op, r) => match spec_resolve(consts, *l) {
            Ok(a) => match spec_resolve(consts, *r) {
                Ok(b) => Ok(TermView::Binary(Box::new(a), op, Box::new(b))),
                Err(e) => Err(e),
            },
            Err(e) => Err(e),
        },
        NodeView::Function(f, a) => match function_named(f) {
            Some(b) => match spec_resolve(consts, *a) {
                Ok(t) => Ok(TermView::Apply(b, Box::new(t))),
                Err(e) => Err(e),
            },
            None => Err(Failure::UnknownFunction(f)),
        },
        NodeView::Const(c) => match constant_named(c) {
            Some(b) => Ok(TermView::Constant(b)),
            None => if consts.contains_key(c) {
                Ok(TermView::Value(consts[c]))
            } else {
                Err(Failure::UnknownConstant(c))
            },
        },
    }
}

/// What a line of text asks for, given the user constants: a syntax error,
/// an unresolved name, or the action to take.
pub open spec fn spec_prepare<N>(consts: Map<Seq<char>, N>, text: Seq<char>) -> Result<ActionView<N>, Failure> {
    match spec_parse(text) {
        None => Err(Failure::Syntax),
        Some(StatementView::Expression(e)) => match spec_resolve(consts, e) {
            Ok(t) => Ok(ActionView::Evaluate(t)),
            Err(f) => Err(f),
        },
        Some(StatementView::AssignConst(name, e)) => match spec_resolve(consts, e) {
            Ok(t) => Ok(ActionView::Store(name, t)),
            Err(f) => Err(f),
        },
        Some(StatementView::AssignFunc(_, _, _)) => Ok(ActionView::Defined),
    }
}

/// The user functions after a line of text: a function definition inserts
/// or replaces its entry; anything else leaves them as they were.
pub open spec fn funcs_after(
    funcs: Map<Seq<char>, (Seq<char>, NodeView)>,
    text: Seq<char>,
) -> Map<Seq<char>, (Seq<char>, NodeView)> {
    match spec_parse(text) {
        Some(StatementView::AssignFunc(name, param, body)) => funcs.insert(name, (param, body)),
        _ => funcs,
    }
}

pub open spec fn func_view(e: (String, Node)) -> (Seq<char>, NodeView) {
    (e.0@, e.1@)
}

/// The user definitions of a calculator session: named constants with
/// values of the number type `N`, and named one-argument functions.
pub struct Environment<N> {
    consts: Table<N>,
    funcs: Table<(String, Node)>,
}

impl<N: Copy> Environment<N> {
    pub closed spec fn wf(&self) -> bool {
        self.consts.wf() && self.funcs.wf()
    }

    /// The user constants.
    pub closed spec fn consts(&self) -> Map<Seq<char>, N> {
        self.consts.map()
    }

    /// The user functions: for each name, its parameter and body.
    pub closed spec fn funcs(&self) -> Map<Seq<char>, (Seq<char>, NodeView)> {
        self.funcs.map().map_values(|e: (String, Node)| func_view(e))
    }

    /// An environment with no user definitions.
    pub fn new() -> (env: Self)
        ensures
            env.wf(),
            env.consts() == Map::<Seq<char>, N>::empty(),
            env.funcs() == Map::<Seq<char>, (Seq<char>, NodeView)>::empty(),
    {
        let env = Environment { consts: Table::new(), funcs: Table::new() };
        proof {
            assert(env.funcs() =~= Map::<Seq<char>, (Seq<char>, NodeView)>::empty());
        }
        env
    }

    /// Resolves the names of an expression; see `spec_resolve`.
    pub fn resolve(&self, node: &Node) -> (r: Result<Term<N>, Error>)
        requires
            self.wf(),
        ensures
            term_outcome(r) == spec_resolve(self.consts(), node@),
        decreases node,
    {
        match node {
            Node::Number(s) => Ok(Term::Literal(s.clone())),
            Node::Neg(a) => match self.resolve(a) {
                Ok(t) => Ok(Term::Negate(Box::new(t))),
                Err(e) => Err(e),
            },
            Node::Expr(l, op, r) => match self.resolve(l) {
                Ok(a) => match self.resolve(r) {
                    Ok(b) => Ok(Term::Binary(Box::new(a), *op, Box::new(b))),
                    Err(e) => Err(e),
                },
                Err(e) => Err(e),
            },
            Node::Function(f, a) => match lookup_function(f.as_str()) {
                Some(b) => match self.resolve(a) {
                    Ok(t) => Ok(Term::Apply(b, Box::new(t))),
                    Err(e) => Err(e),
                },
                None => Err(Error::UnknownFunction(f.clone())),
            },
            Node::Const(c) => match lookup_constant(c.as_str()) {
                Some(b) => Ok(Term::Constant(b)),
                None => match self.consts.get(c.as_str()) {
                    Some(v) => Ok(Term::Value(*v)),
                    None => Err(Error::UnknownConstant(c.clone())),
                },
            },
        }
    }

    /// Reads one line and resolves it. A function definition is stored at
    /// once; a constant definition is left to the caller, which reduces the
    /// term and calls `define_const`. Nothing else changes the environment,
    /// so a line that fails leaves it as it was.
    pub fn prepare(&mut self, text: &str) -> (r: Result<Action<N>, Error>)
        requires
            old(self).wf(),
        ensures
            final(self).wf(),
            action_outcome(r) == spec_prepare(old(self).consts(), text@),
            final(self).consts() == old(self).consts(),
            final(self).funcs() == funcs_after(old(self).funcs(), text@),
    {
        match parse(text) {
            Err(e) => Err(Error::Syntax(e)),
            Ok(Statement::Expression(e)) => match self.resolve(&e) {
                Ok(t) => Ok(Action::Evaluate(t)),
                Err(f) => Err(f),
            },
            Ok(Statement::AssignConst(name, e)) => match self.resolve(&e) {
                Ok(t) => Ok(Action::Store(name, t)),
                Err(f) => Err(f),
            },
            Ok(Statement::AssignFunc(name, param, body)) => {
                let ghost entry = func_view((param, body));
                let ghost key = name@;
                self.funcs.set(name, (param, body));
                proof {
                    assert(self.funcs() =~= old(self).funcs().insert(key, entry));
                }
                Ok(Action::Defined)
            },
        }
    }

    /// Whether a user function of this name is defined.
    pub fn has_function(&self, name: &str) -> (r: bool)
        requires
            self.wf(),
        ensures
            r == self.funcs().contains_key(name@),
    {
        self.funcs.get(name).is_some()
    }

    /// Stores `value` under `name`, in place of any earlier value.
    pub fn define_const(&mut self, name: String, value: N)
        requires
            old(self).wf(),
        ensures
            final(self).wf(),
            final(self).consts() == old(self).consts().insert(name@, value),
            final(self).funcs() == old(self).funcs(),
    {
        self.consts.set(name, value);
    }
}

} // verus!
