use vstd::prelude::*;

use crate::ast::{Node, NodeView, Operator, Statement, StatementView};
use crate::lexer::{lex, tokenize, views, SyntaxError, Token, TokenView};

verus! {

// The grammar, lowest precedence first:
//
//   statement  := IDENT '=' expression
//               | IDENT '(' IDENT ')' '=' expression
//               | expression
//   expression := term (('+' | '-') term)*
//   term       := power (('*' | '/') power)*
//   power      := unary ('^' power)?
//   unary      := '-' unary | primary
//   primary    := NUMBER | IDENT '(' expression ')' | IDENT | '(' expression ')'
//
// Each spec function below reads one rule from token index `pos` and gives the
// tree and the index after it, or `None`. The second `decreases` component
// orders the rules that may start at the same index.

pub open spec fn tok_is(t: Seq<TokenView>, i: int, k: TokenView) -> bool {
    0 <= i < t.len() && t[i] == k
}

pub open spec fn add_op(k: TokenView) -> Option<Operator> {
    match k {
        TokenView::Plus => Some(Operator::Plus),
        TokenView::Minus => Some(Operator::Minus),
        _ => None,
    }
}

pub open spec fn mul_op(k: TokenView) -> Option<Operator> {
    match k {
        TokenView::Star => Some(Operator::Mult),
        TokenView::Slash => Some(Operator::Div),
        _ => None,
    }
}

pub open spec fn binary(l: NodeView, op: Operator, r: NodeView) -> NodeView {
    NodeView::Expr(Box::new(l), op, Box::new(r))
}

pub open spec fn spec_expr(t: Seq<TokenView>, pos: int) -> Option<(NodeView, int)>
    decreases t.len() - pos, 6int,
{
    if !(0 <= pos <= t.len()) {
        None
    } else {
        match spec_term(t, pos) {
            Some((l, p)) => if pos <= p <= t.len() {
                spec_expr_rest(t, p, l)
            } else {
                None
            },
            None => None,
        }
    }
}

/// The `(('+' | '-') term)*` tail, folded to the left onto `acc`.
pub open spec fn spec_expr_rest(t: Seq<TokenView>, pos: int, acc: NodeView) -> Option<(NodeView, int)>
    decreases t.len() - pos, 5int,
{
    if !(0 <= pos <= t.len()) {
        None
    } else if pos < t.len() && add_op(t[pos]) is Some {
        match spec_term(t, pos + 1) {
            Some((r, p)) => if pos < p <= t.len() {
                spec_expr_rest(t, p, binary(acc, add_op(t[pos])->0, r))
            } else {
                None
            },
            None => None,
        }
    } else {
        Some((acc, pos))
    }
}

pub open spec fn spec_term(t: Seq<TokenView>, pos: int) -> Option<(NodeView, int)>
    decreases t.len() - pos, 4int,
{
    if !(0 <= pos <= t.len()) {
        None
    } else {
        match spec_power(t, pos) {
            Some((l, p)) => if pos <= p <= t.len() {
                spec_term_rest(t, p, l)
            } else {
                None
            },
            None => None,
        }
    }
}

/// The `(('*' | '/') power)*` tail, folded to the left onto `acc`.
pub open spec fn spec_term_rest(t: Seq<TokenView>, pos: int, acc: NodeView) -> Option<(NodeView, int)>
    decreases t.len() - pos, 3int,
{
    if !(0 <= pos <= t.len()) {
        None
    } else if pos < t.len() && mul_op(t[pos]) is Some {
        match spec_power(t, pos + 1) {
            Some((r, p)) => if pos < p <= t.len() {
                spec_term_rest(t, p, binary(acc, mul_op(t[pos])->0, r))
            } else {
                None
            },
            None => None,
        }
    } else {
        Some((acc, pos))
    }
}

/// `unary ('^' power)?`: the exponent is itself a power, so `^` groups to
/// the right.
pub open spec fn spec_power(t: Seq<TokenView>, pos: int) -> Option<(NodeView, int)>
    decreases t.len() - pos, 2int,
{
    if !(0 <= pos <= t.len()) {
        None
    } else {
        match spec_unary(t, pos) {
            Some((b, p)) => if pos <= p <= t.len() {
                if tok_is(t, p, TokenView::Caret) {
                    match spec_power(t, p + 1) {
                        Some((e, q)) => Some((binary(b, Operator::Pow, e), q)),
                        None => None,
                    }
                } else {
                    Some((b, p))
                }
            } else {
                None
            },
            None => None,
        }
    }
}

pub open spec fn spec_unary(t: Seq<TokenView>, pos: int) -> Option<(NodeView, int)>
    decreases t.len() - pos, 1int,
{
    if !(0 <= pos <= t.len()) {
        None
    } else if tok_is(t, pos, TokenView::Minus) {
        match spec_unary(t, pos + 1) {
            Some((a, p)) => Some((NodeView::Neg(Box::new(a)), p)),
            None => None,
        }
    } else {
        spec_primary(t, pos)
    }
}

pub open spec fn spec_primary(t: Seq<TokenView>, pos: int) -> Option<(NodeView, int)>
    decreases t.len() - pos, 0int,
{
    if !(0 <= pos < t.len()) {
        None
    } else {
        match t[pos] {
            TokenView::Number(s) => Some((NodeView::Number(s), pos + 1)),
            TokenView::Ident(f) => if tok_is(t, pos + 1, TokenView::LParen) {
                match spec_expr(t, pos + 2) {
                    Some((a, p)) => if tok_is(t, p, TokenView::RParen) {
                        Some((NodeView::Function(f, Box::new(a)), p + 1))
                    } else {
                        None
                    },
                    None => None,
                }
            } else {
                Some((NodeView::Const(f), pos + 1))
            },
            TokenView::LParen => match spec_expr(t, pos + 1) {
                Some((a, p)) => if tok_is(t, p, TokenView::RParen) {
                    Some((a, p + 1))
                } else {
                    None
                },
                None => None,
            },
            _ => None,
        }
    }
}

/// An expression that takes every token from `pos` on.
pub open spec fn spec_whole_expr(t: Seq<TokenView>, pos: int) -> Option<NodeView> {
    match spec_expr(t, pos) {
        Some((e, p)) => if p == t.len() {
            Some(e)
        } else {
            None
        },
        None => None,
    }
}

/// The statement that a token sequence reads as, or `None`.
pub open spec fn spec_statement(t: Seq<TokenView>) -> Option<StatementView> {
    if t.len() >= 2 && t[0] is Ident && t[1] == TokenView::Equals {
        match spec_whole_expr(t, 2) {
            Some(e) => Some(StatementView::AssignConst(t[0]->Ident_0, e)),
            None => None,
        }
    } else if t.len() >= 5 && t[0] is Ident && t[1] == TokenView::LParen && t[2] is Ident
        && t[3] == TokenView::RParen && t[4] == TokenView::Equals {
        match spec_whole_expr(t, 5) {
            Some(b) => Some(StatementView::AssignFunc(t[0]->Ident_0, t[2]->Ident_0, b)),
            None => None,
        }
    } else {
        match spec_whole_expr(t, 0) {
            Some(e) => Some(StatementView::Expression(e)),
            None => None,
        }
    }
}

/// The most tokens that a line may have. A tree has at most as many levels
/// as its line has tokens, so this bounds the depth of the recursion that
/// reads a line and that walks its tree.
pub const MAX_TOKENS: usize = 1024;

/// The statement that a line of text reads as, or `None` where it is
/// malformed (this includes an empty or blank line) or too long.
pub open spec fn spec_parse(s: Seq<char>) -> Option<StatementView> {
    match lex(s) {
        Some(t) => if t.len() <= MAX_TOKENS {
            spec_statement(t)
        } else {
            None
        },
        None => None,
    }
}

/// The error for a rule that found token `pos` where it needed another.
fn unexpected(toks: &Vec<Token>, pos: usize) -> (e: SyntaxError) {
    if pos < toks.len() {
        SyntaxError::UnexpectedToken(pos)
    } else {
        SyntaxError::UnexpectedEnd
    }
}

/// The token at `pos`, if there is one.
fn token_at(toks: &Vec<Token>, pos: usize) -> (r: Option<&Token>)
    ensures
        r is Some <==> pos < toks.len(),
        r matches Some(t) ==> t@ == views(toks@)[pos as int],
{
    if pos < toks.len() {
        Some(&toks[pos])
    } else {
        None
    }
}

/// How a parse result of a rule agrees with its spec function, and that the
/// index after it lies between `lo` and `len`.
pub open spec fn agrees(r: Result<(Node, usize), SyntaxError>, s: Option<(NodeView, int)>, lo: int, len: int) -> bool {
    match r {
        Ok((n, p)) => s == Some((n@, p as int)) && lo <= p <= len,
        Err(_) => s is None,
    }
}

fn parse_expr(toks: &Vec<Token>, pos: usize) -> (r: Result<(Node, usize), SyntaxError>)
    requires
        pos <= toks.len(),
    ensures
        agrees(r, spec_expr(views(toks@), pos as int), pos + 1, toks.len() as int),
    decreases toks.len() - pos, 6int,
{
    match parse_term(toks, pos) {
        Ok((l, p)) => parse_expr_rest(toks, p, l),
        Err(e) => Err(e),
    }
}

fn parse_expr_rest(toks: &Vec<Token>, pos: usize, acc: Node) -> (r: Result<(Node, usize), SyntaxError>)
    requires
        pos <= toks.len(),
    ensures
        agrees(r, spec_expr_rest(views(toks@), pos as int, acc@), pos as int, toks.len() as int),
    decreases toks.len() - pos, 5int,
{
    let op = match token_at(toks, pos) {
        Some(Token::Plus) => Some(Operator::Plus),
        Some(Token::Minus) => Some(Operator::Minus),
        _ => None,
    };
    proof {
        if pos < toks.len() {
            assert(op == add_op(views(toks@)[pos as int]));
        }
    }
    match op {
        Some(o) => match parse_term(toks, pos + 1) {
            Ok((r, p)) => parse_expr_rest(toks, p, Node::Expr(Box::new(acc), o, Box::new(r))),
            Err(e) => Err(e),
        },
        None => Ok((acc, pos)),
    }
}

fn parse_term(toks: &Vec<Token>, pos: usize) -> (r: Result<(Node, usize), SyntaxError>)
    requires
        pos <= toks.len(),
    ensures
        agrees(r, spec_term(views(toks@), pos as int), pos + 1, toks.len() as int),
    decreases toks.len() - pos, 4int,
{
    match parse_power(toks, pos) {
        Ok((l, p)) => parse_term_rest(toks, p, l),
        Err(e) => Err(e),
    }
}

fn parse_term_rest(toks: &Vec<Token>, pos: usize, acc: Node) -> (r: Result<(Node, usize), SyntaxError>)
    requires
        pos <= toks.len(),
    ensures
        agrees(r, spec_term_rest(views(toks@), pos as int, acc@), pos as int, toks.len() as int),
    decreases toks.len() - pos, 3int,
{
    let op = match token_at(toks, pos) {
        Some(Token::Star) => Some(Operator::Mult),
        Some(Token::Slash) => Some(Operator::Div),
        _ => None,
    };
    proof {
        if pos < toks.len() {
            assert(op == mul_op(views(toks@)[pos as int]));
        }
    }
    match op {
        Some(o) => match parse_power(toks, pos + 1) {
            Ok((r, p)) => parse_term_rest(toks, p, Node::Expr(Box::new(acc), o, Box::new(r))),
            Err(e) => Err(e),
        },
        None => Ok((acc, pos)),
    }
}

fn parse_power(toks: &Vec<Token>, pos: usize) -> (r: Result<(Node, usize), SyntaxError>)
    requires
        pos <= toks.len(),
    ensures
        agrees(r, spec_power(views(toks@), pos as int), pos + 1, toks.len() as int),
    decreases toks.len() - pos, 2int,
{
    match parse_unary(toks, pos) {
        Ok((b, p)) => {
            let caret = match token_at(toks, p) {
                Some(Token::Caret) => true,
                _ => false,
            };
            if caret {
                match parse_power(toks, p + 1) {
                    Ok((e, q)) => Ok((Node::Expr(Box::new(b), Operator::Pow, Box::new(e)), q)),
                    Err(e) => Err(e),
                }
            } else {
                Ok((b, p))
            }
        },
        Err(e) => Err(e),
    }
}

fn parse_unary(toks: &Vec<Token>, pos: usize) -> (r: Result<(Node, usize), SyntaxError>)
    requires
        pos <= toks.len(),
    ensures
        agrees(r, spec_unary(views(toks@), pos as int), pos + 1, toks.len() as int),
    decreases toks.len() - pos, 1int,
{
    let minus = match token_at(toks, pos) {
        Some(Token::Minus) => true,
        _ => false,
    };
    if minus {
        match parse_unary(toks, pos + 1) {
            Ok((a, p)) => Ok((Node::Neg(Box::new(a)), p)),
            Err(e) => Err(e),
        }
    } else {
        parse_primary(toks, pos)
    }
}

/// Reads `')'` at `pos`, after a parenthesised expression.
fn close_paren(toks: &Vec<Token>, pos: usize) -> (r: bool)
    ensures
        r == tok_is(views(toks@), pos as int, TokenView::RParen),
{
    match token_at(toks, pos) {
        Some(Token::RParen) => true,
        _ => false,
    }
}

fn parse_primary(toks: &Vec<Token>, pos: usize) -> (r: Result<(Node, usize), SyntaxError>)
    requires
        pos <= toks.len(),
    ensures
        agrees(r, spec_primary(views(toks@), pos as int), pos + 1, toks.len() as int),
    decreases toks.len() - pos, 0int,
{
    match token_at(toks, pos) {
        None => Err(SyntaxError::UnexpectedEnd),
        Some(Token::Number(s)) => Ok((Node::Number(s.clone()), pos + 1)),
        Some(Token::Ident(f)) => {
            let call = match token_at(toks, pos + 1) {
                Some(Token::LParen) => true,
                _ => false,
            };
            if call {
                match parse_expr(toks, pos + 2) {
                    Ok((a, p)) => if close_paren(toks, p) {
                        Ok((Node::Function(f.clone(), Box::new(a)), p + 1))
                    } else {
                        Err(unexpected(toks, p))
                    },
                    Err(e) => Err(e),
                }
            } else {
                Ok((Node::Const(f.clone()), pos + 1))
            }
        },
        Some(Token::LParen) => match parse_expr(toks, pos + 1) {
            Ok((a, p)) => if close_paren(toks, p) {
                Ok((a, p + 1))
            } else {
                Err(unexpected(toks, p))
            },
            Err(e) => Err(e),
        },
        Some(_) => Err(SyntaxError::UnexpectedToken(pos)),
    }
}

/// An expression that takes every token from `pos` on.
fn parse_whole_expr(toks: &Vec<Token>, pos: usize) -> (r: Result<Node, SyntaxError>)
    requires
        pos <= toks.len(),
    ensures
        match r {
            Ok(n) => spec_whole_expr(views(toks@), pos as int) == Some(n@),
            Err(_) => spec_whole_expr(views(toks@), pos as int) is None,
        },
{
    match parse_expr(toks, pos) {
        Ok((e, p)) => if p == toks.len() {
            Ok(e)
        } else {
            Err(SyntaxError::UnexpectedToken(p))
        },
        Err(e) => Err(e),
    }
}

/// Reads a token sequence as one statement. Succeeds exactly where
/// `spec_statement` does, with the statement that it gives.
#[verifier::rlimit(30)]
pub fn parse_tokens(toks: &Vec<Token>) -> (r: Result<Statement, SyntaxError>)
    ensures
        match r {
            Ok(s) => spec_statement(views(toks@)) == Some(s@),
            Err(_) => spec_statement(views(toks@)) is None,
        },
{
    let ghost v = views(toks@);
    let is_const_def = match (token_at(toks, 0), token_at(toks, 1)) {
        (Some(Token::Ident(_)), Some(Token::Equals)) => true,
        _ => false,
    };
    let is_func_def = match (token_at(toks, 0), token_at(toks, 1), token_at(toks, 2)) {
        (Some(Token::Ident(_)), Some(Token::LParen), Some(Token::Ident(_))) => match (
            token_at(toks, 3),
            token_at(toks, 4),
        ) {
            (Some(Token::RParen), Some(Token::Equals)) => true,
            _ => false,
        },
        _ => false,
    };
    if is_const_def {
        let name = match &toks[0] {
            Token::Ident(n) => n.clone(),
            _ => String::new(),
        };
        proof {
            assert(v[0] == toks@[0]@);
        }
        match parse_whole_expr(toks, 2) {
            Ok(e) => Ok(Statement::AssignConst(name, e)),
            Err(e) => Err(e),
        }
    } else if is_func_def {
        let name = match &toks[0] {
            Token::Ident(n) => n.clone(),
            _ => String::new(),
        };
        let param = match &toks[2] {
            Token::Ident(n) => n.clone(),
            _ => String::new(),
        };
        proof {
            assert(v[0] == toks@[0]@);
            assert(v[2] == toks@[2]@);
        }
        match parse_whole_expr(toks, 5) {
            Ok(b) => Ok(Statement::AssignFunc(name, param, b)),
            Err(e) => Err(e),
        }
    } else {
        match parse_whole_expr(toks, 0) {
            Ok(e) => Ok(Statement::Expression(e)),
            Err(e) => Err(e),
        }
    }
}

/// Reads a line of text as one statement. Succeeds exactly where
/// `spec_parse` does, with the statement that it gives.
pub fn parse(text: &str) -> (r: Result<Statement, SyntaxError>)
    ensures
        match r {
            Ok(s) => spec_parse(text@) == Some(s@),
            Err(_) => spec_parse(text@) is None,
        },
{
    match tokenize(text) {
        Ok(toks) => if toks.len() <= MAX_TOKENS {
            parse_tokens(&toks)
        } else {
            Err(SyntaxError::TooLong)
        },
        Err(e) => Err(e),
    }
}

} // verus!
