use vstd::prelude::*;

use crate::ast::NodeView;
use crate::builtins::{constant_named, BuiltinConst};
use crate::evaluator::{funcs_after, spec_prepare, spec_resolve, Failure, TermView};
use crate::ast::{Operator, StatementView};
use crate::lexer::TokenView;
use crate::parser::{binary, spec_parse, spec_statement};

verus! {

/// Reading is deterministic: the same text always gives the same statement,
/// and against the same constants the same action or error.
pub proof fn lemma_same_text_same_outcome<N>(consts: Map<Seq<char>, N>, a: Seq<char>, b: Seq<char>)
    requires
        a == b,
    ensures
        spec_parse(a) == spec_parse(b),
        spec_prepare(consts, a) == spec_prepare(consts, b),
{
}

/// A constant that was stored under a name that is not built in is what a
/// later reference to that name reads.
pub proof fn lemma_stored_constant_is_read<N>(consts: Map<Seq<char>, N>, name: Seq<char>, value: N)
    requires
        constant_named(name) is None,
    ensures
        spec_resolve(consts.insert(name, value), NodeView::Const(name)) == Ok::<TermView<N>, Failure>(
            TermView::Value(value),
        ),
{
}

/// A name that is neither built in nor defined is an unknown constant.
pub proof fn lemma_undefined_name_fails<N>(consts: Map<Seq<char>, N>, name: Seq<char>)
    requires
        constant_named(name) is None,
        !consts.contains_key(name),
    ensures
        spec_resolve(consts, NodeView::Const(name)) == Err::<TermView<N>, Failure>(
            Failure::UnknownConstant(name),
        ),
{
}

/// A built-in constant cannot be shadowed by a user constant of its name.
pub proof fn lemma_builtin_constant_wins<N>(consts: Map<Seq<char>, N>, name: Seq<char>, c: BuiltinConst)
    requires
        constant_named(name) == Some(c),
    ensures
        spec_resolve(consts, NodeView::Const(name)) == Ok::<TermView<N>, Failure>(
            TermView::Constant(c),
        ),
{
}

/// A malformed line is a syntax error and leaves the user functions as they
/// were (`Environment::prepare` never changes the constants), so the line
/// after it reads the definitions made before it.
pub proof fn lemma_malformed_line_changes_nothing<N>(
    consts: Map<Seq<char>, N>,
    funcs: Map<Seq<char>, (Seq<char>, NodeView)>,
    bad: Seq<char>,
    next: Seq<char>,
)
    requires
        spec_parse(bad) is None,
    ensures
        spec_prepare(consts, bad) == Err::<crate::evaluator::ActionView<N>, Failure>(Failure::Syntax),
        funcs_after(funcs, bad) == funcs,
        funcs_after(funcs_after(funcs, bad), next) == funcs_after(funcs, next),
{
}

/// `*` binds tighter than `+`: `x + y * z` reads as `x + (y * z)`.
pub proof fn lemma_product_binds_tighter(x: Seq<char>, y: Seq<char>, z: Seq<char>)
    ensures
        spec_statement(
            seq![TokenView::Number(x), TokenView::Plus, TokenView::Number(y), TokenView::Star, TokenView::Number(z)],
        ) == Some(
            StatementView::Expression(
                binary(
                    NodeView::Number(x),
                    Operator::Plus,
                    binary(NodeView::Number(y), Operator::Mult, NodeView::Number(z)),
                ),
            ),
        ),
{
    let t = seq![TokenView::Number(x), TokenView::Plus, TokenView::Number(y), TokenView::Star, TokenView::Number(z)];
    reveal_with_fuel(crate::parser::spec_term_rest, 3);
    reveal_with_fuel(crate::parser::spec_expr_rest, 3);
    assert(crate::parser::spec_term(t, 0) == Some((NodeView::Number(x), 1int)));
    assert(crate::parser::spec_term(t, 2) == Some(
        (binary(NodeView::Number(y), Operator::Mult, NodeView::Number(z)), 5int),
    ));
}

/// `^` groups to the right: `x ^ y ^ z` reads as `x ^ (y ^ z)`.
pub proof fn lemma_power_groups_right(x: Seq<char>, y: Seq<char>, z: Seq<char>)
    ensures
        spec_statement(
            seq![TokenView::Number(x), TokenView::Caret, TokenView::Number(y), TokenView::Caret, TokenView::Number(z)],
        ) == Some(
            StatementView::Expression(
                binary(
                    NodeView::Number(x),
                    Operator::Pow,
                    binary(NodeView::Number(y), Operator::Pow, NodeView::Number(z)),
                ),
            ),
        ),
{
    let t = seq![TokenView::Number(x), TokenView::Caret, TokenView::Number(y), TokenView::Caret, TokenView::Number(z)];
    reveal_with_fuel(crate::parser::spec_power, 3);
    assert(crate::parser::spec_power(t, 4) == Some((NodeView::Number(z), 5int)));
    assert(crate::parser::spec_power(t, 2) == Some(
        (binary(NodeView::Number(y), Operator::Pow, NodeView::Number(z)), 5int),
    ));
    assert(crate::parser::spec_term(t, 0) == Some(
        (binary(NodeView::Number(x), Operator::Pow, binary(NodeView::Number(y), Operator::Pow, NodeView::Number(z))), 5int),
    ));
}

/// A leading minus binds tighter than `^`: `- x ^ y` reads as `(-x) ^ y`.
pub proof fn lemma_negation_binds_tighter_than_power(x: Seq<char>, y: Seq<char>)
    ensures
        spec_statement(seq![TokenView::Minus, TokenView::Number(x), TokenView::Caret, TokenView::Number(y)])
            == Some(
            StatementView::Expression(
                binary(NodeView::Neg(Box::new(NodeView::Number(x))), Operator::Pow, NodeView::Number(y)),
            ),
        ),
{
    let t = seq![TokenView::Minus, TokenView::Number(x), TokenView::Caret, TokenView::Number(y)];
    reveal_with_fuel(crate::parser::spec_unary, 2);
    assert(crate::parser::spec_unary(t, 0) == Some((NodeView::Neg(Box::new(NodeView::Number(x))), 2int)));
    assert(crate::parser::spec_power(t, 3) == Some((NodeView::Number(y), 4int)));
    assert(crate::parser::spec_term(t, 0) == Some(
        (binary(NodeView::Neg(Box::new(NodeView::Number(x))), Operator::Pow, NodeView::Number(y)), 4int),
    ));
}

/// Parentheses group first: `( x + y ) * z` reads as `(x + y) * z`.
pub proof fn lemma_parentheses_group_first(x: Seq<char>, y: Seq<char>, z: Seq<char>)
    ensures
        spec_statement(
            seq![
                TokenView::LParen,
                TokenView::Number(x),
                TokenView::Plus,
                TokenView::Number(y),
                TokenView::RParen,
                TokenView::Star,
                TokenView::Number(z),
            ],
        ) == Some(
            StatementView::Expression(
                binary(
                    binary(NodeView::Number(x), Operator::Plus, NodeView::Number(y)),
                    Operator::Mult,
                    NodeView::Number(z),
                ),
            ),
        ),
{
    let t = seq![
        TokenView::LParen,
        TokenView::Number(x),
        TokenView::Plus,
        TokenView::Number(y),
        TokenView::RParen,
        TokenView::Star,
        TokenView::Number(z),
    ];
    let sum = binary(NodeView::Number(x), Operator::Plus, NodeView::Number(y));
    reveal_with_fuel(crate::parser::spec_term_rest, 3);
    reveal_with_fuel(crate::parser::spec_expr_rest, 3);
    assert(crate::parser::spec_term(t, 1) == Some((NodeView::Number(x), 2int)));
    assert(crate::parser::spec_term(t, 3) == Some((NodeView::Number(y), 4int)));
    assert(crate::parser::spec_expr(t, 1) == Some((sum, 4int)));
    assert(crate::parser::spec_primary(t, 0) == Some((sum, 5int)));
    assert(crate::parser::spec_power(t, 0) == Some((sum, 5int)));
    assert(crate::parser::spec_power(t, 6) == Some((NodeView::Number(z), 7int)));
    assert(crate::parser::spec_term(t, 0) == Some((binary(sum, Operator::Mult, NodeView::Number(z)), 7int)));
}

} // verus!
