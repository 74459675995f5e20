use calc::ast::{Node, Operator, Statement};
use calc::builtins::{lookup_constant, lookup_function, same_text, BuiltinConst, BuiltinFn};
use calc::evaluator::{Action, Environment, Error, Term};
use calc::lexer::{tokenize, SyntaxError, Token};
use calc::parser::parse;

fn reduce(t: &Term<f64>) -> f64 {
    match t {
        Term::Literal(s) => s.parse::<f64>().unwrap(),
        Term::Value(v) => *v,
        Term::Constant(BuiltinConst::Pi) => std::f64::consts::PI,
        Term::Constant(BuiltinConst::E) => std::f64::consts::E,
        Term::Negate(a) => -reduce(a),
        Term::Apply(f, a) => {
            let x = reduce(a);
            match f {
                BuiltinFn::Sqrt => x.sqrt(),
                BuiltinFn::Ln => x.ln(),
                BuiltinFn::Abs => x.abs(),
                BuiltinFn::Cos => x.cos(),
                BuiltinFn::Sin => x.sin(),
                BuiltinFn::Tan => x.tan(),
                BuiltinFn::Log => x.log10(),
            }
        }
        Term::Binary(l, op, r) => {
            let a = reduce(l);
            let b = reduce(r);
            match op {
                Operator::Plus => a + b,
                Operator::Minus => a - b,
                Operator::Mult => a * b,
                Operator::Div => a / b,
                Operator::Pow => a.powf(b),
            }
        }
    }
}

fn run(env: &mut Environment<f64>, text: &str) -> Result<f64, Error> {
    match env.prepare(text)? {
        Action::Evaluate(t) => Ok(reduce(&t)),
        Action::Store(name, t) => {
            let v = reduce(&t);
            env.define_const(name, v);
            Ok(v)
        }
        Action::Defined => Ok(0.0),
    }
}

fn eval(text: &str) -> Result<f64, Error> {
    let mut env = Environment::new();
    run(&mut env, text)
}

fn show(n: &Node) -> String {
    match n {
        Node::Number(s) => s.clone(),
        Node::Neg(a) => format!("(-{})", show(a)),
        Node::Expr(l, op, r) => {
            let o = match op {
                Operator::Plus => "+",
                Operator::Minus => "-",
                Operator::Mult => "*",
                Operator::Div => "/",
                Operator::Pow => "^",
            };
            format!("({} {} {})", show(l), o, show(r))
        }
        Node::Function(f, a) => format!("{}[{}]", f, show(a)),
        Node::Const(c) => c.clone(),
    }
}

fn show_statement(text: &str) -> String {
    match parse(text).unwrap() {
        Statement::Expression(e) => show(&e),
        Statement::AssignConst(n, e) => format!("{} := {}", n, show(&e)),
        Statement::AssignFunc(n, p, b) => format!("{}({}) := {}", n, p, show(&b)),
    }
}

#[test]
fn multiplication_binds_tighter_than_addition() {
    assert_eq!(eval("2 + 3 * 4").unwrap(), 14.0);
    assert_eq!(show_statement("2 + 3 * 4"), "(2 + (3 * 4))");
}

#[test]
fn power_groups_to_the_right() {
    assert_eq!(eval("2 ^ 3 ^ 2").unwrap(), 512.0);
    assert_eq!(show_statement("2^3^2"), "(2 ^ (3 ^ 2))");
}

#[test]
fn unary_minus_binds_tighter_than_power() {
    assert_eq!(eval("-2 ^ 2").unwrap(), 4.0);
    assert_eq!(show_statement("-2 ^ 2"), "((-2) ^ 2)");
    assert_eq!(eval("2 ^ -1").unwrap(), 0.5);
    assert_eq!(eval("--3").unwrap(), 3.0);
}

#[test]
fn minus_and_division_group_to_the_left() {
    assert_eq!(eval("10 - 4 - 3").unwrap(), 3.0);
    assert_eq!(eval("8 / 4 / 2").unwrap(), 1.0);
    assert_eq!(show_statement("1 - 2 + 3"), "((1 - 2) + 3)");
}

#[test]
fn parentheses_override_precedence() {
    assert_eq!(eval("(2 + 3) * 4").unwrap(), 20.0);
}

#[test]
fn builtin_constants() {
    assert_eq!(eval("pi").unwrap(), std::f64::consts::PI);
    assert!((eval("pi").unwrap() - 3.14159265358979).abs() < 1e-12);
    assert_eq!(eval("e").unwrap(), std::f64::consts::E);
    assert!((eval("e").unwrap() - 2.71828182845904).abs() < 1e-12);
}

#[test]
fn builtin_functions() {
    assert_eq!(eval("sqrt(16)").unwrap(), 4.0);
    assert_eq!(eval("abs(-5)").unwrap(), 5.0);
    assert_eq!(eval("log(100)").unwrap(), 2.0);
    assert!((eval("ln(e)").unwrap() - 1.0).abs() < 1e-15);
    assert_eq!(eval("cos(0)").unwrap(), 1.0);
    assert_eq!(eval("sin(0)").unwrap(), 0.0);
    assert_eq!(eval("tan(0)").unwrap(), 0.0);
}

#[test]
fn user_constant_round_trip() {
    let mut env = Environment::new();
    assert_eq!(run(&mut env, "x = 5").unwrap(), 5.0);
    assert_eq!(run(&mut env, "x + 1").unwrap(), 6.0);
    assert_eq!(run(&mut env, "x = x * 2").unwrap(), 10.0);
    assert_eq!(run(&mut env, "x").unwrap(), 10.0);
}

#[test]
fn unknown_constant_fails() {
    match eval("y + 1") {
        Err(Error::UnknownConstant(name)) => assert_eq!(name, "y"),
        other => panic!("unexpected {:?}", other),
    }
}

#[test]
fn unknown_function_fails_before_its_argument() {
    match eval("foo(y)") {
        Err(Error::UnknownFunction(name)) => assert_eq!(name, "foo"),
        other => panic!("unexpected {:?}", other),
    }
}

#[test]
fn first_unknown_name_from_the_left_is_reported() {
    match eval("a + b") {
        Err(Error::UnknownConstant(name)) => assert_eq!(name, "a"),
        other => panic!("unexpected {:?}", other),
    }
}

#[test]
fn division_by_zero_and_zero_power() {
    assert_eq!(eval("1 / 0").unwrap(), f64::INFINITY);
    assert_eq!(eval("0 ^ 0").unwrap(), 1.0);
    assert!(eval("0 / 0").unwrap().is_nan());
}

#[test]
fn malformed_line_keeps_environment() {
    let mut env = Environment::new();
    assert_eq!(run(&mut env, "x = 5").unwrap(), 5.0);
    assert!(matches!(run(&mut env, "2 +"), Err(Error::Syntax(SyntaxError::UnexpectedEnd))));
    assert!(matches!(run(&mut env, "x = 2 +"), Err(Error::Syntax(_))));
    assert_eq!(run(&mut env, "x + 1").unwrap(), 6.0);
}

#[test]
fn failed_assignment_stores_nothing() {
    let mut env = Environment::new();
    assert!(matches!(run(&mut env, "z = w + 1"), Err(Error::UnknownConstant(_))));
    assert!(matches!(run(&mut env, "z"), Err(Error::UnknownConstant(_))));
}

#[test]
fn empty_and_blank_lines_are_syntax_errors() {
    assert!(matches!(eval(""), Err(Error::Syntax(SyntaxError::UnexpectedEnd))));
    assert!(matches!(eval("   "), Err(Error::Syntax(SyntaxError::UnexpectedEnd))));
}

#[test]
fn unbalanced_parentheses_are_syntax_errors() {
    assert!(matches!(eval("(2 + 3"), Err(Error::Syntax(SyntaxError::UnexpectedEnd))));
    assert!(matches!(eval("2 + 3)"), Err(Error::Syntax(SyntaxError::UnexpectedToken(3)))));
    assert!(matches!(eval("2 3"), Err(Error::Syntax(SyntaxError::UnexpectedToken(1)))));
    assert!(matches!(eval("* 2"), Err(Error::Syntax(SyntaxError::UnexpectedToken(0)))));
}

#[test]
fn lexical_errors() {
    assert!(matches!(tokenize("2 $ 3"), Err(SyntaxError::InvalidCharacter(2))));
    assert!(matches!(tokenize("1."), Err(SyntaxError::MalformedNumber(1))));
    assert!(matches!(eval("1.x"), Err(Error::Syntax(SyntaxError::MalformedNumber(1)))));
}

#[test]
fn tokens_of_a_line() {
    let toks = tokenize(" x1=3.25*(y-2)^ 4/z ").unwrap();
    assert_eq!(toks.len(), 13);
    assert!(matches!(&toks[0], Token::Ident(s) if s == "x1"));
    assert!(matches!(toks[1], Token::Equals));
    assert!(matches!(&toks[2], Token::Number(s) if s == "3.25"));
    assert!(matches!(toks[3], Token::Star));
    assert!(matches!(toks[4], Token::LParen));
    assert!(matches!(&toks[5], Token::Ident(s) if s == "y"));
    assert!(matches!(toks[6], Token::Minus));
    assert!(matches!(&toks[7], Token::Number(s) if s == "2"));
    assert!(matches!(toks[8], Token::RParen));
    assert!(matches!(toks[9], Token::Caret));
    assert!(matches!(&toks[10], Token::Number(s) if s == "4"));
    assert!(matches!(toks[11], Token::Slash));
    assert!(matches!(&toks[12], Token::Ident(s) if s == "z"));
}

#[test]
fn decimal_literals() {
    assert_eq!(eval("1.5 * 2").unwrap(), 3.0);
    assert_eq!(eval("0.25 + 0.5").unwrap(), 0.75);
}

#[test]
fn function_definition_is_stored_and_returns_zero() {
    let mut env = Environment::new();
    assert_eq!(show_statement("f(x) = x * 2"), "f(x) := (x * 2)");
    assert_eq!(run(&mut env, "f(x) = x * 2").unwrap(), 0.0);
    assert!(env.has_function("f"));
    assert!(!env.has_function("g"));
    match run(&mut env, "f(3)") {
        Err(Error::UnknownFunction(name)) => assert_eq!(name, "f"),
        other => panic!("unexpected {:?}", other),
    }
}

#[test]
fn function_call_and_constant_parse() {
    assert_eq!(show_statement("sqrt(a + 1)"), "sqrt[(a + 1)]");
    assert_eq!(show_statement("pi = 3"), "pi := 3");
}

#[test]
fn builtin_constant_is_not_shadowed() {
    let mut env = Environment::new();
    assert_eq!(run(&mut env, "pi = 3").unwrap(), 3.0);
    assert_eq!(run(&mut env, "pi").unwrap(), std::f64::consts::PI);
}

#[test]
fn builtin_tables() {
    assert_eq!(lookup_function("sqrt"), Some(BuiltinFn::Sqrt));
    assert_eq!(lookup_function("log"), Some(BuiltinFn::Log));
    assert_eq!(lookup_function("exp"), None);
    assert_eq!(lookup_constant("pi"), Some(BuiltinConst::Pi));
    assert_eq!(lookup_constant("e"), Some(BuiltinConst::E));
    assert_eq!(lookup_constant("pie"), None);
    assert!(same_text("abc", "abc"));
    assert!(!same_text("abc", "abd"));
    assert!(!same_text("ab", "abc"));
}

#[test]
fn error_messages_name_the_offender() {
    let err = eval("q").unwrap_err();
    assert_eq!(err.message(), "invalid constant name: q");
    let err = eval("h(1)").unwrap_err();
    assert_eq!(err.message(), "invalid function name: h");
}

#[test]
fn deep_nesting_within_the_limit() {
    let line = format!("{}7{}", "(".repeat(500), ")".repeat(500));
    assert_eq!(eval(&line).unwrap(), 7.0);
    let minus = format!("{}7", "-".repeat(1000));
    assert_eq!(eval(&minus).unwrap(), 7.0);
}

#[test]
fn overlong_line_is_refused() {
    let line = format!("1{}", " + 1".repeat(600));
    assert!(matches!(eval(&line), Err(Error::Syntax(SyntaxError::TooLong))));
    let line = format!("1{}", " + 1".repeat(500));
    assert_eq!(eval(&line).unwrap(), 501.0);
}
