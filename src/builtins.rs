use vstd::prelude::*;

verus! {

/// The built-in one-argument functions.
#[derive(Clone, Copy, PartialEq, Eq, Debug, Structural)]
pub enum BuiltinFn {
    Sqrt,
    /// Natural logarithm.
    Ln,
    Abs,
    Cos,
    Sin,
    Tan,
    /// Base-10 logarithm.
    Log,
}

/// The built-in named constants.
#[derive(Clone, Copy, PartialEq, Eq, Debug, Structural)]
pub enum BuiltinConst {
    /// The ratio of a circle's circumference to its diameter.
    Pi,
    /// The base of the natural logarithm.
    E,
}

/// The built-in function that a name denotes, if any.
pub open spec fn function_named(name: Seq<char>) -> Option<BuiltinFn> {
    if name == "sqrt"@ {
        Some(BuiltinFn::Sqrt)
    } else if name == "ln"@ {
        Some(BuiltinFn::Ln)
    } else if name == "abs"@ {
        Some(BuiltinFn::Abs)
    } else if name == "cos"@ {
        Some(BuiltinFn::Cos)
    } else if name == "sin"@ {
        Some(BuiltinFn::Sin)
    } else if name == "tan"@ {
        Some(BuiltinFn::Tan)
    } else if name == "log"@ {
        Some(BuiltinFn::Log)
    } else {
        None
    }
}

/// The built-in constant that a name denotes, if any.
pub open spec fn constant_named(name: Seq<char>) -> Option<BuiltinConst> {
    if name == "pi"@ {
        Some(BuiltinConst::Pi)
    } else if name == "e"@ {
        Some(BuiltinConst::E)
    } else {
        None
    }
}

/// Whether two strings hold the same characters.
pub fn same_text(a: &str, b: &str) -> (r: bool)
    ensures
        r == (a@ == b@),
{
    let n = a.unicode_len();
    if n != b.unicode_len() {
        return false;
    }
    let mut i: usize = 0;
    while i < n
        invariant
            n == a@.len(),
            n == b@.len(),
            i <= n,
            a@.subrange(0, i as int) == b@.subrange(0, i as int),
        decreases n - i,
    {
        if a.get_char(i) != b.get_char(i) {
            return false;
        }
        proof {
            assert(a@.subrange(0, i + 1) =~= a@.subrange(0, i as int).push(a@[i as int]));
            assert(b@.subrange(0, i + 1) =~= b@.subrange(0, i as int).push(b@[i as int]));
        }
        i = i + 1;
    }
    proof {
        assert(a@ =~= a@.subrange(0, n as int));
        assert(b@ =~= b@.subrange(0, n as int));
    }
    true
}

/// Looks a name up in the table of built-in functions.
pub fn lookup_function(name: &str) -> (r: Option<BuiltinFn>)
    ensures
        r == function_named(name@),
{
    if same_text(name, "sqrt") {
        Some(BuiltinFn::Sqrt)
    } else if same_text(name, "ln") {
        Some(BuiltinFn::Ln)
    } else if same_text(name, "abs") {
        Some(BuiltinFn::Abs)
    } else if same_text(name, "cos") {
        Some(BuiltinFn::Cos)
    } else if same_text(name, "sin") {
        Some(BuiltinFn::Sin)
    } else if same_text(name, "tan") {
        Some(BuiltinFn::Tan)
    } else if same_text(name, "log") {
        Some(BuiltinFn::Log)
    } else {
        None
    }
}

/// Looks a name up in the table of built-in constants.
pub fn lookup_constant(name: &str) -> (r: Option<BuiltinConst>)
    ensures
        r == constant_named(name@),
{
    if same_text(name, "pi") {
        Some(BuiltinConst::Pi)
    } else if same_text(name, "e") {
        Some(BuiltinConst::E)
    } else {
        None
    }
}

} // verus!
