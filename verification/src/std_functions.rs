use vstd::prelude::*;
use vstd::string::StringExecFns;
use crate::errors::{ErrM, EvalError};
use crate::interpreter::{Value, ValueM};
use crate::oracle::{AnsM, ArithOp, ExtAnswer, ExtRequest, Oracle, ReqM, Stop, StopM, UnaryOp};
use crate::util::str_eq;

verus! {

/// The IEEE-754 bit masks the domain checks need: everything but the sign
/// bit, and the smallest magnitude that is not a number.
pub open spec fn f64_magnitude(bits: u64) -> u64 {
    bits & 0x7fff_ffff_ffff_ffffu64
}

/// Whether `bits` is an IEEE-754 zero (of either sign): the magnitude bits
/// are all clear. This is exactly when the number compares equal to zero.
pub open spec fn is_zero_bits(bits: u64) -> bool {
    f64_magnitude(bits) == 0
}

/// Whether `bits` is an IEEE-754 number strictly below zero: the sign bit is
/// set, the magnitude is not zero, and the value is not a NaN (whose
/// magnitude exceeds that of infinity, 0x7ff0_0000_0000_0000).
pub open spec fn is_negative_bits(bits: u64) -> bool {
    (bits >> 63u64) == 1u64 && f64_magnitude(bits) != 0 && f64_magnitude(bits)
        <= 0x7ff0_0000_0000_0000u64
}

/// The built-in table: the functions the reserved `std_func` module offers.
pub open spec fn is_std_builtin(name: Seq<char>) -> bool {
    name == "add"@ || name == "subtract"@ || name == "multiply"@ || name == "divide"@ || name
        == "sqrt"@
}

/// What a two-number built-in does: exactly two number arguments, a domain
/// check for division, then one arithmetic request to the embedder.
pub open spec fn std_binary_spec(
    ans: Seq<AnsM>,
    pos: int,
    name: Seq<char>,
    op: ArithOp,
    args: Seq<ValueM>,
) -> (int, Result<ValueM, StopM>) {
    if args.len() != 2 {
        (pos, Err(StopM::Error(ErrM::BuiltinArity { name, arity: 2 })))
    } else {
        match (args[0], args[1]) {
            (ValueM::Number(a), ValueM::Number(b)) => {
                if op == ArithOp::Divide && is_zero_bits(b) {
                    (pos, Err(StopM::Error(ErrM::DivisionByZero)))
                } else {
                    if pos < ans.len() {
                        match ans[pos] {
                            AnsM::Bits(r) => (pos + 1, Ok(ValueM::Number(r))),
                            _ => (pos + 1, Err(StopM::Error(ErrM::BadAnswer))),
                        }
                    } else {
                        (pos, Err(StopM::Pending(ReqM::Arith(op, a, b))))
                    }
                }
            },
            _ => (pos, Err(StopM::Error(ErrM::BuiltinType { name, unary: false }))),
        }
    }
}

/// What a one-number built-in does: exactly one number argument, a domain
/// check for the square root, then one request to the embedder.
pub open spec fn std_unary_spec(
    ans: Seq<AnsM>,
    pos: int,
    name: Seq<char>,
    op: UnaryOp,
    args: Seq<ValueM>,
) -> (int, Result<ValueM, StopM>) {
    if args.len() != 1 {
        (pos, Err(StopM::Error(ErrM::BuiltinArity { name, arity: 1 })))
    } else {
        match args[0] {
            ValueM::Number(a) => {
                if op == UnaryOp::Sqrt && is_negative_bits(a) {
                    (pos, Err(StopM::Error(ErrM::SqrtOfNegative)))
                } else {
                    if pos < ans.len() {
                        match ans[pos] {
                            AnsM::Bits(r) => (pos + 1, Ok(ValueM::Number(r))),
                            _ => (pos + 1, Err(StopM::Error(ErrM::BadAnswer))),
                        }
                    } else {
                        (pos, Err(StopM::Pending(ReqM::Unary(op, a))))
                    }
                }
            },
            _ => (pos, Err(StopM::Error(ErrM::BuiltinType { name, unary: true }))),
        }
    }
}

/// What calling a built-in by name does. Only defined for names in the
/// table.
pub open spec fn std_call_spec(ans: Seq<AnsM>, pos: int, name: Seq<char>, args: Seq<ValueM>) -> (
    int,
    Result<ValueM, StopM>,
) {
    if name == "add"@ {
        std_binary_spec(ans, pos, name, ArithOp::Add, args)
    } else if name == "subtract"@ {
        std_binary_spec(ans, pos, name, ArithOp::Subtract, args)
    } else if name == "multiply"@ {
        std_binary_spec(ans, pos, name, ArithOp::Multiply, args)
    } else if name == "divide"@ {
        std_binary_spec(ans, pos, name, ArithOp::Divide, args)
    } else {
        std_unary_spec(ans, pos, name, UnaryOp::Sqrt, args)
    }
}

/// The five built-in names are pairwise distinct.
proof fn lemma_std_names_distinct()
    ensures
        "add"@ != "subtract"@,
        "multiply"@ != "add"@,
        "multiply"@ != "subtract"@,
        "divide"@ != "add"@,
        "divide"@ != "subtract"@,
        "divide"@ != "multiply"@,
        "sqrt"@ != "add"@,
        "sqrt"@ != "subtract"@,
        "sqrt"@ != "multiply"@,
        "sqrt"@ != "divide"@,
{
    reveal_strlit("add");
    reveal_strlit("subtract");
    reveal_strlit("multiply");
    reveal_strlit("divide");
    reveal_strlit("sqrt");
    assert("add"@.len() == 3);
    assert("subtract"@.len() == 8);
    assert("multiply"@.len() == 8);
    assert("divide"@.len() == 6);
    assert("sqrt"@.len() == 4);
    assert("multiply"@[0] == 'm');
    assert("subtract"@[0] == 's');
}

fn std_binary(
    name: &str,
    op: ArithOp,
    args: Vec<Value>,
    oracle: &mut Oracle,
) -> (r: Result<Value, Stop>)
    requires
        old(oracle).wf(),
    ensures
        final(oracle).wf(),
        final(oracle).answers() == old(oracle).answers(),
        ({
            let (pos2, r2) = std_binary_spec(
                old(oracle).answers(),
                old(oracle).pos(),
                name@,
                op,
                args@.map(|i: int, v: Value| v@),
            );
            final(oracle).pos() == pos2 && match (r, r2) {
                (Ok(v), Ok(v2)) => v@ == v2,
                (Err(s), Err(s2)) => s@ == s2,
                _ => false,
            }
        }),
{
    if args.len() != 2 {
        return Err(
            Stop::Error(EvalError::BuiltinArity { name: name.to_owned(), arity: 2 }),
        );
    }
    let (a, b) = match (&args[0], &args[1]) {
        (Value::Number(a), Value::Number(b)) => (*a, *b),
        _ => {
            return Err(
                Stop::Error(EvalError::BuiltinType { name: name.to_owned(), unary: false }),
            );
        },
    };
    if matches!(op, ArithOp::Divide) && (b & 0x7fff_ffff_ffff_ffffu64) == 0 {
        return Err(Stop::Error(EvalError::DivisionByZero));
    }
    match oracle.next(ExtRequest::Arith(op, a, b)) {
        Ok(ExtAnswer::Bits(r)) => Ok(Value::Number(r)),
        Ok(_) => Err(Stop::Error(EvalError::BadAnswer)),
        Err(s) => Err(s),
    }
}

fn std_unary(
    name: &str,
    op: UnaryOp,
    args: Vec<Value>,
    oracle: &mut Oracle,
) -> (r: Result<Value, Stop>)
    requires
        old(oracle).wf(),
    ensures
        final(oracle).wf(),
        final(oracle).answers() == old(oracle).answers(),
        ({
            let (pos2, r2) = std_unary_spec(
                old(oracle).answers(),
                old(oracle).pos(),
                name@,
                op,
                args@.map(|i: int, v: Value| v@),
            );
            final(oracle).pos() == pos2 && match (r, r2) {
                (Ok(v), Ok(v2)) => v@ == v2,
                (Err(s), Err(s2)) => s@ == s2,
                _ => false,
            }
        }),
{
    if args.len() != 1 {
        return Err(
            Stop::Error(EvalError::BuiltinArity { name: name.to_owned(), arity: 1 }),
        );
    }
    let a = match &args[0] {
        Value::Number(a) => *a,
        _ => {
            return Err(
                Stop::Error(EvalError::BuiltinType { name: name.to_owned(), unary: true }),
            );
        },
    };
    if matches!(op, UnaryOp::Sqrt) && (a >> 63u64) == 1 && (a & 0x7fff_ffff_ffff_ffffu64) != 0
        && (a & 0x7fff_ffff_ffff_ffffu64) <= 0x7ff0_0000_0000_0000u64 {
        return Err(Stop::Error(EvalError::SqrtOfNegative));
    }
    match oracle.next(ExtRequest::Unary(op, a)) {
        Ok(ExtAnswer::Bits(r)) => Ok(Value::Number(r)),
        Ok(_) => Err(Stop::Error(EvalError::BadAnswer)),
        Err(s) => Err(s),
    }
}

/// Adds two numbers through the embedder; the built-in behind `add`.
pub fn std_num_add(args: Vec<Value>, oracle: &mut Oracle) -> (r: Result<Value, Stop>)
    requires
        old(oracle).wf(),
    ensures
        final(oracle).wf(),
        final(oracle).answers() == old(oracle).answers(),
        ({
            let (pos2, r2) = std_call_spec(
                old(oracle).answers(),
                old(oracle).pos(),
                "add"@,
                args@.map(|i: int, v: Value| v@),
            );
            final(oracle).pos() == pos2 && match (r, r2) {
                (Ok(v), Ok(v2)) => v@ == v2,
                (Err(s), Err(s2)) => s@ == s2,
                _ => false,
            }
        }),
{
    proof {
        lemma_std_names_distinct();
    }
    std_binary("add", ArithOp::Add, args, oracle)
}

/// Subtracts the second number from the first; the built-in behind
/// `subtract`.
pub fn std_num_subtract(args: Vec<Value>, oracle: &mut Oracle) -> (r: Result<Value, Stop>)
    requires
        old(oracle).wf(),
    ensures
        final(oracle).wf(),
        final(oracle).answers() == old(oracle).answers(),
        ({
            let (pos2, r2) = std_call_spec(
                old(oracle).answers(),
                old(oracle).pos(),
                "subtract"@,
                args@.map(|i: int, v: Value| v@),
            );
            final(oracle).pos() == pos2 && match (r, r2) {
                (Ok(v), Ok(v2)) => v@ == v2,
                (Err(s), Err(s2)) => s@ == s2,
                _ => false,
            }
        }),
{
    proof {
        lemma_std_names_distinct();
    }
    std_binary("subtract", ArithOp::Subtract, args, oracle)
}

/// Multiplies two numbers; the built-in behind `multiply`.
pub fn std_num_multiply(args: Vec<Value>, oracle: &mut Oracle) -> (r: Result<Value, Stop>)
    requires
        old(oracle).wf(),
    ensures
        final(oracle).wf(),
        final(oracle).answers() == old(oracle).answers(),
        ({
            let (pos2, r2) = std_call_spec(
                old(oracle).answers(),
                old(oracle).pos(),
                "multiply"@,
                args@.map(|i: int, v: Value| v@),
            );
            final(oracle).pos() == pos2 && match (r, r2) {
                (Ok(v), Ok(v2)) => v@ == v2,
                (Err(s), Err(s2)) => s@ == s2,
                _ => false,
            }
        }),
{
    proof {
        lemma_std_names_distinct();
    }
    std_binary("multiply", ArithOp::Multiply, args, oracle)
}

/// Divides the first number by the second. A divisor whose bits are an
/// IEEE-754 zero of either sign is a domain error; no request is made for
/// it, so the result is never an infinity.
pub fn std_num_divide(args: Vec<Value>, oracle: &mut Oracle) -> (r: Result<Value, Stop>)
    requires
        old(oracle).wf(),
    ensures
        final(oracle).wf(),
        final(oracle).answers() == old(oracle).answers(),
        ({
            let (pos2, r2) = std_call_spec(
                old(oracle).answers(),
                old(oracle).pos(),
                "divide"@,
                args@.map(|i: int, v: Value| v@),
            );
            final(oracle).pos() == pos2 && match (r, r2) {
                (Ok(v), Ok(v2)) => v@ == v2,
                (Err(s), Err(s2)) => s@ == s2,
                _ => false,
            }
        }),
{
    proof {
        lemma_std_names_distinct();
    }
    std_binary("divide", ArithOp::Divide, args, oracle)
}

/// The square root of one number. A strictly negative argument is a domain
/// error; no request is made for it.
pub fn std_num_sqrt(args: Vec<Value>, oracle: &mut Oracle) -> (r: Result<Value, Stop>)
    requires
        old(oracle).wf(),
    ensures
        final(oracle).wf(),
        final(oracle).answers() == old(oracle).answers(),
        ({
            let (pos2, r2) = std_call_spec(
                old(oracle).answers(),
                old(oracle).pos(),
                "sqrt"@,
                args@.map(|i: int, v: Value| v@),
            );
            final(oracle).pos() == pos2 && match (r, r2) {
                (Ok(v), Ok(v2)) => v@ == v2,
                (Err(s), Err(s2)) => s@ == s2,
                _ => false,
            }
        }),
{
    proof {
        lemma_std_names_distinct();
    }
    std_unary("sqrt", UnaryOp::Sqrt, args, oracle)
}

/// The sine of one number, through the embedder.
pub fn std_math_sin(args: Vec<Value>, oracle: &mut Oracle) -> (r: Result<Value, Stop>)
    requires
        old(oracle).wf(),
    ensures
        final(oracle).wf(),
        final(oracle).answers() == old(oracle).answers(),
        ({
            let (pos2, r2) = std_unary_spec(
                old(oracle).answers(),
                old(oracle).pos(),
                "sin"@,
                UnaryOp::Sin,
                args@.map(|i: int, v: Value| v@),
            );
            final(oracle).pos() == pos2 && match (r, r2) {
                (Ok(v), Ok(v2)) => v@ == v2,
                (Err(s), Err(s2)) => s@ == s2,
                _ => false,
            }
        }),
{
    proof {
        reveal_strlit("sin");
    }
    std_unary("sin", UnaryOp::Sin, args, oracle)
}

/// The cosine of one number, through the embedder.
pub fn std_math_cos(args: Vec<Value>, oracle: &mut Oracle) -> (r: Result<Value, Stop>)
    requires
        old(oracle).wf(),
    ensures
        final(oracle).wf(),
        final(oracle).answers() == old(oracle).answers(),
        ({
            let (pos2, r2) = std_unary_spec(
                old(oracle).answers(),
                old(oracle).pos(),
                "cos"@,
                UnaryOp::Cos,
                args@.map(|i: int, v: Value| v@),
            );
            final(oracle).pos() == pos2 && match (r, r2) {
                (Ok(v), Ok(v2)) => v@ == v2,
                (Err(s), Err(s2)) => s@ == s2,
                _ => false,
            }
        }),
{
    proof {
        reveal_strlit("cos");
    }
    std_unary("cos", UnaryOp::Cos, args, oracle)
}

/// Selects the second or third argument by the first: a pure built-in that
/// needs nothing from the embedder.
pub fn std_control_if(args: Vec<Value>) -> (r: Result<Value, EvalError>)
    ensures
        ({
            let a = args@.map(|i: int, v: Value| v@);
            match r {
                Ok(v) => a.len() == 3 && (a[0] matches ValueM::Boolean(c) && v@ == (if c {
                    a[1]
                } else {
                    a[2]
                })),
                Err(e) => (a.len() != 3 && e@ == ErrM::BuiltinArity { name: "if"@, arity: 3 }) || (
                a.len() == 3 && !(a[0] is Boolean) && e@ == ErrM::BuiltinType {
                    name: "if"@,
                    unary: true,
                }),
            }
        }),
{
    proof {
        reveal_strlit("if");
    }
    if args.len() != 3 {
        return Err(EvalError::BuiltinArity { name: "if".to_owned(), arity: 3 });
    }
    match &args[0] {
        Value::Boolean(b) => {
            if *b {
                Ok(args[1].clone())
            } else {
                Ok(args[2].clone())
            }
        },
        _ => Err(EvalError::BuiltinType { name: "if".to_owned(), unary: true }),
    }
}

/// What converting one value to its text does: a number's rendering comes
/// from the embedder, the other printable values convert directly.
pub open spec fn to_string_spec(ans: Seq<AnsM>, pos: int, args: Seq<ValueM>) -> (int, Result<
    ValueM,
    StopM,
>) {
    if args.len() != 1 {
        (pos, Err(StopM::Error(ErrM::BuiltinArity { name: "to_string"@, arity: 1 })))
    } else {
        match args[0] {
            ValueM::Number(n) => {
                if pos < ans.len() {
                    match ans[pos] {
                        AnsM::Text(t) => (pos + 1, Ok(ValueM::Str(t))),
                        _ => (pos + 1, Err(StopM::Error(ErrM::BadAnswer))),
                    }
                } else {
                    (pos, Err(StopM::Pending(ReqM::FormatNumber(n))))
                }
            },
            ValueM::Boolean(b) => (
                pos,
                Ok(ValueM::Str(if b {
                    "true"@
                } else {
                    "false"@
                })),
            ),
            ValueM::Str(s) => (pos, Ok(ValueM::Str(s))),
            ValueM::Nun => (pos, Ok(ValueM::Str("nun"@))),
            _ => (pos, Err(StopM::Error(ErrM::CannotConvertToString))),
        }
    }
}

/// Converts one value to its text: `to_string` of the original built-in set.
pub fn std_convert_to_string(args: Vec<Value>, oracle: &mut Oracle) -> (r: Result<Value, Stop>)
    requires
        old(oracle).wf(),
    ensures
        final(oracle).wf(),
        final(oracle).answers() == old(oracle).answers(),
        ({
            let (pos2, r2) = to_string_spec(
                old(oracle).answers(),
                old(oracle).pos(),
                args@.map(|i: int, v: Value| v@),
            );
            final(oracle).pos() == pos2 && match (r, r2) {
                (Ok(v), Ok(v2)) => v@ == v2,
                (Err(s), Err(s2)) => s@ == s2,
                _ => false,
            }
        }),
{
    proof {
        reveal_strlit("to_string");
        reveal_strlit("true");
        reveal_strlit("false");
        reveal_strlit("nun");
    }
    if args.len() != 1 {
        return Err(
            Stop::Error(EvalError::BuiltinArity { name: "to_string".to_owned(), arity: 1 }),
        );
    }
    match &args[0] {
        Value::Number(n) => {
            match oracle.next(ExtRequest::FormatNumber(*n)) {
                Ok(ExtAnswer::Text(t)) => Ok(Value::String(t)),
                Ok(_) => Err(Stop::Error(EvalError::BadAnswer)),
                Err(s) => Err(s),
            }
        },
        Value::Boolean(b) => {
            if *b {
                Ok(Value::String("true".to_owned()))
            } else {
                Ok(Value::String("false".to_owned()))
            }
        },
        Value::String(s) => Ok(Value::String(s.clone())),
        Value::Nun => Ok(Value::String("nun".to_owned())),
        _ => Err(Stop::Error(EvalError::CannotConvertToString)),
    }
}

/// What converting one value to a number does: a text's number, if any,
/// comes from the embedder; numbers convert to themselves.
pub open spec fn to_number_spec(ans: Seq<AnsM>, pos: int, args: Seq<ValueM>) -> (int, Result<
    ValueM,
    StopM,
>) {
    if args.len() != 1 {
        (pos, Err(StopM::Error(ErrM::BuiltinArity { name: "to_number"@, arity: 1 })))
    } else {
        match args[0] {
            ValueM::Str(s) => {
                if pos < ans.len() {
                    match ans[pos] {
                        AnsM::MaybeBits(Some(b)) => (pos + 1, Ok(ValueM::Number(b))),
                        AnsM::MaybeBits(None) => (
                            pos + 1,
                            Err(StopM::Error(ErrM::ConvertFailed)),
                        ),
                        _ => (pos + 1, Err(StopM::Error(ErrM::BadAnswer))),
                    }
                } else {
                    (pos, Err(StopM::Pending(ReqM::ConvertToNumber(s))))
                }
            },
            ValueM::Number(n) => (pos, Ok(ValueM::Number(n))),
            _ => (pos, Err(StopM::Error(ErrM::CannotConvertToNumber))),
        }
    }
}

/// Converts text to the number it denotes: `to_number` of the original
/// built-in set.
pub fn std_convert_to_number(args: Vec<Value>, oracle: &mut Oracle) -> (r: Result<Value, Stop>)
    requires
        old(oracle).wf(),
    ensures
        final(oracle).wf(),
        final(oracle).answers() == old(oracle).answers(),
        ({
            let (pos2, r2) = to_number_spec(
                old(oracle).answers(),
                old(oracle).pos(),
                args@.map(|i: int, v: Value| v@),
            );
            final(oracle).pos() == pos2 && match (r, r2) {
                (Ok(v), Ok(v2)) => v@ == v2,
                (Err(s), Err(s2)) => s@ == s2,
                _ => false,
            }
        }),
{
    proof {
        reveal_strlit("to_number");
    }
    if args.len() != 1 {
        return Err(
            Stop::Error(EvalError::BuiltinArity { name: "to_number".to_owned(), arity: 1 }),
        );
    }
    match &args[0] {
        Value::String(s) => {
            match oracle.next(ExtRequest::ConvertToNumber(s.clone())) {
                Ok(ExtAnswer::MaybeBits(Some(b))) => Ok(Value::Number(b)),
                Ok(ExtAnswer::MaybeBits(None)) => Err(Stop::Error(EvalError::ConvertFailed)),
                Ok(_) => Err(Stop::Error(EvalError::BadAnswer)),
                Err(s) => Err(s),
            }
        },
        Value::Number(n) => Ok(Value::Number(*n)),
        _ => Err(Stop::Error(EvalError::CannotConvertToNumber)),
    }
}

/// Whether `name` is in the built-in table.
pub fn is_builtin_name(name: &str) -> (r: bool)
    ensures
        r == is_std_builtin(name@),
{
    str_eq(name, "add") || str_eq(name, "subtract") || str_eq(name, "multiply") || str_eq(
        name,
        "divide",
    ) || str_eq(name, "sqrt")
}

/// Calls the built-in `name` names, or reports that the table has no such
/// entry.
pub fn call_std_function(
    name: &str,
    args: Vec<Value>,
    oracle: &mut Oracle,
) -> (r: Option<Result<Value, Stop>>)
    requires
        old(oracle).wf(),
    ensures
        final(oracle).wf(),
        final(oracle).answers() == old(oracle).answers(),
        (r is None) ==> !is_std_builtin(name@) && final(oracle).pos() == old(oracle).pos(),
        ({
            let (pos2, r2) = std_call_spec(
                old(oracle).answers(),
                old(oracle).pos(),
                name@,
                args@.map(|i: int, v: Value| v@),
            );
            match r {
                Some(rr) => is_std_builtin(name@) && final(oracle).pos() == pos2 && match (
                    rr,
                    r2,
                ) {
                    (Ok(v), Ok(v2)) => v@ == v2,
                    (Err(s), Err(s2)) => s@ == s2,
                    _ => false,
                },
                None => true,
            }
        }),
{
    proof {
        lemma_std_names_distinct();
    }
    if str_eq(name, "add") {
        Some(std_num_add(args, oracle))
    } else if str_eq(name, "subtract") {
        Some(std_num_subtract(args, oracle))
    } else if str_eq(name, "multiply") {
        Some(std_num_multiply(args, oracle))
    } else if str_eq(name, "divide") {
        Some(std_num_divide(args, oracle))
    } else if str_eq(name, "sqrt") {
        Some(std_num_sqrt(args, oracle))
    } else {
        None
    }
}

} // verus!
