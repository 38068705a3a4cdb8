use pelin::feather::FeatherManager;
use pelin::oracle::FeatherSource;
use pelin::interpreter::{Interpreter, Value};
use pelin::lexer::Lexer;
use pelin::oracle::{ArithOp, ExtAnswer, ExtRequest, NativeOutcome, RunOutcome, UnaryOp};
use pelin::parser::Parser;

/// Answers one request the way the embedding host would: real IEEE-754
/// arithmetic, and module files served from the given table of full paths.
fn answer(req: ExtRequest, files: &[(&str, &str)]) -> ExtAnswer {
    match req {
        ExtRequest::ParseNumber(t) => ExtAnswer::Bits(t.parse::<f64>().unwrap().to_bits()),
        ExtRequest::Arith(op, a, b) => {
            let (x, y) = (f64::from_bits(a), f64::from_bits(b));
            let r = match op {
                ArithOp::Add => x + y,
                ArithOp::Subtract => x - y,
                ArithOp::Multiply => x * y,
                ArithOp::Divide => x / y,
            };
            ExtAnswer::Bits(r.to_bits())
        }
        ExtRequest::Unary(op, a) => {
            let x = f64::from_bits(a);
            let r = match op {
                UnaryOp::Sqrt => x.sqrt(),
                UnaryOp::Sin => x.sin(),
                UnaryOp::Cos => x.cos(),
            };
            ExtAnswer::Bits(r.to_bits())
        }
        ExtRequest::FormatNumber(a) => ExtAnswer::Text(f64::from_bits(a).to_string()),
        ExtRequest::ConvertToNumber(t) => {
            ExtAnswer::MaybeBits(t.parse::<f64>().ok().map(|v| v.to_bits()))
        }
        ExtRequest::ImportFeather { name: _, path } => {
            match files.iter().find(|(p, _)| *p == path) {
                Some((_, content)) => ExtAnswer::Feather(FeatherManager::parse_feather(content)),
                None => ExtAnswer::Feather(FeatherSource::Missing),
            }
        }
        ExtRequest::LoadLibrary { .. } => {
            ExtAnswer::Load(Err("no native libraries in tests".to_string()))
        }
        ExtRequest::CallNative { .. } => ExtAnswer::Native(NativeOutcome::NullResult),
    }
}

fn interpret_with(input: &str, root: &str, files: &[(&str, &str)]) -> Result<Value, String> {
    let mut lexer = Lexer::new(input);
    let tokens = lexer.tokenize().map_err(|e| e.message())?;
    let mut parser = Parser::new(tokens);
    let expressions = parser.parse().map_err(|e| e.message())?;

    let mut answers: Vec<ExtAnswer> = Vec::new();
    loop {
        let feather_manager = FeatherManager::new(root.to_string());
        let mut interpreter = Interpreter::new(feather_manager, answers.clone());
        match interpreter.interpret_program(&expressions) {
            RunOutcome::Finished(Ok(v)) => return Ok(v),
            RunOutcome::Finished(Err(e)) => return Err(e.message()),
            RunOutcome::Pending(req) => answers.push(answer(req, files)),
        }
    }
}

const STD_MATH: &str = "fn num add(num a, num b) { NATIVE[std_func::add](a, b) }";

fn interpret(input: &str) -> Result<Value, String> {
    interpret_with(input, ".", &[("./feathers/std_math.pl", STD_MATH)])
}

fn num(x: f64) -> Value {
    Value::Number(x.to_bits())
}

#[test]
fn test_interpret_number() {
    assert_eq!(interpret("42"), Ok(num(42.0)));
}

#[test]
fn test_interpret_string() {
    assert_eq!(interpret("\"Hello, Pelikan!\""), Ok(Value::String("Hello, Pelikan!".to_string())));
}

#[test]
fn test_interpret_boolean() {
    assert_eq!(interpret("true"), Ok(Value::Boolean(true)));
    assert_eq!(interpret("false"), Ok(Value::Boolean(false)));
}

#[test]
fn test_interpret_nun() {
    assert_eq!(interpret("nun"), Ok(Value::Nun));
}

#[test]
fn test_interpret_function_definition_and_call() {
    let input = "
        fn num identity(num x) { return x }
        identity(5)
    ";
    assert_eq!(interpret(input), Ok(num(5.0)));
}

#[test]
fn test_interpret_nested_function_calls() {
    let input = "
        fn num add_one(num x) { return x }
        fn num multiply_by_two(num x) { return x }
        multiply_by_two(add_one(3))
    ";
    assert_eq!(interpret(input), Ok(num(3.0)));
}

#[test]
fn test_interpret_multiple_statements() {
    let input = "
        fn nun set_global(num x) { return x }
        set_global(10)
        set_global(20)
    ";
    assert_eq!(interpret(input), Ok(num(20.0)));
}

#[test]
fn test_interpret_function_with_multiple_parameters() {
    let input = "
        fn num sum_three(num a, num b, num c) { return a }
        sum_three(1, 2, 3)
    ";
    assert_eq!(interpret(input), Ok(num(1.0)));
}

#[test]
fn test_interpret_empty_function() {
    let input = "
        fn nun do_nothing() { }
        do_nothing()
    ";
    assert_eq!(interpret(input), Ok(Value::Nun));
}

#[test]
fn test_interpret_early_return() {
    let input = "
        fn num early_return(num x) {
            return x
            return 100
        }
        early_return(5)
    ";
    assert_eq!(interpret(input), Ok(num(5.0)));
}

#[test]
fn test_interpret_undefined_variable() {
    let input = "undefined_var";
    assert!(interpret(input).is_err());
}

#[test]
fn test_interpret_invalid_function_call() {
    let input = "42()";
    assert!(interpret(input).is_err());
}

#[test]
fn test_interpret_import() {
    let input = "imp std_math";
    assert_eq!(interpret(input), Ok(Value::Nun));
}

#[test]
fn test_interpret_rust_function_call() {
    let input = "NATIVE[std_func::add](5, 3)";
    assert_eq!(interpret(input), Ok(num(8.0)));
}

#[test]
fn test_interpret_feather_function() {
    let input = "
        imp std_math
        std_math.add(5, 3)
    ";
    assert_eq!(interpret(input), Ok(num(8.0)));
}

#[test]
fn test_interpret_builtin_subtract_multiply() {
    assert_eq!(interpret("NATIVE[std_func::subtract](10, 4)"), Ok(num(6.0)));
    assert_eq!(interpret("NATIVE[std_func::multiply](2.5, 4)"), Ok(num(10.0)));
}

#[test]
fn test_interpret_builtin_divide() {
    assert_eq!(interpret("NATIVE[std_func::divide](10, 4)"), Ok(num(2.5)));
}

#[test]
fn test_interpret_divide_by_zero_is_domain_error() {
    assert_eq!(
        interpret("NATIVE[std_func::divide](5, 0)"),
        Err("division by zero".to_string())
    );
}

#[test]
fn test_interpret_sqrt() {
    assert_eq!(interpret("NATIVE[std_func::sqrt](9)"), Ok(num(3.0)));
}

#[test]
fn test_interpret_sqrt_of_negative_is_domain_error() {
    assert_eq!(
        interpret("NATIVE[std_func::sqrt](NATIVE[std_func::subtract](0, 4))"),
        Err("cannot compute square root of negative number".to_string())
    );
}

#[test]
fn test_interpret_arity_mismatch_message() {
    let input = "
        fn num identity(num x) { return x }
        identity(5, 6)
    ";
    assert_eq!(interpret(input), Err("Expected 1 arguments but got 2.".to_string()));
}

#[test]
fn test_interpret_undefined_variable_message() {
    assert_eq!(
        interpret("undefined_var"),
        Err("Undefined variable 'undefined_var'.".to_string())
    );
}

#[test]
fn test_interpret_import_nonexistent_module() {
    assert_eq!(
        interpret("imp nonexistent"),
        Err("Could not find Feather file: ./feathers/nonexistent.pl".to_string())
    );
}

#[test]
fn test_interpret_top_level_return() {
    assert_eq!(interpret("return 5 100"), Ok(num(5.0)));
}

#[test]
fn test_interpret_closure_captures_definition_scope() {
    let input = "
        fn num make(num x) {
            fn num get() { return x }
            return get
        }
        fn num first_of(num p, num q) { return p() }
        first_of(make(5), make(6))
    ";
    assert_eq!(interpret(input), Ok(num(5.0)));
}

#[test]
fn test_interpret_unknown_builtin_reports_missing_feather() {
    assert_eq!(
        interpret("NATIVE[std_func::power](2, 10)"),
        Err("Feather 'std_func' not found".to_string())
    );
}
