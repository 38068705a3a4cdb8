use pelin::feather::FeatherManager;
use pelin::interpreter::{EnvArena, Environment, Interpreter, InterpretResult, Value};
use pelin::lexer::Lexer;
use pelin::oracle::{ExtAnswer, Oracle, RunOutcome, Stop};
use pelin::parser::{Expr, Parser};
use pelin::std_functions::{
    std_control_if, std_convert_to_number, std_convert_to_string, std_math_cos, std_math_sin,
    std_num_add, std_num_divide, std_num_multiply, std_num_sqrt, std_num_subtract,
};

fn num(x: f64) -> Value {
    Value::Number(x.to_bits())
}

/// Runs a built-in that needs one arithmetic answer, supplying it the way
/// the host would.
fn run_binary(
    f: fn(Vec<Value>, &mut Oracle) -> Result<Value, Stop>,
    a: f64,
    b: f64,
    compute: fn(f64, f64) -> f64,
) -> Result<Value, String> {
    let mut oracle = Oracle::new(vec![]);
    match f(vec![num(a), num(b)], &mut oracle) {
        Ok(v) => return Ok(v),
        Err(Stop::Error(e)) => return Err(e.message()),
        Err(Stop::Pending(_)) => {}
    }
    let mut oracle = Oracle::new(vec![ExtAnswer::Bits(compute(a, b).to_bits())]);
    match f(vec![num(a), num(b)], &mut oracle) {
        Ok(v) => Ok(v),
        Err(Stop::Error(e)) => Err(e.message()),
        Err(Stop::Pending(_)) => panic!("one answer must be enough"),
    }
}

#[test]
fn test_environment_define_shadows_and_get() {
    let mut env = Environment::new();
    env.define("x".to_string(), num(1.0));
    env.define("y".to_string(), Value::Boolean(true));
    env.define("x".to_string(), num(2.0));
    assert_eq!(env.get("x"), Some(num(2.0)));
    assert_eq!(env.get("y"), Some(Value::Boolean(true)));
    assert_eq!(env.get("z"), None);
}

#[test]
fn test_env_arena_lookup_walks_to_enclosing_frame() {
    let mut arena = EnvArena::new();
    arena.define(0, "x".to_string(), num(5.0));
    let child = arena.push_frame(0);
    assert_eq!(arena.get(child, "x"), Some(num(5.0)));
    arena.define(child, "x".to_string(), num(7.0));
    assert_eq!(arena.get(child, "x"), Some(num(7.0)));
    assert_eq!(arena.get(0, "x"), Some(num(5.0)));
}

#[test]
fn test_env_arena_assign_mutates_owning_frame() {
    let mut arena = EnvArena::new();
    arena.define(0, "x".to_string(), num(5.0));
    let child = arena.push_frame(0);
    assert!(arena.assign(child, "x", num(9.0)));
    assert_eq!(arena.get(0, "x"), Some(num(9.0)));
    assert!(!arena.assign(child, "unbound", num(1.0)));
}

#[test]
fn test_interpret_single_expression() {
    let fm = FeatherManager::new(".".to_string());
    let mut interpreter = Interpreter::new(fm, vec![ExtAnswer::Bits(7.0f64.to_bits())]);
    let r = interpreter.interpret(&Expr::Number("7".to_string()));
    assert_eq!(r, Ok(InterpretResult::Value(num(7.0))));
}

#[test]
fn test_std_num_add_exact() {
    assert_eq!(run_binary(std_num_add, 5.0, 3.0, |a, b| a + b), Ok(num(8.0)));
}

#[test]
fn test_std_num_subtract_exact() {
    assert_eq!(run_binary(std_num_subtract, 10.0, 4.5, |a, b| a - b), Ok(num(5.5)));
}

#[test]
fn test_std_num_multiply_exact() {
    assert_eq!(run_binary(std_num_multiply, 1.5, 4.0, |a, b| a * b), Ok(num(6.0)));
}

#[test]
fn test_std_num_divide_by_negative_zero_is_domain_error() {
    assert_eq!(
        run_binary(std_num_divide, 5.0, -0.0, |a, b| a / b),
        Err("division by zero".to_string())
    );
}

#[test]
fn test_std_num_add_wrong_arity() {
    let mut oracle = Oracle::new(vec![]);
    match std_num_add(vec![num(1.0)], &mut oracle) {
        Err(Stop::Error(e)) => assert_eq!(e.message(), "add function expects 2 arguments"),
        _ => panic!("expected the arity error"),
    }
}

#[test]
fn test_std_num_add_wrong_type() {
    let mut oracle = Oracle::new(vec![]);
    match std_num_add(vec![Value::Boolean(true), num(1.0)], &mut oracle) {
        Err(Stop::Error(e)) => assert_eq!(e.message(), "add function expects number arguments"),
        _ => panic!("expected the type error"),
    }
}

#[test]
fn test_std_num_sqrt_exact() {
    let mut oracle = Oracle::new(vec![ExtAnswer::Bits(16.0f64.sqrt().to_bits())]);
    assert_eq!(std_num_sqrt(vec![num(16.0)], &mut oracle), Ok(num(4.0)));
}

#[test]
fn test_std_num_sqrt_negative_is_domain_error() {
    let mut oracle = Oracle::new(vec![]);
    match std_num_sqrt(vec![num(-4.0)], &mut oracle) {
        Err(Stop::Error(e)) => {
            assert_eq!(e.message(), "cannot compute square root of negative number")
        }
        _ => panic!("expected the domain error"),
    }
}

#[test]
fn test_std_math_sin_cos() {
    let mut oracle = Oracle::new(vec![ExtAnswer::Bits(0.0f64.sin().to_bits())]);
    assert_eq!(std_math_sin(vec![num(0.0)], &mut oracle), Ok(num(0.0)));
    let mut oracle = Oracle::new(vec![ExtAnswer::Bits(0.0f64.cos().to_bits())]);
    assert_eq!(std_math_cos(vec![num(0.0)], &mut oracle), Ok(num(1.0)));
}

#[test]
fn test_std_control_if_selects() {
    assert_eq!(
        std_control_if(vec![Value::Boolean(true), num(1.0), num(2.0)]),
        Ok(num(1.0))
    );
    assert_eq!(
        std_control_if(vec![Value::Boolean(false), num(1.0), num(2.0)]),
        Ok(num(2.0))
    );
}

#[test]
fn test_std_convert_to_string_of_boolean_and_nun() {
    let mut oracle = Oracle::new(vec![]);
    assert_eq!(
        std_convert_to_string(vec![Value::Boolean(true)], &mut oracle),
        Ok(Value::String("true".to_string()))
    );
    let mut oracle = Oracle::new(vec![]);
    assert_eq!(
        std_convert_to_string(vec![Value::Nun], &mut oracle),
        Ok(Value::String("nun".to_string()))
    );
}

#[test]
fn test_std_convert_to_string_of_number() {
    let mut oracle = Oracle::new(vec![ExtAnswer::Text(2.5f64.to_string())]);
    assert_eq!(
        std_convert_to_string(vec![num(2.5)], &mut oracle),
        Ok(Value::String("2.5".to_string()))
    );
}

#[test]
fn test_std_convert_to_number_of_text() {
    let mut oracle = Oracle::new(vec![ExtAnswer::MaybeBits(Some(3.5f64.to_bits()))]);
    assert_eq!(
        std_convert_to_number(vec![Value::String("3.5".to_string())], &mut oracle),
        Ok(num(3.5))
    );
}

#[test]
fn test_std_convert_to_number_of_garbage_fails() {
    let mut oracle = Oracle::new(vec![ExtAnswer::MaybeBits(None)]);
    match std_convert_to_number(vec![Value::String("pelican".to_string())], &mut oracle) {
        Err(Stop::Error(e)) => {
            assert_eq!(e.message(), "Failed to convert string to number")
        }
        _ => panic!("expected the conversion error"),
    }
}

#[test]
fn test_call_depth_is_bounded_and_configurable() {
    let input = "
        fn num loop_forever(num x) { return loop_forever(x) }
        loop_forever(true)
    ";
    let mut lexer = Lexer::new(input);
    let tokens = lexer.tokenize().unwrap();
    let mut parser = Parser::new(tokens);
    let expressions = parser.parse().unwrap();

    let fm = FeatherManager::new(".".to_string());
    let mut interpreter = Interpreter::with_call_depth(fm, vec![], 8);
    match interpreter.interpret_program(&expressions) {
        RunOutcome::Finished(Err(e)) => {
            assert_eq!(e.message(), "Function call depth limit exceeded")
        }
        _ => panic!("expected the depth error"),
    }
}
