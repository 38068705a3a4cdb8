use pelin::feather::FeatherManager;
use pelin::oracle::FeatherSource;
use pelin::interpreter::Value;
use pelin::oracle::{ArithOp, ExtAnswer, ExtRequest, Oracle, Stop, UnaryOp};

/// Answers arithmetic requests with real IEEE-754 arithmetic; module calls
/// through a manager never ask for anything else in these tests.
fn answer(req: ExtRequest) -> ExtAnswer {
    match req {
        ExtRequest::ParseNumber(t) => ExtAnswer::Bits(t.parse::<f64>().unwrap().to_bits()),
        ExtRequest::Arith(op, a, b) => {
            let (x, y) = (f64::from_bits(a), f64::from_bits(b));
            let r = match op {
                ArithOp::Add => x + y,
                ArithOp::Subtract => x - y,
                ArithOp::Multiply => x * y,
                ArithOp::Divide => x / y,
            };
            ExtAnswer::Bits(r.to_bits())
        }
        ExtRequest::Unary(op, a) => {
            let x = f64::from_bits(a);
            let r = match op {
                UnaryOp::Sqrt => x.sqrt(),
                UnaryOp::Sin => x.sin(),
                UnaryOp::Cos => x.cos(),
            };
            ExtAnswer::Bits(r.to_bits())
        }
        _ => panic!("unexpected request in this test"),
    }
}

/// Pumps `call_function` until the manager has every answer it needs.
fn call(
    manager: &mut FeatherManager,
    feather: &str,
    function: &str,
    args: Vec<Value>,
) -> Result<Value, String> {
    let mut answers: Vec<ExtAnswer> = Vec::new();
    loop {
        let mut oracle = Oracle::new(answers.clone());
        let args_again: Vec<Value> = args.clone();
        match manager.call_function(feather, function, args_again, &mut oracle) {
            Ok(v) => return Ok(v),
            Err(Stop::Error(e)) => return Err(e.message()),
            Err(Stop::Pending(req)) => answers.push(answer(req)),
        }
    }
}

#[test]
fn test_import_nonexistent_file() {
    let mut manager = FeatherManager::new("/tmp/test_project".to_string());
    assert!(manager.import("nonexistent", FeatherSource::Missing).is_err());
}

#[test]
fn test_feather_manager_creation() {
    let project_root = "/tmp/test_project".to_string();
    let manager = FeatherManager::new(project_root.clone());
    assert_eq!(manager.project_root, project_root);
    assert!(manager.feathers.is_empty());
    assert!(manager.loaded_libraries.is_empty());
}

#[test]
fn test_import_non_existent_feather() {
    let mut manager = FeatherManager::new("/tmp/test_project".to_string());
    let result = manager.import("non_existent_feather", FeatherSource::Missing);
    assert!(result.is_err());
    let expected_error = format!(
        "Could not find Feather file: {}",
        "/tmp/test_project/feathers/non_existent_feather.pl"
    );
    assert_eq!(result.unwrap_err().message(), expected_error);
}

#[test]
fn test_import_and_call_function() {
    let feather_content = "
    fn num add(num a, num b) {
        NATIVE[std_func::add](a, b)
    }
    ";
    let mut manager = FeatherManager::new("/tmp/test_project".to_string());
    let import_result = manager.import_source("test_math", feather_content);
    assert!(import_result.is_ok());

    let result = call(
        &mut manager,
        "test_math",
        "add",
        vec![Value::Number(2.0f64.to_bits()), Value::Number(3.0f64.to_bits())],
    );
    assert_eq!(result, Ok(Value::Number(5.0f64.to_bits())));
}

#[test]
fn test_call_non_existent_function() {
    let mut manager = FeatherManager::new("/tmp/test_project".to_string());
    let result = call(&mut manager, "test_math", "non_existent_function", vec![]);
    assert_eq!(result, Err("Feather 'test_math' not found".to_string()));
}

#[test]
fn test_call_function_missing_in_feather() {
    let mut manager = FeatherManager::new("/tmp/test_project".to_string());
    manager
        .import_source("m", "fn num f(num a) { NATIVE[std_func::add](a, a) }")
        .unwrap();
    let result = call(&mut manager, "m", "g", vec![]);
    assert_eq!(result, Err("Function 'g' not found in feather 'm'".to_string()));
}

#[test]
fn test_reimport_replaces_function_table() {
    let mut manager = FeatherManager::new("/tmp/test_project".to_string());
    manager
        .import_source("m", "fn num f(num a) { NATIVE[std_func::add](a, a) }")
        .unwrap();
    let two_fours = vec![Value::Number(4.0f64.to_bits()), Value::Number(4.0f64.to_bits())];
    let doubled = call(&mut manager, "m", "f", two_fours.clone());
    assert_eq!(doubled, Ok(Value::Number(8.0f64.to_bits())));

    manager
        .import_source("m", "fn num g(num a) { NATIVE[std_func::multiply](a, a) }")
        .unwrap();
    let gone = call(&mut manager, "m", "f", two_fours.clone());
    assert_eq!(gone, Err("Function 'f' not found in feather 'm'".to_string()));
    let squared = call(&mut manager, "m", "g", two_fours);
    assert_eq!(squared, Ok(Value::Number(16.0f64.to_bits())));
}

#[test]
fn test_import_source_with_bad_syntax() {
    let mut manager = FeatherManager::new("/tmp/test_project".to_string());
    assert!(manager.import_source("broken", "fn 42").is_err());
}

#[test]
fn test_feather_entry_with_plain_body_is_rejected_at_call() {
    let mut manager = FeatherManager::new("/tmp/test_project".to_string());
    manager.import_source("m", "fn num f(num a) { return a }").unwrap();
    let result = call(&mut manager, "m", "f", vec![Value::Number(1.0f64.to_bits())]);
    assert_eq!(
        result,
        Err("Function body does not contain a Rust function call".to_string())
    );
}

#[test]
fn test_feather_path_resolution() {
    let manager = FeatherManager::new("/root/proj".to_string());
    assert_eq!(manager.feather_path("std_math"), "/root/proj/feathers/std_math.pl");
    assert_eq!(manager.feather_path(".local_mod"), "/root/proj/local_mod.pl");
    assert_eq!(manager.library_path("mylib"), "/root/proj/rust_libs/libmylib.so");
}
