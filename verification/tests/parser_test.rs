use pelin::lexer::Lexer;
use pelin::parser::{Expr, Parser, Type};

#[test]
fn test_parse_number() {
    let mut lexer = Lexer::new("42");
    let tokens = lexer.tokenize().unwrap();
    let mut parser = Parser::new(tokens);
    let expr = parser.parse().unwrap();
    assert_eq!(expr, vec![Expr::Number("42".to_string())]);
}

#[test]
fn test_parse_string() {
    let mut lexer = Lexer::new("\"Hello, Pelikan!\"");
    let tokens = lexer.tokenize().unwrap();
    let mut parser = Parser::new(tokens);
    let expr = parser.parse().unwrap();
    assert_eq!(expr, vec![Expr::String("Hello, Pelikan!".to_string())]);
}

#[test]
fn test_parse_identifier() {
    let mut lexer = Lexer::new("variable_name");
    let tokens = lexer.tokenize().unwrap();
    let mut parser = Parser::new(tokens);
    let expr = parser.parse().unwrap();
    assert_eq!(expr, vec![Expr::Identifier("variable_name".to_string())]);
}

#[test]
fn test_parse_function_call() {
    let mut lexer = Lexer::new("add(5, 3)");
    let tokens = lexer.tokenize().unwrap();
    let mut parser = Parser::new(tokens);
    let expr = parser.parse().unwrap();
    assert_eq!(
        expr,
        vec![Expr::FunctionCall {
            callee: Box::new(Expr::Identifier("add".to_string())),
            arguments: vec![Expr::Number("5".to_string()), Expr::Number("3".to_string())],
        }]
    );
}

#[test]
fn test_parse_function_definition() {
    let mut lexer = Lexer::new("fn num add(num a, num b) { return a }");
    let tokens = lexer.tokenize().unwrap();
    let mut parser = Parser::new(tokens);
    let expr = parser.parse().unwrap();
    assert_eq!(
        expr,
        vec![Expr::FunctionDefinition {
            return_type: Type::Num,
            name: "add".to_string(),
            parameters: vec![(Type::Num, "a".to_string()), (Type::Num, "b".to_string())],
            body: vec![Expr::Return(Box::new(Expr::Identifier("a".to_string())))],
        }]
    );
}

#[test]
fn test_parse_nested_function_calls() {
    let mut lexer = Lexer::new("outer(inner(42), another(true))");
    let tokens = lexer.tokenize().unwrap();
    let mut parser = Parser::new(tokens);
    let expr = parser.parse().unwrap();
    assert_eq!(
        expr,
        vec![Expr::FunctionCall {
            callee: Box::new(Expr::Identifier("outer".to_string())),
            arguments: vec![
                Expr::FunctionCall {
                    callee: Box::new(Expr::Identifier("inner".to_string())),
                    arguments: vec![Expr::Number("42".to_string())],
                },
                Expr::FunctionCall {
                    callee: Box::new(Expr::Identifier("another".to_string())),
                    arguments: vec![Expr::Boolean(true)],
                },
            ],
        }]
    );
}

#[test]
fn test_parse_return_statement() {
    let mut lexer = Lexer::new("return 42");
    let tokens = lexer.tokenize().unwrap();
    let mut parser = Parser::new(tokens);
    let expr = parser.parse().unwrap();
    assert_eq!(expr, vec![Expr::Return(Box::new(Expr::Number("42".to_string())))]);
}

#[test]
fn test_parse_empty_function() {
    let mut lexer = Lexer::new("fn nun empty() { }");
    let tokens = lexer.tokenize().unwrap();
    let mut parser = Parser::new(tokens);
    let expr = parser.parse().unwrap();
    assert_eq!(
        expr,
        vec![Expr::FunctionDefinition {
            return_type: Type::Nun,
            name: "empty".to_string(),
            parameters: vec![],
            body: vec![],
        }]
    );
}

#[test]
fn test_parse_import_statement() {
    let mut lexer = Lexer::new("imp std_num");
    let tokens = lexer.tokenize().unwrap();
    let mut parser = Parser::new(tokens);
    let expr = parser.parse().unwrap();
    assert_eq!(expr, vec![Expr::Import("std_num".to_string())]);
}

#[test]
fn test_parse_rust_function_call() {
    let mut lexer = Lexer::new("NATIVE[std::num::add](5, 3)");
    let tokens = lexer.tokenize().unwrap();
    let mut parser = Parser::new(tokens);
    let expr = parser.parse().unwrap();
    assert_eq!(
        expr,
        vec![Expr::RustFunctionCall {
            path: vec!["std".to_string(), "num".to_string(), "add".to_string()],
            arguments: vec![Expr::Number("5".to_string()), Expr::Number("3".to_string())],
        }]
    );
}

#[test]
fn test_parse_mixed_expressions() {
    let input = "
        imp std_num
        fn num add_and_multiply(num a, num b) {
            return NATIVE[std::num::multiply](NATIVE[std::num::add](a, b), 2)
        }
        add_and_multiply(3, 4)
    ";
    let mut lexer = Lexer::new(input);
    let tokens = lexer.tokenize().unwrap();
    let mut parser = Parser::new(tokens);
    let expr = parser.parse().unwrap();

    assert_eq!(expr.len(), 3);
    assert_eq!(expr[0], Expr::Import("std_num".to_string()));
    match &expr[1] {
        Expr::FunctionDefinition { return_type, name, parameters, body } => {
            assert_eq!(*return_type, Type::Num);
            assert_eq!(name, "add_and_multiply");
            assert_eq!(
                parameters,
                &vec![(Type::Num, "a".to_string()), (Type::Num, "b".to_string())]
            );
            assert_eq!(body.len(), 1);
        }
        _ => panic!("Expected FunctionDefinition"),
    }
}

#[test]
fn test_parse_feather_function_call() {
    let mut lexer = Lexer::new("std_math.add(5, 3)");
    let tokens = lexer.tokenize().unwrap();
    let mut parser = Parser::new(tokens);
    let expr = parser.parse().unwrap();
    assert_eq!(
        expr,
        vec![Expr::FeatherFunctionCall {
            feather: "std_math".to_string(),
            function: "add".to_string(),
            arguments: vec![Expr::Number("5".to_string()), Expr::Number("3".to_string())],
        }]
    );
}

#[test]
fn test_parse_unexpected_token() {
    let mut lexer = Lexer::new("fn 42");
    let tokens = lexer.tokenize().unwrap();
    let mut parser = Parser::new(tokens);
    assert!(parser.parse().is_err());
}

#[test]
fn test_parse_error_message_format() {
    let mut lexer = Lexer::new("imp 42");
    let tokens = lexer.tokenize().unwrap();
    let mut parser = Parser::new(tokens);
    let err = parser.parse().unwrap_err();
    assert_eq!(
        err.message(),
        "[line 1, column 5] Error at '42': Expected feather name after 'imp'"
    );
}
