use vstd::prelude::*;
use vstd::string::StringExecFns;
use crate::lexer::{lex_error_text, LexError};
use crate::parser::{parse_error_text, ParseErrM, ParseError};
use crate::util::{dec_digits, dec_string};

verus! {

/// Every way an evaluation can fail. Each variant carries the names it needs;
/// `message` renders the human-readable text.
#[derive(Debug, PartialEq)]
pub enum EvalError {
    Lex(LexError),
    Parse(ParseError),
    UndefinedVariable(String),
    AssignedReturn,
    UnexpectedReturn,
    ArityMismatch { expected: usize, got: usize },
    NotCallable,
    InvalidNativePath,
    InvalidNativePathIn(String),
    FeatherNotFound(String),
    FunctionNotFound { feather: String, function: String },
    FeatherFileNotFound(String),
    FeatherFileUnreadable(String),
    EmptyFunctionBody,
    NotNativeCallBody,
    LibraryLoadFailed { library: String, detail: String },
    SymbolNotFound { library: String, function: String, detail: String },
    NativeNull(String),
    BuiltinArity { name: String, arity: usize },
    BuiltinType { name: String, unary: bool },
    DivisionByZero,
    SqrtOfNegative,
    CannotConvertToString,
    CannotConvertToNumber,
    ConvertFailed,
    DepthExceeded,
    BadAnswer,
}

/// Mathematical image of an evaluation failure.
pub ghost enum ErrM {
    Lex(LexError),
    Parse(ParseErrM),
    UndefinedVariable(Seq<char>),
    AssignedReturn,
    UnexpectedReturn,
    ArityMismatch { expected: int, got: int },
    NotCallable,
    InvalidNativePath,
    InvalidNativePathIn(Seq<char>),
    FeatherNotFound(Seq<char>),
    FunctionNotFound { feather: Seq<char>, function: Seq<char> },
    FeatherFileNotFound(Seq<char>),
    FeatherFileUnreadable(Seq<char>),
    EmptyFunctionBody,
    NotNativeCallBody,
    LibraryLoadFailed { library: Seq<char>, detail: Seq<char> },
    SymbolNotFound { library: Seq<char>, function: Seq<char>, detail: Seq<char> },
    NativeNull(Seq<char>),
    BuiltinArity { name: Seq<char>, arity: int },
    BuiltinType { name: Seq<char>, unary: bool },
    DivisionByZero,
    SqrtOfNegative,
    CannotConvertToString,
    CannotConvertToNumber,
    ConvertFailed,
    DepthExceeded,
    BadAnswer,
}

impl View for EvalError {
    type V = ErrM;

    open spec fn view(&self) -> ErrM {
        match self {
            EvalError::Lex(e) => ErrM::Lex(*e),
            EvalError::Parse(e) => ErrM::Parse(e@),
            EvalError::UndefinedVariable(n) => ErrM::UndefinedVariable(n@),
            EvalError::AssignedReturn => ErrM::AssignedReturn,
            EvalError::UnexpectedReturn => ErrM::UnexpectedReturn,
            EvalError::ArityMismatch { expected, got } => ErrM::ArityMismatch {
                expected: *expected as int,
                got: *got as int,
            },
            EvalError::NotCallable => ErrM::NotCallable,
            EvalError::InvalidNativePath => ErrM::InvalidNativePath,
            EvalError::InvalidNativePathIn(p) => ErrM::InvalidNativePathIn(p@),
            EvalError::FeatherNotFound(n) => ErrM::FeatherNotFound(n@),
            EvalError::FunctionNotFound { feather, function } => ErrM::FunctionNotFound {
                feather: feather@,
                function: function@,
            },
            EvalError::FeatherFileNotFound(p) => ErrM::FeatherFileNotFound(p@),
            EvalError::FeatherFileUnreadable(d) => ErrM::FeatherFileUnreadable(d@),
            EvalError::EmptyFunctionBody => ErrM::EmptyFunctionBody,
            EvalError::NotNativeCallBody => ErrM::NotNativeCallBody,
            EvalError::LibraryLoadFailed { library, detail } => ErrM::LibraryLoadFailed {
                library: library@,
                detail: detail@,
            },
            EvalError::SymbolNotFound { library, function, detail } => ErrM::SymbolNotFound {
                library: library@,
                function: function@,
                detail: detail@,
            },
            EvalError::NativeNull(f) => ErrM::NativeNull(f@),
            EvalError::BuiltinArity { name, arity } => ErrM::BuiltinArity {
                name: name@,
                arity: *arity as int,
            },
            EvalError::BuiltinType { name, unary } => ErrM::BuiltinType {
                name: name@,
                unary: *unary,
            },
            EvalError::DivisionByZero => ErrM::DivisionByZero,
            EvalError::SqrtOfNegative => ErrM::SqrtOfNegative,
            EvalError::CannotConvertToString => ErrM::CannotConvertToString,
            EvalError::CannotConvertToNumber => ErrM::CannotConvertToNumber,
            EvalError::ConvertFailed => ErrM::ConvertFailed,
            EvalError::DepthExceeded => ErrM::DepthExceeded,
            EvalError::BadAnswer => ErrM::BadAnswer,
        }
    }
}

/// The text `EvalError::message` renders for each failure.
pub open spec fn error_text(e: ErrM) -> Seq<char> {
    match e {
        ErrM::Lex(le) => lex_error_text(le),
        ErrM::Parse(pe) => parse_error_text(pe),
        ErrM::UndefinedVariable(n) => "Undefined variable '"@ + n + "'."@,
        ErrM::AssignedReturn => "Cannot assign a return value"@,
        ErrM::UnexpectedReturn => "Unexpected return"@,
        ErrM::ArityMismatch { expected, got } => "Expected "@ + dec_digits(expected as nat)
            + " arguments but got "@ + dec_digits(got as nat) + "."@,
        ErrM::NotCallable => "Can only call functions."@,
        ErrM::InvalidNativePath => "Invalid Rust function path"@,
        ErrM::InvalidNativePathIn(p) => "Invalid Rust function path: "@ + p,
        ErrM::FeatherNotFound(n) => "Feather '"@ + n + "' not found"@,
        ErrM::FunctionNotFound { feather, function } => "Function '"@ + function
            + "' not found in feather '"@ + feather + "'"@,
        ErrM::FeatherFileNotFound(p) => "Could not find Feather file: "@ + p,
        ErrM::FeatherFileUnreadable(d) => "Failed to read file: "@ + d,
        ErrM::EmptyFunctionBody => "Function body is empty"@,
        ErrM::NotNativeCallBody => "Function body does not contain a Rust function call"@,
        ErrM::LibraryLoadFailed { library, detail } => "Failed to load library '"@ + library
            + "': "@ + detail,
        ErrM::SymbolNotFound { library, function, detail } => "Failed to load function '"@
            + function + "' from library '"@ + library + "': "@ + detail,
        ErrM::NativeNull(f) => "Rust function '"@ + f + "' returned null"@,
        ErrM::BuiltinArity { name, arity } => name + " function expects "@ + dec_digits(
            arity as nat,
        ) + (if arity == 1 {
            " argument"@
        } else {
            " arguments"@
        }),
        ErrM::BuiltinType { name, unary } => name + (if unary {
            " function expects a number argument"@
        } else {
            " function expects number arguments"@
        }),
        ErrM::DivisionByZero => "division by zero"@,
        ErrM::SqrtOfNegative => "cannot compute square root of negative number"@,
        ErrM::CannotConvertToString => "to_string function cannot convert this type"@,
        ErrM::CannotConvertToNumber => "to_number function can only convert strings or numbers"@,
        ErrM::ConvertFailed => "Failed to convert string to number"@,
        ErrM::DepthExceeded => "Function call depth limit exceeded"@,
        ErrM::BadAnswer => "The embedder answered a request with the wrong kind of value"@,
    }
}

impl Clone for EvalError {
    fn clone(&self) -> (r: EvalError)
        ensures
            r@ == self@,
    {
        match self {
            EvalError::Lex(le) => {
                let kind = match &le.kind {
                    crate::lexer::LexErrorKind::UnexpectedChar(c) =>
                        crate::lexer::LexErrorKind::UnexpectedChar(*c),
                    crate::lexer::LexErrorKind::UnterminatedString =>
                        crate::lexer::LexErrorKind::UnterminatedString,
                    crate::lexer::LexErrorKind::MultipleDecimalPoints =>
                        crate::lexer::LexErrorKind::MultipleDecimalPoints,
                };
                EvalError::Lex(LexError { line: le.line, column: le.column, kind })
            },
            EvalError::Parse(pe) => EvalError::Parse(
                ParseError {
                    line: pe.line,
                    column: pe.column,
                    at: match &pe.at {
                        Some(s) => Some(s.clone()),
                        None => None,
                    },
                    reason: pe.reason.clone(),
                },
            ),
            EvalError::UndefinedVariable(n) => EvalError::UndefinedVariable(n.clone()),
            EvalError::AssignedReturn => EvalError::AssignedReturn,
            EvalError::UnexpectedReturn => EvalError::UnexpectedReturn,
            EvalError::ArityMismatch { expected, got } => EvalError::ArityMismatch {
                expected: *expected,
                got: *got,
            },
            EvalError::NotCallable => EvalError::NotCallable,
            EvalError::InvalidNativePath => EvalError::InvalidNativePath,
            EvalError::InvalidNativePathIn(p) => EvalError::InvalidNativePathIn(p.clone()),
            EvalError::FeatherNotFound(n) => EvalError::FeatherNotFound(n.clone()),
            EvalError::FunctionNotFound { feather, function } => EvalError::FunctionNotFound {
                feather: feather.clone(),
                function: function.clone(),
            },
            EvalError::FeatherFileNotFound(p) => EvalError::FeatherFileNotFound(p.clone()),
            EvalError::FeatherFileUnreadable(d) => EvalError::FeatherFileUnreadable(d.clone()),
            EvalError::EmptyFunctionBody => EvalError::EmptyFunctionBody,
            EvalError::NotNativeCallBody => EvalError::NotNativeCallBody,
            EvalError::LibraryLoadFailed { library, detail } => EvalError::LibraryLoadFailed {
                library: library.clone(),
                detail: detail.clone(),
            },
            EvalError::SymbolNotFound { library, function, detail } => EvalError::SymbolNotFound {
                library: library.clone(),
                function: function.clone(),
                detail: detail.clone(),
            },
            EvalError::NativeNull(f) => EvalError::NativeNull(f.clone()),
            EvalError::BuiltinArity { name, arity } => EvalError::BuiltinArity {
                name: name.clone(),
                arity: *arity,
            },
            EvalError::BuiltinType { name, unary } => EvalError::BuiltinType {
                name: name.clone(),
                unary: *unary,
            },
            EvalError::DivisionByZero => EvalError::DivisionByZero,
            EvalError::SqrtOfNegative => EvalError::SqrtOfNegative,
            EvalError::CannotConvertToString => EvalError::CannotConvertToString,
            EvalError::CannotConvertToNumber => EvalError::CannotConvertToNumber,
            EvalError::ConvertFailed => EvalError::ConvertFailed,
            EvalError::DepthExceeded => EvalError::DepthExceeded,
            EvalError::BadAnswer => EvalError::BadAnswer,
        }
    }
}

impl EvalError {
    /// The failure as the human-readable text the engine reports.
    pub fn message(&self) -> (r: String)
        ensures
            r@ == error_text(self@),
    {
        match self {
            EvalError::Lex(e) => e.message(),
            EvalError::Parse(e) => e.message(),
            EvalError::UndefinedVariable(n) => {
                proof {
                    reveal_strlit("Undefined variable '");
                    reveal_strlit("'.");
                }
                let mut s = "Undefined variable '".to_owned();
                s.append(n.as_str());
                s.append("'.");
                proof {
                    assert(s@ =~= error_text(self@));
                }
                s
            },
            EvalError::AssignedReturn => {
                proof {
                    reveal_strlit("Cannot assign a return value");
                }
                "Cannot assign a return value".to_owned()
            },
            EvalError::UnexpectedReturn => {
                proof {
                    reveal_strlit("Unexpected return");
                }
                "Unexpected return".to_owned()
            },
            EvalError::ArityMismatch { expected, got } => {
                proof {
                    reveal_strlit("Expected ");
                    reveal_strlit(" arguments but got ");
                    reveal_strlit(".");
                }
                let mut s = "Expected ".to_owned();
                s.append(dec_string(*expected).as_str());
                s.append(" arguments but got ");
                s.append(dec_string(*got).as_str());
                s.append(".");
                proof {
                    assert(s@ =~= error_text(self@));
                }
                s
            },
            EvalError::NotCallable => {
                proof {
                    reveal_strlit("Can only call functions.");
                }
                "Can only call functions.".to_owned()
            },
            EvalError::InvalidNativePath => {
                proof {
                    reveal_strlit("Invalid Rust function path");
                }
                "Invalid Rust function path".to_owned()
            },
            EvalError::InvalidNativePathIn(p) => {
                proof {
                    reveal_strlit("Invalid Rust function path: ");
                }
                let mut s = "Invalid Rust function path: ".to_owned();
                s.append(p.as_str());
                proof {
                    assert(s@ =~= error_text(self@));
                }
                s
            },
            EvalError::FeatherNotFound(n) => {
                proof {
                    reveal_strlit("Feather '");
                    reveal_strlit("' not found");
                }
                let mut s = "Feather '".to_owned();
                s.append(n.as_str());
                s.append("' not found");
                proof {
                    assert(s@ =~= error_text(self@));
                }
                s
            },
            EvalError::FunctionNotFound { feather, function } => {
                proof {
                    reveal_strlit("Function '");
                    reveal_strlit("' not found in feather '");
                    reveal_strlit("'");
                }
                let mut s = "Function '".to_owned();
                s.append(function.as_str());
                s.append("' not found in feather '");
                s.append(feather.as_str());
                s.append("'");
                proof {
                    assert(s@ =~= error_text(self@));
                }
                s
            },
            EvalError::FeatherFileNotFound(p) => {
                proof {
                    reveal_strlit("Could not find Feather file: ");
                }
                let mut s = "Could not find Feather file: ".to_owned();
                s.append(p.as_str());
                proof {
                    assert(s@ =~= error_text(self@));
                }
                s
            },
            EvalError::FeatherFileUnreadable(d) => {
                proof {
                    reveal_strlit("Failed to read file: ");
                }
                let mut s = "Failed to read file: ".to_owned();
                s.append(d.as_str());
                proof {
                    assert(s@ =~= error_text(self@));
                }
                s
            },
            EvalError::EmptyFunctionBody => {
                proof {
                    reveal_strlit("Function body is empty");
                }
                "Function body is empty".to_owned()
            },
            EvalError::NotNativeCallBody => {
                proof {
                    reveal_strlit("Function body does not contain a Rust function call");
                }
                "Function body does not contain a Rust function call".to_owned()
            },
            EvalError::LibraryLoadFailed { library, detail } => {
                proof {
                    reveal_strlit("Failed to load library '");
                    reveal_strlit("': ");
                }
                let mut s = "Failed to load library '".to_owned();
                s.append(library.as_str());
                s.append("': ");
                s.append(detail.as_str());
                proof {
                    assert(s@ =~= error_text(self@));
                }
                s
            },
            EvalError::SymbolNotFound { library, function, detail } => {
                proof {
                    reveal_strlit("Failed to load function '");
                    reveal_strlit("' from library '");
                    reveal_strlit("': ");
                }
                let mut s = "Failed to load function '".to_owned();
                s.append(function.as_str());
                s.append("' from library '");
                s.append(library.as_str());
                s.append("': ");
                s.append(detail.as_str());
                proof {
                    assert(s@ =~= error_text(self@));
                }
                s
            },
            EvalError::NativeNull(f) => {
                proof {
                    reveal_strlit("Rust function '");
                    reveal_strlit("' returned null");
                }
                let mut s = "Rust function '".to_owned();
                s.append(f.as_str());
                s.append("' returned null");
                proof {
                    assert(s@ =~= error_text(self@));
                }
                s
            },
            EvalError::BuiltinArity { name, arity } => {
                proof {
                    reveal_strlit(" function expects ");
                    reveal_strlit(" argument");
                    reveal_strlit(" arguments");
                }
                let mut s = name.clone();
                s.append(" function expects ");
                s.append(dec_string(*arity).as_str());
                if *arity == 1 {
                    s.append(" argument");
                } else {
                    s.append(" arguments");
                }
                proof {
                    assert(s@ =~= error_text(self@));
                }
                s
            },
            EvalError::BuiltinType { name, unary } => {
                proof {
                    reveal_strlit(" function expects a number argument");
                    reveal_strlit(" function expects number arguments");
                }
                let mut s = name.clone();
                if *unary {
                    s.append(" function expects a number argument");
                } else {
                    s.append(" function expects number arguments");
                }
                proof {
                    assert(s@ =~= error_text(self@));
                }
                s
            },
            EvalError::DivisionByZero => {
                proof {
                    reveal_strlit("division by zero");
                }
                "division by zero".to_owned()
            },
            EvalError::SqrtOfNegative => {
                proof {
                    reveal_strlit("cannot compute square root of negative number");
                }
                "cannot compute square root of negative number".to_owned()
            },
            EvalError::CannotConvertToString => {
                proof {
                    reveal_strlit("to_string function cannot convert this type");
                }
                "to_string function cannot convert this type".to_owned()
            },
            EvalError::CannotConvertToNumber => {
                proof {
                    reveal_strlit("to_number function can only convert strings or numbers");
                }
                "to_number function can only convert strings or numbers".to_owned()
            },
            EvalError::ConvertFailed => {
                proof {
                    reveal_strlit("Failed to convert string to number");
                }
                "Failed to convert string to number".to_owned()
            },
            EvalError::DepthExceeded => {
                proof {
                    reveal_strlit("Function call depth limit exceeded");
                }
                "Function call depth limit exceeded".to_owned()
            },
            EvalError::BadAnswer => {
                proof {
                    reveal_strlit("The embedder answered a request with the wrong kind of value");
                }
                "The embedder answered a request with the wrong kind of value".to_owned()
            },
        }
    }
}

} // verus!
