use vstd::prelude::*;
use vstd::string::StringExecFns;
use crate::lexer::{Token, TokenType, TokM};
use crate::util::dec_string;

verus! {

/// A declared type name. The language performs no static checking; these are
/// carried through function definitions unexamined.
#[derive(Debug, PartialEq)]
pub enum Type {
    Num,
    Str,
    Bool,
    Nun,
    Custom(String),
}

impl Clone for Type {
    fn clone(&self) -> (r: Type)
        ensures
            r == *self,
    {
        match self {
            Type::Num => Type::Num,
            Type::Str => Type::Str,
            Type::Bool => Type::Bool,
            Type::Nun => Type::Nun,
            Type::Custom(s) => Type::Custom(s.clone()),
        }
    }
}

/// Mathematical image of a declared type.
pub ghost enum TypeM {
    Num,
    Str,
    Bool,
    Nun,
    Custom(Seq<char>),
}

impl View for Type {
    type V = TypeM;

    open spec fn view(&self) -> TypeM {
        match self {
            Type::Num => TypeM::Num,
            Type::Str => TypeM::Str,
            Type::Bool => TypeM::Bool,
            Type::Nun => TypeM::Nun,
            Type::Custom(s) => TypeM::Custom(s@),
        }
    }
}

/// An expression or statement of the language. Numeric literals keep their
/// source text (see `TokenType::Number`).
#[derive(Debug, PartialEq)]
pub enum Expr {
    Number(String),
    String(String),
    Boolean(bool),
    Nun,
    Return(Box<Expr>),
    Identifier(String),
    FunctionCall { callee: Box<Expr>, arguments: Vec<Expr> },
    FunctionDefinition {
        return_type: Type,
        name: String,
        parameters: Vec<(Type, String)>,
        body: Vec<Expr>,
    },
    Assignment { name: String, value: Box<Expr> },
    Import(String),
    RustFunctionCall { path: Vec<String>, arguments: Vec<Expr> },
    FeatherFunctionCall { feather: String, function: String, arguments: Vec<Expr> },
}

/// Mathematical image of an expression: text as character sequences, vectors
/// as sequences.
pub ghost enum ExprM {
    Number(Seq<char>),
    String(Seq<char>),
    Boolean(bool),
    Nun,
    Return(Box<ExprM>),
    Identifier(Seq<char>),
    FunctionCall { callee: Box<ExprM>, arguments: Seq<ExprM> },
    FunctionDefinition {
        return_type: TypeM,
        name: Seq<char>,
        parameters: Seq<(TypeM, Seq<char>)>,
        body: Seq<ExprM>,
    },
    Assignment { name: Seq<char>, value: Box<ExprM> },
    Import(Seq<char>),
    RustFunctionCall { path: Seq<Seq<char>>, arguments: Seq<ExprM> },
    FeatherFunctionCall { feather: Seq<char>, function: Seq<char>, arguments: Seq<ExprM> },
}

pub open spec fn params_view(ps: Seq<(Type, String)>) -> Seq<(TypeM, Seq<char>)> {
    ps.map(|i: int, p: (Type, String)| (p.0@, p.1@))
}

pub open spec fn path_view(p: Seq<String>) -> Seq<Seq<char>> {
    p.map(|i: int, s: String| s@)
}

/// The images of a vector of expressions, elementwise.
pub open spec fn exprs_vm(es: Seq<Expr>) -> Seq<ExprM> {
    es.map(|i: int, e: Expr| expr_view(e))
}

pub open spec fn expr_view(e: Expr) -> ExprM
    decreases e,
{
    match e {
        Expr::Number(s) => ExprM::Number(s@),
        Expr::String(s) => ExprM::String(s@),
        Expr::Boolean(b) => ExprM::Boolean(b),
        Expr::Nun => ExprM::Nun,
        Expr::Return(inner) => ExprM::Return(Box::new(expr_view(*inner))),
        Expr::Identifier(s) => ExprM::Identifier(s@),
        Expr::FunctionCall { callee, arguments } => ExprM::FunctionCall {
            callee: Box::new(expr_view(*callee)),
            arguments: exprs_view(arguments@),
        },
        Expr::FunctionDefinition { return_type, name, parameters, body } =>
            ExprM::FunctionDefinition {
            return_type: return_type@,
            name: name@,
            parameters: params_view(parameters@),
            body: exprs_view(body@),
        },
        Expr::Assignment { name, value } => ExprM::Assignment {
            name: name@,
            value: Box::new(expr_view(*value)),
        },
        Expr::Import(s) => ExprM::Import(s@),
        Expr::RustFunctionCall { path, arguments } => ExprM::RustFunctionCall {
            path: path_view(path@),
            arguments: exprs_view(arguments@),
        },
        Expr::FeatherFunctionCall { feather, function, arguments } => ExprM::FeatherFunctionCall {
            feather: feather@,
            function: function@,
            arguments: exprs_view(arguments@),
        },
    }
}

/// The images of a sequence of expressions, elementwise.
pub open spec fn exprs_view(es: Seq<Expr>) -> Seq<ExprM>
    decreases es,
{
    if es.len() == 0 {
        Seq::empty()
    } else {
        exprs_view(es.drop_last()).push(expr_view(es.last()))
    }
}

impl View for Expr {
    type V = ExprM;

    open spec fn view(&self) -> ExprM {
        expr_view(*self)
    }
}

/// `exprs_view` is the elementwise image.
pub proof fn lemma_exprs_view(es: Seq<Expr>)
    ensures
        exprs_view(es).len() == es.len(),
        forall|i: int| 0 <= i < es.len() ==> exprs_view(es)[i] == expr_view(es[i]),
    decreases es,
{
    if es.len() > 0 {
        lemma_exprs_view(es.drop_last());
    }
}

/// Two elementwise view-equal expression sequences have the same image.
pub proof fn lemma_exprs_view_elemwise(a: Seq<Expr>, b: Seq<Expr>)
    requires
        a.len() == b.len(),
        forall|i: int| 0 <= i < a.len() ==> expr_view(#[trigger] a[i]) == expr_view(b[i]),
    ensures
        exprs_view(a) == exprs_view(b),
{
    lemma_exprs_view(a);
    lemma_exprs_view(b);
    assert(exprs_view(a) =~= exprs_view(b));
}

/// The fold and the elementwise map give the same image.
pub proof fn lemma_exprs_view_is_vm(es: Seq<Expr>)
    ensures
        exprs_view(es) == exprs_vm(es),
{
    lemma_exprs_view(es);
    assert(exprs_view(es) =~= exprs_vm(es));
}

pub(crate) fn clone_exprs(v: &Vec<Expr>) -> (r: Vec<Expr>)
    ensures
        exprs_view(r@) == exprs_view(v@),
        r@.len() == v@.len(),
    decreases *v,
{
    let mut out: Vec<Expr> = Vec::new();
    let mut i: usize = 0;
    while i < v.len()
        invariant
            i <= v.len(),
            out@.len() == i as int,
            forall|j: int| 0 <= j < i ==> expr_view(#[trigger] out@[j]) == expr_view(v@[j]),
        decreases v.len() - i,
    {
        proof {
            assert(decreases_to!(*v => v@));
            assert(decreases_to!(v@ => v@[i as int]));
        }
        let c = v[i].clone();
        out.push(c);
        i = i + 1;
    }
    proof {
        lemma_exprs_view_elemwise(out@, v@);
    }
    out
}

/// Clones a parameter list, preserving it exactly.
pub(crate) fn clone_params(v: &Vec<(Type, String)>) -> (r: Vec<(Type, String)>)
    ensures
        r@ =~= v@,
{
    let mut out: Vec<(Type, String)> = Vec::new();
    let mut i: usize = 0;
    while i < v.len()
        invariant
            i <= v.len(),
            out@ =~= v@.subrange(0, i as int),
        decreases v.len() - i,
    {
        let p = (v[i].0.clone(), v[i].1.clone());
        proof {
            assert(p == v@[i as int]);
        }
        out.push(p);
        proof {
            assert(out@ =~= v@.subrange(0, i + 1));
        }
        i = i + 1;
    }
    proof {
        assert(out@ =~= v@);
    }
    out
}

impl Clone for Expr {
    fn clone(&self) -> (r: Expr)
        ensures
            r@ == self@,
        decreases *self,
    {
        match self {
            Expr::Number(s) => Expr::Number(s.clone()),
            Expr::String(s) => Expr::String(s.clone()),
            Expr::Boolean(b) => Expr::Boolean(*b),
            Expr::Nun => Expr::Nun,
            Expr::Return(e) => Expr::Return(Box::new((**e).clone())),
            Expr::Identifier(s) => Expr::Identifier(s.clone()),
            Expr::FunctionCall { callee, arguments } => {
                proof {
                    assert(decreases_to!(*self => *callee));
                    assert(decreases_to!(*self => (*self)->FunctionCall_arguments));
                }
                let c = Box::new((**callee).clone());
                let a = clone_exprs(arguments);
                Expr::FunctionCall { callee: c, arguments: a }
            },
            Expr::FunctionDefinition { return_type, name, parameters, body } => {
                let mut params: Vec<(Type, String)> = Vec::new();
                let mut i: usize = 0;
                while i < parameters.len()
                    invariant
                        i <= parameters.len(),
                        params@ =~= parameters@.subrange(0, i as int),
                    decreases parameters.len() - i,
                {
                    let p = (parameters[i].0.clone(), parameters[i].1.clone());
                    proof {
                        assert(p == parameters@[i as int]);
                    }
                    params.push(p);
                    proof {
                        assert(params@ =~= parameters@.subrange(0, i + 1));
                    }
                    i = i + 1;
                }
                proof {
                    assert(params@ =~= parameters@);
                    assert(decreases_to!(*self => (*self)->FunctionDefinition_body));
                }
                let b = clone_exprs(body);
                let r = Expr::FunctionDefinition {
                    return_type: return_type.clone(),
                    name: name.clone(),
                    parameters: params,
                    body: b,
                };
                proof {
                    assert(params_view(params@) =~= params_view(parameters@));
                }
                r
            },
            Expr::Assignment { name, value } => Expr::Assignment {
                name: name.clone(),
                value: Box::new((**value).clone()),
            },
            Expr::Import(s) => Expr::Import(s.clone()),
            Expr::RustFunctionCall { path, arguments } => {
                let mut p: Vec<String> = Vec::new();
                let mut i: usize = 0;
                while i < path.len()
                    invariant
                        i <= path.len(),
                        p@ =~= path@.subrange(0, i as int),
                    decreases path.len() - i,
                {
                    p.push(path[i].clone());
                    proof {
                        assert(p@ =~= path@.subrange(0, i + 1));
                    }
                    i = i + 1;
                }
                proof {
                    assert(p@ =~= path@);
                    assert(decreases_to!(*self => (*self)->RustFunctionCall_arguments));
                }
                let a = clone_exprs(arguments);
                let r = Expr::RustFunctionCall { path: p, arguments: a };
                proof {
                    assert(path_view(p@) =~= path_view(path@));
                }
                r
            },
            Expr::FeatherFunctionCall { feather, function, arguments } => {
                proof {
                    assert(decreases_to!(*self => (*self)->FeatherFunctionCall_arguments));
                }
                let a = clone_exprs(arguments);
                Expr::FeatherFunctionCall {
                    feather: feather.clone(),
                    function: function.clone(),
                    arguments: a,
                }
            },
        }
    }
}

/// A parsing failure: the position, the offending lexeme (`None` at end of
/// input), and what was expected.
#[derive(Debug, PartialEq, Clone)]
pub struct ParseError {
    pub line: usize,
    pub column: usize,
    pub at: Option<String>,
    pub reason: String,
}

/// Mathematical image of a parsing failure.
pub ghost struct ParseErrM {
    pub line: int,
    pub column: int,
    pub at: Option<Seq<char>>,
    pub reason: Seq<char>,
}

impl View for ParseError {
    type V = ParseErrM;

    open spec fn view(&self) -> ParseErrM {
        ParseErrM {
            line: self.line as int,
            column: self.column as int,
            at: match self.at {
                Some(s) => Some(s@),
                None => None,
            },
            reason: self.reason@,
        }
    }
}

/// The text `ParseError::message` renders.
pub open spec fn parse_error_text(e: ParseErrM) -> Seq<char> {
    let head = "[line "@ + crate::util::dec_digits(e.line as nat) + ", column "@
        + crate::util::dec_digits(e.column as nat) + "] Error at "@;
    let place = match e.at {
        Some(lexeme) => "'"@ + lexeme + "': "@,
        None => "end: "@,
    };
    head + place + e.reason
}

impl ParseError {
    /// The failure as the human-readable text the engine reports.
    pub fn message(&self) -> (r: String)
        ensures
            r@ == parse_error_text(self@),
    {
        proof {
            reveal_strlit("[line ");
            reveal_strlit(", column ");
            reveal_strlit("] Error at ");
            reveal_strlit("'");
            reveal_strlit("': ");
            reveal_strlit("end: ");
        }
        let mut s = "[line ".to_owned();
        s.append(dec_string(self.line).as_str());
        s.append(", column ");
        s.append(dec_string(self.column).as_str());
        s.append("] Error at ");
        match &self.at {
            Some(lexeme) => {
                s.append("'");
                s.append(lexeme.as_str());
                s.append("': ");
            },
            None => {
                s.append("end: ");
            },
        }
        s.append(self.reason.as_str());
        proof {
            assert(s@ =~= parse_error_text(self@));
        }
        s
    }
}

/// Whether two token kinds are the same, payloads included.
pub fn token_kind_eq(a: &TokenType, b: &TokenType) -> (r: bool)
    ensures
        r == (a@ == b@),
{
    match (a, b) {
        (TokenType::Number(x), TokenType::Number(y)) => *x == *y,
        (TokenType::String(x), TokenType::String(y)) => *x == *y,
        (TokenType::Boolean(x), TokenType::Boolean(y)) => *x == *y,
        (TokenType::Nun, TokenType::Nun) => true,
        (TokenType::Identifier(x), TokenType::Identifier(y)) => *x == *y,
        (TokenType::Fn, TokenType::Fn) => true,
        (TokenType::Return, TokenType::Return) => true,
        (TokenType::LeftParen, TokenType::LeftParen) => true,
        (TokenType::RightParen, TokenType::RightParen) => true,
        (TokenType::LeftBrace, TokenType::LeftBrace) => true,
        (TokenType::RightBrace, TokenType::RightBrace) => true,
        (TokenType::Comma, TokenType::Comma) => true,
        (TokenType::Equal, TokenType::Equal) => true,
        (TokenType::Imp, TokenType::Imp) => true,
        (TokenType::Dot, TokenType::Dot) => true,
        (TokenType::Native, TokenType::Native) => true,
        (TokenType::LeftBracket, TokenType::LeftBracket) => true,
        (TokenType::RightBracket, TokenType::RightBracket) => true,
        (TokenType::DoubleColon, TokenType::DoubleColon) => true,
        (TokenType::EOF, TokenType::EOF) => true,
        _ => false,
    }
}

/// The kind at position `i`, or `EOF` past the end.
pub open spec fn tkind(ts: Seq<Token>, i: int) -> TokM {
    if 0 <= i < ts.len() {
        ts[i].kind@
    } else {
        TokM::EOF
    }
}

/// Whether position `i` ends the input: past the tokens or on `EOF`.
pub open spec fn at_end_at(ts: Seq<Token>, i: int) -> bool {
    tkind(ts, i) == TokM::EOF
}

/// The failure a parser reports at token `t`.
pub open spec fn perr_from(t: Token, reason: Seq<char>) -> ParseErrM {
    ParseErrM { line: t.line as int, column: t.column as int, at: Some(t.lexeme@), reason }
}

/// The failure a parser reports at the end of input: positioned at the last
/// token.
pub open spec fn perr_end(ts: Seq<Token>, reason: Seq<char>) -> ParseErrM {
    if ts.len() > 0 {
        ParseErrM {
            line: ts.last().line as int,
            column: ts.last().column as int,
            at: None,
            reason,
        }
    } else {
        ParseErrM { line: 0, column: 0, at: None, reason }
    }
}

/// The failure a parser reports at the cursor.
pub open spec fn perr_here(ts: Seq<Token>, i: int, reason: Seq<char>) -> ParseErrM {
    if 0 <= i < ts.len() {
        perr_from(ts[i], reason)
    } else {
        perr_end(ts, reason)
    }
}

/// The failure a parser reports at the token just consumed, the cursor
/// standing at `cur`.
pub open spec fn perr_prev(ts: Seq<Token>, cur: int, reason: Seq<char>) -> ParseErrM {
    if 0 < cur && cur - 1 < ts.len() {
        perr_from(ts[cur - 1], reason)
    } else {
        perr_end(ts, reason)
    }
}

/// What consuming one token of kind `k` does: the cursor moves over it, or
/// the parse fails at the cursor with `reason`.
pub open spec fn p_consume(ts: Seq<Token>, i: int, k: TokM, reason: Seq<char>) -> (int, Result<
    (),
    ParseErrM,
>) {
    if 0 <= i < ts.len() && tkind(ts, i) == k {
        (i + 1, Ok(()))
    } else {
        (i, Err(perr_here(ts, i, reason)))
    }
}

/// What consuming an identifier does. The cursor never moves past the `EOF`
/// token, and the token examined is the one before the final cursor.
pub open spec fn p_consume_ident(ts: Seq<Token>, i: int, reason: Seq<char>) -> (int, Result<
    Seq<char>,
    ParseErrM,
>) {
    let j = if !at_end_at(ts, i) {
        i + 1
    } else {
        i
    };
    if 0 < j && j - 1 < ts.len() {
        match ts[j - 1].kind@ {
            TokM::Identifier(name) => (j, Ok(name)),
            _ => (j, Err(perr_prev(ts, j, reason))),
        }
    } else {
        (j, Err(perr_end(ts, reason)))
    }
}

/// What parsing a primary expression does: the token under the cursor (with
/// the same end-of-input cursor rule as `p_consume_ident`) becomes a literal
/// or identifier expression.
pub open spec fn p_primary(ts: Seq<Token>, i: int) -> (int, Result<ExprM, ParseErrM>) {
    let j = if !at_end_at(ts, i) {
        i + 1
    } else {
        i
    };
    if 0 < j && j - 1 < ts.len() {
        match token_expr(ts[j - 1].kind@) {
            Some(e) => (j, Ok(e)),
            None => (j, Err(perr_prev(ts, j, "Unexpected token"@))),
        }
    } else {
        (j, Err(perr_end(ts, "Unexpected end of input"@)))
    }
}

/// What reading one type name does: the built-in names and the unit keyword
/// map to their types, any other identifier to a custom type.
pub open spec fn p_type(ts: Seq<Token>, i: int) -> (int, Result<TypeM, ParseErrM>) {
    let j = if !at_end_at(ts, i) {
        i + 1
    } else {
        i
    };
    if 0 < j && j - 1 < ts.len() {
        match ts[j - 1].kind@ {
            TokM::Identifier(name) => (
                j,
                Ok(
                    if name == "num"@ {
                        TypeM::Num
                    } else if name == "str"@ {
                        TypeM::Str
                    } else if name == "bool"@ {
                        TypeM::Bool
                    } else if name == "nun"@ {
                        TypeM::Nun
                    } else {
                        TypeM::Custom(name)
                    },
                ),
            ),
            TokM::Nun => (j, Ok(TypeM::Nun)),
            _ => (j, Err(perr_prev(ts, j, "Expected type name"@))),
        }
    } else {
        (j, Err(perr_end(ts, "Unexpected end of input while parsing type"@)))
    }
}

/// What parsing one expression or statement does.
pub open spec fn p_expression(ts: Seq<Token>, i: int) -> (int, Result<ExprM, ParseErrM>)
    decreases ts.len() - i, 3int,
{
    if 0 <= i < ts.len() && tkind(ts, i) == TokM::Native {
        p_rust_function_call(ts, i + 1)
    } else if 0 <= i < ts.len() && tkind(ts, i) == TokM::Return {
        let (j, r) = p_expression(ts, i + 1);
        match r {
            Ok(e) => (j, Ok(ExprM::Return(Box::new(e)))),
            Err(e) => (j, Err(e)),
        }
    } else if 0 <= i < ts.len() && tkind(ts, i) == TokM::Fn {
        p_function_definition(ts, i + 1)
    } else {
        p_function_call(ts, i)
    }
}

/// What parsing a native call `NATIVE[lib::...::name](args)` does, the
/// `NATIVE` keyword already consumed.
pub open spec fn p_rust_function_call(ts: Seq<Token>, i: int) -> (int, Result<ExprM, ParseErrM>)
    decreases ts.len() - i, 2int,
{
    let (j1, c1) = p_consume(ts, i, TokM::LeftBracket, "Expected '[' after 'NATIVE'"@);
    match c1 {
        Err(e) => (j1, Err(e)),
        Ok(()) => {
            let (j2, pr) = p_path(ts, j1);
            match pr {
                Err(e) => (j2, Err(e)),
                Ok(path) => {
                    let (j3, c3) = p_consume(
                        ts,
                        j2,
                        TokM::RightBracket,
                        "Expected ']' after Rust function path"@,
                    );
                    match c3 {
                        Err(e) => (j3, Err(e)),
                        Ok(()) => {
                            let (j4, c4) = p_consume(
                                ts,
                                j3,
                                TokM::LeftParen,
                                "Expected '(' after Rust function path"@,
                            );
                            match c4 {
                                Err(e) => (j4, Err(e)),
                                Ok(()) => {
                                    let (j5, ar) = if 0 <= j4 < ts.len() && tkind(ts, j4)
                                        == TokM::RightParen {
                                        (j4, Ok(Seq::<ExprM>::empty()))
                                    } else {
                                        if i < j4 && j4 <= ts.len() {
                                            p_arg_items(ts, j4)
                                        } else {
                                            (j4, Err(perr_end(ts, "Unexpected end of input"@)))
                                        }
                                    };
                                    match ar {
                                        Err(e) => (j5, Err(e)),
                                        Ok(args) => {
                                            let (j6, c6) = p_consume(
                                                ts,
                                                j5,
                                                TokM::RightParen,
                                                "Expected ')' after arguments in Rust function call"@,
                                            );
                                            match c6 {
                                                Err(e) => (j6, Err(e)),
                                                Ok(()) => (
                                                    j6,
                                                    Ok(
                                                        ExprM::RustFunctionCall {
                                                            path,
                                                            arguments: args,
                                                        },
                                                    ),
                                                ),
                                            }
                                        },
                                    }
                                },
                            }
                        },
                    }
                },
            }
        },
    }
}

/// What parsing a `::`-separated identifier path does.
pub open spec fn p_path(ts: Seq<Token>, i: int) -> (int, Result<Seq<Seq<char>>, ParseErrM>)
    decreases ts.len() - i, 1int,
{
    let (j, nr) = p_consume_ident(ts, i, "Expected identifier in Rust function path"@);
    match nr {
        Err(e) => (j, Err(e)),
        Ok(seg) => {
            if 0 <= j < ts.len() && tkind(ts, j) == TokM::DoubleColon && i <= j {
                let (k, rest) = p_path(ts, j + 1);
                match rest {
                    Ok(segs) => (k, Ok(seq![seg] + segs)),
                    Err(e) => (k, Err(e)),
                }
            } else {
                (j, Ok(seq![seg]))
            }
        },
    }
}

/// What parsing a nonempty comma-separated argument list does.
pub open spec fn p_arg_items(ts: Seq<Token>, i: int) -> (int, Result<Seq<ExprM>, ParseErrM>)
    decreases ts.len() - i, 4int,
{
    let (j, r) = p_expression(ts, i);
    match r {
        Err(e) => (j, Err(e)),
        Ok(e) => {
            if 0 <= j < ts.len() && tkind(ts, j) == TokM::Comma && i <= j {
                let (k, rest) = p_arg_items(ts, j + 1);
                match rest {
                    Ok(args) => (k, Ok(seq![e] + args)),
                    Err(e2) => (k, Err(e2)),
                }
            } else {
                (j, Ok(seq![e]))
            }
        },
    }
}

/// What parsing a possibly empty argument list up to and including the
/// closing parenthesis does.
pub open spec fn p_arguments(ts: Seq<Token>, i: int) -> (int, Result<Seq<ExprM>, ParseErrM>)
    decreases ts.len() - i, 5int,
{
    let (j, ar) = if 0 <= i < ts.len() && tkind(ts, i) == TokM::RightParen {
        (i, Ok(Seq::<ExprM>::empty()))
    } else {
        p_arg_items(ts, i)
    };
    match ar {
        Err(e) => (j, Err(e)),
        Ok(args) => {
            let (k, c) = p_consume(ts, j, TokM::RightParen, "Expected ')' after arguments"@);
            match c {
                Err(e) => (k, Err(e)),
                Ok(()) => (k, Ok(args)),
            }
        },
    }
}

/// What parsing a primary expression with an optional method-style or call
/// suffix does.
pub open spec fn p_function_call(ts: Seq<Token>, i: int) -> (int, Result<ExprM, ParseErrM>)
    decreases ts.len() - i, 2int,
{
    let (j, pr) = p_primary(ts, i);
    match pr {
        Err(e) => (j, Err(e)),
        Ok(e) => {
            if 0 <= j < ts.len() && tkind(ts, j) == TokM::Dot {
                match e {
                    ExprM::Identifier(feather) => {
                        let (k, nr) = p_consume_ident(
                            ts,
                            j + 1,
                            "Expected function name after '.'"@,
                        );
                        match nr {
                            Err(e2) => (k, Err(e2)),
                            Ok(function) => {
                                let (k2, c) = p_consume(
                                    ts,
                                    k,
                                    TokM::LeftParen,
                                    "Expected '(' after function name"@,
                                );
                                match c {
                                    Err(e2) => (k2, Err(e2)),
                                    Ok(()) => {
                                        if i < k2 {
                                            let (k3, ar) = p_arguments(ts, k2);
                                            match ar {
                                                Err(e2) => (k3, Err(e2)),
                                                Ok(args) => (
                                                    k3,
                                                    Ok(
                                                        ExprM::FeatherFunctionCall {
                                                            feather,
                                                            function,
                                                            arguments: args,
                                                        },
                                                    ),
                                                ),
                                            }
                                        } else {
                                            (k2, Err(perr_end(ts, "Unexpected end of input"@)))
                                        }
                                    },
                                }
                            },
                        }
                    },
                    _ => (
                        j + 1,
                        Err(perr_prev(ts, j + 1, "Expected a feather name before '.'"@)),
                    ),
                }
            } else if 0 <= j < ts.len() && tkind(ts, j) == TokM::LeftParen {
                if i < j + 1 {
                    let (k, ar) = p_arguments(ts, j + 1);
                    match ar {
                        Err(e2) => (k, Err(e2)),
                        Ok(args) => (
                            k,
                            Ok(ExprM::FunctionCall { callee: Box::new(e), arguments: args }),
                        ),
                    }
                } else {
                    (j + 1, Err(perr_end(ts, "Unexpected end of input"@)))
                }
            } else {
                (j, Ok(e))
            }
        },
    }
}

/// What parsing a parameter list (type-name pairs separated by commas) does.
pub open spec fn p_params(ts: Seq<Token>, i: int) -> (int, Result<
    Seq<(TypeM, Seq<char>)>,
    ParseErrM,
>)
    decreases ts.len() - i, 1int,
{
    let (j, tr) = p_type(ts, i);
    match tr {
        Err(e) => (j, Err(e)),
        Ok(ty) => {
            let (k, nr) = p_consume_ident(ts, j, "Expected parameter name"@);
            match nr {
                Err(e) => (k, Err(e)),
                Ok(name) => {
                    if 0 <= k < ts.len() && tkind(ts, k) == TokM::Comma && i <= k {
                        let (k2, rest) = p_params(ts, k + 1);
                        match rest {
                            Ok(ps) => (k2, Ok(seq![(ty, name)] + ps)),
                            Err(e) => (k2, Err(e)),
                        }
                    } else {
                        (k, Ok(seq![(ty, name)]))
                    }
                },
            }
        },
    }
}

/// What parsing the statements of a function body up to (not including) the
/// closing brace does.
pub open spec fn p_fn_body(ts: Seq<Token>, i: int) -> (int, Result<Seq<ExprM>, ParseErrM>)
    decreases ts.len() - i, 6int,
{
    if 0 <= i < ts.len() && tkind(ts, i) == TokM::RightBrace {
        (i, Ok(Seq::<ExprM>::empty()))
    } else if at_end_at(ts, i) {
        (i, Err(perr_end(ts, "Expected '}' after function body"@)))
    } else {
        let (j, r) = p_expression(ts, i);
        match r {
            Err(e) => (j, Err(e)),
            Ok(e) => {
                if i < j && j <= ts.len() {
                    let (k, rest) = p_fn_body(ts, j);
                    match rest {
                        Ok(body) => (k, Ok(seq![e] + body)),
                        Err(e2) => (k, Err(e2)),
                    }
                } else {
                    (j, Err(perr_end(ts, "Expected '}' after function body"@)))
                }
            },
        }
    }
}

/// What parsing a function definition does, the `fn` keyword already
/// consumed: return type, name, parenthesised parameters, braced body.
pub open spec fn p_function_definition(ts: Seq<Token>, i: int) -> (int, Result<ExprM, ParseErrM>)
    decreases ts.len() - i, 2int,
{
    let (j1, tr) = p_type(ts, i);
    match tr {
        Err(e) => (j1, Err(e)),
        Ok(return_type) => {
            let (j2, nr) = p_consume_ident(ts, j1, "Expected function name"@);
            match nr {
                Err(e) => (j2, Err(e)),
                Ok(name) => {
                    let (j3, c3) = p_consume(
                        ts,
                        j2,
                        TokM::LeftParen,
                        "Expected '(' after function name"@,
                    );
                    match c3 {
                        Err(e) => (j3, Err(e)),
                        Ok(()) => {
                            let (j4, ps) = if 0 <= j3 < ts.len() && tkind(ts, j3)
                                == TokM::RightParen {
                                (j3, Ok(Seq::<(TypeM, Seq<char>)>::empty()))
                            } else {
                                if i <= j3 {
                                    p_params(ts, j3)
                                } else {
                                    (j3, Err(perr_end(ts, "Unexpected end of input"@)))
                                }
                            };
                            match ps {
                                Err(e) => (j4, Err(e)),
                                Ok(parameters) => {
                                    let (j5, c5) = p_consume(
                                        ts,
                                        j4,
                                        TokM::RightParen,
                                        "Expected ')' after parameters"@,
                                    );
                                    match c5 {
                                        Err(e) => (j5, Err(e)),
                                        Ok(()) => {
                                            let (j6, c6) = p_consume(
                                                ts,
                                                j5,
                                                TokM::LeftBrace,
                                                "Expected '{' before function body"@,
                                            );
                                            match c6 {
                                                Err(e) => (j6, Err(e)),
                                                Ok(()) => {
                                                    let (j7, br) = if i < j6 && j6 <= ts.len() {
                                                        p_fn_body(ts, j6)
                                                    } else {
                                                        (
                                                            j6,
                                                            Err(
                                                                perr_end(
                                                                    ts,
                                                                    "Unexpected end of input"@,
                                                                ),
                                                            ),
                                                        )
                                                    };
                                                    match br {
                                                        Err(e) => (j7, Err(e)),
                                                        Ok(body) => {
                                                            let (j8, c8) = p_consume(
                                                                ts,
                                                                j7,
                                                                TokM::RightBrace,
                                                                "Expected '}' after function body"@,
                                                            );
                                                            match c8 {
                                                                Err(e) => (j8, Err(e)),
                                                                Ok(()) => (
                                                                    j8,
                                                                    Ok(
                                                                        ExprM::FunctionDefinition {
                                                                            return_type,
                                                                            name,
                                                                            parameters,
                                                                            body,
                                                                        },
                                                                    ),
                                                                ),
                                                            }
                                                        },
                                                    }
                                                },
                                            }
                                        },
                                    }
                                },
                            }
                        },
                    }
                },
            }
        },
    }
}

/// What parsing one import statement does, the `imp` keyword already
/// consumed.
pub open spec fn p_import(ts: Seq<Token>, i: int) -> (int, Result<ExprM, ParseErrM>) {
    let (j, nr) = p_consume_ident(ts, i, "Expected feather name after 'imp'"@);
    match nr {
        Err(e) => (j, Err(e)),
        Ok(name) => (j, Ok(ExprM::Import(name))),
    }
}

/// What parsing a whole token sequence does: one expression or import per
/// top-level form, in source order, consuming everything before `EOF`.
pub open spec fn p_parse(ts: Seq<Token>, i: int) -> (int, Result<Seq<ExprM>, ParseErrM>)
    decreases ts.len() - i, 7int,
{
    if at_end_at(ts, i) {
        (i, Ok(Seq::<ExprM>::empty()))
    } else {
        let (j, r) = if 0 <= i < ts.len() && tkind(ts, i) == TokM::Imp {
            p_import(ts, i + 1)
        } else {
            p_expression(ts, i)
        };
        match r {
            Err(e) => (j, Err(e)),
            Ok(e) => {
                if i < j && j <= ts.len() {
                    let (k, rest) = p_parse(ts, j);
                    match rest {
                        Ok(es) => (k, Ok(seq![e] + es)),
                        Err(e2) => (k, Err(e2)),
                    }
                } else {
                    (j, Err(perr_end(ts, "Unexpected end of input"@)))
                }
            },
        }
    }
}

/// The expression a single primary token denotes, if any.
pub open spec fn token_expr(k: TokM) -> Option<ExprM> {
    match k {
        TokM::Number(t) => Some(ExprM::Number(t)),
        TokM::String(s) => Some(ExprM::String(s)),
        TokM::Boolean(b) => Some(ExprM::Boolean(b)),
        TokM::Nun => Some(ExprM::Nun),
        TokM::Identifier(n) => Some(ExprM::Identifier(n)),
        _ => None,
    }
}

pub struct Parser {
    tokens: Vec<Token>,
    current: usize,
}

impl Parser {
    pub closed spec fn toks(&self) -> Seq<Token> {
        self.tokens@
    }

    pub closed spec fn cur(&self) -> int {
        self.current as int
    }

    pub closed spec fn wf(&self) -> bool {
        self.current <= self.tokens.len()
    }

    /// The kind at the cursor, or `EOF` past the end.
    pub open spec fn at_kind(&self) -> TokM {
        if self.cur() < self.toks().len() {
            self.toks()[self.cur()].kind@
        } else {
            TokM::EOF
        }
    }

    /// Whether the cursor stands at the end: past the tokens or on `EOF`.
    pub open spec fn spec_at_end(&self) -> bool {
        self.at_kind() == TokM::EOF
    }

    pub fn new(tokens: Vec<Token>) -> (r: Parser)
        ensures
            r.toks() == tokens@,
            r.cur() == 0,
            r.wf(),
    {
        Parser { tokens, current: 0 }
    }

    fn is_at_end(&self) -> (r: bool)
        ensures
            r == self.spec_at_end(),
    {
        match self.peek() {
            Some(t) => matches!(t.kind, TokenType::EOF),
            None => true,
        }
    }

    fn peek(&self) -> (r: Option<&Token>)
        ensures
            r == (if self.cur() < self.toks().len() {
                Some(&self.toks()[self.cur()])
            } else {
                None::<&Token>
            }),
    {
        if self.current < self.tokens.len() {
            Some(&self.tokens[self.current])
        } else {
            None
        }
    }

    fn previous(&self) -> (r: Option<&Token>)
        ensures
            r == (if 0 < self.cur() && self.cur() - 1 < self.toks().len() {
                Some(&self.toks()[self.cur() - 1])
            } else {
                None::<&Token>
            }),
    {
        if 0 < self.current && self.current - 1 < self.tokens.len() {
            Some(&self.tokens[self.current - 1])
        } else {
            None
        }
    }

    fn advance(&mut self) -> (r: Option<&Token>)
        requires
            old(self).wf(),
        ensures
            final(self).wf(),
            final(self).toks() == old(self).toks(),
            final(self).cur() == (if !old(self).spec_at_end() {
                old(self).cur() + 1
            } else {
                old(self).cur()
            }),
            r matches Some(t) ==> final(self).cur() >= 1 && final(self).cur() - 1 < final(self).toks().len() && *t == final(self).toks()[final(self).cur() - 1],
            (r is None) <==> !(0 < final(self).cur() && final(self).cur() - 1 < final(self).toks().len()),
    {
        if !self.is_at_end() {
            self.current = self.current + 1;
        }
        self.previous()
    }

    fn check(&self, t: &TokenType) -> (r: bool)
        ensures
            r == (self.cur() < self.toks().len() && self.at_kind() == t@),
    {
        match self.peek() {
            Some(token) => token_kind_eq(&token.kind, t),
            None => false,
        }
    }

    fn match_token(&mut self, types: &[TokenType]) -> (r: bool)
        requires
            old(self).wf(),
        ensures
            final(self).wf(),
            final(self).toks() == old(self).toks(),
            r ==> old(self).cur() < old(self).toks().len() && (exists|i: int|
                0 <= i < types@.len() && old(self).at_kind() == types@[i]@) && final(self).cur()
                == (if old(self).at_kind() == TokM::EOF {
                old(self).cur()
            } else {
                old(self).cur() + 1
            }),
            !r ==> final(self).cur() == old(self).cur() && (forall|i: int|
                0 <= i < types@.len() ==> !(old(self).cur() < old(self).toks().len() && old(self).at_kind() == types@[i]@)),
    {
        let mut i: usize = 0;
        while i < types.len()
            invariant
                self == old(self),
                self.wf(),
                i <= types@.len(),
                forall|j: int|
                    0 <= j < i ==> !(self.cur() < self.toks().len() && self.at_kind()
                        == types@[j]@),
            decreases types@.len() - i,
        {
            if self.check(&types[i]) {
                self.advance();
                return true;
            }
            i = i + 1;
        }
        false
    }

    /// Consumes the cursor token when it has the wanted kind, and fails with
    /// `message` otherwise.
    fn consume(&mut self, t: TokenType, message: &str) -> (r: Result<(), ParseError>)
        requires
            old(self).wf(),
        ensures
            final(self).wf(),
            final(self).toks() == old(self).toks(),
            match r {
                Ok(()) => old(self).cur() < old(self).toks().len() && old(self).at_kind() == t@
                    && final(self).cur() == (if old(self).at_kind() == TokM::EOF {
                    old(self).cur()
                } else {
                    old(self).cur() + 1
                }),
                Err(e) => !(old(self).cur() < old(self).toks().len() && old(self).at_kind()
                    == t@) && final(self).cur() == old(self).cur() && e@ == perr_here(
                    old(self).toks(),
                    old(self).cur(),
                    message@,
                ),
            },
    {
        if self.check(&t) {
            self.advance();
            Ok(())
        } else {
            Err(self.error_here(message))
        }
    }

    /// Consumes an identifier token and yields its name, failing with
    /// `message` on any other kind.
    fn consume_identifier(&mut self, message: &str) -> (r: Result<String, ParseError>)
        requires
            old(self).wf(),
        ensures
            final(self).wf(),
            final(self).toks() == old(self).toks(),
            ({
                let (j, nr) = p_consume_ident(old(self).toks(), old(self).cur(), message@);
                final(self).cur() == j && match (r, nr) {
                    (Ok(name), Ok(nm)) => name@ == nm,
                    (Err(e), Err(em)) => e@ == em,
                    _ => false,
                }
            }),
    {
        let got = self.advance().is_some();
        if got {
            let t = &self.tokens[self.current - 1];
            match &t.kind {
                TokenType::Identifier(name) => Ok(name.clone()),
                _ => Err(self.error_at_previous(message)),
            }
        } else {
            Err(self.error_at_end(message))
        }
    }

    /// Parses the whole token sequence into the top-level statements: one
    /// expression or import per form, in source order, in exact agreement
    /// with `p_parse`; on success everything before the end-of-input token
    /// was consumed.
    pub fn parse(&mut self) -> (r: Result<Vec<Expr>, ParseError>)
        requires
            old(self).wf(),
        ensures
            final(self).wf(),
            final(self).toks() == old(self).toks(),
            r matches Ok(_) ==> final(self).spec_at_end(),
            ({
                let (j, pr) = p_parse(old(self).toks(), old(self).cur());
                final(self).cur() == j && match (r, pr) {
                    (Ok(es), Ok(ems)) => exprs_vm(es@) == ems,
                    (Err(e), Err(em)) => e@ == em,
                    _ => false,
                }
            }),
    {
        let ghost ts = self.toks();
        let mut expressions: Vec<Expr> = Vec::new();
        while !self.is_at_end()
            invariant_except_break
                self.wf(),
                self.toks() == ts,
                ts == old(self).toks(),
                old(self).cur() <= self.cur(),
                ({
                    let (kh, rh) = p_parse(ts, self.cur());
                    let (kf, rf) = p_parse(ts, old(self).cur());
                    match rh {
                        Ok(rest) => kf == kh && rf == Ok::<_, ParseErrM>(
                            exprs_vm(expressions@) + rest,
                        ),
                        Err(e) => kf == kh && rf == Err::<Seq<ExprM>, _>(e),
                    }
                }),
            ensures
                self.wf(),
                self.toks() == ts,
                ts == old(self).toks(),
                self.spec_at_end(),
                p_parse(ts, old(self).cur()) == (
                    self.cur(),
                    Ok::<_, ParseErrM>(exprs_vm(expressions@)),
                ),
            decreases ts.len() - self.cur(),
        {
            let ghost head = self.cur();
            let ghost es0 = expressions@;
            let e = if self.match_token(&[TokenType::Imp]) {
                match self.import_statement() {
                    Ok(e) => e,
                    Err(e) => {
                        return Err(e);
                    },
                }
            } else {
                match self.expression() {
                    Ok(e) => e,
                    Err(e) => {
                        return Err(e);
                    },
                }
            };
            expressions.push(e);
            proof {
                assert(self.cur() > head);
                assert(exprs_vm(expressions@) =~= exprs_vm(es0).push(
                    expr_view(expressions@.last()),
                ));
                let (kh, rh) = p_parse(ts, self.cur());
                match rh {
                    Ok(rest) => {
                        assert(p_parse(ts, head) == (
                            kh,
                            Ok::<_, ParseErrM>(seq![expr_view(expressions@.last())] + rest),
                        ));
                        assert(exprs_vm(es0) + (seq![expr_view(expressions@.last())] + rest)
                            =~= exprs_vm(expressions@) + rest);
                    },
                    Err(_) => {},
                }
            }
        }
        proof {
            assert(exprs_vm(expressions@) + Seq::<ExprM>::empty() =~= exprs_vm(expressions@));
        }
        Ok(expressions)
    }

    fn import_statement(&mut self) -> (r: Result<Expr, ParseError>)
        requires
            old(self).wf(),
        ensures
            final(self).wf(),
            final(self).toks() == old(self).toks(),
            final(self).cur() >= old(self).cur(),
            ({
                let (j, pr) = p_import(old(self).toks(), old(self).cur());
                final(self).cur() == j && match (r, pr) {
                    (Ok(e), Ok(em)) => e@ == em,
                    (Err(e), Err(em)) => e@ == em,
                    _ => false,
                }
            }),
    {
        match self.consume_identifier("Expected feather name after 'imp'") {
            Ok(name) => Ok(Expr::Import(name)),
            Err(e) => Err(e),
        }
    }

    /// Parses one expression or statement.
    ///
    /// A numeric-literal token not followed by a call or method suffix parses
    /// to exactly that literal.
    fn expression(&mut self) -> (r: Result<Expr, ParseError>)
        requires
            old(self).wf(),
        ensures
            final(self).wf(),
            final(self).toks() == old(self).toks(),
            final(self).cur() >= old(self).cur(),
            (r matches Ok(_) && !old(self).spec_at_end()) ==> final(self).cur() > old(self).cur(),
            ({
                let (j, pr) = p_expression(old(self).toks(), old(self).cur());
                final(self).cur() == j && match (r, pr) {
                    (Ok(e), Ok(em)) => e@ == em,
                    (Err(e), Err(em)) => e@ == em,
                    _ => false,
                }
            }),
        decreases old(self).toks().len() - old(self).cur(), 2int,
    {
        if self.match_token(&[TokenType::Native]) {
            self.rust_function_call()
        } else if self.match_token(&[TokenType::Return]) {
            match self.expression() {
                Ok(value) => Ok(Expr::Return(Box::new(value))),
                Err(e) => Err(e),
            }
        } else if self.match_token(&[TokenType::Fn]) {
            self.function_definition()
        } else {
            self.function_call()
        }
    }

    /// Parses a native call `NATIVE[lib::...::name](args)`; the `NATIVE`
    /// keyword is already consumed.
    fn rust_function_call(&mut self) -> (r: Result<Expr, ParseError>)
        requires
            old(self).wf(),
        ensures
            final(self).wf(),
            final(self).toks() == old(self).toks(),
            final(self).cur() >= old(self).cur(),
            ({
                let (j, pr) = p_rust_function_call(old(self).toks(), old(self).cur());
                final(self).cur() == j && match (r, pr) {
                    (Ok(e), Ok(em)) => e@ == em,
                    (Err(e), Err(em)) => e@ == em,
                    _ => false,
                }
            }),
        decreases old(self).toks().len() - old(self).cur(), 1int,
    {
        match self.consume(TokenType::LeftBracket, "Expected '[' after 'NATIVE'") {
            Ok(()) => {},
            Err(e) => {
                return Err(e);
            },
        }
        let mut path: Vec<String> = Vec::new();

        let ghost ts = self.toks();
        let ghost pstart = self.cur();
        loop
            invariant_except_break
                self.wf(),
                self.toks() == ts,
                ts == old(self).toks(),
                self.cur() > old(self).cur(),
                pstart == old(self).cur() + 1,
                0 <= old(self).cur() < ts.len(),
                tkind(ts, old(self).cur()) == TokM::LeftBracket,
                ({
                    let (kh, rh) = p_path(ts, self.cur());
                    let (kf, rf) = p_path(ts, pstart);
                    match rh {
                        Ok(segs) => kf == kh && rf == Ok::<_, ParseErrM>(
                            path_view(path@) + segs,
                        ),
                        Err(e) => kf == kh && rf == Err::<Seq<Seq<char>>, _>(e),
                    }
                }),
            ensures
                self.wf(),
                self.toks() == ts,
                ts == old(self).toks(),
                self.cur() > old(self).cur(),
                pstart == old(self).cur() + 1,
                0 <= old(self).cur() < ts.len(),
                tkind(ts, old(self).cur()) == TokM::LeftBracket,
                p_path(ts, pstart) == (self.cur(), Ok::<_, ParseErrM>(path_view(path@))),
            decreases self.toks().len() - self.cur(),
        {
            let ghost head = self.cur();
            let ghost path0 = path@;
            proof {
                assert(path_view(path0) + Seq::<Seq<char>>::empty() =~= path_view(path0));
            }
            match self.consume_identifier("Expected identifier in Rust function path") {
                Ok(seg) => {
                    path.push(seg);
                    proof {
                        assert(path_view(path@) =~= path_view(path0).push(path@.last()@));
                    }
                },
                Err(e) => {
                    return Err(e);
                },
            }
            if !self.match_token(&[TokenType::DoubleColon]) {
                proof {
                    assert(p_path(ts, head) == (
                        self.cur(),
                        Ok::<_, ParseErrM>(seq![path@.last()@]),
                    ));
                    assert(path_view(path0) + seq![path@.last()@] =~= path_view(path@));
                }
                break;
            }
            proof {
                let (kh, rh) = p_path(ts, self.cur());
                match rh {
                    Ok(segs) => {
                        assert(p_path(ts, head) == (
                            kh,
                            Ok::<_, ParseErrM>(seq![path@.last()@] + segs),
                        ));
                        assert(path_view(path0) + (seq![path@.last()@] + segs) =~= path_view(
                            path@,
                        ) + segs);
                    },
                    Err(_) => {},
                }
            }
        }

        match self.consume(TokenType::RightBracket, "Expected ']' after Rust function path") {
            Ok(()) => {},
            Err(e) => {
                return Err(e);
            },
        }
        match self.consume(TokenType::LeftParen, "Expected '(' after Rust function path") {
            Ok(()) => {},
            Err(e) => {
                return Err(e);
            },
        }
        let arguments = if self.check(&TokenType::RightParen) {
            Vec::new()
        } else {
            match self.parse_arguments() {
                Ok(args) => args,
                Err(e) => {
                    return Err(e);
                },
            }
        };
        match self.consume(
            TokenType::RightParen,
            "Expected ')' after arguments in Rust function call",
        ) {
            Ok(()) => {},
            Err(e) => {
                return Err(e);
            },
        }

        proof {
            lemma_exprs_view_is_vm(arguments@);
        }
        Ok(Expr::RustFunctionCall { path, arguments })
    }

    /// Parses a comma-separated, nonempty argument list.
    fn parse_arguments(&mut self) -> (r: Result<Vec<Expr>, ParseError>)
        requires
            old(self).wf(),
        ensures
            final(self).wf(),
            final(self).toks() == old(self).toks(),
            final(self).cur() >= old(self).cur(),
            ({
                let (j, ar) = p_arg_items(old(self).toks(), old(self).cur());
                final(self).cur() == j && match (r, ar) {
                    (Ok(es), Ok(ems)) => exprs_vm(es@) == ems,
                    (Err(e), Err(em)) => e@ == em,
                    _ => false,
                }
            }),
        decreases old(self).toks().len() - old(self).cur(), 3int,
    {
        let ghost ts = self.toks();
        let ghost astart = self.cur();
        let mut args: Vec<Expr> = Vec::new();
        loop
            invariant_except_break
                self.wf(),
                self.toks() == ts,
                ts == old(self).toks(),
                self.cur() >= old(self).cur(),
                astart == old(self).cur(),
                ({
                    let (kh, rh) = p_arg_items(ts, self.cur());
                    let (kf, rf) = p_arg_items(ts, astart);
                    match rh {
                        Ok(rest) => kf == kh && rf == Ok::<_, ParseErrM>(
                            exprs_vm(args@) + rest,
                        ),
                        Err(e) => kf == kh && rf == Err::<Seq<ExprM>, _>(e),
                    }
                }),
            ensures
                self.wf(),
                self.toks() == ts,
                ts == old(self).toks(),
                self.cur() >= old(self).cur(),
                astart == old(self).cur(),
                p_arg_items(ts, astart) == (self.cur(), Ok::<_, ParseErrM>(exprs_vm(args@))),
            decreases self.toks().len() - self.cur() + 1,
        {
            let ghost head = self.cur();
            let ghost args0 = args@;
            proof {
                assert(exprs_vm(args0) + Seq::<ExprM>::empty() =~= exprs_vm(args0));
            }
            match self.expression() {
                Ok(e) => {
                    args.push(e);
                    proof {
                        assert(exprs_vm(args@) =~= exprs_vm(args0).push(expr_view(args@.last())));
                    }
                },
                Err(e) => {
                    return Err(e);
                },
            }
            if !self.match_token(&[TokenType::Comma]) {
                proof {
                    assert(p_arg_items(ts, head) == (
                        self.cur(),
                        Ok::<_, ParseErrM>(seq![expr_view(args@.last())]),
                    ));
                    assert(exprs_vm(args0) + seq![expr_view(args@.last())] =~= exprs_vm(args@));
                }
                break;
            }
            proof {
                assert(self.cur() > head);
                let (kh, rh) = p_arg_items(ts, self.cur());
                match rh {
                    Ok(rest) => {
                        assert(p_arg_items(ts, head) == (
                            kh,
                            Ok::<_, ParseErrM>(seq![expr_view(args@.last())] + rest),
                        ));
                        assert(exprs_vm(args0) + (seq![expr_view(args@.last())] + rest)
                            =~= exprs_vm(args@) + rest);
                    },
                    Err(_) => {},
                }
            }
        }
        Ok(args)
    }

    /// Parses a function definition; the `fn` keyword is already consumed.
    fn function_definition(&mut self) -> (r: Result<Expr, ParseError>)
        requires
            old(self).wf(),
        ensures
            final(self).wf(),
            final(self).toks() == old(self).toks(),
            final(self).cur() >= old(self).cur(),
            ({
                let (j, pr) = p_function_definition(old(self).toks(), old(self).cur());
                final(self).cur() == j && match (r, pr) {
                    (Ok(e), Ok(em)) => e@ == em,
                    (Err(e), Err(em)) => e@ == em,
                    _ => false,
                }
            }),
        decreases old(self).toks().len() - old(self).cur(), 1int,
    {
        let ghost ts = self.toks();
        let return_type = match self.parse_type() {
            Ok(t) => t,
            Err(e) => {
                return Err(e);
            },
        };
        let name = match self.consume_identifier("Expected function name") {
            Ok(n) => n,
            Err(e) => {
                return Err(e);
            },
        };
        match self.consume(TokenType::LeftParen, "Expected '(' after function name") {
            Ok(()) => {},
            Err(e) => {
                return Err(e);
            },
        }

        let ghost j3 = self.cur();
        let parameters: Vec<(Type, String)> = if self.check(&TokenType::RightParen) {
            proof {
                assert(params_view(Seq::<(Type, String)>::empty()) =~= Seq::<(
                    TypeM,
                    Seq<char>,
                )>::empty());
            }
            Vec::new()
        } else {
            let mut params: Vec<(Type, String)> = Vec::new();
            loop
                invariant_except_break
                    self.wf(),
                    self.toks() == ts,
                    ts == old(self).toks(),
                    old(self).cur() <= j3 <= self.cur(),
                    ({
                        let (kp, rp) = p_params(ts, j3);
                        rp matches Err(e) ==> p_function_definition(ts, old(self).cur()) == (
                            kp,
                            Err::<ExprM, ParseErrM>(e),
                        )
                    }),
                    ({
                        let (kh, rh) = p_params(ts, self.cur());
                        let (kf, rf) = p_params(ts, j3);
                        match rh {
                            Ok(rest) => kf == kh && rf == Ok::<_, ParseErrM>(
                                params_view(params@) + rest,
                            ),
                            Err(e) => kf == kh && rf == Err::<Seq<(TypeM, Seq<char>)>, _>(e),
                        }
                    }),
                ensures
                    self.wf(),
                    self.toks() == ts,
                    ts == old(self).toks(),
                    old(self).cur() <= j3 <= self.cur(),
                    p_params(ts, j3) == (
                        self.cur(),
                        Ok::<_, ParseErrM>(params_view(params@)),
                    ),
                decreases self.toks().len() - self.cur(),
            {
                let ghost head = self.cur();
                let ghost params0 = params@;
                proof {
                    assert(params_view(params0) + Seq::<(TypeM, Seq<char>)>::empty()
                        =~= params_view(params0));
                }
                let param_type = match self.parse_type() {
                    Ok(t) => t,
                    Err(e) => {
                        return Err(e);
                    },
                };
                let param_name = match self.consume_identifier("Expected parameter name") {
                    Ok(n) => n,
                    Err(e) => {
                        return Err(e);
                    },
                };
                params.push((param_type, param_name));
                proof {
                    assert(params_view(params@) =~= params_view(params0).push(
                        (params@.last().0@, params@.last().1@),
                    ));
                }
                if !self.match_token(&[TokenType::Comma]) {
                    proof {
                        assert(p_params(ts, head) == (
                            self.cur(),
                            Ok::<_, ParseErrM>(
                                seq![(params@.last().0@, params@.last().1@)],
                            ),
                        ));
                        assert(params_view(params0) + seq![
                            (params@.last().0@, params@.last().1@),
                        ] =~= params_view(params@));
                    }
                    break;
                }
                proof {
                    let (kh, rh) = p_params(ts, self.cur());
                    match rh {
                        Ok(rest) => {
                            assert(p_params(ts, head) == (
                                kh,
                                Ok::<_, ParseErrM>(
                                    seq![(params@.last().0@, params@.last().1@)] + rest,
                                ),
                            ));
                            assert(params_view(params0) + (seq![
                                (params@.last().0@, params@.last().1@),
                            ] + rest) =~= params_view(params@) + rest);
                        },
                        Err(_) => {},
                    }
                }
            }
            params
        };
        match self.consume(TokenType::RightParen, "Expected ')' after parameters") {
            Ok(()) => {},
            Err(e) => {
                return Err(e);
            },
        }

        match self.consume(TokenType::LeftBrace, "Expected '{' before function body") {
            Ok(()) => {},
            Err(e) => {
                return Err(e);
            },
        }
        let ghost j6 = self.cur();
        let mut body: Vec<Expr> = Vec::new();
        while !self.check(&TokenType::RightBrace)
            invariant_except_break
                self.wf(),
                self.toks() == ts,
                ts == old(self).toks(),
                old(self).cur() < j6 <= self.cur(),
                ({
                    let (kb, rb) = p_fn_body(ts, j6);
                    rb matches Err(e) ==> p_function_definition(ts, old(self).cur()) == (
                        kb,
                        Err::<ExprM, ParseErrM>(e),
                    )
                }),
                ({
                    let (kh, rh) = p_fn_body(ts, self.cur());
                    let (kf, rf) = p_fn_body(ts, j6);
                    match rh {
                        Ok(rest) => kf == kh && rf == Ok::<_, ParseErrM>(
                            exprs_vm(body@) + rest,
                        ),
                        Err(e) => kf == kh && rf == Err::<Seq<ExprM>, _>(e),
                    }
                }),
            ensures
                self.wf(),
                self.toks() == ts,
                ts == old(self).toks(),
                old(self).cur() < j6 <= self.cur(),
                p_fn_body(ts, j6) == (self.cur(), Ok::<_, ParseErrM>(exprs_vm(body@))),
                self.cur() < ts.len() && self.at_kind() == TokM::RightBrace,
            decreases self.toks().len() - self.cur(),
        {
            let ghost head = self.cur();
            let ghost body0 = body@;
            proof {
                assert(exprs_vm(body0) + Seq::<ExprM>::empty() =~= exprs_vm(body0));
            }
            if self.is_at_end() {
                return Err(self.error_at_end("Expected '}' after function body"));
            }
            match self.expression() {
                Ok(e) => {
                    body.push(e);
                    proof {
                        assert(exprs_vm(body@) =~= exprs_vm(body0).push(
                            expr_view(body@.last()),
                        ));
                    }
                },
                Err(e) => {
                    return Err(e);
                },
            }
            proof {
                assert(self.cur() > head);
                let (kh, rh) = p_fn_body(ts, self.cur());
                match rh {
                    Ok(rest) => {
                        assert(p_fn_body(ts, head) == (
                            kh,
                            Ok::<_, ParseErrM>(seq![expr_view(body@.last())] + rest),
                        ));
                        assert(exprs_vm(body0) + (seq![expr_view(body@.last())] + rest)
                            =~= exprs_vm(body@) + rest);
                    },
                    Err(_) => {},
                }
            }
        }
        match self.consume(TokenType::RightBrace, "Expected '}' after function body") {
            Ok(()) => {},
            Err(e) => {
                return Err(e);
            },
        }

        proof {
            lemma_exprs_view_is_vm(body@);
        }
        Ok(Expr::FunctionDefinition { return_type, name, parameters, body })
    }

    /// Reads one type name: one of the built-in names, the unit type, or a
    /// custom name.
    fn parse_type(&mut self) -> (r: Result<Type, ParseError>)
        requires
            old(self).wf(),
        ensures
            final(self).wf(),
            final(self).toks() == old(self).toks(),
            ({
                let (j, tr) = p_type(old(self).toks(), old(self).cur());
                final(self).cur() == j && match (r, tr) {
                    (Ok(t), Ok(tm)) => t@ == tm,
                    (Err(e), Err(em)) => e@ == em,
                    _ => false,
                }
            }),
    {
        let got = self.advance().is_some();
        if got {
            let t = &self.tokens[self.current - 1];
            match &t.kind {
                TokenType::Identifier(name) => {
                    if crate::util::str_eq(name.as_str(), "num") {
                        Ok(Type::Num)
                    } else if crate::util::str_eq(name.as_str(), "str") {
                        Ok(Type::Str)
                    } else if crate::util::str_eq(name.as_str(), "bool") {
                        Ok(Type::Bool)
                    } else if crate::util::str_eq(name.as_str(), "nun") {
                        Ok(Type::Nun)
                    } else {
                        Ok(Type::Custom(name.clone()))
                    }
                },
                TokenType::Nun => Ok(Type::Nun),
                _ => Err(self.error_at_previous("Expected type name")),
            }
        } else {
            Err(self.error_at_end("Unexpected end of input while parsing type"))
        }
    }

    /// Parses a primary expression with an optional method-style or call
    /// suffix.
    fn function_call(&mut self) -> (r: Result<Expr, ParseError>)
        requires
            old(self).wf(),
        ensures
            final(self).wf(),
            final(self).toks() == old(self).toks(),
            final(self).cur() >= old(self).cur(),
            (r matches Ok(_) && !old(self).spec_at_end()) ==> final(self).cur() > old(self).cur(),
            ({
                let (j, pr) = p_function_call(old(self).toks(), old(self).cur());
                final(self).cur() == j && match (r, pr) {
                    (Ok(e), Ok(em)) => e@ == em,
                    (Err(e), Err(em)) => e@ == em,
                    _ => false,
                }
            }),
        decreases old(self).toks().len() - old(self).cur(), 1int,
    {
        let expr = match self.primary() {
            Ok(e) => e,
            Err(e) => {
                return Err(e);
            },
        };

        if self.match_token(&[TokenType::Dot]) {
            let feather = match expr {
                Expr::Identifier(name) => name,
                _ => {
                    return Err(
                        self.error_at_previous("Expected a feather name before '.'"),
                    );
                },
            };
            let function = match self.consume_identifier("Expected function name after '.'") {
                Ok(n) => n,
                Err(e) => {
                    return Err(e);
                },
            };
            match self.consume(TokenType::LeftParen, "Expected '(' after function name") {
                Ok(()) => {},
                Err(e) => {
                    return Err(e);
                },
            }
            let arguments = match self.arguments() {
                Ok(a) => a,
                Err(e) => {
                    return Err(e);
                },
            };
            proof {
                lemma_exprs_view_is_vm(arguments@);
            }
            return Ok(Expr::FeatherFunctionCall { feather, function, arguments });
        }

        if self.match_token(&[TokenType::LeftParen]) {
            let arguments = match self.arguments() {
                Ok(a) => a,
                Err(e) => {
                    return Err(e);
                },
            };
            proof {
                lemma_exprs_view_is_vm(arguments@);
            }
            return Ok(Expr::FunctionCall { callee: Box::new(expr), arguments });
        }

        Ok(expr)
    }

    /// Parses a possibly empty argument list up to and including the closing
    /// parenthesis.
    fn arguments(&mut self) -> (r: Result<Vec<Expr>, ParseError>)
        requires
            old(self).wf(),
        ensures
            final(self).wf(),
            final(self).toks() == old(self).toks(),
            final(self).cur() >= old(self).cur(),
            ({
                let (j, ar) = p_arguments(old(self).toks(), old(self).cur());
                final(self).cur() == j && match (r, ar) {
                    (Ok(es), Ok(ems)) => exprs_vm(es@) == ems,
                    (Err(e), Err(em)) => e@ == em,
                    _ => false,
                }
            }),
        decreases old(self).toks().len() - old(self).cur(), 4int,
    {
        let args: Vec<Expr> = if self.check(&TokenType::RightParen) {
            proof {
                assert(exprs_vm(Seq::<Expr>::empty()) =~= Seq::<ExprM>::empty());
            }
            Vec::new()
        } else {
            match self.parse_arguments() {
                Ok(es) => es,
                Err(e) => {
                    return Err(e);
                },
            }
        };

        match self.consume(TokenType::RightParen, "Expected ')' after arguments") {
            Ok(()) => {},
            Err(e) => {
                return Err(e);
            },
        }
        Ok(args)
    }

    /// Turns the token under the cursor into a literal or identifier
    /// expression; any other kind is an error.
    fn primary(&mut self) -> (r: Result<Expr, ParseError>)
        requires
            old(self).wf(),
        ensures
            final(self).wf(),
            final(self).toks() == old(self).toks(),
            ({
                let (j, pr) = p_primary(old(self).toks(), old(self).cur());
                final(self).cur() == j && match (r, pr) {
                    (Ok(e), Ok(em)) => e@ == em,
                    (Err(e), Err(em)) => e@ == em,
                    _ => false,
                }
            }),
    {
        let got = self.advance().is_some();
        if got {
            let t = &self.tokens[self.current - 1];
            match &t.kind {
                TokenType::Number(n) => Ok(Expr::Number(n.clone())),
                TokenType::String(s) => Ok(Expr::String(s.clone())),
                TokenType::Boolean(b) => Ok(Expr::Boolean(*b)),
                TokenType::Nun => Ok(Expr::Nun),
                TokenType::Identifier(name) => Ok(Expr::Identifier(name.clone())),
                _ => Err(self.error_at_previous("Unexpected token")),
            }
        } else {
            Err(self.error_at_end("Unexpected end of input"))
        }
    }

    fn error_here(&self, message: &str) -> (r: ParseError)
        ensures
            r@ == perr_here(self.toks(), self.cur(), message@),
    {
        if self.current < self.tokens.len() {
            let t = &self.tokens[self.current];
            ParseError {
                line: t.line,
                column: t.column,
                at: Some(t.lexeme.clone()),
                reason: message.to_owned(),
            }
        } else {
            self.error_at_end(message)
        }
    }

    fn error_at_previous(&self, message: &str) -> (r: ParseError)
        ensures
            r@ == perr_prev(self.toks(), self.cur(), message@),
    {
        if 0 < self.current && self.current - 1 < self.tokens.len() {
            let t = &self.tokens[self.current - 1];
            ParseError {
                line: t.line,
                column: t.column,
                at: Some(t.lexeme.clone()),
                reason: message.to_owned(),
            }
        } else {
            self.error_at_end(message)
        }
    }

    fn error_at_end(&self, message: &str) -> (r: ParseError)
        ensures
            r@ == perr_end(self.toks(), message@),
    {
        let (line, column) = if self.tokens.len() > 0 {
            let t = &self.tokens[self.tokens.len() - 1];
            (t.line, t.column)
        } else {
            (0, 0)
        };
        ParseError { line, column, at: None, reason: message.to_owned() }
    }
}

} // verus!
