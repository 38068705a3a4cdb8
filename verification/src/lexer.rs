use vstd::prelude::*;
use vstd::string::StrSliceExecFns;
use vstd::string::StringExecFns;
use crate::util::{
    char_is_alphanumeric, char_is_space, dec_digits, dec_string, is_digit_char, is_ident_char,
    is_ident_start_char, is_space_char, push_char, str_eq,
};

verus! {

/// The kind of a token. Numeric literals keep their source text: the engine
/// turns the text into an IEEE-754 number only when the literal is evaluated,
/// through a request to the embedder.
#[derive(Debug, PartialEq)]
pub enum TokenType {
    Number(String),
    String(String),
    Boolean(bool),
    Nun,
    Identifier(String),
    // Function related
    Fn,
    Return,
    // Delimiters
    LeftParen,
    RightParen,
    LeftBrace,
    RightBrace,
    Comma,
    Equal,
    // Import
    Imp,
    Dot,
    // Native calls
    Native,
    LeftBracket,
    RightBracket,
    DoubleColon,
    // End of input
    EOF,
}

/// Mathematical image of a token kind: text payloads as character sequences.
pub ghost enum TokM {
    Number(Seq<char>),
    String(Seq<char>),
    Boolean(bool),
    Nun,
    Identifier(Seq<char>),
    Fn,
    Return,
    LeftParen,
    RightParen,
    LeftBrace,
    RightBrace,
    Comma,
    Equal,
    Imp,
    Dot,
    Native,
    LeftBracket,
    RightBracket,
    DoubleColon,
    EOF,
}

impl Clone for TokenType {
    fn clone(&self) -> (r: TokenType)
        ensures
            r == *self,
    {
        match self {
            TokenType::Number(s) => TokenType::Number(s.clone()),
            TokenType::String(s) => TokenType::String(s.clone()),
            TokenType::Boolean(b) => TokenType::Boolean(*b),
            TokenType::Nun => TokenType::Nun,
            TokenType::Identifier(s) => TokenType::Identifier(s.clone()),
            TokenType::Fn => TokenType::Fn,
            TokenType::Return => TokenType::Return,
            TokenType::LeftParen => TokenType::LeftParen,
            TokenType::RightParen => TokenType::RightParen,
            TokenType::LeftBrace => TokenType::LeftBrace,
            TokenType::RightBrace => TokenType::RightBrace,
            TokenType::Comma => TokenType::Comma,
            TokenType::Equal => TokenType::Equal,
            TokenType::Imp => TokenType::Imp,
            TokenType::Dot => TokenType::Dot,
            TokenType::Native => TokenType::Native,
            TokenType::LeftBracket => TokenType::LeftBracket,
            TokenType::RightBracket => TokenType::RightBracket,
            TokenType::DoubleColon => TokenType::DoubleColon,
            TokenType::EOF => TokenType::EOF,
        }
    }
}

impl View for TokenType {
    type V = TokM;

    open spec fn view(&self) -> TokM {
        match self {
            TokenType::Number(s) => TokM::Number(s@),
            TokenType::String(s) => TokM::String(s@),
            TokenType::Boolean(b) => TokM::Boolean(*b),
            TokenType::Nun => TokM::Nun,
            TokenType::Identifier(s) => TokM::Identifier(s@),
            TokenType::Fn => TokM::Fn,
            TokenType::Return => TokM::Return,
            TokenType::LeftParen => TokM::LeftParen,
            TokenType::RightParen => TokM::RightParen,
            TokenType::LeftBrace => TokM::LeftBrace,
            TokenType::RightBrace => TokM::RightBrace,
            TokenType::Comma => TokM::Comma,
            TokenType::Equal => TokM::Equal,
            TokenType::Imp => TokM::Imp,
            TokenType::Dot => TokM::Dot,
            TokenType::Native => TokM::Native,
            TokenType::LeftBracket => TokM::LeftBracket,
            TokenType::RightBracket => TokM::RightBracket,
            TokenType::DoubleColon => TokM::DoubleColon,
            TokenType::EOF => TokM::EOF,
        }
    }
}

#[derive(Debug, PartialEq, Clone)]
pub struct Token {
    pub kind: TokenType,
    pub lexeme: String,
    pub line: usize,
    pub column: usize,
}

#[derive(Debug, PartialEq, Clone)]
pub enum LexErrorKind {
    UnexpectedChar(char),
    UnterminatedString,
    MultipleDecimalPoints,
}

/// A lexing failure, with the position the lexer had reached.
#[derive(Debug, PartialEq, Clone)]
pub struct LexError {
    pub line: usize,
    pub column: usize,
    pub kind: LexErrorKind,
}

/// The text `LexError::message` renders.
pub open spec fn lex_error_text(e: LexError) -> Seq<char> {
    let head = match e.kind {
        LexErrorKind::UnexpectedChar(c) => "Unexpected character: '"@ + seq![c] + "' at line "@,
        LexErrorKind::UnterminatedString => "Unterminated string at line "@,
        LexErrorKind::MultipleDecimalPoints => "Invalid number format at line "@,
    };
    let place = crate::util::dec_digits(e.line as nat) + ", column "@ + crate::util::dec_digits(
        e.column as nat,
    );
    let tail = match e.kind {
        LexErrorKind::MultipleDecimalPoints => ": multiple decimal points"@,
        _ => Seq::<char>::empty(),
    };
    head + place + tail
}

impl LexError {
    /// The failure as the human-readable text the engine reports.
    pub fn message(&self) -> (r: String)
        ensures
            r@ == lex_error_text(*self),
    {
        proof {
            reveal_strlit("Unexpected character: '");
            reveal_strlit("' at line ");
            reveal_strlit("Unterminated string at line ");
            reveal_strlit("Invalid number format at line ");
            reveal_strlit(", column ");
            reveal_strlit(": multiple decimal points");
        }
        let mut s: String = match &self.kind {
            LexErrorKind::UnexpectedChar(c) => {
                let mut t = "Unexpected character: '".to_owned();
                push_char(&mut t, *c);
                t.append("' at line ");
                t
            },
            LexErrorKind::UnterminatedString => "Unterminated string at line ".to_owned(),
            LexErrorKind::MultipleDecimalPoints => "Invalid number format at line ".to_owned(),
        };
        s.append(dec_string(self.line).as_str());
        s.append(", column ");
        s.append(dec_string(self.column).as_str());
        if matches!(&self.kind, LexErrorKind::MultipleDecimalPoints) {
            s.append(": multiple decimal points");
        }
        proof {
            assert(s@ =~= lex_error_text(*self));
        }
        s
    }
}

/// First position at or after `i` that does not hold white space.
pub open spec fn ws_end(s: Seq<char>, i: int) -> int
    decreases s.len() - i,
{
    if 0 <= i < s.len() && is_space_char(s[i]) {
        ws_end(s, i + 1)
    } else {
        i
    }
}

/// First position at or after `i` that does not hold a decimal digit.
pub open spec fn digits_end(s: Seq<char>, i: int) -> int
    decreases s.len() - i,
{
    if 0 <= i < s.len() && is_digit_char(s[i]) {
        digits_end(s, i + 1)
    } else {
        i
    }
}

/// First position at or after `i` that does not continue an identifier.
pub open spec fn ident_end(s: Seq<char>, i: int) -> int
    decreases s.len() - i,
{
    if 0 <= i < s.len() && is_ident_char(s[i]) {
        ident_end(s, i + 1)
    } else {
        i
    }
}

/// First position at or after `i` holding a double quote, or the length.
pub open spec fn quote_end(s: Seq<char>, i: int) -> int
    decreases s.len() - i,
{
    if 0 <= i < s.len() {
        if s[i] == '"' {
            i
        } else {
            quote_end(s, i + 1)
        }
    } else {
        i
    }
}

proof fn lemma_ws_end_ge(s: Seq<char>, i: int)
    ensures
        ws_end(s, i) >= i,
    decreases s.len() - i,
{
    if 0 <= i < s.len() && is_space_char(s[i]) {
        lemma_ws_end_ge(s, i + 1);
    }
}

proof fn lemma_digits_end_ge(s: Seq<char>, i: int)
    ensures
        digits_end(s, i) >= i,
    decreases s.len() - i,
{
    if 0 <= i < s.len() && is_digit_char(s[i]) {
        lemma_digits_end_ge(s, i + 1);
    }
}

proof fn lemma_quote_end_ge(s: Seq<char>, i: int)
    ensures
        quote_end(s, i) >= i,
    decreases s.len() - i,
{
    if 0 <= i < s.len() && s[i] != '"' {
        lemma_quote_end_ge(s, i + 1);
    }
}

proof fn lemma_subrange_push(s: Seq<char>, a: int, b: int)
    requires
        0 <= a <= b < s.len(),
    ensures
        s.subrange(a, b + 1) =~= s.subrange(a, b).push(s[b]),
{
}

/// The keyword table: which identifier texts denote keywords.
pub open spec fn keyword_kind(text: Seq<char>) -> TokM {
    if text == "fn"@ {
        TokM::Fn
    } else if text == "true"@ {
        TokM::Boolean(true)
    } else if text == "false"@ {
        TokM::Boolean(false)
    } else if text == "nun"@ {
        TokM::Nun
    } else if text == "return"@ {
        TokM::Return
    } else if text == "imp"@ {
        TokM::Imp
    } else if text == "NATIVE"@ {
        TokM::Native
    } else {
        TokM::Identifier(text)
    }
}

/// The source text each token kind carries as its lexeme: literal payloads
/// carry their own text, keywords and punctuation their fixed spelling, the
/// end-of-input token nothing.
pub open spec fn lexeme_of(k: TokM) -> Seq<char> {
    match k {
        TokM::Number(t) => t,
        TokM::String(s) => s,
        TokM::Boolean(b) => if b {
            "true"@
        } else {
            "false"@
        },
        TokM::Nun => "nun"@,
        TokM::Identifier(n) => n,
        TokM::Fn => "fn"@,
        TokM::Return => "return"@,
        TokM::LeftParen => "("@,
        TokM::RightParen => ")"@,
        TokM::LeftBrace => "{"@,
        TokM::RightBrace => "}"@,
        TokM::Comma => ","@,
        TokM::Equal => "="@,
        TokM::Imp => "imp"@,
        TokM::Dot => "."@,
        TokM::Native => "NATIVE"@,
        TokM::LeftBracket => "["@,
        TokM::RightBracket => "]"@,
        TokM::DoubleColon => "::"@,
        TokM::EOF => Seq::empty(),
    }
}

/// One step of lexing: the next token starting at `i0`.
pub ghost enum LexStep {
    /// A token whose kind is the first component; lexing continues at the
    /// second component.
    Tok(TokM, int),
    /// End of input (after white space).
    End,
    Fail(LexErrorKind),
}

/// What a numeric literal starting at `i` (a digit position) lexes to.
pub open spec fn lex_number(s: Seq<char>, i: int) -> LexStep {
    let e1 = digits_end(s, i);
    if e1 < s.len() && s[e1] == '.' {
        if e1 + 1 < s.len() && is_digit_char(s[e1 + 1]) {
            let e2 = digits_end(s, e1 + 1);
            if e2 < s.len() && s[e2] == '.' {
                LexStep::Fail(LexErrorKind::MultipleDecimalPoints)
            } else {
                LexStep::Tok(TokM::Number(s.subrange(i, e2)), e2)
            }
        } else {
            LexStep::Tok(TokM::Identifier(s.subrange(i, e1)), e1)
        }
    } else {
        LexStep::Tok(TokM::Number(s.subrange(i, e1)), e1)
    }
}

/// The next token of `s` when lexing resumes at position `i0`.
pub open spec fn lex_step(s: Seq<char>, i0: int) -> LexStep {
    let i = ws_end(s, i0);
    if i >= s.len() {
        LexStep::End
    } else {
        let c = s[i];
        if c == '(' {
            LexStep::Tok(TokM::LeftParen, i + 1)
        } else if c == ')' {
            LexStep::Tok(TokM::RightParen, i + 1)
        } else if c == '{' {
            LexStep::Tok(TokM::LeftBrace, i + 1)
        } else if c == '}' {
            LexStep::Tok(TokM::RightBrace, i + 1)
        } else if c == ',' {
            LexStep::Tok(TokM::Comma, i + 1)
        } else if c == '=' {
            LexStep::Tok(TokM::Equal, i + 1)
        } else if c == '.' {
            LexStep::Tok(TokM::Dot, i + 1)
        } else if c == '[' {
            LexStep::Tok(TokM::LeftBracket, i + 1)
        } else if c == ']' {
            LexStep::Tok(TokM::RightBracket, i + 1)
        } else if c == ':' {
            if i + 1 < s.len() && s[i + 1] == ':' {
                LexStep::Tok(TokM::DoubleColon, i + 2)
            } else {
                LexStep::Fail(LexErrorKind::UnexpectedChar(':'))
            }
        } else if c == '"' {
            let q = quote_end(s, i + 1);
            if q < s.len() {
                LexStep::Tok(TokM::String(s.subrange(i + 1, q)), q + 1)
            } else {
                LexStep::Fail(LexErrorKind::UnterminatedString)
            }
        } else if is_digit_char(c) {
            lex_number(s, i)
        } else if is_ident_start_char(c) {
            let e = ident_end(s, i);
            LexStep::Tok(keyword_kind(s.subrange(i, e)), e)
        } else {
            LexStep::Fail(LexErrorKind::UnexpectedChar(c))
        }
    }
}

/// The whole token-kind sequence of `s` from position `i`, ending in `EOF`,
/// or the first failure.
pub open spec fn lex_all(s: Seq<char>, i: int) -> Result<Seq<TokM>, LexErrorKind>
    decreases s.len() - i,
{
    match lex_step(s, i) {
        LexStep::End => Ok(seq![TokM::EOF]),
        LexStep::Fail(k) => Err(k),
        LexStep::Tok(t, j) => {
            if i < j <= s.len() {
                match lex_all(s, j) {
                    Ok(rest) => Ok(seq![t] + rest),
                    Err(k) => Err(k),
                }
            } else {
                // lex_step always advances; this guard only bounds the recursion.
                Err(LexErrorKind::UnterminatedString)
            }
        },
    }
}

/// `lex_step` never yields an `EOF`-kind token: end of input is `End`.
pub proof fn lemma_step_kind_not_eof(s: Seq<char>, i: int)
    ensures
        !(lex_step(s, i) matches LexStep::Tok(k, j) && k == TokM::EOF),
{
}

/// The kinds of a token sequence.
pub open spec fn kinds_of(ts: Seq<Token>) -> Seq<TokM> {
    ts.map(|i: int, t: Token| t.kind@)
}

pub struct Lexer {
    input: Vec<char>,
    position: usize,
    line: usize,
    column: usize,
}

impl Lexer {
    pub closed spec fn chars(&self) -> Seq<char> {
        self.input@
    }

    pub closed spec fn pos(&self) -> int {
        self.position as int
    }

    pub closed spec fn wf(&self) -> bool {
        self.position <= self.input.len()
    }

    #[verifier::loop_isolation(false)]
    pub fn new(input: &str) -> (r: Lexer)
        ensures
            r.chars() == input@,
            r.pos() == 0,
            r.wf(),
    {
        let n = input.unicode_len();
        let mut chars: Vec<char> = Vec::new();
        let mut i: usize = 0;
        while i < n
            invariant
                n == input@.len(),
                i <= n,
                chars@ =~= input@.subrange(0, i as int),
            decreases n - i,
        {
            chars.push(input.get_char(i));
            i = i + 1;
        }
        proof {
            assert(chars@ =~= input@);
        }
        Lexer { input: chars, position: 0, line: 1, column: 1 }
    }

    fn is_at_end(&self) -> (r: bool)
        ensures
            r == (self.pos() >= self.chars().len()),
    {
        self.position >= self.input.len()
    }

    fn peek(&self) -> (r: Option<char>)
        ensures
            r == (if self.pos() < self.chars().len() {
                Some(self.chars()[self.pos()])
            } else {
                None::<char>
            }),
    {
        if self.position < self.input.len() {
            Some(self.input[self.position])
        } else {
            None
        }
    }

    fn peek_next(&self) -> (r: Option<char>)
        requires
            self.wf(),
        ensures
            r == (if self.pos() + 1 < self.chars().len() {
                Some(self.chars()[self.pos() + 1])
            } else {
                None::<char>
            }),
    {
        if self.input.len() - self.position >= 2 {
            Some(self.input[self.position + 1])
        } else {
            None
        }
    }

    fn advance(&mut self) -> (c: char)
        requires
            old(self).wf(),
            old(self).pos() < old(self).chars().len(),
        ensures
            final(self).wf(),
            final(self).chars() == old(self).chars(),
            final(self).pos() == old(self).pos() + 1,
            c == old(self).chars()[old(self).pos()],
    {
        let c = self.input[self.position];
        self.position = self.position + 1;

        if c == '\n' {
            if self.line < usize::MAX {
                self.line = self.line + 1;
            }
            self.column = 1;
        } else {
            if self.column < usize::MAX {
                self.column = self.column + 1;
            }
        }

        c
    }

    #[verifier::loop_isolation(false)]
    fn skip_whitespace(&mut self)
        requires
            old(self).wf(),
        ensures
            final(self).wf(),
            final(self).chars() == old(self).chars(),
            final(self).pos() == ws_end(old(self).chars(), old(self).pos()),
    {
        while self.position < self.input.len() && char_is_space(self.input[self.position])
            invariant
                self.wf(),
                self.chars() == old(self).chars(),
                ws_end(self.chars(), self.pos()) == ws_end(old(self).chars(), old(self).pos()),
            decreases self.chars().len() - self.pos(),
        {
            self.advance();
        }
    }

    /// Lexes a string literal; `position` stands on the opening quote.
    #[verifier::loop_isolation(false)]
    fn string(&mut self) -> (r: Result<Token, LexError>)
        requires
            old(self).wf(),
            old(self).pos() < old(self).chars().len(),
            old(self).chars()[old(self).pos()] == '"',
        ensures
            final(self).wf(),
            final(self).chars() == old(self).chars(),
            ({
                let s = old(self).chars();
                let i = old(self).pos();
                let q = quote_end(s, i + 1);
                match r {
                    Ok(t) => q < s.len() && t.kind@ == TokM::String(s.subrange(i + 1, q))
                        && t.lexeme@ == lexeme_of(t.kind@) && final(self).pos() == q + 1,
                    Err(e) => q >= s.len() && e.kind == LexErrorKind::UnterminatedString,
                }
            }),
    {
        self.advance();
        let mut value = String::new();
        let start_column = self.column;
        let ghost s = self.chars();
        let ghost start = self.pos();

        while self.position < self.input.len() && self.input[self.position] != '"'
            invariant
                self.wf(),
                self.chars() == s,
                start <= self.pos() <= s.len(),
                value@ =~= s.subrange(start, self.pos()),
                quote_end(s, self.pos()) == quote_end(s, start),
            decreases s.len() - self.pos(),
        {
            let c = self.advance();
            push_char(&mut value, c);
            proof {
                lemma_subrange_push(s, start, self.pos() - 1);
                assert(value@ =~= s.subrange(start, self.pos()));
            }
        }
        if self.is_at_end() {
            proof {
                assert(quote_end(s, start) >= s.len());
            }
            return Err(
                LexError {
                    line: self.line,
                    column: self.column,
                    kind: LexErrorKind::UnterminatedString,
                },
            );
        }
        proof {
            assert(quote_end(s, start) == self.pos());
        }
        self.advance();
        Ok(
            Token {
                kind: TokenType::String(value.clone()),
                lexeme: value,
                line: self.line,
                column: start_column,
            },
        )
    }

    /// Lexes a numeric literal; `position` stands on a digit.
    #[verifier::loop_isolation(false)]
    fn number(&mut self) -> (r: Result<Token, LexError>)
        requires
            old(self).wf(),
            old(self).pos() < old(self).chars().len(),
            is_digit_char(old(self).chars()[old(self).pos()]),
        ensures
            final(self).wf(),
            final(self).chars() == old(self).chars(),
            ({
                let step = lex_number(old(self).chars(), old(self).pos());
                match r {
                    Ok(t) => step matches LexStep::Tok(k, j) && t.kind@ == k
                        && final(self).pos() == j && t.lexeme@ == lexeme_of(t.kind@),
                    Err(e) => step == LexStep::Fail(e.kind),
                }
            }),
    {
        let mut value = String::new();
        let start_column = self.column;
        let ghost s = self.chars();
        let ghost start = self.pos();
        let ghost e1 = digits_end(s, start);

        // First run of digits.
        while self.position < self.input.len() && self.input[self.position] >= '0'
            && self.input[self.position] <= '9'
            invariant
                self.wf(),
                self.chars() == s,
                start <= self.pos() <= s.len(),
                value@ =~= s.subrange(start, self.pos()),
                digits_end(s, self.pos()) == e1,
            decreases s.len() - self.pos(),
        {
            let c = self.advance();
            push_char(&mut value, c);
            proof {
                lemma_subrange_push(s, start, self.pos() - 1);
                assert(value@ =~= s.subrange(start, self.pos()));
            }
        }
        proof {
            assert(self.pos() == e1);
        }

        // A decimal point continues the literal only when a digit follows.
        let has_fraction = match (self.peek(), self.peek_next()) {
            (Some('.'), Some(d)) => d >= '0' && d <= '9',
            _ => false,
        };

        if has_fraction {
            let c = self.advance();
            push_char(&mut value, c);
            proof {
                lemma_subrange_push(s, start, self.pos() - 1);
            }
            let ghost e2 = digits_end(s, e1 + 1);
            while self.position < self.input.len() && self.input[self.position] >= '0'
                && self.input[self.position] <= '9'
                invariant
                    self.wf(),
                    self.chars() == s,
                    e1 + 1 <= self.pos() <= s.len(),
                    value@ =~= s.subrange(start, self.pos()),
                    digits_end(s, self.pos()) == e2,
                decreases s.len() - self.pos(),
            {
                let c = self.advance();
                push_char(&mut value, c);
                proof {
                    lemma_subrange_push(s, start, self.pos() - 1);
                    assert(value@ =~= s.subrange(start, self.pos()));
                }
            }
            proof {
                assert(self.pos() == e2);
            }
            // A second decimal point is malformed.
            match self.peek() {
                Some('.') => {
                    return Err(
                        LexError {
                            line: self.line,
                            column: self.column,
                            kind: LexErrorKind::MultipleDecimalPoints,
                        },
                    );
                },
                _ => {},
            }
            Ok(
                Token {
                    kind: TokenType::Number(value.clone()),
                    lexeme: value,
                    line: self.line,
                    column: start_column,
                },
            )
        } else {
            // Digits followed by a bare `.` form an identifier, so that a
            // method-style call on a number literal lexes as
            // identifier-dot-identifier.
            let stops_at_dot = match self.peek() {
                Some('.') => true,
                _ => false,
            };
            if stops_at_dot {
                Ok(
                    Token {
                        kind: TokenType::Identifier(value.clone()),
                        lexeme: value,
                        line: self.line,
                        column: start_column,
                    },
                )
            } else {
                Ok(
                    Token {
                        kind: TokenType::Number(value.clone()),
                        lexeme: value,
                        line: self.line,
                        column: start_column,
                    },
                )
            }
        }
    }

    /// Lexes an identifier or keyword; `position` stands on its first character.
    #[verifier::loop_isolation(false)]
    fn identifier_or_keyword(&mut self) -> (r: Result<Token, LexError>)
        requires
            old(self).wf(),
            old(self).pos() < old(self).chars().len(),
            is_ident_start_char(old(self).chars()[old(self).pos()]),
        ensures
            final(self).wf(),
            final(self).chars() == old(self).chars(),
            final(self).pos() > old(self).pos(),
            ({
                let s = old(self).chars();
                let i = old(self).pos();
                let e = ident_end(s, i);
                match r {
                    Ok(t) => t.kind@ == keyword_kind(s.subrange(i, e)) && final(self).pos() == e
                        && t.lexeme@ == s.subrange(i, e) && t.lexeme@ == lexeme_of(t.kind@),
                    Err(_) => false,
                }
            }),
    {
        let mut value = String::new();
        let start_column = self.column;
        let ghost s = self.chars();
        let ghost start = self.pos();

        while self.position < self.input.len() && (char_is_alphanumeric(
            self.input[self.position],
        ) || self.input[self.position] == '_')
            invariant
                self.wf(),
                self.chars() == s,
                start <= self.pos() <= s.len(),
                value@ =~= s.subrange(start, self.pos()),
                ident_end(s, self.pos()) == ident_end(s, start),
            decreases s.len() - self.pos(),
        {
            let c = self.advance();
            push_char(&mut value, c);
            proof {
                lemma_subrange_push(s, start, self.pos() - 1);
                assert(value@ =~= s.subrange(start, self.pos()));
            }
        }
        proof {
            assert(self.pos() == ident_end(s, start));
        }

        let kind = if str_eq(value.as_str(), "fn") {
            TokenType::Fn
        } else if str_eq(value.as_str(), "true") {
            TokenType::Boolean(true)
        } else if str_eq(value.as_str(), "false") {
            TokenType::Boolean(false)
        } else if str_eq(value.as_str(), "nun") {
            TokenType::Nun
        } else if str_eq(value.as_str(), "return") {
            TokenType::Return
        } else if str_eq(value.as_str(), "imp") {
            TokenType::Imp
        } else if str_eq(value.as_str(), "NATIVE") {
            TokenType::Native
        } else {
            TokenType::Identifier(value.clone())
        };

        Ok(Token { kind, lexeme: value, line: self.line, column: start_column })
    }

    fn next_token(&mut self) -> (r: Result<Token, LexError>)
        requires
            old(self).wf(),
        ensures
            final(self).wf(),
            final(self).chars() == old(self).chars(),
            ({
                let step = lex_step(old(self).chars(), old(self).pos());
                match r {
                    Ok(t) => t.lexeme@ == lexeme_of(t.kind@) && ((step matches LexStep::Tok(k, j)
                        && t.kind@ == k && final(self).pos() == j && old(self).pos() < j) || (
                    step == LexStep::End && t.kind@ == TokM::EOF && final(self).pos() == old(
                        self,
                    ).chars().len())),
                    Err(e) => step == LexStep::Fail(e.kind),
                }
            }),
    {
        self.skip_whitespace();

        if self.is_at_end() {
            proof {
                reveal_strlit("");
            }
            return Ok(
                Token {
                    kind: TokenType::EOF,
                    lexeme: "".to_owned(),
                    line: self.line,
                    column: self.column,
                },
            );
        }

        let ghost s = self.chars();
        let ghost i = self.pos();
        proof {
            lemma_ws_end_ge(s, old(self).pos());
        }
        let c = match self.peek() {
            Some(c) => c,
            None => {
                proof {
                    assert(false);
                }
                ' '
            },
        };
        let start_column = self.column;

        if c == '(' {
            self.advance();
            Ok(Token { kind: TokenType::LeftParen, lexeme: "(".to_owned(), line: self.line, column: start_column })
        } else if c == ')' {
            self.advance();
            Ok(Token { kind: TokenType::RightParen, lexeme: ")".to_owned(), line: self.line, column: start_column })
        } else if c == '{' {
            self.advance();
            Ok(Token { kind: TokenType::LeftBrace, lexeme: "{".to_owned(), line: self.line, column: start_column })
        } else if c == '}' {
            self.advance();
            Ok(Token { kind: TokenType::RightBrace, lexeme: "}".to_owned(), line: self.line, column: start_column })
        } else if c == ',' {
            self.advance();
            Ok(Token { kind: TokenType::Comma, lexeme: ",".to_owned(), line: self.line, column: start_column })
        } else if c == '=' {
            self.advance();
            Ok(Token { kind: TokenType::Equal, lexeme: "=".to_owned(), line: self.line, column: start_column })
        } else if c == '.' {
            self.advance();
            Ok(Token { kind: TokenType::Dot, lexeme: ".".to_owned(), line: self.line, column: start_column })
        } else if c == '[' {
            self.advance();
            Ok(Token { kind: TokenType::LeftBracket, lexeme: "[".to_owned(), line: self.line, column: start_column })
        } else if c == ']' {
            self.advance();
            Ok(Token { kind: TokenType::RightBracket, lexeme: "]".to_owned(), line: self.line, column: start_column })
        } else if c == ':' {
            let two = match self.peek_next() {
                Some(':') => true,
                _ => false,
            };
            if two {
                self.advance();
                self.advance();
                Ok(Token { kind: TokenType::DoubleColon, lexeme: "::".to_owned(), line: self.line, column: start_column })
            } else {
                Err(LexError { line: self.line, column: self.column, kind: LexErrorKind::UnexpectedChar(':') })
            }
        } else if c == '"' {
            proof {
                lemma_quote_end_ge(s, i + 1);
            }
            self.string()
        } else if c >= '0' && c <= '9' {
            proof {
                lemma_digits_end_ge(s, i + 1);
                lemma_digits_end_ge(s, digits_end(s, i) + 1);
            }
            self.number()
        } else if (c >= 'a' && c <= 'z') || (c >= 'A' && c <= 'Z') || c == '_' {
            self.identifier_or_keyword()
        } else {
            Err(LexError { line: self.line, column: self.column, kind: LexErrorKind::UnexpectedChar(c) })
        }
    }

    /// Tokenizes the whole input. On success the result is exactly the token
    /// sequence `lex_all` gives, the last token and only that one being `EOF`.
    #[verifier::loop_isolation(false)]
    pub fn tokenize(&mut self) -> (r: Result<Vec<Token>, LexError>)
        requires
            old(self).wf(),
        ensures
            match r {
                Ok(ts) => lex_all(old(self).chars(), old(self).pos()) == Ok::<_, LexErrorKind>(
                    kinds_of(ts@),
                ) && (forall|i: int|
                    0 <= i < ts@.len() ==> (#[trigger] ts@[i]).lexeme@ == lexeme_of(
                        ts@[i].kind@,
                    )),
                Err(e) => lex_all(old(self).chars(), old(self).pos()) == Err::<Seq<TokM>, _>(
                    e.kind,
                ),
            },
    {
        let mut tokens: Vec<Token> = Vec::new();
        let ghost s = self.chars();
        let ghost start = self.pos();

        loop
            invariant
                self.wf(),
                self.chars() == s,
                forall|i: int|
                    0 <= i < tokens@.len() ==> (#[trigger] tokens@[i]).lexeme@ == lexeme_of(
                        tokens@[i].kind@,
                    ),
                ({
                    match lex_all(s, self.pos()) {
                        Ok(rest) => lex_all(s, start) == Ok::<_, LexErrorKind>(
                            kinds_of(tokens@) + rest,
                        ),
                        Err(k) => lex_all(s, start) == Err::<Seq<TokM>, _>(k),
                    }
                }),
            decreases s.len() - self.pos(),
        {
            let ghost p = self.pos();
            proof {
                assert(kinds_of(tokens@) + Seq::<TokM>::empty() =~= kinds_of(tokens@));
            }
            match self.next_token() {
                Ok(token) => {
                    let ghost k = token.kind@;
                    let ghost toks0 = tokens@;
                    let is_eof = matches!(token.kind, TokenType::EOF);
                    tokens.push(token);
                    proof {
                        assert(kinds_of(tokens@) =~= kinds_of(toks0) + seq![k]);
                        lemma_step_kind_not_eof(s, p);
                    }
                    if is_eof {
                        proof {
                            assert(lex_step(s, p) == LexStep::End);
                            assert(lex_all(s, p) == Ok::<_, LexErrorKind>(seq![TokM::EOF]));
                            assert(kinds_of(toks0) + seq![TokM::EOF] =~= kinds_of(tokens@));
                        }
                        return Ok(tokens);
                    }
                    proof {
                        assert(k != TokM::EOF);
                        assert(lex_step(s, p) matches LexStep::Tok(k2, j) && k2 == k
                            && j == self.pos() && p < j);
                        assert(self.pos() <= s.len());
                        match lex_all(s, self.pos()) {
                            Ok(rest) => {
                                assert(lex_all(s, p) == Ok::<_, LexErrorKind>(seq![k] + rest));
                                assert(kinds_of(toks0) + (seq![k] + rest) =~= kinds_of(tokens@)
                                    + rest);
                            },
                            Err(_) => {},
                        }
                    }
                },
                Err(err) => {
                    return Err(err);
                },
            }
        }
    }
}

/// The kinds of the tokens, in order; what tests compare against.
#[verifier::loop_isolation(false)]
    pub fn tokens_to_token_types(tokens: Vec<Token>) -> (r: Vec<TokenType>)
    ensures
        r@.map(|i: int, k: TokenType| k@) == kinds_of(tokens@),
{
    let mut out: Vec<TokenType> = Vec::new();
    let mut i: usize = 0;
    while i < tokens.len()
        invariant
            i <= tokens.len(),
            out@.len() == i as int,
            forall|j: int| 0 <= j < i ==> out@[j]@ == tokens@[j].kind@,
        decreases tokens.len() - i,
    {
        out.push(tokens[i].kind.clone());
        i = i + 1;
    }
    proof {
        assert(out@.map(|i: int, k: TokenType| k@) =~= kinds_of(tokens@));
    }
    out
}

} // verus!
