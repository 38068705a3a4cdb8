use vstd::prelude::*;
use crate::errors::ErrM;
use crate::feather::{feather_path_spec, feather_table, import_spec, FmM};
use crate::interpreter::{
    bind_params, call_value, eval_body, eval_expr, lookup_frames, EvalR, FrameM, St, ValueM,
};
use crate::lexer::{
    digits_end, ident_end, keyword_kind, lemma_step_kind_not_eof, lex_all, lex_number, lex_step,
    ws_end, LexStep, TokM,
};
use crate::oracle::{AnsM, FeatherSourceM, ReqM, StopM};
use crate::parser::{p_parse, ExprM, ParseErrM};
use crate::lexer::Token;
use crate::std_functions::{is_zero_bits, std_call_spec};
use crate::util::{is_digit_char, is_space_char};

verus! {

/// Every position in `[a, b)` holds a decimal digit.
pub open spec fn all_digits(s: Seq<char>, a: int, b: int) -> bool {
    forall|j: int| a <= j < b ==> is_digit_char(#[trigger] s[j])
}

/// A well-formed numeric literal: digits, optionally an interior decimal
/// point with digits on both sides.
pub open spec fn well_formed_literal(s: Seq<char>) -> bool {
    (s.len() >= 1 && all_digits(s, 0, s.len() as int)) || (exists|k: int|
        1 <= k <= s.len() - 2 && s[k] == '.' && all_digits(s, 0, k) && all_digits(
            s,
            k + 1,
            s.len() as int,
        ))
}

proof fn lemma_digit_not_space(c: char)
    requires
        is_digit_char(c),
    ensures
        !is_space_char(c),
{
}

proof fn lemma_digits_end_of_run(s: Seq<char>, a: int, b: int)
    requires
        0 <= a <= b <= s.len(),
        all_digits(s, a, b),
        b == s.len() || !is_digit_char(s[b]),
    ensures
        digits_end(s, a) == b,
    decreases b - a,
{
    if a < b {
        lemma_digits_end_of_run(s, a + 1, b);
    }
}

/// For every well-formed numeric literal, lexing yields exactly one number
/// token carrying the literal's text, followed by the end-of-input token.
pub proof fn literal_lexes_to_number_token(s: Seq<char>)
    requires
        well_formed_literal(s),
    ensures
        lex_all(s, 0) == Ok::<Seq<TokM>, crate::lexer::LexErrorKind>(
            seq![TokM::Number(s), TokM::EOF],
        ),
{
    assert(is_digit_char(s[0]));
    lemma_digit_not_space(s[0]);
    assert(ws_end(s, 0) == 0);
    if all_digits(s, 0, s.len() as int) {
        lemma_digits_end_of_run(s, 0, s.len() as int);
        assert(s.subrange(0, s.len() as int) =~= s);
        assert(lex_step(s, 0) == LexStep::Tok(TokM::Number(s), s.len() as int));
    } else {
        let k = choose|k: int|
            1 <= k <= s.len() - 2 && s[k] == '.' && all_digits(s, 0, k) && all_digits(
                s,
                k + 1,
                s.len() as int,
            );
        assert(!is_digit_char('.')) by {
        }
        lemma_digits_end_of_run(s, 0, k);
        lemma_digits_end_of_run(s, k + 1, s.len() as int);
        assert(s.subrange(0, s.len() as int) =~= s);
        assert(lex_number(s, 0) == LexStep::Tok(TokM::Number(s), s.len() as int));
    }
    assert(ws_end(s, s.len() as int) == s.len());
    assert(lex_all(s, s.len() as int) == Ok::<Seq<TokM>, crate::lexer::LexErrorKind>(
        seq![TokM::EOF],
    ));
    assert(seq![TokM::Number(s)] + seq![TokM::EOF] =~= seq![TokM::Number(s), TokM::EOF]);
}

/// A successful lexing always ends with the end-of-input token and yields it
/// exactly once: `EOF` stands last and nowhere else.
pub proof fn tokens_end_with_one_eof(s: Seq<char>, i: int)
    ensures
        lex_all(s, i) matches Ok(ks) ==> ks.len() >= 1 && ks.last() == TokM::EOF && (forall|j: int|
            0 <= j < ks.len() - 1 ==> ks[j] != TokM::EOF),
    decreases s.len() - i,
{
    match lex_step(s, i) {
        LexStep::End => {},
        LexStep::Fail(_) => {},
        LexStep::Tok(t, j) => {
            if i < j <= s.len() {
                tokens_end_with_one_eof(s, j);
                lemma_step_kind_not_eof(s, i);
                match lex_all(s, j) {
                    Ok(rest) => {
                        assert(lex_all(s, i) == Ok::<Seq<TokM>, crate::lexer::LexErrorKind>(
                            seq![t] + rest,
                        ));
                        assert((seq![t] + rest).last() == rest.last());
                        assert(forall|k: int|
                            0 <= k < (seq![t] + rest).len() - 1 ==> (seq![t] + rest)[k]
                                != TokM::EOF);
                    },
                    Err(_) => {},
                }
            }
        },
    }
}

proof fn lemma_ws_end_of_run(s: Seq<char>, a: int, b: int)
    requires
        0 <= a <= b <= s.len(),
        forall|j: int| a <= j < b ==> is_space_char(#[trigger] s[j]),
        b == s.len() || !is_space_char(s[b]),
    ensures
        ws_end(s, a) == b,
    decreases b - a,
{
    if a < b {
        lemma_ws_end_of_run(s, a + 1, b);
    }
}

/// Empty input, or input holding nothing but white space, lexes to exactly
/// the end-of-input token.
pub proof fn blank_input_lexes_to_eof(s: Seq<char>)
    requires
        forall|j: int| 0 <= j < s.len() ==> is_space_char(#[trigger] s[j]),
    ensures
        lex_all(s, 0) == Ok::<Seq<TokM>, crate::lexer::LexErrorKind>(seq![TokM::EOF]),
{
    lemma_ws_end_of_run(s, 0, s.len() as int);
}

/// A token sequence holding one numeric literal parses to exactly that one
/// literal expression: the middle step of the literal round trip, between
/// `literal_lexes_to_number_token` and `literal_evaluates_to_its_number`.
pub proof fn literal_parses_to_number(ts: Seq<Token>, txt: Seq<char>)
    requires
        ts.len() == 2,
        ts[0].kind@ == TokM::Number(txt),
        ts[1].kind@ == TokM::EOF,
    ensures
        p_parse(ts, 0) == (1int, Ok::<Seq<ExprM>, ParseErrM>(seq![ExprM::Number(txt)])),
{
    assert(crate::parser::p_primary(ts, 0) == (
        1int,
        Ok::<ExprM, ParseErrM>(ExprM::Number(txt)),
    ));
    assert(crate::parser::p_function_call(ts, 0) == (
        1int,
        Ok::<ExprM, ParseErrM>(ExprM::Number(txt)),
    ));
    assert(crate::parser::p_expression(ts, 0) == (
        1int,
        Ok::<ExprM, ParseErrM>(ExprM::Number(txt)),
    ));
    assert(p_parse(ts, 1) == (1int, Ok::<Seq<ExprM>, ParseErrM>(Seq::empty())));
    assert(seq![ExprM::Number(txt)] + Seq::<ExprM>::empty() =~= seq![ExprM::Number(txt)]);
}

/// Digits followed by a bare decimal point lex as an identifier with the dot
/// left over, so that method syntax works on numeric receivers: the input
/// `42.add(3)` lexes to exactly identifier, dot, identifier, parenthesised
/// number.
pub proof fn number_then_dot_lexes_as_identifier()
    ensures
        lex_all("42.add(3)"@, 0) == Ok::<Seq<TokM>, crate::lexer::LexErrorKind>(
            seq![
                TokM::Identifier("42"@),
                TokM::Dot,
                TokM::Identifier("add"@),
                TokM::LeftParen,
                TokM::Number("3"@),
                TokM::RightParen,
                TokM::EOF,
            ],
        ),
{
    reveal_strlit("42.add(3)");
    reveal_strlit("42");
    reveal_strlit("add");
    reveal_strlit("3");
    reveal_strlit("fn");
    reveal_strlit("true");
    reveal_strlit("false");
    reveal_strlit("nun");
    reveal_strlit("return");
    reveal_strlit("imp");
    reveal_strlit("NATIVE");
    let s = "42.add(3)"@;
    assert(s.len() == 9);

    // No white space anywhere in the input.
    assert(forall|i: int| 0 <= i < 9 ==> ws_end(s, i) == i);

    // `42` is a digit run stopped by the dot, with no digit after the dot.
    assert(digits_end(s, 2) == 2);
    assert(digits_end(s, 1) == 2);
    assert(digits_end(s, 0) == 2);
    assert(lex_number(s, 0) == LexStep::Tok(TokM::Identifier(s.subrange(0, 2)), 2int));
    assert(s.subrange(0, 2) =~= "42"@);
    assert(lex_step(s, 0) == LexStep::Tok(TokM::Identifier("42"@), 2int));

    // The dot itself.
    assert(lex_step(s, 2) == LexStep::Tok(TokM::Dot, 3int));

    // `add` is an identifier run stopped by the parenthesis.
    assert(ident_end(s, 6) == 6);
    assert(ident_end(s, 5) == 6);
    assert(ident_end(s, 4) == 6);
    assert(ident_end(s, 3) == 6);
    assert(s.subrange(3, 6) =~= "add"@);
    assert("add"@ != "fn"@ && "add"@ != "true"@ && "add"@ != "false"@ && "add"@ != "return"@
        && "add"@ != "NATIVE"@);
    assert("add"@ != "nun"@) by {
        assert("add"@[0] == 'a' && "nun"@[0] == 'n');
    }
    assert("add"@ != "imp"@) by {
        assert("add"@[0] == 'a' && "imp"@[0] == 'i');
    }
    assert(keyword_kind("add"@) == TokM::Identifier("add"@));
    assert(lex_step(s, 3) == LexStep::Tok(TokM::Identifier("add"@), 6int));

    assert(lex_step(s, 6) == LexStep::Tok(TokM::LeftParen, 7int));

    // `3` is a digit run stopped by the parenthesis.
    assert(digits_end(s, 8) == 8);
    assert(digits_end(s, 7) == 8);
    assert(s.subrange(7, 8) =~= "3"@);
    assert(lex_number(s, 7) == LexStep::Tok(TokM::Number("3"@), 8int));
    assert(lex_step(s, 7) == LexStep::Tok(TokM::Number("3"@), 8int));

    assert(lex_step(s, 8) == LexStep::Tok(TokM::RightParen, 9int));
    assert(lex_step(s, 9) == LexStep::End);

    // Chain the steps from the back.
    assert(lex_all(s, 9) == Ok::<Seq<TokM>, crate::lexer::LexErrorKind>(seq![TokM::EOF]));
    assert(lex_all(s, 8) == Ok::<Seq<TokM>, crate::lexer::LexErrorKind>(
        seq![TokM::RightParen] + seq![TokM::EOF],
    ));
    assert(lex_all(s, 7) == Ok::<Seq<TokM>, crate::lexer::LexErrorKind>(
        seq![TokM::Number("3"@)] + (seq![TokM::RightParen] + seq![TokM::EOF]),
    ));
    assert(lex_all(s, 6) == Ok::<Seq<TokM>, crate::lexer::LexErrorKind>(
        seq![TokM::LeftParen] + (seq![TokM::Number("3"@)] + (seq![TokM::RightParen] + seq![
            TokM::EOF,
        ])),
    ));
    assert(lex_all(s, 3) == Ok::<Seq<TokM>, crate::lexer::LexErrorKind>(
        seq![TokM::Identifier("add"@)] + (seq![TokM::LeftParen] + (seq![TokM::Number("3"@)] + (
        seq![TokM::RightParen] + seq![TokM::EOF]))),
    ));
    assert(lex_all(s, 2) == Ok::<Seq<TokM>, crate::lexer::LexErrorKind>(
        seq![TokM::Dot] + (seq![TokM::Identifier("add"@)] + (seq![TokM::LeftParen] + (seq![
            TokM::Number("3"@),
        ] + (seq![TokM::RightParen] + seq![TokM::EOF])))),
    ));
    assert(lex_all(s, 0) == Ok::<Seq<TokM>, crate::lexer::LexErrorKind>(
        seq![TokM::Identifier("42"@)] + (seq![TokM::Dot] + (seq![TokM::Identifier("add"@)] + (
        seq![TokM::LeftParen] + (seq![TokM::Number("3"@)] + (seq![TokM::RightParen] + seq![
            TokM::EOF,
        ]))))),
    ));
    assert(seq![TokM::Identifier("42"@)] + (seq![TokM::Dot] + (seq![TokM::Identifier("add"@)]
        + (seq![TokM::LeftParen] + (seq![TokM::Number("3"@)] + (seq![TokM::RightParen] + seq![
        TokM::EOF,
    ]))))) =~= seq![
        TokM::Identifier("42"@),
        TokM::Dot,
        TokM::Identifier("add"@),
        TokM::LeftParen,
        TokM::Number("3"@),
        TokM::RightParen,
        TokM::EOF,
    ]);
}

/// Evaluating a numeric literal asks the embedder for exactly that
/// literal's IEEE-754 bits, and the result is exactly the number the
/// embedder answers: together with `literal_lexes_to_number_token` and the
/// contract of `Parser::parse`, lexing then parsing then evaluating a
/// well-formed literal yields the number the literal's text denotes.
pub proof fn literal_evaluates_to_its_number(st: St, text: Seq<char>, env: int, fuel: nat)
    ensures
        st.pos >= st.answers.len() ==> eval_expr(st, ExprM::Number(text), env, fuel) == (
            st,
            EvalR::Halt(StopM::Pending(ReqM::ParseNumber(text))),
        ),
        (st.pos < st.answers.len() && st.answers[st.pos] matches AnsM::Bits(_)) ==> eval_expr(
            st,
            ExprM::Number(text),
            env,
            fuel,
        ) == (
            St { pos: st.pos + 1, ..st },
            EvalR::Val(ValueM::Number(st.answers[st.pos]->Bits_0)),
        ),
{
}

/// A closure resolves its free names against the environment captured when
/// it was defined: calling a function whose body returns a free name yields
/// the value that name has in the function's closure frame, whatever any
/// other frame (in particular the caller's) binds it to. Stated over
/// `call_value`, with which `Interpreter::call_function` is proved to agree
/// exactly; the caller's frame is not even an input of the dispatch.
pub proof fn closure_sees_definition_scope(st: St, idx: int, x: Seq<char>, v: ValueM, fuel: nat)
    requires
        0 <= idx < st.funcs.len(),
        0 <= st.funcs[idx].closure < st.frames.len(),
        st.funcs[idx].params.len() == 0,
        st.funcs[idx].body == seq![ExprM::Return(Box::new(ExprM::Identifier(x)))],
        lookup_frames(st.frames, st.funcs[idx].closure, x) == Some(v),
        fuel >= 1,
    ensures
        ({
            let (st2, r) = call_value(st, ValueM::Function(idx), Seq::empty(), fuel);
            r == EvalR::Val(v)
        }),
{
    let f = st.funcs[idx];
    let newenv = st.frames.len() as int;
    let frames1 = st.frames.push(FrameM { vals: Map::empty(), parent: Some(f.closure) });
    assert(bind_params(frames1, newenv, f.params, Seq::empty()) == frames1);
    let st2 = St { frames: frames1, ..st };
    lemma_lookup_frames_push(
        st.frames,
        FrameM { vals: Map::empty(), parent: Some(f.closure) },
        f.closure,
        x,
    );
    assert(lookup_frames(frames1, newenv, x) == Some(v));
    let (st3, r3) = eval_expr(st2, f.body[0], newenv, (fuel - 1) as nat);
    assert(f.body[0] == ExprM::Return(Box::new(ExprM::Identifier(x))));
    assert(eval_expr(st2, ExprM::Identifier(x), newenv, (fuel - 1) as nat) == (
        st2,
        EvalR::Val(v),
    ));
    assert(r3 == EvalR::Ret(v));
    assert(eval_body(st2, f.body, 0, newenv, (fuel - 1) as nat, ValueM::Nun) == (
        st3,
        EvalR::Val(v),
    ));
}

/// Appending a frame never changes what older frames see.
pub proof fn lemma_lookup_frames_push(frames: Seq<FrameM>, extra: FrameM, env: int, name: Seq<char>)
    requires
        0 <= env < frames.len(),
    ensures
        lookup_frames(frames.push(extra), env, name) == lookup_frames(frames, env, name),
    decreases env,
{
    let frames2 = frames.push(extra);
    assert(frames2[env] == frames[env]);
    match frames[env].parent {
        Some(p) => {
            if 0 <= p < env {
                lemma_lookup_frames_push(frames, extra, p, name);
            }
        },
        None => {},
    }
}

/// `return` short-circuits a function body: two bodies that agree up to and
/// including a `return` statement evaluate a call identically, whatever
/// statements follow it. Stated over `eval_body`, which runs function bodies
/// inside `call_value` and so inside `Interpreter::call_function`.
pub proof fn return_short_circuits(
    st: St,
    body_a: Seq<ExprM>,
    body_b: Seq<ExprM>,
    i: int,
    k: int,
    env: int,
    fuel: nat,
    last: ValueM,
)
    requires
        0 <= i <= k < body_a.len(),
        k < body_b.len(),
        forall|j: int| i <= j <= k ==> body_a[j] == body_b[j],
        body_a[k] matches ExprM::Return(_),
    ensures
        eval_body(st, body_a, i, env, fuel, last) == eval_body(st, body_b, i, env, fuel, last),
    decreases k - i,
{
    let (st2, r) = eval_expr(st, body_a[i], env, fuel);
    if i == k {
        assert(!(r is Val));
    } else {
        match r {
            EvalR::Val(v) => {
                return_short_circuits(st2, body_a, body_b, i + 1, k, env, fuel, v);
            },
            _ => {},
        }
    }
}

/// Calling a script function with the wrong number of arguments always
/// fails with the arity error naming both counts, for any nonzero
/// difference, before any of the body runs. Stated over `call_value`, with
/// which `Interpreter::call_function` is proved to agree exactly.
pub proof fn arity_mismatch_always_fails(st: St, idx: int, args: Seq<ValueM>, fuel: nat)
    requires
        0 <= idx < st.funcs.len(),
        0 <= st.funcs[idx].closure < st.frames.len(),
        st.funcs[idx].params.len() != args.len(),
    ensures
        ({
            let (st2, r) = call_value(st, ValueM::Function(idx), args, fuel);
            r == EvalR::Halt(
                StopM::Error(
                    ErrM::ArityMismatch {
                        expected: st.funcs[idx].params.len() as int,
                        got: args.len() as int,
                    },
                ),
            )
        }),
{
}

/// Re-importing a module under the same name replaces its whole function
/// table: after a second import the manager is exactly what a single import
/// of the newer source would have made it, so every later call uses the
/// newest definitions.
pub proof fn reimport_replaces_table(fm: FmM, name: Seq<char>, es1: Seq<ExprM>, es2: Seq<ExprM>)
    ensures
        ({
            let (fm1, r1) = import_spec(fm, name, FeatherSourceM::Parsed(es1));
            let (fm2, r2) = import_spec(fm1, name, FeatherSourceM::Parsed(es2));
            r1 == Ok::<(), ErrM>(()) && r2 == Ok::<(), ErrM>(()) && fm2.feathers[name]
                == feather_table(es2) && fm2 == import_spec(fm, name, FeatherSourceM::Parsed(es2)).0
        }),
{
    let (fm1, r1) = import_spec(fm, name, FeatherSourceM::Parsed(es1));
    let (fm2, r2) = import_spec(fm1, name, FeatherSourceM::Parsed(es2));
    let (fm3, r3) = import_spec(fm, name, FeatherSourceM::Parsed(es2));
    assert(fm2.feathers =~= fm3.feathers);
}

/// Importing a module whose file does not exist always fails with the
/// module-not-found error naming the resolved path, and changes nothing:
/// the request the evaluator makes names exactly the resolved path, and the
/// embedder's answer reports only whether that file exists.
pub proof fn missing_module_always_fails(st: St, name: Seq<char>, env: int, fuel: nat)
    ensures
        st.pos >= st.answers.len() ==> eval_expr(st, ExprM::Import(name), env, fuel) == (
            st,
            EvalR::Halt(
                StopM::Pending(
                    ReqM::ImportFeather { name, path: feather_path_spec(st.fm.root, name) },
                ),
            ),
        ),
        (st.pos < st.answers.len() && st.answers[st.pos] == AnsM::Feather(
            FeatherSourceM::Missing,
        )) ==> eval_expr(st, ExprM::Import(name), env, fuel) == (
            St { pos: st.pos + 1, ..st },
            EvalR::Halt(
                StopM::Error(
                    ErrM::FeatherFileNotFound(feather_path_spec(st.fm.root, name)),
                ),
            ),
        ),
{
}

/// Dividing by an IEEE-754 zero of either sign through the `divide`
/// built-in is a domain error: the call fails before anything is asked of
/// the embedder, so the result is never an infinity.
pub proof fn divide_by_zero_is_domain_error(ans: Seq<AnsM>, pos: int, a: u64, b: u64)
    requires
        is_zero_bits(b),
    ensures
        std_call_spec(ans, pos, "divide"@, seq![ValueM::Number(a), ValueM::Number(b)]) == (
            pos,
            Err::<ValueM, StopM>(StopM::Error(ErrM::DivisionByZero)),
        ),
{
    reveal_strlit("divide");
    reveal_strlit("add");
    reveal_strlit("subtract");
    reveal_strlit("multiply");
    assert("divide"@.len() == 6);
    assert("add"@.len() == 3);
    assert("subtract"@.len() == 8);
    assert("multiply"@.len() == 8);
    let args = seq![ValueM::Number(a), ValueM::Number(b)];
    assert(args.len() == 2);
    assert(args[0] == ValueM::Number(a));
    assert(args[1] == ValueM::Number(b));
}

} // verus!
