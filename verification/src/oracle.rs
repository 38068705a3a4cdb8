use vstd::prelude::*;
use crate::errors::{ErrM, EvalError};
use crate::interpreter::{Value, ValueM};
use crate::parser::{exprs_view, Expr, ExprM};

verus! {

/// A binary arithmetic operation on numbers that the engine asks its
/// embedder to carry out on IEEE-754 doubles.
#[derive(Debug, PartialEq, Eq, Clone, Copy, Structural)]
pub enum ArithOp {
    Add,
    Subtract,
    Multiply,
    Divide,
}

/// A unary numeric operation carried out by the embedder.
#[derive(Debug, PartialEq, Eq, Clone, Copy, Structural)]
pub enum UnaryOp {
    Sqrt,
    Sin,
    Cos,
}

/// What the engine needs from the outside world to continue evaluating.
/// Every request is answered by the matching `ExtAnswer` payload.
#[derive(Debug, PartialEq)]
pub enum ExtRequest {
    /// The IEEE-754 bits of the numeric literal with this text. The text is
    /// always a well-formed literal: digits with at most one interior point.
    ParseNumber(String),
    /// The bits of `op` applied to two numbers, given by their bits.
    Arith(ArithOp, u64, u64),
    /// The bits of `op` applied to one number, given by its bits.
    Unary(UnaryOp, u64),
    /// The decimal rendering of the number with these bits.
    FormatNumber(u64),
    /// The bits of the number this arbitrary text denotes, if any.
    ConvertToNumber(String),
    /// The extension module `name`, read from `path` and parsed.
    ImportFeather { name: String, path: String },
    /// The shared library `library`, loaded from `path`.
    LoadLibrary { library: String, path: String },
    /// One call of `function` from `library` on `arguments`.
    CallNative { library: String, function: String, arguments: Vec<Value> },
}

/// Mathematical image of a request.
pub ghost enum ReqM {
    ParseNumber(Seq<char>),
    Arith(ArithOp, u64, u64),
    Unary(UnaryOp, u64),
    FormatNumber(u64),
    ConvertToNumber(Seq<char>),
    ImportFeather { name: Seq<char>, path: Seq<char> },
    LoadLibrary { library: Seq<char>, path: Seq<char> },
    CallNative { library: Seq<char>, function: Seq<char>, arguments: Seq<ValueM> },
}

impl View for ExtRequest {
    type V = ReqM;

    open spec fn view(&self) -> ReqM {
        match self {
            ExtRequest::ParseNumber(t) => ReqM::ParseNumber(t@),
            ExtRequest::Arith(op, a, b) => ReqM::Arith(*op, *a, *b),
            ExtRequest::Unary(op, a) => ReqM::Unary(*op, *a),
            ExtRequest::FormatNumber(a) => ReqM::FormatNumber(*a),
            ExtRequest::ConvertToNumber(t) => ReqM::ConvertToNumber(t@),
            ExtRequest::ImportFeather { name, path } => ReqM::ImportFeather {
                name: name@,
                path: path@,
            },
            ExtRequest::LoadLibrary { library, path } => ReqM::LoadLibrary {
                library: library@,
                path: path@,
            },
            ExtRequest::CallNative { library, function, arguments } => ReqM::CallNative {
                library: library@,
                function: function@,
                arguments: arguments@.map(|i: int, v: Value| v@),
            },
        }
    }
}

/// What the embedder found when asked to read and parse an extension module.
#[derive(Debug, PartialEq)]
pub enum FeatherSource {
    /// The module file does not exist.
    Missing,
    /// The file exists but could not be read; the detail text is reported.
    Unreadable(String),
    /// The file was read but lexing or parsing failed.
    Failed(EvalError),
    /// The top-level statements of the module file.
    Parsed(Vec<Expr>),
}

/// Mathematical image of a module source outcome.
pub ghost enum FeatherSourceM {
    Missing,
    Unreadable(Seq<char>),
    Failed(ErrM),
    Parsed(Seq<ExprM>),
}

impl View for FeatherSource {
    type V = FeatherSourceM;

    open spec fn view(&self) -> FeatherSourceM {
        match self {
            FeatherSource::Missing => FeatherSourceM::Missing,
            FeatherSource::Unreadable(d) => FeatherSourceM::Unreadable(d@),
            FeatherSource::Failed(e) => FeatherSourceM::Failed(e@),
            FeatherSource::Parsed(es) => FeatherSourceM::Parsed(exprs_view(es@)),
        }
    }
}

/// How one native call ended on the embedder's side.
#[derive(Debug, PartialEq)]
pub enum NativeOutcome {
    /// The library does not export the symbol; the detail text is reported.
    SymbolMissing(String),
    /// The native function returned its failure sentinel.
    NullResult,
    /// The native function returned this value.
    Returned(Value),
}

/// Mathematical image of a native call outcome.
pub ghost enum NativeOutcomeM {
    SymbolMissing(Seq<char>),
    NullResult,
    Returned(ValueM),
}

impl View for NativeOutcome {
    type V = NativeOutcomeM;

    open spec fn view(&self) -> NativeOutcomeM {
        match self {
            NativeOutcome::SymbolMissing(d) => NativeOutcomeM::SymbolMissing(d@),
            NativeOutcome::NullResult => NativeOutcomeM::NullResult,
            NativeOutcome::Returned(v) => NativeOutcomeM::Returned(v@),
        }
    }
}

/// The embedder's answer to one request, in the order the requests were
/// made.
#[derive(Debug, PartialEq)]
pub enum ExtAnswer {
    /// Answers `ParseNumber`, `Arith` and `Unary`: IEEE-754 bits.
    Bits(u64),
    /// Answers `FormatNumber`.
    Text(String),
    /// Answers `ConvertToNumber`; `None` when the text denotes no number.
    MaybeBits(Option<u64>),
    /// Answers `ImportFeather`.
    Feather(FeatherSource),
    /// Answers `LoadLibrary`; the error detail text is reported.
    Load(Result<(), String>),
    /// Answers `CallNative`.
    Native(NativeOutcome),
}

/// Mathematical image of an answer.
pub ghost enum AnsM {
    Bits(u64),
    Text(Seq<char>),
    MaybeBits(Option<u64>),
    Feather(FeatherSourceM),
    Load(Result<(), Seq<char>>),
    Native(NativeOutcomeM),
}

impl View for ExtAnswer {
    type V = AnsM;

    open spec fn view(&self) -> AnsM {
        match self {
            ExtAnswer::Bits(b) => AnsM::Bits(*b),
            ExtAnswer::Text(t) => AnsM::Text(t@),
            ExtAnswer::MaybeBits(o) => AnsM::MaybeBits(*o),
            ExtAnswer::Feather(f) => AnsM::Feather(f@),
            ExtAnswer::Load(r) => AnsM::Load(
                match r {
                    Ok(()) => Ok(()),
                    Err(d) => Err(d@),
                },
            ),
            ExtAnswer::Native(n) => AnsM::Native(n@),
        }
    }
}

/// Why evaluation stopped without a result: a failure, or a request that
/// still needs an answer. In the latter case the embedder answers the
/// request, appends the answer, and runs the evaluation again.
#[derive(Debug, PartialEq)]
pub enum Stop {
    Error(EvalError),
    Pending(ExtRequest),
}

/// Mathematical image of a stop.
pub ghost enum StopM {
    Error(ErrM),
    Pending(ReqM),
}

impl View for Stop {
    type V = StopM;

    open spec fn view(&self) -> StopM {
        match self {
            Stop::Error(e) => StopM::Error(e@),
            Stop::Pending(r) => StopM::Pending(r@),
        }
    }
}

/// How one whole program run ended: with a final result, or suspended on a
/// request for the embedder.
#[derive(Debug, PartialEq)]
pub enum RunOutcome {
    Finished(Result<Value, EvalError>),
    Pending(ExtRequest),
}

/// Mathematical image of a run outcome.
pub ghost enum RunOutcomeM {
    Finished(Result<ValueM, ErrM>),
    Pending(ReqM),
}

impl View for RunOutcome {
    type V = RunOutcomeM;

    open spec fn view(&self) -> RunOutcomeM {
        match self {
            RunOutcome::Finished(r) => RunOutcomeM::Finished(
                match r {
                    Ok(v) => Ok(v@),
                    Err(e) => Err(e@),
                },
            ),
            RunOutcome::Pending(r) => RunOutcomeM::Pending(r@),
        }
    }
}

/// The answers handed to one evaluation run, consumed in order. Requests are
/// deterministic, so re-running the same program with one more answer
/// resumes exactly where the previous run stopped.
#[derive(Debug)]
pub struct Oracle {
    answers: Vec<ExtAnswer>,
    pos: usize,
}

/// The answers consumed, the cursor, and the next answer, at the model
/// level.
impl Oracle {
    pub closed spec fn answers(&self) -> Seq<AnsM> {
        self.answers@.map(|i: int, a: ExtAnswer| a@)
    }

    pub closed spec fn pos(&self) -> int {
        self.pos as int
    }

    pub open spec fn wf(&self) -> bool {
        0 <= self.pos() <= self.answers().len()
    }

    pub fn new(answers: Vec<ExtAnswer>) -> (r: Oracle)
        ensures
            r.answers() == answers@.map(|i: int, a: ExtAnswer| a@),
            r.pos() == 0,
            r.wf(),
    {
        Oracle { answers, pos: 0 }
    }

    /// Consumes the next answer; when none is left, evaluation suspends on
    /// `req`.
    pub fn next(&mut self, req: ExtRequest) -> (r: Result<ExtAnswer, Stop>)
        requires
            old(self).wf(),
        ensures
            final(self).wf(),
            final(self).answers() == old(self).answers(),
            match r {
                Ok(a) => old(self).pos() < old(self).answers().len() && a@ == old(self).answers()[
                    old(self).pos()
                ] && final(self).pos() == old(self).pos() + 1,
                Err(s) => old(self).pos() >= old(self).answers().len() && s@ == StopM::Pending(
                    req@,
                ) && final(self).pos() == old(self).pos(),
            },
    {
        if self.pos < self.answers.len() {
            let a = self.answers[self.pos].clone();
            self.pos = self.pos + 1;
            Ok(a)
        } else {
            Err(Stop::Pending(req))
        }
    }
}

impl Clone for ExtAnswer {
    fn clone(&self) -> (r: ExtAnswer)
        ensures
            r@ == self@,
    {
        match self {
            ExtAnswer::Bits(b) => ExtAnswer::Bits(*b),
            ExtAnswer::Text(t) => ExtAnswer::Text(t.clone()),
            ExtAnswer::MaybeBits(o) => ExtAnswer::MaybeBits(
                match o {
                    Some(b) => Some(*b),
                    None => None,
                },
            ),
            ExtAnswer::Feather(f) => ExtAnswer::Feather(f.clone()),
            ExtAnswer::Load(r) => ExtAnswer::Load(
                match r {
                    Ok(()) => Ok(()),
                    Err(d) => Err(d.clone()),
                },
            ),
            ExtAnswer::Native(n) => ExtAnswer::Native(n.clone()),
        }
    }
}

impl Clone for FeatherSource {
    fn clone(&self) -> (r: FeatherSource)
        ensures
            r@ == self@,
    {
        match self {
            FeatherSource::Missing => FeatherSource::Missing,
            FeatherSource::Unreadable(d) => FeatherSource::Unreadable(d.clone()),
            FeatherSource::Failed(e) => FeatherSource::Failed(e.clone()),
            FeatherSource::Parsed(es) => FeatherSource::Parsed(crate::parser::clone_exprs(es)),
        }
    }
}

impl Clone for NativeOutcome {
    fn clone(&self) -> (r: NativeOutcome)
        ensures
            r@ == self@,
    {
        match self {
            NativeOutcome::SymbolMissing(d) => NativeOutcome::SymbolMissing(d.clone()),
            NativeOutcome::NullResult => NativeOutcome::NullResult,
            NativeOutcome::Returned(v) => NativeOutcome::Returned(v.clone()),
        }
    }
}

} // verus!
