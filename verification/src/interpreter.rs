use vstd::prelude::*;
use crate::errors::ErrM;
use crate::parser::{Expr, ExprM, Type, TypeM};

verus! {

/// A runtime value. Numbers are IEEE-754 binary64 bit patterns: the engine
/// never computes on them itself, it hands arithmetic to its embedder.
/// A `Function` holds an index into the interpreter's function arena; a
/// `FeatherFunction` names a function of a loaded extension module.
#[derive(Debug, PartialEq)]
pub enum Value {
    Number(u64),
    String(String),
    Boolean(bool),
    Nun,
    Function(usize),
    FeatherFunction(String, String),
}

/// Mathematical image of a runtime value.
pub ghost enum ValueM {
    Number(u64),
    Str(Seq<char>),
    Boolean(bool),
    Nun,
    Function(int),
    FeatherFunction(Seq<char>, Seq<char>),
}

impl View for Value {
    type V = ValueM;

    open spec fn view(&self) -> ValueM {
        match self {
            Value::Number(n) => ValueM::Number(*n),
            Value::String(s) => ValueM::Str(s@),
            Value::Boolean(b) => ValueM::Boolean(*b),
            Value::Nun => ValueM::Nun,
            Value::Function(i) => ValueM::Function(*i as int),
            Value::FeatherFunction(f, g) => ValueM::FeatherFunction(f@, g@),
        }
    }
}

impl Clone for Value {
    fn clone(&self) -> (r: Value)
        ensures
            r == *self,
    {
        match self {
            Value::Number(n) => Value::Number(*n),
            Value::String(s) => Value::String(s.clone()),
            Value::Boolean(b) => Value::Boolean(*b),
            Value::Nun => Value::Nun,
            Value::Function(i) => Value::Function(*i),
            Value::FeatherFunction(f, g) => Value::FeatherFunction(f.clone(), g.clone()),
        }
    }
}

/// How the evaluation of one node ended: an ordinary value, or a value
/// carried by a `return` that is still unwinding.
#[derive(Debug, PartialEq, Clone)]
pub enum InterpretResult {
    Value(Value),
    Return(Value),
}

/// Mathematical image of an `InterpretResult`.
pub ghost enum IrM {
    Value(ValueM),
    Return(ValueM),
}

impl View for InterpretResult {
    type V = IrM;

    open spec fn view(&self) -> IrM {
        match self {
            InterpretResult::Value(v) => IrM::Value(v@),
            InterpretResult::Return(v) => IrM::Return(v@),
        }
    }
}

/// A script-defined function: its declared parameters, its body, and the
/// index of the environment frame captured at definition time (the closure).
#[derive(Debug, PartialEq, Clone)]
pub struct Function {
    pub params: Vec<(Type, String)>,
    pub body: Vec<Expr>,
    pub closure: usize,
}

/// Mathematical image of a function.
pub ghost struct FuncM {
    pub params: Seq<(TypeM, Seq<char>)>,
    pub body: Seq<ExprM>,
    pub closure: int,
}

impl View for Function {
    type V = FuncM;

    open spec fn view(&self) -> FuncM {
        FuncM {
            params: crate::parser::params_view(self.params@),
            body: crate::parser::exprs_view(self.body@),
            closure: self.closure as int,
        }
    }
}

/// One scope frame: name bindings (later entries shadow earlier ones) and an
/// optional enclosing frame, held as an index into the arena. A frame's
/// enclosing index is always smaller than its own, so chains are acyclic by
/// construction.
#[derive(Debug, PartialEq, Clone)]
pub struct Environment {
    values: Vec<(String, Value)>,
    pub enclosing: Option<usize>,
}

/// Mathematical image of one frame: a name-to-value map and the parent index.
pub ghost struct FrameM {
    pub vals: Map<Seq<char>, ValueM>,
    pub parent: Option<int>,
}

/// The bindings of a frame as a map; later entries win.
pub open spec fn bindings_map(values: Seq<(String, Value)>) -> Map<Seq<char>, ValueM>
    decreases values,
{
    if values.len() == 0 {
        Map::empty()
    } else {
        bindings_map(values.drop_last()).insert(values.last().0@, values.last().1@)
    }
}

impl View for Environment {
    type V = FrameM;

    closed spec fn view(&self) -> FrameM {
        FrameM {
            vals: bindings_map(self.values@),
            parent: match self.enclosing {
                Some(p) => Some(p as int),
                None => None,
            },
        }
    }
}

impl Environment {
    /// A root frame: no bindings, no enclosing frame.
    pub fn new() -> (r: Environment)
        ensures
            r@.vals == Map::<Seq<char>, ValueM>::empty(),
            r@.parent is None,
    {
        Environment { values: Vec::new(), enclosing: None }
    }

    /// Binds `name` to `value` in this frame, shadowing any earlier binding
    /// of the same name.
    pub fn define(&mut self, name: String, value: Value)
        ensures
            final(self)@.vals == old(self)@.vals.insert(name@, value@),
            final(self)@.parent == old(self)@.parent,
    {
        self.values.push((name, value));
        proof {
            assert(self.values@.drop_last() =~= old(self).values@);
        }
    }

    /// The value bound to `name` in this frame alone, not consulting any
    /// enclosing frame.
    pub fn get(&self, name: &str) -> (r: Option<Value>)
        ensures
            match r {
                Some(v) => self@.vals.contains_key(name@) && v@ == self@.vals[name@],
                None => !self@.vals.contains_key(name@),
            },
    {
        let mut i: usize = self.values.len();
        proof {
            assert(self.values@.subrange(0, self.values@.len() as int) =~= self.values@);
        }
        while i > 0
            invariant
                i <= self.values.len(),
                bindings_map(self.values@).contains_key(name@) == bindings_map(
                    self.values@.subrange(0, i as int),
                ).contains_key(name@),
                bindings_map(self.values@).contains_key(name@) ==> bindings_map(
                    self.values@,
                )[name@] == bindings_map(self.values@.subrange(0, i as int))[name@],
            decreases i,
        {
            proof {
                assert(self.values@.subrange(0, i as int).drop_last() =~= self.values@.subrange(
                    0,
                    i - 1,
                ));
                assert(self.values@.subrange(0, i as int).last() == self.values@[i - 1]);
            }
            if crate::util::str_eq(self.values[i - 1].0.as_str(), name) {
                return Some(self.values[i - 1].1.clone());
            }
            i = i - 1;
        }
        proof {
            assert(self.values@.subrange(0, 0) =~= Seq::<(String, Value)>::empty());
        }
        None
    }

    /// Whether this frame itself binds `name`.
    pub fn binds(&self, name: &str) -> (r: bool)
        ensures
            r == self@.vals.contains_key(name@),
    {
        let found = self.get(name);
        found.is_some()
    }
}

/// All scope frames of one evaluation, indexed by creation order. Frame `0`
/// is the global scope. A frame only ever encloses an older frame, so
/// name lookup terminates.
#[derive(Debug)]
pub struct EnvArena {
    frames: Vec<Environment>,
}

/// Frames are well formed when every enclosing index points to an older
/// frame.
pub open spec fn frames_wf(frames: Seq<FrameM>) -> bool {
    forall|i: int|
        0 <= i < frames.len() ==> match (#[trigger] frames[i]).parent {
            Some(p) => 0 <= p < i,
            None => true,
        }
}

/// The value of `name` seen from frame `env`: the innermost binding along
/// the chain of enclosing frames.
pub open spec fn lookup_frames(frames: Seq<FrameM>, env: int, name: Seq<char>) -> Option<ValueM>
    decreases (if env >= 0 {
        env
    } else {
        0
    }),
{
    if 0 <= env < frames.len() {
        let f = frames[env];
        if f.vals.contains_key(name) {
            Some(f.vals[name])
        } else {
            match f.parent {
                Some(p) => if 0 <= p < env {
                    lookup_frames(frames, p, name)
                } else {
                    None
                },
                None => None,
            }
        }
    } else {
        None
    }
}

/// The frames after assigning `value` to `name` in the innermost frame of
/// the chain from `env` that already binds it; `None` when no frame does.
pub open spec fn assign_frames(
    frames: Seq<FrameM>,
    env: int,
    name: Seq<char>,
    value: ValueM,
) -> Option<Seq<FrameM>>
    decreases (if env >= 0 {
        env
    } else {
        0
    }),
{
    if 0 <= env < frames.len() {
        let f = frames[env];
        if f.vals.contains_key(name) {
            Some(frames.update(env, FrameM { vals: f.vals.insert(name, value), parent: f.parent }))
        } else {
            match f.parent {
                Some(p) => if 0 <= p < env {
                    assign_frames(frames, p, name, value)
                } else {
                    None
                },
                None => None,
            }
        }
    } else {
        None
    }
}

/// Assignment only rebinds a name: it never changes the number of frames
/// nor any frame's parent.
pub proof fn lemma_assign_frames_shape(
    frames: Seq<FrameM>,
    env: int,
    name: Seq<char>,
    value: ValueM,
)
    ensures
        match assign_frames(frames, env, name, value) {
            Some(f2) => f2.len() == frames.len() && forall|i: int|
                0 <= i < frames.len() ==> (#[trigger] f2[i]).parent == frames[i].parent,
            None => true,
        },
    decreases (if env >= 0 {
        env
    } else {
        0
    }),
{
    if 0 <= env < frames.len() {
        let f = frames[env];
        if f.vals.contains_key(name) {
        } else {
            match f.parent {
                Some(p) => {
                    if 0 <= p < env {
                        lemma_assign_frames_shape(frames, p, name, value);
                    }
                },
                None => {},
            }
        }
    }
}

/// The frames after binding `name` to `value` in frame `env`.
pub open spec fn define_frames(
    frames: Seq<FrameM>,
    env: int,
    name: Seq<char>,
    value: ValueM,
) -> Seq<FrameM> {
    if 0 <= env < frames.len() {
        let f = frames[env];
        frames.update(env, FrameM { vals: f.vals.insert(name, value), parent: f.parent })
    } else {
        frames
    }
}

impl EnvArena {
    pub closed spec fn frames(&self) -> Seq<FrameM> {
        self.frames@.map(|i: int, e: Environment| e@)
    }

    pub open spec fn wf(&self) -> bool {
        frames_wf(self.frames())
    }

    /// A fresh arena holding only the global frame.
    pub fn new() -> (r: EnvArena)
        ensures
            r.frames().len() == 1,
            r.frames()[0].vals == Map::<Seq<char>, ValueM>::empty(),
            r.frames()[0].parent is None,
            r.wf(),
    {
        let mut frames: Vec<Environment> = Vec::new();
        frames.push(Environment::new());
        EnvArena { frames }
    }

    /// Creates a frame enclosed by `parent` and yields its index.
    pub fn push_frame(&mut self, parent: usize) -> (r: usize)
        requires
            old(self).wf(),
            parent < old(self).frames().len(),
        ensures
            final(self).wf(),
            r == old(self).frames().len(),
            final(self).frames() == old(self).frames().push(
                FrameM { vals: Map::empty(), parent: Some(parent as int) },
            ),
    {
        let r = self.frames.len();
        let mut f = Environment::new();
        f.enclosing = Some(parent);
        self.frames.push(f);
        proof {
            assert(self.frames() =~= old(self).frames().push(
                FrameM { vals: Map::empty(), parent: Some(parent as int) },
            ));
        }
        r
    }

    /// Binds `name` to `value` in frame `env`.
    pub fn define(&mut self, env: usize, name: String, value: Value)
        requires
            old(self).wf(),
            env < old(self).frames().len(),
        ensures
            final(self).wf(),
            final(self).frames() == define_frames(old(self).frames(), env as int, name@, value@),
    {
        let ghost pre = self.frames();
        let mut f = Environment::new();
        vstd::pervasive::VecAdditionalExecFns::set_and_swap(&mut self.frames, env, &mut f);
        f.define(name, value);
        vstd::pervasive::VecAdditionalExecFns::set_and_swap(&mut self.frames, env, &mut f);
        proof {
            assert(self.frames() =~= define_frames(pre, env as int, name@, value@));
        }
    }

    /// The value of `name` seen from frame `env`, walking the chain of
    /// enclosing frames from innermost to outermost.
    pub fn get(&self, env: usize, name: &str) -> (r: Option<Value>)
        requires
            self.wf(),
        ensures
            match r {
                Some(v) => lookup_frames(self.frames(), env as int, name@) == Some(v@),
                None => lookup_frames(self.frames(), env as int, name@) is None,
            },
        decreases env,
    {
        if env >= self.frames.len() {
            return None;
        }
        proof {
            assert(self.frames()[env as int] == self.frames@[env as int]@);
        }
        match self.frames[env].get(name) {
            Some(v) => Some(v),
            None => {
                match self.frames[env].enclosing {
                    Some(p) => {
                        proof {
                            assert(match self.frames()[env as int].parent {
                                Some(q) => 0 <= q < env as int,
                                None => true,
                            });
                        }
                        self.get(p, name)
                    },
                    None => None,
                }
            },
        }
    }

    /// Assigns `value` to the existing binding of `name` nearest to frame
    /// `env`; reports whether one was found. Unlike `define`, assignment
    /// never creates a binding.
    pub fn assign(&mut self, env: usize, name: &str, value: Value) -> (r: bool)
        requires
            old(self).wf(),
        ensures
            final(self).wf(),
            match assign_frames(old(self).frames(), env as int, name@, value@) {
                Some(updated) => r && final(self).frames() == updated,
                None => !r && final(self).frames() == old(self).frames(),
            },
        decreases env,
    {
        if env >= self.frames.len() {
            return false;
        }
        proof {
            assert(self.frames()[env as int] == self.frames@[env as int]@);
        }
        if self.frames[env].binds(name) {
            let ghost pre = self.frames();
            let mut f = Environment::new();
            vstd::pervasive::VecAdditionalExecFns::set_and_swap(&mut self.frames, env, &mut f);
            f.define(name.to_owned(), value);
            vstd::pervasive::VecAdditionalExecFns::set_and_swap(&mut self.frames, env, &mut f);
            proof {
                assert(assign_frames(pre, env as int, name@, value@) matches Some(u)
                    && self.frames() =~= u);
            }
            return true;
        }
        match self.frames[env].enclosing {
            Some(p) => {
                proof {
                    assert(match self.frames()[env as int].parent {
                        Some(q) => 0 <= q < env as int,
                        None => true,
                    });
                }
                self.assign(p, name, value)
            },
            None => false,
        }
    }

    pub fn frame_count(&self) -> (r: usize)
        ensures
            r == self.frames().len(),
    {
        self.frames.len()
    }
}


// The evaluator's mathematical mirror: a total function over the images of
// the interpreter state, the expression, and the answers the embedder has
// given so far. The executable evaluator below is proved to agree with it
// exactly.

/// The whole interpreter state, at the model level: the scope frames, the
/// function arena, the extension-module manager, and the answers consumed so
/// far.
pub ghost struct St {
    pub frames: Seq<FrameM>,
    pub funcs: Seq<FuncM>,
    pub fm: crate::feather::FmM,
    pub answers: Seq<crate::oracle::AnsM>,
    pub pos: int,
}

/// A state is well formed when frame parents point backwards and every
/// function's closure names an existing frame.
pub open spec fn st_wf(st: St) -> bool {
    frames_wf(st.frames) && (forall|i: int|
        0 <= i < st.funcs.len() ==> 0 <= (#[trigger] st.funcs[i]).closure < st.frames.len())
}

/// How the evaluation of one node ends, at the model level.
pub ghost enum EvalR {
    Val(ValueM),
    Ret(ValueM),
    Halt(crate::oracle::StopM),
}

/// The frames after binding the parameters to the arguments, positionally,
/// in frame `env`.
pub open spec fn bind_params(
    frames: Seq<FrameM>,
    env: int,
    params: Seq<(TypeM, Seq<char>)>,
    args: Seq<ValueM>,
) -> Seq<FrameM>
    decreases params.len(),
{
    if params.len() == 0 || args.len() == 0 {
        frames
    } else {
        define_frames(
            bind_params(frames, env, params.drop_last(), args.drop_last()),
            env,
            params.last().1,
            args.last(),
        )
    }
}

/// What evaluating one expression does: the successor state and how the
/// evaluation ended.
pub open spec fn eval_expr(st: St, e: ExprM, env: int, fuel: nat) -> (St, EvalR)
    decreases fuel, 1int, e,
{
    match e {
        ExprM::Number(text) => {
            if st.pos < st.answers.len() {
                let st2 = St { pos: st.pos + 1, ..st };
                match st.answers[st.pos] {
                    crate::oracle::AnsM::Bits(b) => (st2, EvalR::Val(ValueM::Number(b))),
                    _ => (st2, EvalR::Halt(crate::oracle::StopM::Error(ErrM::BadAnswer))),
                }
            } else {
                (
                    st,
                    EvalR::Halt(
                        crate::oracle::StopM::Pending(crate::oracle::ReqM::ParseNumber(text)),
                    ),
                )
            }
        },
        ExprM::String(s) => (st, EvalR::Val(ValueM::Str(s))),
        ExprM::Boolean(b) => (st, EvalR::Val(ValueM::Boolean(b))),
        ExprM::Nun => (st, EvalR::Val(ValueM::Nun)),
        ExprM::Identifier(name) => {
            match lookup_frames(st.frames, env, name) {
                Some(v) => (st, EvalR::Val(v)),
                None => (
                    st,
                    EvalR::Halt(crate::oracle::StopM::Error(ErrM::UndefinedVariable(name))),
                ),
            }
        },
        ExprM::Return(inner) => {
            let (st2, r) = eval_expr(st, *inner, env, fuel);
            match r {
                EvalR::Val(v) => (st2, EvalR::Ret(v)),
                EvalR::Ret(v) => (st2, EvalR::Ret(v)),
                EvalR::Halt(s) => (st2, EvalR::Halt(s)),
            }
        },
        ExprM::Assignment { name, value } => {
            let (st2, r) = eval_expr(st, *value, env, fuel);
            match r {
                EvalR::Val(v) => {
                    match assign_frames(st2.frames, env, name, v) {
                        Some(frames2) => (St { frames: frames2, ..st2 }, EvalR::Val(v)),
                        None => (
                            st2,
                            EvalR::Halt(
                                crate::oracle::StopM::Error(ErrM::UndefinedVariable(name)),
                            ),
                        ),
                    }
                },
                EvalR::Ret(_) => (
                    st2,
                    EvalR::Halt(crate::oracle::StopM::Error(ErrM::AssignedReturn)),
                ),
                EvalR::Halt(s) => (st2, EvalR::Halt(s)),
            }
        },
        ExprM::FunctionDefinition { return_type, name, parameters, body } => {
            let f = FuncM { params: parameters, body, closure: env };
            let idx = st.funcs.len() as int;
            let st2 = St {
                funcs: st.funcs.push(f),
                frames: define_frames(st.frames, env, name, ValueM::Function(idx)),
                ..st
            };
            (st2, EvalR::Val(ValueM::Nun))
        },
        ExprM::Import(name) => {
            let path = crate::feather::feather_path_spec(st.fm.root, name);
            if st.pos < st.answers.len() {
                let st2 = St { pos: st.pos + 1, ..st };
                match st.answers[st.pos] {
                    crate::oracle::AnsM::Feather(src) => {
                        let (fm2, r) = crate::feather::import_spec(st2.fm, name, src);
                        match r {
                            Ok(()) => (St { fm: fm2, ..st2 }, EvalR::Val(ValueM::Nun)),
                            Err(e) => (
                                St { fm: fm2, ..st2 },
                                EvalR::Halt(crate::oracle::StopM::Error(e)),
                            ),
                        }
                    },
                    _ => (st2, EvalR::Halt(crate::oracle::StopM::Error(ErrM::BadAnswer))),
                }
            } else {
                (
                    st,
                    EvalR::Halt(
                        crate::oracle::StopM::Pending(
                            crate::oracle::ReqM::ImportFeather { name, path },
                        ),
                    ),
                )
            }
        },
        ExprM::RustFunctionCall { path, arguments } => {
            let (st2, ar) = eval_list(st, arguments, 0, env, fuel);
            match ar {
                Err(h) => (st2, h),
                Ok(args) => {
                    if path.len() < 2 {
                        (
                            st2,
                            EvalR::Halt(
                                crate::oracle::StopM::Error(ErrM::InvalidNativePath),
                            ),
                        )
                    } else {
                        let fname = crate::feather::join_path(
                            path.subrange(1, path.len() as int),
                        );
                        let (fm2, pos2, r) = crate::feather::call_function_spec(
                            st2.fm,
                            st2.answers,
                            st2.pos,
                            path[0],
                            fname,
                            args,
                        );
                        let st3 = St { fm: fm2, pos: pos2, ..st2 };
                        match r {
                            Ok(v) => (st3, EvalR::Val(v)),
                            Err(s) => (st3, EvalR::Halt(s)),
                        }
                    }
                },
            }
        },
        ExprM::FunctionCall { callee, arguments } => {
            let (st2, cr) = eval_expr(st, *callee, env, fuel);
            match cr {
                EvalR::Halt(s) => (st2, EvalR::Halt(s)),
                _ => {
                    let (st3, ar) = eval_list(st2, arguments, 0, env, fuel);
                    match ar {
                        Err(h) => (st3, h),
                        Ok(args) => {
                            match cr {
                                EvalR::Val(cv) => call_value(st3, cv, args, fuel),
                                _ => (
                                    st3,
                                    EvalR::Halt(
                                        crate::oracle::StopM::Error(ErrM::NotCallable),
                                    ),
                                ),
                            }
                        },
                    }
                },
            }
        },
        ExprM::FeatherFunctionCall { feather, function, arguments } => {
            let (st2, ar) = eval_list(st, arguments, 0, env, fuel);
            match ar {
                Err(h) => (st2, h),
                Ok(args) => {
                    let (fm2, pos2, r) = crate::feather::call_function_spec(
                        st2.fm,
                        st2.answers,
                        st2.pos,
                        feather,
                        function,
                        args,
                    );
                    let st3 = St { fm: fm2, pos: pos2, ..st2 };
                    match r {
                        Ok(v) => (st3, EvalR::Val(v)),
                        Err(s) => (st3, EvalR::Halt(s)),
                    }
                },
            }
        },
    }
}

/// Evaluates `es[i..]` left to right; a `return` among arguments is an
/// error.
pub open spec fn eval_list(st: St, es: Seq<ExprM>, i: int, env: int, fuel: nat) -> (
    St,
    Result<Seq<ValueM>, EvalR>,
)
    decreases fuel, 1int, es, es.len() - i,
{
    if i < 0 || i >= es.len() {
        (st, Ok(Seq::empty()))
    } else {
        let (st2, r) = eval_expr(st, es[i], env, fuel);
        match r {
            EvalR::Val(v) => {
                let (st3, rest) = eval_list(st2, es, i + 1, env, fuel);
                match rest {
                    Ok(vs) => (st3, Ok(seq![v] + vs)),
                    Err(h) => (st3, Err(h)),
                }
            },
            EvalR::Ret(_) => (
                st2,
                Err(EvalR::Halt(crate::oracle::StopM::Error(ErrM::UnexpectedReturn))),
            ),
            EvalR::Halt(s) => (st2, Err(EvalR::Halt(s))),
        }
    }
}

/// Calls a callee value: a script function runs its body in a fresh frame
/// enclosed by its closure; an extension function goes to the module
/// dispatch; anything else cannot be called.
pub open spec fn call_value(st: St, callee: ValueM, args: Seq<ValueM>, fuel: nat) -> (St, EvalR)
    decreases fuel, 0int, ExprM::Nun,
{
    match callee {
        ValueM::Function(idx) => {
            if !(0 <= idx < st.funcs.len()) {
                (st, EvalR::Halt(crate::oracle::StopM::Error(ErrM::NotCallable)))
            } else {
                let f = st.funcs[idx];
                if !(0 <= f.closure < st.frames.len()) {
                    (st, EvalR::Halt(crate::oracle::StopM::Error(ErrM::NotCallable)))
                } else {
                    let newenv = st.frames.len() as int;
                    let st1 = St {
                        frames: st.frames.push(
                            FrameM { vals: Map::empty(), parent: Some(f.closure) },
                        ),
                        ..st
                    };
                    if f.params.len() != args.len() {
                        (
                            st1,
                            EvalR::Halt(
                                crate::oracle::StopM::Error(
                                    ErrM::ArityMismatch {
                                        expected: f.params.len() as int,
                                        got: args.len() as int,
                                    },
                                ),
                            ),
                        )
                    } else {
                        let st2 = St {
                            frames: bind_params(st1.frames, newenv, f.params, args),
                            ..st1
                        };
                        if fuel == 0 {
                            (
                                st2,
                                EvalR::Halt(
                                    crate::oracle::StopM::Error(ErrM::DepthExceeded),
                                ),
                            )
                        } else {
                            eval_body(st2, f.body, 0, newenv, (fuel - 1) as nat, ValueM::Nun)
                        }
                    }
                }
            }
        },
        ValueM::FeatherFunction(feather, function) => {
            let (fm2, pos2, r) = crate::feather::call_function_spec(
                st.fm,
                st.answers,
                st.pos,
                feather,
                function,
                args,
            );
            let st2 = St { fm: fm2, pos: pos2, ..st };
            match r {
                Ok(v) => (st2, EvalR::Val(v)),
                Err(s) => (st2, EvalR::Halt(s)),
            }
        },
        _ => (st, EvalR::Halt(crate::oracle::StopM::Error(ErrM::NotCallable))),
    }
}

/// Runs a function body from statement `i`: the first `return` ends the call
/// with its value, otherwise the value of the last statement (or `Nun` for
/// an empty body) is the result.
pub open spec fn eval_body(
    st: St,
    body: Seq<ExprM>,
    i: int,
    env: int,
    fuel: nat,
    last: ValueM,
) -> (St, EvalR)
    decreases fuel, 1int, body, body.len() - i,
{
    if i < 0 || i >= body.len() {
        (st, EvalR::Val(last))
    } else {
        let (st2, r) = eval_expr(st, body[i], env, fuel);
        match r {
            EvalR::Ret(v) => (st2, EvalR::Val(v)),
            EvalR::Val(v) => eval_body(st2, body, i + 1, env, fuel, v),
            EvalR::Halt(s) => (st2, EvalR::Halt(s)),
        }
    }
}

/// How a whole program run ends, at the model level.
pub ghost enum RunR {
    Done(Result<ValueM, ErrM>),
    Pending(crate::oracle::ReqM),
}

/// Runs top-level statements from `i` in the global frame: the last value
/// computed is the program result; a `return` that reaches the top level
/// ends the run early with its value.
pub open spec fn run_program(st: St, exprs: Seq<ExprM>, i: int, last: ValueM, fuel: nat) -> (
    St,
    RunR,
)
    decreases exprs.len() - i,
{
    if i < 0 || i >= exprs.len() {
        (st, RunR::Done(Ok(last)))
    } else {
        let (st2, r) = eval_expr(st, exprs[i], 0, fuel);
        match r {
            EvalR::Val(v) => run_program(st2, exprs, i + 1, v, fuel),
            EvalR::Ret(v) => (st2, RunR::Done(Ok(v))),
            EvalR::Halt(crate::oracle::StopM::Error(e)) => (st2, RunR::Done(Err(e))),
            EvalR::Halt(crate::oracle::StopM::Pending(q)) => (st2, RunR::Pending(q)),
        }
    }
}


/// Whether an executable outcome is the image of a model outcome.
pub open spec fn res_agrees(r: Result<InterpretResult, crate::oracle::Stop>, r2: EvalR) -> bool {
    match r {
        Ok(ir) => match r2 {
            EvalR::Val(v) => ir@ == IrM::Value(v),
            EvalR::Ret(v) => ir@ == IrM::Return(v),
            EvalR::Halt(_) => false,
        },
        Err(s) => match r2 {
            EvalR::Halt(h) => s@ == h,
            _ => false,
        },
    }
}

/// How many nested script-function applications one run may make unless the
/// embedder sets its own bound. The bound stands for the machine's call
/// stack, which unbounded script recursion would otherwise exhaust; an
/// embedder with a larger stack raises it with `with_call_depth`.
pub const DEFAULT_CALL_DEPTH: u64 = 1024;

/// The tree-walking evaluator: scope frames, the function arena, the
/// extension-module manager, and the answers the embedder has provided for
/// this run.
pub struct Interpreter {
    env: EnvArena,
    functions: Vec<Function>,
    pub feather_manager: crate::feather::FeatherManager,
    oracle: crate::oracle::Oracle,
    call_depth: u64,
}

impl Interpreter {
    /// The whole state, at the model level.
    pub closed spec fn st(&self) -> St {
        St {
            frames: self.env.frames(),
            funcs: self.functions@.map(|i: int, f: Function| f@),
            fm: self.feather_manager@,
            answers: self.oracle.answers(),
            pos: self.oracle.pos(),
        }
    }

    pub closed spec fn wf(&self) -> bool {
        st_wf(self.st()) && self.oracle.wf() && self.st().frames.len() >= 1
    }

    /// The bound on nested script-function applications for this evaluator.
    pub closed spec fn depth(&self) -> nat {
        self.call_depth as nat
    }

    /// An evaluator over a fresh global scope, with the given module manager
    /// and the answers gathered so far.
    pub fn new(
        feather_manager: crate::feather::FeatherManager,
        answers: Vec<crate::oracle::ExtAnswer>,
    ) -> (r: Interpreter)
        ensures
            r.wf(),
            r.st().frames.len() == 1,
            r.st().frames[0].vals == Map::<Seq<char>, ValueM>::empty(),
            r.st().funcs == Seq::<FuncM>::empty(),
            r.st().fm == feather_manager@,
            r.st().answers == answers@.map(|i: int, a: crate::oracle::ExtAnswer| a@),
            r.st().pos == 0,
            r.depth() == DEFAULT_CALL_DEPTH as nat,
    {
        Self::with_call_depth(feather_manager, answers, DEFAULT_CALL_DEPTH)
    }

    /// An evaluator with the embedder's own bound on nested script-function
    /// applications, in place of the default.
    pub fn with_call_depth(
        feather_manager: crate::feather::FeatherManager,
        answers: Vec<crate::oracle::ExtAnswer>,
        call_depth: u64,
    ) -> (r: Interpreter)
        ensures
            r.wf(),
            r.st().frames.len() == 1,
            r.st().frames[0].vals == Map::<Seq<char>, ValueM>::empty(),
            r.st().funcs == Seq::<FuncM>::empty(),
            r.st().fm == feather_manager@,
            r.st().answers == answers@.map(|i: int, a: crate::oracle::ExtAnswer| a@),
            r.st().pos == 0,
            r.depth() == call_depth as nat,
    {
        let r = Interpreter {
            env: EnvArena::new(),
            functions: Vec::new(),
            feather_manager,
            oracle: crate::oracle::Oracle::new(answers),
            call_depth,
        };
        proof {
            assert(r.st().funcs =~= Seq::<FuncM>::empty());
        }
        r
    }

    /// Evaluates one expression in frame `env`, in exact agreement with
    /// `eval_expr`.
    fn interpret_at(&mut self, expr: &Expr, env: usize, fuel: u64) -> (r: Result<
        InterpretResult,
        crate::oracle::Stop,
    >)
        requires
            old(self).wf(),
            env < old(self).st().frames.len(),
        ensures
            final(self).wf(),
            final(self).depth() == old(self).depth(),
            final(self).st().frames.len() >= old(self).st().frames.len(),
            ({
                let (st2, r2) = eval_expr(old(self).st(), expr@, env as int, fuel as nat);
                final(self).st() == st2 && res_agrees(r, r2)
            }),
        decreases fuel, 1int, *expr,
    {
        match expr {
            Expr::Number(n) => {
                match self.oracle.next(crate::oracle::ExtRequest::ParseNumber(n.clone())) {
                    Ok(crate::oracle::ExtAnswer::Bits(b)) => Ok(
                        InterpretResult::Value(Value::Number(b)),
                    ),
                    Ok(_) => Err(
                        crate::oracle::Stop::Error(crate::errors::EvalError::BadAnswer),
                    ),
                    Err(s) => Err(s),
                }
            },
            Expr::String(s) => Ok(InterpretResult::Value(Value::String(s.clone()))),
            Expr::Boolean(b) => Ok(InterpretResult::Value(Value::Boolean(*b))),
            Expr::Nun => Ok(InterpretResult::Value(Value::Nun)),
            Expr::Identifier(name) => {
                match self.env.get(env, name.as_str()) {
                    Some(v) => Ok(InterpretResult::Value(v)),
                    None => Err(
                        crate::oracle::Stop::Error(
                            crate::errors::EvalError::UndefinedVariable(name.clone()),
                        ),
                    ),
                }
            },
            Expr::Return(value) => {
                proof {
                    assert(decreases_to!(*expr => (*expr)->Return_0));
                }
                match self.interpret_at(&*value, env, fuel) {
                    Ok(InterpretResult::Value(v)) => Ok(InterpretResult::Return(v)),
                    Ok(InterpretResult::Return(v)) => Ok(InterpretResult::Return(v)),
                    Err(s) => Err(s),
                }
            },
            Expr::Assignment { name, value } => {
                proof {
                    assert(decreases_to!(*expr => (*expr)->Assignment_value));
                }
                match self.interpret_at(&*value, env, fuel) {
                    Ok(InterpretResult::Value(v)) => {
                        let ghost pre = self.st();
                        proof {
                            lemma_assign_frames_shape(pre.frames, env as int, name@, v@);
                        }
                        if self.env.assign(env, name.as_str(), v.clone()) {
                            proof {
                                assert(st_wf(self.st()));
                            }
                            Ok(InterpretResult::Value(v))
                        } else {
                            Err(
                                crate::oracle::Stop::Error(
                                    crate::errors::EvalError::UndefinedVariable(name.clone()),
                                ),
                            )
                        }
                    },
                    Ok(InterpretResult::Return(_)) => Err(
                        crate::oracle::Stop::Error(crate::errors::EvalError::AssignedReturn),
                    ),
                    Err(s) => Err(s),
                }
            },
            Expr::FunctionDefinition { return_type: _, name, parameters, body } => {
                let function = Function {
                    params: crate::parser::clone_params(parameters),
                    body: crate::parser::clone_exprs(body),
                    closure: env,
                };
                let idx = self.functions.len();
                self.functions.push(function);
                proof {
                    assert(self.st().funcs =~= old(self).st().funcs.push(
                        FuncM {
                            params: crate::parser::params_view(parameters@),
                            body: crate::parser::exprs_view(body@),
                            closure: env as int,
                        },
                    ));
                }
                self.env.define(env, name.clone(), Value::Function(idx));
                proof {
                    assert(st_wf(self.st()));
                }
                Ok(InterpretResult::Value(Value::Nun))
            },
            Expr::Import(name) => {
                let path = self.feather_manager.feather_path(name.as_str());
                match self.oracle.next(
                    crate::oracle::ExtRequest::ImportFeather { name: name.clone(), path },
                ) {
                    Ok(crate::oracle::ExtAnswer::Feather(src)) => {
                        match self.feather_manager.import(name.as_str(), src) {
                            Ok(()) => Ok(InterpretResult::Value(Value::Nun)),
                            Err(e) => Err(crate::oracle::Stop::Error(e)),
                        }
                    },
                    Ok(_) => Err(
                        crate::oracle::Stop::Error(crate::errors::EvalError::BadAnswer),
                    ),
                    Err(s) => Err(s),
                }
            },
            Expr::RustFunctionCall { path, arguments } => {
                proof {
                    assert(decreases_to!(*expr => (*expr)->RustFunctionCall_arguments));
                }
                let args = match self.eval_args(arguments, env, fuel) {
                    Ok(vs) => vs,
                    Err(s) => {
                        return Err(s);
                    },
                };
                self.call_rust_function(path, args)
            },
            Expr::FunctionCall { callee, arguments } => {
                proof {
                    assert(decreases_to!(*expr => (*expr)->FunctionCall_callee));
                    assert(decreases_to!(*expr => (*expr)->FunctionCall_arguments));
                }
                let callee_value = match self.interpret_at(&*callee, env, fuel) {
                    Ok(cv) => cv,
                    Err(s) => {
                        return Err(s);
                    },
                };
                let args = match self.eval_args(arguments, env, fuel) {
                    Ok(vs) => vs,
                    Err(s) => {
                        return Err(s);
                    },
                };
                self.call_function(callee_value, args, fuel)
            },
            Expr::FeatherFunctionCall { feather, function, arguments } => {
                proof {
                    assert(decreases_to!(*expr => (*expr)->FeatherFunctionCall_arguments));
                }
                let args = match self.eval_args(arguments, env, fuel) {
                    Ok(vs) => vs,
                    Err(s) => {
                        return Err(s);
                    },
                };
                let r = self.feather_manager.call_function(
                    feather.as_str(),
                    function.as_str(),
                    args,
                    &mut self.oracle,
                );
                match r {
                    Ok(v) => Ok(InterpretResult::Value(v)),
                    Err(s) => Err(s),
                }
            },
        }
    }

    /// Evaluates an argument list left to right, in exact agreement with
    /// `eval_list`.
    #[verifier::loop_isolation(false)]
    fn eval_args(&mut self, exprs: &Vec<Expr>, env: usize, fuel: u64) -> (r: Result<
        Vec<Value>,
        crate::oracle::Stop,
    >)
        requires
            old(self).wf(),
            env < old(self).st().frames.len(),
        ensures
            final(self).wf(),
            final(self).depth() == old(self).depth(),
            final(self).st().frames.len() >= old(self).st().frames.len(),
            ({
                let (st2, r2) = eval_list(
                    old(self).st(),
                    crate::parser::exprs_view(exprs@),
                    0,
                    env as int,
                    fuel as nat,
                );
                final(self).st() == st2 && match (r, r2) {
                    (Ok(vs), Ok(ws)) => vs@.map(|i: int, v: Value| v@) == ws,
                    (Err(s), Err(h)) => h matches EvalR::Halt(h2) && s@ == h2,
                    _ => false,
                }
            }),
        decreases fuel, 1int, *exprs,
    {
        let ghost es = crate::parser::exprs_view(exprs@);
        let ghost st0 = self.st();
        let mut out: Vec<Value> = Vec::new();
        let mut i: usize = 0;
        proof {
            crate::parser::lemma_exprs_view(exprs@);
        }
        while i < exprs.len()
            invariant
                self.wf(),
                self.depth() == old(self).depth(),
                env < self.st().frames.len(),
                self.st().frames.len() >= st0.frames.len(),
                i <= exprs.len(),
                es == crate::parser::exprs_view(exprs@),
                es.len() == exprs@.len(),
                forall|j: int| 0 <= j < exprs@.len() ==> es[j] == crate::parser::expr_view(
                    exprs@[j],
                ),
                ({
                    let (stF, rF) = eval_list(st0, es, 0, env as int, fuel as nat);
                    match eval_list(self.st(), es, i as int, env as int, fuel as nat) {
                        (stR, Ok(vs)) => stF == stR && rF == Ok::<Seq<ValueM>, EvalR>(
                            out@.map(|k: int, v: Value| v@) + vs,
                        ),
                        (stR, Err(h)) => stF == stR && rF == Err::<Seq<ValueM>, EvalR>(h),
                    }
                }),
            decreases exprs.len() - i,
        {
            proof {
                assert(decreases_to!(*exprs => exprs@));
                assert(decreases_to!(exprs@ => exprs@[i as int]));
            }
            let ghost out0 = out@;
            match self.interpret_at(&exprs[i], env, fuel) {
                Ok(InterpretResult::Value(v)) => {
                    out.push(v);
                    proof {
                        assert(out@.map(|k: int, v: Value| v@) =~= out0.map(
                            |k: int, v: Value| v@,
                        ).push(out@.last()@));
                        let (stR, rest) = eval_list(
                            self.st(),
                            es,
                            i + 1,
                            env as int,
                            fuel as nat,
                        );
                        match rest {
                            Ok(vs) => {
                                assert(out0.map(|k: int, v: Value| v@) + (seq![
                                    out@.last()@,
                                ] + vs) =~= out@.map(|k: int, v: Value| v@) + vs);
                            },
                            Err(_) => {},
                        }
                    }
                },
                Ok(InterpretResult::Return(_)) => {
                    return Err(
                        crate::oracle::Stop::Error(crate::errors::EvalError::UnexpectedReturn),
                    );
                },
                Err(s) => {
                    return Err(s);
                },
            }
            i = i + 1;
        }
        proof {
            assert(out@.map(|k: int, v: Value| v@) + Seq::<ValueM>::empty() =~= out@.map(
                |k: int, v: Value| v@,
            ));
        }
        Ok(out)
    }

    /// Performs a direct native-path call: the first segment names the
    /// module or library, the remaining segments joined with `::` name the
    /// function.
    fn call_rust_function(&mut self, path: &Vec<String>, arguments: Vec<Value>) -> (r: Result<
        InterpretResult,
        crate::oracle::Stop,
    >)
        requires
            old(self).wf(),
        ensures
            final(self).wf(),
            final(self).depth() == old(self).depth(),
            final(self).st().frames.len() == old(self).st().frames.len(),
            ({
                let st0 = old(self).st();
                let pathm = crate::parser::path_view(path@);
                let argsm = arguments@.map(|i: int, v: Value| v@);
                if pathm.len() < 2 {
                    final(self).st() == st0 && (r matches Err(s) && s@
                        == crate::oracle::StopM::Error(ErrM::InvalidNativePath))
                } else {
                    let (fm2, pos2, r2) = crate::feather::call_function_spec(
                        st0.fm,
                        st0.answers,
                        st0.pos,
                        pathm[0],
                        crate::feather::join_path(pathm.subrange(1, pathm.len() as int)),
                        argsm,
                    );
                    final(self).st() == (St { fm: fm2, pos: pos2, ..st0 }) && match (r, r2) {
                        (Ok(ir), Ok(v)) => ir@ == IrM::Value(v),
                        (Err(s), Err(s2)) => s@ == s2,
                        _ => false,
                    }
                }
            }),
    {
        if path.len() < 2 {
            proof {
                assert(final(self).st() == old(self).st());
            }
            return Err(
                crate::oracle::Stop::Error(crate::errors::EvalError::InvalidNativePath),
            );
        }
        let feather_name = path[0].clone();
        let function_name = crate::feather::join_path_from(path, 1);
        let r = self.feather_manager.call_function(
            feather_name.as_str(),
            function_name.as_str(),
            arguments,
            &mut self.oracle,
        );
        match r {
            Ok(v) => Ok(InterpretResult::Value(v)),
            Err(s) => Err(s),
        }
    }

    /// Calls a callee that has already been evaluated, on already evaluated
    /// arguments, in exact agreement with `call_value`.
    #[verifier::loop_isolation(false)]
    fn call_function(
        &mut self,
        callee: InterpretResult,
        arguments: Vec<Value>,
        fuel: u64,
    ) -> (r: Result<InterpretResult, crate::oracle::Stop>)
        requires
            old(self).wf(),
        ensures
            final(self).wf(),
            final(self).depth() == old(self).depth(),
            final(self).st().frames.len() >= old(self).st().frames.len(),
            ({
                let argsm = arguments@.map(|i: int, v: Value| v@);
                match callee@ {
                    IrM::Value(cv) => {
                        let (st2, r2) = call_value(old(self).st(), cv, argsm, fuel as nat);
                        final(self).st() == st2 && res_agrees(r, r2)
                    },
                    IrM::Return(_) => final(self).st() == old(self).st() && (r matches Err(s)
                        && s@ == crate::oracle::StopM::Error(ErrM::NotCallable)),
                }
            }),
        decreases fuel, 0int, Expr::Nun,
    {
        let ghost argsm = arguments@.map(|i: int, v: Value| v@);
        match callee {
            InterpretResult::Value(Value::Function(idx)) => {
                if idx >= self.functions.len() {
                    return Err(
                        crate::oracle::Stop::Error(crate::errors::EvalError::NotCallable),
                    );
                }
                let (params, body, closure) = {
                    let f = &self.functions[idx];
                    (
                        crate::parser::clone_params(&f.params),
                        crate::parser::clone_exprs(&f.body),
                        f.closure,
                    )
                };
                proof {
                    assert(old(self).st().funcs[idx as int] == self.functions@[idx as int]@);
                }
                let new_env = self.env.push_frame(closure);
                proof {
                    assert(self.st().funcs =~= old(self).st().funcs);
                    assert(self.st().frames =~= old(self).st().frames.push(
                        FrameM { vals: Map::empty(), parent: Some(closure as int) },
                    ));
                }

                if params.len() != arguments.len() {
                    return Err(
                        crate::oracle::Stop::Error(
                            crate::errors::EvalError::ArityMismatch {
                                expected: params.len(),
                                got: arguments.len(),
                            },
                        ),
                    );
                }

                let ghost st1 = self.st();
                let ghost paramsm = crate::parser::params_view(params@);
                let mut i: usize = 0;
                while i < params.len()
                    invariant
                        self.wf(),
                        self.depth() == old(self).depth(),
                        i <= params.len(),
                        params@.len() == arguments@.len(),
                        new_env < self.st().frames.len(),
                        paramsm == crate::parser::params_view(params@),
                        self.st() == (St {
                            frames: bind_params(
                                st1.frames,
                                new_env as int,
                                paramsm.subrange(0, i as int),
                                argsm.subrange(0, i as int),
                            ),
                            ..st1
                        }),
                    decreases params.len() - i,
                {
                    self.env.define(new_env, params[i].1.clone(), arguments[i].clone());
                    proof {
                        assert(paramsm.subrange(0, i + 1).drop_last() =~= paramsm.subrange(
                            0,
                            i as int,
                        ));
                        assert(argsm.subrange(0, i + 1).drop_last() =~= argsm.subrange(
                            0,
                            i as int,
                        ));
                        assert(paramsm.subrange(0, i + 1).last() == paramsm[i as int]);
                        assert(argsm.subrange(0, i + 1).last() == argsm[i as int]);
                    }
                    i = i + 1;
                }
                proof {
                    assert(paramsm.subrange(0, paramsm.len() as int) =~= paramsm);
                    assert(argsm.subrange(0, argsm.len() as int) =~= argsm);
                }

                if fuel == 0 {
                    return Err(
                        crate::oracle::Stop::Error(crate::errors::EvalError::DepthExceeded),
                    );
                }

                let ghost st2 = self.st();
                let ghost bodym = crate::parser::exprs_view(body@);
                proof {
                    crate::parser::lemma_exprs_view(body@);
                }
                let mut last_value = Value::Nun;
                let mut j: usize = 0;
                while j < body.len()
                    invariant
                        self.wf(),
                        self.depth() == old(self).depth(),
                        j <= body.len(),
                        new_env < self.st().frames.len(),
                        self.st().frames.len() >= st2.frames.len(),
                        bodym == crate::parser::exprs_view(body@),
                        bodym.len() == body@.len(),
                        forall|k: int| 0 <= k < body@.len() ==> bodym[k]
                            == crate::parser::expr_view(body@[k]),
                        fuel >= 1,
                        ({
                            let (stF, rF) = eval_body(
                                st2,
                                bodym,
                                0,
                                new_env as int,
                                (fuel - 1) as nat,
                                ValueM::Nun,
                            );
                            let (stH, rH) = eval_body(
                                self.st(),
                                bodym,
                                j as int,
                                new_env as int,
                                (fuel - 1) as nat,
                                last_value@,
                            );
                            stF == stH && rF == rH
                        }),
                    decreases body.len() - j,
                {
                    proof {
                        assert(decreases_to!(body => body@));
                        assert(decreases_to!(body@ => body@[j as int]));
                    }
                    match self.interpret_at(&body[j], new_env, fuel - 1) {
                        Ok(InterpretResult::Return(v)) => {
                            return Ok(InterpretResult::Value(v));
                        },
                        Ok(InterpretResult::Value(v)) => {
                            last_value = v;
                        },
                        Err(s) => {
                            return Err(s);
                        },
                    }
                    j = j + 1;
                }
                Ok(InterpretResult::Value(last_value))
            },
            InterpretResult::Value(Value::FeatherFunction(feather_name, function_name)) => {
                let r = self.feather_manager.call_function(
                    feather_name.as_str(),
                    function_name.as_str(),
                    arguments,
                    &mut self.oracle,
                );
                match r {
                    Ok(v) => Ok(InterpretResult::Value(v)),
                    Err(s) => Err(s),
                }
            },
            _ => Err(crate::oracle::Stop::Error(crate::errors::EvalError::NotCallable)),
        }
    }

    /// Evaluates one expression in the global scope, with the default call
    /// depth.
    pub fn interpret(&mut self, expr: &Expr) -> (r: Result<InterpretResult, crate::oracle::Stop>)
        requires
            old(self).wf(),
        ensures
            final(self).wf(),
            final(self).depth() == old(self).depth(),
            ({
                let (st2, r2) = eval_expr(old(self).st(), expr@, 0, old(self).depth());
                final(self).st() == st2 && res_agrees(r, r2)
            }),
    {
        let depth = self.call_depth;
        self.interpret_at(expr, 0, depth)
    }

    /// Runs a whole program in the global scope: the last computed value is
    /// the result, a `return` reaching the top level ends the run early, and
    /// the run suspends when it needs an answer the embedder has not given
    /// yet.
    #[verifier::loop_isolation(false)]
    pub fn interpret_program(&mut self, expressions: &Vec<Expr>) -> (r: crate::oracle::RunOutcome)
        requires
            old(self).wf(),
        ensures
            final(self).wf(),
            final(self).depth() == old(self).depth(),
            ({
                let (st2, r2) = run_program(
                    old(self).st(),
                    crate::parser::exprs_view(expressions@),
                    0,
                    ValueM::Nun,
                    old(self).depth(),
                );
                final(self).st() == st2 && match (r, r2) {
                    (crate::oracle::RunOutcome::Finished(Ok(v)), RunR::Done(Ok(v2))) => v@ == v2,
                    (crate::oracle::RunOutcome::Finished(Err(e)), RunR::Done(Err(e2))) => e@
                        == e2,
                    (crate::oracle::RunOutcome::Pending(q), RunR::Pending(q2)) => q@ == q2,
                    _ => false,
                }
            }),
    {
        let ghost esm = crate::parser::exprs_view(expressions@);
        let ghost st0 = self.st();
        proof {
            crate::parser::lemma_exprs_view(expressions@);
        }
        let mut result = Value::Nun;
        let mut i: usize = 0;
        while i < expressions.len()
            invariant
                self.wf(),
                self.depth() == old(self).depth(),
                i <= expressions.len(),
                esm == crate::parser::exprs_view(expressions@),
                esm.len() == expressions@.len(),
                forall|k: int| 0 <= k < expressions@.len() ==> esm[k]
                    == crate::parser::expr_view(expressions@[k]),
                ({
                    let (stF, rF) = run_program(st0, esm, 0, ValueM::Nun, old(self).depth());
                    let (stH, rH) = run_program(
                        self.st(),
                        esm,
                        i as int,
                        result@,
                        old(self).depth(),
                    );
                    stF == stH && rF == rH
                }),
            decreases expressions.len() - i,
        {
            match self.interpret_at(&expressions[i], 0, self.call_depth) {
                Ok(InterpretResult::Value(v)) => {
                    result = v;
                },
                Ok(InterpretResult::Return(v)) => {
                    return crate::oracle::RunOutcome::Finished(Ok(v));
                },
                Err(crate::oracle::Stop::Error(e)) => {
                    return crate::oracle::RunOutcome::Finished(Err(e));
                },
                Err(crate::oracle::Stop::Pending(q)) => {
                    return crate::oracle::RunOutcome::Pending(q);
                },
            }
            i = i + 1;
        }
        crate::oracle::RunOutcome::Finished(Ok(result))
    }
}

} // verus!

