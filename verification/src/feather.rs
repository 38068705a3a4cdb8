use vstd::prelude::*;
use vstd::string::StringExecFns;
use crate::errors::{ErrM, EvalError};
use crate::interpreter::{Value, ValueM};
use crate::lexer::{Lexer, TokM, Token};
use crate::oracle::{AnsM, ExtAnswer, ExtRequest, FeatherSource, FeatherSourceM, NativeOutcome,
    NativeOutcomeM, Oracle, ReqM, Stop, StopM};
use crate::parser::{clone_exprs, exprs_view, Expr, ExprM, Parser};
use crate::util::{push_char, str_eq};

verus! {

/// One function of an extension module: the body of its definition. When the
/// function is called, the first body statement must be a native call, whose
/// path names the library and symbol to invoke with the caller's arguments.
#[derive(Debug)]
pub struct FeatherEntry {
    pub body: Vec<Expr>,
}

impl View for FeatherEntry {
    type V = Seq<ExprM>;

    open spec fn view(&self) -> Seq<ExprM> {
        exprs_view(self.body@)
    }
}

/// A loaded extension module: its name and its function table.
#[derive(Debug)]
pub struct Feather {
    pub name: String,
    pub functions: Vec<(String, FeatherEntry)>,
}

/// A function table as a map; later entries win.
pub open spec fn functions_map(fs: Seq<(String, FeatherEntry)>) -> Map<Seq<char>, Seq<ExprM>>
    decreases fs,
{
    if fs.len() == 0 {
        Map::empty()
    } else {
        functions_map(fs.drop_last()).insert(fs.last().0@, fs.last().1@)
    }
}

impl View for Feather {
    type V = Map<Seq<char>, Seq<ExprM>>;

    open spec fn view(&self) -> Map<Seq<char>, Seq<ExprM>> {
        functions_map(self.functions@)
    }
}

/// The registered modules as a map; a re-import replaces the older table.
pub open spec fn feathers_map(fs: Seq<(String, Feather)>) -> Map<
    Seq<char>,
    Map<Seq<char>, Seq<ExprM>>,
>
    decreases fs,
{
    if fs.len() == 0 {
        Map::empty()
    } else {
        feathers_map(fs.drop_last()).insert(fs.last().0@, fs.last().1@)
    }
}

/// Mathematical image of the manager: the module tables, the project root,
/// and the names of the libraries recorded as loaded.
pub ghost struct FmM {
    pub feathers: Map<Seq<char>, Map<Seq<char>, Seq<ExprM>>>,
    pub root: Seq<char>,
    pub loaded: Seq<Seq<char>>,
}

/// `name` without its leading dots.
pub open spec fn strip_dots(name: Seq<char>) -> Seq<char>
    decreases name.len(),
{
    if name.len() > 0 && name[0] == '.' {
        strip_dots(name.subrange(1, name.len() as int))
    } else {
        name
    }
}

/// Where module `name` is looked for: a dot-prefixed name resolves under the
/// project root itself, any other under its `feathers` directory; the script
/// file extension is appended.
pub open spec fn feather_path_spec(root: Seq<char>, name: Seq<char>) -> Seq<char> {
    if name.len() > 0 && name[0] == '.' {
        root + "/"@ + strip_dots(name) + ".pl"@
    } else {
        root + "/feathers/"@ + name + ".pl"@
    }
}

/// Where the shared library `name` is looked for.
pub open spec fn library_path_spec(root: Seq<char>, name: Seq<char>) -> Seq<char> {
    root + "/rust_libs/lib"@ + name + ".so"@
}

/// The function table an extension module's statements define: every
/// top-level function definition becomes an entry, the last one winning.
pub open spec fn feather_table(es: Seq<ExprM>) -> Map<Seq<char>, Seq<ExprM>>
    decreases es,
{
    if es.len() == 0 {
        Map::empty()
    } else {
        let m = feather_table(es.drop_last());
        match es.last() {
            ExprM::FunctionDefinition { name, body, .. } => m.insert(name, body),
            _ => m,
        }
    }
}

/// What importing module `name` does to the manager: a parsed module
/// replaces any table registered under the name; every failure leaves the
/// manager unchanged.
pub open spec fn import_spec(fm: FmM, name: Seq<char>, src: FeatherSourceM) -> (FmM, Result<
    (),
    ErrM,
>) {
    match src {
        FeatherSourceM::Missing => (
            fm,
            Err(ErrM::FeatherFileNotFound(feather_path_spec(fm.root, name))),
        ),
        FeatherSourceM::Unreadable(d) => (fm, Err(ErrM::FeatherFileUnreadable(d))),
        FeatherSourceM::Failed(e) => (fm, Err(e)),
        FeatherSourceM::Parsed(es) => (
            FmM {
                feathers: fm.feathers.insert(name, feather_table(es)),
                root: fm.root,
                loaded: fm.loaded,
            },
            Ok(()),
        ),
    }
}

/// The dotted path joined with `::`, as the native handoff reports it.
pub open spec fn join_path(p: Seq<Seq<char>>) -> Seq<char>
    decreases p.len(),
{
    if p.len() == 0 {
        Seq::empty()
    } else if p.len() == 1 {
        p[0]
    } else {
        join_path(p.subrange(0, p.len() - 1)) + "::"@ + p.last()
    }
}

/// What a native call does: the first path segment names the library (the
/// reserved name `std_func` designating the built-in table), the last the
/// symbol; a real library is loaded at most once per manager, and the
/// embedder performs the load and the call.
pub open spec fn native_call_spec(
    fm: FmM,
    ans: Seq<AnsM>,
    pos: int,
    path: Seq<Seq<char>>,
    args: Seq<ValueM>,
) -> (FmM, int, Result<ValueM, StopM>) {
    if path.len() < 2 {
        (fm, pos, Err(StopM::Error(ErrM::InvalidNativePathIn(join_path(path)))))
    } else if path[0] == "std_func"@ && crate::std_functions::is_std_builtin(
        path[path.len() - 1],
    ) {
        let (pos1, r) = crate::std_functions::std_call_spec(ans, pos, path[path.len() - 1], args);
        (fm, pos1, r)
    } else {
        let lib = path[0];
        let func = path[path.len() - 1];
        let load_req = ReqM::LoadLibrary { library: lib, path: library_path_spec(fm.root, lib) };
        let (fm1, pos1, load_r): (FmM, int, Result<(), StopM>) = if fm.loaded.contains(lib) {
            (fm, pos, Ok(()))
        } else {
            if pos < ans.len() {
                match ans[pos] {
                    AnsM::Load(Ok(())) => (
                        FmM { feathers: fm.feathers, root: fm.root, loaded: fm.loaded.push(lib) },
                        pos + 1,
                        Ok(()),
                    ),
                    AnsM::Load(Err(d)) => (
                        fm,
                        pos + 1,
                        Err(
                            StopM::Error(
                                ErrM::LibraryLoadFailed { library: lib, detail: d },
                            ),
                        ),
                    ),
                    _ => (fm, pos + 1, Err(StopM::Error(ErrM::BadAnswer))),
                }
            } else {
                (fm, pos, Err(StopM::Pending(load_req)))
            }
        };
        match load_r {
            Err(s) => (fm1, pos1, Err(s)),
            Ok(()) => {
                let call_req = ReqM::CallNative { library: lib, function: func, arguments: args };
                if pos1 < ans.len() {
                    match ans[pos1] {
                        AnsM::Native(NativeOutcomeM::SymbolMissing(d)) => (
                            fm1,
                            pos1 + 1,
                            Err(
                                StopM::Error(
                                    ErrM::SymbolNotFound {
                                        library: lib,
                                        function: func,
                                        detail: d,
                                    },
                                ),
                            ),
                        ),
                        AnsM::Native(NativeOutcomeM::NullResult) => (
                            fm1,
                            pos1 + 1,
                            Err(StopM::Error(ErrM::NativeNull(func))),
                        ),
                        AnsM::Native(NativeOutcomeM::Returned(v)) => (fm1, pos1 + 1, Ok(v)),
                        _ => (fm1, pos1 + 1, Err(StopM::Error(ErrM::BadAnswer))),
                    }
                } else {
                    (fm1, pos1, Err(StopM::Pending(call_req)))
                }
            },
        }
    }
}

/// What calling `function` of module `feather` does: the reserved name
/// `std_func` tries the built-in table first; otherwise the module's entry
/// must exist and hold a native call as its first body statement.
pub open spec fn call_function_spec(
    fm: FmM,
    ans: Seq<AnsM>,
    pos: int,
    feather: Seq<char>,
    function: Seq<char>,
    args: Seq<ValueM>,
) -> (FmM, int, Result<ValueM, StopM>) {
    if feather == "std_func"@ && crate::std_functions::is_std_builtin(function) {
        let (pos1, r) = crate::std_functions::std_call_spec(ans, pos, function, args);
        (fm, pos1, r)
    } else {
        if !fm.feathers.contains_key(feather) {
            (fm, pos, Err(StopM::Error(ErrM::FeatherNotFound(feather))))
        } else {
            let table = fm.feathers[feather];
            if !table.contains_key(function) {
                (
                    fm,
                    pos,
                    Err(StopM::Error(ErrM::FunctionNotFound { feather, function })),
                )
            } else {
                let body = table[function];
                if body.len() == 0 {
                    (fm, pos, Err(StopM::Error(ErrM::EmptyFunctionBody)))
                } else {
                    match body[0] {
                        ExprM::RustFunctionCall { path, .. } => native_call_spec(
                            fm,
                            ans,
                            pos,
                            path,
                            args,
                        ),
                        _ => (fm, pos, Err(StopM::Error(ErrM::NotNativeCallBody))),
                    }
                }
            }
        }
    }
}

/// Whether `r` is the outcome of parsing a token sequence `ts` (with the
/// given kinds) as an extension module's source: the parsed statements on
/// success, the parse failure otherwise.
pub open spec fn feather_parse_outcome(ts: Seq<Token>, ks: Seq<TokM>, r: FeatherSourceM) -> bool {
    crate::lexer::kinds_of(ts) == ks && match crate::parser::p_parse(ts, 0) {
        (j, Ok(ems)) => r == FeatherSourceM::Parsed(ems),
        (j, Err(em)) => r == FeatherSourceM::Failed(ErrM::Parse(em)),
    }
}

/// Whether registering under `name` what token sequence `ts` parses to takes
/// the manager's image from `fm0` to `fm1` with result `r`: on a successful
/// parse the module's table is replaced by the parsed one, on a failed parse
/// nothing changes and the parse failure is the error.
pub open spec fn registration_outcome(
    fm0: FmM,
    fm1: FmM,
    name: Seq<char>,
    ts: Seq<Token>,
    r: Result<(), EvalError>,
) -> bool {
    match crate::parser::p_parse(ts, 0) {
        (j, Ok(ems)) => r is Ok && fm1 == (FmM {
            feathers: fm0.feathers.insert(name, feather_table(ems)),
            ..fm0
        }),
        (j, Err(em)) => (r matches Err(e) && e@ == ErrM::Parse(em)) && fm1 == fm0,
    }
}

/// Registers extension modules, resolves their files, and performs the
/// native handoff through the embedder. Libraries are recorded so that each
/// is asked to be loaded at most once per manager.
#[derive(Debug)]
pub struct FeatherManager {
    pub feathers: Vec<(String, Feather)>,
    pub project_root: String,
    pub loaded_libraries: Vec<String>,
}

impl View for FeatherManager {
    type V = FmM;

    open spec fn view(&self) -> FmM {
        FmM {
            feathers: feathers_map(self.feathers@),
            root: self.project_root@,
            loaded: self.loaded_libraries@.map(|i: int, s: String| s@),
        }
    }
}

impl FeatherManager {
    /// A manager for a project rooted at `project_root`: no modules, no
    /// loaded libraries.
    pub fn new(project_root: String) -> (r: FeatherManager)
        ensures
            r@.feathers == Map::<Seq<char>, Map<Seq<char>, Seq<ExprM>>>::empty(),
            r@.root == project_root@,
            r@.loaded == Seq::<Seq<char>>::empty(),
    {
        let r = FeatherManager {
            feathers: Vec::new(),
            project_root,
            loaded_libraries: Vec::new(),
        };
        proof {
            assert(r@.loaded =~= Seq::<Seq<char>>::empty());
        }
        r
    }

    /// The file path module `name` resolves to.
    pub fn feather_path(&self, name: &str) -> (r: String)
        ensures
            r@ == feather_path_spec(self@.root, name@),
    {
        proof {
            reveal_strlit("/");
            reveal_strlit("/feathers/");
            reveal_strlit(".pl");
        }
        let mut path = self.project_root.clone();
        if name.unicode_len() > 0 && name.get_char(0) == '.' {
            path.append("/");
            let mut i: usize = 0;
            let n = name.unicode_len();
            proof {
                assert(name@.subrange(0, n as int) =~= name@);
            }
            while i < n && name.get_char(i) == '.'
                invariant
                    n == name@.len(),
                    i <= n,
                    forall|j: int| 0 <= j < i ==> name@[j] == '.',
                    strip_dots(name@) == strip_dots(name@.subrange(i as int, n as int)),
                decreases n - i,
            {
                proof {
                    assert(name@.subrange(i as int, n as int).subrange(
                        1,
                        (n - i) as int,
                    ) =~= name@.subrange(i + 1, n as int));
                }
                i = i + 1;
            }
            proof {
                assert(strip_dots(name@.subrange(i as int, n as int)) == name@.subrange(
                    i as int,
                    n as int,
                ));
            }
            let mut rest = String::new();
            let mut k: usize = i;
            while k < n
                invariant
                    n == name@.len(),
                    i <= k <= n,
                    rest@ =~= name@.subrange(i as int, k as int),
                decreases n - k,
            {
                push_char(&mut rest, name.get_char(k));
                proof {
                    assert(rest@ =~= name@.subrange(i as int, k + 1));
                }
                k = k + 1;
            }
            proof {
                assert(rest@ =~= name@.subrange(i as int, n as int));
            }
            path.append(rest.as_str());
            path.append(".pl");
            proof {
                assert(path@ =~= feather_path_spec(self@.root, name@));
            }
            path
        } else {
            path.append("/feathers/");
            path.append(name);
            path.append(".pl");
            proof {
                assert(path@ =~= feather_path_spec(self@.root, name@));
            }
            path
        }
    }

    /// The file path library `name` resolves to.
    pub fn library_path(&self, name: &str) -> (r: String)
        ensures
            r@ == library_path_spec(self@.root, name@),
    {
        proof {
            reveal_strlit("/rust_libs/lib");
            reveal_strlit(".so");
        }
        let mut path = self.project_root.clone();
        path.append("/rust_libs/lib");
        path.append(name);
        path.append(".so");
        proof {
            assert(path@ =~= library_path_spec(self@.root, name@));
        }
        path
    }

    /// Lexes and parses the text of an extension module file: the parsed
    /// statements exactly when the text lexes and parses, the first failure
    /// otherwise.
    #[verifier::rlimit(50)]
    pub fn parse_feather(content: &str) -> (r: FeatherSource)
        ensures
            match crate::lexer::lex_all(content@, 0) {
                Err(_) => r@ matches FeatherSourceM::Failed(ErrM::Lex(le))
                    && crate::lexer::lex_all(content@, 0) == Err::<
                    Seq<TokM>,
                    crate::lexer::LexErrorKind,
                >(le.kind),
                Ok(ks) => exists|ts: Seq<Token>| #[trigger] feather_parse_outcome(ts, ks, r@),
            },
    {
        let mut lexer = Lexer::new(content);
        let tokens = match lexer.tokenize() {
            Ok(ts) => ts,
            Err(e) => {
                let r = FeatherSource::Failed(EvalError::Lex(e));
                proof {
                    assert(r@ matches FeatherSourceM::Failed(ErrM::Lex(le)) && crate::lexer::lex_all(
                        content@,
                        0,
                    ) == Err::<Seq<TokM>, crate::lexer::LexErrorKind>(le.kind));
                }
                return r;
            },
        };
        let ghost tsw = tokens@;
        let mut parser = Parser::new(tokens);
        let r = match parser.parse() {
            Ok(exprs) => {
                proof {
                    crate::parser::lemma_exprs_view_is_vm(exprs@);
                }
                FeatherSource::Parsed(exprs)
            },
            Err(e) => FeatherSource::Failed(EvalError::Parse(e)),
        };
        proof {
            let ks0 = crate::lexer::lex_all(content@, 0)->Ok_0;
            assert(ks0 == crate::lexer::kinds_of(tsw));
            assert(feather_parse_outcome(tsw, ks0, r@));
        }
        r
    }

    /// Registers module `name` from what the embedder found at its resolved
    /// path. A parsed module replaces any table registered under the name;
    /// every failure leaves the manager unchanged.
    pub fn import(&mut self, name: &str, source: FeatherSource) -> (r: Result<(), EvalError>)
        ensures
            ({
                let (fm2, r2) = import_spec(old(self)@, name@, source@);
                final(self)@ == fm2 && match (r, r2) {
                    (Ok(()), Ok(())) => true,
                    (Err(e), Err(e2)) => e@ == e2,
                    _ => false,
                }
            }),
    {
        match source {
            FeatherSource::Missing => Err(
                EvalError::FeatherFileNotFound(self.feather_path(name)),
            ),
            FeatherSource::Unreadable(d) => Err(EvalError::FeatherFileUnreadable(d)),
            FeatherSource::Failed(e) => Err(e),
            FeatherSource::Parsed(exprs) => {
                let mut functions: Vec<(String, FeatherEntry)> = Vec::new();
                let mut i: usize = 0;
                while i < exprs.len()
                    invariant
                        i <= exprs.len(),
                        functions_map(functions@) == feather_table(
                            exprs_view(exprs@.subrange(0, i as int)),
                        ),
                    decreases exprs.len() - i,
                {
                    proof {
                        crate::parser::lemma_exprs_view(exprs@.subrange(0, i + 1));
                        crate::parser::lemma_exprs_view(exprs@.subrange(0, i as int));
                        assert(exprs_view(exprs@.subrange(0, i + 1)).drop_last() =~= exprs_view(
                            exprs@.subrange(0, i as int),
                        ));
                        assert(exprs_view(exprs@.subrange(0, i + 1)).last() == crate::parser::expr_view(
                            exprs@[i as int],
                        ));
                    }
                    let ghost fs0 = functions@;
                    match &exprs[i] {
                        Expr::FunctionDefinition { name: fname, parameters: _, body, .. } => {
                            functions.push(
                                (fname.clone(), FeatherEntry { body: clone_exprs(body) }),
                            );
                            proof {
                                assert(functions@.drop_last() =~= fs0);
                            }
                        },
                        _ => {},
                    }
                    i = i + 1;
                }
                proof {
                    assert(exprs@.subrange(0, exprs@.len() as int) =~= exprs@);
                }
                let feather = Feather { name: name.to_owned(), functions };
                self.feathers.push((name.to_owned(), feather));
                proof {
                    assert(self.feathers@.drop_last() =~= old(self).feathers@);
                }
                Ok(())
            },
        }
    }

    fn find_feather(&self, name: &str) -> (r: Option<&Feather>)
        ensures
            match r {
                Some(fe) => self@.feathers.contains_key(name@) && fe@ == self@.feathers[name@],
                None => !self@.feathers.contains_key(name@),
            },
    {
        let mut i: usize = self.feathers.len();
        proof {
            assert(self.feathers@.subrange(0, self.feathers@.len() as int) =~= self.feathers@);
        }
        while i > 0
            invariant
                i <= self.feathers.len(),
                feathers_map(self.feathers@).contains_key(name@) == feathers_map(
                    self.feathers@.subrange(0, i as int),
                ).contains_key(name@),
                feathers_map(self.feathers@).contains_key(name@) ==> feathers_map(
                    self.feathers@,
                )[name@] == feathers_map(self.feathers@.subrange(0, i as int))[name@],
            decreases i,
        {
            proof {
                assert(self.feathers@.subrange(0, i as int).drop_last() =~= self.feathers@.subrange(
                    0,
                    i - 1,
                ));
                assert(self.feathers@.subrange(0, i as int).last() == self.feathers@[i - 1]);
            }
            if str_eq(self.feathers[i - 1].0.as_str(), name) {
                return Some(&self.feathers[i - 1].1);
            }
            i = i - 1;
        }
        proof {
            assert(self.feathers@.subrange(0, 0) =~= Seq::<(String, Feather)>::empty());
        }
        None
    }

    /// Records whether library `name` was already asked to be loaded.
    fn library_loaded(&self, name: &str) -> (r: bool)
        ensures
            r == self@.loaded.contains(name@),
    {
        let mut i: usize = 0;
        while i < self.loaded_libraries.len()
            invariant
                i <= self.loaded_libraries.len(),
                forall|j: int| 0 <= j < i ==> self@.loaded[j] != name@,
            decreases self.loaded_libraries.len() - i,
        {
            if str_eq(self.loaded_libraries[i].as_str(), name) {
                proof {
                    assert(self@.loaded[i as int] == name@);
                }
                return true;
            }
            i = i + 1;
        }
        false
    }

    /// Performs a native call: resolves the library from the first path
    /// segment (asking the embedder to load it the first time), then asks the
    /// embedder to call the symbol named by the last segment with the
    /// caller-supplied arguments.
    pub(crate) fn call_rust_function(
        &mut self,
        path: &Vec<String>,
        arguments: Vec<Value>,
        oracle: &mut Oracle,
    ) -> (r: Result<Value, Stop>)
        requires
            old(oracle).wf(),
        ensures
            final(oracle).wf(),
            final(oracle).answers() == old(oracle).answers(),
            ({
                let (fm2, pos2, r2) = native_call_spec(
                    old(self)@,
                    old(oracle).answers(),
                    old(oracle).pos(),
                    crate::parser::path_view(path@),
                    arguments@.map(|i: int, v: Value| v@),
                );
                final(self)@ == fm2 && final(oracle).pos() == pos2 && match (r, r2) {
                    (Ok(v), Ok(v2)) => v@ == v2,
                    (Err(s), Err(s2)) => s@ == s2,
                    _ => false,
                }
            }),
    {
        let ghost argsm = arguments@.map(|i: int, v: Value| v@);
        let ghost pathm = crate::parser::path_view(path@);
        if path.len() < 2 {
            return Err(Stop::Error(EvalError::InvalidNativePathIn(join_path_exec(path))));
        }
        let library = path[0].clone();
        let function = path[path.len() - 1].clone();

        proof {
            reveal_strlit("std_func");
        }
        if str_eq(library.as_str(), "std_func") && crate::std_functions::is_builtin_name(
            function.as_str(),
        ) {
            match crate::std_functions::call_std_function(function.as_str(), arguments, oracle) {
                Some(r) => {
                    return r;
                },
                None => {
                    proof {
                        assert(false);
                    }
                    return Err(Stop::Error(EvalError::BadAnswer));
                },
            }
        }

        if !self.library_loaded(library.as_str()) {
            let lib_path = self.library_path(library.as_str());
            match oracle.next(
                ExtRequest::LoadLibrary { library: library.clone(), path: lib_path },
            ) {
                Ok(ExtAnswer::Load(Ok(()))) => {
                    self.loaded_libraries.push(library.clone());
                    proof {
                        assert(self@.loaded =~= old(self)@.loaded.push(library@));
                    }
                },
                Ok(ExtAnswer::Load(Err(detail))) => {
                    return Err(
                        Stop::Error(EvalError::LibraryLoadFailed { library, detail }),
                    );
                },
                Ok(_) => {
                    return Err(Stop::Error(EvalError::BadAnswer));
                },
                Err(s) => {
                    return Err(s);
                },
            }
        }

        match oracle.next(
            ExtRequest::CallNative { library: library.clone(), function: function.clone(), arguments },
        ) {
            Ok(ExtAnswer::Native(NativeOutcome::SymbolMissing(detail))) => Err(
                Stop::Error(EvalError::SymbolNotFound { library, function, detail }),
            ),
            Ok(ExtAnswer::Native(NativeOutcome::NullResult)) => Err(
                Stop::Error(EvalError::NativeNull(function)),
            ),
            Ok(ExtAnswer::Native(NativeOutcome::Returned(v))) => Ok(v),
            Ok(_) => Err(Stop::Error(EvalError::BadAnswer)),
            Err(s) => Err(s),
        }
    }

    /// Calls `function_name` of module `feather_name` on `arguments`. The
    /// reserved module name `std_func` offers the built-in table without any
    /// import; other names must have been imported, and their functions
    /// forward to native calls.
    pub fn call_function(
        &mut self,
        feather_name: &str,
        function_name: &str,
        arguments: Vec<Value>,
        oracle: &mut Oracle,
    ) -> (r: Result<Value, Stop>)
        requires
            old(oracle).wf(),
        ensures
            final(oracle).wf(),
            final(oracle).answers() == old(oracle).answers(),
            ({
                let (fm2, pos2, r2) = call_function_spec(
                    old(self)@,
                    old(oracle).answers(),
                    old(oracle).pos(),
                    feather_name@,
                    function_name@,
                    arguments@.map(|i: int, v: Value| v@),
                );
                final(self)@ == fm2 && final(oracle).pos() == pos2 && match (r, r2) {
                    (Ok(v), Ok(v2)) => v@ == v2,
                    (Err(s), Err(s2)) => s@ == s2,
                    _ => false,
                }
            }),
    {
        proof {
            reveal_strlit("std_func");
        }
        if str_eq(feather_name, "std_func") && crate::std_functions::is_builtin_name(
            function_name,
        ) {
            match crate::std_functions::call_std_function(function_name, arguments, oracle) {
                Some(r) => {
                    return r;
                },
                None => {
                    proof {
                        assert(false);
                    }
                    return Err(Stop::Error(EvalError::BadAnswer));
                },
            }
        }

        let entry_body: Vec<Expr> = {
            let feather = match self.find_feather(feather_name) {
                Some(f) => f,
                None => {
                    return Err(
                        Stop::Error(EvalError::FeatherNotFound(feather_name.to_owned())),
                    );
                },
            };
            let entry = match Self::find_function(feather, function_name) {
                Some(e) => e,
                None => {
                    return Err(
                        Stop::Error(
                            EvalError::FunctionNotFound {
                                feather: feather_name.to_owned(),
                                function: function_name.to_owned(),
                            },
                        ),
                    );
                },
            };
            clone_exprs(&entry.body)
        };

        if entry_body.len() == 0 {
            return Err(Stop::Error(EvalError::EmptyFunctionBody));
        }
        proof {
            crate::parser::lemma_exprs_view(entry_body@);
        }
        match &entry_body[0] {
            Expr::RustFunctionCall { path, arguments: _ } => {
                let path_copy = clone_strings(path);
                self.call_rust_function(&path_copy, arguments, oracle)
            },
            _ => Err(Stop::Error(EvalError::NotNativeCallBody)),
        }
    }

    fn find_function<'a>(feather: &'a Feather, name: &str) -> (r: Option<&'a FeatherEntry>)
        ensures
            match r {
                Some(e) => feather@.contains_key(name@) && e@ == feather@[name@],
                None => !feather@.contains_key(name@),
            },
    {
        let mut i: usize = feather.functions.len();
        proof {
            assert(feather.functions@.subrange(0, feather.functions@.len() as int)
                =~= feather.functions@);
        }
        while i > 0
            invariant
                i <= feather.functions.len(),
                functions_map(feather.functions@).contains_key(name@) == functions_map(
                    feather.functions@.subrange(0, i as int),
                ).contains_key(name@),
                functions_map(feather.functions@).contains_key(name@) ==> functions_map(
                    feather.functions@,
                )[name@] == functions_map(feather.functions@.subrange(0, i as int))[name@],
            decreases i,
        {
            proof {
                assert(feather.functions@.subrange(0, i as int).drop_last()
                    =~= feather.functions@.subrange(0, i - 1));
                assert(feather.functions@.subrange(0, i as int).last() == feather.functions@[i
                    - 1]);
            }
            if str_eq(feather.functions[i - 1].0.as_str(), name) {
                return Some(&feather.functions[i - 1].1);
            }
            i = i - 1;
        }
        proof {
            assert(feather.functions@.subrange(0, 0) =~= Seq::<(String, FeatherEntry)>::empty());
        }
        None
    }

    /// Lexes, parses and registers module `name` from the given file text:
    /// registration succeeds exactly when the text lexes and parses, and then
    /// the module's table is exactly what the parsed statements define.
    pub fn import_source(&mut self, name: &str, content: &str) -> (r: Result<(), EvalError>)
        ensures
            final(self)@.root == old(self)@.root,
            final(self)@.loaded == old(self)@.loaded,
            r is Ok ==> final(self)@.feathers.contains_key(name@),
            match crate::lexer::lex_all(content@, 0) {
                Err(_) => (r matches Err(e) && e@ matches ErrM::Lex(le)
                    && crate::lexer::lex_all(content@, 0) == Err::<
                    Seq<TokM>,
                    crate::lexer::LexErrorKind,
                >(le.kind)) && final(self)@ == old(self)@,
                Ok(ks) => exists|ts: Seq<Token>|
                    #![trigger crate::lexer::kinds_of(ts)]
                    crate::lexer::kinds_of(ts) == ks && registration_outcome(
                        old(self)@,
                        final(self)@,
                        name@,
                        ts,
                        r,
                    ),
            },
    {
        let source = Self::parse_feather(content);
        let ghost srcm = source@;
        let ghost fm0 = self@;
        let r = self.import(name, source);
        proof {
            match crate::lexer::lex_all(content@, 0) {
                Err(k) => {},
                Ok(ks) => {
                    let tsw = choose|ts: Seq<Token>| #[trigger] feather_parse_outcome(
                        ts,
                        ks,
                        srcm,
                    );
                    assert(crate::lexer::kinds_of(tsw) == ks && registration_outcome(
                        fm0,
                        self@,
                        name@,
                        tsw,
                        r,
                    ));
                },
            }
        }
        r
    }
}

/// Clones a path of identifiers.
fn clone_strings(v: &Vec<String>) -> (r: Vec<String>)
    ensures
        r@ =~= v@,
{
    let mut out: Vec<String> = Vec::new();
    let mut i: usize = 0;
    while i < v.len()
        invariant
            i <= v.len(),
            out@ =~= v@.subrange(0, i as int),
        decreases v.len() - i,
    {
        out.push(v[i].clone());
        proof {
            assert(out@ =~= v@.subrange(0, i + 1));
        }
        i = i + 1;
    }
    proof {
        assert(out@ =~= v@);
    }
    out
}

/// The tail of the dotted path from `start`, joined with `::`.
pub(crate) fn join_path_from(path: &Vec<String>, start: usize) -> (r: String)
    requires
        start < path@.len(),
    ensures
        r@ == join_path(crate::parser::path_view(path@).subrange(start as int, path@.len() as int)),
{
    proof {
        reveal_strlit("::");
    }
    let ghost pv = crate::parser::path_view(path@);
    let n = path.len();
    let mut s = path[start].clone();
    let mut i: usize = start + 1;
    proof {
        assert(n == path@.len());
    }
    proof {
        assert(pv.subrange(start as int, start + 1).len() == 1);
        assert(pv.subrange(start as int, start + 1)[0] == path@[start as int]@);
        assert(s@ == join_path(pv.subrange(start as int, start + 1)));
    }
    while i < n
        invariant
            n == path@.len(),
            start < i <= n,
            pv == crate::parser::path_view(path@),
            pv.len() == path@.len(),
            s@ == join_path(pv.subrange(start as int, i as int)),
        decreases n - i,
    {
        s.append("::");
        s.append(path[i].as_str());
        proof {
            assert(pv.subrange(start as int, i + 1).subrange(0, i - start) =~= pv.subrange(
                start as int,
                i as int,
            ));
            assert(pv.subrange(start as int, i + 1).last() == pv[i as int]);
        }
        i = i + 1;
    }
    s
}

/// The dotted path joined with `::`.
fn join_path_exec(path: &Vec<String>) -> (r: String)
    ensures
        r@ == join_path(crate::parser::path_view(path@)),
{
    proof {
        reveal_strlit("::");
    }
    if path.len() == 0 {
        let r = String::new();
        proof {
            assert(r@ =~= join_path(crate::parser::path_view(path@)));
        }
        return r;
    }
    let r = join_path_from(path, 0);
    proof {
        assert(crate::parser::path_view(path@).subrange(
            0,
            crate::parser::path_view(path@).len() as int,
        ) =~= crate::parser::path_view(path@));
    }
    r
}

} // verus!
