//! `argv` in, one parsed invocation out, and nothing else.
//!
//! Grammar is decided before anything is resolved: a wrong flag is a usage error whatever state
//! the project is in, because the invocation never became well-formed enough to need one.
//! Arguments are raw bytes throughout, because guest argv and environment values travel byte for
//! byte; a token is compared as text only where the grammar names it.
use vstd::prelude::*;
use vstd::utf8::*;
use vstd::string::*;
use crate::verbs::exec_checks;
use crate::text::{bytes_are, lossy, lossy_text, text_of};
use crate::verbs::{
    config, config_spec, destroy, destroy_from, doctor, doctor_from, exec, exec_from, gc, gc_spec,
    generations, generations_spec, manifest, manifest_spec, shell, shell_spec, start, start_spec,
    status, status_from, stop, stop_from, volume, volume_spec,
};

verus! {

/// How much the stderr face says.
#[derive(Clone, Copy, Debug, PartialEq, Eq, Structural)]
pub enum Verbosity {
    Quiet,
    Normal,
    Verbose,
    Debug,
    Trace,
}

/// Why an invocation is not well-formed. Every one of these is a usage error.
#[derive(Clone, Debug)]
pub struct UsageError {
    /// What was wrong.
    pub message: String,
    /// The one-line form of the verb that was attempted, when one was recognized.
    pub usage: Option<&'static str>,
}

/// How much a command was asked to say.
#[derive(Clone, Copy, Debug, PartialEq, Eq, Structural)]
pub enum Output {
    /// The human-facing rendering.
    Human,
    /// The single keyed JSON object.
    Json,
}

impl Output {
    /// Whether `--json` was given.
    pub fn is_json(self) -> (json: bool)
        ensures
            json == (self == Output::Json),
    {
        match self {
            Output::Json => true,
            Output::Human => false,
        }
    }
}

/// Everything one guest session is asked for.
#[derive(Clone, Debug, PartialEq, Eq)]
pub struct Session {
    /// Guest argv, everything after the first `--`; empty for `shell`.
    pub argv: Vec<Vec<u8>>,
    /// Whether the guest allocates a PTY.
    pub pty: bool,
    /// Each `--env` in the order given; `None` is the `KEY` form.
    pub env: Vec<(Vec<u8>, Option<Vec<u8>>)>,
}

/// What the host can tell a command about its own streams.
#[derive(Clone, Copy, Debug, PartialEq, Eq, Structural)]
pub struct Streams {
    pub stdin_is_tty: bool,
    pub stdout_is_tty: bool,
    pub stderr_is_tty: bool,
}

/// One well-formed invocation.
#[derive(Clone, Debug, PartialEq, Eq)]
pub enum Invocation {
    Config { manifest: Option<String>, output: Output },
    ConfigEval { output: Output },
    ConfigSources { output: Output },
    ManifestList { output: Output },
    ManifestShow { name: String, output: Output },
    Start { rebuild: bool, no_rebuild: bool, generation: Option<u64>, attach: bool, output: Output },
    Status { global: bool, output: Output },
    Stop { all: bool, force: bool, timeout: Option<i64>, output: Output },
    Exec(Session),
    Shell(Session),
    /// The private supervisor handoff: one absolute path to a rendered specification.
    StartSpec { spec: Vec<u8> },
    VolumeList { output: Output },
    VolumePrune { dry_run: bool, yes: bool, output: Output },
    Destroy { keep_volumes: bool, yes: bool, output: Output },
    GenerationsList { output: Output },
    GenerationsPrune { keep: Option<u64>, older_than_seconds: Option<u64>, output: Output },
    GenerationsActivate { number: u64, output: Output },
    GenerationsRollback { output: Output },
    Gc { output: Output },
    Doctor { strict: bool, list: bool, online: bool, output: Output },
    /// `--help` before the first `--`, beside the verb it was asked about.
    Help { verb: Option<String> },
    Version,
}

/// One parsed command line: the invocation, plus the verbosity that rides beside any verb.
#[derive(Clone, Debug, PartialEq, Eq)]
pub struct Parsed {
    pub invocation: Invocation,
    pub verbosity: Verbosity,
}

/// A session as plain values.
pub struct SessionView {
    pub argv: Seq<Seq<u8>>,
    pub pty: bool,
    pub env: Seq<(Seq<u8>, Option<Seq<u8>>)>,
}

/// An invocation as plain values.
pub enum InvocationView {
    Config { manifest: Option<Seq<char>>, output: Output },
    ConfigEval { output: Output },
    ConfigSources { output: Output },
    ManifestList { output: Output },
    ManifestShow { name: Seq<char>, output: Output },
    Start { rebuild: bool, no_rebuild: bool, generation: Option<u64>, attach: bool, output: Output },
    Status { global: bool, output: Output },
    Stop { all: bool, force: bool, timeout: Option<i64>, output: Output },
    Exec(SessionView),
    Shell(SessionView),
    StartSpec { spec: Seq<u8> },
    VolumeList { output: Output },
    VolumePrune { dry_run: bool, yes: bool, output: Output },
    Destroy { keep_volumes: bool, yes: bool, output: Output },
    GenerationsList { output: Output },
    GenerationsPrune { keep: Option<u64>, older_than_seconds: Option<u64>, output: Output },
    GenerationsActivate { number: u64, output: Output },
    GenerationsRollback { output: Output },
    Gc { output: Output },
    Doctor { strict: bool, list: bool, online: bool, output: Output },
    Help { verb: Option<Seq<char>> },
    Version,
}

/// A usage error as plain values.
pub struct UsageErrorView {
    pub message: Seq<char>,
    pub usage: Option<Seq<char>>,
}

/// A parsed command line as plain values.
pub struct ParsedView {
    pub invocation: InvocationView,
    pub verbosity: Verbosity,
}

pub open spec fn text_opt(o: Option<String>) -> Option<Seq<char>> {
    match o {
        Some(s) => Some(s@),
        None => None,
    }
}

pub open spec fn bytes_opt(o: Option<Vec<u8>>) -> Option<Seq<u8>> {
    match o {
        Some(b) => Some(b@),
        None => None,
    }
}

/// A sequence of byte strings by value.
pub open spec fn toks(v: Seq<Vec<u8>>) -> Seq<Seq<u8>> {
    v.map_values(|t: Vec<u8>| t@)
}

/// An environment list by value.
pub open spec fn env_view(v: Seq<(Vec<u8>, Option<Vec<u8>>)>) -> Seq<(Seq<u8>, Option<Seq<u8>>)> {
    v.map_values(|p: (Vec<u8>, Option<Vec<u8>>)| (p.0@, bytes_opt(p.1)))
}

impl View for Session {
    type V = SessionView;

    open spec fn view(&self) -> SessionView {
        SessionView { argv: toks(self.argv@), pty: self.pty, env: env_view(self.env@) }
    }
}

impl View for UsageError {
    type V = UsageErrorView;

    open spec fn view(&self) -> UsageErrorView {
        UsageErrorView {
            message: self.message@,
            usage: match self.usage {
                Some(u) => Some(u@),
                None => None,
            },
        }
    }
}

impl View for Invocation {
    type V = InvocationView;

    open spec fn view(&self) -> InvocationView {
        match self {
            Invocation::Config { manifest, output } => InvocationView::Config {
                manifest: text_opt(*manifest),
                output: *output,
            },
            Invocation::ConfigEval { output } => InvocationView::ConfigEval { output: *output },
            Invocation::ConfigSources { output } => InvocationView::ConfigSources {
                output: *output,
            },
            Invocation::ManifestList { output } => InvocationView::ManifestList { output: *output },
            Invocation::ManifestShow { name, output } => InvocationView::ManifestShow {
                name: name@,
                output: *output,
            },
            Invocation::Start { rebuild, no_rebuild, generation, attach, output } =>
                InvocationView::Start {
                rebuild: *rebuild,
                no_rebuild: *no_rebuild,
                generation: *generation,
                attach: *attach,
                output: *output,
            },
            Invocation::Status { global, output } => InvocationView::Status {
                global: *global,
                output: *output,
            },
            Invocation::Stop { all, force, timeout, output } => InvocationView::Stop {
                all: *all,
                force: *force,
                timeout: *timeout,
                output: *output,
            },
            Invocation::Exec(session) => InvocationView::Exec(session@),
            Invocation::Shell(session) => InvocationView::Shell(session@),
            Invocation::StartSpec { spec } => InvocationView::StartSpec { spec: spec@ },
            Invocation::VolumeList { output } => InvocationView::VolumeList { output: *output },
            Invocation::VolumePrune { dry_run, yes, output } => InvocationView::VolumePrune {
                dry_run: *dry_run,
                yes: *yes,
                output: *output,
            },
            Invocation::Destroy { keep_volumes, yes, output } => InvocationView::Destroy {
                keep_volumes: *keep_volumes,
                yes: *yes,
                output: *output,
            },
            Invocation::GenerationsList { output } => InvocationView::GenerationsList {
                output: *output,
            },
            Invocation::GenerationsPrune { keep, older_than_seconds, output } =>
                InvocationView::GenerationsPrune {
                keep: *keep,
                older_than_seconds: *older_than_seconds,
                output: *output,
            },
            Invocation::GenerationsActivate { number, output } =>
                InvocationView::GenerationsActivate { number: *number, output: *output },
            Invocation::GenerationsRollback { output } => InvocationView::GenerationsRollback {
                output: *output,
            },
            Invocation::Gc { output } => InvocationView::Gc { output: *output },
            Invocation::Doctor { strict, list, online, output } => InvocationView::Doctor {
                strict: *strict,
                list: *list,
                online: *online,
                output: *output,
            },
            Invocation::Help { verb } => InvocationView::Help { verb: text_opt(*verb) },
            Invocation::Version => InvocationView::Version,
        }
    }
}

impl View for Parsed {
    type V = ParsedView;

    open spec fn view(&self) -> ParsedView {
        ParsedView { invocation: self.invocation@, verbosity: self.verbosity }
    }
}

/// A verb parser's result by value.
pub open spec fn outcome(r: Result<Invocation, UsageError>) -> Result<InvocationView, UsageErrorView> {
    match r {
        Ok(i) => Ok(i@),
        Err(e) => Err(e@),
    }
}

/// The whole parse's result by value.
pub open spec fn parsed_outcome(r: Result<Parsed, UsageError>) -> Result<ParsedView, UsageErrorView> {
    match r {
        Ok(p) => Ok(p@),
        Err(e) => Err(e@),
    }
}

/// Whether a token is exactly the UTF-8 spelling of `s`.
pub open spec fn spelled(t: Seq<u8>, s: &str) -> bool {
    t == s.spec_bytes()
}

/// A usage error carrying the given usage line.
pub open spec fn fail(message: Seq<char>, usage: &str) -> UsageErrorView {
    UsageErrorView { message, usage: Some(usage@) }
}

/// The error every verb gives a token it does not know.
pub open spec fn unknown_error(t: Seq<u8>, usage: &str) -> UsageErrorView {
    fail("unknown option `"@ + lossy_text(t) + "`"@, usage)
}

pub const TOP_USAGE: &'static str = "viv <config|manifest|start|status|shell|exec|stop|generations|volume|destroy|gc|doctor> [options]";
pub const CONFIG_USAGE: &'static str = "viv config [--manifest <name>] [--json]";
pub const CONFIG_EVAL_USAGE: &'static str = "viv config eval [--json]";
pub const CONFIG_SOURCES_USAGE: &'static str = "viv config sources [--json]";
pub const MANIFEST_USAGE: &'static str = "viv manifest <list|show <name>> [--json]";
pub const START_USAGE: &'static str = "viv start [--rebuild|--no-rebuild] [--generation <n>] [--json]";
pub const STATUS_USAGE: &'static str = "viv status [--json] [-g|--global]";
pub const SHELL_USAGE: &'static str = "viv shell";
pub const EXEC_USAGE: &'static str = "viv exec [-t|--tty] [-T|--no-tty] [--env KEY[=VAL]]... -- <command> [args...]";
pub const STOP_USAGE: &'static str = "viv stop [--all] [--force] [-t|--timeout <secs>] [--json]";
pub const VOLUME_USAGE: &'static str = "viv volume <list|prune> [options]";
pub const VOLUME_LIST_USAGE: &'static str = "viv volume list [--json]";
pub const VOLUME_PRUNE_USAGE: &'static str = "viv volume prune [-n|--dry-run] [-f|--yes] [--json]";
pub const DESTROY_USAGE: &'static str = "viv destroy [-f|--yes] [--keep-volumes] [--json]";
pub const GENERATIONS_USAGE: &'static str = "viv generations <list|activate|rollback|prune> [options]";
pub const GENERATIONS_LIST_USAGE: &'static str = "viv generations list [--json]";
pub const GENERATIONS_ACTIVATE_USAGE: &'static str = "viv generations activate <n> [--json]";
pub const GENERATIONS_ROLLBACK_USAGE: &'static str = "viv generations rollback [--json]";
pub const GENERATIONS_PRUNE_USAGE: &'static str = "viv generations prune (--keep <n> | --older-than <dur>) [--json]";
pub const GC_USAGE: &'static str = "viv gc [--json]";
pub const DOCTOR_USAGE: &'static str = "viv doctor [--json] [--strict] [--list] [--online]";

/// The one-line usage of the whole surface, for the errors that predate a verb.
pub fn top_usage() -> (usage: &'static str)
    ensures
        usage@ == TOP_USAGE@,
{
    TOP_USAGE
}

/// A usage error with the given message and usage line.
pub fn usage_error(message: String, usage: &'static str) -> (e: UsageError)
    ensures
        e@ == fail(message@, usage),
{
    UsageError { message, usage: Some(usage) }
}

/// A usage error whose message is a fixed text.
pub fn usage_error_text(message: &str, usage: &'static str) -> (e: UsageError)
    ensures
        e@ == fail(message@, usage),
{
    UsageError { message: message.to_owned(), usage: Some(usage) }
}

/// The error for a token the verb does not know.
pub fn unknown(token: &Vec<u8>, usage: &'static str) -> (e: UsageError)
    ensures
        e@ == unknown_error(token@, usage),
{
    let mut message = String::new();
    message.append("unknown option `");
    let shown = lossy(token.as_slice());
    message.append(shown.as_str());
    message.append("`");
    usage_error(message, usage)
}

/// Whether the token is exactly `s`.
pub fn token_is(token: &Vec<u8>, s: &str) -> (same: bool)
    ensures
        same == spelled(token@, s),
{
    bytes_are(token.as_slice(), s)
}

/// A byte string copied.
pub fn copy_bytes(v: &Vec<u8>) -> (c: Vec<u8>)
    ensures
        c@ == v@,
{
    let mut c: Vec<u8> = Vec::new();
    let mut i: usize = 0;
    while i < v.len()
        invariant
            i <= v.len(),
            c@ == v@.subrange(0, i as int),
        decreases v.len() - i,
    {
        c.push(v[i]);
        i = i + 1;
        assert(c@ =~= v@.subrange(0, i as int));
    }
    assert(v@.subrange(0, v@.len() as int) =~= v@);
    c
}


/// What the global pre-pass produced: the verb-local tokens, and the globals lifted from them.
pub struct GlobalsView {
    pub tokens: Seq<Seq<u8>>,
    /// Below zero is quiet; each `-v` adds one from zero up, to at most three.
    pub level: int,
    pub help: bool,
    pub version: bool,
    /// The first kept token that is text: the verb `--help` is asked beside.
    pub verb: Option<Seq<u8>>,
}

/// `-v` stacking: from quiet it restarts at the added count; otherwise it adds, up to three.
pub open spec fn bump(level: int, added: int) -> int {
    if level < 0 {
        added
    } else if level + added > 3 {
        3
    } else {
        level + added
    }
}

/// Which flags take a value, per verb: the tokens the lift must never read past.
pub open spec fn takes_value(verb: Option<Seq<u8>>, flag: Seq<u8>) -> bool {
    match verb {
        Some(v) => {
            ||| spelled(v, "config") && spelled(flag, "--manifest")
            ||| spelled(v, "start") && (spelled(flag, "--spec") || spelled(flag, "--generation"))
            ||| spelled(v, "exec") && spelled(flag, "--env")
            ||| spelled(v, "stop") && (spelled(flag, "-t") || spelled(flag, "--timeout"))
            ||| spelled(v, "generations") && (spelled(flag, "--keep") || spelled(flag, "--older-than"))
        },
        None => false,
    }
}

/// The global pre-pass over `a` from index `i` on: verbosity, help and version are lifted out,
/// everything after the first `--` is kept verbatim, and a value-taking flag keeps its value.
pub open spec fn lift_from(a: Seq<Seq<u8>>, i: int, g: GlobalsView) -> GlobalsView
    decreases a.len() - i,
{
    if i < 0 || i >= a.len() {
        g
    } else if spelled(a[i], "--") {
        GlobalsView { tokens: g.tokens + a.subrange(i, a.len() as int), ..g }
    } else if spelled(a[i], "-q") || spelled(a[i], "--quiet") {
        lift_from(a, i + 1, GlobalsView { level: -1, ..g })
    } else if spelled(a[i], "-v") || spelled(a[i], "--verbose") {
        lift_from(a, i + 1, GlobalsView { level: bump(g.level, 1), ..g })
    } else if spelled(a[i], "-vv") {
        lift_from(a, i + 1, GlobalsView { level: bump(g.level, 2), ..g })
    } else if spelled(a[i], "-vvv") {
        lift_from(a, i + 1, GlobalsView { level: bump(g.level, 3), ..g })
    } else if spelled(a[i], "-h") || spelled(a[i], "--help") {
        lift_from(a, i + 1, GlobalsView { help: true, ..g })
    } else if spelled(a[i], "--version") {
        lift_from(a, i + 1, GlobalsView { version: true, ..g })
    } else {
        let verb = if g.verb is None && valid_utf8(a[i]) {
            Some(a[i])
        } else {
            g.verb
        };
        let kept = g.tokens.push(a[i]);
        if takes_value(verb, a[i]) && i + 1 < a.len() {
            lift_from(a, i + 2, GlobalsView { tokens: kept.push(a[i + 1]), verb, ..g })
        } else {
            lift_from(a, i + 1, GlobalsView { tokens: kept, verb, ..g })
        }
    }
}

/// Where the pre-pass starts.
pub open spec fn no_globals() -> GlobalsView {
    GlobalsView { tokens: Seq::empty(), level: 0, help: false, version: false, verb: None }
}

/// The verbosity a level stands for.
pub open spec fn verbosity_of(level: int) -> Verbosity {
    if level < 0 {
        Verbosity::Quiet
    } else if level == 0 {
        Verbosity::Normal
    } else if level == 1 {
        Verbosity::Verbose
    } else if level == 2 {
        Verbosity::Debug
    } else {
        Verbosity::Trace
    }
}

/// The verb-local tokens dispatched on their first.
pub open spec fn dispatch(t: Seq<Seq<u8>>, streams: Streams) -> Result<InvocationView, UsageErrorView> {
    if t.len() == 0 {
        Err(fail("no command given"@, TOP_USAGE))
    } else if spelled(t[0], "config") {
        config_spec(t, 1)
    } else if spelled(t[0], "manifest") {
        manifest_spec(t, 1)
    } else if spelled(t[0], "start") {
        start_spec(t, 1)
    } else if spelled(t[0], "status") {
        status_from(t, 1, false, Output::Human)
    } else if spelled(t[0], "shell") {
        shell_spec(t, 1)
    } else if spelled(t[0], "exec") {
        exec_from(t, 1, false, false, Seq::empty(), streams)
    } else if spelled(t[0], "stop") {
        stop_from(t, 1, false, false, None, Output::Human)
    } else if spelled(t[0], "volume") {
        volume_spec(t, 1, streams)
    } else if spelled(t[0], "generations") {
        generations_spec(t, 1)
    } else if spelled(t[0], "destroy") {
        destroy_from(t, 1, false, false, Output::Human, streams)
    } else if spelled(t[0], "gc") {
        gc_spec(t, 1)
    } else if spelled(t[0], "doctor") {
        doctor_from(t, 1, false, false, false, Output::Human)
    } else {
        Err(fail("unknown command `"@ + lossy_text(t[0]) + "`"@, TOP_USAGE))
    }
}

/// The whole command line, program name first: help wins over everything, version over
/// everything but help, and otherwise the verb decides.
pub open spec fn parse_spec(argv: Seq<Seq<u8>>, streams: Streams) -> Result<ParsedView, UsageErrorView> {
    let g = lift_from(argv, 1, no_globals());
    let verbosity = verbosity_of(g.level);
    if g.help {
        Ok(ParsedView {
            invocation: InvocationView::Help {
                verb: match g.verb {
                    Some(b) => Some(decode_utf8(b)),
                    None => None,
                },
            },
            verbosity,
        })
    } else if g.version {
        Ok(ParsedView { invocation: InvocationView::Version, verbosity })
    } else {
        match dispatch(g.tokens, streams) {
            Ok(invocation) => Ok(ParsedView { invocation, verbosity }),
            Err(e) => Err(e),
        }
    }
}

/// The globals as they stand during the exec pre-pass.
pub open spec fn globals_view(tokens: Seq<Vec<u8>>, level: i8, help: bool, version: bool, verb: Option<Vec<u8>>) -> GlobalsView {
    GlobalsView { tokens: toks(tokens), level: level as int, help, version, verb: bytes_opt(verb) }
}

fn takes_value_exec(verb: &Option<Vec<u8>>, flag: &Vec<u8>) -> (r: bool)
    ensures
        r == takes_value(bytes_opt(*verb), flag@),
{
    match verb {
        Some(v) => {
            (token_is(v, "config") && token_is(flag, "--manifest"))
                || (token_is(v, "start") && (token_is(flag, "--spec") || token_is(flag, "--generation")))
                || (token_is(v, "exec") && token_is(flag, "--env"))
                || (token_is(v, "stop") && (token_is(flag, "-t") || token_is(flag, "--timeout")))
                || (token_is(v, "generations") && (token_is(flag, "--keep") || token_is(flag, "--older-than")))
        },
        None => false,
    }
}

fn bump_exec(level: i8, added: i8) -> (r: i8)
    requires
        -1 <= level <= 3,
        1 <= added <= 3,
    ensures
        r as int == bump(level as int, added as int),
        -1 <= r <= 3,
{
    if level < 0 {
        added
    } else if level + added > 3 {
        3
    } else {
        level + added
    }
}

/// Parses one invocation; `argv` includes the program name.
///
/// The global flags are lifted out first, so their placement is free; the lift stops at the first
/// `--`, and it steps over the value of a value-taking flag so that the value is never read as a
/// flag of its own.
pub fn parse(argv: Vec<Vec<u8>>, streams: Streams) -> (r: Result<Parsed, UsageError>)
    ensures
        parsed_outcome(r) == parse_spec(toks(argv@), streams),
{
    let ghost a = toks(argv@);
    let mut tokens: Vec<Vec<u8>> = Vec::new();
    let mut level: i8 = 0;
    let mut help = false;
    let mut version = false;
    let mut verb: Option<Vec<u8>> = None;
    let mut i: usize = 1;
    assert(toks(tokens@) =~= Seq::<Seq<u8>>::empty());
    while i < argv.len()
        invariant
            1 <= i,
            a == toks(argv@),
            -1 <= level <= 3,
            verb matches Some(b) ==> valid_utf8(b@),
            lift_from(a, 1, no_globals()) == lift_from(a, i as int, globals_view(tokens@, level, help, version, verb)),
        decreases argv.len() - i,
    {
        assert(a[i as int] == argv@[i as int]@);
        let token = &argv[i];
        if token_is(token, "--") {
            let mut j = i;
            let ghost before = toks(tokens@);
            while j < argv.len()
                invariant
                    i <= j <= argv.len(),
                    a == toks(argv@),
                    toks(tokens@) == before + a.subrange(i as int, j as int),
                decreases argv.len() - j,
            {
                let ghost prior = tokens@;
                tokens.push(copy_bytes(&argv[j]));
                assert(toks(tokens@) =~= toks(prior).push(a[j as int]));
                j = j + 1;
                assert(a.subrange(i as int, j as int) =~= a.subrange(i as int, j - 1).push(a[j - 1]));
            }
            i = argv.len();
        } else if token_is(token, "-q") || token_is(token, "--quiet") {
            level = -1;
            i = i + 1;
        } else if token_is(token, "-v") || token_is(token, "--verbose") {
            level = bump_exec(level, 1);
            i = i + 1;
        } else if token_is(token, "-vv") {
            level = bump_exec(level, 2);
            i = i + 1;
        } else if token_is(token, "-vvv") {
            level = bump_exec(level, 3);
            i = i + 1;
        } else if token_is(token, "-h") || token_is(token, "--help") {
            help = true;
            i = i + 1;
        } else if token_is(token, "--version") {
            version = true;
            i = i + 1;
        } else {
            if verb.is_none() {
                if text_of(token.as_slice()).is_some() {
                    verb = Some(copy_bytes(token));
                }
            }
            let value_next = takes_value_exec(&verb, token);
            let ghost prior = tokens@;
            tokens.push(copy_bytes(token));
            assert(toks(tokens@) =~= toks(prior).push(a[i as int]));
            if value_next && i + 1 < argv.len() {
                assert(a[i + 1] == argv@[i + 1]@);
                let ghost prior2 = tokens@;
                tokens.push(copy_bytes(&argv[i + 1]));
                assert(toks(tokens@) =~= toks(prior2).push(a[i + 1]));
                i = i + 2;
            } else {
                i = i + 1;
            }
        }
    }
    let verbosity = if level < 0 {
        Verbosity::Quiet
    } else if level == 0 {
        Verbosity::Normal
    } else if level == 1 {
        Verbosity::Verbose
    } else if level == 2 {
        Verbosity::Debug
    } else {
        Verbosity::Trace
    };
    if help {
        let verb_text = match &verb {
            Some(b) => text_of(b.as_slice()),
            None => None,
        };
        return Ok(Parsed { invocation: Invocation::Help { verb: verb_text }, verbosity });
    }
    if version {
        return Ok(Parsed { invocation: Invocation::Version, verbosity });
    }
    let t = &tokens;
    let ghost tv = toks(tokens@);
    if t.len() == 0 {
        return Err(usage_error_text("no command given", TOP_USAGE));
    }
    assert(tv[0] == t@[0]@);
    let first = &t[0];
    let invocation = if token_is(first, "config") {
        config(t, 1)
    } else if token_is(first, "manifest") {
        manifest(t, 1)
    } else if token_is(first, "start") {
        start(t, 1)
    } else if token_is(first, "status") {
        status(t, 1)
    } else if token_is(first, "shell") {
        shell(t, 1)
    } else if token_is(first, "exec") {
        exec(t, 1, streams)
    } else if token_is(first, "stop") {
        stop(t, 1)
    } else if token_is(first, "volume") {
        volume(t, 1, streams)
    } else if token_is(first, "generations") {
        generations(t, 1)
    } else if token_is(first, "destroy") {
        destroy(t, 1, streams)
    } else if token_is(first, "gc") {
        gc(t, 1)
    } else if token_is(first, "doctor") {
        doctor(t, 1)
    } else {
        let mut message = String::new();
        message.append("unknown command `");
        let shown = lossy(first.as_slice());
        message.append(shown.as_str());
        message.append("`");
        Err(usage_error(message, TOP_USAGE))
    };
    match invocation {
        Ok(invocation) => Ok(Parsed { invocation, verbosity }),
        Err(e) => Err(e),
    }
}


/// Whether a token is one of the global flags the pre-pass lifts out.
pub open spec fn is_global(t: Seq<u8>) -> bool {
    ||| spelled(t, "-q")
    ||| spelled(t, "--quiet")
    ||| spelled(t, "-v")
    ||| spelled(t, "--verbose")
    ||| spelled(t, "-vv")
    ||| spelled(t, "-vvv")
    ||| spelled(t, "-h")
    ||| spelled(t, "--help")
    ||| spelled(t, "--version")
}

/// What one global flag does to the pre-pass state.
pub open spec fn apply_global(t: Seq<u8>, g: GlobalsView) -> GlobalsView {
    if spelled(t, "-q") || spelled(t, "--quiet") {
        GlobalsView { level: -1, ..g }
    } else if spelled(t, "-v") || spelled(t, "--verbose") {
        GlobalsView { level: bump(g.level, 1), ..g }
    } else if spelled(t, "-vv") {
        GlobalsView { level: bump(g.level, 2), ..g }
    } else if spelled(t, "-vvv") {
        GlobalsView { level: bump(g.level, 3), ..g }
    } else if spelled(t, "-h") || spelled(t, "--help") {
        GlobalsView { help: true, ..g }
    } else {
        GlobalsView { version: true, ..g }
    }
}

/// The spellings the grammar's laws compare, as bytes.
proof fn lemma_spellings()
    ensures
        "--".spec_bytes() =~= seq![45u8, 45u8],
        "-q".spec_bytes() =~= seq![45u8, 113u8],
        "-v".spec_bytes() =~= seq![45u8, 118u8],
        "-h".spec_bytes() =~= seq![45u8, 104u8],
        "--quiet".spec_bytes().len() == 7,
        "--verbose".spec_bytes().len() == 9,
        "-vv".spec_bytes().len() == 3,
        "-vvv".spec_bytes() =~= seq![45u8, 118u8, 118u8, 118u8],
        "--help".spec_bytes().len() == 6,
        "--version".spec_bytes().len() == 9,
        "config".spec_bytes().len() == 6,
        "--manifest".spec_bytes().len() == 10,
        "start".spec_bytes().len() == 5,
        "--spec".spec_bytes().len() == 6,
        "--generation".spec_bytes().len() == 12,
        "exec".spec_bytes() =~= seq![101u8, 120u8, 101u8, 99u8],
        "--env".spec_bytes().len() == 5,
        "stop".spec_bytes().len() == 4,
        "-t".spec_bytes().len() == 2,
        "--timeout".spec_bytes().len() == 9,
        "generations".spec_bytes().len() == 11,
        "--keep".spec_bytes().len() == 6,
        "--older-than".spec_bytes().len() == 12,
        "manifest".spec_bytes().len() == 8,
        "status".spec_bytes().len() == 6,
        "shell".spec_bytes().len() == 5,
        valid_utf8("exec".spec_bytes()),
{
    broadcast use is_ascii_spec_bytes;

    reveal_strlit("--");
    reveal_strlit("-q");
    reveal_strlit("-v");
    reveal_strlit("-h");
    reveal_strlit("--quiet");
    reveal_strlit("--verbose");
    reveal_strlit("-vv");
    reveal_strlit("-vvv");
    reveal_strlit("--help");
    reveal_strlit("--version");
    reveal_strlit("config");
    reveal_strlit("--manifest");
    reveal_strlit("start");
    reveal_strlit("--spec");
    reveal_strlit("--generation");
    reveal_strlit("exec");
    reveal_strlit("--env");
    reveal_strlit("stop");
    reveal_strlit("-t");
    reveal_strlit("--timeout");
    reveal_strlit("generations");
    reveal_strlit("--keep");
    reveal_strlit("--older-than");
    reveal_strlit("manifest");
    reveal_strlit("status");
    reveal_strlit("shell");
    assert(is_ascii("--"));
    assert(is_ascii("-q"));
    assert(is_ascii("-v"));
    assert(is_ascii("-h"));
    assert(is_ascii("--quiet"));
    assert(is_ascii("--verbose"));
    assert(is_ascii("-vv"));
    assert(is_ascii("-vvv"));
    assert(is_ascii("--help"));
    assert(is_ascii("--version"));
    assert(is_ascii("config"));
    assert(is_ascii("--manifest"));
    assert(is_ascii("start"));
    assert(is_ascii("--spec"));
    assert(is_ascii("--generation"));
    assert(is_ascii("exec"));
    assert(is_ascii("--env"));
    assert(is_ascii("stop"));
    assert(is_ascii("-t"));
    assert(is_ascii("--timeout"));
    assert(is_ascii("generations"));
    assert(is_ascii("--keep"));
    assert(is_ascii("--older-than"));
    assert(is_ascii("manifest"));
    assert(is_ascii("status"));
    assert(is_ascii("shell"));
    encode_utf8_valid_utf8("exec"@);
}

/// No global flag is the guest boundary.
proof fn lemma_global_is_not_boundary(t: Seq<u8>)
    requires
        is_global(t),
    ensures
        !spelled(t, "--"),
{
    lemma_spellings();
    if spelled(t, "-q") {
        assert(t[1] != "--".spec_bytes()[1]);
    } else if spelled(t, "-v") {
        assert(t[1] != "--".spec_bytes()[1]);
    } else if spelled(t, "-h") {
        assert(t[1] != "--".spec_bytes()[1]);
    }
}

/// A verb is never its own value-taking flag.
proof fn lemma_verb_takes_no_value(x: Seq<u8>)
    ensures
        !takes_value(Some(x), x),
{
    lemma_spellings();
}

/// Reading a global flag is applying it.
proof fn lemma_lift_global(a: Seq<Seq<u8>>, i: int, g: GlobalsView)
    requires
        0 <= i < a.len(),
        is_global(a[i]),
    ensures
        lift_from(a, i, g) == lift_from(a, i + 1, apply_global(a[i], g)),
{
    lemma_global_is_not_boundary(a[i]);
}

/// Two command lines that agree from `i` on lift the same from `i` on.
proof fn lemma_lift_suffix(a1: Seq<Seq<u8>>, a2: Seq<Seq<u8>>, i: int, g: GlobalsView)
    requires
        0 <= i,
        a1.len() == a2.len(),
        forall|j: int| i <= j < a1.len() ==> a1[j] == a2[j],
    ensures
        lift_from(a1, i, g) == lift_from(a2, i, g),
    decreases a1.len() - i,
{
    if i < a1.len() {
        assert(a1.subrange(i, a1.len() as int) =~= a2.subrange(i, a2.len() as int));
        let t = a1[i];
        if spelled(t, "--") {
        } else if spelled(t, "-q") || spelled(t, "--quiet") {
            lemma_lift_suffix(a1, a2, i + 1, GlobalsView { level: -1, ..g });
        } else if spelled(t, "-v") || spelled(t, "--verbose") {
            lemma_lift_suffix(a1, a2, i + 1, GlobalsView { level: bump(g.level, 1), ..g });
        } else if spelled(t, "-vv") {
            lemma_lift_suffix(a1, a2, i + 1, GlobalsView { level: bump(g.level, 2), ..g });
        } else if spelled(t, "-vvv") {
            lemma_lift_suffix(a1, a2, i + 1, GlobalsView { level: bump(g.level, 3), ..g });
        } else if spelled(t, "-h") || spelled(t, "--help") {
            lemma_lift_suffix(a1, a2, i + 1, GlobalsView { help: true, ..g });
        } else if spelled(t, "--version") {
            lemma_lift_suffix(a1, a2, i + 1, GlobalsView { version: true, ..g });
        } else {
            let verb = if g.verb is None && valid_utf8(t) {
                Some(t)
            } else {
                g.verb
            };
            let kept = g.tokens.push(t);
            if takes_value(verb, t) && i + 1 < a1.len() {
                lemma_lift_suffix(a1, a2, i + 2, GlobalsView { tokens: kept.push(a1[i + 1]), verb, ..g });
            } else {
                lemma_lift_suffix(a1, a2, i + 1, GlobalsView { tokens: kept, verb, ..g });
            }
        }
    }
}

/// A global flag reads the same before the verb and after it: `viv -v status` and
/// `viv status -v` are one invocation, for every verb and whatever follows it.
pub proof fn law_global_flags_are_positionless(program: Seq<u8>, flag: Seq<u8>, verb: Seq<u8>, rest: Seq<Seq<u8>>, streams: Streams)
    requires
        is_global(flag),
        !is_global(verb),
        !spelled(verb, "--"),
    ensures
        parse_spec(seq![program, flag, verb] + rest, streams) == parse_spec(seq![program, verb, flag] + rest, streams),
{
    let a1 = seq![program, flag, verb] + rest;
    let a2 = seq![program, verb, flag] + rest;
    let g0 = no_globals();
    assert(a1[1] == flag && a1[2] == verb && a2[1] == verb && a2[2] == flag);
    lemma_verb_takes_no_value(verb);
    let kept_verb = if valid_utf8(verb) {
        Some(verb)
    } else {
        None::<Seq<u8>>
    };
    lemma_lift_global(a1, 1, g0);
    let g1 = apply_global(flag, g0);
    assert(g1.verb is None);
    assert(g1.tokens =~= Seq::<Seq<u8>>::empty());
    let s2 = GlobalsView { tokens: g1.tokens.push(verb), verb: kept_verb, ..g1 };
    assert(lift_from(a1, 2, g1) == lift_from(a1, 3, s2));
    let t1 = GlobalsView { tokens: g0.tokens.push(verb), verb: kept_verb, ..g0 };
    assert(lift_from(a2, 1, g0) == lift_from(a2, 2, t1));
    lemma_lift_global(a2, 2, t1);
    assert(apply_global(flag, t1) == s2);
    lemma_lift_suffix(a1, a2, 3, s2);
}

/// The pre-pass over `viv exec -- <command>`: the verb kept, and the rest kept verbatim.
proof fn lemma_lift_exec(program: Seq<u8>, command: Seq<Seq<u8>>)
    ensures
        lift_from(seq![program, "exec".spec_bytes(), "--".spec_bytes()] + command, 1, no_globals())
            == (GlobalsView {
            tokens: seq!["exec".spec_bytes(), "--".spec_bytes()] + command,
            level: 0,
            help: false,
            version: false,
            verb: Some("exec".spec_bytes()),
        }),
{
    lemma_spellings();
    let x = "exec".spec_bytes();
    let sep = "--".spec_bytes();
    let a = seq![program, x, sep] + command;
    assert(a[1] == x && a[2] == sep);
    assert(x[0] == 101u8);
    assert(!is_global(x));
    lemma_verb_takes_no_value(x);
    let g1 = GlobalsView { tokens: seq![x], verb: Some(x), ..no_globals() };
    assert(lift_from(a, 1, no_globals()) == lift_from(a, 2, g1));
    assert(seq![x] + a.subrange(2, a.len() as int) =~= seq![x, sep] + command);
}

/// `exec -- <command>` dispatched.
proof fn lemma_dispatch_exec(command: Seq<Seq<u8>>, streams: Streams)
    requires
        command.len() > 0,
    ensures
        dispatch(seq!["exec".spec_bytes(), "--".spec_bytes()] + command, streams)
            == Ok::<InvocationView, UsageErrorView>(InvocationView::Exec(SessionView { argv: command, pty: false, env: Seq::empty() })),
{
    lemma_spellings();
    let t = seq!["exec".spec_bytes(), "--".spec_bytes()] + command;
    assert(t[0] == "exec".spec_bytes() && t[1] == "--".spec_bytes());
    assert(t.subrange(2, t.len() as int) =~= command);
    assert(exec_from(t, 1, false, false, Seq::empty(), streams) == exec_checks(t, false, false, Seq::empty(), Some(1), streams));
}

/// Everything after the first `--` of `exec` is the guest's argv, byte for byte: no flag
/// spelling, second separator, or `--help` among it is read by the grammar.
pub proof fn law_guest_argv_is_verbatim(program: Seq<u8>, command: Seq<Seq<u8>>, streams: Streams)
    requires
        command.len() > 0,
    ensures
        parse_spec(seq![program, "exec".spec_bytes(), "--".spec_bytes()] + command, streams)
            == Ok::<ParsedView, UsageErrorView>(ParsedView {
                invocation: InvocationView::Exec(SessionView { argv: command, pty: false, env: Seq::empty() }),
                verbosity: Verbosity::Normal,
            }),
{
    lemma_lift_exec(program, command);
    lemma_dispatch_exec(command, streams);
}

} // verus!
