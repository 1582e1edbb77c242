//! One parser per verb, each a pure function of the tokens after the verb.
use vstd::prelude::*;
use vstd::utf8::*;
use vstd::string::*;
use crate::text::{lossy, lossy_text, text_of};
use crate::numbers::{all_digits, is_digit, digits_u64, digits_value, parse_i64, parse_u64, std_parse_i64, std_parse_u64};
use crate::grammar::{
    GENERATIONS_USAGE, GENERATIONS_LIST_USAGE, GENERATIONS_ACTIVATE_USAGE, GENERATIONS_ROLLBACK_USAGE,
    GENERATIONS_PRUNE_USAGE,
    bytes_opt,
    env_view, VOLUME_USAGE, VOLUME_LIST_USAGE, VOLUME_PRUNE_USAGE,
    MANIFEST_USAGE, START_USAGE, EXEC_USAGE, STOP_USAGE,
    outcome, text_opt,
    copy_bytes, fail, DOCTOR_USAGE, STATUS_USAGE, SHELL_USAGE, GC_USAGE, CONFIG_USAGE, CONFIG_EVAL_USAGE,
    CONFIG_SOURCES_USAGE, DESTROY_USAGE, spelled, toks, token_is, unknown, unknown_error, usage_error, usage_error_text, Invocation,
    InvocationView, Output, Session, SessionView, Streams, UsageError, UsageErrorView,
};

verus! {

/// Whether the bytes begin with `-`.
pub open spec fn starts_dash(b: Seq<u8>) -> bool {
    b.len() > 0 && b[0] == 45
}

/// Whether the bytes name an absolute path: they begin with `/`.
pub open spec fn absolute(b: Seq<u8>) -> bool {
    b.len() > 0 && b[0] == 47
}

/// The value a value-taking flag at `j - 1` reads from `t[j]`.
pub open spec fn value_spec(t: Seq<Seq<u8>>, j: int, flag: &str, usage: &str) -> Result<Seq<char>, UsageErrorView> {
    if j >= t.len() {
        Err(fail("`"@ + flag@ + "` needs a value"@, usage))
    } else if !valid_utf8(t[j]) {
        Err(fail("`"@ + flag@ + "` needs a value that is valid UTF-8"@, usage))
    } else {
        Ok(decode_utf8(t[j]))
    }
}

/// `--json` and nothing else, from `i` on.
pub open spec fn flags_only_from(t: Seq<Seq<u8>>, i: int, output: Output, usage: &str) -> Result<Output, UsageErrorView>
    decreases t.len() - i,
{
    if i < 0 || i >= t.len() {
        Ok(output)
    } else if spelled(t[i], "--json") {
        flags_only_from(t, i + 1, Output::Json, usage)
    } else {
        Err(unknown_error(t[i], usage))
    }
}

/// The literal `s` as bytes, copied out of `t[j]` by value.
pub fn value(t: &Vec<Vec<u8>>, j: usize, flag: &'static str, usage: &'static str) -> (r: Result<String, UsageError>)
    ensures
        match r {
            Ok(s) => value_spec(toks(t@), j as int, flag, usage) == Ok::<Seq<char>, UsageErrorView>(s@),
            Err(e) => value_spec(toks(t@), j as int, flag, usage) == Err::<Seq<char>, UsageErrorView>(e@),
        },
{
    if j >= t.len() {
        let mut message = String::new();
        message.append("`");
        message.append(flag);
        message.append("` needs a value");
        return Err(usage_error(message, usage));
    }
    assert(toks(t@)[j as int] == t@[j as int]@);
    match text_of(t[j].as_slice()) {
        Some(s) => Ok(s),
        None => {
            let mut message = String::new();
            message.append("`");
            message.append(flag);
            message.append("` needs a value that is valid UTF-8");
            Err(usage_error(message, usage))
        },
    }
}

/// Accepts `--json` and nothing else from `start` on.
pub fn flags_only(t: &Vec<Vec<u8>>, start: usize, usage: &'static str) -> (r: Result<Output, UsageError>)
    requires
        start <= t.len(),
    ensures
        match r {
            Ok(o) => flags_only_from(toks(t@), start as int, Output::Human, usage) == Ok::<Output, UsageErrorView>(o),
            Err(e) => flags_only_from(toks(t@), start as int, Output::Human, usage) == Err::<Output, UsageErrorView>(e@),
        },
{
    let ghost tv = toks(t@);
    let mut output = Output::Human;
    let mut i = start;
    while i < t.len()
        invariant
            start <= i <= t.len(),
            tv == toks(t@),
            flags_only_from(tv, start as int, Output::Human, usage) == flags_only_from(tv, i as int, output, usage),
        decreases t.len() - i,
    {
        assert(tv[i as int] == t@[i as int]@);
        if token_is(&t[i], "--json") {
            output = Output::Json;
        } else {
            return Err(unknown(&t[i], usage));
        }
        i = i + 1;
    }
    Ok(output)
}


/// `doctor`'s flags, from `i` on.
pub open spec fn doctor_from(t: Seq<Seq<u8>>, i: int, strict: bool, list: bool, online: bool, output: Output) -> Result<InvocationView, UsageErrorView>
    decreases t.len() - i,
{
    if i < 0 || i >= t.len() {
        Ok(InvocationView::Doctor { strict, list, online, output })
    } else if spelled(t[i], "--strict") {
        doctor_from(t, i + 1, true, list, online, output)
    } else if spelled(t[i], "--list") {
        doctor_from(t, i + 1, strict, true, online, output)
    } else if spelled(t[i], "--online") {
        doctor_from(t, i + 1, strict, list, true, output)
    } else if spelled(t[i], "--json") {
        doctor_from(t, i + 1, strict, list, online, Output::Json)
    } else {
        Err(unknown_error(t[i], DOCTOR_USAGE))
    }
}

pub fn doctor(t: &Vec<Vec<u8>>, start: usize) -> (r: Result<Invocation, UsageError>)
    requires
        start <= t.len(),
    ensures
        outcome(r) == doctor_from(toks(t@), start as int, false, false, false, Output::Human),
{
    let ghost tv = toks(t@);
    let (mut strict, mut list, mut online) = (false, false, false);
    let mut output = Output::Human;
    let mut i = start;
    while i < t.len()
        invariant
            start <= i <= t.len(),
            tv == toks(t@),
            doctor_from(tv, start as int, false, false, false, Output::Human) == doctor_from(tv, i as int, strict, list, online, output),
        decreases t.len() - i,
    {
        assert(tv[i as int] == t@[i as int]@);
        let token = &t[i];
        if token_is(token, "--strict") {
            strict = true;
        } else if token_is(token, "--list") {
            list = true;
        } else if token_is(token, "--online") {
            online = true;
        } else if token_is(token, "--json") {
            output = Output::Json;
        } else {
            return Err(unknown(token, DOCTOR_USAGE));
        }
        i = i + 1;
    }
    Ok(Invocation::Doctor { strict, list, online, output })
}

/// `status`'s flags, from `i` on.
pub open spec fn status_from(t: Seq<Seq<u8>>, i: int, global: bool, output: Output) -> Result<InvocationView, UsageErrorView>
    decreases t.len() - i,
{
    if i < 0 || i >= t.len() {
        Ok(InvocationView::Status { global, output })
    } else if spelled(t[i], "-g") || spelled(t[i], "--global") {
        status_from(t, i + 1, true, output)
    } else if spelled(t[i], "--json") {
        status_from(t, i + 1, global, Output::Json)
    } else {
        Err(unknown_error(t[i], STATUS_USAGE))
    }
}

pub fn status(t: &Vec<Vec<u8>>, start: usize) -> (r: Result<Invocation, UsageError>)
    requires
        start <= t.len(),
    ensures
        outcome(r) == status_from(toks(t@), start as int, false, Output::Human),
{
    let ghost tv = toks(t@);
    let mut global = false;
    let mut output = Output::Human;
    let mut i = start;
    while i < t.len()
        invariant
            start <= i <= t.len(),
            tv == toks(t@),
            status_from(tv, start as int, false, Output::Human) == status_from(tv, i as int, global, output),
        decreases t.len() - i,
    {
        assert(tv[i as int] == t@[i as int]@);
        let token = &t[i];
        if token_is(token, "-g") || token_is(token, "--global") {
            global = true;
        } else if token_is(token, "--json") {
            output = Output::Json;
        } else {
            return Err(unknown(token, STATUS_USAGE));
        }
        i = i + 1;
    }
    Ok(Invocation::Status { global, output })
}

/// `shell` takes nothing.
pub open spec fn shell_spec(t: Seq<Seq<u8>>, start: int) -> Result<InvocationView, UsageErrorView> {
    if 0 <= start < t.len() {
        Err(unknown_error(t[start], SHELL_USAGE))
    } else {
        Ok(InvocationView::Shell(SessionView { argv: Seq::empty(), pty: true, env: Seq::empty() }))
    }
}

pub fn shell(t: &Vec<Vec<u8>>, start: usize) -> (r: Result<Invocation, UsageError>)
    requires
        start <= t.len(),
    ensures
        outcome(r) == shell_spec(toks(t@), start as int),
{
    if start < t.len() {
        assert(toks(t@)[start as int] == t@[start as int]@);
        return Err(unknown(&t[start], SHELL_USAGE));
    }
    let session = Session { argv: Vec::new(), pty: true, env: Vec::new() };
    assert(session@.argv =~= Seq::<Seq<u8>>::empty());
    assert(session@.env =~= Seq::<(Seq<u8>, Option<Seq<u8>>)>::empty());
    Ok(Invocation::Shell(session))
}

/// `gc` takes `--json` alone.
pub open spec fn gc_spec(t: Seq<Seq<u8>>, start: int) -> Result<InvocationView, UsageErrorView> {
    match flags_only_from(t, start, Output::Human, GC_USAGE) {
        Ok(output) => Ok(InvocationView::Gc { output }),
        Err(e) => Err(e),
    }
}

pub fn gc(t: &Vec<Vec<u8>>, start: usize) -> (r: Result<Invocation, UsageError>)
    requires
        start <= t.len(),
    ensures
        outcome(r) == gc_spec(toks(t@), start as int),
{
    match flags_only(t, start, GC_USAGE) {
        Ok(output) => Ok(Invocation::Gc { output }),
        Err(e) => Err(e),
    }
}

/// `destroy`'s flags, from `i` on, and the consent rule at the end.
pub open spec fn destroy_from(t: Seq<Seq<u8>>, i: int, yes: bool, keep_volumes: bool, output: Output, streams: Streams) -> Result<InvocationView, UsageErrorView>
    decreases t.len() - i,
{
    if i < 0 || i >= t.len() {
        if !yes && !streams.stdin_is_tty {
            Err(fail("`viv destroy` needs `--yes` when stdin is not a terminal"@, DESTROY_USAGE))
        } else {
            Ok(InvocationView::Destroy { keep_volumes, yes, output })
        }
    } else if spelled(t[i], "--yes") || spelled(t[i], "-f") {
        destroy_from(t, i + 1, true, keep_volumes, output, streams)
    } else if spelled(t[i], "--keep-volumes") {
        destroy_from(t, i + 1, yes, true, output, streams)
    } else if spelled(t[i], "--json") {
        destroy_from(t, i + 1, yes, keep_volumes, Output::Json, streams)
    } else {
        Err(unknown_error(t[i], DESTROY_USAGE))
    }
}

pub fn destroy(t: &Vec<Vec<u8>>, start: usize, streams: Streams) -> (r: Result<Invocation, UsageError>)
    requires
        start <= t.len(),
    ensures
        outcome(r) == destroy_from(toks(t@), start as int, false, false, Output::Human, streams),
{
    let ghost tv = toks(t@);
    let (mut yes, mut keep_volumes) = (false, false);
    let mut output = Output::Human;
    let mut i = start;
    while i < t.len()
        invariant
            start <= i <= t.len(),
            tv == toks(t@),
            destroy_from(tv, start as int, false, false, Output::Human, streams) == destroy_from(tv, i as int, yes, keep_volumes, output, streams),
        decreases t.len() - i,
    {
        assert(tv[i as int] == t@[i as int]@);
        let token = &t[i];
        if token_is(token, "--yes") || token_is(token, "-f") {
            yes = true;
        } else if token_is(token, "--keep-volumes") {
            keep_volumes = true;
        } else if token_is(token, "--json") {
            output = Output::Json;
        } else {
            return Err(unknown(token, DESTROY_USAGE));
        }
        i = i + 1;
    }
    if !yes && !streams.stdin_is_tty {
        return Err(usage_error_text("`viv destroy` needs `--yes` when stdin is not a terminal", DESTROY_USAGE));
    }
    Ok(Invocation::Destroy { keep_volumes, yes, output })
}

/// `config`'s three forms: `eval`, `sources`, or the binding record with its flags.
pub open spec fn config_spec(t: Seq<Seq<u8>>, start: int) -> Result<InvocationView, UsageErrorView> {
    if 0 <= start < t.len() && spelled(t[start], "eval") {
        match flags_only_from(t, start + 1, Output::Human, CONFIG_EVAL_USAGE) {
            Ok(output) => Ok(InvocationView::ConfigEval { output }),
            Err(e) => Err(e),
        }
    } else if 0 <= start < t.len() && spelled(t[start], "sources") {
        match flags_only_from(t, start + 1, Output::Human, CONFIG_SOURCES_USAGE) {
            Ok(output) => Ok(InvocationView::ConfigSources { output }),
            Err(e) => Err(e),
        }
    } else {
        config_from(t, start, None, Output::Human)
    }
}

/// The binding record's flags, from `i` on.
pub open spec fn config_from(t: Seq<Seq<u8>>, i: int, manifest: Option<Seq<char>>, output: Output) -> Result<InvocationView, UsageErrorView>
    decreases t.len() - i,
{
    if i < 0 || i >= t.len() {
        Ok(InvocationView::Config { manifest, output })
    } else if spelled(t[i], "--manifest") {
        match value_spec(t, i + 1, "--manifest", CONFIG_USAGE) {
            Ok(name) => config_from(t, i + 2, Some(name), output),
            Err(e) => Err(e),
        }
    } else if spelled(t[i], "--json") {
        config_from(t, i + 1, manifest, Output::Json)
    } else {
        Err(unknown_error(t[i], CONFIG_USAGE))
    }
}

pub fn config(t: &Vec<Vec<u8>>, start: usize) -> (r: Result<Invocation, UsageError>)
    requires
        start <= t.len(),
    ensures
        outcome(r) == config_spec(toks(t@), start as int),
{
    let ghost tv = toks(t@);
    if start < t.len() {
        assert(tv[start as int] == t@[start as int]@);
        if token_is(&t[start], "eval") {
            return match flags_only(t, start + 1, CONFIG_EVAL_USAGE) {
                Ok(output) => Ok(Invocation::ConfigEval { output }),
                Err(e) => Err(e),
            };
        }
        if token_is(&t[start], "sources") {
            return match flags_only(t, start + 1, CONFIG_SOURCES_USAGE) {
                Ok(output) => Ok(Invocation::ConfigSources { output }),
                Err(e) => Err(e),
            };
        }
    }
    let mut manifest: Option<String> = None;
    let mut output = Output::Human;
    let mut i = start;
    while i < t.len()
        invariant
            start <= i <= t.len(),
            tv == toks(t@),
            config_spec(tv, start as int) == config_from(tv, i as int, text_opt(manifest), output),
        decreases t.len() - i,
    {
        assert(tv[i as int] == t@[i as int]@);
        let token = &t[i];
        if token_is(token, "--manifest") {
            match value(t, i + 1, "--manifest", CONFIG_USAGE) {
                Ok(name) => {
                    manifest = Some(name);
                },
                Err(e) => {
                    return Err(e);
                },
            }
            i = i + 2;
        } else if token_is(token, "--json") {
            output = Output::Json;
            i = i + 1;
        } else {
            return Err(unknown(token, CONFIG_USAGE));
        }
    }
    Ok(Invocation::Config { manifest, output })
}


/// `manifest list` or `manifest show <name>`.
pub open spec fn manifest_spec(t: Seq<Seq<u8>>, start: int) -> Result<InvocationView, UsageErrorView> {
    if start < 0 || start >= t.len() {
        Err(fail("`viv manifest` needs a subcommand"@, MANIFEST_USAGE))
    } else if spelled(t[start], "list") {
        match flags_only_from(t, start + 1, Output::Human, MANIFEST_USAGE) {
            Ok(output) => Ok(InvocationView::ManifestList { output }),
            Err(e) => Err(e),
        }
    } else if spelled(t[start], "show") {
        show_from(t, start + 1, None, Output::Human)
    } else {
        Err(fail("unknown `viv manifest` subcommand `"@ + lossy_text(t[start]) + "`"@, MANIFEST_USAGE))
    }
}

/// `manifest show`'s tokens, from `i` on: exactly one name, and `--json`.
pub open spec fn show_from(t: Seq<Seq<u8>>, i: int, name: Option<Seq<char>>, output: Output) -> Result<InvocationView, UsageErrorView>
    decreases t.len() - i,
{
    if i < 0 || i >= t.len() {
        match name {
            Some(name) => Ok(InvocationView::ManifestShow { name, output }),
            None => Err(fail("`viv manifest show` needs a manifest name"@, MANIFEST_USAGE)),
        }
    } else if spelled(t[i], "--json") {
        show_from(t, i + 1, name, Output::Json)
    } else if valid_utf8(t[i]) && !starts_dash(t[i]) {
        if name is Some {
            Err(fail("`viv manifest show` takes exactly one manifest name"@, MANIFEST_USAGE))
        } else {
            show_from(t, i + 1, Some(decode_utf8(t[i])), output)
        }
    } else {
        Err(unknown_error(t[i], MANIFEST_USAGE))
    }
}

pub fn manifest(t: &Vec<Vec<u8>>, start: usize) -> (r: Result<Invocation, UsageError>)
    requires
        start <= t.len(),
    ensures
        outcome(r) == manifest_spec(toks(t@), start as int),
{
    let ghost tv = toks(t@);
    if start >= t.len() {
        return Err(usage_error_text("`viv manifest` needs a subcommand", MANIFEST_USAGE));
    }
    assert(tv[start as int] == t@[start as int]@);
    let sub = &t[start];
    if token_is(sub, "list") {
        return match flags_only(t, start + 1, MANIFEST_USAGE) {
            Ok(output) => Ok(Invocation::ManifestList { output }),
            Err(e) => Err(e),
        };
    }
    if !token_is(sub, "show") {
        let mut message = String::new();
        message.append("unknown `viv manifest` subcommand `");
        let shown = lossy(sub.as_slice());
        message.append(shown.as_str());
        message.append("`");
        return Err(usage_error(message, MANIFEST_USAGE));
    }
    let mut name: Option<String> = None;
    let mut output = Output::Human;
    let mut i = start + 1;
    while i < t.len()
        invariant
            start < i <= t.len(),
            tv == toks(t@),
            manifest_spec(tv, start as int) == show_from(tv, i as int, text_opt(name), output),
        decreases t.len() - i,
    {
        assert(tv[i as int] == t@[i as int]@);
        let token = &t[i];
        if token_is(token, "--json") {
            output = Output::Json;
        } else {
            let dash = token.len() > 0 && token[0] == 45;
            match text_of(token.as_slice()) {
                Some(text) if !dash => {
                    if name.is_some() {
                        return Err(usage_error_text("`viv manifest show` takes exactly one manifest name", MANIFEST_USAGE));
                    }
                    name = Some(text);
                },
                _ => {
                    return Err(unknown(token, MANIFEST_USAGE));
                },
            }
        }
        i = i + 1;
    }
    match name {
        Some(name) => Ok(Invocation::ManifestShow { name, output }),
        None => Err(usage_error_text("`viv manifest show` needs a manifest name", MANIFEST_USAGE)),
    }
}

/// `start`: the private `--spec` handoff, or the published flags.
pub open spec fn start_spec(t: Seq<Seq<u8>>, start: int) -> Result<InvocationView, UsageErrorView> {
    if 0 <= start < t.len() && spelled(t[start], "--spec") {
        if start + 1 >= t.len() {
            Err(fail("`start --spec` needs a path"@, START_USAGE))
        } else if t.len() != start + 2 || !absolute(t[start + 1]) {
            Err(fail("`start --spec` takes exactly one absolute path"@, START_USAGE))
        } else {
            Ok(InvocationView::StartSpec { spec: t[start + 1] })
        }
    } else {
        start_from(t, start, false, false, None, false, Output::Human)
    }
}

/// The two contradictions `start` refuses once its flags are read.
pub open spec fn start_checks(rebuild: bool, no_rebuild: bool, generation: Option<u64>, attach: bool, output: Output) -> Result<InvocationView, UsageErrorView> {
    if rebuild && no_rebuild {
        Err(fail("`--rebuild` and `--no-rebuild` contradict each other"@, START_USAGE))
    } else if generation is Some && (rebuild || no_rebuild) {
        Err(fail("`--generation` conflicts with `--rebuild` and `--no-rebuild`"@, START_USAGE))
    } else {
        Ok(InvocationView::Start { rebuild, no_rebuild, generation, attach, output })
    }
}

/// `start`'s flags, from `i` on.
pub open spec fn start_from(t: Seq<Seq<u8>>, i: int, rebuild: bool, no_rebuild: bool, generation: Option<u64>, attach: bool, output: Output) -> Result<InvocationView, UsageErrorView>
    decreases t.len() - i,
{
    if i < 0 || i >= t.len() {
        start_checks(rebuild, no_rebuild, generation, attach, output)
    } else if spelled(t[i], "--rebuild") {
        start_from(t, i + 1, true, no_rebuild, generation, attach, output)
    } else if spelled(t[i], "--no-rebuild") {
        start_from(t, i + 1, rebuild, true, generation, attach, output)
    } else if spelled(t[i], "--generation") {
        match value_spec(t, i + 1, "--generation", START_USAGE) {
            Err(e) => Err(e),
            Ok(raw) => match std_parse_u64(t[i + 1]) {
                None => Err(fail("`--generation` expects a generation number, got `"@ + raw + "`"@, START_USAGE)),
                Some(n) => start_from(t, i + 2, rebuild, no_rebuild, Some(n), attach, output),
            },
        }
    } else if spelled(t[i], "--attach") {
        start_from(t, i + 1, rebuild, no_rebuild, generation, true, output)
    } else if spelled(t[i], "--json") {
        start_from(t, i + 1, rebuild, no_rebuild, generation, attach, Output::Json)
    } else {
        Err(unknown_error(t[i], START_USAGE))
    }
}

/// The start flags as bytes, as far as telling them apart needs.
proof fn lemma_start_flags()
    ensures
        "--attach".spec_bytes().len() == 8,
        "--attach".spec_bytes()[0] == 45u8,
        "--rebuild".spec_bytes().len() == 9,
        "--no-rebuild".spec_bytes().len() == 12,
        "--generation".spec_bytes().len() == 12,
        "--json".spec_bytes().len() == 6,
{
    broadcast use is_ascii_spec_bytes;

    reveal_strlit("--attach");
    reveal_strlit("--rebuild");
    reveal_strlit("--no-rebuild");
    reveal_strlit("--generation");
    reveal_strlit("--json");
    assert(is_ascii("--attach"));
    assert(is_ascii("--rebuild"));
    assert(is_ascii("--no-rebuild"));
    assert(is_ascii("--generation"));
    assert(is_ascii("--json"));
}

/// `--attach` is never dropped: whenever `start`'s flags from `i` on parse, the invocation asks
/// to follow the console exactly when it already did or `--attach` is among those flags.
pub proof fn law_attach_is_kept(t: Seq<Seq<u8>>, i: int, rebuild: bool, no_rebuild: bool, generation: Option<u64>, attach: bool, output: Output)
    requires
        0 <= i,
    ensures
        start_from(t, i, rebuild, no_rebuild, generation, attach, output) matches Ok(InvocationView::Start { attach: a, .. })
            ==> (a <==> (attach || exists|j: int| i <= j < t.len() && #[trigger] spelled(t[j], "--attach"))),
    decreases t.len() - i,
{
    lemma_start_flags();
    let r = start_from(t, i, rebuild, no_rebuild, generation, attach, output);
    if i >= t.len() {
        return;
    }
    if spelled(t[i], "--rebuild") {
        law_attach_is_kept(t, i + 1, true, no_rebuild, generation, attach, output);
    } else if spelled(t[i], "--no-rebuild") {
        law_attach_is_kept(t, i + 1, rebuild, true, generation, attach, output);
    } else if spelled(t[i], "--generation") {
        if i + 1 < t.len() && std_parse_u64(t[i + 1]) is Some {
            law_attach_is_kept(t, i + 2, rebuild, no_rebuild, Some(std_parse_u64(t[i + 1])->0), attach, output);
            if spelled(t[i + 1], "--attach") {
                assert(!is_digit(t[i + 1][0]));
                assert(!all_digits(t[i + 1]));
            }
        }
    } else if spelled(t[i], "--attach") {
        law_attach_is_kept(t, i + 1, rebuild, no_rebuild, generation, true, output);
    } else if spelled(t[i], "--json") {
        law_attach_is_kept(t, i + 1, rebuild, no_rebuild, generation, attach, Output::Json);
    }
    if r matches Ok(InvocationView::Start { attach: a, .. }) {
        if exists|j: int| i <= j < t.len() && #[trigger] spelled(t[j], "--attach") {
            let j = choose|j: int| i <= j < t.len() && #[trigger] spelled(t[j], "--attach");
            if j > i + 1 || (j == i + 1 && !spelled(t[i], "--generation")) {
                assert(spelled(t[j], "--attach"));
            }
        }
    }
}

/// A parsed `viv start` follows the console exactly when `--attach` is among its flags.
pub proof fn law_start_attaches_on_request(t: Seq<Seq<u8>>, first: int)
    requires
        0 <= first,
    ensures
        start_spec(t, first) matches Ok(InvocationView::Start { attach: a, .. })
            ==> (a <==> exists|j: int| first <= j < t.len() && #[trigger] spelled(t[j], "--attach")),
{
    law_attach_is_kept(t, first, false, false, None, false, Output::Human);
}

/// "`<flag>` expects ..., got `<raw>`".
pub fn expects_error(lead: &str, raw: &String, usage: &'static str) -> (e: UsageError)
    ensures
        e@ == fail(lead@ + raw@ + "`"@, usage),
{
    let mut message = String::new();
    message.append(lead);
    message.append(raw.as_str());
    message.append("`");
    usage_error(message, usage)
}

pub fn start(t: &Vec<Vec<u8>>, first: usize) -> (r: Result<Invocation, UsageError>)
    requires
        first <= t.len(),
    ensures
        outcome(r) == start_spec(toks(t@), first as int),
{
    let ghost tv = toks(t@);
    if first < t.len() {
        assert(tv[first as int] == t@[first as int]@);
        if token_is(&t[first], "--spec") {
            if first + 1 >= t.len() {
                return Err(usage_error_text("`start --spec` needs a path", START_USAGE));
            }
            assert(tv[first + 1] == t@[first + 1]@);
            let path = &t[first + 1];
            let rooted = path.len() > 0 && path[0] == 47;
            if t.len() != first + 2 || !rooted {
                return Err(usage_error_text("`start --spec` takes exactly one absolute path", START_USAGE));
            }
            return Ok(Invocation::StartSpec { spec: copy_bytes(path) });
        }
    }
    let (mut rebuild, mut no_rebuild, mut attach) = (false, false, false);
    let mut generation: Option<u64> = None;
    let mut output = Output::Human;
    let mut i = first;
    while i < t.len()
        invariant
            first <= i <= t.len(),
            tv == toks(t@),
            start_spec(tv, first as int) == start_from(tv, i as int, rebuild, no_rebuild, generation, attach, output),
        decreases t.len() - i,
    {
        assert(tv[i as int] == t@[i as int]@);
        let token = &t[i];
        if token_is(token, "--rebuild") {
            rebuild = true;
            i = i + 1;
        } else if token_is(token, "--no-rebuild") {
            no_rebuild = true;
            i = i + 1;
        } else if token_is(token, "--generation") {
            let raw = match value(t, i + 1, "--generation", START_USAGE) {
                Ok(raw) => raw,
                Err(e) => {
                    return Err(e);
                },
            };
            assert(tv[i + 1] == t@[i + 1]@);
            match parse_u64(t[i + 1].as_slice()) {
                Some(n) => {
                    generation = Some(n);
                },
                None => {
                    return Err(expects_error("`--generation` expects a generation number, got `", &raw, START_USAGE));
                },
            }
            i = i + 2;
        } else if token_is(token, "--attach") {
            attach = true;
            i = i + 1;
        } else if token_is(token, "--json") {
            output = Output::Json;
            i = i + 1;
        } else {
            return Err(unknown(token, START_USAGE));
        }
    }
    if rebuild && no_rebuild {
        return Err(usage_error_text("`--rebuild` and `--no-rebuild` contradict each other", START_USAGE));
    }
    if generation.is_some() && (rebuild || no_rebuild) {
        return Err(usage_error_text("`--generation` conflicts with `--rebuild` and `--no-rebuild`", START_USAGE));
    }
    Ok(Invocation::Start { rebuild, no_rebuild, generation, attach, output })
}


/// The first index at or after `i` holding `x`.
pub open spec fn find_byte(b: Seq<u8>, x: u8, i: int) -> Option<int>
    decreases b.len() - i,
{
    if i < 0 || i >= b.len() {
        None
    } else if b[i] == x {
        Some(i)
    } else {
        find_byte(b, x, i + 1)
    }
}

/// One `--env` operand split into `KEY` or `KEY=VAL` at its first `=`.
pub open spec fn env_assignment_spec(b: Seq<u8>) -> Result<(Seq<u8>, Option<Seq<u8>>), UsageErrorView> {
    match find_byte(b, 61, 0) {
        Some(split) => if split == 0 {
            Err(fail("`--env` needs a variable name before `=`"@, EXEC_USAGE))
        } else {
            Ok((b.subrange(0, split), Some(b.subrange(split + 1, b.len() as int))))
        },
        None => if b.len() == 0 {
            Err(fail("`--env` needs a variable name"@, EXEC_USAGE))
        } else {
            Ok((b, None))
        },
    }
}

proof fn lemma_find_byte_bounds(b: Seq<u8>, x: u8, i: int)
    requires
        0 <= i,
    ensures
        find_byte(b, x, i) matches Some(k) ==> i <= k < b.len() && b[k] == x,
    decreases b.len() - i,
{
    if i < b.len() && b[i] != x {
        lemma_find_byte_bounds(b, x, i + 1);
    }
}

/// The bytes from `from` up to `to`, copied.
fn copy_range(v: &Vec<u8>, from: usize, to: usize) -> (c: Vec<u8>)
    requires
        from <= to <= v.len(),
    ensures
        c@ == v@.subrange(from as int, to as int),
{
    let mut c: Vec<u8> = Vec::new();
    let mut i = from;
    while i < to
        invariant
            from <= i <= to <= v.len(),
            c@ == v@.subrange(from as int, i as int),
        decreases to - i,
    {
        c.push(v[i]);
        i = i + 1;
        assert(c@ =~= v@.subrange(from as int, i as int));
    }
    c
}

/// Splits one `--env` operand. Only the split point is decided, so a name that is not text still
/// reaches the guest exactly as the host spelled it.
pub fn env_assignment(token: &Vec<u8>) -> (r: Result<(Vec<u8>, Option<Vec<u8>>), UsageError>)
    ensures
        match r {
            Ok(p) => env_assignment_spec(token@) == Ok::<(Seq<u8>, Option<Seq<u8>>), UsageErrorView>((p.0@, bytes_opt(p.1))),
            Err(e) => env_assignment_spec(token@) == Err::<(Seq<u8>, Option<Seq<u8>>), UsageErrorView>(e@),
        },
{
    let mut i: usize = 0;
    while i < token.len()
        invariant
            i <= token.len(),
            find_byte(token@, 61, 0) == find_byte(token@, 61, i as int),
        decreases token.len() - i,
    {
        if token[i] == 61 {
            if i == 0 {
                return Err(usage_error_text("`--env` needs a variable name before `=`", EXEC_USAGE));
            }
            let name = copy_range(token, 0, i);
            let val = copy_range(token, i + 1, token.len());
            return Ok((name, Some(val)));
        }
        i = i + 1;
    }
    if token.len() == 0 {
        return Err(usage_error_text("`--env` needs a variable name", EXEC_USAGE));
    }
    Ok((copy_bytes(token), None))
}

/// What `exec` concludes once its flags are read, `separator` being the index of the first `--`.
pub open spec fn exec_checks(t: Seq<Seq<u8>>, tty: bool, no_tty: bool, env: Seq<(Seq<u8>, Option<Seq<u8>>)>, separator: Option<int>, streams: Streams) -> Result<InvocationView, UsageErrorView> {
    if tty && no_tty {
        Err(fail("`-t` and `-T` contradict each other"@, EXEC_USAGE))
    } else if tty && !streams.stdin_is_tty {
        Err(fail("`-t` was given but stdin is not a terminal"@, EXEC_USAGE))
    } else {
        match separator {
            None => Err(fail("`viv exec` needs `--` followed by a command"@, EXEC_USAGE)),
            Some(k) => if k + 1 >= t.len() {
                Err(fail("`viv exec --` needs a command to run"@, EXEC_USAGE))
            } else {
                Ok(InvocationView::Exec(SessionView { argv: t.subrange(k + 1, t.len() as int), pty: tty, env }))
            },
        }
    }
}

/// `exec`'s flags, from `i` on, up to the first `--`.
pub open spec fn exec_from(t: Seq<Seq<u8>>, i: int, tty: bool, no_tty: bool, env: Seq<(Seq<u8>, Option<Seq<u8>>)>, streams: Streams) -> Result<InvocationView, UsageErrorView>
    decreases t.len() - i,
{
    if i < 0 || i >= t.len() {
        exec_checks(t, tty, no_tty, env, None, streams)
    } else if spelled(t[i], "--") {
        exec_checks(t, tty, no_tty, env, Some(i), streams)
    } else if spelled(t[i], "-t") || spelled(t[i], "--tty") {
        exec_from(t, i + 1, true, no_tty, env, streams)
    } else if spelled(t[i], "-T") || spelled(t[i], "--no-tty") {
        exec_from(t, i + 1, tty, true, env, streams)
    } else if spelled(t[i], "--env") {
        if i + 1 >= t.len() {
            Err(fail("`--env` needs a value"@, EXEC_USAGE))
        } else {
            match env_assignment_spec(t[i + 1]) {
                Err(e) => Err(e),
                Ok(pair) => exec_from(t, i + 2, tty, no_tty, env.push(pair), streams),
            }
        }
    } else {
        Err(unknown_error(t[i], EXEC_USAGE))
    }
}

/// The tokens from `from` on, copied.
fn copy_tail(t: &Vec<Vec<u8>>, from: usize) -> (c: Vec<Vec<u8>>)
    requires
        from <= t.len(),
    ensures
        toks(c@) == toks(t@).subrange(from as int, t@.len() as int),
{
    let mut c: Vec<Vec<u8>> = Vec::new();
    let mut i = from;
    while i < t.len()
        invariant
            from <= i <= t.len(),
            toks(c@) == toks(t@).subrange(from as int, i as int),
        decreases t.len() - i,
    {
        let b = copy_bytes(&t[i]);
        let ghost before = c@;
        c.push(b);
        assert(toks(c@) =~= toks(before).push(t@[i as int]@));
        i = i + 1;
        assert(toks(c@) =~= toks(t@).subrange(from as int, i as int));
    }
    c
}

pub fn exec(t: &Vec<Vec<u8>>, start: usize, streams: Streams) -> (r: Result<Invocation, UsageError>)
    requires
        start <= t.len(),
    ensures
        outcome(r) == exec_from(toks(t@), start as int, false, false, Seq::empty(), streams),
{
    let ghost tv = toks(t@);
    let (mut tty, mut no_tty) = (false, false);
    let mut env: Vec<(Vec<u8>, Option<Vec<u8>>)> = Vec::new();
    let mut separator: Option<usize> = None;
    let mut i = start;
    assert(env_view(env@) =~= Seq::<(Seq<u8>, Option<Seq<u8>>)>::empty());
    while i < t.len()
        invariant_except_break
            start <= i <= t.len(),
            tv == toks(t@),
            separator is None,
            exec_from(tv, start as int, false, false, Seq::empty(), streams) == exec_from(tv, i as int, tty, no_tty, env_view(env@), streams),
        ensures
            tv == toks(t@),
            exec_from(tv, start as int, false, false, Seq::empty(), streams) == exec_checks(tv, tty, no_tty, env_view(env@), match separator { Some(k) => Some(k as int), None => None }, streams),
            separator matches Some(k) ==> k < t.len(),
        decreases t.len() - i,
    {
        assert(tv[i as int] == t@[i as int]@);
        let token = &t[i];
        if token_is(token, "--") {
            separator = Some(i);
            break;
        }
        if token_is(token, "-t") || token_is(token, "--tty") {
            tty = true;
            i = i + 1;
        } else if token_is(token, "-T") || token_is(token, "--no-tty") {
            no_tty = true;
            i = i + 1;
        } else if token_is(token, "--env") {
            if i + 1 >= t.len() {
                return Err(usage_error_text("`--env` needs a value", EXEC_USAGE));
            }
            assert(tv[i + 1] == t@[i + 1]@);
            match env_assignment(&t[i + 1]) {
                Ok(pair) => {
                    let ghost before = env@;
                    let ghost entry = (pair.0@, bytes_opt(pair.1));
                    env.push(pair);
                    assert(env_view(env@) =~= env_view(before).push(entry));
                },
                Err(e) => {
                    return Err(e);
                },
            }
            i = i + 2;
        } else {
            return Err(unknown(token, EXEC_USAGE));
        }
    }
    if tty && no_tty {
        return Err(usage_error_text("`-t` and `-T` contradict each other", EXEC_USAGE));
    }
    if tty && !streams.stdin_is_tty {
        return Err(usage_error_text("`-t` was given but stdin is not a terminal", EXEC_USAGE));
    }
    let separator = match separator {
        Some(k) => k,
        None => {
            return Err(usage_error_text("`viv exec` needs `--` followed by a command", EXEC_USAGE));
        },
    };
    if separator + 1 >= t.len() {
        return Err(usage_error_text("`viv exec --` needs a command to run", EXEC_USAGE));
    }
    let argv = copy_tail(t, separator + 1);
    Ok(Invocation::Exec(Session { argv, pty: tty, env }))
}

/// `stop`'s flags, from `i` on, and the one contradiction it refuses.
pub open spec fn stop_from(t: Seq<Seq<u8>>, i: int, force: bool, all: bool, timeout: Option<i64>, output: Output) -> Result<InvocationView, UsageErrorView>
    decreases t.len() - i,
{
    if i < 0 || i >= t.len() {
        if force && (timeout matches Some(seconds) && seconds != 0) {
            Err(fail("`--force` conflicts with a nonzero `--timeout`"@, STOP_USAGE))
        } else {
            Ok(InvocationView::Stop { all, force, timeout, output })
        }
    } else if spelled(t[i], "--force") {
        stop_from(t, i + 1, true, all, timeout, output)
    } else if spelled(t[i], "--all") {
        stop_from(t, i + 1, force, true, timeout, output)
    } else if spelled(t[i], "-t") || spelled(t[i], "--timeout") {
        match value_spec(t, i + 1, "--timeout", STOP_USAGE) {
            Err(e) => Err(e),
            Ok(raw) => match std_parse_i64(t[i + 1]) {
                None => Err(fail("`--timeout` expects a whole number of seconds, got `"@ + raw + "`"@, STOP_USAGE)),
                Some(seconds) => if seconds < -1 {
                    Err(fail("`--timeout` accepts seconds from `0` up, or `-1` to wait indefinitely, got `"@ + raw + "`"@, STOP_USAGE))
                } else {
                    stop_from(t, i + 2, force, all, Some(seconds), output)
                },
            },
        }
    } else if spelled(t[i], "--json") {
        stop_from(t, i + 1, force, all, timeout, Output::Json)
    } else {
        Err(unknown_error(t[i], STOP_USAGE))
    }
}

pub fn stop(t: &Vec<Vec<u8>>, start: usize) -> (r: Result<Invocation, UsageError>)
    requires
        start <= t.len(),
    ensures
        outcome(r) == stop_from(toks(t@), start as int, false, false, None, Output::Human),
{
    let ghost tv = toks(t@);
    let (mut force, mut all) = (false, false);
    let mut timeout: Option<i64> = None;
    let mut output = Output::Human;
    let mut i = start;
    while i < t.len()
        invariant
            start <= i <= t.len(),
            tv == toks(t@),
            stop_from(tv, start as int, false, false, None, Output::Human) == stop_from(tv, i as int, force, all, timeout, output),
        decreases t.len() - i,
    {
        assert(tv[i as int] == t@[i as int]@);
        let token = &t[i];
        if token_is(token, "--force") {
            force = true;
            i = i + 1;
        } else if token_is(token, "--all") {
            all = true;
            i = i + 1;
        } else if token_is(token, "-t") || token_is(token, "--timeout") {
            let raw = match value(t, i + 1, "--timeout", STOP_USAGE) {
                Ok(raw) => raw,
                Err(e) => {
                    return Err(e);
                },
            };
            assert(tv[i + 1] == t@[i + 1]@);
            match parse_i64(t[i + 1].as_slice()) {
                Some(seconds) => {
                    if seconds < -1 {
                        return Err(expects_error("`--timeout` accepts seconds from `0` up, or `-1` to wait indefinitely, got `", &raw, STOP_USAGE));
                    }
                    timeout = Some(seconds);
                },
                None => {
                    return Err(expects_error("`--timeout` expects a whole number of seconds, got `", &raw, STOP_USAGE));
                },
            }
            i = i + 2;
        } else if token_is(token, "--json") {
            output = Output::Json;
            i = i + 1;
        } else {
            return Err(unknown(token, STOP_USAGE));
        }
    }
    if force && (match timeout { Some(seconds) => seconds != 0, None => false }) {
        return Err(usage_error_text("`--force` conflicts with a nonzero `--timeout`", STOP_USAGE));
    }
    Ok(Invocation::Stop { all, force, timeout, output })
}

/// `volume list` or `volume prune`.
pub open spec fn volume_spec(t: Seq<Seq<u8>>, start: int, streams: Streams) -> Result<InvocationView, UsageErrorView> {
    if start < 0 || start >= t.len() {
        Err(fail("`viv volume` needs a subcommand"@, VOLUME_USAGE))
    } else if spelled(t[start], "list") {
        match flags_only_from(t, start + 1, Output::Human, VOLUME_LIST_USAGE) {
            Ok(output) => Ok(InvocationView::VolumeList { output }),
            Err(e) => Err(e),
        }
    } else if spelled(t[start], "prune") {
        prune_from(t, start + 1, false, false, Output::Human, streams)
    } else {
        Err(fail("`viv volume "@ + lossy_text(t[start]) + "` is not implemented yet"@, VOLUME_USAGE))
    }
}

/// `volume prune`'s flags, from `i` on, and its consent rule: a preview needs none.
pub open spec fn prune_from(t: Seq<Seq<u8>>, i: int, dry_run: bool, yes: bool, output: Output, streams: Streams) -> Result<InvocationView, UsageErrorView>
    decreases t.len() - i,
{
    if i < 0 || i >= t.len() {
        if !dry_run && !yes && !streams.stdin_is_tty {
            Err(fail("`viv volume prune` needs `--yes` when stdin is not a terminal"@, VOLUME_PRUNE_USAGE))
        } else {
            Ok(InvocationView::VolumePrune { dry_run, yes, output })
        }
    } else if spelled(t[i], "--dry-run") || spelled(t[i], "-n") {
        prune_from(t, i + 1, true, yes, output, streams)
    } else if spelled(t[i], "--yes") || spelled(t[i], "-f") {
        prune_from(t, i + 1, dry_run, true, output, streams)
    } else if spelled(t[i], "--json") {
        prune_from(t, i + 1, dry_run, yes, Output::Json, streams)
    } else {
        Err(unknown_error(t[i], VOLUME_PRUNE_USAGE))
    }
}

pub fn volume(t: &Vec<Vec<u8>>, start: usize, streams: Streams) -> (r: Result<Invocation, UsageError>)
    requires
        start <= t.len(),
    ensures
        outcome(r) == volume_spec(toks(t@), start as int, streams),
{
    let ghost tv = toks(t@);
    if start >= t.len() {
        return Err(usage_error_text("`viv volume` needs a subcommand", VOLUME_USAGE));
    }
    assert(tv[start as int] == t@[start as int]@);
    let sub = &t[start];
    if token_is(sub, "list") {
        return match flags_only(t, start + 1, VOLUME_LIST_USAGE) {
            Ok(output) => Ok(Invocation::VolumeList { output }),
            Err(e) => Err(e),
        };
    }
    if !token_is(sub, "prune") {
        let mut message = String::new();
        message.append("`viv volume ");
        let shown = lossy(sub.as_slice());
        message.append(shown.as_str());
        message.append("` is not implemented yet");
        return Err(usage_error(message, VOLUME_USAGE));
    }
    let (mut dry_run, mut yes) = (false, false);
    let mut output = Output::Human;
    let mut i = start + 1;
    while i < t.len()
        invariant
            start < i <= t.len(),
            tv == toks(t@),
            volume_spec(tv, start as int, streams) == prune_from(tv, i as int, dry_run, yes, output, streams),
        decreases t.len() - i,
    {
        assert(tv[i as int] == t@[i as int]@);
        let token = &t[i];
        if token_is(token, "--dry-run") || token_is(token, "-n") {
            dry_run = true;
        } else if token_is(token, "--yes") || token_is(token, "-f") {
            yes = true;
        } else if token_is(token, "--json") {
            output = Output::Json;
        } else {
            return Err(unknown(token, VOLUME_PRUNE_USAGE));
        }
        i = i + 1;
    }
    if !dry_run && !yes && !streams.stdin_is_tty {
        return Err(usage_error_text("`viv volume prune` needs `--yes` when stdin is not a terminal", VOLUME_PRUNE_USAGE));
    }
    Ok(Invocation::VolumePrune { dry_run, yes, output })
}


/// Whether every byte is ASCII.
pub open spec fn ascii_bytes(b: Seq<u8>) -> bool {
    forall|i: int| 0 <= i < b.len() ==> #[trigger] b[i] < 128
}

/// The seconds one unit suffix of a retention window stands for.
pub open spec fn unit_scale(unit: u8) -> Option<u64> {
    if unit == 100 {
        Some(86_400)
    } else if unit == 104 {
        Some(3_600)
    } else if unit == 109 {
        Some(60)
    } else if unit == 115 {
        Some(1)
    } else {
        None
    }
}

/// `<count><d|h|m|s>` in seconds; the suffix is required, and `raw` is the text shown back.
pub open spec fn duration_spec(b: Seq<u8>, raw: Seq<char>) -> Result<u64, UsageErrorView> {
    let malformed = fail("`--older-than` expects `<number><d|h|m|s>`, got `"@ + raw + "`"@, GENERATIONS_PRUNE_USAGE);
    if !ascii_bytes(b) || b.len() < 2 {
        Err(malformed)
    } else {
        match unit_scale(b.last()) {
            None => Err(malformed),
            Some(scale) => {
                let count = b.drop_last();
                if !all_digits(count) || digits_value(count) * scale > u64::MAX {
                    Err(malformed)
                } else {
                    Ok((digits_value(count) * scale) as u64)
                }
            },
        }
    }
}

/// A retention window in seconds.
pub fn duration_seconds(b: &Vec<u8>, raw: &String) -> (r: Result<u64, UsageError>)
    ensures
        match r {
            Ok(n) => duration_spec(b@, raw@) == Ok::<u64, UsageErrorView>(n),
            Err(e) => duration_spec(b@, raw@) == Err::<u64, UsageErrorView>(e@),
        },
{
    let mut i: usize = 0;
    while i < b.len()
        invariant
            i <= b.len(),
            forall|j: int| 0 <= j < i ==> #[trigger] b@[j] < 128,
        decreases b.len() - i,
    {
        if b[i] >= 128 {
            assert(!ascii_bytes(b@));
            return Err(expects_error("`--older-than` expects `<number><d|h|m|s>`, got `", raw, GENERATIONS_PRUNE_USAGE));
        }
        i = i + 1;
    }
    if b.len() < 2 {
        return Err(expects_error("`--older-than` expects `<number><d|h|m|s>`, got `", raw, GENERATIONS_PRUNE_USAGE));
    }
    let unit = b[b.len() - 1];
    let scale: u64 = if unit == 100 {
        86_400
    } else if unit == 104 {
        3_600
    } else if unit == 109 {
        60
    } else if unit == 115 {
        1
    } else {
        return Err(expects_error("`--older-than` expects `<number><d|h|m|s>`, got `", raw, GENERATIONS_PRUNE_USAGE));
    };
    let count = copy_range(b, 0, b.len() - 1);
    assert(count@ =~= b@.drop_last());
    assert(count@.subrange(0, count@.len() as int) =~= count@);
    match digits_u64(count.as_slice(), 0) {
        None => Err(expects_error("`--older-than` expects `<number><d|h|m|s>`, got `", raw, GENERATIONS_PRUNE_USAGE)),
        Some(n) => match n.checked_mul(scale) {
            None => Err(expects_error("`--older-than` expects `<number><d|h|m|s>`, got `", raw, GENERATIONS_PRUNE_USAGE)),
            Some(seconds) => Ok(seconds),
        },
    }
}

/// The `generations` family.
pub open spec fn generations_spec(t: Seq<Seq<u8>>, start: int) -> Result<InvocationView, UsageErrorView> {
    if start < 0 || start >= t.len() {
        Err(fail("`viv generations` needs a subcommand"@, GENERATIONS_USAGE))
    } else if spelled(t[start], "list") {
        match flags_only_from(t, start + 1, Output::Human, GENERATIONS_LIST_USAGE) {
            Ok(output) => Ok(InvocationView::GenerationsList { output }),
            Err(e) => Err(e),
        }
    } else if spelled(t[start], "activate") {
        activate_from(t, start + 1, None, Output::Human)
    } else if spelled(t[start], "rollback") {
        match flags_only_from(t, start + 1, Output::Human, GENERATIONS_ROLLBACK_USAGE) {
            Ok(output) => Ok(InvocationView::GenerationsRollback { output }),
            Err(e) => Err(e),
        }
    } else if spelled(t[start], "prune") {
        retention_from(t, start + 1, None, None, Output::Human)
    } else {
        Err(fail("`viv generations "@ + lossy_text(t[start]) + "` is not a subcommand"@, GENERATIONS_USAGE))
    }
}

/// `generations activate`'s tokens, from `i` on: one number, and `--json`.
pub open spec fn activate_from(t: Seq<Seq<u8>>, i: int, number: Option<u64>, output: Output) -> Result<InvocationView, UsageErrorView>
    decreases t.len() - i,
{
    if i < 0 || i >= t.len() {
        match number {
            Some(number) => Ok(InvocationView::GenerationsActivate { number, output }),
            None => Err(fail("`activate` needs the generation number to switch to"@, GENERATIONS_ACTIVATE_USAGE)),
        }
    } else if spelled(t[i], "--json") {
        activate_from(t, i + 1, number, Output::Json)
    } else if valid_utf8(t[i]) && number is None && !starts_dash(t[i]) {
        match std_parse_u64(t[i]) {
            None => Err(fail("`activate` expects a generation number, got `"@ + decode_utf8(t[i]) + "`"@, GENERATIONS_ACTIVATE_USAGE)),
            Some(n) => activate_from(t, i + 1, Some(n), output),
        }
    } else {
        Err(unknown_error(t[i], GENERATIONS_ACTIVATE_USAGE))
    }
}

/// `generations prune`'s tokens, from `i` on, and its exactly-one retention rule.
pub open spec fn retention_from(t: Seq<Seq<u8>>, i: int, keep: Option<u64>, older_than_seconds: Option<u64>, output: Output) -> Result<InvocationView, UsageErrorView>
    decreases t.len() - i,
{
    if i < 0 || i >= t.len() {
        if keep is Some && older_than_seconds is Some {
            Err(fail("`--keep` and `--older-than` contradict each other"@, GENERATIONS_PRUNE_USAGE))
        } else if keep is None && older_than_seconds is None {
            Err(fail("`prune` needs `--keep <n>` or `--older-than <dur>`"@, GENERATIONS_PRUNE_USAGE))
        } else {
            Ok(InvocationView::GenerationsPrune { keep, older_than_seconds, output })
        }
    } else if spelled(t[i], "--keep") {
        match value_spec(t, i + 1, "--keep", GENERATIONS_PRUNE_USAGE) {
            Err(e) => Err(e),
            Ok(raw) => match std_parse_u64(t[i + 1]) {
                None => Err(fail("`--keep` expects a whole number, got `"@ + raw + "`"@, GENERATIONS_PRUNE_USAGE)),
                Some(n) => retention_from(t, i + 2, Some(n), older_than_seconds, output),
            },
        }
    } else if spelled(t[i], "--older-than") {
        match value_spec(t, i + 1, "--older-than", GENERATIONS_PRUNE_USAGE) {
            Err(e) => Err(e),
            Ok(raw) => match duration_spec(t[i + 1], raw) {
                Err(e) => Err(e),
                Ok(seconds) => retention_from(t, i + 2, keep, Some(seconds), output),
            },
        }
    } else if spelled(t[i], "--json") {
        retention_from(t, i + 1, keep, older_than_seconds, Output::Json)
    } else {
        Err(unknown_error(t[i], GENERATIONS_PRUNE_USAGE))
    }
}

fn activate(t: &Vec<Vec<u8>>, first: usize) -> (r: Result<Invocation, UsageError>)
    requires
        first <= t.len(),
    ensures
        outcome(r) == activate_from(toks(t@), first as int, None, Output::Human),
{
    let ghost tv = toks(t@);
    let mut number: Option<u64> = None;
    let mut output = Output::Human;
    let mut i = first;
    while i < t.len()
        invariant
            first <= i <= t.len(),
            tv == toks(t@),
            activate_from(tv, first as int, None, Output::Human) == activate_from(tv, i as int, number, output),
        decreases t.len() - i,
    {
        assert(tv[i as int] == t@[i as int]@);
        let token = &t[i];
        if token_is(token, "--json") {
            output = Output::Json;
        } else {
            let dash = token.len() > 0 && token[0] == 45;
            match text_of(token.as_slice()) {
                Some(raw) if number.is_none() && !dash => {
                    match parse_u64(token.as_slice()) {
                        Some(n) => {
                            number = Some(n);
                        },
                        None => {
                            return Err(expects_error("`activate` expects a generation number, got `", &raw, GENERATIONS_ACTIVATE_USAGE));
                        },
                    }
                },
                _ => {
                    return Err(unknown(token, GENERATIONS_ACTIVATE_USAGE));
                },
            }
        }
        i = i + 1;
    }
    match number {
        Some(number) => Ok(Invocation::GenerationsActivate { number, output }),
        None => Err(usage_error_text("`activate` needs the generation number to switch to", GENERATIONS_ACTIVATE_USAGE)),
    }
}

fn retention(t: &Vec<Vec<u8>>, first: usize) -> (r: Result<Invocation, UsageError>)
    requires
        first <= t.len(),
    ensures
        outcome(r) == retention_from(toks(t@), first as int, None, None, Output::Human),
{
    let ghost tv = toks(t@);
    let mut keep: Option<u64> = None;
    let mut older_than_seconds: Option<u64> = None;
    let mut output = Output::Human;
    let mut i = first;
    while i < t.len()
        invariant
            first <= i <= t.len(),
            tv == toks(t@),
            retention_from(tv, first as int, None, None, Output::Human) == retention_from(tv, i as int, keep, older_than_seconds, output),
        decreases t.len() - i,
    {
        assert(tv[i as int] == t@[i as int]@);
        let token = &t[i];
        if token_is(token, "--keep") {
            let raw = match value(t, i + 1, "--keep", GENERATIONS_PRUNE_USAGE) {
                Ok(raw) => raw,
                Err(e) => {
                    return Err(e);
                },
            };
            assert(tv[i + 1] == t@[i + 1]@);
            match parse_u64(t[i + 1].as_slice()) {
                Some(n) => {
                    keep = Some(n);
                },
                None => {
                    return Err(expects_error("`--keep` expects a whole number, got `", &raw, GENERATIONS_PRUNE_USAGE));
                },
            }
            i = i + 2;
        } else if token_is(token, "--older-than") {
            let raw = match value(t, i + 1, "--older-than", GENERATIONS_PRUNE_USAGE) {
                Ok(raw) => raw,
                Err(e) => {
                    return Err(e);
                },
            };
            assert(tv[i + 1] == t@[i + 1]@);
            match duration_seconds(&t[i + 1], &raw) {
                Ok(seconds) => {
                    older_than_seconds = Some(seconds);
                },
                Err(e) => {
                    return Err(e);
                },
            }
            i = i + 2;
        } else if token_is(token, "--json") {
            output = Output::Json;
            i = i + 1;
        } else {
            return Err(unknown(token, GENERATIONS_PRUNE_USAGE));
        }
    }
    if keep.is_some() && older_than_seconds.is_some() {
        return Err(usage_error_text("`--keep` and `--older-than` contradict each other", GENERATIONS_PRUNE_USAGE));
    }
    if keep.is_none() && older_than_seconds.is_none() {
        return Err(usage_error_text("`prune` needs `--keep <n>` or `--older-than <dur>`", GENERATIONS_PRUNE_USAGE));
    }
    Ok(Invocation::GenerationsPrune { keep, older_than_seconds, output })
}

pub fn generations(t: &Vec<Vec<u8>>, start: usize) -> (r: Result<Invocation, UsageError>)
    requires
        start <= t.len(),
    ensures
        outcome(r) == generations_spec(toks(t@), start as int),
{
    let ghost tv = toks(t@);
    if start >= t.len() {
        return Err(usage_error_text("`viv generations` needs a subcommand", GENERATIONS_USAGE));
    }
    assert(tv[start as int] == t@[start as int]@);
    let sub = &t[start];
    if token_is(sub, "list") {
        match flags_only(t, start + 1, GENERATIONS_LIST_USAGE) {
            Ok(output) => Ok(Invocation::GenerationsList { output }),
            Err(e) => Err(e),
        }
    } else if token_is(sub, "activate") {
        activate(t, start + 1)
    } else if token_is(sub, "rollback") {
        match flags_only(t, start + 1, GENERATIONS_ROLLBACK_USAGE) {
            Ok(output) => Ok(Invocation::GenerationsRollback { output }),
            Err(e) => Err(e),
        }
    } else if token_is(sub, "prune") {
        retention(t, start + 1)
    } else {
        let mut message = String::new();
        message.append("`viv generations ");
        let shown = lossy(sub.as_slice());
        message.append(shown.as_str());
        message.append("` is not a subcommand");
        Err(usage_error(message, GENERATIONS_USAGE))
    }
}

} // verus!
