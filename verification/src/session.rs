//! A guest session's environment, deny-by-default, and what an agent refusal costs.
use vstd::prelude::*;
use vstd::string::*;
use vstd::utf8::encode_utf8;
use crate::exit::ExitKind;
use crate::failure::{diagnosed, diagnostic_is, Failure, Locus, Namespace};
use crate::grammar::{bytes_opt, copy_bytes, env_view, spelled, token_is};
use crate::lifecycle::same_text;
use crate::stop::plain_diagnostic;

verus! {

broadcast use vstd::seq_lib::group_seq_properties;

/// The guest's own session defaults.
pub struct GuestSession {
    pub user: String,
    pub home: String,
    pub shell: String,
    pub path: String,
}

/// The host variables that cross by name.
pub open spec fn listed(name: Seq<u8>) -> bool {
    ||| spelled(name, "TERM")
    ||| spelled(name, "COLORTERM")
    ||| spelled(name, "NO_COLOR")
    ||| spelled(name, "FORCE_COLOR")
    ||| spelled(name, "LANG")
}

/// Whether a host variable crosses: one of the listed names, or any name beginning `LC_`.
pub open spec fn allowed(name: Seq<u8>) -> bool {
    ||| ("LC_".spec_bytes().len() <= name.len() && name.subrange(0, "LC_".spec_bytes().len() as int)
        == "LC_".spec_bytes())
    ||| listed(name)
}

/// The guest's defaults, which no host variable could supply.
pub open spec fn defaults_env(d: GuestSession) -> Seq<(Seq<u8>, Seq<u8>)> {
    seq![
        ("PATH".spec_bytes(), encode_utf8(d.path@)),
        ("HOME".spec_bytes(), encode_utf8(d.home@)),
        ("USER".spec_bytes(), encode_utf8(d.user@)),
        ("LOGNAME".spec_bytes(), encode_utf8(d.user@)),
        ("SHELL".spec_bytes(), encode_utf8(d.shell@)),
    ]
}

/// The first value the host gives `name`.
pub open spec fn host_value(host: Seq<(Seq<u8>, Seq<u8>)>, name: Seq<u8>) -> Option<Seq<u8>>
    decreases host.len(),
{
    if host.len() == 0 {
        None
    } else if host[0].0 == name {
        Some(host[0].1)
    } else {
        host_value(host.drop_first(), name)
    }
}

/// What the `--env` requests add, in order: a literal value, or the host's value for a bare
/// name when the host has one.
pub open spec fn requested_env(host: Seq<(Seq<u8>, Seq<u8>)>, requested: Seq<(Seq<u8>, Option<Seq<u8>>)>) -> Seq<(Seq<u8>, Seq<u8>)>
    decreases requested.len(),
{
    if requested.len() == 0 {
        Seq::empty()
    } else {
        let head = requested_env(host, requested.drop_last());
        let (name, value) = requested.last();
        match value {
            Some(v) => head.push((name, v)),
            None => match host_value(host, name) {
                Some(found) => head.push((name, found)),
                None => head,
            },
        }
    }
}

/// The whole guest environment: the defaults, then the allowed host variables, then the
/// requests, so a later assignment wins.
pub open spec fn guest_env_spec(d: GuestSession, host: Seq<(Seq<u8>, Seq<u8>)>, requested: Seq<(Seq<u8>, Option<Seq<u8>>)>) -> Seq<(Seq<u8>, Seq<u8>)> {
    defaults_env(d) + host.filter(|p: (Seq<u8>, Seq<u8>)| allowed(p.0)) + requested_env(host, requested)
}

/// Byte pairs by value.
pub open spec fn byte_pairs(v: Seq<(Vec<u8>, Vec<u8>)>) -> Seq<(Seq<u8>, Seq<u8>)> {
    v.map_values(|p: (Vec<u8>, Vec<u8>)| (p.0@, p.1@))
}

fn variable(name: &str, value: &String) -> (p: (Vec<u8>, Vec<u8>))
    ensures
        p.0@ == name.spec_bytes(),
        p.1@ == encode_utf8(value@),
{
    (name.as_bytes_vec(), value.as_str().as_bytes_vec())
}

fn is_allowed(name: &Vec<u8>) -> (r: bool)
    ensures
        r == allowed(name@),
{
    let prefix = "LC_".as_bytes();
    let mut starts = prefix.len() <= name.len();
    if starts {
        let mut i: usize = 0;
        while i < prefix.len()
            invariant
                i <= prefix.len() <= name.len(),
                prefix@ == "LC_".spec_bytes(),
                starts == (forall|j: int| 0 <= j < i ==> name@[j] == prefix@[j]),
            decreases prefix.len() - i,
        {
            if name[i] != prefix[i] {
                starts = false;
            }
            i = i + 1;
        }
        assert(starts == (name@.subrange(0, prefix@.len() as int) == prefix@)) by {
            if starts {
                assert(name@.subrange(0, prefix@.len() as int) =~= prefix@);
            } else {
                let j = choose|j: int| 0 <= j < prefix@.len() && name@[j] != prefix@[j];
                assert(name@.subrange(0, prefix@.len() as int)[j] != prefix@[j]);
            }
        }
    }
    starts || token_is(name, "TERM") || token_is(name, "COLORTERM") || token_is(name, "NO_COLOR")
        || token_is(name, "FORCE_COLOR") || token_is(name, "LANG")
}

fn find_host(host: &Vec<(Vec<u8>, Vec<u8>)>, name: &Vec<u8>) -> (found: Option<Vec<u8>>)
    ensures
        bytes_opt(found) == host_value(byte_pairs(host@), name@),
{
    let ghost h = byte_pairs(host@);
    let mut i: usize = 0;
    assert(h.subrange(0, h.len() as int) =~= h);
    while i < host.len()
        invariant
            i <= host.len(),
            h == byte_pairs(host@),
            host_value(h, name@) == host_value(h.subrange(i as int, h.len() as int), name@),
        decreases host.len() - i,
    {
        let ghost rest = h.subrange(i as int, h.len() as int);
        assert(rest.drop_first() =~= h.subrange(i + 1, h.len() as int));
        let (candidate, value) = &host[i];
        if candidate.len() == name.len() {
            let mut same = true;
            let mut k: usize = 0;
            while k < name.len()
                invariant
                    k <= name.len(),
                    candidate.len() == name.len(),
                    same == (forall|j: int| 0 <= j < k ==> candidate@[j] == name@[j]),
                decreases name.len() - k,
            {
                if candidate[k] != name[k] {
                    same = false;
                }
                k = k + 1;
            }
            if same {
                assert(candidate@ =~= name@);
                return Some(copy_bytes(value));
            } else {
                proof {
                    let j = choose|j: int| 0 <= j < name@.len() && candidate@[j] != name@[j];
                    assert(candidate@[j] != name@[j]);
                }
                assert(candidate@ != name@);
            }
        }
        i = i + 1;
    }
    None
}

/// The environment a guest session starts with. The guest clears its own and applies exactly
/// this, so a host variable not named here is absent in the guest.
pub fn guest_environment(defaults: &GuestSession, host: &Vec<(Vec<u8>, Vec<u8>)>, requested: &Vec<(Vec<u8>, Option<Vec<u8>>)>) -> (environment: Vec<(Vec<u8>, Vec<u8>)>)
    ensures
        byte_pairs(environment@) == guest_env_spec(*defaults, byte_pairs(host@), env_view(requested@)),
{
    let ghost h = byte_pairs(host@);
    let ghost pred = |p: (Seq<u8>, Seq<u8>)| allowed(p.0);
    let mut environment: Vec<(Vec<u8>, Vec<u8>)> = Vec::new();
    environment.push(variable("PATH", &defaults.path));
    environment.push(variable("HOME", &defaults.home));
    environment.push(variable("USER", &defaults.user));
    environment.push(variable("LOGNAME", &defaults.user));
    environment.push(variable("SHELL", &defaults.shell));
    assert(byte_pairs(environment@) =~= defaults_env(*defaults));
    let ghost base = byte_pairs(environment@);
    let mut i: usize = 0;
    while i < host.len()
        invariant
            i <= host.len(),
            h == byte_pairs(host@),
            pred == (|p: (Seq<u8>, Seq<u8>)| allowed(p.0)),
            byte_pairs(environment@) == base + h.subrange(0, i as int).filter(pred),
        decreases host.len() - i,
    {
        let (name, value) = &host[i];
        assert(h[i as int] == (name@, value@));
        assert(h.subrange(0, i + 1) =~= h.subrange(0, i as int).push(h[i as int]));
        proof {
            h.subrange(0, i as int).lemma_filter_push(h[i as int], pred);
        }
        if is_allowed(name) {
            let ghost before = environment@;
            environment.push((copy_bytes(name), copy_bytes(value)));
            assert(byte_pairs(environment@) =~= byte_pairs(before).push(h[i as int]));
        }
        i = i + 1;
    }
    assert(h.subrange(0, h.len() as int) =~= h);
    let ghost mid = byte_pairs(environment@);
    let ghost r = env_view(requested@);
    let mut k: usize = 0;
    while k < requested.len()
        invariant
            k <= requested.len(),
            h == byte_pairs(host@),
            r == env_view(requested@),
            byte_pairs(environment@) == mid + requested_env(h, r.subrange(0, k as int)),
        decreases requested.len() - k,
    {
        assert(r.subrange(0, k + 1).drop_last() =~= r.subrange(0, k as int));
        let (name, value) = &requested[k];
        assert(r[k as int] == (name@, bytes_opt(*value)));
        match value {
            Some(v) => {
                let ghost before = environment@;
                environment.push((copy_bytes(name), copy_bytes(v)));
                assert(byte_pairs(environment@) =~= byte_pairs(before).push((name@, v@)));
            },
            None => {
                match find_host(host, name) {
                    Some(found) => {
                        let ghost before = environment@;
                        let ghost fv = found@;
                        environment.push((copy_bytes(name), found));
                        assert(byte_pairs(environment@) =~= byte_pairs(before).push((name@, fv)));
                    },
                    None => {},
                }
            },
        }
        k = k + 1;
    }
    assert(r.subrange(0, r.len() as int) =~= r);
    environment
}

/// Every requested entry is named by a request.
proof fn lemma_requested_names(host: Seq<(Seq<u8>, Seq<u8>)>, requested: Seq<(Seq<u8>, Option<Seq<u8>>)>, k: int)
    requires
        0 <= k < requested_env(host, requested).len(),
    ensures
        exists|j: int| 0 <= j < requested.len() && (#[trigger] requested[j]).0 == requested_env(host, requested)[k].0,
    decreases requested.len(),
{
    let head = requested_env(host, requested.drop_last());
    if k < head.len() {
        lemma_requested_names(host, requested.drop_last(), k);
        let j = choose|j: int| 0 <= j < requested.drop_last().len() && (#[trigger] requested.drop_last()[j]).0 == head[k].0;
        assert(requested[j] == requested.drop_last()[j]);
    } else {
        assert(requested[requested.len() - 1] == requested.last());
    }
}

/// Deny by default: every variable a guest session starts with is one of the guest's own
/// defaults, an allowed host variable, or one the invocation named with `--env`.
pub proof fn law_only_named_variables_cross(d: GuestSession, host: Seq<(Seq<u8>, Seq<u8>)>, requested: Seq<(Seq<u8>, Option<Seq<u8>>)>, k: int)
    requires
        0 <= k < guest_env_spec(d, host, requested).len(),
    ensures
        ({
            let name = guest_env_spec(d, host, requested)[k].0;
            ||| spelled(name, "PATH") || spelled(name, "HOME") || spelled(name, "USER") || spelled(name, "LOGNAME") || spelled(name, "SHELL")
            ||| allowed(name)
            ||| exists|j: int| 0 <= j < requested.len() && (#[trigger] requested[j]).0 == name
        }),
{
    let pred = |p: (Seq<u8>, Seq<u8>)| allowed(p.0);
    let defaults = defaults_env(d);
    let allowed_host = host.filter(pred);
    let env = guest_env_spec(d, host, requested);
    if k < defaults.len() {
    } else if k < defaults.len() + allowed_host.len() {
        assert(env[k] == allowed_host[k - defaults.len()]);
        host.lemma_filter_pred(pred, k - defaults.len());
    } else {
        let i = k - defaults.len() - allowed_host.len();
        assert(env[k] == requested_env(host, requested)[i]);
        lemma_requested_names(host, requested, i);
    }
}

/// Whether `f` is the agent refusal for `code`.
pub open spec fn refusal_for(code: Seq<char>, f: Failure) -> bool {
    f matches Failure::Diagnosed { diagnostic: d, code: kind } && d.namespace == Namespace::Guest
        && match d.locus {
        Locus::Named(n) => n@ == "guest agent"@,
        Locus::File(_) => false,
    } && (if code == "spawn"@ {
        kind == ExitKind::Unavailable && d.id@ == "spawn-failed"@
    } else if code == "authorization"@ {
        kind == ExitKind::Unavailable && d.id@ == "unauthorized"@
    } else {
        kind == ExitKind::Software && d.id@ == "protocol-fault"@ && d.why@
            == "the agent reported `"@ + code
            + "`, which is a defect in one of the two ends rather than a condition the invocation can correct"@
    }) && match d.hint {
        Some(h) => h@ == "run `viv status` to see what this project's VM is doing"@,
        None => false,
    }
}

/// What an agent refusal costs: a spawn the guest could not perform and a refused connection
/// are unavailable; any other word is a defect in one of the two ends.
pub fn refused(code: &str) -> (f: Failure)
    ensures
        refusal_for(code@, f),
{
    let failure = if same_text(code, "spawn") {
        diagnosed(
            Namespace::Guest,
            "spawn-failed",
            "the guest could not start the command".to_owned(),
            Locus::Named("guest agent".to_owned()),
            "the guest agent reported that the process could not be spawned: the command may not exist in the guest, may not be executable, or the working directory may be missing".to_owned(),
            ExitKind::Unavailable,
        )
    } else if same_text(code, "authorization") {
        diagnosed(
            Namespace::Guest,
            "unauthorized",
            "the guest agent refused the connection".to_owned(),
            Locus::Named("guest agent".to_owned()),
            "the agent did not accept the boot identity this session presented".to_owned(),
            ExitKind::Unavailable,
        )
    } else {
        let mut why = String::new();
        why.append("the agent reported `");
        why.append(code);
        why.append("`, which is a defect in one of the two ends rather than a condition the invocation can correct");
        diagnosed(
            Namespace::Guest,
            "protocol-fault",
            "the guest agent and vivarium disagreed about the session".to_owned(),
            Locus::Named("guest agent".to_owned()),
            why,
            ExitKind::Software,
        )
    };
    failure.with_hint("run `viv status` to see what this project's VM is doing".to_owned())
}

/// Why a session could not be run to a guest status.
pub enum SessionError {
    /// The control socket did not complete a connection.
    NotListening,
    /// The agent that answered belongs to another boot.
    Identity,
    /// The channel failed; the step it failed at.
    Transport(String),
}

/// How a session that reached the agent ended.
pub enum SessionOutcome {
    /// The guest process exited with this status (`128+S` for a signal).
    Exited(u8),
    /// The agent refused, with its fixed word.
    Refused(String),
    /// The channel ended while waiting for the named message.
    Lost(String),
}

/// What a session error costs, located at the control socket.
pub open spec fn refusal_of(error: SessionError, socket: Seq<char>, f: Failure) -> bool {
    match error {
        SessionError::NotListening => diagnostic_is(f, Namespace::Vm, "control-socket-unavailable"@,
            "the guest is not accepting connections"@, (false, socket),
            "the control socket did not complete a connection, so no session could be opened"@,
            ExitKind::Unavailable, "run `viv status` to see what this project's VM is doing"@),
        SessionError::Identity => diagnostic_is(f, Namespace::Vm, "boot-identity-mismatch"@,
            "the guest that answered belongs to a different boot"@, (false, socket),
            "the agent's identity did not match the boot record for this target, so the socket is stale or the VM was replaced between the check and the session"@,
            ExitKind::Unavailable, "run `viv stop` and start again"@),
        SessionError::Transport(step) => f matches Failure::Diagnosed { diagnostic: d, code }
            && code == ExitKind::IoErr && d.namespace == Namespace::Vm && d.id@ == "control-socket-failed"@
            && d.what@ == "the connection to the guest failed"@ && (match d.locus { Locus::File(p) => p@ == socket, Locus::Named(_) => false })
            && d.why@ == "the control socket failed while trying to "@ + step@ && d.hint is None,
    }
}

/// What a session error costs: a socket that does not answer or answers for another boot is
/// unavailable, a channel that fails is I/O.
pub fn refuse(control_socket: &str, error: SessionError) -> (f: Failure)
    ensures
        refusal_of(error, control_socket@, f),
{
    match error {
        SessionError::NotListening => diagnosed(
            Namespace::Vm,
            "control-socket-unavailable",
            "the guest is not accepting connections".to_owned(),
            Locus::File(control_socket.to_owned()),
            "the control socket did not complete a connection, so no session could be opened".to_owned(),
            ExitKind::Unavailable,
        ).with_hint("run `viv status` to see what this project's VM is doing".to_owned()),
        SessionError::Identity => diagnosed(
            Namespace::Vm,
            "boot-identity-mismatch",
            "the guest that answered belongs to a different boot".to_owned(),
            Locus::File(control_socket.to_owned()),
            "the agent's identity did not match the boot record for this target, so the socket is stale or the VM was replaced between the check and the session".to_owned(),
            ExitKind::Unavailable,
        ).with_hint("run `viv stop` and start again".to_owned()),
        SessionError::Transport(step) => {
            let mut why = String::new();
            why.append("the control socket failed while trying to ");
            why.append(step.as_str());
            diagnosed(
                Namespace::Vm,
                "control-socket-failed",
                "the connection to the guest failed".to_owned(),
                Locus::File(control_socket.to_owned()),
                why,
                ExitKind::IoErr,
            )
        },
    }
}

/// A session's exit: the guest's status verbatim once a guest process existed, an agent refusal
/// classified, a channel lost before the status arrived `74` with no guessed guest code, and a
/// session that never reached the agent as the socket's failure.
pub fn session_exit(control_socket: &str, outcome: Result<SessionOutcome, SessionError>) -> (r: Result<ExitKind, Failure>)
    ensures
        match outcome {
            Ok(SessionOutcome::Exited(status)) => r == Ok::<ExitKind, Failure>(ExitKind::GuestStatus(status)),
            Ok(SessionOutcome::Refused(code)) => r matches Err(f) && refusal_for(code@, f),
            Ok(SessionOutcome::Lost(expected)) => r matches Err(f) && plain_diagnostic(f, Namespace::Vm,
                "session-transport-lost"@, "the connection to the guest ended before the command's status was known"@,
                "control socket"@, "the session ended while waiting for "@ + expected@, ExitKind::IoErr),
            Err(error) => r matches Err(f) && refusal_of(error, control_socket@, f),
        },
{
    match outcome {
        Ok(SessionOutcome::Exited(status)) => Ok(ExitKind::GuestStatus(status)),
        Ok(SessionOutcome::Refused(code)) => Err(refused(code.as_str())),
        Ok(SessionOutcome::Lost(expected)) => {
            let mut why = String::new();
            why.append("the session ended while waiting for ");
            why.append(expected.as_str());
            Err(diagnosed(
                Namespace::Vm,
                "session-transport-lost",
                "the connection to the guest ended before the command's status was known".to_owned(),
                Locus::Named("control socket".to_owned()),
                why,
                ExitKind::IoErr,
            ))
        },
        Err(error) => Err(refuse(control_socket, error)),
    }
}

} // verus!
