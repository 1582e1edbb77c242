//! The launch-tier refusals for host sources a manifest declares: a mount source that cannot be
//! shared, and a credential channel whose host agent socket cannot be relayed. Every one exits
//! `78`, names its own id, and reads against what the user declared.
use vstd::prelude::*;
use crate::agent::CredentialId;
use crate::exit::ExitKind;
use crate::failure::{diagnosed, diagnostic_is, Failure, Locus, Namespace};
use crate::text::{concat3, dec, push_decimal};

verus! {

/// Why a declared mount's source cannot be shared. Paths are as expanded on this host.
pub enum MountSourceDefect {
    /// The source names an environment variable this host does not set.
    UnsetVariable { variable: String },
    NotAbsolute { expanded: String },
    Missing { expanded: String },
    /// Inspecting the source failed; `error` is the host's own report.
    Unreadable { expanded: String, error: String },
    /// A socket, FIFO, or device node.
    NotMountable { expanded: String },
    /// Under `/tmp`, `/var/tmp`, or `$XDG_RUNTIME_DIR`.
    SessionDirectory { expanded: String },
}

/// Why a declared credential channel's host agent socket cannot be relayed.
pub enum AgentSourceDefect {
    /// The variable the channel resolves from names nothing.
    Unset { consulted: String },
    Missing { path: String },
    NotSocket { path: String },
    /// Another user's socket: its owner, and this user.
    NotOwned { path: String, owner: u32, uid: u32 },
}

pub open spec fn mount_source_id_text(defect: MountSourceDefect) -> Seq<char> {
    match defect {
        MountSourceDefect::UnsetVariable { .. } => "mount-source-unset-variable"@,
        MountSourceDefect::NotAbsolute { .. } => "mount-source-not-absolute"@,
        MountSourceDefect::Missing { .. } => "mount-source-missing"@,
        MountSourceDefect::Unreadable { .. } => "mount-source-unreadable"@,
        MountSourceDefect::NotMountable { .. } => "mount-source-not-mountable"@,
        MountSourceDefect::SessionDirectory { .. } => "mount-source-session-directory"@,
    }
}

/// The diagnostic id of a mount-source defect.
pub fn mount_source_id(defect: &MountSourceDefect) -> (id: &'static str)
    ensures
        id@ == mount_source_id_text(*defect),
{
    match defect {
        MountSourceDefect::UnsetVariable { .. } => "mount-source-unset-variable",
        MountSourceDefect::NotAbsolute { .. } => "mount-source-not-absolute",
        MountSourceDefect::Missing { .. } => "mount-source-missing",
        MountSourceDefect::Unreadable { .. } => "mount-source-unreadable",
        MountSourceDefect::NotMountable { .. } => "mount-source-not-mountable",
        MountSourceDefect::SessionDirectory { .. } => "mount-source-session-directory",
    }
}

pub open spec fn mount_hint() -> Seq<char> {
    "`viv config sources` names the layer that declares this mount"@
}

pub open spec fn mount_noun() -> Seq<char> {
    "a declared mount's source"@
}

/// The refusal of a mount source, read against `declared`, the source as the user spelled it.
pub open spec fn mount_refusal(f: Failure, declared: Seq<char>, defect: MountSourceDefect) -> bool {
    let id = mount_source_id_text(defect);
    match defect {
        MountSourceDefect::UnsetVariable { variable } => diagnostic_is(f, Namespace::Host, id,
            mount_noun() + " names `${"@ + variable@ + "}`, which this host does not set"@, (true, "declared mounts"@),
            "`"@ + declared + "` cannot resolve while `"@ + variable@ + "` is unset (ADR-0020)"@, ExitKind::Config,
            "set `"@ + variable@ + "` or declare the source another way; "@ + mount_hint()),
        MountSourceDefect::NotAbsolute { expanded } => diagnostic_is(f, Namespace::Host, id,
            mount_noun() + " does not expand to an absolute path"@, (false, expanded@),
            "`"@ + declared + "` expanded to `"@ + expanded@ + "`"@, ExitKind::Config, mount_hint()),
        MountSourceDefect::Missing { expanded } => diagnostic_is(f, Namespace::Host, id,
            mount_noun() + " does not exist on this host"@, (false, expanded@),
            "`"@ + declared + "` expanded to `"@ + expanded@ + "`, which is missing (ADR-0020)"@, ExitKind::Config,
            "create the path or remove the declaration; "@ + mount_hint()),
        MountSourceDefect::Unreadable { expanded, error } => diagnostic_is(f, Namespace::Host, id,
            mount_noun() + " cannot be inspected"@, (false, expanded@), error@, ExitKind::Config, mount_hint()),
        MountSourceDefect::NotMountable { expanded } => diagnostic_is(f, Namespace::Host, id,
            mount_noun() + " is not a regular file or directory"@, (false, expanded@),
            "`"@ + declared + "` names a socket, FIFO, or device node; a share conveys an inode, not a kernel object (ADR-0071)"@,
            ExitKind::Config, "sockets cross through the credential channels of spec/07, never through a mount"@),
        MountSourceDefect::SessionDirectory { expanded } => diagnostic_is(f, Namespace::Host, id,
            mount_noun() + " resolves to a host session directory"@, (false, expanded@),
            "`"@ + declared
                + "` lands in `/tmp`, `/var/tmp`, or `${XDG_RUNTIME_DIR}`, which hold live session state no share may carry (N24)"@,
            ExitKind::Config, mount_hint()),
    }
}

/// Five texts end to end.
fn five(a: &str, b: &str, c: &str, d: &str, e: &str) -> (text: String)
    ensures
        text@ == a@ + b@ + c@ + d@ + e@,
{
    let mut text = String::new();
    text.append(a);
    text.append(b);
    text.append(c);
    text.append(d);
    text.append(e);
    text
}

/// One diagnostic per broken mount-source invariant, every one `78` and every one naming the
/// declared spelling.
pub fn source_failure(declared: &str, defect: MountSourceDefect) -> (f: Failure)
    ensures
        mount_refusal(f, declared@, defect),
{
    let ghost d = defect;
    let id = mount_source_id(&defect);
    let noun = "a declared mount's source";
    let hint = "`viv config sources` names the layer that declares this mount";
    match defect {
        MountSourceDefect::UnsetVariable { variable } => {
            let what = five(noun, " names `${", variable.as_str(), "}`, which this host does not set", "");
            let why = five("`", declared, "` cannot resolve while `", variable.as_str(), "` is unset (ADR-0020)");
            let remedy = five("set `", variable.as_str(), "` or declare the source another way; ", hint, "");
            proof {
                reveal_strlit("");
                assert(what@ =~= mount_noun() + " names `${"@ + variable@ + "}`, which this host does not set"@);
                assert(remedy@ =~= "set `"@ + variable@ + "` or declare the source another way; "@ + mount_hint());
            }
            diagnosed(Namespace::Host, id, what, Locus::Named("declared mounts".to_owned()), why, ExitKind::Config).with_hint(remedy)
        },
        MountSourceDefect::NotAbsolute { expanded } => {
            let what = concat3(noun, " does not expand to an absolute path", "");
            let why = five("`", declared, "` expanded to `", expanded.as_str(), "`");
            proof {
                reveal_strlit("");
                assert(what@ =~= mount_noun() + " does not expand to an absolute path"@);
            }
            diagnosed(Namespace::Host, id, what, Locus::File(expanded), why, ExitKind::Config).with_hint(hint.to_owned())
        },
        MountSourceDefect::Missing { expanded } => {
            let what = concat3(noun, " does not exist on this host", "");
            let why = five("`", declared, "` expanded to `", expanded.as_str(), "`, which is missing (ADR-0020)");
            let remedy = concat3("create the path or remove the declaration; ", hint, "");
            proof {
                reveal_strlit("");
                assert(what@ =~= mount_noun() + " does not exist on this host"@);
                assert(remedy@ =~= "create the path or remove the declaration; "@ + mount_hint());
            }
            diagnosed(Namespace::Host, id, what, Locus::File(expanded), why, ExitKind::Config).with_hint(remedy)
        },
        MountSourceDefect::Unreadable { expanded, error } => {
            let what = concat3(noun, " cannot be inspected", "");
            proof {
                reveal_strlit("");
                assert(what@ =~= mount_noun() + " cannot be inspected"@);
            }
            diagnosed(Namespace::Host, id, what, Locus::File(expanded), error, ExitKind::Config).with_hint(hint.to_owned())
        },
        MountSourceDefect::NotMountable { expanded } => {
            let what = concat3(noun, " is not a regular file or directory", "");
            let why = concat3("`", declared, "` names a socket, FIFO, or device node; a share conveys an inode, not a kernel object (ADR-0071)");
            proof {
                reveal_strlit("");
                assert(what@ =~= mount_noun() + " is not a regular file or directory"@);
            }
            diagnosed(Namespace::Host, id, what, Locus::File(expanded), why, ExitKind::Config).with_hint(
                "sockets cross through the credential channels of spec/07, never through a mount".to_owned(),
            )
        },
        MountSourceDefect::SessionDirectory { expanded } => {
            let what = concat3(noun, " resolves to a host session directory", "");
            let why = concat3("`", declared, "` lands in `/tmp`, `/var/tmp`, or `${XDG_RUNTIME_DIR}`, which hold live session state no share may carry (N24)");
            proof {
                reveal_strlit("");
                assert(what@ =~= mount_noun() + " resolves to a host session directory"@);
            }
            diagnosed(Namespace::Host, id, what, Locus::File(expanded), why, ExitKind::Config).with_hint(hint.to_owned())
        },
    }
}

pub open spec fn agent_source_id_text(defect: AgentSourceDefect) -> Seq<char> {
    match defect {
        AgentSourceDefect::Unset { .. } => "agent-source-unset"@,
        AgentSourceDefect::Missing { .. } => "agent-source-missing"@,
        AgentSourceDefect::NotSocket { .. } => "agent-source-not-socket"@,
        AgentSourceDefect::NotOwned { .. } => "agent-source-not-owned"@,
    }
}

/// The diagnostic id of a credential-source defect.
pub fn agent_source_id(defect: &AgentSourceDefect) -> (id: &'static str)
    ensures
        id@ == agent_source_id_text(*defect),
{
    match defect {
        AgentSourceDefect::Unset { .. } => "agent-source-unset",
        AgentSourceDefect::Missing { .. } => "agent-source-missing",
        AgentSourceDefect::NotSocket { .. } => "agent-source-not-socket",
        AgentSourceDefect::NotOwned { .. } => "agent-source-not-owned",
    }
}

pub open spec fn credential_text(id: CredentialId) -> Seq<char> {
    match id {
        CredentialId::Ssh => "ssh"@,
        CredentialId::Gpg => "gpg"@,
    }
}

/// The spelling of a credential channel.
pub fn credential_name(id: CredentialId) -> (name: &'static str)
    ensures
        name@ == credential_text(id),
{
    match id {
        CredentialId::Ssh => "ssh",
        CredentialId::Gpg => "gpg",
    }
}

pub open spec fn channel_hint() -> Seq<char> {
    "`viv config sources` names the layer that declares this channel"@
}

pub open spec fn channel_noun(id: CredentialId) -> Seq<char> {
    "the declared `"@ + credential_text(id) + "` credential channel"@
}

/// The refusal of a credential channel's host source.
pub open spec fn agent_refusal(f: Failure, id: CredentialId, defect: AgentSourceDefect) -> bool {
    let did = agent_source_id_text(defect);
    match defect {
        AgentSourceDefect::Unset { consulted } => diagnostic_is(f, Namespace::Host, did,
            channel_noun(id) + " has no host agent socket to resolve"@, (true, "credential channels"@),
            "`"@ + consulted@ + "` names nothing on this host, and `"@ + credential_text(id)
                + "` resolves from it and nothing else (spec/07)"@, ExitKind::Config,
            "start the agent, or remove the declaration; "@ + channel_hint()),
        AgentSourceDefect::Missing { path } => diagnostic_is(f, Namespace::Host, did,
            channel_noun(id) + " resolves to a path that does not exist"@, (false, path@),
            "the agent this socket belonged to is no longer running there (spec/07)"@, ExitKind::Config,
            "restart the agent, or remove the declaration; "@ + channel_hint()),
        AgentSourceDefect::NotSocket { path } => diagnostic_is(f, Namespace::Host, did,
            channel_noun(id) + " does not resolve to a socket"@, (false, path@),
            "a credential leg names the exact socket object, never a file or a symlink to one (spec/07)"@,
            ExitKind::Config, channel_hint()),
        AgentSourceDefect::NotOwned { path, owner, uid } => diagnostic_is(f, Namespace::Host, did,
            channel_noun(id) + " resolves to another user's socket"@, (false, path@),
            "the socket is owned by uid "@ + dec(owner as nat) + ", not this user ("@ + dec(uid as nat)
                + "); forwarding it would relay someone else's agent"@, ExitKind::Config, channel_hint()),
    }
}

/// One diagnostic per broken credential-source invariant, every one `78`.
pub fn agent_source_failure(id: CredentialId, defect: AgentSourceDefect) -> (f: Failure)
    ensures
        agent_refusal(f, id, defect),
{
    let did = agent_source_id(&defect);
    let name = credential_name(id);
    let hint = "`viv config sources` names the layer that declares this channel";
    match defect {
        AgentSourceDefect::Unset { consulted } => {
            let what = five("the declared `", name, "` credential channel", " has no host agent socket to resolve", "");
            let why = five("`", consulted.as_str(), "` names nothing on this host, and `", name, "` resolves from it and nothing else (spec/07)");
            let remedy = concat3("start the agent, or remove the declaration; ", hint, "");
            proof {
                reveal_strlit("");
                assert(what@ =~= channel_noun(id) + " has no host agent socket to resolve"@);
                assert(remedy@ =~= "start the agent, or remove the declaration; "@ + channel_hint());
            }
            diagnosed(Namespace::Host, did, what, Locus::Named("credential channels".to_owned()), why, ExitKind::Config).with_hint(remedy)
        },
        AgentSourceDefect::Missing { path } => {
            let what = five("the declared `", name, "` credential channel", " resolves to a path that does not exist", "");
            let remedy = concat3("restart the agent, or remove the declaration; ", hint, "");
            proof {
                reveal_strlit("");
                assert(what@ =~= channel_noun(id) + " resolves to a path that does not exist"@);
                assert(remedy@ =~= "restart the agent, or remove the declaration; "@ + channel_hint());
            }
            diagnosed(
                Namespace::Host,
                did,
                what,
                Locus::File(path),
                "the agent this socket belonged to is no longer running there (spec/07)".to_owned(),
                ExitKind::Config,
            ).with_hint(remedy)
        },
        AgentSourceDefect::NotSocket { path } => {
            let what = five("the declared `", name, "` credential channel", " does not resolve to a socket", "");
            proof {
                reveal_strlit("");
                assert(what@ =~= channel_noun(id) + " does not resolve to a socket"@);
            }
            diagnosed(
                Namespace::Host,
                did,
                what,
                Locus::File(path),
                "a credential leg names the exact socket object, never a file or a symlink to one (spec/07)".to_owned(),
                ExitKind::Config,
            ).with_hint(hint.to_owned())
        },
        AgentSourceDefect::NotOwned { path, owner, uid } => {
            let what = five("the declared `", name, "` credential channel", " resolves to another user's socket", "");
            let mut why = String::new();
            why.append("the socket is owned by uid ");
            push_decimal(&mut why, owner as u64);
            why.append(", not this user (");
            push_decimal(&mut why, uid as u64);
            why.append("); forwarding it would relay someone else's agent");
            proof {
                reveal_strlit("");
                assert(what@ =~= channel_noun(id) + " resolves to another user's socket"@);
            }
            diagnosed(Namespace::Host, did, what, Locus::File(path), why, ExitKind::Config).with_hint(hint.to_owned())
        },
    }
}

} // verus!
