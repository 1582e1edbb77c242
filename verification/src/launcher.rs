//! The launcher's command line: the runtime and volume directories, the supervisor, the caller's
//! ids, the resource ceilings, the sandbox and target, every declared mount, and every relayed
//! agent socket; and what its exit means.
use vstd::prelude::*;
use crate::agent::CredentialId;
use crate::exit::ExitKind;
use crate::failure::{diagnosed, Failure, Locus, Namespace};
use crate::lifecycle::Resources;
use crate::paths::{join, join_path};
use crate::text::{dec, decimal, texts, trim, trim_spec};
use crate::update::text_listed;

verus! {

/// How a declared mount is shared.
#[derive(Clone, Copy, Debug, PartialEq, Eq, Structural)]
pub enum MountPlanKind {
    Dir,
    Tree,
    File,
}

/// One declared mount, resolved against this host.
#[derive(Clone, Debug)]
pub struct MountPlan {
    pub tag: String,
    pub kind: MountPlanKind,
    /// The host path shared.
    pub source: String,
    /// For a file mount, the entry inside the share; none otherwise.
    pub entry: Option<String>,
}

/// The kind word the launcher's `--mount` group takes: a directory the manifest owns as a
/// workspace is a `tree`; any other directory, and a declared tree, is a `dir`; a file a `file`.
pub open spec fn mount_kind_word(kind: MountPlanKind, source: Seq<char>, workspaces: Seq<Seq<char>>) -> Seq<char> {
    match kind {
        MountPlanKind::Dir => if workspaces.contains(source) {
            "tree"@
        } else {
            "dir"@
        },
        MountPlanKind::Tree => "dir"@,
        MountPlanKind::File => "file"@,
    }
}

/// A mount's entry, `-` when it has none.
pub open spec fn entry_word(entry: Option<String>) -> Seq<char> {
    match entry {
        Some(e) => e@,
        None => "-"@,
    }
}

/// One `--mount TAG KIND SOURCE ENTRY` group.
pub open spec fn mount_group(m: MountPlan, workspaces: Seq<Seq<char>>) -> Seq<Seq<char>> {
    seq!["--mount"@, m.tag@, mount_kind_word(m.kind, m.source@, workspaces), m.source@, entry_word(m.entry)]
}

/// Every mount's group, in declaration order.
pub open spec fn mount_groups(mounts: Seq<MountPlan>, workspaces: Seq<Seq<char>>) -> Seq<Seq<char>>
    decreases mounts.len(),
{
    if mounts.len() == 0 {
        Seq::empty()
    } else {
        mount_groups(mounts.drop_last(), workspaces) + mount_group(mounts.last(), workspaces)
    }
}

/// The flag that hands the launcher one relayed agent's host socket.
pub open spec fn socket_flag(id: CredentialId) -> Seq<char> {
    match id {
        CredentialId::Ssh => "--ssh-agent-socket"@,
        CredentialId::Gpg => "--gpg-agent-socket"@,
    }
}

/// Every relayed socket's flag and path, in declaration order.
pub open spec fn socket_groups(sockets: Seq<(CredentialId, String)>) -> Seq<Seq<char>>
    decreases sockets.len(),
{
    if sockets.len() == 0 {
        Seq::empty()
    } else {
        socket_groups(sockets.drop_last()) + seq![socket_flag(sockets.last().0), sockets.last().1@]
    }
}

/// The launcher's whole argument list.
pub open spec fn launcher_arguments_spec(runtime_dir: Seq<char>, volume_dir: Seq<char>, supervisor: Seq<char>, uid: u32, gid: u32, resources: Resources, sandbox_id: Seq<char>, mounts: Seq<MountPlan>, workspaces: Seq<Seq<char>>, sockets: Seq<(CredentialId, String)>) -> Seq<Seq<char>> {
    seq!["--runtime-dir"@, runtime_dir, "--volume-dir"@, volume_dir, "--supervisor"@, supervisor,
        "--uid"@, dec(uid as nat), "--gid"@, dec(gid as nat), "--memory-mib"@, dec(resources.mem_mib as nat),
        "--vcpu"@, dec(resources.vcpu as nat), "--sandbox-id"@, sandbox_id, "--target"@, "default"@]
        + mount_groups(mounts, workspaces) + socket_groups(sockets)
}

/// The kind word for one mount.
fn kind_word(m: &MountPlan, workspace_paths: &Vec<String>) -> (w: &'static str)
    ensures
        w@ == mount_kind_word(m.kind, m.source@, texts(workspace_paths@)),
{
    proof {
        reveal_strlit("tree");
        reveal_strlit("dir");
        reveal_strlit("file");
    }
    match m.kind {
        MountPlanKind::Dir => if text_listed(workspace_paths, &m.source) {
            "tree"
        } else {
            "dir"
        },
        MountPlanKind::Tree => "dir",
        MountPlanKind::File => "file",
    }
}

/// The flag for one relayed socket.
fn socket_flag_text(id: CredentialId) -> (f: &'static str)
    ensures
        f@ == socket_flag(id),
{
    match id {
        CredentialId::Ssh => "--ssh-agent-socket",
        CredentialId::Gpg => "--gpg-agent-socket",
    }
}

/// Builds the launcher's argument list.
pub fn launcher_arguments(runtime_dir: &str, volume_dir: &str, supervisor: &str, uid: u32, gid: u32, resources: Resources, sandbox_id: &str, mounts: &Vec<MountPlan>, workspace_paths: &Vec<String>, sockets: &Vec<(CredentialId, String)>) -> (args: Vec<String>)
    ensures
        texts(args@) == launcher_arguments_spec(runtime_dir@, volume_dir@, supervisor@, uid, gid, resources,
            sandbox_id@, mounts@, texts(workspace_paths@), sockets@),
{
    let ghost ws = texts(workspace_paths@);
    let mut args: Vec<String> = Vec::new();
    args.push("--runtime-dir".to_owned());
    args.push(runtime_dir.to_owned());
    args.push("--volume-dir".to_owned());
    args.push(volume_dir.to_owned());
    args.push("--supervisor".to_owned());
    args.push(supervisor.to_owned());
    args.push("--uid".to_owned());
    args.push(decimal(uid as u64));
    args.push("--gid".to_owned());
    args.push(decimal(gid as u64));
    args.push("--memory-mib".to_owned());
    args.push(decimal(resources.mem_mib));
    args.push("--vcpu".to_owned());
    args.push(decimal(resources.vcpu));
    args.push("--sandbox-id".to_owned());
    args.push(sandbox_id.to_owned());
    args.push("--target".to_owned());
    args.push("default".to_owned());
    let ghost head = texts(args@);
    assert(head =~= launcher_arguments_spec(runtime_dir@, volume_dir@, supervisor@, uid, gid, resources,
        sandbox_id@, Seq::empty(), ws, Seq::empty()));
    let mut i: usize = 0;
    while i < mounts.len()
        invariant
            i <= mounts.len(),
            ws == texts(workspace_paths@),
            texts(args@) == head + mount_groups(mounts@.subrange(0, i as int), ws),
        decreases mounts.len() - i,
    {
        let m = &mounts[i];
        assert(mounts@.subrange(0, i + 1).drop_last() =~= mounts@.subrange(0, i as int));
        let word = kind_word(m, workspace_paths);
        let ghost before = texts(args@);
        args.push("--mount".to_owned());
        args.push(m.tag.clone());
        args.push(word.to_owned());
        args.push(m.source.clone());
        match &m.entry {
            Some(e) => args.push(e.clone()),
            None => args.push("-".to_owned()),
        }
        assert(texts(args@) =~= before + mount_group(mounts@[i as int], ws));
        assert(mounts@.subrange(0, i + 1).last() == mounts@[i as int]);
        assert(texts(args@) =~= head + mount_groups(mounts@.subrange(0, i + 1), ws));
        i = i + 1;
    }
    assert(mounts@.subrange(0, mounts@.len() as int) =~= mounts@);
    let ghost middle = texts(args@);
    let mut j: usize = 0;
    while j < sockets.len()
        invariant
            j <= sockets.len(),
            texts(args@) == middle + socket_groups(sockets@.subrange(0, j as int)),
        decreases sockets.len() - j,
    {
        let (id, path) = &sockets[j];
        assert(sockets@.subrange(0, j + 1).drop_last() =~= sockets@.subrange(0, j as int));
        let ghost before = texts(args@);
        args.push(socket_flag_text(*id).to_owned());
        args.push(path.clone());
        assert(texts(args@) =~= before + seq![socket_flag(sockets@[j as int].0), sockets@[j as int].1@]);
        assert(sockets@.subrange(0, j + 1).last() == sockets@[j as int]);
        assert(texts(args@) =~= middle + socket_groups(sockets@.subrange(0, j + 1)));
        j = j + 1;
    }
    assert(sockets@.subrange(0, sockets@.len() as int) =~= sockets@);
    assert(texts(args@) =~= launcher_arguments_spec(runtime_dir@, volume_dir@, supervisor@, uid, gid, resources,
        sandbox_id@, mounts@, ws, sockets@));
    args
}

/// The launcher inside a built closure.
pub fn launcher_program(store_path: &str) -> (p: String)
    ensures
        p@ == join(join(store_path@, "bin"@), "vivarium-base-image"@),
{
    let bin = join_path(store_path, "bin");
    join_path(bin.as_str(), "vivarium-base-image")
}

/// Whether `f` is the diagnosed failure with these parts, located at file `file`, with no hint.
pub open spec fn filed_diagnostic(f: Failure, namespace: Namespace, id: Seq<char>, what: Seq<char>, file: Seq<char>, why: Seq<char>, code: ExitKind) -> bool {
    match f {
        Failure::Diagnosed { diagnostic: d, code: c } => {
            &&& c == code
            &&& d.namespace == namespace
            &&& d.id@ == id
            &&& d.what@ == what
            &&& (match d.locus {
                Locus::File(p) => p@ == file,
                Locus::Named(_) => false,
            })
            &&& d.why@ == why
            &&& d.hint is None
        },
        Failure::Usage(_) => false,
    }
}

/// What a volume directory that could not be created costs.
pub fn volume_directory_failure(volumes: &str, error: String) -> (f: Failure)
    ensures
        filed_diagnostic(f, Namespace::State, "volume-directory"@, "could not create the volume directory"@,
            volumes@, error@, ExitKind::IoErr),
{
    diagnosed(
        Namespace::State,
        "volume-directory",
        "could not create the volume directory".to_owned(),
        Locus::File(volumes.to_owned()),
        error,
        ExitKind::IoErr,
    )
}

/// What a launcher that could not be run costs.
pub fn launcher_unavailable(program: &str, error: String) -> (f: Failure)
    ensures
        filed_diagnostic(f, Namespace::Vm, "launcher-unavailable"@, "could not run the guest launcher"@,
            program@, error@, ExitKind::Software),
{
    diagnosed(
        Namespace::Vm,
        "launcher-unavailable",
        "could not run the guest launcher".to_owned(),
        Locus::File(program.to_owned()),
        error,
        ExitKind::Software,
    )
}

/// What the launcher's exit means: success, or a specification it could not render, with its
/// own report, trimmed, as the reason.
pub fn launch_outcome(succeeded: bool, stderr: &str, program: &str) -> (r: Result<(), Failure>)
    ensures
        succeeded ==> r is Ok,
        !succeeded ==> (r matches Err(f) && filed_diagnostic(f, Namespace::Vm, "spec-render-failed"@,
            "the launch specification could not be rendered"@, program@, trim_spec(stderr@), ExitKind::Software)),
{
    if succeeded {
        return Ok(());
    }
    Err(diagnosed(
        Namespace::Vm,
        "spec-render-failed",
        "the launch specification could not be rendered".to_owned(),
        Locus::File(program.to_owned()),
        trim(stderr).to_owned(),
        ExitKind::Software,
    ))
}

} // verus!
