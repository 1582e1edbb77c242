//! `viv start`'s pipeline, and the routine a session shares with it, as decisions: resolve,
//! preflight, admit, lock, read the state, pick the build source, leave a running VM alone or
//! replace it, and launch; or reuse the VM that is there. The caller performs each action and
//! hands back what it found; nothing here touches the host.
use vstd::prelude::*;
use crate::admission::{retained_boot, retained_boot_spec, RetainedLink};
use crate::reuse::{is_skew, launched_boot, BootMetadata, BootRecord, ReuseAction};
use crate::exit::ExitKind;
use crate::failure::{diagnosed, diagnostic_is, failure_code, Failure, Locus, Namespace};
use crate::resolution::is_unbound;
use crate::lifecycle::{
    already_running_note, already_running_text, effective_resources, effective_spec, DeclaredResources, Resources,
    is_socket_refusal, runtime_directory, unit_name, Runtime, StartOutcome,
};
use crate::paths::join;
use vstd::utf8::encode_utf8;

verus! {

/// What the command line asked of the start.
#[derive(Clone, Copy, Debug)]
pub struct StartFlags {
    /// `--rebuild`: replace a running VM with the fresh build.
    pub rebuild: bool,
    /// `--no-rebuild`: boot the last build without evaluating.
    pub no_rebuild: bool,
    /// `--generation <n>`: boot a retained generation.
    pub generation: Option<u64>,
}

/// Where the pipeline is. `declared` is the ceiling table the launch will read: the manifest's
/// own until an evaluation supplies the merged one.
pub enum StartPhase {
    Resolving,
    Preflighting { sandbox: String, declared: Option<DeclaredResources> },
    /// Admission, against the runtime root preflight found.
    Admitting { sandbox: String, declared: Option<DeclaredResources>, runtime_root: String },
    /// Taking the target lock of the located runtime, which every later phase carries.
    Locking { sandbox: String, declared: Option<DeclaredResources>, runtime: Runtime },
    Discriminating { sandbox: String, declared: Option<DeclaredResources>, runtime: Runtime },
    /// Waiting for the build to boot, knowing whether the VM runs.
    Sourcing { sandbox: String, declared: Option<DeclaredResources>, running: bool, runtime: Runtime },
    /// A running VM and a fresh build: which build is it running?
    Freshness { sandbox: String, store_path: String },
    /// Stopping the running VM the rebuild replaces.
    Replacing { store_path: String, declared: Option<DeclaredResources>, runtime: Runtime },
    /// Reading the host figures an undeclared ceiling resolves from.
    Measuring { store_path: String, declared: Option<DeclaredResources>, runtime: Runtime },
    Launching { resources: Resources },
    Done,
}

/// What the last action found.
pub enum StartEvent {
    /// The bound manifest: the sandbox it keys, and the ceilings its own table declares.
    Resolved { sandbox: String, declared: Option<DeclaredResources> },
    /// Preflight passed, and found the runtime root.
    Preflighted { runtime_root: String },
    /// The action succeeded: admission, the lock, the replacing stop, or the launch.
    Passed,
    /// Whether the VM is running.
    Discriminated { running: bool },
    /// What the requested generation's link names.
    Generation(RetainedLink),
    /// The last build, when one is recorded and still in the store.
    LastBuild(Option<String>),
    /// The evaluation's build, and the merged ceilings when the evaluation produced them.
    Built { store_path: String, merged: Option<DeclaredResources> },
    /// The build the running VM was launched from, when recorded.
    RunningBuild(Option<String>),
    /// The host's physical memory and parallelism, each when readable.
    Host { total_bytes: Option<u64>, parallelism: Option<u64> },
    /// The action failed.
    Failed(Failure),
}

/// What to do next.
pub enum StartAction {
    Resolve,
    Preflight,
    /// Admit the sandbox against the host, before anything is created.
    Admit { sandbox: String, runtime_root: String },
    /// Take the target lock of this runtime: the sandbox's `default` target under the root.
    Lock { runtime: Runtime },
    Discriminate,
    ReadGeneration { number: u64 },
    ReadLastBuild,
    EvaluateAndBuild,
    ReadRunningBuild,
    /// Stop the running VM, propagating a failure.
    Stop,
    ReadHost,
    /// Fire the boot observer with this runtime, then launch this build with these ceilings
    /// into it.
    Launch { store_path: String, resources: Resources, runtime: Runtime },
    Finish(Result<StartOutcome, Failure>),
}

/// Whether `event` answers the action `phase` is waiting on.
pub open spec fn start_expects(flags: StartFlags, phase: StartPhase, event: StartEvent) -> bool {
    match (phase, event) {
        (StartPhase::Done, _) => false,
        (_, StartEvent::Failed(_)) => true,
        (StartPhase::Resolving, StartEvent::Resolved { .. }) => true,
        (StartPhase::Preflighting { .. }, StartEvent::Preflighted { .. }) => true,
        (StartPhase::Admitting { .. }, StartEvent::Passed) => true,
        (StartPhase::Locking { .. }, StartEvent::Passed) => true,
        (StartPhase::Discriminating { .. }, StartEvent::Discriminated { .. }) => true,
        (StartPhase::Sourcing { .. }, StartEvent::Generation(_)) => flags.generation is Some,
        (StartPhase::Sourcing { .. }, StartEvent::LastBuild(_)) => flags.generation is None && flags.no_rebuild,
        (StartPhase::Sourcing { .. }, StartEvent::Built { .. }) => flags.generation is None && !flags.no_rebuild,
        (StartPhase::Freshness { .. }, StartEvent::RunningBuild(_)) => true,
        (StartPhase::Replacing { .. }, StartEvent::Passed) => true,
        (StartPhase::Measuring { .. }, StartEvent::Host { .. }) => true,
        (StartPhase::Launching { .. }, StartEvent::Passed) => true,
        _ => false,
    }
}

/// The refusal of `--no-rebuild` with nothing built.
pub open spec fn no_build_failure(f: Failure) -> bool {
    diagnostic_is(f, Namespace::State, "no-build"@, "this project has no build to boot"@, (true, "build history"@),
        "`--no-rebuild` skips evaluation, and no previous build output is recorded or still in the store"@,
        ExitKind::DataErr, "run `viv start` without `--no-rebuild` to evaluate and build first"@)
}

/// Whether `action` finishes with the failure `f`.
pub open spec fn fails_with(action: StartAction, f: Failure) -> bool {
    action == StartAction::Finish(Err(f))
}

/// A start that leaves a running VM alone, with this note.
pub open spec fn leaves_running(action: StartAction, notes: Seq<char>) -> bool {
    match action {
        StartAction::Finish(Ok(StartOutcome::AlreadyRunning { notes: n })) => n@ == notes,
        _ => false,
    }
}

/// Once the build is in hand: a running VM the start does not replace is checked for freshness,
/// a rebuild stops whatever runs first, and otherwise the host is read for the launch.
pub open spec fn after_source(flags: StartFlags, sandbox: String, running: bool, store_path: String, declared: Option<DeclaredResources>, runtime: Runtime, next: StartPhase, action: StartAction) -> bool {
    if running && !flags.rebuild {
        action == StartAction::ReadRunningBuild && next == (StartPhase::Freshness { sandbox, store_path })
    } else if flags.rebuild {
        action == StartAction::Stop && next == (StartPhase::Replacing { store_path, declared, runtime })
    } else {
        action == StartAction::ReadHost && next == (StartPhase::Measuring { store_path, declared, runtime })
    }
}

/// The runtime a start for `sandbox` locks and launches into: the `default` target under
/// `runtime_root`, with the unit that owns it.
pub open spec fn located_at(runtime: Runtime, runtime_root: Seq<char>, sandbox: Seq<char>) -> bool {
    runtime.directory@ == runtime_directory(runtime_root, sandbox, "default"@)
        && runtime.unit@ == unit_name(sandbox, "default"@)
}

/// The control socket of the `default` target under `runtime_root`.
pub open spec fn default_control(runtime_root: Seq<char>, sandbox: Seq<char>) -> Seq<char> {
    join(runtime_directory(runtime_root, sandbox, "default"@), "control.sock"@)
}

/// One step of the pipeline: resolve, preflight, admit, lock, discriminate, source and launch, in
/// that order; every failure ending it, a `--generation` start refused while the VM runs, a
/// `--no-rebuild` start of a running VM a no-op, and a running VM left alone by a plain start,
/// with a note saying whether it is stale.
pub open spec fn start_next(flags: StartFlags, phase: StartPhase, event: StartEvent, next: StartPhase, action: StartAction) -> bool {
    match (phase, event) {
        (_, StartEvent::Failed(f)) => fails_with(action, f) && next == StartPhase::Done,
        (StartPhase::Resolving, StartEvent::Resolved { sandbox, declared }) =>
            action == StartAction::Preflight && next == (StartPhase::Preflighting { sandbox, declared }),
        (StartPhase::Preflighting { sandbox, declared }, StartEvent::Preflighted { runtime_root }) =>
            action == (StartAction::Admit { sandbox, runtime_root }) && next == (StartPhase::Admitting { sandbox, declared, runtime_root }),
        (StartPhase::Admitting { sandbox, declared, runtime_root }, StartEvent::Passed) => {
            let control = default_control(runtime_root@, sandbox@);
            if encode_utf8(control).len() >= 108 {
                next == StartPhase::Done && match action {
                    StartAction::Finish(Err(f)) => is_socket_refusal(f, control),
                    _ => false,
                }
            } else {
                match action {
                    StartAction::Lock { runtime } => located_at(runtime, runtime_root@, sandbox@)
                        && next == (StartPhase::Locking { sandbox, declared, runtime }),
                    _ => false,
                }
            }
        },
        (StartPhase::Locking { sandbox, declared, runtime }, StartEvent::Passed) =>
            action == StartAction::Discriminate && next == (StartPhase::Discriminating { sandbox, declared, runtime }),
        (StartPhase::Discriminating { sandbox, declared, runtime }, StartEvent::Discriminated { running }) =>
            match flags.generation {
                Some(number) => if running {
                    next == StartPhase::Done && match action {
                        StartAction::Finish(Err(f)) => retained_boot_spec(number, true, RetainedLink::Missing, Err(f)),
                        _ => false,
                    }
                } else {
                    action == (StartAction::ReadGeneration { number })
                        && next == (StartPhase::Sourcing { sandbox, declared, running, runtime })
                },
                None => if flags.no_rebuild {
                    if running {
                        leaves_running(action, already_running_text(sandbox@, None, Seq::empty())) && next == StartPhase::Done
                    } else {
                        action == StartAction::ReadLastBuild && next == (StartPhase::Sourcing { sandbox, declared, running, runtime })
                    }
                } else {
                    action == StartAction::EvaluateAndBuild && next == (StartPhase::Sourcing { sandbox, declared, running, runtime })
                },
            },
        (StartPhase::Sourcing { sandbox, declared, running, runtime }, StartEvent::Generation(link)) => match flags.generation {
            Some(number) => match link {
                RetainedLink::Target { path, exists: true } => after_source(flags, sandbox, running, path, declared, runtime, next, action),
                _ => next == StartPhase::Done && match action {
                    StartAction::Finish(Err(f)) => retained_boot_spec(number, false, link, Err(f)),
                    _ => false,
                },
            },
            None => false,
        },
        (StartPhase::Sourcing { sandbox, declared, running, runtime }, StartEvent::LastBuild(last)) => match last {
            None => next == StartPhase::Done && match action {
                StartAction::Finish(Err(f)) => no_build_failure(f),
                _ => false,
            },
            Some(p) => after_source(flags, sandbox, running, p, declared, runtime, next, action),
        },
        (StartPhase::Sourcing { sandbox, declared, running, runtime }, StartEvent::Built { store_path, merged }) =>
            after_source(flags, sandbox, running, store_path, if merged is Some { merged } else { declared }, runtime, next, action),
        (StartPhase::Freshness { sandbox, store_path }, StartEvent::RunningBuild(launched)) =>
            leaves_running(action, already_running_text(sandbox@, match launched {
                Some(l) => Some(l@),
                None => None,
            }, store_path@)) && next == StartPhase::Done,
        (StartPhase::Replacing { store_path, declared, runtime }, StartEvent::Passed) =>
            action == StartAction::ReadHost && next == (StartPhase::Measuring { store_path, declared, runtime }),
        (StartPhase::Measuring { store_path, declared, runtime }, StartEvent::Host { total_bytes, parallelism }) => {
            let resources = effective_spec(declared, total_bytes, parallelism);
            action == (StartAction::Launch { store_path, resources, runtime }) && next == (StartPhase::Launching { resources })
        },
        (StartPhase::Launching { resources }, StartEvent::Passed) =>
            action == StartAction::Finish(Ok(StartOutcome::Booted { resources })) && next == StartPhase::Done,
        _ => false,
    }
}

/// A start that was not asked to rebuild never replaces a running VM: once the build is in hand
/// it only asks which build the VM runs, and that answer ends the start with the VM left alone;
/// a rebuild, by contrast, always stops what runs before launching.
pub proof fn law_a_running_vm_is_replaced_only_on_request(flags: StartFlags, phase: StartPhase, event: StartEvent, next: StartPhase, action: StartAction)
    requires
        start_expects(flags, phase, event),
        start_next(flags, phase, event, next, action),
        phase matches StartPhase::Sourcing { running, .. } && running,
        !(event is Failed),
    ensures
        !flags.rebuild ==> !(action is Stop) && !(action is ReadHost) && !(action is Launch),
        flags.rebuild && !(action is Finish) ==> action is Stop,
{
}

/// Asked which build it runs, a start finishes leaving the running VM alone.
pub proof fn law_freshness_leaves_the_vm_alone(flags: StartFlags, sandbox: String, store_path: String, launched: Option<String>, next: StartPhase, action: StartAction)
    requires
        start_next(flags, StartPhase::Freshness { sandbox, store_path }, StartEvent::RunningBuild(launched), next, action),
    ensures
        action matches StartAction::Finish(Ok(StartOutcome::AlreadyRunning { .. })),
        next == StartPhase::Done,
{
}

/// The runtime a phase carries toward the launch, once one is located.
pub open spec fn phase_runtime(phase: StartPhase) -> Option<Runtime> {
    match phase {
        StartPhase::Locking { runtime, .. } => Some(runtime),
        StartPhase::Discriminating { runtime, .. } => Some(runtime),
        StartPhase::Sourcing { runtime, .. } => Some(runtime),
        StartPhase::Replacing { runtime, .. } => Some(runtime),
        StartPhase::Measuring { runtime, .. } => Some(runtime),
        _ => None,
    }
}

/// After admission, a start either refuses a control socket that cannot fit a Unix socket path,
/// or locks the sandbox's `default` target under the runtime root preflight found, and carries
/// exactly that runtime on.
pub proof fn law_the_lock_names_the_located_runtime(flags: StartFlags, sandbox: String, declared: Option<DeclaredResources>, runtime_root: String, next: StartPhase, action: StartAction)
    requires
        start_next(flags, StartPhase::Admitting { sandbox, declared, runtime_root }, StartEvent::Passed, next, action),
    ensures
        action is Finish || action is Lock,
        action matches StartAction::Lock { runtime } ==> located_at(runtime, runtime_root@, sandbox@)
            && phase_runtime(next) == Some(runtime),
        action is Finish ==> encode_utf8(default_control(runtime_root@, sandbox@)).len() >= 108,
{
}

/// The located runtime travels unchanged from the lock to the launch: a step from a phase that
/// carries one carries the same one on, or none, and a launch hands the boot observer and the
/// launcher exactly that runtime. Nothing but the last phase before it launches.
pub proof fn law_the_launch_uses_the_locked_runtime(flags: StartFlags, phase: StartPhase, event: StartEvent, next: StartPhase, action: StartAction)
    requires
        start_expects(flags, phase, event),
        start_next(flags, phase, event, next, action),
    ensures
        action is Launch ==> phase is Measuring,
        phase_runtime(phase) matches Some(rt) ==> {
            &&& phase_runtime(next) is Some ==> phase_runtime(next) == Some(rt)
            &&& action matches StartAction::Launch { runtime, .. } ==> runtime == rt
        },
{
}

/// A start in a directory no manifest owns is refused by resolution, before preflight,
/// admission, the lock or any build, with the configuration code.
pub proof fn law_an_unbound_start_ends_at_resolution(flags: StartFlags, f: Failure, config_root: Seq<char>, hint: Seq<char>, next: StartPhase, action: StartAction)
    requires
        is_unbound(f, config_root, hint),
        start_next(flags, StartPhase::Resolving, StartEvent::Failed(f), next, action),
    ensures
        action == StartAction::Finish(Err(f)),
        next == StartPhase::Done,
        failure_code(f) == ExitKind::Config,
{
}

/// Where a start begins.
pub fn start_begin() -> (r: (StartPhase, StartAction))
    ensures
        r.0 == StartPhase::Resolving && r.1 == StartAction::Resolve,
{
    (StartPhase::Resolving, StartAction::Resolve)
}

fn source_done(flags: StartFlags, sandbox: String, running: bool, store_path: String, declared: Option<DeclaredResources>, runtime: Runtime) -> (r: (StartPhase, StartAction))
    ensures
        after_source(flags, sandbox, running, store_path, declared, runtime, r.0, r.1),
{
    if running && !flags.rebuild {
        (StartPhase::Freshness { sandbox, store_path }, StartAction::ReadRunningBuild)
    } else if flags.rebuild {
        (StartPhase::Replacing { store_path, declared, runtime }, StartAction::Stop)
    } else {
        (StartPhase::Measuring { store_path, declared, runtime }, StartAction::ReadHost)
    }
}

fn no_build() -> (f: Failure)
    ensures
        no_build_failure(f),
{
    diagnosed(
        Namespace::State,
        "no-build",
        "this project has no build to boot".to_owned(),
        Locus::Named("build history".to_owned()),
        "`--no-rebuild` skips evaluation, and no previous build output is recorded or still in the store".to_owned(),
        ExitKind::DataErr,
    ).with_hint("run `viv start` without `--no-rebuild` to evaluate and build first".to_owned())
}

/// One step of the start pipeline.
pub fn start_step(flags: StartFlags, phase: StartPhase, event: StartEvent) -> (r: (StartPhase, StartAction))
    requires
        start_expects(flags, phase, event),
    ensures
        start_next(flags, phase, event, r.0, r.1),
{
    match (phase, event) {
        (_, StartEvent::Failed(f)) => (StartPhase::Done, StartAction::Finish(Err(f))),
        (StartPhase::Resolving, StartEvent::Resolved { sandbox, declared }) =>
            (StartPhase::Preflighting { sandbox, declared }, StartAction::Preflight),
        (StartPhase::Preflighting { sandbox, declared }, StartEvent::Preflighted { runtime_root }) => {
            let name = sandbox.clone();
            let root = runtime_root.clone();
            (StartPhase::Admitting { sandbox, declared, runtime_root }, StartAction::Admit { sandbox: name, runtime_root: root })
        },
        (StartPhase::Admitting { sandbox, declared, runtime_root }, StartEvent::Passed) => {
            match Runtime::locate(runtime_root.as_str(), sandbox.as_str(), "default") {
                Err(f) => (StartPhase::Done, StartAction::Finish(Err(f))),
                Ok(runtime) => {
                    let held = Runtime { directory: runtime.directory.clone(), unit: runtime.unit.clone() };
                    (StartPhase::Locking { sandbox, declared, runtime }, StartAction::Lock { runtime: held })
                },
            }
        },
        (StartPhase::Locking { sandbox, declared, runtime }, StartEvent::Passed) =>
            (StartPhase::Discriminating { sandbox, declared, runtime }, StartAction::Discriminate),
        (StartPhase::Discriminating { sandbox, declared, runtime }, StartEvent::Discriminated { running }) => {
            match flags.generation {
                Some(number) => {
                    if running {
                        match retained_boot(number, true, RetainedLink::Missing) {
                            Ok(_) => {
                                proof {
                                    assert(false);
                                }
                                (StartPhase::Done, StartAction::Resolve)
                            },
                            Err(f) => (StartPhase::Done, StartAction::Finish(Err(f))),
                        }
                    } else {
                        (StartPhase::Sourcing { sandbox, declared, running, runtime }, StartAction::ReadGeneration { number })
                    }
                },
                None => {
                    if flags.no_rebuild {
                        if running {
                            let notes = already_running_note(sandbox.as_str(), None, "");
                            proof {
                                reveal_strlit("");
                            }
                            (StartPhase::Done, StartAction::Finish(Ok(StartOutcome::AlreadyRunning { notes })))
                        } else {
                            (StartPhase::Sourcing { sandbox, declared, running, runtime }, StartAction::ReadLastBuild)
                        }
                    } else {
                        (StartPhase::Sourcing { sandbox, declared, running, runtime }, StartAction::EvaluateAndBuild)
                    }
                },
            }
        },
        (StartPhase::Sourcing { sandbox, declared, running, runtime }, StartEvent::Generation(link)) => {
            let number = match flags.generation {
                Some(n) => n,
                None => {
                    proof {
                        assert(false);
                    }
                    0
                },
            };
            match link {
                RetainedLink::Target { path, exists: true } => source_done(flags, sandbox, running, path, declared, runtime),
                other => match retained_boot(number, false, other) {
                    Ok(_) => {
                        proof {
                            assert(false);
                        }
                        (StartPhase::Done, StartAction::Resolve)
                    },
                    Err(f) => (StartPhase::Done, StartAction::Finish(Err(f))),
                },
            }
        },
        (StartPhase::Sourcing { sandbox, declared, running, runtime }, StartEvent::LastBuild(last)) => match last {
            None => (StartPhase::Done, StartAction::Finish(Err(no_build()))),
            Some(p) => source_done(flags, sandbox, running, p, declared, runtime),
        },
        (StartPhase::Sourcing { sandbox, declared, running, runtime }, StartEvent::Built { store_path, merged }) => {
            let chosen = match merged {
                Some(m) => Some(m),
                None => declared,
            };
            source_done(flags, sandbox, running, store_path, chosen, runtime)
        },
        (StartPhase::Freshness { sandbox, store_path }, StartEvent::RunningBuild(launched)) => {
            let notes = match &launched {
                Some(l) => already_running_note(sandbox.as_str(), Some(l.as_str()), store_path.as_str()),
                None => already_running_note(sandbox.as_str(), None, store_path.as_str()),
            };
            (StartPhase::Done, StartAction::Finish(Ok(StartOutcome::AlreadyRunning { notes })))
        },
        (StartPhase::Replacing { store_path, declared, runtime }, StartEvent::Passed) =>
            (StartPhase::Measuring { store_path, declared, runtime }, StartAction::ReadHost),
        (StartPhase::Measuring { store_path, declared, runtime }, StartEvent::Host { total_bytes, parallelism }) => {
            let resources = effective_resources(declared, total_bytes, parallelism);
            (StartPhase::Launching { resources }, StartAction::Launch { store_path, resources, runtime })
        },
        (StartPhase::Launching { resources }, StartEvent::Passed) =>
            (StartPhase::Done, StartAction::Finish(Ok(StartOutcome::Booted { resources }))),
        _ => {
            proof {
                assert(false);
            }
            (StartPhase::Done, StartAction::Resolve)
        },
    }
}

/// How taking the per-target startup lock failed.
pub enum LockError {
    /// The runtime directory could not be prepared.
    DirectoryUnusable(String),
    /// The lock file could not be opened.
    Unopenable(String),
    /// Another process holds the lock.
    Contended,
    /// Locking failed otherwise.
    Failed(String),
}

/// Whether `f` is the diagnosed failure located at the file `path`, with these parts and no hint.
pub open spec fn at_file(f: Failure, id: Seq<char>, what: Seq<char>, path: Seq<char>, why: Seq<char>, code: ExitKind) -> bool {
    f matches Failure::Diagnosed { diagnostic: d, code: c } && c == code && d.namespace == Namespace::Vm
        && d.id@ == id && d.what@ == what && d.why@ == why && d.hint is None && match d.locus {
        Locus::File(p) => p@ == path,
        Locus::Named(_) => false,
    }
}

/// What a failed lock costs: a contended lock is a transient race the caller retries, rather than
/// a wait that looks like a hang; everything else is I/O.
pub fn lock_failure(rt: &Runtime, error: LockError) -> (f: Failure)
    ensures
        match error {
            LockError::DirectoryUnusable(e) => at_file(f, "runtime-directory-unusable"@,
                "the runtime directory for this target cannot be prepared"@, rt.directory@, e@, ExitKind::IoErr),
            LockError::Unopenable(e) => at_file(f, "lock-unusable"@, "the startup lock for this target cannot be opened"@,
                join(rt.directory@, "lock"@), e@, ExitKind::IoErr),
            LockError::Contended => diagnostic_is(f, Namespace::Vm, "startup-contended"@,
                "another vivarium process is starting this project's VM"@, (false, join(rt.directory@, "lock"@)),
                "the per-target startup lock could not be taken promptly"@, ExitKind::TempFail,
                "retry once the other process has finished starting the VM"@),
            LockError::Failed(e) => at_file(f, "lock-unusable"@, "the startup lock for this target cannot be taken"@,
                join(rt.directory@, "lock"@), e@, ExitKind::IoErr),
        },
{
    match error {
        LockError::DirectoryUnusable(e) => diagnosed(
            Namespace::Vm,
            "runtime-directory-unusable",
            "the runtime directory for this target cannot be prepared".to_owned(),
            Locus::File(rt.directory.clone()),
            e,
            ExitKind::IoErr,
        ),
        LockError::Unopenable(e) => diagnosed(
            Namespace::Vm,
            "lock-unusable",
            "the startup lock for this target cannot be opened".to_owned(),
            Locus::File(rt.lock()),
            e,
            ExitKind::IoErr,
        ),
        LockError::Contended => diagnosed(
            Namespace::Vm,
            "startup-contended",
            "another vivarium process is starting this project's VM".to_owned(),
            Locus::File(rt.lock()),
            "the per-target startup lock could not be taken promptly".to_owned(),
            ExitKind::TempFail,
        ).with_hint("retry once the other process has finished starting the VM".to_owned()),
        LockError::Failed(e) => diagnosed(
            Namespace::Vm,
            "lock-unusable",
            "the startup lock for this target cannot be taken".to_owned(),
            Locus::File(rt.lock()),
            e,
            ExitKind::IoErr,
        ),
    }
}

/// Where the routine a session shares with `start` is: resolve, lock, decide whether the VM
/// there can be reused, and otherwise preflight, build, and launch one, then read its record.
pub enum EnsurePhase {
    Resolving,
    Locking,
    /// The reuse decision is running.
    Deciding,
    /// The dead VM's unit and records are being cleared.
    Repairing,
    Preflighting,
    Building,
    Measuring { store_path: String, merged: Option<DeclaredResources> },
    Launching,
    ReadingRecord,
    Done,
}

/// What the last action found.
pub enum EnsureEvent {
    Resolved,
    /// The lock was taken, the repair, the preflight, or the launch succeeded.
    Passed,
    /// How the reuse decision ended.
    Decided(ReuseAction),
    Built { store_path: String, merged: Option<DeclaredResources> },
    Host { total_bytes: Option<u64>, parallelism: Option<u64> },
    Record(BootRecord),
    Failed(Failure),
}

/// What to do next.
pub enum EnsureAction {
    Resolve,
    Lock,
    /// Run the reuse decision.
    Decide,
    /// Stop the dead VM's unit and remove its records.
    Repair,
    Preflight,
    EvaluateAndBuild,
    ReadHost,
    Launch { store_path: String, resources: Resources },
    ReadRecord,
    /// The boot a session is authorized against, or why there is none.
    Finish(Result<BootMetadata, Failure>),
}

pub open spec fn ensure_expects(phase: EnsurePhase, event: EnsureEvent) -> bool {
    match (phase, event) {
        (EnsurePhase::Done, _) => false,
        (_, EnsureEvent::Failed(_)) => true,
        (EnsurePhase::Resolving, EnsureEvent::Resolved) => true,
        (EnsurePhase::Locking, EnsureEvent::Passed) => true,
        (EnsurePhase::Deciding, EnsureEvent::Decided(a)) => !(a is AskPresence) && !(a is Ping),
        (EnsurePhase::Repairing, EnsureEvent::Passed) => true,
        (EnsurePhase::Preflighting, EnsureEvent::Passed) => true,
        (EnsurePhase::Building, EnsureEvent::Built { .. }) => true,
        (EnsurePhase::Measuring { .. }, EnsureEvent::Host { .. }) => true,
        (EnsurePhase::Launching, EnsureEvent::Passed) => true,
        (EnsurePhase::ReadingRecord, EnsureEvent::Record(_)) => true,
        _ => false,
    }
}

/// One step: a reusable VM is used as it is, with no preflight, build, or boot; a dead one is
/// cleared first; a cold start launches with the merged ceilings and is authorized against the
/// record the launch left, which must be this version's.
pub open spec fn ensure_next(rt: Runtime, ours: u32, phase: EnsurePhase, event: EnsureEvent, next: EnsurePhase, action: EnsureAction) -> bool {
    match (phase, event) {
        (_, EnsureEvent::Failed(f)) => action == EnsureAction::Finish(Err(f)) && next == EnsurePhase::Done,
        (EnsurePhase::Resolving, EnsureEvent::Resolved) => action == EnsureAction::Lock && next == EnsurePhase::Locking,
        (EnsurePhase::Locking, EnsureEvent::Passed) => action == EnsureAction::Decide && next == EnsurePhase::Deciding,
        (EnsurePhase::Deciding, EnsureEvent::Decided(decision)) => match decision {
            ReuseAction::Reuse(boot) => action == EnsureAction::Finish(Ok(boot)) && next == EnsurePhase::Done,
            ReuseAction::Refuse(f) => action == EnsureAction::Finish(Err(f)) && next == EnsurePhase::Done,
            ReuseAction::RepairThenColdStart => action == EnsureAction::Repair && next == EnsurePhase::Repairing,
            _ => action == EnsureAction::Preflight && next == EnsurePhase::Preflighting,
        },
        (EnsurePhase::Repairing, EnsureEvent::Passed) => action == EnsureAction::Preflight && next == EnsurePhase::Preflighting,
        (EnsurePhase::Preflighting, EnsureEvent::Passed) =>
            action == EnsureAction::EvaluateAndBuild && next == EnsurePhase::Building,
        (EnsurePhase::Building, EnsureEvent::Built { store_path, merged }) =>
            action == EnsureAction::ReadHost && next == (EnsurePhase::Measuring { store_path, merged }),
        (EnsurePhase::Measuring { store_path, merged }, EnsureEvent::Host { total_bytes, parallelism }) =>
            action == (EnsureAction::Launch { store_path, resources: effective_spec(merged, total_bytes, parallelism) })
                && next == EnsurePhase::Launching,
        (EnsurePhase::Launching, EnsureEvent::Passed) => action == EnsureAction::ReadRecord && next == EnsurePhase::ReadingRecord,
        (EnsurePhase::ReadingRecord, EnsureEvent::Record(record)) => next == EnsurePhase::Done && match record {
            BootRecord::Ready(boot) => action == EnsureAction::Finish(Ok(boot)),
            BootRecord::Skewed(theirs) => action matches EnsureAction::Finish(Err(f)) && is_skew(f, rt, theirs, ours),
            _ => action matches EnsureAction::Finish(Err(f)) && f matches Failure::Diagnosed { diagnostic: d, code }
                && code == ExitKind::Unavailable && d.id@ == "boot-record-unreadable"@
                && d.what@ == "the VM started but left no readable boot record"@,
        },
        _ => false,
    }
}

pub fn ensure_begin() -> (r: (EnsurePhase, EnsureAction))
    ensures
        r.0 == EnsurePhase::Resolving && r.1 == EnsureAction::Resolve,
{
    (EnsurePhase::Resolving, EnsureAction::Resolve)
}

/// One step of the ensure-running routine; `rt` is the target's runtime location and `ours` the
/// launch schema this binary speaks.
pub fn ensure_step(rt: &Runtime, ours: u32, phase: EnsurePhase, event: EnsureEvent) -> (r: (EnsurePhase, EnsureAction))
    requires
        ensure_expects(phase, event),
    ensures
        ensure_next(*rt, ours, phase, event, r.0, r.1),
{
    match (phase, event) {
        (_, EnsureEvent::Failed(f)) => (EnsurePhase::Done, EnsureAction::Finish(Err(f))),
        (EnsurePhase::Resolving, EnsureEvent::Resolved) => (EnsurePhase::Locking, EnsureAction::Lock),
        (EnsurePhase::Locking, EnsureEvent::Passed) => (EnsurePhase::Deciding, EnsureAction::Decide),
        (EnsurePhase::Deciding, EnsureEvent::Decided(decision)) => match decision {
            ReuseAction::Reuse(boot) => (EnsurePhase::Done, EnsureAction::Finish(Ok(boot))),
            ReuseAction::Refuse(f) => (EnsurePhase::Done, EnsureAction::Finish(Err(f))),
            ReuseAction::RepairThenColdStart => (EnsurePhase::Repairing, EnsureAction::Repair),
            _ => (EnsurePhase::Preflighting, EnsureAction::Preflight),
        },
        (EnsurePhase::Repairing, EnsureEvent::Passed) => (EnsurePhase::Preflighting, EnsureAction::Preflight),
        (EnsurePhase::Preflighting, EnsureEvent::Passed) => (EnsurePhase::Building, EnsureAction::EvaluateAndBuild),
        (EnsurePhase::Building, EnsureEvent::Built { store_path, merged }) =>
            (EnsurePhase::Measuring { store_path, merged }, EnsureAction::ReadHost),
        (EnsurePhase::Measuring { store_path, merged }, EnsureEvent::Host { total_bytes, parallelism }) => {
            let resources = effective_resources(merged, total_bytes, parallelism);
            (EnsurePhase::Launching, EnsureAction::Launch { store_path, resources })
        },
        (EnsurePhase::Launching, EnsureEvent::Passed) => (EnsurePhase::ReadingRecord, EnsureAction::ReadRecord),
        (EnsurePhase::ReadingRecord, EnsureEvent::Record(record)) =>
            (EnsurePhase::Done, EnsureAction::Finish(launched_boot(rt, record, ours))),
        _ => {
            proof {
                assert(false);
            }
            (EnsurePhase::Done, EnsureAction::Resolve)
        },
    }
}

} // verus!
