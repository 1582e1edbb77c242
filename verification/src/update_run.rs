//! `viv update`'s run as decisions, in its contracted order: everything that can refuse without
//! writing refuses first (an unbound project, a team override lock, an unknown input name), then
//! the per-target lock is taken, the private tree prepared, and the re-resolution run into a
//! staged lock that is validated and persisted whole, or removed. The caller performs each action
//! and hands back what it found.
use vstd::prelude::*;
use crate::exit::ExitKind;
use crate::failure::{diagnosed, diagnostic_is, Failure, Locus, Namespace, Success};
use crate::grammar::Output;
use crate::records::{update_json, update_record};
use crate::tables::{columns_text, grid};
use crate::stop::plain_diagnostic;
use crate::text::{joined, texts, trim_spec};
use crate::update::{
    dedup, first_unknown, known_names, translated_name, UPDATE_USAGE, derive_rows, names_unreachable, notes_for, notes_text, override_refusal, reported_rows, requested_names,
    pins_keyed, translated_map, update_arguments, update_arguments_spec, update_failure, update_spawn_failure, ImageBase, RootPin,
};
use crate::views::update_human;

verus! {

/// What the prepared private tree says, and what the run works from once the lock is held.
pub struct UpdateJob {
    pub sandbox: String,
    /// The names the user asked for, as the record reports them.
    pub requested: Vec<String>,
    /// The inputs the re-resolution is run on.
    pub translated: Vec<String>,
    /// The private tree the re-resolution reads.
    pub directory: String,
    /// The lock in force, when there is one, which seeds the re-resolution.
    pub reference: Option<String>,
    /// The lock this target owns, which the run replaces whole.
    pub owned_path: String,
    /// Whether the owned lock did not exist yet.
    pub created: bool,
    /// A base image that carries its own lock, by input name.
    pub locked_base: Option<String>,
}

/// How the re-resolution run went.
pub enum NixRun {
    /// It could not be started: whether for a missing permission, and the host's report.
    Unstartable { permission_denied: bool, error: String },
    /// It ran: whether it succeeded, and what it wrote on stderr.
    Finished { success: bool, stderr: String },
}

/// Where the run is.
pub enum UpdatePhase {
    Resolving,
    CheckingOverride { sandbox: String },
    Naming { sandbox: String },
    Locking { sandbox: String },
    Preparing { sandbox: String },
    ReadingPins { job: UpdateJob },
    MakingParent { job: UpdateJob, before: Vec<(String, RootPin)> },
    Running { job: UpdateJob, before: Vec<(String, RootPin)>, staged: String },
    Validating { job: UpdateJob, before: Vec<(String, RootPin)>, staged: String },
    Persisting { job: UpdateJob, before: Vec<(String, RootPin)>, after: Vec<(String, RootPin)> },
    /// Removing the staged lock of a failed run before answering with its failure.
    Removing { failure: Failure },
    Done,
}

/// What the last action found.
pub enum UpdateEvent {
    Resolved { sandbox: String },
    /// The override lock in force, with the owned lock it shadows, when a team pins this target.
    Override(Option<(String, String)>),
    /// The declared inputs and the base image, as a read-only resolution finds them.
    Declared { declared: Vec<String>, base: Option<ImageBase> },
    /// The lock was taken, the lock persisted, or the staged lock removed.
    Passed,
    /// The private tree, prepared under the lock.
    Prepared {
        declared: Vec<String>,
        base: Option<ImageBase>,
        directory: String,
        reference: Option<String>,
        owned_path: String,
        created: bool,
        locked_base: Option<String>,
    },
    /// The pins of the lock in force.
    Pins(Vec<(String, RootPin)>),
    /// The owned lock's directory exists; the staged lock's path beside it.
    ParentMade { staged: String },
    Ran(NixRun),
    /// The staged lock passed the composed rule; its pins.
    Validated(Vec<(String, RootPin)>),
    Failed(Failure),
}

/// What to do next.
pub enum UpdateAction {
    Resolve,
    CheckOverride { sandbox: String },
    ResolveInputs { sandbox: String },
    Lock { sandbox: String },
    Prepare,
    ReadPins { path: String },
    MakeParent { owned_path: String },
    /// Run `nix` with these arguments.
    Run { arguments: Vec<String> },
    Validate { staged: String },
    Persist { staged: String, owned_path: String },
    RemoveStaged,
    Finish(Result<Success, Failure>),
}

/// Whether the pins a phase carries stand as the lock's map holds them.
pub open spec fn pins_held(phase: UpdatePhase) -> bool {
    match phase {
        UpdatePhase::MakingParent { before, .. } => pins_keyed(before@),
        UpdatePhase::Running { before, .. } => pins_keyed(before@),
        UpdatePhase::Validating { before, .. } => pins_keyed(before@),
        UpdatePhase::Persisting { before, after, .. } => pins_keyed(before@) && pins_keyed(after@),
        _ => true,
    }
}

/// Whether pins an event reports stand as the lock's map holds them.
pub open spec fn event_pins_keyed(event: UpdateEvent) -> bool {
    match event {
        UpdateEvent::Pins(p) => pins_keyed(p@),
        UpdateEvent::Validated(p) => pins_keyed(p@),
        _ => true,
    }
}

/// Whether `event` answers the action `phase` is waiting on, with every set of pins keyed in
/// order, each name once, as a lock holds them.
pub open spec fn update_expects(phase: UpdatePhase, event: UpdateEvent) -> bool {
    pins_held(phase) && event_pins_keyed(event) && update_answers(phase, event)
}

/// Whether `event` is an answer to the action `phase` is waiting on.
pub open spec fn update_answers(phase: UpdatePhase, event: UpdateEvent) -> bool {
    match (phase, event) {
        (UpdatePhase::Done, _) => false,
        (UpdatePhase::Removing { .. }, UpdateEvent::Passed) | (UpdatePhase::Removing { .. }, UpdateEvent::Failed(_)) => true,
        (UpdatePhase::Removing { .. }, _) => false,
        (_, UpdateEvent::Failed(_)) => true,
        (UpdatePhase::Resolving, UpdateEvent::Resolved { .. }) => true,
        (UpdatePhase::CheckingOverride { .. }, UpdateEvent::Override(_)) => true,
        (UpdatePhase::Naming { .. }, UpdateEvent::Declared { .. }) => true,
        (UpdatePhase::Locking { .. }, UpdateEvent::Passed) => true,
        (UpdatePhase::Preparing { .. }, UpdateEvent::Prepared { .. }) => true,
        (UpdatePhase::ReadingPins { .. }, UpdateEvent::Pins(_)) => true,
        (UpdatePhase::MakingParent { .. }, UpdateEvent::ParentMade { .. }) => true,
        (UpdatePhase::Running { .. }, UpdateEvent::Ran(_)) => true,
        (UpdatePhase::Validating { .. }, UpdateEvent::Validated(_)) => true,
        (UpdatePhase::Persisting { .. }, UpdateEvent::Passed) => true,
        _ => false,
    }
}

/// The refusal of a run whose declared inputs changed between the usage answer and the locked
/// preparation: a transient race, not a usage fault.
pub open spec fn input_set_changed(f: Failure) -> bool {
    diagnostic_is(f, Namespace::Manifest, "input-set-changed"@,
        "the project's declared inputs changed while the update was preparing"@, (true, "update preparation"@),
        "a requested name no longer resolves against the current configuration"@, ExitKind::TempFail,
        "re-run the update against the configuration as it now is"@)
}

/// The base image by value.
pub open spec fn base_of(base: Option<ImageBase>) -> Option<(Seq<char>, bool, bool)> {
    match base {
        Some(b) => Some((b.input_name@, b.declares_nixpkgs, b.declares_microvm)),
        None => None,
    }
}

/// The public inputs the declarations and the base make known.
pub open spec fn known_of(declared: Vec<String>, base: Option<ImageBase>) -> Seq<Seq<char>> {
    known_names(texts(declared@), match base {
        Some(b) => Some(b.input_name@),
        None => None,
    })
}

/// The usage refusal of a name the project does not have.
pub open spec fn unknown_input(f: Failure, unknown: Seq<char>, known: Seq<Seq<char>>) -> bool {
    match f {
        Failure::Usage(e) => e.message@ == "`viv update` knows no input `"@ + unknown + "` (this project has: "@
            + joined(known, ", "@) + ")"@ && e.usage == Some(UPDATE_USAGE),
        _ => false,
    }
}

/// The names a run reports and the inputs it runs on, for the names given.
pub open spec fn names_of(job: UpdateJob, inputs: Seq<String>, base: Option<ImageBase>) -> bool {
    &&& texts(job.requested@) == dedup(texts(inputs))
    &&& texts(job.translated@) == dedup(translated_map(texts(inputs), base_of(base)))
}

/// What a finished re-resolution costs, if anything.
pub open spec fn run_failure(run: NixRun, f: Failure) -> bool {
    match run {
        NixRun::Unstartable { permission_denied, error } => plain_diagnostic(f, Namespace::Store, "update-unavailable"@,
            "could not run `nix flake update`"@, "input re-resolution"@, error@, if permission_denied {
            ExitKind::NoPerm
        } else {
            ExitKind::Unavailable
        }),
        NixRun::Finished { stderr, .. } => if names_unreachable(stderr@) {
            plain_diagnostic(f, Namespace::Store, "input-unreachable"@, "an input could not be reached to re-resolve"@,
                "input re-resolution"@, trim_spec(stderr@), ExitKind::Unavailable)
        } else {
            plain_diagnostic(f, Namespace::Store, "update-failed"@, "the input re-resolution failed"@,
                "input re-resolution"@, trim_spec(stderr@), ExitKind::Software)
        },
    }
}

/// What a completed run prints: the reported rows under the record for `--json`, or the table
/// and the lock for a human; and its notes.
pub open spec fn update_output(job: UpdateJob, before: Seq<(String, RootPin)>, after: Seq<(String, RootPin)>, output: Output, s: Success) -> bool {
    let rows = reported_rows(before, after, texts(job.requested@), after.len() as int);
    &&& s.stdout@ == (if output == Output::Json {
        update_record(job.sandbox@, job.owned_path@, rows.map_values(|r: (Seq<char>, Seq<Seq<char>>)| r.0))
    } else {
        columns_text(rows.map_values(|r: (Seq<char>, Seq<Seq<char>>)| r.1), rows.len() as int) + "lock\t"@ + job.owned_path@ + "\n"@
    })
    &&& s.notes@ == notes_text(job.created, job.owned_path@, match job.locked_base {
        Some(b) => Some(b@),
        None => None,
    })
}

/// One step of the run. Before the staged lock exists a failure is the answer; once it may exist,
/// the staged lock is removed first, so no residue sits beside the owned lock.
pub open spec fn update_next(inputs: Seq<String>, features: Seq<String>, output: Output, phase: UpdatePhase, event: UpdateEvent, next: UpdatePhase, action: UpdateAction) -> bool {
    match (phase, event) {
        (UpdatePhase::Removing { failure }, _) => action == UpdateAction::Finish(Err(failure)) && next == UpdatePhase::Done,
        (UpdatePhase::Running { .. }, UpdateEvent::Failed(f)) | (UpdatePhase::Validating { .. }, UpdateEvent::Failed(f))
        | (UpdatePhase::Persisting { .. }, UpdateEvent::Failed(f)) =>
            action == UpdateAction::RemoveStaged && next == (UpdatePhase::Removing { failure: f }),
        (_, UpdateEvent::Failed(f)) => action == UpdateAction::Finish(Err(f)) && next == UpdatePhase::Done,
        (UpdatePhase::Resolving, UpdateEvent::Resolved { sandbox }) =>
            action == (UpdateAction::CheckOverride { sandbox }) && next == (UpdatePhase::CheckingOverride { sandbox }),
        (UpdatePhase::CheckingOverride { sandbox }, UpdateEvent::Override(found)) => match found {
            Some((over, owned)) => next == UpdatePhase::Done && match action {
                UpdateAction::Finish(Err(f)) => diagnostic_is(f, Namespace::Lock, "override-in-force"@,
                    "a team override lock is in force"@, (false, over@), "`"@ + over@ + "` is read-only to the tool and shadows `"@
                    + owned@ + "`, which this update would have written"@, ExitKind::Config,
                    "moving a shared pin is the team's own act, outside vivarium"@),
                _ => false,
            },
            None => action == (UpdateAction::ResolveInputs { sandbox }) && next == (UpdatePhase::Naming { sandbox }),
        },
        (UpdatePhase::Naming { sandbox }, UpdateEvent::Declared { declared, base }) =>
            match first_unknown(texts(inputs), known_of(declared, base), 0) {
                Some(unknown) => next == UpdatePhase::Done && match action {
                    UpdateAction::Finish(Err(f)) => unknown_input(f, unknown, known_of(declared, base)),
                    _ => false,
                },
                None => action == (UpdateAction::Lock { sandbox }) && next == (UpdatePhase::Locking { sandbox }),
            },
        (UpdatePhase::Locking { sandbox }, UpdateEvent::Passed) =>
            action == UpdateAction::Prepare && next == (UpdatePhase::Preparing { sandbox }),
        (UpdatePhase::Preparing { sandbox }, UpdateEvent::Prepared { reference, owned_path, created, locked_base, directory, declared, base }) =>
            if first_unknown(texts(inputs), known_of(declared, base), 0) is Some {
                next == UpdatePhase::Done && match action {
                    UpdateAction::Finish(Err(f)) => input_set_changed(f),
                    _ => false,
                }
            } else {
                match next {
                    UpdatePhase::ReadingPins { job } => names_of(job, inputs, base) && job.sandbox == sandbox && job.reference == reference
                        && job.owned_path == owned_path && job.created == created && job.locked_base == locked_base
                        && job.directory == directory && match reference {
                            Some(r) => action == (UpdateAction::ReadPins { path: r }),
                            None => false,
                        },
                    UpdatePhase::MakingParent { job, before } => names_of(job, inputs, base) && job.sandbox == sandbox && job.reference == reference
                        && job.owned_path == owned_path && job.created == created && job.locked_base == locked_base
                        && job.directory == directory && reference is None && before@.len() == 0
                        && action == (UpdateAction::MakeParent { owned_path }),
                    _ => false,
                }
            },
        (UpdatePhase::ReadingPins { job }, UpdateEvent::Pins(before)) =>
            action == (UpdateAction::MakeParent { owned_path: job.owned_path }) && next == (UpdatePhase::MakingParent { job, before }),
        (UpdatePhase::MakingParent { job, before }, UpdateEvent::ParentMade { staged }) => match action {
            UpdateAction::Run { arguments } => texts(arguments@) == update_arguments_spec(texts(job.translated@), texts(features),
                job.directory@, staged@, match job.reference {
                    Some(r) => Some(r@),
                    None => None,
                }) && next == (UpdatePhase::Running { job, before, staged }),
            _ => false,
        },
        (UpdatePhase::Running { job, before, staged }, UpdateEvent::Ran(run)) => match run {
            NixRun::Finished { success: true, .. } => action == (UpdateAction::Validate { staged })
                && next == (UpdatePhase::Validating { job, before, staged }),
            _ => action == UpdateAction::RemoveStaged && match next {
                UpdatePhase::Removing { failure } => run_failure(run, failure),
                _ => false,
            },
        },
        (UpdatePhase::Validating { job, before, staged }, UpdateEvent::Validated(after)) =>
            action == (UpdateAction::Persist { staged, owned_path: job.owned_path })
                && next == (UpdatePhase::Persisting { job, before, after }),
        (UpdatePhase::Persisting { job, before, after }, UpdateEvent::Passed) => next == UpdatePhase::Done && match action {
            UpdateAction::Finish(Ok(s)) => update_output(job, before@, after@, output, s),
            _ => false,
        },
        _ => false,
    }
}

/// Every set of pins the run carries stays keyed as the lock holds it: in name order, each name
/// once, from the pins read before the run to the pins validated after it.
pub proof fn law_pins_stay_keyed(inputs: Seq<String>, features: Seq<String>, output: Output, phase: UpdatePhase, event: UpdateEvent, next: UpdatePhase, action: UpdateAction)
    requires
        update_expects(phase, event),
        update_next(inputs, features, output, phase, event, next, action),
    ensures
        pins_held(next),
{
    reveal(pins_keyed);
}

pub fn update_begin() -> (r: (UpdatePhase, UpdateAction))
    ensures
        r.0 == UpdatePhase::Resolving && r.1 == UpdateAction::Resolve,
{
    (UpdatePhase::Resolving, UpdateAction::Resolve)
}

fn input_set_changed_failure() -> (f: Failure)
    ensures
        input_set_changed(f),
{
    diagnosed(
        Namespace::Manifest,
        "input-set-changed",
        "the project's declared inputs changed while the update was preparing".to_owned(),
        Locus::Named("update preparation".to_owned()),
        "a requested name no longer resolves against the current configuration".to_owned(),
        ExitKind::TempFail,
    ).with_hint("re-run the update against the configuration as it now is".to_owned())
}

fn completed(job: UpdateJob, before: Vec<(String, RootPin)>, after: Vec<(String, RootPin)>, output: Output) -> (s: Success)
    requires
        pins_keyed(before@),
        pins_keyed(after@),
    ensures
        update_output(job, before@, after@, output, s),
{
    let rows = derive_rows(&before, &after, &job.requested);
    let ghost reported = reported_rows(before@, after@, texts(job.requested@), after@.len() as int);
    assert(texts(rows.0@) =~= reported.map_values(|r: (Seq<char>, Seq<Seq<char>>)| r.0));
    assert forall|k: int| 0 <= k < rows.1@.len() implies #[trigger] grid(rows.1@)[k] == reported[k].1 by {
        assert(rows.0@[k]@ == reported[k].0);
    }
    assert(grid(rows.1@) =~= reported.map_values(|r: (Seq<char>, Seq<Seq<char>>)| r.1));
    let notes = notes_for(job.created, job.owned_path.as_str(), match &job.locked_base {
        Some(b) => Some(b.as_str()),
        None => None,
    });
    let stdout = match output {
        Output::Json => update_json(job.sandbox.as_str(), job.owned_path.as_str(), &rows.0),
        Output::Human => update_human(&rows.1, job.owned_path.as_str()),
    };
    Success { stdout, notes }
}

/// One step of `viv update`'s run, for the names the user gave, the evaluator's feature flags,
/// and the face asked for.
pub fn update_step(inputs: &Vec<String>, features: &Vec<String>, output: Output, phase: UpdatePhase, event: UpdateEvent) -> (r: (UpdatePhase, UpdateAction))
    requires
        update_expects(phase, event),
    ensures
        update_next(inputs@, features@, output, phase, event, r.0, r.1),
{
    match (phase, event) {
        (UpdatePhase::Removing { failure }, _) => (UpdatePhase::Done, UpdateAction::Finish(Err(failure))),
        (UpdatePhase::Running { .. }, UpdateEvent::Failed(f)) => (UpdatePhase::Removing { failure: f }, UpdateAction::RemoveStaged),
        (UpdatePhase::Validating { .. }, UpdateEvent::Failed(f)) => (UpdatePhase::Removing { failure: f }, UpdateAction::RemoveStaged),
        (UpdatePhase::Persisting { .. }, UpdateEvent::Failed(f)) => (UpdatePhase::Removing { failure: f }, UpdateAction::RemoveStaged),
        (_, UpdateEvent::Failed(f)) => (UpdatePhase::Done, UpdateAction::Finish(Err(f))),
        (UpdatePhase::Resolving, UpdateEvent::Resolved { sandbox }) => {
            let name = sandbox.clone();
            (UpdatePhase::CheckingOverride { sandbox }, UpdateAction::CheckOverride { sandbox: name })
        },
        (UpdatePhase::CheckingOverride { sandbox }, UpdateEvent::Override(found)) => match found {
            Some((over, owned)) => (UpdatePhase::Done, UpdateAction::Finish(Err(override_refusal(over.as_str(), owned.as_str())))),
            None => {
                let name = sandbox.clone();
                (UpdatePhase::Naming { sandbox }, UpdateAction::ResolveInputs { sandbox: name })
            },
        },
        (UpdatePhase::Naming { sandbox }, UpdateEvent::Declared { declared, base }) => {
            let named = match &base {
                Some(b) => requested_names(inputs, &declared, Some(b)),
                None => requested_names(inputs, &declared, None),
            };
            match named {
                Err(f) => (UpdatePhase::Done, UpdateAction::Finish(Err(f))),
                Ok(_) => {
                    let name = sandbox.clone();
                    (UpdatePhase::Locking { sandbox }, UpdateAction::Lock { sandbox: name })
                },
            }
        },
        (UpdatePhase::Locking { sandbox }, UpdateEvent::Passed) => (UpdatePhase::Preparing { sandbox }, UpdateAction::Prepare),
        (UpdatePhase::Preparing { sandbox }, UpdateEvent::Prepared { declared, base, directory, reference, owned_path, created, locked_base }) => {
            let named = match &base {
                Some(b) => requested_names(inputs, &declared, Some(b)),
                None => requested_names(inputs, &declared, None),
            };
            match named {
                Err(_) => (UpdatePhase::Done, UpdateAction::Finish(Err(input_set_changed_failure()))),
                Ok((requested, translated)) => {
                    let owned = owned_path.clone();
                    match &reference {
                        Some(r) => {
                            let path = r.clone();
                            let job = UpdateJob { sandbox, requested, translated, directory, reference, owned_path, created, locked_base };
                            (UpdatePhase::ReadingPins { job }, UpdateAction::ReadPins { path })
                        },
                        None => {
                            let job = UpdateJob { sandbox, requested, translated, directory, reference, owned_path, created, locked_base };
                            (UpdatePhase::MakingParent { job, before: Vec::new() }, UpdateAction::MakeParent { owned_path: owned })
                        },
                    }
                },
            }
        },
        (UpdatePhase::ReadingPins { job }, UpdateEvent::Pins(before)) => {
            let owned = job.owned_path.clone();
            (UpdatePhase::MakingParent { job, before }, UpdateAction::MakeParent { owned_path: owned })
        },
        (UpdatePhase::MakingParent { job, before }, UpdateEvent::ParentMade { staged }) => {
            let arguments = match &job.reference {
                Some(r) => update_arguments(&job.translated, features, job.directory.as_str(), staged.as_str(), Some(r.as_str())),
                None => update_arguments(&job.translated, features, job.directory.as_str(), staged.as_str(), None),
            };
            (UpdatePhase::Running { job, before, staged }, UpdateAction::Run { arguments })
        },
        (UpdatePhase::Running { job, before, staged }, UpdateEvent::Ran(run)) => match run {
            NixRun::Unstartable { permission_denied, error } =>
                (UpdatePhase::Removing { failure: update_spawn_failure(permission_denied, error) }, UpdateAction::RemoveStaged),
            NixRun::Finished { success, stderr } => {
                if success {
                    let path = staged.clone();
                    (UpdatePhase::Validating { job, before, staged }, UpdateAction::Validate { staged: path })
                } else {
                    (UpdatePhase::Removing { failure: update_failure(stderr.as_str()) }, UpdateAction::RemoveStaged)
                }
            },
        },
        (UpdatePhase::Validating { job, before, staged }, UpdateEvent::Validated(after)) => {
            let owned = job.owned_path.clone();
            (UpdatePhase::Persisting { job, before, after }, UpdateAction::Persist { staged, owned_path: owned })
        },
        (UpdatePhase::Persisting { job, before, after }, UpdateEvent::Passed) =>
            (UpdatePhase::Done, UpdateAction::Finish(Ok(completed(job, before, after, output)))),
        _ => {
            proof {
                assert(false);
            }
            (UpdatePhase::Done, UpdateAction::Resolve)
        },
    }
}

} // verus!
