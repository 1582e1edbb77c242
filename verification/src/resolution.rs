//! Which manifest a command acts on, and whether the working directory may use it.
//!
//! An explicit name (`--manifest`, else `VIVARIUM_MANIFEST`) wins. Otherwise exactly one library
//! manifest must declare a workspace containing the working directory: none is the fail-closed
//! `no-manifest` refusal, two or more the ambiguity refusal. The selected manifest is then held to
//! the whole rule: its name must key a sandbox, a defect in one of its declared workspaces is
//! reported before an undeclared directory, and `doctor` asks for the finding instead of the
//! refusal.
use vstd::prelude::*;
use crate::exit::ExitKind;
use crate::failure::{diagnosed, diagnostic_is, Failure, Locus, Namespace};
use crate::paths::{join, join_path};
use crate::workspace::{
    owner_list_text, owner_pairs, defect_hint_text, defect_id_text, defect_locus, defect_message_text, defect_why,
    block_text, diagnosed_as, refuses_name, undeclared_hint, undeclared_message, validate_sandbox_name, AmbiguousWorkspaceOwner,
    UndeclaredWorkspace, WorkspaceDefect, WorkspaceFinding,
};
use vstd::utf8::encode_utf8;

verus! {

/// Why nothing could be selected, as the refusal spells it.
pub open spec fn unbound_why() -> Seq<char> {
    "nothing was given by `--manifest` or `VIVARIUM_MANIFEST`, and no manifest declares this directory in `[[workspaces]]`"@
}

/// Whether `f` is the fail-closed refusal of an unbound directory: `no-manifest`, located at the
/// manifest library under `config_root`, with `hint` as its remedy and the config code.
pub open spec fn is_unbound(f: Failure, config_root: Seq<char>, hint: Seq<char>) -> bool {
    diagnosed_as(f, Namespace::State, "no-manifest"@, "no manifest owns the working directory"@,
        join(config_root, "manifests"@), unbound_why(), ExitKind::Config, hint)
}

/// The fail-closed answer when neither an explicit name nor a unique owner applies. `hint` is
/// the remedy the configuration layer words for this project.
pub fn unbound(config_root: &str, hint: String) -> (f: Failure)
    ensures
        is_unbound(f, config_root@, hint@),
{
    let library = join_path(config_root, "manifests");
    proof {
        reveal_strlit("manifests");
    }
    diagnosed(
        Namespace::State,
        "no-manifest",
        "no manifest owns the working directory".to_owned(),
        Locus::File(library),
        "nothing was given by `--manifest` or `VIVARIUM_MANIFEST`, and no manifest declares this directory in `[[workspaces]]`".to_owned(),
        ExitKind::Config,
    ).with_hint(hint)
}

/// How the manifest was chosen.
pub enum ManifestChoice {
    /// Named explicitly; the caller finds it in the library.
    Named(String),
    /// The one library manifest whose workspaces contain the working directory.
    Owner { name: String, path: String },
}

/// The candidates that claim the directory, each by name and path, in library order. A
/// candidate is a library manifest's name, its path, and whether one of its workspaces contains
/// the working directory.
pub open spec fn claimants(c: Seq<(String, String, bool)>) -> Seq<(String, String)>
    decreases c.len(),
{
    if c.len() == 0 {
        Seq::empty()
    } else {
        let rest = claimants(c.drop_last());
        if c.last().2 {
            rest.push((c.last().0, c.last().1))
        } else {
            rest
        }
    }
}

/// Selects the manifest. An explicit name wins whatever the library says; otherwise two or more
/// claimants are refused as ambiguous (all of them listed, in library order), none is refused as
/// unbound, and the single claimant is the choice.
pub fn resolve_owner(override_name: Option<String>, candidates: &Vec<(String, String, bool)>, config_root: &str, cwd: &str, hint: &str) -> (r: Result<ManifestChoice, Failure>)
    ensures
        override_name matches Some(n) ==> r matches Ok(ManifestChoice::Named(m)) && m@ == n@,
        override_name is None ==> {
            let owners = claimants(candidates@);
            &&& owners.len() == 0 ==> (r matches Err(f) && is_unbound(f, config_root@, hint@))
            &&& owners.len() == 1 ==> (r matches Ok(ManifestChoice::Owner { name, path })
                && name == owners[0].0 && path == owners[0].1)
            &&& owners.len() > 1 ==> (r matches Err(f) && diagnosed_as(f, Namespace::State,
                "workspace-owner-ambiguous"@, "the working directory matches more than one manifest binding"@,
                cwd@, owner_list_text(owner_pairs(owners)) + " both claim the working directory `"@ + cwd@ + "`"@,
                ExitKind::Config, "remove one ownership claim so exactly one manifest declares this tree"@))
        },
{
    if let Some(name) = override_name {
        return Ok(ManifestChoice::Named(name));
    }
    let mut owners: Vec<(String, String)> = Vec::new();
    let mut i: usize = 0;
    while i < candidates.len()
        invariant
            i <= candidates.len(),
            owners@ == claimants(candidates@.subrange(0, i as int)),
        decreases candidates.len() - i,
    {
        assert(candidates@.subrange(0, i + 1).drop_last() =~= candidates@.subrange(0, i as int));
        let (name, path, owns) = &candidates[i];
        if *owns {
            owners.push((name.clone(), path.clone()));
        }
        i = i + 1;
    }
    assert(candidates@.subrange(0, candidates@.len() as int) =~= candidates@);
    if owners.len() > 1 {
        let ambiguous = AmbiguousWorkspaceOwner { cwd: cwd.to_owned(), owners };
        return Err(ambiguous.failure());
    }
    if owners.len() == 0 {
        return Err(unbound(config_root, hint.to_owned()));
    }
    let (name, path) = owners.pop().unwrap();
    Ok(ManifestChoice::Owner { name, path })
}

/// Whether `f` is the refusal a resolving verb turns the finding `w` into.
pub open spec fn refuses_with(f: Failure, w: WorkspaceFinding) -> bool {
    match w {
        WorkspaceFinding::Undeclared(u) => diagnosed_as(f, Namespace::Manifest,
            "workspace-undeclared-directory"@, "the working directory is not declared as a workspace"@,
            u.manifest_path@, undeclared_message(u), ExitKind::Config, undeclared_hint(u)),
        WorkspaceFinding::Defect(d) => diagnostic_is(f, Namespace::Host, defect_id_text(d.kind),
            defect_message_text(d.kind), defect_locus(d.kind), defect_why(d.declared@, d.kind),
            ExitKind::Config, defect_hint_text(d.kind)),
    }
}

/// Whether `f` refuses a working directory that manifest `manifest` at `manifest_path` does
/// not declare.
pub open spec fn refuses_undeclared(f: Failure, manifest: Seq<char>, manifest_path: Seq<char>, cwd: Seq<char>) -> bool {
    diagnosed_as(f, Namespace::Manifest, "workspace-undeclared-directory"@,
        "the working directory is not declared as a workspace"@, manifest_path,
        "manifest `"@ + manifest + "` at `"@ + manifest_path + "` does not declare the working directory `"@
            + cwd + "` in any `[[workspaces]]` block"@, ExitKind::Config,
        "add this exact block to the manifest:\n\n"@ + block_text(cwd))
}

/// Whether `w` is the undeclared-directory finding for this manifest and directory.
pub open spec fn undeclared_for(w: WorkspaceFinding, manifest: Seq<char>, manifest_path: Seq<char>, cwd: Seq<char>) -> bool {
    w matches WorkspaceFinding::Undeclared(u) && u.manifest@ == manifest && u.manifest_path@
        == manifest_path && u.cwd@ == cwd
}

/// What the selected manifest's workspaces say of the working directory: a defect in one of
/// them comes first; otherwise a directory no workspace contains (`matched` is `None`) is
/// undeclared; otherwise there is nothing to report.
pub fn workspace_finding(defect: Option<WorkspaceDefect>, matched: &Option<String>, manifest: &str, manifest_path: &str, cwd: &str) -> (w: Option<WorkspaceFinding>)
    ensures
        defect matches Some(d) ==> w == Some(WorkspaceFinding::Defect(d)),
        defect is None && matched is None ==> (w matches Some(f) && undeclared_for(f, manifest@, manifest_path@, cwd@)),
        defect is None && matched is Some ==> w is None,
{
    match defect {
        Some(d) => Some(WorkspaceFinding::Defect(d)),
        None => match matched {
            None => Some(WorkspaceFinding::Undeclared(UndeclaredWorkspace {
                manifest: manifest.to_owned(),
                manifest_path: manifest_path.to_owned(),
                cwd: cwd.to_owned(),
            })),
            Some(_) => None,
        },
    }
}

/// The refusal a resolving verb owes for the selected manifest's workspaces: none when
/// undeclared directories are allowed (`doctor`); otherwise the defect's, else the undeclared
/// directory's, else none.
pub fn workspace_refusal(defect: Option<WorkspaceDefect>, matched: Option<String>, allow_undeclared: bool, manifest: &str, manifest_path: &str, cwd: &str) -> (r: Option<Failure>)
    ensures
        allow_undeclared ==> r is None,
        !allow_undeclared && defect is Some ==> (r matches Some(f) && refuses_with(f, WorkspaceFinding::Defect(defect->0))),
        !allow_undeclared && defect is None && matched is None ==> (r matches Some(f) && refuses_undeclared(f, manifest@, manifest_path@, cwd@)),
        !allow_undeclared && defect is None && matched is Some ==> r is None,
{
    if allow_undeclared {
        return None;
    }
    match workspace_finding(defect, &matched, manifest, manifest_path, cwd) {
        Some(finding) => Some(finding.failure()),
        None => None,
    }
}

/// The whole rule for the selected manifest, in order: its name must key a sandbox; then its
/// workspaces' finding (a defect before an undeclared directory) is a refusal, unless undeclared
/// directories are allowed, in which case it is handed back for `doctor` to report.
pub fn check_selected(name: &str, path: &str, defect: Option<WorkspaceDefect>, matched: &Option<String>, allow_undeclared: bool, cwd: &str) -> (r: Result<Option<WorkspaceFinding>, Failure>)
    ensures
        encode_utf8(name@).len() > 48 ==> (r matches Err(f) && refuses_name(f, name@, path@)),
        encode_utf8(name@).len() <= 48 ==> {
            &&& defect matches Some(d) ==> if allow_undeclared {
                r == Ok::<Option<WorkspaceFinding>, Failure>(Some(WorkspaceFinding::Defect(d)))
            } else {
                r matches Err(f) && refuses_with(f, WorkspaceFinding::Defect(d))
            }
            &&& defect is None && matched is None ==> if allow_undeclared {
                r matches Ok(Some(w)) && undeclared_for(w, name@, path@, cwd@)
            } else {
                r matches Err(f) && refuses_undeclared(f, name@, path@, cwd@)
            }
            &&& defect is None && matched is Some ==> r == Ok::<Option<WorkspaceFinding>, Failure>(None)
        },
{
    match validate_sandbox_name(name, path) {
        Err(f) => return Err(f),
        Ok(()) => {},
    }
    let finding = workspace_finding(defect, matched, name, path, cwd);
    if allow_undeclared {
        return Ok(finding);
    }
    match finding {
        Some(w) => Err(w.failure()),
        None => Ok(None),
    }
}

} // verus!
