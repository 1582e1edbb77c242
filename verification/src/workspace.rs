//! Resolution's findings about the selected manifest and the working directory: a name too long
//! to key a sandbox, a directory two manifests claim, one no manifest declares, and which
//! declared workspace contains the directory.
use vstd::prelude::*;
use vstd::utf8::encode_utf8;
use crate::exit::ExitKind;
use crate::failure::{diagnosed, diagnostic_is, Failure, Locus, Namespace};
use crate::text::{dec, has_prefix, push_decimal, texts, toml_quoted, toml_string};

verus! {

/// The longest manifest name that may key a sandbox, in bytes.
pub const MAX_SANDBOX_NAME_BYTES: usize = 48;

/// Whether `f` is a diagnosed failure with this identity, text, locus, code and hint.
pub open spec fn diagnosed_as(f: Failure, namespace: Namespace, id: Seq<char>, what: Seq<char>, file: Seq<char>, why: Seq<char>, code: ExitKind, hint: Seq<char>) -> bool {
    match f {
        Failure::Diagnosed { diagnostic: d, code: c } => {
            &&& c == code
            &&& d.namespace == namespace
            &&& d.id@ == id
            &&& d.what@ == what
            &&& (match d.locus {
                Locus::File(p) => p@ == file,
                Locus::Named(_) => false,
            })
            &&& d.why@ == why
            &&& (match d.hint {
                Some(h) => h@ == hint,
                None => false,
            })
        },
        Failure::Usage(_) => false,
    }
}

/// Whether `f` refuses manifest name `name` at `path` as too long to key a sandbox.
pub open spec fn refuses_name(f: Failure, name: Seq<char>, path: Seq<char>) -> bool {
    diagnosed_as(f, Namespace::Manifest, "name-too-long"@,
        "the selected manifest name is too long to key a sandbox"@, path, "manifest name `"@ + name + "` is "@
        + dec(encode_utf8(name).len()) + " bytes; sandbox names may be at most "@ + dec(48) + " bytes"@,
        ExitKind::Config, "rename the manifest to 48 bytes or fewer"@)
}

/// A manifest name keys a sandbox only up to 48 bytes.
pub fn validate_sandbox_name(name: &str, path: &str) -> (r: Result<(), Failure>)
    ensures
        (r is Ok) == (encode_utf8(name@).len() <= 48),
        r matches Err(f) ==> refuses_name(f, name@, path@),
{
    let length = name.as_bytes().len();
    if length <= MAX_SANDBOX_NAME_BYTES {
        return Ok(());
    }
    let mut why = String::new();
    why.append("manifest name `");
    why.append(name);
    why.append("` is ");
    push_decimal(&mut why, length as u64);
    why.append(" bytes; sandbox names may be at most ");
    push_decimal(&mut why, MAX_SANDBOX_NAME_BYTES as u64);
    why.append(" bytes");
    diagnosed(
        Namespace::Manifest,
        "name-too-long",
        "the selected manifest name is too long to key a sandbox".to_owned(),
        Locus::File(path.to_owned()),
        why,
        ExitKind::Config,
    ).with_hint("rename the manifest to 48 bytes or fewer".to_owned()).into_err()
}

/// The second-claimant condition, as a value: the directory, and each manifest claiming it.
pub struct AmbiguousWorkspaceOwner {
    pub cwd: String,
    /// Each claimant's name and path.
    pub owners: Vec<(String, String)>,
}

/// The claimants, each named and located, joined by `and`.
pub open spec fn owner_list_text(owners: Seq<(Seq<char>, Seq<char>)>) -> Seq<char>
    decreases owners.len(),
{
    if owners.len() == 0 {
        Seq::empty()
    } else {
        let one = "`"@ + owners.last().0 + "` ("@ + owners.last().1 + ")"@;
        if owners.len() == 1 {
            one
        } else {
            owner_list_text(owners.drop_last()) + " and "@ + one
        }
    }
}

/// Some pairs of texts by value.
pub open spec fn owner_pairs(v: Seq<(String, String)>) -> Seq<(Seq<char>, Seq<char>)> {
    v.map_values(|p: (String, String)| (p.0@, p.1@))
}

/// What an ambiguous ownership says.
pub open spec fn ambiguity_message(a: AmbiguousWorkspaceOwner) -> Seq<char> {
    owner_list_text(owner_pairs(a.owners@)) + " both claim the working directory `"@ + a.cwd@ + "`"@
}

impl AmbiguousWorkspaceOwner {
    /// The claimants, joined by `and`.
    pub fn owner_list(&self) -> (list: String)
        ensures
            list@ == owner_list_text(owner_pairs(self.owners@)),
    {
        let ghost o = owner_pairs(self.owners@);
        let mut list = String::new();
        let mut i: usize = 0;
        while i < self.owners.len()
            invariant
                i <= self.owners.len(),
                o == owner_pairs(self.owners@),
                list@ == owner_list_text(o.subrange(0, i as int)),
            decreases self.owners.len() - i,
        {
            assert(o.subrange(0, i + 1).drop_last() =~= o.subrange(0, i as int));
            let (name, path) = &self.owners[i];
            if i > 0 {
                list.append(" and ");
            }
            list.append("`");
            list.append(name.as_str());
            list.append("` (");
            list.append(path.as_str());
            list.append(")");
            i = i + 1;
        }
        assert(o.subrange(0, o.len() as int) =~= o);
        list
    }

    /// The condition in one sentence.
    pub fn message(&self) -> (m: String)
        ensures
            m@ == ambiguity_message(*self),
    {
        let mut m = self.owner_list();
        m.append(" both claim the working directory `");
        m.append(self.cwd.as_str());
        m.append("`");
        m
    }

    /// The remedy.
    pub fn hint(&self) -> (h: String)
        ensures
            h@ == "remove one ownership claim so exactly one manifest declares this tree"@,
    {
        "remove one ownership claim so exactly one manifest declares this tree".to_owned()
    }

    /// The refusal every resolving verb turns it into.
    pub fn failure(&self) -> (f: Failure)
        ensures
            diagnosed_as(f, Namespace::State, "workspace-owner-ambiguous"@,
                "the working directory matches more than one manifest binding"@, self.cwd@,
                ambiguity_message(*self), ExitKind::Config,
                "remove one ownership claim so exactly one manifest declares this tree"@),
    {
        diagnosed(
            Namespace::State,
            "workspace-owner-ambiguous",
            "the working directory matches more than one manifest binding".to_owned(),
            Locus::File(self.cwd.clone()),
            self.message(),
            ExitKind::Config,
        ).with_hint(self.hint())
    }
}

/// A working directory no `[[workspaces]]` block of the selected manifest declares.
pub struct UndeclaredWorkspace {
    pub manifest: String,
    pub manifest_path: String,
    pub cwd: String,
}

/// The block that would declare the directory, its path quoted as TOML.
pub open spec fn block_text(cwd: Seq<char>) -> Seq<char> {
    "[[workspaces]]\nsource = "@ + toml_quoted(cwd)
}

/// What an undeclared directory says.
pub open spec fn undeclared_message(u: UndeclaredWorkspace) -> Seq<char> {
    "manifest `"@ + u.manifest@ + "` at `"@ + u.manifest_path@ + "` does not declare the working directory `"@
        + u.cwd@ + "` in any `[[workspaces]]` block"@
}

/// The remedy: the exact block to add.
pub open spec fn undeclared_hint(u: UndeclaredWorkspace) -> Seq<char> {
    "add this exact block to the manifest:\n\n"@ + block_text(u.cwd@)
}

impl UndeclaredWorkspace {
    /// The block that would declare the directory.
    pub fn block(&self) -> (b: String)
        ensures
            b@ == block_text(self.cwd@),
    {
        let source = toml_string(self.cwd.as_str());
        let mut b = String::new();
        b.append("[[workspaces]]\nsource = ");
        b.append(source.as_str());
        b
    }

    /// The condition in one sentence.
    pub fn message(&self) -> (m: String)
        ensures
            m@ == undeclared_message(*self),
    {
        let mut m = String::new();
        m.append("manifest `");
        m.append(self.manifest.as_str());
        m.append("` at `");
        m.append(self.manifest_path.as_str());
        m.append("` does not declare the working directory `");
        m.append(self.cwd.as_str());
        m.append("` in any `[[workspaces]]` block");
        m
    }

    /// The remedy.
    pub fn hint(&self) -> (h: String)
        ensures
            h@ == undeclared_hint(*self),
    {
        let mut h = String::new();
        h.append("add this exact block to the manifest:\n\n");
        let b = self.block();
        h.append(b.as_str());
        h
    }

    /// The refusal every resolving verb turns it into.
    pub fn failure(&self) -> (f: Failure)
        ensures
            diagnosed_as(f, Namespace::Manifest, "workspace-undeclared-directory"@,
                "the working directory is not declared as a workspace"@, self.manifest_path@,
                undeclared_message(*self), ExitKind::Config, undeclared_hint(*self)),
    {
        diagnosed(
            Namespace::Manifest,
            "workspace-undeclared-directory",
            "the working directory is not declared as a workspace".to_owned(),
            Locus::File(self.manifest_path.clone()),
            self.message(),
            ExitKind::Config,
        ).with_hint(self.hint())
    }
}

/// Why a declared workspace cannot be resolved. Paths are as expanded on this host.
pub enum WorkspaceDefectKind {
    UnsetVariable { variable: String },
    NotAbsolute { expanded: String },
    Missing { expanded: String },
    Unreadable { expanded: String, error: String },
    NotDirectory { expanded: String },
    /// A path the guest owns, so the workspace cannot be mirrored at it; `reason` says which.
    GuestOwned { expanded: String, reason: String },
    /// Two declared workspaces that are equal or nested.
    Nested { left: String, right: String },
}

/// A declared workspace that cannot be resolved, with the source as the user spelled it.
pub struct WorkspaceDefect {
    pub declared: String,
    pub kind: WorkspaceDefectKind,
}

pub open spec fn defect_id_text(kind: WorkspaceDefectKind) -> Seq<char> {
    match kind {
        WorkspaceDefectKind::UnsetVariable { .. } => "workspace-source-unset-variable"@,
        WorkspaceDefectKind::NotAbsolute { .. } => "workspace-source-not-absolute"@,
        WorkspaceDefectKind::Missing { .. } => "workspace-source-missing"@,
        WorkspaceDefectKind::Unreadable { .. } => "workspace-source-unreadable"@,
        WorkspaceDefectKind::NotDirectory { .. } => "workspace-source-not-directory"@,
        WorkspaceDefectKind::GuestOwned { .. } => "workspace-path-unmirrorable"@,
        WorkspaceDefectKind::Nested { .. } => "workspace-paths-overlap"@,
    }
}

/// The published id of a workspace defect.
pub fn defect_id(kind: &WorkspaceDefectKind) -> (id: &'static str)
    ensures
        id@ == defect_id_text(*kind),
{
    match kind {
        WorkspaceDefectKind::UnsetVariable { .. } => "workspace-source-unset-variable",
        WorkspaceDefectKind::NotAbsolute { .. } => "workspace-source-not-absolute",
        WorkspaceDefectKind::Missing { .. } => "workspace-source-missing",
        WorkspaceDefectKind::Unreadable { .. } => "workspace-source-unreadable",
        WorkspaceDefectKind::NotDirectory { .. } => "workspace-source-not-directory",
        WorkspaceDefectKind::GuestOwned { .. } => "workspace-path-unmirrorable",
        WorkspaceDefectKind::Nested { .. } => "workspace-paths-overlap",
    }
}

pub open spec fn defect_message_text(kind: WorkspaceDefectKind) -> Seq<char> {
    match kind {
        WorkspaceDefectKind::UnsetVariable { variable } => "a declared workspace names `${"@ + variable@
            + "}`, which this host does not set"@,
        WorkspaceDefectKind::NotAbsolute { .. } => "a declared workspace does not expand to an absolute path"@,
        WorkspaceDefectKind::Missing { .. } => "a declared workspace does not exist on this host"@,
        WorkspaceDefectKind::Unreadable { .. } => "a declared workspace cannot be read on this host"@,
        WorkspaceDefectKind::NotDirectory { .. } => "a declared workspace is not a directory"@,
        WorkspaceDefectKind::GuestOwned { .. } => "a declared workspace cannot be mounted inside the guest at its host path"@,
        WorkspaceDefectKind::Nested { .. } => "two declared workspaces overlap"@,
    }
}

/// What a workspace defect says.
pub fn defect_message(defect: &WorkspaceDefect) -> (m: String)
    ensures
        m@ == defect_message_text(defect.kind),
{
    match &defect.kind {
        WorkspaceDefectKind::UnsetVariable { variable } => {
            let mut m = String::new();
            m.append("a declared workspace names `${");
            m.append(variable.as_str());
            m.append("}`, which this host does not set");
            m
        },
        WorkspaceDefectKind::NotAbsolute { .. } => "a declared workspace does not expand to an absolute path".to_owned(),
        WorkspaceDefectKind::Missing { .. } => "a declared workspace does not exist on this host".to_owned(),
        WorkspaceDefectKind::Unreadable { .. } => "a declared workspace cannot be read on this host".to_owned(),
        WorkspaceDefectKind::NotDirectory { .. } => "a declared workspace is not a directory".to_owned(),
        WorkspaceDefectKind::GuestOwned { .. } => "a declared workspace cannot be mounted inside the guest at its host path".to_owned(),
        WorkspaceDefectKind::Nested { .. } => "two declared workspaces overlap".to_owned(),
    }
}

pub open spec fn defect_hint_text(kind: WorkspaceDefectKind) -> Seq<char> {
    match kind {
        WorkspaceDefectKind::UnsetVariable { variable } => "set `"@ + variable@
            + "`, or write the path out in full in `[[workspaces]]`"@,
        WorkspaceDefectKind::NotAbsolute { .. } | WorkspaceDefectKind::Missing { .. }
        | WorkspaceDefectKind::Unreadable { .. } => "`[[workspaces]] source` names one existing tree by its absolute path"@,
        WorkspaceDefectKind::NotDirectory { .. } => "declare a directory in `[[workspaces]] source`; a single file is a `[[mounts]]` row"@,
        WorkspaceDefectKind::GuestOwned { .. } => "move the workspace under a path the guest does not own, such as your home"@,
        WorkspaceDefectKind::Nested { .. } => "declare disjoint workspace trees"@,
    }
}

/// The remedy for a workspace defect.
pub fn defect_hint(defect: &WorkspaceDefect) -> (h: String)
    ensures
        h@ == defect_hint_text(defect.kind),
{
    match &defect.kind {
        WorkspaceDefectKind::UnsetVariable { variable } => {
            let mut h = String::new();
            h.append("set `");
            h.append(variable.as_str());
            h.append("`, or write the path out in full in `[[workspaces]]`");
            h
        },
        WorkspaceDefectKind::NotAbsolute { .. } | WorkspaceDefectKind::Missing { .. }
        | WorkspaceDefectKind::Unreadable { .. } => "`[[workspaces]] source` names one existing tree by its absolute path".to_owned(),
        WorkspaceDefectKind::NotDirectory { .. } => "declare a directory in `[[workspaces]] source`; a single file is a `[[mounts]]` row".to_owned(),
        WorkspaceDefectKind::GuestOwned { .. } => "move the workspace under a path the guest does not own, such as your home".to_owned(),
        WorkspaceDefectKind::Nested { .. } => "declare disjoint workspace trees".to_owned(),
    }
}

/// Where a workspace defect is located: the declared block, or the offending path.
pub open spec fn defect_locus(kind: WorkspaceDefectKind) -> (bool, Seq<char>) {
    match kind {
        WorkspaceDefectKind::UnsetVariable { .. } => (true, "declared workspaces"@),
        WorkspaceDefectKind::NotAbsolute { expanded } => (false, expanded@),
        WorkspaceDefectKind::Missing { expanded } => (false, expanded@),
        WorkspaceDefectKind::Unreadable { expanded, .. } => (false, expanded@),
        WorkspaceDefectKind::NotDirectory { expanded } => (false, expanded@),
        WorkspaceDefectKind::GuestOwned { expanded, .. } => (false, expanded@),
        WorkspaceDefectKind::Nested { left, .. } => (false, left@),
    }
}

/// Why, read against the declared spelling.
pub open spec fn defect_why(declared: Seq<char>, kind: WorkspaceDefectKind) -> Seq<char> {
    match kind {
        WorkspaceDefectKind::UnsetVariable { variable } => "`"@ + declared + "` cannot resolve while `"@ + variable@
            + "` is unset (ADR-0020)"@,
        WorkspaceDefectKind::NotAbsolute { expanded } => "`"@ + declared + "` expanded to `"@ + expanded@ + "`"@,
        WorkspaceDefectKind::Missing { expanded } => "`"@ + declared + "` expanded to `"@ + expanded@ + "`, which is missing"@,
        WorkspaceDefectKind::Unreadable { expanded, error } => "`"@ + declared + "` expanded to `"@ + expanded@
            + "`, which could not be read: "@ + error@,
        WorkspaceDefectKind::NotDirectory { expanded } => "`"@ + declared + "` expanded to `"@ + expanded@
            + "`, which is not a directory"@,
        WorkspaceDefectKind::GuestOwned { reason, .. } => reason@,
        WorkspaceDefectKind::Nested { left, right } => "`"@ + left@ + "` and `"@ + right@ + "` are equal or nested"@,
    }
}

fn locus_of(kind: &WorkspaceDefectKind) -> (l: Locus)
    ensures
        match l {
            Locus::Named(n) => defect_locus(*kind).0 && n@ == defect_locus(*kind).1,
            Locus::File(p) => !defect_locus(*kind).0 && p@ == defect_locus(*kind).1,
        },
{
    match kind {
        WorkspaceDefectKind::UnsetVariable { .. } => Locus::Named("declared workspaces".to_owned()),
        WorkspaceDefectKind::NotAbsolute { expanded } => Locus::File(expanded.clone()),
        WorkspaceDefectKind::Missing { expanded } => Locus::File(expanded.clone()),
        WorkspaceDefectKind::Unreadable { expanded, .. } => Locus::File(expanded.clone()),
        WorkspaceDefectKind::NotDirectory { expanded } => Locus::File(expanded.clone()),
        WorkspaceDefectKind::GuestOwned { expanded, .. } => Locus::File(expanded.clone()),
        WorkspaceDefectKind::Nested { left, .. } => Locus::File(left.clone()),
    }
}

fn quoted_expansion(declared: &str, expanded: &String, tail: &str) -> (why: String)
    ensures
        why@ == "`"@ + declared@ + "` expanded to `"@ + expanded@ + tail@,
{
    let mut why = String::new();
    why.append("`");
    why.append(declared);
    why.append("` expanded to `");
    why.append(expanded.as_str());
    why.append(tail);
    why
}

fn why_of(declared: &str, kind: &WorkspaceDefectKind) -> (why: String)
    ensures
        why@ == defect_why(declared@, *kind),
{
    match kind {
        WorkspaceDefectKind::UnsetVariable { variable } => {
            let mut why = String::new();
            why.append("`");
            why.append(declared);
            why.append("` cannot resolve while `");
            why.append(variable.as_str());
            why.append("` is unset (ADR-0020)");
            why
        },
        WorkspaceDefectKind::NotAbsolute { expanded } => quoted_expansion(declared, expanded, "`"),
        WorkspaceDefectKind::Missing { expanded } => quoted_expansion(declared, expanded, "`, which is missing"),
        WorkspaceDefectKind::Unreadable { expanded, error } => {
            let mut why = quoted_expansion(declared, expanded, "`, which could not be read: ");
            why.append(error.as_str());
            why
        },
        WorkspaceDefectKind::NotDirectory { expanded } => quoted_expansion(declared, expanded, "`, which is not a directory"),
        WorkspaceDefectKind::GuestOwned { reason, .. } => reason.clone(),
        WorkspaceDefectKind::Nested { left, right } => {
            let mut why = String::new();
            why.append("`");
            why.append(left.as_str());
            why.append("` and `");
            why.append(right.as_str());
            why.append("` are equal or nested");
            why
        },
    }
}

/// The refusal of an unresolvable declared workspace: `78`, with its id, message, and remedy.
pub fn workspace_defect_failure(defect: &WorkspaceDefect) -> (f: Failure)
    ensures
        diagnostic_is(f, Namespace::Host, defect_id_text(defect.kind), defect_message_text(defect.kind),
            defect_locus(defect.kind), defect_why(defect.declared@, defect.kind), ExitKind::Config,
            defect_hint_text(defect.kind)),
{
    diagnosed(
        Namespace::Host,
        defect_id(&defect.kind),
        defect_message(defect),
        locus_of(&defect.kind),
        why_of(defect.declared.as_str(), &defect.kind),
        ExitKind::Config,
    ).with_hint(defect_hint(defect))
}

/// A workspace finding a resolving verb refuses on and `doctor` reports: a directory no
/// workspace declares, or a declared workspace that cannot be resolved.
pub enum WorkspaceFinding {
    Undeclared(UndeclaredWorkspace),
    Defect(WorkspaceDefect),
}

impl WorkspaceFinding {
    /// The finding in one sentence.
    pub fn message(&self) -> (m: String)
        ensures
            m@ == match *self {
                WorkspaceFinding::Undeclared(u) => undeclared_message(u),
                WorkspaceFinding::Defect(d) => defect_message_text(d.kind),
            },
    {
        match self {
            WorkspaceFinding::Undeclared(finding) => finding.message(),
            WorkspaceFinding::Defect(defect) => defect_message(defect),
        }
    }

    /// The finding's remedy.
    pub fn hint(&self) -> (h: String)
        ensures
            h@ == match *self {
                WorkspaceFinding::Undeclared(u) => undeclared_hint(u),
                WorkspaceFinding::Defect(d) => defect_hint_text(d.kind),
            },
    {
        match self {
            WorkspaceFinding::Undeclared(finding) => finding.hint(),
            WorkspaceFinding::Defect(defect) => defect_hint(defect),
        }
    }

    /// The refusal a resolving verb turns the finding into.
    pub fn failure(&self) -> (f: Failure)
        ensures
            match *self {
                WorkspaceFinding::Undeclared(u) => diagnosed_as(f, Namespace::Manifest,
                    "workspace-undeclared-directory"@, "the working directory is not declared as a workspace"@,
                    u.manifest_path@, undeclared_message(u), ExitKind::Config, undeclared_hint(u)),
                WorkspaceFinding::Defect(d) => diagnostic_is(f, Namespace::Host, defect_id_text(d.kind),
                    defect_message_text(d.kind), defect_locus(d.kind), defect_why(d.declared@, d.kind),
                    ExitKind::Config, defect_hint_text(d.kind)),
            },
    {
        match self {
            WorkspaceFinding::Undeclared(finding) => finding.failure(),
            WorkspaceFinding::Defect(defect) => workspace_defect_failure(defect),
        }
    }
}

/// Whether `p` is `base` or lies beneath it, component by component.
pub open spec fn within(p: Seq<char>, base: Seq<char>) -> bool {
    ||| p == base
    ||| has_prefix(p, base + seq!['/'])
    ||| base.len() > 0 && base.last() == '/' && has_prefix(p, base)
}

/// How many components a path has: the root, and each nonempty segment.
pub open spec fn depth(p: Seq<char>) -> nat
    decreases p.len(),
{
    if p.len() == 0 {
        0
    } else {
        let rest = depth(p.drop_last());
        let starts_segment = p.last() != '/' && (p.len() == 1 || p[p.len() - 2] == '/');
        let is_root = p.len() == 1 && p[0] == '/';
        rest + if starts_segment || is_root { 1nat } else { 0nat }
    }
}

/// The deepest declared workspace containing `cwd`, the last one among equals.
pub open spec fn containing_from(cwd: Seq<char>, ws: Seq<Seq<char>>, n: int) -> Option<Seq<char>>
    decreases n,
{
    if n <= 0 || n > ws.len() {
        None
    } else {
        let best = containing_from(cwd, ws, n - 1);
        let w = ws[n - 1];
        if within(cwd, w) && (match best {
            Some(b) => depth(w) >= depth(b),
            None => true,
        }) {
            Some(w)
        } else {
            best
        }
    }
}

fn is_within(p: &str, base: &str) -> (r: bool)
    ensures
        r == within(p@, base@),
{
    let n = p.unicode_len();
    let m = base.unicode_len();
    if m > n {
        proof {
            assert(p@ != base@);
        }
        return false;
    }
    let mut i: usize = 0;
    while i < m
        invariant
            i <= m <= n,
            n == p@.len(),
            m == base@.len(),
            forall|j: int| 0 <= j < i ==> p@[j] == base@[j],
        decreases m - i,
    {
        if p.get_char(i) != base.get_char(i) {
            proof {
                assert(p@[i as int] != base@[i as int]);
                assert(p@.subrange(0, m as int)[i as int] == p@[i as int]);
                assert(p@ != base@);
                if m + 1 <= n {
                    assert(p@.subrange(0, m as int + 1)[i as int] == p@[i as int]);
                    assert((base@ + seq!['/'])[i as int] == base@[i as int]);
                }
            }
            return false;
        }
        i = i + 1;
    }
    assert(p@.subrange(0, m as int) =~= base@);
    if m == n {
        assert(p@ =~= base@);
        return true;
    }
    if m > 0 && base.get_char(m - 1) == '/' {
        return true;
    }
    let next = p.get_char(m);
    proof {
        if next == '/' {
            assert(p@.subrange(0, m as int + 1) =~= base@ + seq!['/']);
        } else {
            assert(p@.subrange(0, m as int + 1)[m as int] != (base@ + seq!['/'])[m as int]);
        }
    }
    next == '/'
}

fn depth_of(p: &str) -> (d: u64)
    ensures
        d == depth(p@),
{
    let n = p.unicode_len();
    let mut d: u64 = 0;
    let mut i: usize = 0;
    let mut previous: char = '/';
    while i < n
        invariant
            i <= n,
            n == p@.len(),
            d == depth(p@.subrange(0, i as int)),
            d <= i,
            i > 0 ==> previous == p@[i - 1],
        decreases n - i,
    {
        let c = p.get_char(i);
        assert(p@.subrange(0, i + 1).drop_last() =~= p@.subrange(0, i as int));
        let starts = c != '/' && (i == 0 || previous == '/');
        let root = i == 0 && c == '/';
        if starts || root {
            d = d + 1;
        }
        previous = c;
        i = i + 1;
    }
    assert(p@.subrange(0, n as int) =~= p@);
    d
}

/// The deepest declared workspace that contains `cwd`.
pub fn containing_workspace(cwd: &str, workspaces: &Vec<String>) -> (found: Option<String>)
    ensures
        match found {
            Some(w) => containing_from(cwd@, texts(workspaces@), workspaces@.len() as int) == Some(w@),
            None => containing_from(cwd@, texts(workspaces@), workspaces@.len() as int) is None,
        },
{
    let ghost ws = texts(workspaces@);
    let mut best: Option<usize> = None;
    let mut best_depth: u64 = 0;
    let mut i: usize = 0;
    while i < workspaces.len()
        invariant
            i <= workspaces.len(),
            ws == texts(workspaces@),
            match best {
                Some(k) => k < i && containing_from(cwd@, ws, i as int) == Some(ws[k as int]) && best_depth == depth(ws[k as int]),
                None => containing_from(cwd@, ws, i as int) is None,
            },
        decreases workspaces.len() - i,
    {
        let w = workspaces[i].as_str();
        assert(ws[i as int] == w@);
        if is_within(cwd, w) {
            let d = depth_of(w);
            let replace = match best {
                Some(_) => d >= best_depth,
                None => true,
            };
            if replace {
                best = Some(i);
                best_depth = d;
            }
        }
        i = i + 1;
    }
    match best {
        Some(k) => Some(workspaces[k].clone()),
        None => None,
    }
}

} // verus!
