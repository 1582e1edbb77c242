//! `viv destroy`: the removal plan it executes (what goes, what stays, and the carve-out
//! `--keep-volumes` makes inside the project's state), and the teardown itself as decisions, in
//! its fixed order: the VM comes down before anything is unlinked, the runtime directory is
//! cleared last and keeps its lock, and the identity is forgotten once the lock is released.
use vstd::prelude::*;
use crate::paths::{join, join_path, XdgRoots};
use crate::pathsort::{path_order, sort_paths};
use crate::text::{has_prefix, texts};
use crate::exit::ExitKind;
use crate::failure::{diagnosed, Failure, Locus, Namespace, Success};
use crate::lifecycle::{same_text, State};
use crate::stop::TeardownReading;
use crate::sweep::{sweep_acts_on, sweep_acts_on_spec};

verus! {

/// One destroy's plan, as authored.
pub struct Plan {
    /// Paths removed outright.
    pub remove: Vec<String>,
    /// Directories whose entries are removed, except the one named.
    pub keep_within: Vec<(String, String)>,
    /// Paths the plan never touches, reported beside what it removed.
    pub spared: Vec<String>,
}

/// A project's state subtree.
pub open spec fn project_state(roots: XdgRoots, id: Seq<char>) -> Seq<char> {
    join(join(roots.state@, "projects"@), id)
}

/// A project target's state.
pub open spec fn target_state(roots: XdgRoots, id: Seq<char>) -> Seq<char> {
    join(project_state(roots, id), "default"@)
}

/// A project target's data directory, where its pinned lock lives.
pub open spec fn data_target(roots: XdgRoots, id: Seq<char>) -> Seq<char> {
    join(join(join(roots.data@, "projects"@), id), "default"@)
}

/// What a plan removes outright.
pub open spec fn removed_paths(roots: XdgRoots, id: Seq<char>, keep_volumes: bool) -> Seq<Seq<char>> {
    let builds = seq![join(data_target(roots, id), "last-build"@), join(data_target(roots, id), "running-build"@)];
    if keep_volumes {
        builds
    } else {
        builds.push(project_state(roots, id))
    }
}

/// The directories a plan prunes around a kept entry.
pub open spec fn pruned_dirs(roots: XdgRoots, id: Seq<char>, keep_volumes: bool) -> Seq<(Seq<char>, Seq<char>)> {
    if keep_volumes {
        seq![(target_state(roots, id), "volumes"@), (project_state(roots, id), "default"@)]
    } else {
        Seq::empty()
    }
}

/// What a plan spares: the pinned lock, the generated tree's cache, the binding registry, and
/// under `--keep-volumes` the volume images.
pub open spec fn spared_paths(roots: XdgRoots, id: Seq<char>, keep_volumes: bool) -> Seq<Seq<char>> {
    let always = seq![
        join(data_target(roots, id), "flake.lock"@),
        join(join(roots.cache@, "flakes"@), id),
        join(roots.state@, "registry.toml"@),
    ];
    if keep_volumes {
        always.push(join(target_state(roots, id), "volumes"@))
    } else {
        always
    }
}

/// Some pairs of texts by value.
pub open spec fn text_pairs(v: Seq<(String, String)>) -> Seq<(Seq<char>, Seq<char>)> {
    v.map_values(|p: (String, String)| (p.0@, p.1@))
}

impl Plan {
    /// The plan for one project.
    pub fn new(roots: &XdgRoots, project_id: &str, keep_volumes: bool) -> (plan: Plan)
        ensures
            texts(plan.remove@) == removed_paths(*roots, project_id@, keep_volumes),
            text_pairs(plan.keep_within@) == pruned_dirs(*roots, project_id@, keep_volumes),
            texts(plan.spared@) == spared_paths(*roots, project_id@, keep_volumes),
    {
        let projects = join_path(roots.state.as_str(), "projects");
        let project_state = join_path(projects.as_str(), project_id);
        let target_state = join_path(project_state.as_str(), "default");
        let data_projects = join_path(roots.data.as_str(), "projects");
        let data_project = join_path(data_projects.as_str(), project_id);
        let data_target = join_path(data_project.as_str(), "default");

        let mut remove: Vec<String> = Vec::new();
        remove.push(join_path(data_target.as_str(), "last-build"));
        remove.push(join_path(data_target.as_str(), "running-build"));
        let mut keep_within: Vec<(String, String)> = Vec::new();
        let volumes = join_path(target_state.as_str(), "volumes");
        if keep_volumes {
            keep_within.push((target_state, "volumes".to_owned()));
            keep_within.push((project_state, "default".to_owned()));
        } else {
            remove.push(project_state);
        }
        let mut spared: Vec<String> = Vec::new();
        spared.push(join_path(data_target.as_str(), "flake.lock"));
        let flakes = join_path(roots.cache.as_str(), "flakes");
        spared.push(join_path(flakes.as_str(), project_id));
        spared.push(join_path(roots.state.as_str(), "registry.toml"));
        if keep_volumes {
            spared.push(volumes);
        }
        assert(texts(remove@) =~= removed_paths(*roots, project_id@, keep_volumes));
        assert(text_pairs(keep_within@) =~= pruned_dirs(*roots, project_id@, keep_volumes));
        assert(texts(spared@) =~= spared_paths(*roots, project_id@, keep_volumes));
        Plan { remove, keep_within, spared }
    }

    /// What the prompt shows: the plan as authored rather than as expanded.
    pub fn scope(&self) -> (lines: Vec<String>)
        ensures
            texts(lines@) == texts(self.remove@) + text_pairs(self.keep_within@).map_values(
                |p: (Seq<char>, Seq<char>)| p.0 + " (except "@ + p.1 + ")"@,
            ),
    {
        let mut lines: Vec<String> = Vec::new();
        let mut i: usize = 0;
        while i < self.remove.len()
            invariant
                i <= self.remove.len(),
                texts(lines@) == texts(self.remove@.subrange(0, i as int)),
            decreases self.remove.len() - i,
        {
            let ghost before = lines@;
            let copy = self.remove[i].clone();
            lines.push(copy);
            assert(texts(lines@) =~= texts(before).push(self.remove@[i as int]@));
            assert(texts(lines@) =~= texts(self.remove@.subrange(0, i + 1)));
            i = i + 1;
        }
        assert(self.remove@.subrange(0, self.remove@.len() as int) =~= self.remove@);
        let ghost head = texts(lines@);
        let ghost shown = text_pairs(self.keep_within@).map_values(
            |p: (Seq<char>, Seq<char>)| p.0 + " (except "@ + p.1 + ")"@,
        );
        let mut j: usize = 0;
        while j < self.keep_within.len()
            invariant
                j <= self.keep_within.len(),
                head == texts(self.remove@),
                shown == text_pairs(self.keep_within@).map_values(
                    |p: (Seq<char>, Seq<char>)| p.0 + " (except "@ + p.1 + ")"@,
                ),
                texts(lines@) == head + shown.subrange(0, j as int),
            decreases self.keep_within.len() - j,
        {
            let (directory, keep) = &self.keep_within[j];
            let mut line = directory.clone();
            line.append(" (except ");
            line.append(keep.as_str());
            line.append(")");
            let ghost before = lines@;
            lines.push(line);
            assert(texts(lines@) =~= texts(before).push(line@));
            assert(shown.subrange(0, j + 1) =~= shown.subrange(0, j as int).push(shown[j as int]));
            j = j + 1;
        }
        assert(shown.subrange(0, shown.len() as int) =~= shown);
        lines
    }
}


/// The paths an entry listing of `dir` adds: every entry but `keep`, in listed order.
pub open spec fn entry_paths(dir: Seq<char>, keep: Seq<char>, names: Seq<Seq<char>>) -> Seq<Seq<char>>
    decreases names.len(),
{
    if names.len() == 0 {
        Seq::empty()
    } else {
        let rest = entry_paths(dir, keep, names.drop_last());
        if names.last() == keep {
            rest
        } else {
            rest.push(join(dir, names.last()))
        }
    }
}

/// The paths the listings of the first `n` pruned directories add; a directory with no listing
/// adds nothing, which is the idempotent case of one that is already gone.
pub open spec fn expanded(dirs: Seq<(Seq<char>, Seq<char>)>, found: Seq<Seq<Seq<char>>>, n: int) -> Seq<Seq<char>>
    decreases n,
{
    if n <= 0 || n > dirs.len() {
        Seq::empty()
    } else {
        let names = if n - 1 < found.len() {
            found[n - 1]
        } else {
            Seq::empty()
        };
        expanded(dirs, found, n - 1) + entry_paths(dirs[n - 1].0, dirs[n - 1].1, names)
    }
}

/// Every path a plan removes, given what the pruned directories were found to hold.
pub open spec fn removal_set(roots: XdgRoots, id: Seq<char>, keep_volumes: bool, found: Seq<Seq<Seq<char>>>) -> Seq<Seq<char>> {
    let dirs = pruned_dirs(roots, id, keep_volumes);
    removed_paths(roots, id, keep_volumes) + expanded(dirs, found, dirs.len() as int)
}

impl Plan {
    /// Every path this plan removes, in path order: what it names outright, and every entry of
    /// a pruned directory but the one it keeps. `found[i]` lists the entries of the `i`-th pruned
    /// directory; a directory that is not there lists nothing.
    pub fn removals(&self, found: &Vec<Vec<String>>) -> (paths: Vec<String>)
        ensures
            texts(paths@) == (texts(self.remove@) + expanded(text_pairs(self.keep_within@), found@.map_values(|v: Vec<String>| texts(v@)), self.keep_within@.len() as int)).sort_by(path_order()),
    {
        let unsorted = self.expand(found);
        sort_paths(&unsorted)
    }
}

impl Plan {
    /// Every path this plan removes, with the carve-outs expanded from what the pruned directories
    /// hold: `found[i]` lists the entries of the `i`-th pruned directory.
    pub fn expand(&self, found: &Vec<Vec<String>>) -> (paths: Vec<String>)
        ensures
            texts(paths@) == texts(self.remove@) + expanded(text_pairs(self.keep_within@), found@.map_values(|v: Vec<String>| texts(v@)), self.keep_within@.len() as int),
    {
        let ghost dirs = text_pairs(self.keep_within@);
        let ghost listings = found@.map_values(|v: Vec<String>| texts(v@));
        let mut paths: Vec<String> = Vec::new();
        let mut i: usize = 0;
        while i < self.remove.len()
            invariant
                i <= self.remove.len(),
                texts(paths@) == texts(self.remove@.subrange(0, i as int)),
            decreases self.remove.len() - i,
        {
            let ghost before = paths@;
            let copy = self.remove[i].clone();
            paths.push(copy);
            assert(texts(paths@) =~= texts(before).push(self.remove@[i as int]@));
            assert(texts(paths@) =~= texts(self.remove@.subrange(0, i + 1)));
            i = i + 1;
        }
        assert(self.remove@.subrange(0, self.remove@.len() as int) =~= self.remove@);
        let mut d: usize = 0;
        while d < self.keep_within.len()
            invariant
                d <= self.keep_within.len(),
                dirs == text_pairs(self.keep_within@),
                listings == found@.map_values(|v: Vec<String>| texts(v@)),
                texts(paths@) == texts(self.remove@) + expanded(dirs, listings, d as int),
            decreases self.keep_within.len() - d,
        {
            let (directory, keep) = &self.keep_within[d];
            assert(dirs[d as int] == (directory@, keep@));
            let ghost start = texts(paths@);
            let ghost names: Seq<Seq<char>> = if d < found.len() {
                listings[d as int]
            } else {
                Seq::empty()
            };
            if d < found.len() {
                let entries = &found[d];
                assert(names == texts(entries@));
                let mut j: usize = 0;
                while j < entries.len()
                    invariant
                        j <= entries.len(),
                        names == texts(entries@),
                        texts(paths@) == start + entry_paths(directory@, keep@, names.subrange(0, j as int)),
                    decreases entries.len() - j,
                {
                    assert(names.subrange(0, j + 1).drop_last() =~= names.subrange(0, j as int));
                    assert(names[j as int] == entries@[j as int]@);
                    if !(entries[j] == *keep) {
                        let path = join_path(directory.as_str(), entries[j].as_str());
                        let ghost before = paths@;
                        paths.push(path);
                        assert(texts(paths@) =~= texts(before).push(path@));
                    }
                    j = j + 1;
                }
                assert(names.subrange(0, names.len() as int) =~= names);
            } else {
                assert(entry_paths(directory@, keep@, names) =~= Seq::<Seq<char>>::empty());
            }
            assert(texts(paths@) =~= texts(self.remove@) + expanded(dirs, listings, d + 1));
            d = d + 1;
        }
        paths
    }
}


/// Whether `p` is `r` or lies beneath it, component-wise.
pub open spec fn under(p: Seq<char>, r: Seq<char>) -> bool {
    p == r || has_prefix(p, r + seq!['/'])
}

/// One path component: nonempty, without a separator.
pub open spec fn component(c: Seq<char>) -> bool {
    c.len() > 0 && forall|i: int| 0 <= i < c.len() ==> c[i] != '/'
}

/// A root path: nonempty, without a trailing separator.
pub open spec fn root_path(r: Seq<char>) -> bool {
    r.len() > 0 && r.last() != '/'
}

/// Two paths neither of which lies beneath the other.
pub open spec fn apart(a: Seq<char>, b: Seq<char>) -> bool {
    !under(a, b) && !under(b, a)
}

proof fn lemma_under_agrees(p: Seq<char>, r: Seq<char>)
    requires
        under(p, r),
    ensures
        r.len() <= p.len(),
        forall|k: int| 0 <= k < r.len() ==> p[k] == r[k],
        r.len() < p.len() ==> p[r.len() as int] == '/',
{
    if p != r {
        let q = r + seq!['/'];
        assert(p.subrange(0, q.len() as int) == q);
        assert forall|k: int| 0 <= k < r.len() implies p[k] == r[k] by {
            assert(p.subrange(0, q.len() as int)[k] == q[k]);
        }
        assert(p.subrange(0, q.len() as int)[r.len() as int] == q[r.len() as int]);
    }
}

proof fn lemma_agrees_under(p: Seq<char>, r: Seq<char>)
    requires
        r.len() < p.len(),
        forall|k: int| 0 <= k < r.len() ==> p[k] == r[k],
        p[r.len() as int] == '/',
    ensures
        under(p, r),
{
    assert(p.subrange(0, r.len() as int + 1) =~= r + seq!['/']);
}

/// Joining a root with a component puts one separator between them.
proof fn lemma_join_root(a: Seq<char>, c: Seq<char>)
    requires
        root_path(a),
        component(c),
    ensures
        join(a, c) == a + seq!['/'] + c,
        root_path(join(a, c)),
{
    assert(c[0] != '/');
}

/// Nothing beneath one of two apart roots lies beneath the other.
proof fn lemma_apart_extensions(a: Seq<char>, x: Seq<char>, b: Seq<char>, y: Seq<char>)
    requires
        apart(a, b),
    ensures
        !under(a + seq!['/'] + x, b + seq!['/'] + y),
{
    let p = a + seq!['/'] + x;
    let r = b + seq!['/'] + y;
    if under(p, r) {
        lemma_under_agrees(p, r);
        if a.len() == b.len() {
            assert(a =~= b) by {
                assert forall|k: int| 0 <= k < a.len() implies a[k] == b[k] by {
                    assert(p[k] == r[k]);
                }
            }
        } else if a.len() < b.len() {
            assert(r[a.len() as int] == p[a.len() as int]);
            assert forall|k: int| 0 <= k < a.len() implies b[k] == a[k] by {
                assert(p[k] == r[k]);
            }
            lemma_agrees_under(b, a);
        } else {
            assert(p[b.len() as int] == r[b.len() as int]);
            assert forall|k: int| 0 <= k < b.len() implies a[k] == b[k] by {
                assert(p[k] == r[k]);
            }
            lemma_agrees_under(a, b);
        }
    }
}

/// Two different components under one parent lead to paths neither beneath the other, whatever
/// follows each of them.
proof fn lemma_siblings(base: Seq<char>, c1: Seq<char>, t1: Seq<char>, c2: Seq<char>, t2: Seq<char>)
    requires
        component(c1),
        component(c2),
        c1 != c2,
        t1.len() == 0 || t1[0] == '/',
        t2.len() == 0 || t2[0] == '/',
    ensures
        !under(base + seq!['/'] + c1 + t1, base + seq!['/'] + c2 + t2),
{
    let p = base + seq!['/'] + c1 + t1;
    let r = base + seq!['/'] + c2 + t2;
    let n: int = base.len() as int + 1;
    if under(p, r) {
        lemma_under_agrees(p, r);
        if c1.len() == c2.len() {
            assert(c1 =~= c2) by {
                assert forall|k: int| 0 <= k < c1.len() implies c1[k] == c2[k] by {
                    assert(p[n + k] == r[n + k]);
                }
            }
        } else if c2.len() < c1.len() {
            let m: int = n + c2.len();
            assert(p[m] == c1[c2.len() as int]);
            if t2.len() > 0 {
                assert(r[m] == '/');
                assert(p[m] == r[m]);
            } else {
                assert(r.len() == m);
                assert(p[m] == '/');
            }
        } else {
            let m: int = n + c1.len();
            assert(r[m] == c2[c1.len() as int]);
            if t1.len() > 0 {
                assert(p[m] == '/');
                assert(p[m] == r[m]);
            } else {
                assert(p.len() == m);
            }
        }
    }
}

/// The paths beneath `dir` that a listing adds are each `dir` joined with a listed entry other
/// than `keep`.
proof fn lemma_entry_paths(dir: Seq<char>, keep: Seq<char>, names: Seq<Seq<char>>, k: int)
    requires
        0 <= k < entry_paths(dir, keep, names).len(),
    ensures
        exists|j: int| 0 <= j < names.len() && names[j] != keep && entry_paths(dir, keep, names)[k]
            == join(dir, #[trigger] names[j]),
    decreases names.len(),
{
    let rest = entry_paths(dir, keep, names.drop_last());
    if k < rest.len() {
        lemma_entry_paths(dir, keep, names.drop_last(), k);
        let j = choose|j: int| 0 <= j < names.drop_last().len() && names.drop_last()[j] != keep
            && rest[k] == join(dir, #[trigger] names.drop_last()[j]);
        assert(names[j] == names.drop_last()[j]);
    } else {
        assert(names[names.len() - 1] == names.last());
    }
}

/// Every expanded path comes from one pruned directory's listing.
proof fn lemma_expanded(dirs: Seq<(Seq<char>, Seq<char>)>, found: Seq<Seq<Seq<char>>>, n: int, k: int)
    requires
        0 <= k < expanded(dirs, found, n).len(),
    ensures
        exists|i: int, j: int| 0 <= i < n && i < dirs.len() && i < found.len() && 0 <= j < found[i].len()
            && found[i][j] != dirs[i].1 && #[trigger] expanded(dirs, found, n)[k] == join(dirs[i].0, found[i][j]),
    decreases n,
{
    let names = if n - 1 < found.len() {
        found[n - 1]
    } else {
        Seq::empty()
    };
    let head = expanded(dirs, found, n - 1);
    if k < head.len() {
        lemma_expanded(dirs, found, n - 1, k);
        let (i, j) = choose|i: int, j: int| 0 <= i < n - 1 && i < dirs.len() && i < found.len() && 0 <= j < found[i].len()
            && found[i][j] != dirs[i].1 && #[trigger] head[k] == join(dirs[i].0, found[i][j]);
        assert(expanded(dirs, found, n)[k] == head[k]);
    } else {
        let tail = entry_paths(dirs[n - 1].0, dirs[n - 1].1, names);
        assert(expanded(dirs, found, n)[k] == tail[k - head.len()]);
        lemma_entry_paths(dirs[n - 1].0, dirs[n - 1].1, names, k - head.len());
        if n - 1 >= found.len() {
            assert(names.len() == 0);
        }
    }
}

/// The literal components a plan is built from.
proof fn lemma_plan_components()
    ensures
        component("projects"@),
        component("default"@),
        component("last-build"@),
        component("running-build"@),
        component("flake.lock"@),
        component("flakes"@),
        component("registry.toml"@),
        component("volumes"@),
        "flake.lock"@ != "last-build"@,
        "flake.lock"@ != "running-build"@,
        "registry.toml"@ != "projects"@,
        "volumes"@ != "default"@,
{
    reveal_strlit("projects");
    reveal_strlit("default");
    reveal_strlit("last-build");
    reveal_strlit("running-build");
    reveal_strlit("flake.lock");
    reveal_strlit("flakes");
    reveal_strlit("registry.toml");
    reveal_strlit("volumes");
    assert("flake.lock"@[0] != "last-build"@[0]);
    assert("flake.lock"@.len() != "running-build"@.len());
    assert("registry.toml"@.len() != "projects"@.len());
    assert("volumes"@[0] != "default"@[0]);
}

/// The tail beneath the state or data root that reaches a project target.
pub open spec fn target_tail(id: Seq<char>) -> Seq<char> {
    "projects"@ + seq!['/'] + id + seq!['/'] + "default"@
}

/// Each path of a plan as a root, a separator, and what follows it.
proof fn lemma_plan_shapes(roots: XdgRoots, id: Seq<char>)
    requires
        root_path(roots.state@),
        root_path(roots.data@),
        root_path(roots.cache@),
        component(id),
    ensures
        data_target(roots, id) == roots.data@ + seq!['/'] + target_tail(id),
        project_state(roots, id) == roots.state@ + seq!['/'] + ("projects"@ + seq!['/'] + id),
        target_state(roots, id) == roots.state@ + seq!['/'] + target_tail(id),
        root_path(data_target(roots, id)),
        root_path(project_state(roots, id)),
        root_path(target_state(roots, id)),
        join(data_target(roots, id), "flake.lock"@) == data_target(roots, id) + seq!['/'] + "flake.lock"@,
        join(data_target(roots, id), "last-build"@) == data_target(roots, id) + seq!['/'] + "last-build"@,
        join(data_target(roots, id), "running-build"@) == data_target(roots, id) + seq!['/'] + "running-build"@,
        join(join(roots.cache@, "flakes"@), id) == roots.cache@ + seq!['/'] + ("flakes"@ + seq!['/'] + id),
        join(roots.state@, "registry.toml"@) == roots.state@ + seq!['/'] + "registry.toml"@,
        join(target_state(roots, id), "volumes"@) == target_state(roots, id) + seq!['/'] + "volumes"@,
{
    lemma_plan_components();
    let sl = seq!['/'];
    let st = roots.state@;
    let da = roots.data@;
    lemma_join_root(st, "projects"@);
    lemma_join_root(join(st, "projects"@), id);
    lemma_join_root(project_state(roots, id), "default"@);
    lemma_join_root(da, "projects"@);
    lemma_join_root(join(da, "projects"@), id);
    lemma_join_root(join(join(da, "projects"@), id), "default"@);
    lemma_join_root(data_target(roots, id), "flake.lock"@);
    lemma_join_root(data_target(roots, id), "last-build"@);
    lemma_join_root(data_target(roots, id), "running-build"@);
    lemma_join_root(roots.cache@, "flakes"@);
    lemma_join_root(join(roots.cache@, "flakes"@), id);
    lemma_join_root(st, "registry.toml"@);
    lemma_join_root(target_state(roots, id), "volumes"@);
    assert(data_target(roots, id) =~= da + sl + target_tail(id));
    assert(project_state(roots, id) =~= st + sl + ("projects"@ + sl + id));
    assert(target_state(roots, id) =~= st + sl + target_tail(id));
    assert(join(join(roots.cache@, "flakes"@), id) =~= roots.cache@ + sl + ("flakes"@ + sl + id));
}

/// No spared path lies beneath a path the plan removes outright.
#[verifier::rlimit(40)]
proof fn lemma_spared_outright(roots: XdgRoots, id: Seq<char>, keep_volumes: bool, s: int, r: int)
    requires
        root_path(roots.state@),
        root_path(roots.data@),
        root_path(roots.cache@),
        apart(roots.state@, roots.data@),
        apart(roots.state@, roots.cache@),
        apart(roots.data@, roots.cache@),
        component(id),
        0 <= s < spared_paths(roots, id, keep_volumes).len(),
        0 <= r < removed_paths(roots, id, keep_volumes).len(),
    ensures
        !under(spared_paths(roots, id, keep_volumes)[s], removed_paths(roots, id, keep_volumes)[r]),
{
    lemma_plan_components();
    lemma_plan_shapes(roots, id);
    let sl = seq!['/'];
    let st = roots.state@;
    let da = roots.data@;
    let ca = roots.cache@;
    let dt = data_target(roots, id);
    let sv = spared_paths(roots, id, keep_volumes)[s];
    let rv = removed_paths(roots, id, keep_volumes)[r];
    let empty = Seq::<char>::empty();
    if r < 2 {
        let c2 = if r == 0 { "last-build"@ } else { "running-build"@ };
        assert(rv == dt + sl + c2);
        assert(rv == da + sl + (target_tail(id) + sl + c2));
        if s == 0 {
            assert(sv == dt + sl + "flake.lock"@ + empty);
            assert(rv == dt + sl + c2 + empty);
            lemma_siblings(dt, "flake.lock"@, empty, c2, empty);
        } else if s == 1 {
            lemma_apart_extensions(ca, "flakes"@ + sl + id, da, target_tail(id) + sl + c2);
        } else if s == 2 {
            lemma_apart_extensions(st, "registry.toml"@, da, target_tail(id) + sl + c2);
        } else {
            assert(sv == st + sl + (target_tail(id) + sl + "volumes"@));
            lemma_apart_extensions(st, target_tail(id) + sl + "volumes"@, da, target_tail(id) + sl + c2);
        }
    } else {
        assert(!keep_volumes && rv == project_state(roots, id));
        if s == 0 {
            assert(sv == da + sl + (target_tail(id) + sl + "flake.lock"@));
            lemma_apart_extensions(da, target_tail(id) + sl + "flake.lock"@, st, "projects"@ + sl + id);
        } else if s == 1 {
            lemma_apart_extensions(ca, "flakes"@ + sl + id, st, "projects"@ + sl + id);
        } else {
            assert(sv == st + sl + "registry.toml"@ + empty);
            assert(rv == st + sl + "projects"@ + (sl + id));
            lemma_siblings(st, "registry.toml"@, empty, "projects"@, sl + id);
        }
    }
}

/// No spared path lies beneath an entry a `--keep-volumes` carve-out removes.
#[verifier::rlimit(80)]
#[verifier::spinoff_prover]
proof fn lemma_spared_entries(roots: XdgRoots, id: Seq<char>, s: int, i: int, e: Seq<char>)
    requires
        root_path(roots.state@),
        root_path(roots.data@),
        root_path(roots.cache@),
        apart(roots.state@, roots.data@),
        apart(roots.state@, roots.cache@),
        apart(roots.data@, roots.cache@),
        component(id),
        component(e),
        0 <= s < spared_paths(roots, id, true).len(),
        0 <= i < 2,
        e != pruned_dirs(roots, id, true)[i].1,
    ensures
        !under(spared_paths(roots, id, true)[s], join(pruned_dirs(roots, id, true)[i].0, e)),
{
    lemma_plan_components();
    lemma_plan_shapes(roots, id);
    let sl = seq!['/'];
    let st = roots.state@;
    let da = roots.data@;
    let ca = roots.cache@;
    let empty = Seq::<char>::empty();
    let sv = spared_paths(roots, id, true)[s];
    let dir = pruned_dirs(roots, id, true)[i].0;
    lemma_join_root(dir, e);
    let rv = join(dir, e);
    let rest = if i == 0 {
        sl + id + sl + "default"@ + sl + e
    } else {
        sl + id + sl + e
    };
    let tail = "projects"@ + rest;
    assert(rest[0] == '/');
    assert(rv == st + sl + tail);
    if s == 0 {
        assert(sv == da + sl + (target_tail(id) + sl + "flake.lock"@));
        lemma_apart_extensions(da, target_tail(id) + sl + "flake.lock"@, st, tail);
    } else if s == 1 {
        lemma_apart_extensions(ca, "flakes"@ + sl + id, st, tail);
    } else if s == 2 {
        assert(sv == st + sl + "registry.toml"@ + empty);
        assert(rv == st + sl + "projects"@ + rest);
        lemma_siblings(st, "registry.toml"@, empty, "projects"@, rest);
    } else if i == 0 {
        let ts = target_state(roots, id);
        assert(sv == ts + sl + "volumes"@ + empty);
        assert(rv == ts + sl + e + empty);
        lemma_siblings(ts, "volumes"@, empty, e, empty);
    } else {
        let ps = project_state(roots, id);
        assert(sv == ps + sl + "default"@ + (sl + "volumes"@));
        assert(rv == ps + sl + e + empty);
        lemma_siblings(ps, "default"@, sl + "volumes"@, e, empty);
    }
}

/// Nothing a destroy spares lies at or beneath anything it removes: the pinned lock, the cached
/// tree, the binding registry and, under `--keep-volumes`, the volume images all survive, for
/// any roots that do not nest, any project name that is one component, and any directory
/// listing of single entries.
pub proof fn law_nothing_spared_is_removed(roots: XdgRoots, id: Seq<char>, keep_volumes: bool, found: Seq<Seq<Seq<char>>>, s: int, r: int)
    requires
        root_path(roots.state@),
        root_path(roots.data@),
        root_path(roots.cache@),
        apart(roots.state@, roots.data@),
        apart(roots.state@, roots.cache@),
        apart(roots.data@, roots.cache@),
        component(id),
        forall|i: int, j: int| 0 <= i < found.len() && 0 <= j < found[i].len() ==> component(#[trigger] found[i][j]),
        0 <= s < spared_paths(roots, id, keep_volumes).len(),
        0 <= r < removal_set(roots, id, keep_volumes, found).len(),
    ensures
        !under(spared_paths(roots, id, keep_volumes)[s], removal_set(roots, id, keep_volumes, found)[r]),
{
    let removed = removed_paths(roots, id, keep_volumes);
    let dirs = pruned_dirs(roots, id, keep_volumes);
    let removals = removal_set(roots, id, keep_volumes, found);
    if r < removed.len() {
        assert(removals[r] == removed[r]);
        lemma_spared_outright(roots, id, keep_volumes, s, r);
    } else {
        let k = r - removed.len();
        assert(removals[r] == expanded(dirs, found, dirs.len() as int)[k]);
        lemma_expanded(dirs, found, dirs.len() as int, k);
        let (i, j) = choose|i: int, j: int| 0 <= i < dirs.len() && i < dirs.len() && i < found.len() && 0 <= j < found[i].len()
            && found[i][j] != dirs[i].1 && #[trigger] expanded(dirs, found, dirs.len() as int)[k] == join(dirs[i].0, found[i][j]);
        assert(keep_volumes);
        lemma_spared_entries(roots, id, s, i, found[i][j]);
    }
}

/// What one removal came to.
pub enum RemovalResult {
    /// The path was removed, or was not there, which is the idempotent case.
    Done,
    /// A permission the removal needs is missing; the host's report.
    Denied(String),
    /// The removal failed otherwise; the host's report.
    Failed(String),
}

/// A teardown failure at `path`, with these parts and no hint.
pub open spec fn teardown_failed(f: Failure, id: Seq<char>, what: Seq<char>, path: Seq<char>, why: Seq<char>, code: ExitKind) -> bool {
    f matches Failure::Diagnosed { diagnostic: d, code: c } && c == code && d.namespace == Namespace::State
        && d.id@ == id && d.what@ == what && d.why@ == why && d.hint is None && match d.locus {
        Locus::File(p) => p@ == path,
        Locus::Named(_) => false,
    }
}

/// What a removal costs: a missing permission is `77`, any other failure I/O.
pub fn removal_outcome(path: &str, result: RemovalResult) -> (r: Result<(), Failure>)
    ensures
        match result {
            RemovalResult::Done => r is Ok,
            RemovalResult::Denied(e) => r matches Err(f) && teardown_failed(f, "teardown-removal"@,
                "could not remove what this project owns"@, path@, e@, ExitKind::NoPerm),
            RemovalResult::Failed(e) => r matches Err(f) && teardown_failed(f, "teardown-removal"@,
                "could not remove what this project owns"@, path@, e@, ExitKind::IoErr),
        },
{
    match result {
        RemovalResult::Done => Ok(()),
        RemovalResult::Denied(e) => Err(diagnosed(
            Namespace::State,
            "teardown-removal",
            "could not remove what this project owns".to_owned(),
            Locus::File(path.to_owned()),
            e,
            ExitKind::NoPerm,
        )),
        RemovalResult::Failed(e) => Err(diagnosed(
            Namespace::State,
            "teardown-removal",
            "could not remove what this project owns".to_owned(),
            Locus::File(path.to_owned()),
            e,
            ExitKind::IoErr,
        )),
    }
}

/// What a directory the teardown could not read costs.
pub fn read_failure(path: &str, error: String) -> (f: Failure)
    ensures
        teardown_failed(f, "teardown-unreadable"@, "could not read what this project owns"@, path@, error@, ExitKind::IoErr),
{
    diagnosed(
        Namespace::State,
        "teardown-unreadable",
        "could not read what this project owns".to_owned(),
        Locus::File(path.to_owned()),
        error,
        ExitKind::IoErr,
    )
}

/// Where a destroy is.
pub enum DestroyPhase {
    Confirming,
    Locking,
    Discriminating,
    Stopping,
    /// Reading what the pruned directories hold.
    Reading,
    /// Removing the plan's paths; `current` is the one in flight.
    Removing { paths: Vec<String>, current: usize },
    ListingRuntime,
    /// Removing the runtime directory's entries but its lock; `current` is the one in flight.
    ClearingRuntime { paths: Vec<String>, current: usize },
    Forgetting,
    Done,
}

/// What the last action found.
pub enum DestroyEvent {
    /// The answer to the confirmation.
    Confirmed(bool),
    /// The lock was taken, the VM stopped, or the identity forgotten.
    Passed,
    Discriminated(State),
    /// What each pruned directory holds, in the plan's order; a missing one holds nothing.
    Found(Vec<Vec<String>>),
    Removed(RemovalResult),
    RuntimeListing(TeardownReading),
    Failed(Failure),
}

/// What to do next.
pub enum DestroyAction {
    /// Ask before destroying, showing the plan.
    Confirm,
    Lock,
    Discriminate,
    /// Bring the VM down with the ordinary ladder, at the default grace.
    Stop,
    /// Read the entries of the plan's pruned directories.
    ReadPlan,
    Remove { path: String },
    ListRuntime,
    /// Release the lock, then forget the project's identity.
    Forget,
    Finish(Result<Success, Failure>),
}

pub open spec fn destroy_expects(phase: DestroyPhase, event: DestroyEvent) -> bool {
    match (phase, event) {
        (DestroyPhase::Done, _) => false,
        (_, DestroyEvent::Failed(_)) => true,
        (DestroyPhase::Confirming, DestroyEvent::Confirmed(_)) => true,
        (DestroyPhase::Locking, DestroyEvent::Passed) => true,
        (DestroyPhase::Discriminating, DestroyEvent::Discriminated(_)) => true,
        (DestroyPhase::Stopping, DestroyEvent::Passed) => true,
        (DestroyPhase::Reading, DestroyEvent::Found(_)) => true,
        (DestroyPhase::Removing { paths, current }, DestroyEvent::Removed(_)) => current < paths.len(),
        (DestroyPhase::ListingRuntime, DestroyEvent::RuntimeListing(_)) => true,
        (DestroyPhase::ClearingRuntime { paths, current }, DestroyEvent::Removed(_)) => current < paths.len(),
        (DestroyPhase::Forgetting, DestroyEvent::Passed) => true,
        _ => false,
    }
}

/// The runtime directory's entries a destroy removes: every one but the lock.
pub open spec fn runtime_leftovers(directory: Seq<char>, names: Seq<Seq<char>>) -> Seq<Seq<char>>
    decreases names.len(),
{
    if names.len() == 0 {
        Seq::empty()
    } else {
        runtime_leftovers(directory, names.drop_last()) + if names.last() == "lock"@ {
            Seq::<Seq<char>>::empty()
        } else {
            seq![join(directory, names.last())]
        }
    }
}

/// The paths a plan removes, given what its pruned directories hold, in path order.
pub open spec fn plan_removals(plan: Plan, found: Seq<Seq<Seq<char>>>) -> Seq<Seq<char>> {
    (texts(plan.remove@) + expanded(text_pairs(plan.keep_within@), found, plan.keep_within@.len() as int)).sort_by(path_order())
}

/// Starting to remove `want`, or going on to `after` when it is empty.
pub open spec fn starts_removing(want: Seq<Seq<char>>, clearing: bool, after: DestroyAction, after_phase: DestroyPhase, next: DestroyPhase, action: DestroyAction) -> bool {
    if want.len() > 0 {
        match next {
            DestroyPhase::Removing { paths, current } => !clearing && current == 0 && texts(paths@) == want
                && action == (DestroyAction::Remove { path: paths[0] }),
            DestroyPhase::ClearingRuntime { paths, current } => clearing && current == 0 && texts(paths@) == want
                && action == (DestroyAction::Remove { path: paths[0] }),
            _ => false,
        }
    } else {
        action == after && next == after_phase
    }
}

/// After one removal: the next path, or `after` once all are gone; a failed removal ends the
/// destroy with its cost.
pub open spec fn removal_step(paths: Vec<String>, current: usize, result: RemovalResult, clearing: bool, after: DestroyAction, after_phase: DestroyPhase, next: DestroyPhase, action: DestroyAction) -> bool {
    match result {
        RemovalResult::Done => if current + 1 < paths.len() {
            action == (DestroyAction::Remove { path: paths[current + 1] }) && next == (if clearing {
                DestroyPhase::ClearingRuntime { paths, current: (current + 1) as usize }
            } else {
                DestroyPhase::Removing { paths, current: (current + 1) as usize }
            })
        } else {
            action == after && next == after_phase
        },
        RemovalResult::Denied(e) => next == DestroyPhase::Done && match action {
            DestroyAction::Finish(Err(f)) => teardown_failed(f, "teardown-removal"@, "could not remove what this project owns"@,
                paths[current as int]@, e@, ExitKind::NoPerm),
            _ => false,
        },
        RemovalResult::Failed(e) => next == DestroyPhase::Done && match action {
            DestroyAction::Finish(Err(f)) => teardown_failed(f, "teardown-removal"@, "could not remove what this project owns"@,
                paths[current as int]@, e@, ExitKind::IoErr),
            _ => false,
        },
    }
}

/// One step of a destroy: confirmed (or declined, which destroys nothing), locked, the VM brought
/// down when one is up, the plan's paths removed, the runtime directory cleared but its lock, and
/// the identity forgotten.
pub open spec fn destroy_next(plan: Plan, runtime_directory: Seq<char>, phase: DestroyPhase, event: DestroyEvent, next: DestroyPhase, action: DestroyAction) -> bool {
    match (phase, event) {
        (_, DestroyEvent::Failed(f)) => action == DestroyAction::Finish(Err(f)) && next == DestroyPhase::Done,
        (DestroyPhase::Confirming, DestroyEvent::Confirmed(yes)) => if yes {
            action == DestroyAction::Lock && next == DestroyPhase::Locking
        } else {
            next == DestroyPhase::Done && match action {
                DestroyAction::Finish(Ok(s)) => s.stdout@ == Seq::<char>::empty() && s.notes@ == "nothing was destroyed\n"@,
                _ => false,
            }
        },
        (DestroyPhase::Locking, DestroyEvent::Passed) => action == DestroyAction::Discriminate && next == DestroyPhase::Discriminating,
        (DestroyPhase::Discriminating, DestroyEvent::Discriminated(state)) => if sweep_acts_on_spec(state) {
            action == DestroyAction::Stop && next == DestroyPhase::Stopping
        } else {
            action == DestroyAction::ReadPlan && next == DestroyPhase::Reading
        },
        (DestroyPhase::Stopping, DestroyEvent::Passed) => action == DestroyAction::ReadPlan && next == DestroyPhase::Reading,
        (DestroyPhase::Reading, DestroyEvent::Found(found)) =>
            starts_removing(plan_removals(plan, found@.map_values(|v: Vec<String>| texts(v@))), false,
                DestroyAction::ListRuntime, DestroyPhase::ListingRuntime, next, action),
        (DestroyPhase::Removing { paths, current }, DestroyEvent::Removed(result)) =>
            removal_step(paths, current, result, false, DestroyAction::ListRuntime, DestroyPhase::ListingRuntime, next, action),
        (DestroyPhase::ListingRuntime, DestroyEvent::RuntimeListing(reading)) => match reading {
            TeardownReading::Gone => action == DestroyAction::Forget && next == DestroyPhase::Forgetting,
            TeardownReading::Unreadable(e) => next == DestroyPhase::Done && match action {
                DestroyAction::Finish(Err(f)) => teardown_failed(f, "teardown-unreadable"@,
                    "could not read what this project owns"@, runtime_directory, e@, ExitKind::IoErr),
                _ => false,
            },
            TeardownReading::Entries(names) => starts_removing(runtime_leftovers(runtime_directory, texts(names@)), true,
                DestroyAction::Forget, DestroyPhase::Forgetting, next, action),
        },
        (DestroyPhase::ClearingRuntime { paths, current }, DestroyEvent::Removed(result)) =>
            removal_step(paths, current, result, true, DestroyAction::Forget, DestroyPhase::Forgetting, next, action),
        (DestroyPhase::Forgetting, DestroyEvent::Passed) => next == DestroyPhase::Done && match action {
            DestroyAction::Finish(Ok(s)) => s.stdout@ == Seq::<char>::empty() && s.notes@ == Seq::<char>::empty(),
            _ => false,
        },
        _ => false,
    }
}

proof fn lemma_join_is_injective(dir: Seq<char>, a: Seq<char>, b: Seq<char>)
    requires
        !(a.len() > 0 && a[0] == '/'),
        !(b.len() > 0 && b[0] == '/'),
        join(dir, a) == join(dir, b),
    ensures
        a == b,
{
    let prefix = if dir.len() == 0 || dir.last() == '/' {
        dir
    } else {
        dir + seq!['/']
    };
    assert(join(dir, a) == prefix + a);
    assert(join(dir, b) == prefix + b);
    assert(a =~= (prefix + a).subrange(prefix.len() as int, (prefix + a).len() as int));
    assert(b =~= (prefix + b).subrange(prefix.len() as int, (prefix + b).len() as int));
}

/// The lock survives a destroy: of a runtime directory whose entries are plain names, the
/// entries a destroy removes never include the startup lock, which is the mutex a racing start
/// binds to.
pub proof fn law_the_lock_survives_a_destroy(directory: Seq<char>, names: Seq<Seq<char>>, k: int)
    requires
        forall|i: int| 0 <= i < names.len() ==> !(names[i].len() > 0 && #[trigger] names[i][0] == '/'),
        0 <= k < runtime_leftovers(directory, names).len(),
    ensures
        runtime_leftovers(directory, names)[k] != join(directory, "lock"@),
    decreases names.len(),
{
    reveal_strlit("lock");
    let rest = runtime_leftovers(directory, names.drop_last());
    if k < rest.len() {
        assert forall|i: int| 0 <= i < names.drop_last().len() implies !(names.drop_last()[i].len() > 0
            && #[trigger] names.drop_last()[i][0] == '/') by {
            assert(names.drop_last()[i] == names[i]);
        }
        law_the_lock_survives_a_destroy(directory, names.drop_last(), k);
        assert(runtime_leftovers(directory, names)[k] == rest[k]);
    } else {
        let last = names.last();
        assert(last != "lock"@);
        assert(runtime_leftovers(directory, names)[k] == join(directory, last));
        assert(!(last.len() > 0 && last[0] == '/')) by {
            assert(names[names.len() - 1] == last);
        }
        if join(directory, last) == join(directory, "lock"@) {
            lemma_join_is_injective(directory, last, "lock"@);
        }
    }
}

/// A destroy never unlinks anything while a VM may be up: a target that is not at rest is
/// stopped before the plan is even read, and every removal follows the plan's reading.
pub proof fn law_the_vm_comes_down_first(plan: Plan, runtime_directory: Seq<char>, phase: DestroyPhase, event: DestroyEvent, next: DestroyPhase, action: DestroyAction)
    requires
        destroy_next(plan, runtime_directory, phase, event, next, action),
    ensures
        phase is Discriminating ==> (event matches DestroyEvent::Discriminated(s) ==> (sweep_acts_on_spec(s) ==> action == DestroyAction::Stop)),
        action is Remove ==> phase is Reading || phase is Removing || phase is ListingRuntime || phase is ClearingRuntime,
{
}

/// Where a destroy begins: with the confirmation, unless `--yes` gave it.
pub fn destroy_begin(yes: bool) -> (r: (DestroyPhase, DestroyAction))
    ensures
        yes ==> r.0 == DestroyPhase::Locking && r.1 == DestroyAction::Lock,
        !yes ==> r.0 == DestroyPhase::Confirming && r.1 == DestroyAction::Confirm,
{
    if yes {
        (DestroyPhase::Locking, DestroyAction::Lock)
    } else {
        (DestroyPhase::Confirming, DestroyAction::Confirm)
    }
}

fn begin_removing(paths: Vec<String>, clearing: bool, after: DestroyAction, after_phase: DestroyPhase) -> (r: (DestroyPhase, DestroyAction))
    ensures
        starts_removing(texts(paths@), clearing, after, after_phase, r.0, r.1),
{
    if paths.len() > 0 {
        let first = paths[0].clone();
        if clearing {
            (DestroyPhase::ClearingRuntime { paths, current: 0 }, DestroyAction::Remove { path: first })
        } else {
            (DestroyPhase::Removing { paths, current: 0 }, DestroyAction::Remove { path: first })
        }
    } else {
        (after_phase, after)
    }
}

fn after_removal(paths: Vec<String>, current: usize, result: RemovalResult, clearing: bool, after: DestroyAction, after_phase: DestroyPhase) -> (r: (DestroyPhase, DestroyAction))
    requires
        current < paths.len(),
    ensures
        removal_step(paths, current, result, clearing, after, after_phase, r.0, r.1),
{
    let path = paths[current].clone();
    match removal_outcome(path.as_str(), result) {
        Err(f) => (DestroyPhase::Done, DestroyAction::Finish(Err(f))),
        Ok(()) => {
            if current + 1 < paths.len() {
                let following = paths[current + 1].clone();
                if clearing {
                    (DestroyPhase::ClearingRuntime { paths, current: current + 1 }, DestroyAction::Remove { path: following })
                } else {
                    (DestroyPhase::Removing { paths, current: current + 1 }, DestroyAction::Remove { path: following })
                }
            } else {
                (after_phase, after)
            }
        },
    }
}

fn leftovers(directory: &str, names: &Vec<String>) -> (paths: Vec<String>)
    ensures
        texts(paths@) == runtime_leftovers(directory@, texts(names@)),
{
    let mut paths: Vec<String> = Vec::new();
    let mut i: usize = 0;
    while i < names.len()
        invariant
            i <= names.len(),
            texts(paths@) == runtime_leftovers(directory@, texts(names@).subrange(0, i as int)),
        decreases names.len() - i,
    {
        assert(texts(names@).subrange(0, i + 1).drop_last() =~= texts(names@).subrange(0, i as int));
        if !same_text(names[i].as_str(), "lock") {
            let ghost before = texts(paths@);
            paths.push(join_path(directory, names[i].as_str()));
            assert(texts(paths@) =~= before + seq![join(directory@, names@[i as int]@)]);
        } else {
            assert(texts(paths@) =~= texts(paths@) + Seq::<Seq<char>>::empty());
        }
        i = i + 1;
    }
    assert(texts(names@).subrange(0, names@.len() as int) =~= texts(names@));
    paths
}

/// One step of a destroy of the project `plan` was made for, whose runtime directory is
/// `runtime_directory`.
pub fn destroy_step(plan: &Plan, runtime_directory: &str, phase: DestroyPhase, event: DestroyEvent) -> (r: (DestroyPhase, DestroyAction))
    requires
        destroy_expects(phase, event),
    ensures
        destroy_next(*plan, runtime_directory@, phase, event, r.0, r.1),
{
    match (phase, event) {
        (_, DestroyEvent::Failed(f)) => (DestroyPhase::Done, DestroyAction::Finish(Err(f))),
        (DestroyPhase::Confirming, DestroyEvent::Confirmed(yes)) => {
            if yes {
                (DestroyPhase::Locking, DestroyAction::Lock)
            } else {
                let notes = "nothing was destroyed\n".to_owned();
                (DestroyPhase::Done, DestroyAction::Finish(Ok(Success { stdout: String::new(), notes })))
            }
        },
        (DestroyPhase::Locking, DestroyEvent::Passed) => (DestroyPhase::Discriminating, DestroyAction::Discriminate),
        (DestroyPhase::Discriminating, DestroyEvent::Discriminated(state)) => {
            if sweep_acts_on(state) {
                (DestroyPhase::Stopping, DestroyAction::Stop)
            } else {
                (DestroyPhase::Reading, DestroyAction::ReadPlan)
            }
        },
        (DestroyPhase::Stopping, DestroyEvent::Passed) => (DestroyPhase::Reading, DestroyAction::ReadPlan),
        (DestroyPhase::Reading, DestroyEvent::Found(found)) => {
            let paths = plan.removals(&found);
            begin_removing(paths, false, DestroyAction::ListRuntime, DestroyPhase::ListingRuntime)
        },
        (DestroyPhase::Removing { paths, current }, DestroyEvent::Removed(result)) =>
            after_removal(paths, current, result, false, DestroyAction::ListRuntime, DestroyPhase::ListingRuntime),
        (DestroyPhase::ListingRuntime, DestroyEvent::RuntimeListing(reading)) => match reading {
            TeardownReading::Gone => (DestroyPhase::Forgetting, DestroyAction::Forget),
            TeardownReading::Unreadable(e) => (DestroyPhase::Done, DestroyAction::Finish(Err(read_failure(runtime_directory, e)))),
            TeardownReading::Entries(names) => {
                let paths = leftovers(runtime_directory, &names);
                begin_removing(paths, true, DestroyAction::Forget, DestroyPhase::Forgetting)
            },
        },
        (DestroyPhase::ClearingRuntime { paths, current }, DestroyEvent::Removed(result)) =>
            after_removal(paths, current, result, true, DestroyAction::Forget, DestroyPhase::Forgetting),
        (DestroyPhase::Forgetting, DestroyEvent::Passed) =>
            (DestroyPhase::Done, DestroyAction::Finish(Ok(Success::plain(String::new())))),
        _ => {
            proof {
                assert(false);
            }
            (DestroyPhase::Done, DestroyAction::Lock)
        },
    }
}

} // verus!
