//! `viv config sources`: for each merged key, its effective value and every layer that proposed
//! one, and the `[tie]` notes for keys two layers proposed at equal priority.
use vstd::prelude::*;
use crate::exit::ExitKind;
use crate::failure::{diagnosed, diagnostic_is, Failure, Locus, Namespace};
use crate::text::{concat3, dec, joined, pad_right, push_decimal, push_padded, texts};
use crate::views::join_texts;

verus! {

/// One layer's proposal for a key. `value` is the proposal in JSON spelling, which is TOML's for
/// everything the manifest surface admits.
pub struct Contributor {
    pub layer: String,
    pub kind: String,
    pub priority: u64,
    pub value: String,
    pub winner: bool,
}

/// One merged key: its effective value (absent where the merge failed), whether it is a list,
/// and every contributor in layer order.
pub struct ValueView {
    pub key: String,
    pub effective: Option<String>,
    pub list: bool,
    pub contributors: Vec<Contributor>,
}

/// The content defects a merge can find on one key.
#[derive(Clone, Copy, Debug, PartialEq, Eq, Structural)]
pub enum ConflictKind {
    /// Two proposals at equal priority.
    Tie,
    /// A shared layer carries a literal personal path.
    LiteralPath,
    /// A mount takes a host session directory.
    SessionPath,
    /// A shared layer's mount names a variable outside the portable set.
    NonPortableVariable,
}

/// A defect the merge found on one key: the layers involved, and what they declared.
pub struct Conflict {
    pub kind: ConflictKind,
    pub key: String,
    pub layers: Vec<String>,
    pub evidence: Vec<String>,
}

/// Two declarations the merge could not combine, as the merge itself described them.
pub struct Irreconcilable {
    pub what: String,
    pub why: String,
}

/// The provenance of a merged configuration.
pub struct Analysis {
    pub values: Vec<ValueView>,
    pub conflicts: Vec<Conflict>,
    pub irreconcilable: Vec<Irreconcilable>,
}

/// How one contributor fared: every list contributor is merged, a scalar one wins or is shadowed.
pub open spec fn mark(list: bool, winner: bool) -> Seq<char> {
    if list {
        "(merged)"@
    } else if winner {
        "(winner)"@
    } else {
        "(shadowed)"@
    }
}

/// The columns both views share: layer, kind, and priority.
pub open spec fn contributor_head(c: Contributor) -> Seq<char> {
    "  "@ + pad_right(c.layer@, 16) + " "@ + pad_right(c.kind@, 9) + " "@ + pad_right(dec(c.priority as nat), 10) + " "@
}

/// One contributor line of `viv config sources`.
pub open spec fn source_line(c: Contributor, list: bool) -> Seq<char> {
    contributor_head(c) + pad_right(c.value@, 12) + " "@ + mark(list, c.winner) + "\n"@
}

/// The contributor lines of one key, from its first `n` contributors.
pub open spec fn source_lines(cs: Seq<Contributor>, list: bool, n: int) -> Seq<char>
    decreases n,
{
    if n <= 0 || n > cs.len() {
        Seq::empty()
    } else {
        source_lines(cs, list, n - 1) + source_line(cs[n - 1], list)
    }
}

/// One key's block: nothing for a key no layer proposed.
pub open spec fn source_block(v: ValueView) -> Seq<char> {
    if v.contributors@.len() == 0 {
        Seq::empty()
    } else {
        v.key@ + " = "@ + (match v.effective {
            Some(e) => e@,
            None => "(no value)"@,
        }) + "\n"@ + source_lines(v.contributors@, v.list, v.contributors@.len() as int) + "\n"@
    }
}

/// The blocks of the first `n` keys.
pub open spec fn sources_text(vs: Seq<ValueView>, n: int) -> Seq<char>
    decreases n,
{
    if n <= 0 || n > vs.len() {
        Seq::empty()
    } else {
        sources_text(vs, n - 1) + source_block(vs[n - 1])
    }
}

fn push_text(out: &mut String, text: &String)
    ensures
        final(out)@ == old(out)@ + text@,
{
    out.append(text.as_str());
}

fn push_head(out: &mut String, c: &Contributor)
    ensures
        final(out)@ == old(out)@ + contributor_head(*c),
{
    out.append("  ");
    push_padded(out, c.layer.as_str(), 16);
    out.append(" ");
    push_padded(out, c.kind.as_str(), 9);
    out.append(" ");
    let priority = crate::text::decimal(c.priority);
    push_padded(out, priority.as_str(), 10);
    out.append(" ");
}

fn push_source_line(out: &mut String, c: &Contributor, list: bool)
    ensures
        final(out)@ == old(out)@ + source_line(*c, list),
{
    push_head(out, c);
    push_padded(out, c.value.as_str(), 12);
    out.append(" ");
    if list {
        out.append("(merged)");
    } else if c.winner {
        out.append("(winner)");
    } else {
        out.append("(shadowed)");
    }
    out.append("\n");
}

fn push_source_block(out: &mut String, v: &ValueView)
    ensures
        final(out)@ == old(out)@ + source_block(*v),
{
    let n = v.contributors.len();
    if n == 0 {
        assert(source_block(*v) =~= Seq::<char>::empty());
        return;
    }
    let ghost start = out@;
    out.append(v.key.as_str());
    out.append(" = ");
    match &v.effective {
        Some(e) => push_text(out, e),
        None => out.append("(no value)"),
    }
    out.append("\n");
    let ghost head = out@;
    let mut i: usize = 0;
    while i < n
        invariant
            i <= n,
            n == v.contributors@.len(),
            out@ == head + source_lines(v.contributors@, v.list, i as int),
        decreases n - i,
    {
        push_source_line(out, &v.contributors[i], v.list);
        i = i + 1;
    }
    out.append("\n");
}

/// `viv config sources`: one block per key, the effective value over every layer under it.
pub fn config_sources_human(analysis: &Analysis) -> (text: String)
    ensures
        text@ == sources_text(analysis.values@, analysis.values@.len() as int),
{
    let mut text = String::new();
    let n = analysis.values.len();
    let mut i: usize = 0;
    while i < n
        invariant
            i <= n,
            n == analysis.values@.len(),
            text@ == sources_text(analysis.values@, i as int),
        decreases n - i,
    {
        push_source_block(&mut text, &analysis.values[i]);
        i = i + 1;
    }
    text
}

/// The first view of `key` among the views from `i` on.
pub open spec fn view_named(vs: Seq<ValueView>, key: Seq<char>, i: int) -> Option<ValueView>
    decreases vs.len() - i,
{
    if i < 0 || i >= vs.len() {
        None
    } else if vs[i].key@ == key {
        Some(vs[i])
    } else {
        view_named(vs, key, i + 1)
    }
}

/// One contributor under a `[tie]` note.
pub open spec fn tie_line(c: Contributor) -> Seq<char> {
    contributor_head(c) + c.value@ + "\n"@
}

pub open spec fn tie_lines(cs: Seq<Contributor>, n: int) -> Seq<char>
    decreases n,
{
    if n <= 0 || n > cs.len() {
        Seq::empty()
    } else {
        tie_lines(cs, n - 1) + tie_line(cs[n - 1])
    }
}

/// The remedy every `[tie]` note ends with.
pub open spec fn tie_hint() -> Seq<char> {
    "  hint: a shared piece should propose with mkDefault so your manifest can\n"@
        + "        decide; failing that, drop one piece or override through extends\n"@
}

/// One conflict's note: a tie names its key, its contributors, and the remedy; any other
/// conflict says nothing here.
pub open spec fn tie_note(vs: Seq<ValueView>, c: Conflict) -> Seq<char> {
    if c.kind != ConflictKind::Tie {
        Seq::empty()
    } else {
        "[tie] "@ + c.key@ + "   (equal priority — evaluation will fail)\n"@ + (match view_named(vs, c.key@, 0) {
            Some(v) => tie_lines(v.contributors@, v.contributors@.len() as int),
            None => Seq::empty(),
        }) + tie_hint()
    }
}

pub open spec fn tie_text(vs: Seq<ValueView>, cs: Seq<Conflict>, n: int) -> Seq<char>
    decreases n,
{
    if n <= 0 || n > cs.len() {
        Seq::empty()
    } else {
        tie_text(vs, cs, n - 1) + tie_note(vs, cs[n - 1])
    }
}

fn push_tie_line(out: &mut String, c: &Contributor)
    ensures
        final(out)@ == old(out)@ + tie_line(*c),
{
    push_head(out, c);
    out.append(c.value.as_str());
    out.append("\n");
}

/// The index of the first view of `key`.
fn find_view(values: &Vec<ValueView>, key: &str) -> (found: Option<usize>)
    ensures
        match found {
            Some(k) => k < values@.len() && view_named(values@, key@, 0) == Some(values@[k as int]),
            None => view_named(values@, key@, 0) is None,
        },
{
    let mut i: usize = 0;
    while i < values.len()
        invariant
            i <= values.len(),
            view_named(values@, key@, 0) == view_named(values@, key@, i as int),
        decreases values.len() - i,
    {
        if crate::lifecycle::same_text(values[i].key.as_str(), key) {
            return Some(i);
        }
        i = i + 1;
    }
    None
}

fn push_tie_note(out: &mut String, values: &Vec<ValueView>, c: &Conflict)
    ensures
        final(out)@ == old(out)@ + tie_note(values@, *c),
{
    if c.kind != ConflictKind::Tie {
        assert(tie_note(values@, *c) =~= Seq::<char>::empty());
        return;
    }
    out.append("[tie] ");
    out.append(c.key.as_str());
    out.append("   (equal priority — evaluation will fail)\n");
    match find_view(values, c.key.as_str()) {
        Some(k) => {
            let v = &values[k];
            let n = v.contributors.len();
            let ghost head = out@;
            let mut i: usize = 0;
            while i < n
                invariant
                    i <= n,
                    n == v.contributors@.len(),
                    out@ == head + tie_lines(v.contributors@, i as int),
                decreases n - i,
            {
                push_tie_line(out, &v.contributors[i]);
                i = i + 1;
            }
        },
        None => {},
    }
    out.append("  hint: a shared piece should propose with mkDefault so your manifest can\n");
    out.append("        decide; failing that, drop one piece or override through extends\n");
}

/// The `[tie]` notes, which go to stderr in both output modes.
pub fn tie_notes(analysis: &Analysis) -> (text: String)
    ensures
        text@ == tie_text(analysis.values@, analysis.conflicts@, analysis.conflicts@.len() as int),
{
    let mut text = String::new();
    let n = analysis.conflicts.len();
    let mut i: usize = 0;
    while i < n
        invariant
            i <= n,
            n == analysis.conflicts@.len(),
            text@ == tie_text(analysis.values@, analysis.conflicts@, i as int),
        decreases n - i,
    {
        push_tie_note(&mut text, &analysis.values, &analysis.conflicts[i]);
        i = i + 1;
    }
    text
}

/// The refusal of the first content defect: the first conflict when there is one, else the first
/// irreconcilable pair, else none. Every one exits `65`.
pub open spec fn defect_refusal(f: Option<Failure>, a: Analysis) -> bool {
    if a.conflicts@.len() > 0 {
        let c = a.conflicts@[0];
        let layers = joined(texts(c.layers@), ", "@);
        let evidence = joined(texts(c.evidence@), ", "@);
        match f {
            None => false,
            Some(f) => match c.kind {
                ConflictKind::Tie => diagnostic_is(f, Namespace::Merge, "equal-priority-tie"@,
                    "`"@ + c.key@ + "` has two definitions at the same priority"@, (true, "merged configuration"@),
                    layers + " each set it, and priority never breaks a tie"@, ExitKind::DataErr,
                    "a shared piece should propose with mkDefault so your manifest can decide; failing that, drop one piece or override through extends"@),
                ConflictKind::LiteralPath => diagnostic_is(f, Namespace::Merge, "literal-path"@,
                    "a shared layer carries a literal personal path in `"@ + c.key@ + "`"@, (true, "merged configuration"@),
                    layers + " declared "@ + evidence, ExitKind::DataErr,
                    "shared config is personal-data-free (N11): use `${HOME}` or an XDG name, which stay unexpanded until launch, or move the mount to your own manifest"@),
                ConflictKind::SessionPath => diagnostic_is(f, Namespace::Merge, "session-path"@,
                    "a mount in `"@ + c.key@ + "` takes a host session directory"@, (true, "merged configuration"@),
                    layers + " declared "@ + evidence, ExitKind::DataErr,
                    "`/tmp`, `/var/tmp`, and `${XDG_RUNTIME_DIR}` hold live session state no share may carry (N24), in every layer; a source only expansion reveals is refused at launch with `78`"@),
                ConflictKind::NonPortableVariable => diagnostic_is(f, Namespace::Merge, "non-portable-variable"@,
                    "a shared layer's mount in `"@ + c.key@ + "` names a variable outside the portable set"@,
                    (true, "merged configuration"@), layers + " declared "@ + evidence, ExitKind::DataErr,
                    "a shared layer references the host only through `${HOME}` and the four durable XDG directories (spec/07); a private variable belongs in your own manifest"@),
            },
        }
    } else if a.irreconcilable@.len() > 0 {
        let i = a.irreconcilable@[0];
        match f {
            None => false,
            Some(f) => diagnostic_is(f, Namespace::Merge, "irreconcilable"@, i.what@, (true, "merged configuration"@),
                i.why@, ExitKind::DataErr, "run `viv config sources` to see every layer that contributed"@),
        }
    } else {
        f is None
    }
}

/// The first content defect, as the `65` a merged configuration with defects exits with.
pub fn defect_failure(analysis: &Analysis) -> (f: Option<Failure>)
    ensures
        defect_refusal(f, *analysis),
{
    if analysis.conflicts.len() > 0 {
        let c = &analysis.conflicts[0];
        let layers = join_texts(&c.layers, ", ");
        let evidence = join_texts(&c.evidence, ", ");
        let merged = "merged configuration";
        let f = match c.kind {
            ConflictKind::Tie => {
                let what = concat3("`", c.key.as_str(), "` has two definitions at the same priority");
                let why = concat3(layers.as_str(), " each set it, and priority never breaks a tie", "");
                proof {
                    reveal_strlit("");
                    assert(why@ =~= layers@ + " each set it, and priority never breaks a tie"@);
                }
                diagnosed(Namespace::Merge, "equal-priority-tie", what, Locus::Named(merged.to_owned()), why, ExitKind::DataErr)
                    .with_hint("a shared piece should propose with mkDefault so your manifest can decide; failing that, drop one piece or override through extends".to_owned())
            },
            ConflictKind::LiteralPath => {
                let what = concat3("a shared layer carries a literal personal path in `", c.key.as_str(), "`");
                let why = concat3(layers.as_str(), " declared ", evidence.as_str());
                diagnosed(Namespace::Merge, "literal-path", what, Locus::Named(merged.to_owned()), why, ExitKind::DataErr)
                    .with_hint("shared config is personal-data-free (N11): use `${HOME}` or an XDG name, which stay unexpanded until launch, or move the mount to your own manifest".to_owned())
            },
            ConflictKind::SessionPath => {
                let what = concat3("a mount in `", c.key.as_str(), "` takes a host session directory");
                let why = concat3(layers.as_str(), " declared ", evidence.as_str());
                diagnosed(Namespace::Merge, "session-path", what, Locus::Named(merged.to_owned()), why, ExitKind::DataErr)
                    .with_hint("`/tmp`, `/var/tmp`, and `${XDG_RUNTIME_DIR}` hold live session state no share may carry (N24), in every layer; a source only expansion reveals is refused at launch with `78`".to_owned())
            },
            ConflictKind::NonPortableVariable => {
                let what = concat3("a shared layer's mount in `", c.key.as_str(), "` names a variable outside the portable set");
                let why = concat3(layers.as_str(), " declared ", evidence.as_str());
                diagnosed(Namespace::Merge, "non-portable-variable", what, Locus::Named(merged.to_owned()), why, ExitKind::DataErr)
                    .with_hint("a shared layer references the host only through `${HOME}` and the four durable XDG directories (spec/07); a private variable belongs in your own manifest".to_owned())
            },
        };
        return Some(f);
    }
    if analysis.irreconcilable.len() > 0 {
        let i = &analysis.irreconcilable[0];
        let f = diagnosed(
            Namespace::Merge,
            "irreconcilable",
            i.what.clone(),
            Locus::Named("merged configuration".to_owned()),
            i.why.clone(),
            ExitKind::DataErr,
        ).with_hint("run `viv config sources` to see every layer that contributed".to_owned());
        return Some(f);
    }
    None
}

} // verus!
