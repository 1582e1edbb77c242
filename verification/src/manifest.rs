//! The manifest library: which of its entries are manifests, and `viv manifest show` and `list`:
//! one manifest as authored, in its own language and as one JSON record.
use vstd::prelude::*;
use crate::lifecycle::DeclaredResources;
use crate::text::{dec, joined, json_quoted, json_string, push_decimal, texts};
use crate::views::{join_texts, ManifestRow};

verus! {

/// Whether a sandbox may reach anything, or only what it lists.
#[derive(Clone, Copy, Debug, PartialEq, Eq, Structural)]
pub enum EgressMode {
    Open,
    Allowlist,
}

/// A manifest's egress declaration.
pub struct Egress {
    pub mode: Option<EgressMode>,
    pub allow: Vec<String>,
}

/// One manifest, as its file declares it.
pub struct Manifest {
    pub image: String,
    pub pieces: Vec<String>,
    pub extends: Option<String>,
    pub resources: Option<DeclaredResources>,
    pub egress: Option<Egress>,
}

pub open spec fn mode_text(mode: EgressMode) -> Seq<char> {
    match mode {
        EgressMode::Open => "open"@,
        EgressMode::Allowlist => "allowlist"@,
    }
}

/// The spelling of an egress mode.
pub fn egress_mode(mode: EgressMode) -> (text: &'static str)
    ensures
        text@ == mode_text(mode),
{
    match mode {
        EgressMode::Open => "open",
        EgressMode::Allowlist => "allowlist",
    }
}

/// The text `{:?}` writes for a list of texts.
pub uninterp spec fn debug_list(items: Seq<Seq<char>>) -> Seq<char>;

/// Calls std's `Debug` for `Vec<String>` through `format!("{:?}", ..)`: the bracketed,
/// comma-separated list of quoted and escaped items. Its escapes are left to the name.
#[verifier::external_body]
fn debug_texts(items: &Vec<String>) -> (text: String)
    ensures
        text@ == debug_list(texts(items@)),
{
    format!("{:?}", items)
}

/// `viv manifest show`, human face: the manifest's own keys, then its tables.
pub open spec fn show_text(name: Seq<char>, path: Seq<char>, m: Manifest) -> Seq<char> {
    "manifest: "@ + name + "\npath: "@ + path + "\nimage: "@ + m.image@ + "\n"@ + (if m.pieces@.len() > 0 {
        "pieces: "@ + joined(texts(m.pieces@), ", "@) + "\n"@
    } else {
        Seq::empty()
    }) + (match m.extends {
        Some(e) => "extends: "@ + e@ + "\n"@,
        None => Seq::empty(),
    }) + resources_table(m.resources) + egress_table(m.egress)
}

/// The `[resources]` table, with each declared key.
pub open spec fn resources_table(r: Option<DeclaredResources>) -> Seq<char> {
    match r {
        Some(r) => "\n[resources]\n"@ + (match r.mem_mib {
            Some(m) => "mem_mib = "@ + dec(m as nat) + "\n"@,
            None => Seq::empty(),
        }) + (match r.vcpu {
            Some(v) => "vcpu = "@ + dec(v as nat) + "\n"@,
            None => Seq::empty(),
        }),
        None => Seq::empty(),
    }
}

/// The `[egress]` table, with each declared key.
pub open spec fn egress_table(e: Option<Egress>) -> Seq<char> {
    match e {
        Some(e) => "\n[egress]\n"@ + (match e.mode {
            Some(m) => "mode = \""@ + mode_text(m) + "\"\n"@,
            None => Seq::empty(),
        }) + (if e.allow@.len() > 0 {
            "allow = "@ + debug_list(texts(e.allow@)) + "\n"@
        } else {
            Seq::empty()
        }),
        None => Seq::empty(),
    }
}

fn resources_part(r: Option<DeclaredResources>) -> (text: String)
    ensures
        text@ == resources_table(r),
{
    let mut text = String::new();
    match r {
        Some(r) => {
            text.append("\n[resources]\n");
            match r.mem_mib {
                Some(m) => {
                    let mut line = String::new();
                    line.append("mem_mib = ");
                    push_decimal(&mut line, m as u64);
                    line.append("\n");
                    text.append(line.as_str());
                },
                None => {},
            }
            match r.vcpu {
                Some(v) => {
                    let mut line = String::new();
                    line.append("vcpu = ");
                    push_decimal(&mut line, v as u64);
                    line.append("\n");
                    text.append(line.as_str());
                },
                None => {},
            }
        },
        None => {},
    }
    text
}

fn egress_part(e: &Option<Egress>) -> (text: String)
    ensures
        text@ == egress_table(*e),
{
    let mut text = String::new();
    match e {
        Some(e) => {
            text.append("\n[egress]\n");
            match e.mode {
                Some(m) => {
                    let mut line = String::new();
                    line.append("mode = \"");
                    line.append(egress_mode(m));
                    line.append("\"\n");
                    text.append(line.as_str());
                },
                None => {},
            }
            if e.allow.len() > 0 {
                let mut line = String::new();
                line.append("allow = ");
                let listed = debug_texts(&e.allow);
                line.append(listed.as_str());
                line.append("\n");
                text.append(line.as_str());
            }
        },
        None => {},
    }
    text
}

fn head_part(name: &str, path: &str, m: &Manifest) -> (text: String)
    ensures
        text@ == "manifest: "@ + name@ + "\npath: "@ + path@ + "\nimage: "@ + m.image@ + "\n"@ + (if m.pieces@.len() > 0 {
            "pieces: "@ + joined(texts(m.pieces@), ", "@) + "\n"@
        } else {
            Seq::empty()
        }) + (match m.extends {
            Some(e) => "extends: "@ + e@ + "\n"@,
            None => Seq::empty(),
        }),
{
    let mut text = String::new();
    text.append("manifest: ");
    text.append(name);
    text.append("\npath: ");
    text.append(path);
    text.append("\nimage: ");
    text.append(m.image.as_str());
    text.append("\n");
    let mut pieces = String::new();
    if m.pieces.len() > 0 {
        pieces.append("pieces: ");
        let listed = join_texts(&m.pieces, ", ");
        pieces.append(listed.as_str());
        pieces.append("\n");
    }
    text.append(pieces.as_str());
    let mut extends = String::new();
    match &m.extends {
        Some(e) => {
            extends.append("extends: ");
            extends.append(e.as_str());
            extends.append("\n");
        },
        None => {},
    }
    text.append(extends.as_str());
    text
}

/// `viv manifest show`: the manifest in its own authoring language.
pub fn manifest_show_human(name: &str, path: &str, manifest: &Manifest) -> (text: String)
    ensures
        text@ == show_text(name@, path@, *manifest),
{
    let mut text = head_part(name, path, manifest);
    let resources = resources_part(manifest.resources);
    text.append(resources.as_str());
    let egress = egress_part(&manifest.egress);
    text.append(egress.as_str());
    text
}

/// A JSON array of strings.
pub open spec fn json_texts(items: Seq<Seq<char>>) -> Seq<char> {
    "["@ + joined(items.map_values(|t: Seq<char>| json_quoted(t)), ","@) + "]"@
}

/// A JSON number, or `null`.
pub open spec fn count_or_null(n: Option<u32>) -> Seq<char> {
    match n {
        Some(v) => dec(v as nat),
        None => "null"@,
    }
}

/// The `resources` object, always present with both keys.
pub open spec fn resources_object(r: Option<DeclaredResources>) -> Seq<char> {
    let (mem, vcpu) = match r {
        Some(r) => (r.mem_mib, r.vcpu),
        None => (None, None),
    };
    "{\"mem_mib\":"@ + count_or_null(mem) + ",\"vcpu\":"@ + count_or_null(vcpu) + "}"@
}

/// The `egress` object, always present with both keys; an undeclared list is an empty one.
pub open spec fn egress_object(e: Option<Egress>) -> Seq<char> {
    "{\"allow\":"@ + json_texts(match e {
        Some(e) => texts(e.allow@),
        None => Seq::empty(),
    }) + ",\"mode\":"@ + (match e {
        Some(e) => match e.mode {
            Some(m) => json_quoted(mode_text(m)),
            None => "null"@,
        },
        None => "null"@,
    }) + "}"@
}

/// The `manifest show` record.
pub open spec fn show_record(name: Seq<char>, path: Seq<char>, m: Manifest) -> Seq<char> {
    "{\"egress\":"@ + egress_object(m.egress) + ",\"extends\":"@ + (match m.extends {
        Some(e) => json_quoted(e@),
        None => "null"@,
    }) + ",\"image\":"@ + json_quoted(m.image@) + ",\"manifest\":"@ + json_quoted(name) + ",\"path\":"@
        + json_quoted(path) + ",\"pieces\":"@ + json_texts(texts(m.pieces@)) + ",\"resources\":"@
        + resources_object(m.resources) + "}"@
}

/// A JSON array of strings.
pub fn json_array(items: &Vec<String>) -> (text: String)
    ensures
        text@ == json_texts(texts(items@)),
{
    let ghost q = texts(items@).map_values(|t: Seq<char>| json_quoted(t));
    let mut inner = String::new();
    let mut i: usize = 0;
    while i < items.len()
        invariant
            i <= items.len(),
            q == texts(items@).map_values(|t: Seq<char>| json_quoted(t)),
            inner@ == joined(q.subrange(0, i as int), ","@),
        decreases items.len() - i,
    {
        assert(q.subrange(0, i + 1).drop_last() =~= q.subrange(0, i as int));
        if i > 0 {
            inner.append(",");
        }
        let quoted = json_string(items[i].as_str());
        inner.append(quoted.as_str());
        i = i + 1;
    }
    assert(q.subrange(0, q.len() as int) =~= q);
    let mut text = String::new();
    text.append("[");
    text.append(inner.as_str());
    text.append("]");
    text
}

fn count_text(n: Option<u32>) -> (text: String)
    ensures
        text@ == count_or_null(n),
{
    match n {
        Some(v) => crate::text::decimal(v as u64),
        None => "null".to_owned(),
    }
}

fn resources_json(r: Option<DeclaredResources>) -> (text: String)
    ensures
        text@ == resources_object(r),
{
    let (mem, vcpu) = match r {
        Some(r) => (r.mem_mib, r.vcpu),
        None => (None, None),
    };
    let mut text = String::new();
    text.append("{\"mem_mib\":");
    text.append(count_text(mem).as_str());
    text.append(",\"vcpu\":");
    text.append(count_text(vcpu).as_str());
    text.append("}");
    text
}

fn egress_json(e: &Option<Egress>) -> (text: String)
    ensures
        text@ == egress_object(*e),
{
    let allow = match e {
        Some(e) => json_array(&e.allow),
        None => json_array(&Vec::new()),
    };
    let mode = match e {
        Some(e) => match e.mode {
            Some(m) => json_string(egress_mode(m)),
            None => "null".to_owned(),
        },
        None => "null".to_owned(),
    };
    proof {
        if e is None {
            assert(texts(Seq::<String>::empty()) =~= Seq::<Seq<char>>::empty());
        }
    }
    let mut text = String::new();
    text.append("{\"allow\":");
    text.append(allow.as_str());
    text.append(",\"mode\":");
    text.append(mode.as_str());
    text.append("}");
    text
}

fn quoted_or_null(text: &Option<String>) -> (q: String)
    ensures
        q@ == (match *text {
            Some(e) => json_quoted(e@),
            None => "null"@,
        }),
{
    match text {
        Some(t) => json_string(t.as_str()),
        None => "null".to_owned(),
    }
}

/// `viv manifest show --json`: the record and a newline.
pub fn manifest_show_json(name: &str, path: &str, manifest: &Manifest) -> (text: String)
    ensures
        text@ == show_record(name@, path@, *manifest) + "\n"@,
{
    let mut text = String::new();
    text.append("{\"egress\":");
    text.append(egress_json(&manifest.egress).as_str());
    text.append(",\"extends\":");
    text.append(quoted_or_null(&manifest.extends).as_str());
    text.append(",\"image\":");
    text.append(json_string(manifest.image.as_str()).as_str());
    text.append(",\"manifest\":");
    text.append(json_string(name).as_str());
    text.append(",\"path\":");
    text.append(json_string(path).as_str());
    text.append(",\"pieces\":");
    text.append(json_array(&manifest.pieces).as_str());
    text.append(",\"resources\":");
    text.append(resources_json(manifest.resources).as_str());
    text.append("}");
    text.append("\n");
    text
}

/// One library row's record.
pub open spec fn list_entry(r: ManifestRow) -> Seq<char> {
    "{\"image\":"@ + json_quoted(r.manifest.image@) + ",\"name\":"@ + json_quoted(r.name@) + ",\"path\":"@
        + json_quoted(r.path@) + ",\"pieces\":"@ + json_texts(texts(r.manifest.pieces@)) + "}"@
}

/// The library record: every manifest, wrapped in a named key.
pub open spec fn list_record(rows: Seq<ManifestRow>) -> Seq<char> {
    "{\"manifests\":["@ + joined(rows.map_values(|r: ManifestRow| list_entry(r)), ","@) + "]}"@
}

fn list_entry_text(r: &ManifestRow) -> (text: String)
    ensures
        text@ == list_entry(*r),
{
    let mut text = String::new();
    text.append("{\"image\":");
    text.append(json_string(r.manifest.image.as_str()).as_str());
    text.append(",\"name\":");
    text.append(json_string(r.name.as_str()).as_str());
    text.append(",\"path\":");
    text.append(json_string(r.path.as_str()).as_str());
    text.append(",\"pieces\":");
    text.append(json_array(&r.manifest.pieces).as_str());
    text.append("}");
    text
}

/// `viv manifest list --json`: the library record and a newline.
pub fn manifest_list_json(rows: &Vec<ManifestRow>) -> (text: String)
    ensures
        text@ == list_record(rows@) + "\n"@,
{
    let ghost q = rows@.map_values(|r: ManifestRow| list_entry(r));
    let mut inner = String::new();
    let mut i: usize = 0;
    while i < rows.len()
        invariant
            i <= rows.len(),
            q == rows@.map_values(|r: ManifestRow| list_entry(r)),
            inner@ == joined(q.subrange(0, i as int), ","@),
        decreases rows.len() - i,
    {
        assert(q.subrange(0, i + 1).drop_last() =~= q.subrange(0, i as int));
        if i > 0 {
            inner.append(",");
        }
        let entry = list_entry_text(&rows[i]);
        inner.append(entry.as_str());
        i = i + 1;
    }
    assert(q.subrange(0, q.len() as int) =~= q);
    let mut text = String::new();
    text.append("{\"manifests\":[");
    text.append(inner.as_str());
    text.append("]}");
    text.append("\n");
    text
}

/// What the manifest library's listing says of one entry.
pub struct LibraryEntry {
    /// The entry's name, when it is valid UTF-8.
    pub name: Option<String>,
    /// Whether it is a directory, when its type could be read.
    pub is_dir: Option<bool>,
    /// For a directory, whether it holds a `default.toml` file.
    pub holds_default: bool,
}

/// The manifest an entry of the library is, if any: a directory holding `default.toml` under its
/// own name, or a `<name>.toml` file under its stem.
pub open spec fn member_spec(e: LibraryEntry) -> Option<Seq<char>> {
    match (e.name, e.is_dir) {
        (Some(n), Some(dir)) => if dir {
            if e.holds_default {
                Some(n@)
            } else {
                None
            }
        } else if n@.len() >= 5 && n@.subrange(n@.len() - 5, n@.len() as int) == ".toml"@ {
            Some(n@.subrange(0, n@.len() - 5))
        } else {
            None
        },
        _ => None,
    }
}

/// Which manifest a library entry is; a helper directory without the file is not one.
pub fn library_member(e: &LibraryEntry) -> (m: Option<String>)
    ensures
        match m {
            Some(s) => member_spec(*e) == Some(s@),
            None => member_spec(*e) is None,
        },
{
    proof {
        reveal_strlit(".toml");
    }
    let name = match &e.name {
        Some(n) => n,
        None => return None,
    };
    let dir = match e.is_dir {
        Some(d) => d,
        None => return None,
    };
    if dir {
        return if e.holds_default {
            Some(name.clone())
        } else {
            None
        };
    }
    let n = name.as_str().unicode_len();
    if n < 5 {
        return None;
    }
    let tail = name.as_str().substring_char(n - 5, n);
    if !crate::lifecycle::same_text(tail, ".toml") {
        return None;
    }
    Some(name.as_str().substring_char(0, n - 5).to_owned())
}

} // verus!
