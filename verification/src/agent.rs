//! The guest agent's small parsers: its boot identity from the kernel command line, its closed
//! command line, the kernel's memory report, a process's normalized status, and the guest
//! user's login shell.
use vstd::prelude::*;
use crate::lifecycle::same_text;
use crate::numbers::{digits_value, parse_u64, std_parse_u64};
use crate::text::{has_prefix, strip_prefix, texts, trim, trim_spec, lines_of, split_lines, dec, push_decimal};
use vstd::utf8::encode_utf8;

verus! {

/// Why the boot identity could not be taken from the kernel command line.
#[derive(Clone, Copy, Debug, PartialEq, Eq, Structural)]
pub enum BootError {
    Missing,
    Duplicate,
    Invalid,
}

/// `u8::is_ascii_whitespace` on a character.
pub open spec fn ascii_space(c: char) -> bool {
    c == ' ' || c == '\t' || c == '\n' || c == '\x0C' || c == '\r'
}

/// `str::split_ascii_whitespace` from `i` on, `cur` being the word in progress.
pub open spec fn words_from(s: Seq<char>, i: int, cur: Seq<char>, acc: Seq<Seq<char>>) -> Seq<Seq<char>>
    decreases s.len() - i,
{
    if i < 0 || i >= s.len() {
        if cur.len() > 0 {
            acc.push(cur)
        } else {
            acc
        }
    } else if ascii_space(s[i]) {
        words_from(s, i + 1, Seq::empty(), if cur.len() > 0 {
            acc.push(cur)
        } else {
            acc
        })
    } else {
        words_from(s, i + 1, cur.push(s[i]), acc)
    }
}

/// The words of `s`, split at ASCII whitespace.
pub open spec fn words(s: Seq<char>) -> Seq<Seq<char>> {
    words_from(s, 0, Seq::empty(), Seq::empty())
}

/// `str::split_ascii_whitespace`, each word copied.
pub fn split_words(s: &str) -> (w: Vec<String>)
    ensures
        texts(w@) == words(s@),
{
    let n = s.unicode_len();
    let mut w: Vec<String> = Vec::new();
    let mut start: usize = 0;
    let mut i: usize = 0;
    assert(texts(w@) =~= Seq::<Seq<char>>::empty());
    assert(s@.subrange(0, 0) =~= Seq::<char>::empty());
    while i < n
        invariant
            start <= i <= n,
            n == s@.len(),
            words(s@) == words_from(s@, i as int, s@.subrange(start as int, i as int), texts(w@)),
        decreases n - i,
    {
        let c = s.get_char(i);
        if c == ' ' || c == '\t' || c == '\n' || c == '\x0C' || c == '\r' {
            if i > start {
                let word = s.substring_char(start, i);
                let ghost before = w@;
                w.push(word.to_owned());
                assert(texts(w@) =~= texts(before).push(word@));
            }
            assert(s@.subrange(i + 1, i + 1) =~= Seq::<char>::empty());
            start = i + 1;
        } else {
            assert(s@.subrange(start as int, i + 1) =~= s@.subrange(start as int, i as int).push(c));
        }
        i = i + 1;
    }
    if i > start {
        let word = s.substring_char(start, i);
        let ghost before = w@;
        w.push(word.to_owned());
        assert(texts(w@) =~= texts(before).push(word@));
    }
    w
}

/// The kernel command line key that carries the boot identity.
pub const BOOT_KEY: &'static str = "vivarium.boot_identity=";

/// Whether `c` is a lowercase hexadecimal digit.
pub open spec fn lower_hex(c: char) -> bool {
    ('0' <= c <= '9') || ('a' <= c <= 'f')
}

/// A boot identity: a UUID in its canonical text form, lowercase, hyphens at 8, 13, 18 and 23.
pub open spec fn identity_shape(v: Seq<char>) -> bool {
    v.len() == 36 && forall|i: int| 0 <= i < 36 ==> if i == 8 || i == 13 || i == 18 || i == 23 {
        v[i] == '-'
    } else {
        lower_hex(#[trigger] v[i])
    }
}

fn is_identity(v: &str) -> (ok: bool)
    ensures
        ok == identity_shape(v@),
{
    if v.unicode_len() != 36 {
        return false;
    }
    let mut i: usize = 0;
    while i < 36
        invariant
            i <= 36,
            v@.len() == 36,
            forall|j: int| 0 <= j < i ==> if j == 8 || j == 13 || j == 18 || j == 23 {
                v@[j] == '-'
            } else {
                lower_hex(#[trigger] v@[j])
            },
        decreases 36 - i,
    {
        let c = v.get_char(i);
        let fits = if i == 8 || i == 13 || i == 18 || i == 23 {
            c == '-'
        } else {
            ('0' <= c && c <= '9') || ('a' <= c && c <= 'f')
        };
        if !fits {
            return false;
        }
        i = i + 1;
    }
    true
}

/// The values the key gives, in command-line order.
pub open spec fn identity_values(ws: Seq<Seq<char>>) -> Seq<Seq<char>>
    decreases ws.len(),
{
    if ws.len() == 0 {
        Seq::empty()
    } else {
        let head = identity_values(ws.drop_last());
        if has_prefix(ws.last(), BOOT_KEY@) {
            head.push(ws.last().subrange(BOOT_KEY@.len() as int, ws.last().len() as int))
        } else {
            head
        }
    }
}

/// Exactly one identity, well formed.
pub open spec fn boot_identity_spec(cmdline: Seq<char>) -> Result<Seq<char>, BootError> {
    let values = identity_values(words(cmdline));
    if values.len() == 0 {
        Err(BootError::Missing)
    } else if values.len() > 1 {
        Err(BootError::Duplicate)
    } else if !identity_shape(values[0]) {
        Err(BootError::Invalid)
    } else {
        Ok(values[0])
    }
}

/// The boot identity from the kernel command line: missing, duplicated and malformed identities
/// are each refused.
pub fn parse_boot_identity(cmdline: &str) -> (r: Result<String, BootError>)
    ensures
        match r {
            Ok(v) => boot_identity_spec(cmdline@) == Ok::<Seq<char>, BootError>(v@),
            Err(e) => boot_identity_spec(cmdline@) == Err::<Seq<char>, BootError>(e),
        },
{
    let ws = split_words(cmdline);
    let ghost wv = texts(ws@);
    let mut values: Vec<String> = Vec::new();
    let mut i: usize = 0;
    assert(texts(values@) =~= Seq::<Seq<char>>::empty());
    while i < ws.len()
        invariant
            i <= ws.len(),
            wv == texts(ws@),
            texts(values@) == identity_values(wv.subrange(0, i as int)),
        decreases ws.len() - i,
    {
        assert(wv.subrange(0, i + 1).drop_last() =~= wv.subrange(0, i as int));
        assert(wv[i as int] == ws@[i as int]@);
        match strip_prefix(ws[i].as_str(), BOOT_KEY) {
            Some(value) => {
                let ghost before = values@;
                values.push(value.to_owned());
                assert(texts(values@) =~= texts(before).push(value@));
            },
            None => {},
        }
        i = i + 1;
    }
    assert(wv.subrange(0, wv.len() as int) =~= wv);
    if values.len() == 0 {
        return Err(BootError::Missing);
    }
    if values.len() > 1 {
        return Err(BootError::Duplicate);
    }
    assert(texts(values@)[0] == values@[0]@);
    if !is_identity(values[0].as_str()) {
        return Err(BootError::Invalid);
    }
    Ok(values[0].clone())
}

/// A credential channel the agent can relay.
#[derive(Clone, Copy, Debug, PartialEq, Eq, Structural)]
pub enum CredentialId {
    Ssh,
    Gpg,
}

/// The spelling of a credential id.
pub open spec fn credential_named(name: Seq<char>) -> Option<CredentialId> {
    if name == "ssh"@ {
        Some(CredentialId::Ssh)
    } else if name == "gpg"@ {
        Some(CredentialId::Gpg)
    } else {
        None
    }
}

/// The agent's closed command line: `--credential <id>` pairs, each id once.
pub open spec fn credentials_from(args: Seq<Seq<char>>, i: int, acc: Seq<CredentialId>) -> Result<Seq<CredentialId>, Seq<char>>
    decreases args.len() - i,
{
    if i < 0 || i >= args.len() {
        Ok(acc)
    } else if args[i] != "--credential"@ {
        Err("unsupported argument"@)
    } else if i + 1 >= args.len() {
        Err("missing credential id"@)
    } else {
        match credential_named(args[i + 1]) {
            None => Err("invalid credential id"@),
            Some(id) => if acc.contains(id) {
                Err("duplicate credential id"@)
            } else {
                credentials_from(args, i + 2, acc.push(id))
            },
        }
    }
}

/// Parses the agent's arguments (after the program name).
pub fn parse_credentials(arguments: &Vec<String>) -> (r: Result<Vec<CredentialId>, &'static str>)
    ensures
        match r {
            Ok(ids) => credentials_from(texts(arguments@), 0, Seq::empty()) == Ok::<Seq<CredentialId>, Seq<char>>(ids@),
            Err(e) => credentials_from(texts(arguments@), 0, Seq::empty()) == Err::<Seq<CredentialId>, Seq<char>>(e@),
        },
{
    let ghost a = texts(arguments@);
    let mut result: Vec<CredentialId> = Vec::new();
    let mut i: usize = 0;
    assert(result@ =~= Seq::<CredentialId>::empty());
    while i < arguments.len()
        invariant
            i <= arguments.len(),
            a == texts(arguments@),
            credentials_from(a, 0, Seq::empty()) == credentials_from(a, i as int, result@),
        decreases arguments.len() - i,
    {
        assert(a[i as int] == arguments@[i as int]@);
        if !same_text(arguments[i].as_str(), "--credential") {
            return Err("unsupported argument");
        }
        if i + 1 >= arguments.len() {
            return Err("missing credential id");
        }
        assert(a[i + 1] == arguments@[i + 1]@);
        let name = arguments[i + 1].as_str();
        let id = if same_text(name, "ssh") {
            CredentialId::Ssh
        } else if same_text(name, "gpg") {
            CredentialId::Gpg
        } else {
            return Err("invalid credential id");
        };
        let mut k: usize = 0;
        while k < result.len()
            invariant
                k <= result.len(),
                i + 1 < arguments.len(),
                a == texts(arguments@),
                a[i as int] == "--credential"@,
                credential_named(a[i + 1]) == Some(id),
                credentials_from(a, 0, Seq::empty()) == credentials_from(a, i as int, result@),
                forall|j: int| 0 <= j < k ==> result@[j] != id,
            decreases result.len() - k,
        {
            if result[k] == id {
                assert(result@.contains(id));
                return Err("duplicate credential id");
            }
            k = k + 1;
        }
        result.push(id);
        i = i + 2;
    }
    Ok(result)
}

/// The two figures a memory query answers, in bytes.
#[derive(Clone, Copy, Debug, PartialEq, Eq, Structural)]
pub struct MemoryReport {
    pub total_bytes: u64,
    pub available_bytes: u64,
}

/// One meminfo line's figure in kB: the line carries the name, then a number and `kB`.
pub open spec fn meminfo_value(line: Seq<char>, name: Seq<char>) -> Option<u64> {
    if !has_prefix(line, name) {
        None
    } else {
        let rest = trim_spec(line.subrange(name.len() as int, line.len() as int));
        let unit = "kB"@;
        if rest.len() < unit.len() || rest.subrange(rest.len() - unit.len(), rest.len() as int) != unit {
            None
        } else {
            std_parse_u64(encode_utf8(trim_spec(rest.subrange(0, rest.len() - unit.len()))))
        }
    }
}

/// The first line whose figure for `name` reads.
pub open spec fn meminfo_field(lines: Seq<Seq<char>>, name: Seq<char>) -> Option<u64>
    decreases lines.len(),
{
    if lines.len() == 0 {
        None
    } else {
        match meminfo_value(lines[0], name) {
            Some(v) => Some(v),
            None => meminfo_field(lines.drop_first(), name),
        }
    }
}

/// The report, both figures read and converted to bytes without overflow.
pub open spec fn meminfo_spec(text: Seq<char>) -> Option<MemoryReport> {
    match (meminfo_field(lines_of(text), "MemTotal:"@), meminfo_field(lines_of(text), "MemAvailable:"@)) {
        (Some(t), Some(a)) => if t * 1024 <= u64::MAX && a * 1024 <= u64::MAX {
            Some(MemoryReport { total_bytes: (t * 1024) as u64, available_bytes: (a * 1024) as u64 })
        } else {
            None
        },
        _ => None,
    }
}

fn strip_suffix_kb(text: &str) -> (rest: Option<&str>)
    ensures
        ({
            let unit = "kB"@;
            match rest {
                Some(r) => text@.len() >= unit.len() && text@.subrange(text@.len() - unit.len(), text@.len() as int) == unit
                    && r@ == text@.subrange(0, text@.len() - unit.len()),
                None => !(text@.len() >= unit.len() && text@.subrange(text@.len() - unit.len(), text@.len() as int) == unit),
            }
        }),
{
    proof {
        reveal_strlit("kB");
    }
    let n = text.unicode_len();
    if n < 2 {
        return None;
    }
    let k = text.get_char(n - 2);
    let b = text.get_char(n - 1);
    if k == 'k' && b == 'B' {
        assert(text@.subrange(n - 2, n as int) =~= "kB"@);
        Some(text.substring_char(0, n - 2))
    } else {
        assert(text@.subrange(n - 2, n as int)[0] == k);
        assert(text@.subrange(n - 2, n as int)[1] == b);
        None
    }
}

fn meminfo_line(line: &str, name: &str) -> (v: Option<u64>)
    ensures
        v == meminfo_value(line@, name@),
{
    let rest = match strip_prefix(line, name) {
        Some(r) => r,
        None => {
            return None;
        },
    };
    let rest = trim(rest);
    match strip_suffix_kb(rest) {
        Some(number) => {
            let number = trim(number);
            parse_u64(number.as_bytes())
        },
        None => None,
    }
}

fn meminfo_find(lines: &Vec<String>, name: &str) -> (v: Option<u64>)
    ensures
        v == meminfo_field(texts(lines@), name@),
{
    let ghost ls = texts(lines@);
    let mut i: usize = 0;
    assert(ls.subrange(0, ls.len() as int) =~= ls);
    while i < lines.len()
        invariant
            i <= lines.len(),
            ls == texts(lines@),
            meminfo_field(ls, name@) == meminfo_field(ls.subrange(i as int, ls.len() as int), name@),
        decreases lines.len() - i,
    {
        let ghost rest = ls.subrange(i as int, ls.len() as int);
        assert(rest.drop_first() =~= ls.subrange(i + 1, ls.len() as int));
        assert(rest[0] == lines@[i as int]@);
        match meminfo_line(lines[i].as_str(), name) {
            Some(v) => {
                return Some(v);
            },
            None => {},
        }
        i = i + 1;
    }
    None
}

/// The kernel's two memory figures, from `/proc/meminfo` text.
pub fn parse_meminfo(text: &str) -> (report: Option<MemoryReport>)
    ensures
        report == meminfo_spec(text@),
{
    let lines = split_lines(text);
    let total = meminfo_find(&lines, "MemTotal:");
    let available = meminfo_find(&lines, "MemAvailable:");
    match (total, available) {
        (Some(t), Some(a)) => match (t.checked_mul(1024), a.checked_mul(1024)) {
            (Some(tb), Some(ab)) => Some(MemoryReport { total_bytes: tb, available_bytes: ab }),
            _ => None,
        },
        _ => None,
    }
}

/// A process's status as one byte: a signal `s` is `128 + s` capped at 255, an exit code is its
/// low byte, and a status with neither is 255.
pub open spec fn status_spec(signal: Option<i32>, code: Option<i32>) -> u8 {
    match signal {
        Some(s) => if 0 <= s && s < 127 {
            (128 + s) as u8
        } else {
            255
        },
        None => match code {
            Some(c) => (c as u32 % 256) as u8,
            None => 255,
        },
    }
}

pub fn normalized_status(signal: Option<i32>, code: Option<i32>) -> (status: u8)
    ensures
        status == status_spec(signal, code),
{
    match signal {
        Some(s) => if 0 <= s && s < 127 {
            (128 + s) as u8
        } else {
            255
        },
        None => match code {
            Some(c) => ((c as u32) % 256) as u8,
            None => 255,
        },
    }
}

/// The pieces `[u8]::split` yields for separator `b`: always one more than the separators.
pub open spec fn split_bytes(s: Seq<u8>, b: u8) -> Seq<Seq<u8>>
    decreases s.len(),
{
    if s.len() == 0 {
        seq![s]
    } else if s.last() == b {
        split_bytes(s.drop_last(), b).push(Seq::empty())
    } else {
        let pieces = split_bytes(s.drop_last(), b);
        pieces.update(pieces.len() - 1, pieces.last().push(s.last()))
    }
}

proof fn lemma_split_nonempty(s: Seq<u8>, b: u8)
    ensures
        split_bytes(s, b).len() >= 1,
    decreases s.len(),
{
    if s.len() > 0 {
        lemma_split_nonempty(s.drop_last(), b);
    }
}

/// `[u8]::split` on a byte, each piece copied.
pub fn split_on(s: &[u8], b: u8) -> (pieces: Vec<Vec<u8>>)
    ensures
        pieces@.map_values(|v: Vec<u8>| v@) == split_bytes(s@, b),
{
    let mut pieces: Vec<Vec<u8>> = Vec::new();
    let mut current: Vec<u8> = Vec::new();
    let mut i: usize = 0;
    assert(s@.subrange(0, 0) =~= Seq::<u8>::empty());
    while i < s.len()
        invariant
            i <= s.len(),
            pieces@.map_values(|v: Vec<u8>| v@).push(current@) == split_bytes(s@.subrange(0, i as int), b),
        decreases s.len() - i,
    {
        proof {
            lemma_split_nonempty(s@.subrange(0, i as int), b);
        }
        let ghost prefix = s@.subrange(0, i as int);
        assert(s@.subrange(0, i + 1).drop_last() =~= prefix);
        if s[i] == b {
            let ghost before = pieces@.map_values(|v: Vec<u8>| v@);
            let done = current;
            pieces.push(done);
            current = Vec::new();
            assert(pieces@.map_values(|v: Vec<u8>| v@) =~= before.push(done@));
            assert(pieces@.map_values(|v: Vec<u8>| v@).push(current@) =~= split_bytes(s@.subrange(0, i + 1), b));
        } else {
            let ghost before = pieces@.map_values(|v: Vec<u8>| v@);
            let ghost cur = current@;
            current.push(s[i]);
            assert(before.push(cur).update(before.len() as int, cur.push(s@[i as int])) =~= before.push(current@));
        }
        i = i + 1;
    }
    assert(s@.subrange(0, s@.len() as int) =~= s@);
    let ghost before = pieces@.map_values(|v: Vec<u8>| v@);
    pieces.push(current);
    assert(pieces@.map_values(|v: Vec<u8>| v@) =~= before.push(current@));
    pieces
}

/// The normal components of a path, in order: separators collapse and `.` is dropped.
pub open spec fn normal_components(p: Seq<u8>) -> Seq<Seq<u8>> {
    split_bytes(p, 47).filter(|c: Seq<u8>| c.len() > 0 && c != seq![46u8])
}

/// `Path::file_name`: the final component, unless the path ends in `..` or has none.
pub open spec fn file_name_spec(p: Seq<u8>) -> Option<Seq<u8>> {
    let c = normal_components(p);
    if c.len() == 0 || c.last() == seq![46u8, 46u8] {
        None
    } else {
        Some(c.last())
    }
}

/// A path's normal components, in order.
pub fn components(p: &[u8]) -> (parts: Vec<Vec<u8>>)
    ensures
        parts@.map_values(|v: Vec<u8>| v@) == normal_components(p@),
{
    let pieces = split_on(p, 47);
    let ghost all = pieces@.map_values(|v: Vec<u8>| v@);
    let ghost keep = |c: Seq<u8>| c.len() > 0 && c != seq![46u8];
    let mut parts: Vec<Vec<u8>> = Vec::new();
    let mut i: usize = 0;
    while i < pieces.len()
        invariant
            i <= pieces.len(),
            all == pieces@.map_values(|v: Vec<u8>| v@),
            keep == (|c: Seq<u8>| c.len() > 0 && c != seq![46u8]),
            parts@.map_values(|v: Vec<u8>| v@) == all.subrange(0, i as int).filter(keep),
        decreases pieces.len() - i,
    {
        proof {
            all.subrange(0, i as int).lemma_filter_push(all[i as int], keep);
            assert(all.subrange(0, i + 1) =~= all.subrange(0, i as int).push(all[i as int]));
        }
        let c = &pieces[i];
        let is_dot = c.len() == 1 && c[0] == 46;
        if c.len() > 0 && !is_dot {
            assert(keep(all[i as int])) by {
                if all[i as int] == seq![46u8] {
                    assert(c@ == seq![46u8]);
                }
            }
            let ghost before = parts@.map_values(|v: Vec<u8>| v@);
            parts.push(crate::grammar::copy_bytes(c));
            assert(parts@.map_values(|v: Vec<u8>| v@) =~= before.push(all[i as int]));
        } else {
            assert(!keep(all[i as int])) by {
                if c.len() == 1 {
                    assert(c@ =~= seq![46u8]);
                }
            }
        }
        i = i + 1;
    }
    assert(all.subrange(0, all.len() as int) =~= all);
    parts
}

/// A path's final component.
pub fn file_name(p: &[u8]) -> (name: Option<Vec<u8>>)
    ensures
        match name {
            Some(n) => file_name_spec(p@) == Some(n@),
            None => file_name_spec(p@) is None,
        },
{
    let pieces = split_on(p, 47);
    let ghost all = pieces@.map_values(|v: Vec<u8>| v@);
    let ghost keep = |c: Seq<u8>| c.len() > 0 && c != seq![46u8];
    let mut last: Option<usize> = None;
    let mut i: usize = 0;
    while i < pieces.len()
        invariant
            i <= pieces.len(),
            all == pieces@.map_values(|v: Vec<u8>| v@),
            keep == (|c: Seq<u8>| c.len() > 0 && c != seq![46u8]),
            match last {
                Some(k) => k < i && all.subrange(0, i as int).filter(keep).len() > 0 && all.subrange(0, i as int).filter(keep).last() == all[k as int],
                None => all.subrange(0, i as int).filter(keep).len() == 0,
            },
        decreases pieces.len() - i,
    {
        proof {
            all.subrange(0, i as int).lemma_filter_push(all[i as int], keep);
            assert(all.subrange(0, i + 1) =~= all.subrange(0, i as int).push(all[i as int]));
        }
        let c = &pieces[i];
        let is_dot = c.len() == 1 && c[0] == 46;
        if c.len() > 0 && !is_dot {
            assert(keep(all[i as int])) by {
                if all[i as int] == seq![46u8] {
                    assert(c@ == seq![46u8]);
                }
            }
            last = Some(i);
        } else {
            assert(!keep(all[i as int])) by {
                if c.len() == 1 {
                    assert(c@ =~= seq![46u8]);
                }
            }
        }
        i = i + 1;
    }
    assert(all.subrange(0, all.len() as int) =~= all);
    match last {
        None => None,
        Some(k) => {
            let c = &pieces[k];
            if c.len() == 2 && c[0] == 46 && c[1] == 46 {
                assert(c@ =~= seq![46u8, 46u8]);
                None
            } else {
                assert(c@ != seq![46u8, 46u8]) by {
                    if c@ == seq![46u8, 46u8] {
                        assert(c@.len() == 2);
                    }
                }
                Some(crate::grammar::copy_bytes(c))
            }
        },
    }
}

/// Whether `s` begins with `prefix`.
pub open spec fn starts_with(s: Seq<u8>, prefix: Seq<u8>) -> bool {
    prefix.len() <= s.len() && s.subrange(0, prefix.len() as int) == prefix
}

/// The first of `lines` from `i` on that begins with `prefix`.
pub open spec fn first_prefixed(lines: Seq<Seq<u8>>, prefix: Seq<u8>, i: int) -> Option<Seq<u8>>
    decreases lines.len() - i,
{
    if i < 0 || i >= lines.len() {
        None
    } else if starts_with(lines[i], prefix) {
        Some(lines[i])
    } else {
        first_prefixed(lines, prefix, i + 1)
    }
}

/// The `passwd` entry prefix of the guest user with this uid.
pub open spec fn passwd_prefix(uid: u32) -> Seq<u8> {
    encode_utf8("vivarium:x:"@ + dec(uid as nat) + ":"@)
}

/// The guest user's login shell from `/etc/passwd`, and the `argv[0]` that makes it a login
/// shell: `-` and the shell's file name.
pub open spec fn login_shell_spec(passwd: Seq<u8>, uid: u32) -> Option<(Seq<u8>, Seq<u8>)> {
    match first_prefixed(split_bytes(passwd, 10), passwd_prefix(uid), 0) {
        None => None,
        Some(line) => {
            let fields = split_bytes(line, 58);
            if fields.len() <= 6 || fields[6].len() == 0 {
                None
            } else {
                match file_name_spec(fields[6]) {
                    None => None,
                    Some(name) => Some((fields[6], seq![45u8] + name)),
                }
            }
        },
    }
}

fn begins_with(s: &Vec<u8>, prefix: &[u8]) -> (r: bool)
    ensures
        r == starts_with(s@, prefix@),
{
    if prefix.len() > s.len() {
        return false;
    }
    let mut i: usize = 0;
    while i < prefix.len()
        invariant
            i <= prefix.len() <= s.len(),
            forall|k: int| 0 <= k < i ==> s@[k] == prefix@[k],
        decreases prefix.len() - i,
    {
        if s[i] != prefix[i] {
            assert(s@.subrange(0, prefix@.len() as int)[i as int] != prefix@[i as int]);
            return false;
        }
        i = i + 1;
    }
    assert(s@.subrange(0, prefix@.len() as int) =~= prefix@);
    true
}

fn find_prefixed(lines: &Vec<Vec<u8>>, prefix: &[u8]) -> (found: Option<usize>)
    ensures
        match found {
            Some(k) => k < lines@.len() && first_prefixed(lines@.map_values(|v: Vec<u8>| v@), prefix@, 0) == Some(lines@[k as int]@),
            None => first_prefixed(lines@.map_values(|v: Vec<u8>| v@), prefix@, 0) is None,
        },
{
    let ghost all = lines@.map_values(|v: Vec<u8>| v@);
    let mut i: usize = 0;
    while i < lines.len()
        invariant
            i <= lines.len(),
            all == lines@.map_values(|v: Vec<u8>| v@),
            first_prefixed(all, prefix@, 0) == first_prefixed(all, prefix@, i as int),
        decreases lines.len() - i,
    {
        if begins_with(&lines[i], prefix) {
            return Some(i);
        }
        i = i + 1;
    }
    None
}

/// The guest user's login shell and its `argv[0]`, from the bytes of `/etc/passwd`.
pub fn login_shell(passwd: &[u8], uid: u32) -> (r: Option<(Vec<u8>, Vec<u8>)>)
    ensures
        match r {
            Some((shell, arg0)) => login_shell_spec(passwd@, uid) == Some((shell@, arg0@)),
            None => login_shell_spec(passwd@, uid) is None,
        },
{
    let mut prefix = String::new();
    prefix.append("vivarium:x:");
    push_decimal(&mut prefix, uid as u64);
    prefix.append(":");
    let prefix_bytes = prefix.as_str().as_bytes();
    let lines = split_on(passwd, 10);
    let k = match find_prefixed(&lines, prefix_bytes) {
        Some(k) => k,
        None => {
            return None;
        },
    };
    let fields = split_on(lines[k].as_slice(), 58);
    if fields.len() <= 6 || fields[6].len() == 0 {
        return None;
    }
    match file_name(fields[6].as_slice()) {
        None => None,
        Some(name) => {
            let mut arg0: Vec<u8> = Vec::new();
            arg0.push(45);
            let mut j: usize = 0;
            while j < name.len()
                invariant
                    j <= name.len(),
                    arg0@ == seq![45u8] + name@.subrange(0, j as int),
                decreases name.len() - j,
            {
                arg0.push(name[j]);
                assert(name@.subrange(0, j + 1) =~= name@.subrange(0, j as int).push(name@[j as int]));
                j = j + 1;
            }
            assert(name@.subrange(0, name@.len() as int) =~= name@);
            Some((crate::grammar::copy_bytes(&fields[6]), arg0))
        },
    }
}

/// The program of an `exec` session and its arguments: the first element of its argv, which
/// must be present and not empty.
pub fn exec_program(argv: &Vec<Vec<u8>>) -> (r: Option<(Vec<u8>, Vec<Vec<u8>>)>)
    ensures
        match r {
            Some((program, arguments)) => argv@.len() > 0 && argv@[0]@.len() > 0 && program@ == argv@[0]@
                && arguments@.map_values(|v: Vec<u8>| v@) == argv@.drop_first().map_values(|v: Vec<u8>| v@),
            None => argv@.len() == 0 || argv@[0]@.len() == 0,
        },
{
    if argv.len() == 0 || argv[0].len() == 0 {
        return None;
    }
    let program = crate::grammar::copy_bytes(&argv[0]);
    let mut arguments: Vec<Vec<u8>> = Vec::new();
    let mut i: usize = 1;
    while i < argv.len()
        invariant
            1 <= i <= argv.len(),
            arguments@.map_values(|v: Vec<u8>| v@) == argv@.subrange(1, i as int).map_values(|v: Vec<u8>| v@),
        decreases argv.len() - i,
    {
        let ghost before = arguments@.map_values(|v: Vec<u8>| v@);
        arguments.push(crate::grammar::copy_bytes(&argv[i]));
        assert(arguments@.map_values(|v: Vec<u8>| v@) =~= before.push(argv@[i as int]@));
        assert(argv@.subrange(1, i + 1).map_values(|v: Vec<u8>| v@) =~= argv@.subrange(1, i as int).map_values(|v: Vec<u8>| v@).push(argv@[i as int]@));
        i = i + 1;
    }
    assert(argv@.subrange(1, argv@.len() as int) =~= argv@.drop_first());
    Some((program, arguments))
}

} // verus!
