//! The output shapes each command prints, held apart from the commands that decide what is true.
//!
//! A human table counts bytes in its own units and seconds humanized; a machine record is one
//! compact JSON object and one newline.
use vstd::prelude::*;
use crate::text::{dec, decimal, json_quoted, json_string, push_decimal};

verus! {

pub const GIB: u64 = 1073741824;
pub const MIB: u64 = 1048576;

/// A byte count in the table's units: GiB to one decimal from a gibibyte up (a whole GiB
/// unadorned), whole MiB below that, raw bytes below a mebibyte.
pub open spec fn bytes_text(count: nat) -> Seq<char> {
    if count >= GIB {
        let tenths = count / (GIB as nat / 10);
        if tenths % 10 == 0 {
            dec(tenths / 10) + " GiB"@
        } else {
            dec(tenths / 10) + "."@ + dec(tenths % 10) + " GiB"@
        }
    } else if count >= MIB {
        dec(count / MIB as nat) + " MiB"@
    } else {
        dec(count) + " B"@
    }
}

/// Appends a byte count in the table's units.
pub fn push_bytes(out: &mut String, count: u64)
    ensures
        final(out)@ == old(out)@ + bytes_text(count as nat),
{
    if count >= GIB {
        let tenths = count / (GIB / 10);
        if tenths % 10 == 0 {
            push_decimal(out, tenths / 10);
            out.append(" GiB");
        } else {
            push_decimal(out, tenths / 10);
            out.append(".");
            push_decimal(out, tenths % 10);
            out.append(" GiB");
        }
    } else if count >= MIB {
        push_decimal(out, count / MIB);
        out.append(" MiB");
    } else {
        push_decimal(out, count);
        out.append(" B");
    }
}

/// A byte count in the table's units.
pub fn bytes(count: u64) -> (text: String)
    ensures
        text@ == bytes_text(count as nat),
{
    let mut text = String::new();
    push_bytes(&mut text, count);
    text
}

/// Seconds, humanized: `13s`, `2m 14s`, `3h 21m`.
pub open spec fn duration_text(seconds: nat) -> Seq<char> {
    let hours = seconds / 3600;
    let minutes = (seconds % 3600) / 60;
    let rest = seconds % 60;
    if hours > 0 {
        dec(hours) + "h "@ + dec(minutes) + "m"@
    } else if minutes > 0 {
        dec(minutes) + "m "@ + dec(rest) + "s"@
    } else {
        dec(rest) + "s"@
    }
}

/// A humanized duration names whole hours and the minutes left over, or whole minutes and the
/// seconds left over, or the seconds: each figure the largest that fits, every lower one below
/// its unit's size, so the figures shown account for the duration to within the unit dropped.
pub proof fn law_duration_figures_are_carried(s: nat)
    ensures
        s >= 3600 ==> exists|h: nat, m: nat| #![trigger dec(h), dec(m)] h >= 1 && m < 60 && h * 3600 + m * 60 <= s
            < h * 3600 + m * 60 + 60 && duration_text(s) == dec(h) + "h "@ + dec(m) + "m"@,
        60 <= s < 3600 ==> exists|m: nat, r: nat| #![trigger dec(m), dec(r)] 1 <= m < 60 && r < 60 && m * 60 + r == s
            && duration_text(s) == dec(m) + "m "@ + dec(r) + "s"@,
        s < 60 ==> duration_text(s) == dec(s) + "s"@,
{
    let h = s / 3600;
    let m = (s % 3600) / 60;
    let r = s % 60;
    vstd::arithmetic::div_mod::lemma_fundamental_div_mod(s as int, 3600);
    vstd::arithmetic::div_mod::lemma_fundamental_div_mod((s % 3600) as int, 60);
    vstd::arithmetic::div_mod::lemma_mod_mod(s as int, 60, 60);
    assert(h * 3600 + (s % 3600) == s);
    assert(m * 60 + (s % 3600) % 60 == s % 3600);
    assert((s % 3600) % 60 == s % 60);
    if s >= 3600 {
        assert(h >= 1);
        assert(m < 60);
        assert(dec(h) == dec(h) && dec(m) == dec(m));
    } else if s >= 60 {
        assert(h == 0);
        assert(s % 3600 == s);
        assert(dec(m) == dec(m) && dec(r) == dec(r));
    } else {
        assert(s % 3600 == s);
    }
}

/// Seconds, humanized.
pub fn duration(seconds: u64) -> (text: String)
    ensures
        text@ == duration_text(seconds as nat),
{
    let (hours, minutes, rest) = (seconds / 3600, (seconds % 3600) / 60, seconds % 60);
    let mut text = String::new();
    if hours > 0 {
        push_decimal(&mut text, hours);
        text.append("h ");
        push_decimal(&mut text, minutes);
        text.append("m");
    } else if minutes > 0 {
        push_decimal(&mut text, minutes);
        text.append("m ");
        push_decimal(&mut text, rest);
        text.append("s");
    } else {
        push_decimal(&mut text, rest);
        text.append("s");
    }
    text
}

/// A JSON string literal, or `null`.
pub open spec fn json_or_null(text: Option<Seq<char>>) -> Seq<char> {
    match text {
        Some(t) => json_quoted(t),
        None => "null"@,
    }
}

/// The stop record: the resulting state and the rung that ended the stop, `null` for a no-op.
pub open spec fn stop_record_text(manifest: Seq<char>, state: Seq<char>, rung: Option<Seq<char>>) -> Seq<char> {
    "{\"manifest\":"@ + json_quoted(manifest) + ",\"rung\":"@ + json_or_null(rung) + ",\"state\":"@
        + json_quoted(state) + "}"@
}

/// One sandbox's stop record, the object `viv stop --json` prints and the sweep's rows repeat.
pub fn stop_row(manifest: &str, state: &str, rung: Option<&'static str>) -> (text: String)
    ensures
        text@ == stop_record_text(manifest@, state@, match rung {
            Some(r) => Some(r@),
            None => None,
        }),
{
    let mut text = String::new();
    text.append("{\"manifest\":");
    let q = json_string(manifest);
    text.append(q.as_str());
    text.append(",\"rung\":");
    match rung {
        Some(r) => {
            let q = json_string(r);
            text.append(q.as_str());
        },
        None => text.append("null"),
    }
    text.append(",\"state\":");
    let q = json_string(state);
    text.append(q.as_str());
    text.append("}");
    text
}

/// `viv stop --json`: one stop record and a newline.
pub fn stop_json(manifest: &str, state: &str, rung: Option<&'static str>) -> (text: String)
    ensures
        text@ == stop_record_text(manifest@, state@, match rung {
            Some(r) => Some(r@),
            None => None,
        }) + "\n"@,
{
    let mut text = stop_row(manifest, state, rung);
    text.append("\n");
    text
}

} // verus!
