//! The partial-failure rule of the verbs that act on several targets in one run (`viv stop
//! --all`, `viv trim`): every target is attempted, the first failure is the run's result, and a
//! run that failed anywhere emits no record.
use vstd::prelude::*;
use crate::failure::{law_first_failure_is_kept, recorded, swept, Failure, Success};
use crate::grammar::Output;
use crate::lifecycle::State;
use crate::records::{memory_trim_object, stop_all_json, trim_figures, trim_json, volume_trim_object, wrapped, TrimmedVolume};
use crate::text::json_quoted;
use crate::trim::{reclaimed_sum, MemoryTrimReading};
use crate::text::texts;

verus! {

/// Whether a stop acts on a sandbox in `state`: stopping one at rest is a no-op whose record names
/// no rung, and a sweep leaves it out of its rows.
pub open spec fn sweep_acts_on_spec(state: State) -> bool {
    !(state == State::Absent || state == State::Built)
}

pub fn sweep_acts_on(state: State) -> (acts: bool)
    ensures
        acts == sweep_acts_on_spec(state),
{
    !(state == State::Absent || state == State::Built)
}

/// What one sandbox of a stop sweep came to.
pub enum SweepEntry {
    /// It was at rest, and left alone.
    Resting,
    /// It was stopped; its stop record.
    Stopped(String),
    /// Its stop could not be confirmed.
    Failed(Failure),
}

/// The failures of a sweep, in the order the sandboxes were attempted.
pub open spec fn sweep_failures(entries: Seq<SweepEntry>) -> Seq<Failure>
    decreases entries.len(),
{
    if entries.len() == 0 {
        Seq::empty()
    } else {
        let rest = sweep_failures(entries.drop_first());
        match entries[0] {
            SweepEntry::Failed(f) => seq![f] + rest,
            _ => rest,
        }
    }
}

/// The stop records of a sweep, in the order the sandboxes were attempted.
pub open spec fn sweep_rows(entries: Seq<SweepEntry>) -> Seq<Seq<char>>
    decreases entries.len(),
{
    if entries.len() == 0 {
        Seq::empty()
    } else {
        let rest = sweep_rows(entries.drop_first());
        match entries[0] {
            SweepEntry::Stopped(row) => seq![row@] + rest,
            _ => rest,
        }
    }
}

proof fn lemma_swept_front(slot: Option<Failure>, f: Failure, rest: Seq<Failure>)
    ensures
        swept(slot, seq![f] + rest) == swept(recorded(slot, f), rest),
{
    let all = seq![f] + rest;
    assert(all[0] == f);
    assert(all.drop_first() =~= rest);
}

/// `viv stop --all`'s result: the first failure, or else the acted-on sandboxes' records (under
/// `projects` for `--json`, nothing for the human face, which was written as the sweep went).
pub fn stop_all_result(entries: Vec<SweepEntry>, output: Output) -> (r: Result<Success, Failure>)
    ensures
        sweep_failures(entries@).len() > 0 ==> r == Err::<Success, Failure>(sweep_failures(entries@)[0]),
        sweep_failures(entries@).len() == 0 ==> (r matches Ok(s) && s.notes@ == Seq::<char>::empty() && s.stdout@
            == (if output == Output::Json {
            wrapped("projects"@, sweep_rows(entries@))
        } else {
            Seq::<char>::empty()
        })),
{
    let ghost all = entries@;
    let mut rest = entries;
    let mut rows: Vec<String> = Vec::new();
    let mut first: Option<Failure> = None;
    while rest.len() > 0
        invariant
            sweep_rows(all) == texts(rows@) + sweep_rows(rest@),
            swept(None, sweep_failures(all)) == swept(first, sweep_failures(rest@)),
        decreases rest.len(),
    {
        let ghost before = rest@;
        let entry = rest.remove(0);
        assert(rest@ =~= before.drop_first());
        match entry {
            SweepEntry::Resting => {},
            SweepEntry::Stopped(row) => {
                let ghost before_rows = rows@;
                rows.push(row);
                assert(texts(rows@) =~= texts(before_rows).push(rows@.last()@));
                assert(texts(rows@) + sweep_rows(rest@) =~= texts(before_rows) + sweep_rows(before));
            },
            SweepEntry::Failed(f) => {
                proof {
                    lemma_swept_front(first, f, sweep_failures(rest@));
                }
                if first.is_none() {
                    first = Some(f);
                }
            },
        }
    }
    assert(texts(rows@) + sweep_rows(rest@) =~= texts(rows@));
    proof {
        law_first_failure_is_kept(None, sweep_failures(all));
    }
    match first {
        Some(f) => Err(f),
        None => {
            let stdout = match output {
                Output::Json => stop_all_json(&rows),
                Output::Human => String::new(),
            };
            Ok(Success::plain(stdout))
        },
    }
}

/// `viv trim`'s result once both rungs ran, memory first: the first rung that failed, or else
/// the combined record for `--json` and nothing for the human face, which streamed each rung's
/// line as it completed.
pub fn trim_result(
    memory: Result<(String, MemoryTrimReading), Failure>,
    volumes: Result<Vec<TrimmedVolume>, Failure>,
    output: Output,
) -> (r: Result<Success, Failure>)
    requires
        volumes matches Ok(rows) ==> reclaimed_sum(trim_figures(rows@)) <= u64::MAX,
    ensures
        memory matches Err(f) ==> r == Err::<Success, Failure>(f),
        memory is Ok ==> (volumes matches Err(f) ==> r == Err::<Success, Failure>(f)),
        memory matches Ok((manifest, reading)) ==> (volumes matches Ok(rows) ==> (r matches Ok(s)
            && s.notes@ == Seq::<char>::empty() && s.stdout@ == (if output == Output::Json {
            "{\"disk\":"@ + volume_trim_object(rows@) + ",\"manifest\":"@ + json_quoted(manifest@)
                + ",\"memory\":"@ + memory_trim_object(reading) + "}\n"@
        } else {
            Seq::<char>::empty()
        }))),
{
    match (memory, volumes) {
        (Err(f), _) => Err(f),
        (Ok(_), Err(f)) => Err(f),
        (Ok((manifest, reading)), Ok(rows)) => {
            let stdout = match output {
                Output::Json => trim_json(manifest.as_str(), &reading, &rows),
                Output::Human => String::new(),
            };
            Ok(Success::plain(stdout))
        },
    }
}

} // verus!
