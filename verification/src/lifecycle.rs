//! The lifecycle's decisions: what state a VM is in, whether a start is admitted, how long a stop
//! waits, where a target's runtime files live, and what the service manager's answers mean.
//!
//! Each decision is a total function of the facts gathered for it, so every row of every table is
//! decided here and the gathering is left to whoever can read the host.
use vstd::prelude::*;
use vstd::utf8::*;
use vstd::string::*;
use crate::exit::ExitKind;
use crate::failure::{diagnosed, Failure, Locus, Namespace, Success};
use crate::grammar::Output;
use crate::numbers::{parse_i64, parse_u64, std_parse_i64, std_parse_u64};
use crate::paths::{join, join_path, XdgRoots};
use crate::render::{bytes, bytes_text, push_bytes, stop_json, stop_record_text, GIB};
use crate::text::{dec, push_decimal, split_lines, strip_prefix, texts, trim, trim_spec, lines_of, has_prefix};

verus! {

/// The lifecycle states `status` reports against.
#[derive(Clone, Copy, Debug, PartialEq, Eq, Structural)]
pub enum State {
    /// Nothing built and nothing running.
    Absent,
    /// A build output exists and no VM is up.
    Built,
    /// A boot in flight.
    Starting,
    /// The VM is up and its runtime records are live.
    Running,
    /// A stop in flight.
    Stopping,
    /// Runtime records present and the process behind them is gone.
    Failed,
}

/// The spelling of each state.
pub open spec fn state_text(s: State) -> Seq<char> {
    match s {
        State::Absent => "absent"@,
        State::Built => "built"@,
        State::Starting => "starting"@,
        State::Running => "running"@,
        State::Stopping => "stopping"@,
        State::Failed => "failed"@,
    }
}

impl State {
    /// The spelling the `state` field carries.
    pub fn as_str(self) -> (s: &'static str)
        ensures
            s@ == state_text(self),
    {
        match self {
            State::Absent => "absent",
            State::Built => "built",
            State::Starting => "starting",
            State::Running => "running",
            State::Stopping => "stopping",
            State::Failed => "failed",
        }
    }
}

/// Which rung of the stop ladder ended a stop.
#[derive(Clone, Copy, Debug, PartialEq, Eq, Structural)]
pub enum StopRung {
    /// The guest agent acknowledged the shutdown and the guest powered itself off.
    Agent,
    /// The supervisor's power signal brought the guest down.
    PowerSignal,
    /// The group was killed when the ladder ran out.
    HardPoweroff,
}

/// The spelling of each rung.
pub open spec fn rung_text(r: StopRung) -> Seq<char> {
    match r {
        StopRung::Agent => "agent"@,
        StopRung::PowerSignal => "power-signal"@,
        StopRung::HardPoweroff => "hard-poweroff"@,
    }
}

impl StopRung {
    /// The spelling the `rung` field carries.
    pub fn as_str(self) -> (s: &'static str)
        ensures
            s@ == rung_text(self),
    {
        match self {
            StopRung::Agent => "agent",
            StopRung::PowerSignal => "power-signal",
            StopRung::HardPoweroff => "hard-poweroff",
        }
    }
}

/// What is behind a target's records: three answers, because "could not tell" must be sayable
/// where both destructive actions would hit a VM that is in fact running.
#[derive(Clone, Copy, Debug, PartialEq, Eq, Structural)]
pub enum Presence {
    /// A process is there and its owning unit says the VM is its.
    Live,
    /// Nothing is there, or the unit that would own it says it is not running.
    Dead,
    /// Neither answer is established.
    Indeterminate,
}

/// The presence judgment as a total function of the pid's liveness and the unit's ownership.
pub open spec fn presence_spec(pid_alive: Option<bool>, unit_owns: Option<bool>) -> Presence {
    if pid_alive == Some(false) || unit_owns == Some(false) {
        Presence::Dead
    } else if unit_owns == Some(true) {
        Presence::Live
    } else {
        Presence::Indeterminate
    }
}

/// Only a positive answer from either side is death; no evidence is never death.
pub fn presence_of(pid_alive: Option<bool>, unit_owns: Option<bool>) -> (p: Presence)
    ensures
        p == presence_spec(pid_alive, unit_owns),
{
    match (pid_alive, unit_owns) {
        (Some(false), _) | (_, Some(false)) => Presence::Dead,
        (_, Some(true)) => Presence::Live,
        (_, None) => Presence::Indeterminate,
    }
}

/// Whether a unit state owns a VM: `None` for an empty or unrecognized state.
pub open spec fn ownership_spec(state: Seq<char>) -> Option<bool> {
    if state == "active"@ || state == "reloading"@ || state == "refreshing"@ || state
        == "activating"@ || state == "deactivating"@ {
        Some(true)
    } else if state == "inactive"@ || state == "failed"@ {
        Some(false)
    } else {
        None
    }
}

/// Whether two texts are equal.
pub fn same_text(a: &str, b: &str) -> (same: bool)
    ensures
        same == (a@ == b@),
{
    let n = a.unicode_len();
    if n != b.unicode_len() {
        return false;
    }
    let mut i: usize = 0;
    while i < n
        invariant
            i <= n,
            n == a@.len(),
            n == b@.len(),
            forall|j: int| 0 <= j < i ==> a@[j] == b@[j],
        decreases n - i,
    {
        if a.get_char(i) != b.get_char(i) {
            return false;
        }
        i = i + 1;
    }
    assert(a@ =~= b@);
    true
}

/// The state-name half of the ownership question.
pub fn ownership_of(state: &str) -> (owns: Option<bool>)
    ensures
        owns == ownership_spec(state@),
{
    if same_text(state, "active") || same_text(state, "reloading") || same_text(state, "refreshing")
        || same_text(state, "activating") || same_text(state, "deactivating") {
        Some(true)
    } else if same_text(state, "inactive") || same_text(state, "failed") {
        Some(false)
    } else {
        None
    }
}

/// The state discriminator, as a total function of the four facts it reads.
pub open spec fn classify_spec(has_records: bool, has_build: bool, alive: bool, unit: Option<Seq<char>>) -> State {
    if !has_records {
        if unit == Some("activating"@) {
            State::Starting
        } else if unit == Some("deactivating"@) {
            State::Stopping
        } else if has_build {
            State::Built
        } else {
            State::Absent
        }
    } else if alive {
        if unit == Some("deactivating"@) {
            State::Stopping
        } else if unit == Some("activating"@) {
            State::Starting
        } else if unit == Some("active"@) || unit == Some("reloading"@) || unit == Some(
            "refreshing"@,
        ) {
            State::Running
        } else {
            State::Failed
        }
    } else if unit == Some("activating"@) {
        State::Starting
    } else if unit == Some("deactivating"@) {
        State::Stopping
    } else {
        State::Failed
    }
}

fn unit_is(unit: Option<&str>, name: &str) -> (r: bool)
    ensures
        r == (match unit {
            Some(u) => u@ == name@,
            None => false,
        }),
{
    match unit {
        Some(u) => same_text(u, name),
        None => false,
    }
}

/// The discriminator: records, build output, the VM's own process, and its owning unit.
///
/// A unit in transition outranks the resting states, and a live pid alone is never `running`:
/// pids are reused, so the owning unit has to say so too.
pub fn classify(has_records: bool, has_build: bool, alive: bool, unit: Option<&str>) -> (s: State)
    ensures
        s == classify_spec(has_records, has_build, alive, match unit {
            Some(u) => Some(u@),
            None => None,
        }),
{
    if !has_records {
        return if unit_is(unit, "activating") {
            State::Starting
        } else if unit_is(unit, "deactivating") {
            State::Stopping
        } else if has_build {
            State::Built
        } else {
            State::Absent
        };
    }
    if alive {
        return if unit_is(unit, "deactivating") {
            State::Stopping
        } else if unit_is(unit, "activating") {
            State::Starting
        } else if unit_is(unit, "active") || unit_is(unit, "reloading") || unit_is(unit, "refreshing") {
            State::Running
        } else {
            State::Failed
        };
    }
    if unit_is(unit, "activating") {
        State::Starting
    } else if unit_is(unit, "deactivating") {
        State::Stopping
    } else {
        State::Failed
    }
}

/// The memory every admitted start leaves the host: one gibibyte.
pub const MEMORY_RESERVE_BYTES: u64 = 1073741824;

/// The admission table's three answers.
#[derive(Clone, Copy, Debug, PartialEq, Eq, Structural)]
pub enum Admission {
    /// Available host memory is below the reserve: refuse before any build.
    Refuse,
    /// The fleet's measured use plus the reserve exceeds what is available: warn and proceed.
    Warn,
    /// Nothing to say.
    Proceed,
}

/// The admission table, total over the two readings; an absent reading decides nothing.
pub open spec fn admission_spec(available: Option<u64>, fleet_used: Option<u64>) -> Admission {
    match available {
        None => Admission::Proceed,
        Some(a) => if a < MEMORY_RESERVE_BYTES {
            Admission::Refuse
        } else {
            match fleet_used {
                Some(used) => if used + MEMORY_RESERVE_BYTES > a {
                    Admission::Warn
                } else {
                    Admission::Proceed
                },
                None => Admission::Proceed,
            }
        },
    }
}

/// The admission decision.
pub fn admission_for(available: Option<u64>, fleet_used: Option<u64>) -> (a: Admission)
    ensures
        a == admission_spec(available, fleet_used),
{
    let available = match available {
        Some(a) => a,
        None => {
            return Admission::Proceed;
        },
    };
    if available < MEMORY_RESERVE_BYTES {
        return Admission::Refuse;
    }
    match fleet_used {
        Some(used) => if used > available - MEMORY_RESERVE_BYTES {
            Admission::Warn
        } else {
            Admission::Proceed
        },
        None => Admission::Proceed,
    }
}

/// The fleet's measured memory use.
#[derive(Clone, Copy, Debug)]
pub struct FleetUse {
    /// How many project VMs are running.
    pub running: u64,
    /// How many of them had a memory reading.
    pub measured: u64,
    /// Whether the enumeration saw every sandbox.
    pub complete: bool,
    /// The sum of the readings, when there was any.
    pub measured_bytes: Option<u64>,
}

/// The admission warning: a partial sum or an incomplete scan is printed as the lower bound it
/// is, and an unknown host total drops its clause.
pub open spec fn admission_warning_text(fleet: FleetUse, total: Option<u64>, sandbox: Seq<char>) -> Seq<char> {
    let used = match fleet.measured_bytes {
        Some(b) => b,
        None => 0,
    };
    "warning: "@ + dec(fleet.running as nat) + " project VM"@ + (if fleet.running == 1 {
        Seq::empty()
    } else {
        "s"@
    }) + " "@ + (if fleet.running == 1 {
        "is"@
    } else {
        "are"@
    }) + " running and using "@ + (if fleet.measured < fleet.running || !fleet.complete {
        "at least "@
    } else {
        Seq::empty()
    }) + bytes_text(used as nat) + " of "@ + (match total {
        Some(t) => bytes_text(t as nat) + " "@,
        None => Seq::empty(),
    }) + "host memory.\n"@ + "         Starting `"@ + sandbox + "` may push the host into swap.\n"@
        + "         viv status -g     see what is running\n"@
        + "         viv stop          stop a project you are done with"@
}

/// The admission warning.
pub fn admission_warning(fleet: &FleetUse, total: Option<u64>, sandbox_id: &str) -> (text: String)
    ensures
        text@ == admission_warning_text(*fleet, total, sandbox_id@),
{
    let used = match fleet.measured_bytes {
        Some(b) => b,
        None => 0,
    };
    let mut text = String::new();
    text.append("warning: ");
    push_decimal(&mut text, fleet.running);
    text.append(" project VM");
    if fleet.running != 1 {
        text.append("s");
    }
    text.append(" ");
    if fleet.running == 1 {
        text.append("is");
    } else {
        text.append("are");
    }
    text.append(" running and using ");
    if fleet.measured < fleet.running || !fleet.complete {
        text.append("at least ");
    }
    push_bytes(&mut text, used);
    text.append(" of ");
    match total {
        Some(t) => {
            push_bytes(&mut text, t);
            text.append(" ");
        },
        None => {},
    }
    text.append("host memory.\n");
    text.append("         Starting `");
    text.append(sandbox_id);
    text.append("` may push the host into swap.\n");
    text.append("         viv status -g     see what is running\n");
    text.append("         viv stop          stop a project you are done with");
    text
}

/// The grace period before a hard poweroff.
pub open spec fn grace_spec(force: bool, timeout: Option<i64>) -> Option<u64> {
    if force {
        Some(0)
    } else {
        match timeout {
            Some(s) => if s < 0 {
                None
            } else {
                Some(s as u64)
            },
            None => Some(10),
        }
    }
}

/// `--force` is zero, the default is ten seconds, a negative timeout waits indefinitely.
pub fn grace_seconds(force: bool, timeout: Option<i64>) -> (g: Option<u64>)
    ensures
        g == grace_spec(force, timeout),
{
    if force {
        return Some(0);
    }
    match timeout {
        Some(seconds) => if seconds < 0 {
            None
        } else {
            Some(seconds as u64)
        },
        None => Some(10),
    }
}

/// One `MemoryCurrent` value, every unavailable spelling collapsed to `None`.
pub open spec fn memory_current_spec(value: Seq<char>) -> Option<u64> {
    let v = trim_spec(value);
    if v.len() == 0 || v == "[not set]"@ {
        None
    } else {
        match std_parse_u64(encode_utf8(v)) {
            Some(n) => if n == u64::MAX {
                None
            } else {
                Some(n)
            },
            None => None,
        }
    }
}

/// Reads a `MemoryCurrent` value: empty, `[not set]` and the `u64` ceiling are unavailable, and
/// zero is a reading.
pub fn parse_memory_current(value: &str) -> (m: Option<u64>)
    ensures
        m == memory_current_spec(value@),
{
    let v = trim(value);
    if v.unicode_len() == 0 || same_text(v, "[not set]") {
        return None;
    }
    match parse_u64(v.as_bytes()) {
        Some(n) => if n == u64::MAX {
            None
        } else {
            Some(n)
        },
        None => None,
    }
}

/// The two `show` properties, bound by key from `i` on.
pub open spec fn memory_show_from(lines: Seq<Seq<char>>, i: int, memory: Option<u64>, cgroup: Option<Seq<char>>) -> (Option<u64>, Option<Seq<char>>)
    decreases lines.len() - i,
{
    if i < 0 || i >= lines.len() {
        (memory, cgroup)
    } else if has_prefix(lines[i], "MemoryCurrent="@) {
        memory_show_from(lines, i + 1, memory_current_spec(lines[i].subrange("MemoryCurrent="@.len() as int, lines[i].len() as int)), cgroup)
    } else if has_prefix(lines[i], "ControlGroup="@) {
        let v = trim_spec(lines[i].subrange("ControlGroup="@.len() as int, lines[i].len() as int));
        memory_show_from(lines, i + 1, memory, if v.len() > 0 {
            Some(v)
        } else {
            cgroup
        })
    } else {
        memory_show_from(lines, i + 1, memory, cgroup)
    }
}

/// The measured memory and the control group, read by key from `systemctl show` output.
pub fn parse_unit_memory_show(shown: &str) -> (r: (Option<u64>, Option<String>))
    ensures
        (r.0, match r.1 {
            Some(c) => Some(c@),
            None => None,
        }) == memory_show_from(lines_of(shown@), 0, None, None),
{
    let lines = split_lines(shown);
    let ghost ls = texts(lines@);
    let mut memory: Option<u64> = None;
    let mut cgroup: Option<String> = None;
    let mut i: usize = 0;
    while i < lines.len()
        invariant
            i <= lines.len(),
            ls == texts(lines@),
            ls == lines_of(shown@),
            memory_show_from(ls, 0, None, None) == memory_show_from(ls, i as int, memory, match cgroup {
                Some(c) => Some(c@),
                None => None,
            }),
        decreases lines.len() - i,
    {
        let line = lines[i].as_str();
        assert(ls[i as int] == line@);
        match strip_prefix(line, "MemoryCurrent=") {
            Some(value) => {
                memory = parse_memory_current(value);
            },
            None => match strip_prefix(line, "ControlGroup=") {
                Some(value) => {
                    let value = trim(value);
                    if value.unicode_len() > 0 {
                        cgroup = Some(value.to_owned());
                    }
                },
                None => {},
            },
        }
        i = i + 1;
    }
    (memory, cgroup)
}

/// The declared ceilings in force for one launch.
#[derive(Clone, Copy, Debug, PartialEq, Eq, Structural)]
pub struct Resources {
    pub mem_mib: u64,
    pub vcpu: u64,
}

/// What a manifest declares of the ceilings; an absent one resolves from the host.
#[derive(Clone, Copy, Debug, PartialEq, Eq, Structural)]
pub struct DeclaredResources {
    pub mem_mib: Option<u32>,
    pub vcpu: Option<u32>,
}

/// Half of host physical memory, rounded down to a whole GiB, clamped to 4-16 GiB; a host that
/// will not say gets the floor.
pub open spec fn host_mem_spec(total_bytes: Option<u64>) -> u64 {
    match total_bytes {
        None => 4096,
        Some(b) => {
            let half = ((b / MIB_BYTES) / 2) / 1024 * 1024;
            if half < 4096 {
                4096
            } else if half > 16384 {
                16384
            } else {
                half as u64
            }
        },
    }
}

pub const MIB_BYTES: u64 = 1048576;

/// The memory ceiling a host gives an undeclared one, from its `MemTotal` in bytes.
pub fn host_mem_mib(total_bytes: Option<u64>) -> (mib: u64)
    ensures
        mib == host_mem_spec(total_bytes),
        4096 <= mib <= 16384,
        mib % 1024 == 0,
{
    match total_bytes {
        None => 4096,
        Some(b) => {
            let half = ((b / MIB_BYTES) / 2) / 1024 * 1024;
            if half < 4096 {
                4096
            } else if half > 16384 {
                16384
            } else {
                half
            }
        },
    }
}

/// The host's CPU count capped at eight, or one when it cannot be read.
pub open spec fn host_vcpu_spec(parallelism: Option<u64>) -> u64 {
    match parallelism {
        None => 1,
        Some(c) => if c > 8 {
            8
        } else {
            c
        },
    }
}

/// The vCPU ceiling a host gives an undeclared one, from its available parallelism.
pub fn host_vcpu(parallelism: Option<u64>) -> (vcpu: u64)
    ensures
        vcpu == host_vcpu_spec(parallelism),
{
    match parallelism {
        None => 1,
        Some(c) => if c > 8 {
            8
        } else {
            c
        },
    }
}

/// The ceilings in force: a declared one wins, and an undeclared one resolves from the host.
pub open spec fn effective_spec(declared: Option<DeclaredResources>, total_bytes: Option<u64>, parallelism: Option<u64>) -> Resources {
    Resources {
        mem_mib: match declared {
            Some(d) => match d.mem_mib {
                Some(m) => m as u64,
                None => host_mem_spec(total_bytes),
            },
            None => host_mem_spec(total_bytes),
        },
        vcpu: match declared {
            Some(d) => match d.vcpu {
                Some(v) => v as u64,
                None => host_vcpu_spec(parallelism),
            },
            None => host_vcpu_spec(parallelism),
        },
    }
}

/// An undeclared vCPU ceiling is the host's CPU count, capped at 8: every available CPU up to
/// eight, never more than eight, one when the host cannot say; a declared ceiling is used as
/// declared, whatever the host has.
pub proof fn law_undeclared_vcpu_is_the_host_count_capped(declared: Option<DeclaredResources>, total_bytes: Option<u64>, parallelism: Option<u64>)
    ensures
        ({
            let r = effective_spec(declared, total_bytes, parallelism);
            let undeclared = match declared {
                Some(d) => d.vcpu is None,
                None => true,
            };
            &&& parallelism matches Some(c) ==> (undeclared ==> r.vcpu <= 8 && r.vcpu <= c
                && (r.vcpu == c || r.vcpu == 8) && (c <= 8 ==> r.vcpu == c) && (c >= 8 ==> r.vcpu == 8))
            &&& undeclared && parallelism is None ==> r.vcpu == 1
            &&& declared matches Some(d) ==> (d.vcpu matches Some(v) ==> r.vcpu == v)
        }),
{
}

/// The ceilings for one launch, each knob independently.
pub fn effective_resources(declared: Option<DeclaredResources>, total_bytes: Option<u64>, parallelism: Option<u64>) -> (r: Resources)
    ensures
        r == effective_spec(declared, total_bytes, parallelism),
{
    let mem_mib = match declared {
        Some(d) => match d.mem_mib {
            Some(m) => m as u64,
            None => host_mem_mib(total_bytes),
        },
        None => host_mem_mib(total_bytes),
    };
    let vcpu = match declared {
        Some(d) => match d.vcpu {
            Some(v) => v as u64,
            None => host_vcpu(parallelism),
        },
        None => host_vcpu(parallelism),
    };
    Resources { mem_mib, vcpu }
}


/// Where one target's runtime files live, and the unit that owns them.
#[derive(Clone, Debug)]
pub struct Runtime {
    pub directory: String,
    pub unit: String,
}

/// The unit the launcher hands `systemd-run`, which `stop` and `status` must name without asking.
pub open spec fn unit_name(sandbox_id: Seq<char>, target: Seq<char>) -> Seq<char> {
    "vivarium-"@ + sandbox_id + "-"@ + target + ".service"@
}

/// A target's runtime directory.
pub open spec fn runtime_directory(root: Seq<char>, sandbox_id: Seq<char>, target: Seq<char>) -> Seq<char> {
    join(join(root, sandbox_id), target)
}

/// Whether `f` is the refusal of a control socket path that does not fit `sun_path`.
pub open spec fn is_socket_refusal(f: Failure, control: Seq<char>) -> bool {
    match f {
        Failure::Diagnosed { diagnostic: d, code } => {
            &&& code == ExitKind::Config
            &&& d.namespace == Namespace::Host
            &&& d.id@ == "runtime-socket-path-too-long"@
            &&& d.what@ == "the sandbox control socket does not fit in a Unix socket path"@
            &&& (match d.locus {
                Locus::File(p) => p@ == control,
                Locus::Named(_) => false,
            })
            &&& d.why@ == "the rendered path is "@ + dec(encode_utf8(control).len())
                + " bytes; Linux `sun_path` permits at most 107 path bytes"@
            &&& (match d.hint {
                Some(h) => h@ == "use a shorter `XDG_RUNTIME_DIR` or a shorter manifest name"@,
                None => false,
            })
        },
        Failure::Usage(_) => false,
    }
}

fn runtime_of(runtime_root: &str, sandbox_id: &str, target: &str) -> (r: Runtime)
    ensures
        r.directory@ == runtime_directory(runtime_root@, sandbox_id@, target@),
        r.unit@ == unit_name(sandbox_id@, target@),
{
    let id_dir = join_path(runtime_root, sandbox_id);
    let directory = join_path(id_dir.as_str(), target);
    let mut unit = String::new();
    unit.append("vivarium-");
    unit.append(sandbox_id);
    unit.append("-");
    unit.append(target);
    unit.append(".service");
    Runtime { directory, unit }
}

impl Runtime {
    /// Locates a target's runtime, refusing a control socket path longer than `sun_path` holds:
    /// 107 path bytes.
    pub fn locate(runtime_root: &str, sandbox_id: &str, target: &str) -> (r: Result<Runtime, Failure>)
        ensures
            ({
                let dir = runtime_directory(runtime_root@, sandbox_id@, target@);
                let control = join(dir, "control.sock"@);
                match r {
                    Ok(rt) => rt.directory@ == dir && rt.unit@ == unit_name(sandbox_id@, target@)
                        && encode_utf8(control).len() < 108,
                    Err(f) => encode_utf8(control).len() >= 108 && is_socket_refusal(f, control),
                }
            }),
    {
        let runtime = runtime_of(runtime_root, sandbox_id, target);
        let control = runtime.control_socket();
        let length = control.as_str().as_bytes().len();
        if length >= 108 {
            let mut why = String::new();
            why.append("the rendered path is ");
            push_decimal(&mut why, length as u64);
            why.append(" bytes; Linux `sun_path` permits at most 107 path bytes");
            let shown = control.clone();
            let failure = diagnosed(
                Namespace::Host,
                "runtime-socket-path-too-long",
                "the sandbox control socket does not fit in a Unix socket path".to_owned(),
                Locus::File(shown),
                why,
                ExitKind::Config,
            );
            return Err(failure.with_hint("use a shorter `XDG_RUNTIME_DIR` or a shorter manifest name".to_owned()));
        }
        Ok(runtime)
    }

    /// The same location without the socket-length refusal, for enumeration only: an
    /// enumeration never binds the socket.
    pub fn for_report(runtime_root: &str, sandbox_id: &str, target: &str) -> (r: Runtime)
        ensures
            r.directory@ == runtime_directory(runtime_root@, sandbox_id@, target@),
            r.unit@ == unit_name(sandbox_id@, target@),
    {
        runtime_of(runtime_root, sandbox_id, target)
    }

    /// The supervisor's boot record.
    pub fn boot_json(&self) -> (p: String)
        ensures
            p@ == join(self.directory@, "boot.json"@),
    {
        join_path(self.directory.as_str(), "boot.json")
    }

    /// The VM's recorded pid.
    pub fn vm_pid(&self) -> (p: String)
        ensures
            p@ == join(self.directory@, "vm.pid"@),
    {
        join_path(self.directory.as_str(), "vm.pid")
    }

    /// The launch specification a boot put in force.
    pub fn launch_spec(&self) -> (p: String)
        ensures
            p@ == join(self.directory@, "launch.json"@),
    {
        join_path(self.directory.as_str(), "launch.json")
    }

    /// The guest agent's control socket.
    pub fn control_socket(&self) -> (p: String)
        ensures
            p@ == join(self.directory@, "control.sock"@),
    {
        join_path(self.directory.as_str(), "control.sock")
    }

    /// The supervisor-owned console capture.
    pub fn console_log(&self) -> (p: String)
        ensures
            p@ == join(self.directory@, "console.log"@),
    {
        join_path(self.directory.as_str(), "console.log")
    }

    /// The per-target startup lock.
    pub fn lock(&self) -> (p: String)
        ensures
            p@ == join(self.directory@, "lock"@),
    {
        join_path(self.directory.as_str(), "lock")
    }
}

/// A project target's directory under the state root.
pub open spec fn project_target(roots: XdgRoots, sandbox_id: Seq<char>, target: Seq<char>) -> Seq<char> {
    join(join(join(roots.state@, "projects"@), sandbox_id), target)
}

fn project_target_path(roots: &XdgRoots, sandbox_id: &str, target: &str) -> (p: String)
    ensures
        p@ == project_target(*roots, sandbox_id@, target@),
{
    let projects = join_path(roots.state.as_str(), "projects");
    let project = join_path(projects.as_str(), sandbox_id);
    join_path(project.as_str(), target)
}

/// Where the running VM's own build is recorded: beside its volumes, not in the runtime
/// directory the supervisor sweeps.
pub fn running_build_path(roots: &XdgRoots, sandbox_id: &str, target: &str) -> (p: String)
    ensures
        p@ == join(project_target(*roots, sandbox_id@, target@), "running-build"@),
{
    let base = project_target_path(roots, sandbox_id, target);
    join_path(base.as_str(), "running-build")
}

/// Where one project's persistent volumes live.
pub fn volume_directory(roots: &XdgRoots, sandbox_id: &str, target: &str) -> (p: String)
    ensures
        p@ == join(project_target(*roots, sandbox_id@, target@), "volumes"@),
{
    let base = project_target_path(roots, sandbox_id, target);
    join_path(base.as_str(), "volumes")
}

/// The pid a `vm.pid` record names: a positive `i32` after trimming, and nothing otherwise.
pub open spec fn pid_spec(raw: Seq<char>) -> Option<i32> {
    match std_parse_i64(encode_utf8(trim_spec(raw))) {
        Some(v) => if 0 < v <= i32::MAX {
            Some(v as i32)
        } else {
            None
        },
        None => None,
    }
}

/// Reads a pid record; a record that parses but names no process is rejected, never resolved.
pub fn pid_of_record(raw: &str) -> (pid: Option<i32>)
    ensures
        pid == pid_spec(raw@),
{
    let text = trim(raw);
    match parse_i64(text.as_bytes()) {
        Some(v) => if 0 < v && v <= 0x7fff_ffff {
            Some(v as i32)
        } else {
            None
        },
        None => None,
    }
}

/// What the kernel answered to signal 0.
#[derive(Clone, Copy, Debug, PartialEq, Eq, Structural)]
pub enum ProcessProbe {
    /// The process exists and may be signalled.
    Alive,
    /// The process exists and belongs to someone else.
    NotPermitted,
    /// There is no such process.
    Gone,
    /// The probe itself failed.
    Unknown,
}

/// Calls `rustix::process::test_kill_process`: signal 0, which sends nothing. The answer depends
/// on the host's processes at the moment of the call, so nothing is promised of it.
#[verifier::external_body]
fn probe_process(pid: i32) -> (answer: ProcessProbe)
    requires
        pid > 0,
{
    match rustix::process::Pid::from_raw(pid) {
        Some(pid) => match rustix::process::test_kill_process(pid) {
            Ok(()) => ProcessProbe::Alive,
            Err(rustix::io::Errno::PERM) => ProcessProbe::NotPermitted,
            Err(rustix::io::Errno::SRCH) => ProcessProbe::Gone,
            Err(_) => ProcessProbe::Unknown,
        },
        None => ProcessProbe::Unknown,
    }
}

/// What a probe establishes: a process someone else owns is still alive, "no such process" is
/// the one positive death, and a failed probe establishes nothing.
pub open spec fn liveness_spec(answer: ProcessProbe) -> Option<bool> {
    match answer {
        ProcessProbe::Alive | ProcessProbe::NotPermitted => Some(true),
        ProcessProbe::Gone => Some(false),
        ProcessProbe::Unknown => None,
    }
}

pub fn liveness_of(answer: ProcessProbe) -> (alive: Option<bool>)
    ensures
        alive == liveness_spec(answer),
{
    match answer {
        ProcessProbe::Alive | ProcessProbe::NotPermitted => Some(true),
        ProcessProbe::Gone => Some(false),
        ProcessProbe::Unknown => None,
    }
}

/// What a `vm.pid` record establishes, with no evidence kept apart from death: a missing,
/// malformed or non-positive record is `None`, and only a probed process is ever `Some`.
pub fn recorded_pid_liveness(record: Option<&str>) -> (alive: Option<bool>)
    ensures
        match record {
            None => alive is None,
            Some(raw) => pid_spec(raw@) is None ==> alive is None,
        },
{
    let raw = match record {
        Some(raw) => raw,
        None => {
            return None;
        },
    };
    match pid_of_record(raw) {
        Some(pid) => liveness_of(probe_process(pid)),
        None => None,
    }
}

/// The stop verb's result: the stop record under `--json`, empty stdout otherwise.
pub fn stop_record(manifest: &str, state: State, rung: Option<StopRung>, output: Output) -> (s: Success)
    ensures
        s.notes@ == Seq::<char>::empty(),
        s.stdout@ == (if output == Output::Json {
            stop_record_text(manifest@, state_text(state), match rung {
                Some(r) => Some(rung_text(r)),
                None => None,
            }) + "\n"@
        } else {
            Seq::<char>::empty()
        }),
{
    if output.is_json() {
        let rung_text = match rung {
            Some(r) => Some(r.as_str()),
            None => None,
        };
        Success::plain(stop_json(manifest, state.as_str(), rung_text))
    } else {
        Success::plain(String::new())
    }
}

/// What a completed start pipeline did.
pub enum StartOutcome {
    /// Nothing was booted, and the note says why.
    AlreadyRunning { notes: String },
    /// A boot this command performed, with the ceilings it was launched with.
    Booted { resources: Resources },
}

/// The closing line of a boot.
pub open spec fn booted_text(r: Resources) -> Seq<char> {
    "running · "@ + dec(r.mem_mib as nat) + " MiB · "@ + dec(r.vcpu as nat) + " vcpu\n"@
}

/// The start verb's result: a short-circuit's note, or the closing line of a boot, both on
/// stderr; stdout stays empty.
pub fn start(outcome: StartOutcome) -> (s: Success)
    ensures
        s.stdout@ == Seq::<char>::empty(),
        s.notes@ == (match outcome {
            StartOutcome::AlreadyRunning { notes } => notes@,
            StartOutcome::Booted { resources } => booted_text(resources),
        }),
{
    match outcome {
        StartOutcome::AlreadyRunning { notes } => Success { stdout: String::new(), notes },
        StartOutcome::Booted { resources } => {
            let mut notes = String::new();
            notes.append("running · ");
            push_decimal(&mut notes, resources.mem_mib);
            notes.append(" MiB · ");
            push_decimal(&mut notes, resources.vcpu);
            notes.append(" vcpu\n");
            Success { stdout: String::new(), notes }
        },
    }
}

/// The note a start leaves a running VM with: stale when it was launched from a build other than
/// the one just produced, and plainly running otherwise.
pub open spec fn already_running_text(sandbox_id: Seq<char>, launched: Option<Seq<char>>, store_path: Seq<char>) -> Seq<char> {
    if launched matches Some(l) && l != store_path {
        "`"@ + sandbox_id + "` is running an older build and was left alone\n"@
            + "the new build is ready; `viv start --rebuild` replaces the running VM with it\n"@
    } else {
        "`"@ + sandbox_id + "` is already running\n"@
    }
}

pub fn already_running_note(sandbox_id: &str, launched: Option<&str>, store_path: &str) -> (note: String)
    ensures
        note@ == already_running_text(sandbox_id@, match launched {
            Some(l) => Some(l@),
            None => None,
        }, store_path@),
{
    let stale = match launched {
        Some(l) => !same_text(l, store_path),
        None => false,
    };
    let mut note = String::new();
    note.append("`");
    note.append(sandbox_id);
    if stale {
        note.append("` is running an older build and was left alone\n");
        note.append("the new build is ready; `viv start --rebuild` replaces the running VM with it\n");
    } else {
        note.append("` is already running\n");
    }
    note
}

/// Only positive evidence is death: a target reads `Dead` exactly when the kernel said its
/// process is gone or its manager disowned it, and two non-answers are never `Dead`.
pub proof fn law_death_needs_positive_evidence(pid_alive: Option<bool>, unit_owns: Option<bool>)
    ensures
        (presence_spec(pid_alive, unit_owns) == Presence::Dead) == (pid_alive == Some(false)
            || unit_owns == Some(false)),
        presence_spec(None, None) == Presence::Indeterminate,
{
}

/// A live process is never `running` on its own: `running` needs records, a live process, and
/// the owning unit active, and a unit in transition is reported as the transition.
pub proof fn law_running_needs_the_unit(has_records: bool, has_build: bool, alive: bool, unit: Option<Seq<char>>)
    ensures
        (classify_spec(has_records, has_build, alive, unit) == State::Running) == (has_records && alive
            && (unit == Some("active"@) || unit == Some("reloading"@) || unit == Some("refreshing"@))),
        unit == Some("activating"@) ==> classify_spec(has_records, has_build, alive, unit) == State::Starting,
{
    reveal_strlit("activating");
    reveal_strlit("deactivating");
    reveal_strlit("active");
    reveal_strlit("reloading");
    reveal_strlit("refreshing");
    assert("activating"@ != "refreshing"@) by {
        assert("activating"@[0] != "refreshing"@[0]);
    }
    assert("activating"@ != "deactivating"@) by {
        assert("activating"@.len() != "deactivating"@.len());
    }
    assert("activating"@ != "active"@) by {
        assert("activating"@.len() != "active"@.len());
    }
    assert("activating"@ != "reloading"@) by {
        assert("activating"@.len() != "reloading"@.len());
    }
    assert("deactivating"@ != "active"@) by {
        assert("deactivating"@.len() != "active"@.len());
    }
    assert("deactivating"@ != "reloading"@) by {
        assert("deactivating"@.len() != "reloading"@.len());
    }
    assert("deactivating"@ != "refreshing"@) by {
        assert("deactivating"@.len() != "refreshing"@.len());
    }
}

/// A refusal comes from the host reading alone: the fleet term can warn, never refuse, and an
/// absent host reading decides nothing.
pub proof fn law_refusal_reads_the_host_alone(available: Option<u64>, fleet_used: Option<u64>)
    ensures
        (admission_spec(available, fleet_used) == Admission::Refuse) == (available matches Some(a)
            && a < MEMORY_RESERVE_BYTES),
        admission_spec(None, fleet_used) == Admission::Proceed,
        admission_spec(available, None) != Admission::Warn,
{
}

} // verus!
