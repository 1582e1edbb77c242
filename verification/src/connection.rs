//! One control connection to the guest agent, as a machine: the agent reads frames and performs
//! what it is told, and `connection_step` decides what each frame means.
//!
//! A connection is authorized by its first frame, a `Hello` naming this boot; after it, a query
//! (ping, session count, memory) or a request (shutdown, trim) is answered once and ends the
//! connection, a resize may come once before a session starts, and a `Start` turns the
//! connection into a session, counted among the live ones until it ends. Anything else is
//! answered with an error code and ends it.
use vstd::prelude::*;
use crate::agent::{meminfo_spec, parse_meminfo, MemoryReport};
use crate::lifecycle::same_text;
use crate::text::{dec, lines_of, push_decimal, texts};

verus! {

/// What a client sent, as far as the agent's decision reads it.
pub enum ClientFrame {
    Hello { schema_version: u32, boot_identity: String },
    Ping,
    Sessions,
    Shutdown,
    Memory,
    Trim { mountpoints: Vec<String> },
    Resize { rows: u16, cols: u16 },
    Start,
}

/// What the agent answers.
pub enum AgentReply {
    Hello { schema_version: u32, boot_identity: String },
    Pong,
    /// The live session count at the moment the query was read.
    Sessions(u64),
    ShutdownAck,
    Memory(MemoryReport),
    TrimAck,
    /// The connection is refused for this reason.
    Error(&'static str),
}

/// Where a connection is.
pub enum ConnectionPhase {
    /// Waiting for the authorizing `Hello`.
    AwaitingHello,
    /// The answering `Hello` is being written.
    Greeting,
    /// Authorized, reading requests; the terminal size a resize gave before any session.
    Serving { initial_size: Option<(u16, u16)> },
    /// Touching the poweroff trigger.
    Touching,
    /// Reading the kernel's memory account.
    Measuring,
    /// Waiting for the guest's fstrim unit.
    Trimming,
    /// A session runs; this connection is one of the live sessions counted.
    InSession,
    /// The one answer is being written; the connection ends with it.
    Answering,
    /// An error code is being written; the connection ends refused.
    Refusing,
    /// Over.
    Closed,
}

/// What happened.
pub enum ConnectionEvent {
    /// A frame was read.
    Frame(ClientFrame),
    /// What arrived was not a frame.
    Unreadable,
    /// The last reply was written, or could not be.
    Wrote(bool),
    /// The poweroff trigger was touched, or could not be.
    Touched(bool),
    /// What `/proc/meminfo` held, if it could be read.
    Meminfo(Option<String>),
    /// The trim completed, or failed or timed out.
    Trimmed(bool),
    /// The session ended: it returned, failed, or unwound.
    SessionEnded,
}

/// What the agent does next.
pub enum ConnectionAction {
    /// Read the next frame.
    Read,
    /// Write this reply.
    Send(AgentReply),
    /// Touch the trigger the root-owned poweroff path unit watches.
    TouchPoweroff,
    /// Read `/proc/meminfo`.
    ReadMeminfo,
    /// Hand these mountpoints to the fstrim unit and wait for its marker.
    Trim(Vec<String>),
    /// Count one more session and run it, with the size a resize gave.
    StartSession { initial_size: Option<(u16, u16)> },
    /// Count one session fewer and end the connection.
    EndSession,
    /// End the connection: accepted, or refused.
    Close(bool),
}

/// Whether a trim request is one the line-shaped trigger can carry: at least one mountpoint,
/// none empty, none holding a newline.
pub open spec fn trim_request_ok(mounts: Seq<Seq<char>>) -> bool {
    mounts.len() > 0 && forall|i: int| 0 <= i < mounts.len() ==> #[trigger] mounts[i].len() > 0 && !mounts[i].contains('\n')
}

/// Whether `event` can arrive in `phase`.
pub open spec fn connection_expects(phase: ConnectionPhase, event: ConnectionEvent) -> bool {
    match phase {
        ConnectionPhase::AwaitingHello | ConnectionPhase::Serving { .. } => event is Frame || event is Unreadable,
        ConnectionPhase::Greeting | ConnectionPhase::Answering | ConnectionPhase::Refusing => event is Wrote,
        ConnectionPhase::Touching => event is Touched,
        ConnectionPhase::Measuring => event is Meminfo,
        ConnectionPhase::Trimming => event is Trimmed,
        ConnectionPhase::InSession => event is SessionEnded,
        ConnectionPhase::Closed => false,
    }
}

/// Whether `next` and `action` refuse with `code`.
pub open spec fn refused_with(next: ConnectionPhase, action: ConnectionAction, code: Seq<char>) -> bool {
    next is Refusing && match action {
        ConnectionAction::Send(AgentReply::Error(c)) => c@ == code,
        _ => false,
    }
}

/// Whether `next` and `action` answer with the reply `p` accepts, ending the connection.
pub open spec fn answers(next: ConnectionPhase, action: ConnectionAction, p: spec_fn(AgentReply) -> bool) -> bool {
    next is Answering && match action {
        ConnectionAction::Send(r) => p(r),
        _ => false,
    }
}

/// One step of a control connection, for the boot `expected` under the protocol `schema`, with
/// `sessions` sessions live across the agent when the step is taken.
pub open spec fn connection_next(phase: ConnectionPhase, event: ConnectionEvent, schema: u32, expected: Seq<char>, sessions: u64, next: ConnectionPhase, action: ConnectionAction) -> bool {
    match (phase, event) {
        (ConnectionPhase::AwaitingHello, ConnectionEvent::Frame(ClientFrame::Hello { schema_version, boot_identity })) =>
            if schema_version == schema && boot_identity@ == expected {
            next is Greeting && match action {
                ConnectionAction::Send(AgentReply::Hello { schema_version: s, boot_identity: id }) => s == schema && id@ == expected,
                _ => false,
            }
        } else {
            refused_with(next, action, "authorization"@)
        },
        (ConnectionPhase::AwaitingHello, ConnectionEvent::Frame(_)) => refused_with(next, action, "authorization"@),
        (ConnectionPhase::AwaitingHello, ConnectionEvent::Unreadable) => refused_with(next, action, "framing"@),
        (ConnectionPhase::Greeting, ConnectionEvent::Wrote(ok)) => if ok {
            next == (ConnectionPhase::Serving { initial_size: None }) && action is Read
        } else {
            next is Closed && action == ConnectionAction::Close(false)
        },
        (ConnectionPhase::Answering, ConnectionEvent::Wrote(ok)) => next is Closed && action == ConnectionAction::Close(ok),
        (ConnectionPhase::Refusing, ConnectionEvent::Wrote(_)) => next is Closed && action == ConnectionAction::Close(false),
        (ConnectionPhase::Serving { initial_size }, ConnectionEvent::Frame(frame)) => match frame {
            ClientFrame::Ping => answers(next, action, |r: AgentReply| r is Pong),
            ClientFrame::Sessions => answers(next, action, |r: AgentReply| r == AgentReply::Sessions(sessions)),
            ClientFrame::Shutdown => next is Touching && action is TouchPoweroff,
            ClientFrame::Memory => next is Measuring && action is ReadMeminfo,
            ClientFrame::Trim { mountpoints } => if trim_request_ok(texts(mountpoints@)) {
                next is Trimming && match action {
                    ConnectionAction::Trim(m) => texts(m@) == texts(mountpoints@),
                    _ => false,
                }
            } else {
                refused_with(next, action, "trim"@)
            },
            ClientFrame::Resize { rows, cols } => if initial_size is None {
                next == (ConnectionPhase::Serving { initial_size: Some((rows, cols)) }) && action is Read
            } else {
                refused_with(next, action, "state"@)
            },
            ClientFrame::Start => next is InSession && action == (ConnectionAction::StartSession { initial_size }),
            ClientFrame::Hello { .. } => refused_with(next, action, "state"@),
        },
        (ConnectionPhase::Serving { .. }, ConnectionEvent::Unreadable) => refused_with(next, action, "framing"@),
        (ConnectionPhase::Touching, ConnectionEvent::Touched(ok)) => if ok {
            answers(next, action, |r: AgentReply| r is ShutdownAck)
        } else {
            refused_with(next, action, "shutdown"@)
        },
        (ConnectionPhase::Measuring, ConnectionEvent::Meminfo(text)) => match text {
            Some(t) => match meminfo_spec(t@) {
                Some(report) => answers(next, action, |r: AgentReply| r == AgentReply::Memory(report)),
                None => refused_with(next, action, "meminfo"@),
            },
            None => refused_with(next, action, "meminfo"@),
        },
        (ConnectionPhase::Trimming, ConnectionEvent::Trimmed(ok)) => if ok {
            answers(next, action, |r: AgentReply| r is TrimAck)
        } else {
            refused_with(next, action, "trim"@)
        },
        (ConnectionPhase::InSession, ConnectionEvent::SessionEnded) => next is Closed && action is EndSession,
        _ => false,
    }
}

/// How a step moves the agent's live-session count: up one as a session starts, down one as it
/// ends, and nowhere otherwise.
pub open spec fn count_change(action: ConnectionAction) -> int {
    match action {
        ConnectionAction::StartSession { .. } => 1,
        ConnectionAction::EndSession => -1,
        _ => 0,
    }
}

/// What a connection in `phase` contributes to the live-session count.
pub open spec fn live(phase: ConnectionPhase) -> int {
    if phase is InSession {
        1
    } else {
        0
    }
}

/// Sessions are counted, not tracked: every step moves the live-session count by exactly the
/// change in whether this connection is a running session. So the count rises by one when an
/// accepted `Start` begins a session, falls by one when that session ends on whatever path, and a
/// connection that ends without a session (a ping, a count query, a shutdown, a memory or trim
/// request, a refusal) never moves it; a count query is answered with the count as it stands.
pub proof fn law_sessions_are_counted_not_tracked(phase: ConnectionPhase, event: ConnectionEvent, schema: u32, expected: Seq<char>, sessions: u64, next: ConnectionPhase, action: ConnectionAction)
    requires
        connection_expects(phase, event),
        connection_next(phase, event, schema, expected, sessions, next, action),
    ensures
        count_change(action) == live(next) - live(phase),
        next is InSession ==> phase is Serving && event matches ConnectionEvent::Frame(ClientFrame::Start),
        phase is InSession ==> next is Closed && action is EndSession,
        action matches ConnectionAction::Send(AgentReply::Sessions(n)) ==> n == sessions,
{
}

fn contains_newline(text: &str) -> (found: bool)
    ensures
        found == text@.contains('\n'),
{
    let n = text.unicode_len();
    let mut i: usize = 0;
    while i < n
        invariant
            i <= n,
            n == text@.len(),
            forall|k: int| 0 <= k < i ==> text@[k] != '\n',
        decreases n - i,
    {
        if text.get_char(i) == '\n' {
            assert(text@[i as int] == '\n');
            return true;
        }
        i = i + 1;
    }
    false
}

/// Whether a trim request can be written to the line-shaped trigger.
pub fn trim_request_valid(mounts: &Vec<String>) -> (ok: bool)
    ensures
        ok == trim_request_ok(texts(mounts@)),
{
    if mounts.len() == 0 {
        return false;
    }
    let mut i: usize = 0;
    while i < mounts.len()
        invariant
            i <= mounts.len(),
            forall|k: int| 0 <= k < i ==> #[trigger] mounts@[k]@.len() > 0 && !mounts@[k]@.contains('\n'),
        decreases mounts.len() - i,
    {
        let m = mounts[i].as_str();
        if m.unicode_len() == 0 || contains_newline(m) {
            assert(!(texts(mounts@)[i as int].len() > 0 && !texts(mounts@)[i as int].contains('\n')));
            return false;
        }
        i = i + 1;
    }
    assert(forall|k: int| 0 <= k < texts(mounts@).len() ==> #[trigger] texts(mounts@)[k] == mounts@[k]@);
    true
}

fn refuse(code: &'static str) -> (r: (ConnectionPhase, ConnectionAction))
    ensures
        refused_with(r.0, r.1, code@),
{
    (ConnectionPhase::Refusing, ConnectionAction::Send(AgentReply::Error(code)))
}

fn copy_texts(v: &Vec<String>) -> (c: Vec<String>)
    ensures
        texts(c@) == texts(v@),
{
    let mut c: Vec<String> = Vec::new();
    let mut i: usize = 0;
    while i < v.len()
        invariant
            i <= v.len(),
            texts(c@) == texts(v@).subrange(0, i as int),
        decreases v.len() - i,
    {
        let ghost before = c@;
        c.push(v[i].clone());
        assert(texts(c@) =~= texts(before).push(v@[i as int]@));
        assert(texts(v@).subrange(0, i + 1) =~= texts(v@).subrange(0, i as int).push(v@[i as int]@));
        i = i + 1;
    }
    assert(texts(v@).subrange(0, v@.len() as int) =~= texts(v@));
    c
}

fn on_frame(initial_size: Option<(u16, u16)>, frame: ClientFrame, sessions: u64) -> (r: (ConnectionPhase, ConnectionAction))
    ensures
        connection_next(ConnectionPhase::Serving { initial_size }, ConnectionEvent::Frame(frame), 0, Seq::empty(), sessions, r.0, r.1),
{
    match frame {
        ClientFrame::Ping => (ConnectionPhase::Answering, ConnectionAction::Send(AgentReply::Pong)),
        ClientFrame::Sessions => (ConnectionPhase::Answering, ConnectionAction::Send(AgentReply::Sessions(sessions))),
        ClientFrame::Shutdown => (ConnectionPhase::Touching, ConnectionAction::TouchPoweroff),
        ClientFrame::Memory => (ConnectionPhase::Measuring, ConnectionAction::ReadMeminfo),
        ClientFrame::Trim { mountpoints } => {
            if trim_request_valid(&mountpoints) {
                let m = copy_texts(&mountpoints);
                (ConnectionPhase::Trimming, ConnectionAction::Trim(m))
            } else {
                refuse("trim")
            }
        },
        ClientFrame::Resize { rows, cols } => {
            if initial_size.is_none() {
                (ConnectionPhase::Serving { initial_size: Some((rows, cols)) }, ConnectionAction::Read)
            } else {
                refuse("state")
            }
        },
        ClientFrame::Start => (ConnectionPhase::InSession, ConnectionAction::StartSession { initial_size }),
        ClientFrame::Hello { .. } => refuse("state"),
    }
}

/// One step of a control connection: from where it is and what happened, where it goes and what
/// the agent does next. `schema` is the protocol version this agent speaks and `expected` the
/// identity of this boot; `sessions` is the live-session count as the agent reads it now.
pub fn connection_step(phase: ConnectionPhase, event: ConnectionEvent, schema: u32, expected: &str, sessions: u64) -> (r: (ConnectionPhase, ConnectionAction))
    requires
        connection_expects(phase, event),
    ensures
        connection_next(phase, event, schema, expected@, sessions, r.0, r.1),
{
    match (phase, event) {
        (ConnectionPhase::AwaitingHello, ConnectionEvent::Frame(ClientFrame::Hello { schema_version, boot_identity })) => {
            if schema_version == schema && same_text(boot_identity.as_str(), expected) {
                (ConnectionPhase::Greeting, ConnectionAction::Send(AgentReply::Hello { schema_version: schema, boot_identity }))
            } else {
                refuse("authorization")
            }
        },
        (ConnectionPhase::AwaitingHello, ConnectionEvent::Frame(_)) => refuse("authorization"),
        (ConnectionPhase::AwaitingHello, ConnectionEvent::Unreadable) => refuse("framing"),
        (ConnectionPhase::Greeting, ConnectionEvent::Wrote(ok)) => {
            if ok {
                (ConnectionPhase::Serving { initial_size: None }, ConnectionAction::Read)
            } else {
                (ConnectionPhase::Closed, ConnectionAction::Close(false))
            }
        },
        (ConnectionPhase::Answering, ConnectionEvent::Wrote(ok)) => (ConnectionPhase::Closed, ConnectionAction::Close(ok)),
        (ConnectionPhase::Refusing, ConnectionEvent::Wrote(_)) => (ConnectionPhase::Closed, ConnectionAction::Close(false)),
        (ConnectionPhase::Serving { initial_size }, ConnectionEvent::Frame(frame)) => on_frame(initial_size, frame, sessions),
        (ConnectionPhase::Serving { .. }, ConnectionEvent::Unreadable) => refuse("framing"),
        (ConnectionPhase::Touching, ConnectionEvent::Touched(ok)) => {
            if ok {
                (ConnectionPhase::Answering, ConnectionAction::Send(AgentReply::ShutdownAck))
            } else {
                refuse("shutdown")
            }
        },
        (ConnectionPhase::Measuring, ConnectionEvent::Meminfo(text)) => match text {
            Some(t) => match parse_meminfo(t.as_str()) {
                Some(report) => (ConnectionPhase::Answering, ConnectionAction::Send(AgentReply::Memory(report))),
                None => refuse("meminfo"),
            },
            None => refuse("meminfo"),
        },
        (ConnectionPhase::Trimming, ConnectionEvent::Trimmed(ok)) => {
            if ok {
                (ConnectionPhase::Answering, ConnectionAction::Send(AgentReply::TrimAck))
            } else {
                refuse("trim")
            }
        },
        (ConnectionPhase::InSession, ConnectionEvent::SessionEnded) => (ConnectionPhase::Closed, ConnectionAction::EndSession),
        _ => {
            proof {
                assert(false);
            }
            (ConnectionPhase::Closed, ConnectionAction::Close(false))
        },
    }
}

/// The token that opens a trim request and the completion marker the unit writes for it: this
/// agent's pid, and the request's place in the boot's order.
pub open spec fn trim_token_text(pid: u32, sequence: u64) -> Seq<char> {
    "# "@ + dec(pid as nat) + "-"@ + dec(sequence as nat)
}

pub fn trim_token(pid: u32, sequence: u64) -> (token: String)
    ensures
        token@ == trim_token_text(pid, sequence),
{
    let mut token = String::new();
    token.append("# ");
    push_decimal(&mut token, pid as u64);
    token.append("-");
    push_decimal(&mut token, sequence);
    token
}

/// The lines of a request: the token, then one mountpoint per line.
pub open spec fn request_lines(token: Seq<char>, mounts: Seq<Seq<char>>, n: int) -> Seq<char>
    decreases n,
{
    if n <= 0 || n > mounts.len() {
        token + "\n"@
    } else {
        request_lines(token, mounts, n - 1) + mounts[n - 1] + "\n"@
    }
}

/// The body of a trim request.
pub fn trim_body(token: &str, mounts: &Vec<String>) -> (body: String)
    ensures
        body@ == request_lines(token@, texts(mounts@), mounts@.len() as int),
{
    let mut body = String::new();
    body.append(token);
    body.append("\n");
    let mut i: usize = 0;
    while i < mounts.len()
        invariant
            i <= mounts.len(),
            body@ == request_lines(token@, texts(mounts@), i as int),
        decreases mounts.len() - i,
    {
        body.append(mounts[i].as_str());
        body.append("\n");
        i = i + 1;
    }
    body
}

/// Whether a completion marker is this request's own: its first line is the token. A marker with
/// another token is a timed-out predecessor's, arriving late.
pub open spec fn marker_is_ours_spec(marker: Seq<char>, token: Seq<char>) -> bool {
    lines_of(marker).len() > 0 && lines_of(marker)[0] == token
}

pub fn marker_is_ours(marker: &str, token: &str) -> (ours: bool)
    ensures
        ours == marker_is_ours_spec(marker@, token@),
{
    let lines = crate::text::split_lines(marker);
    if lines.len() == 0 {
        return false;
    }
    let first = lines[0].as_str();
    assert(texts(lines@)[0] == lines@[0]@);
    same_text(first, token)
}

} // verus!
