//! The protocol session: one request line out, one response line back.
//!
//! The session performs no I/O. For each query the driver asks it what to
//! do next and reports what happened: the liveness probe, the write, the
//! flush, and the read raced against the timeout. The session keeps the
//! counters and decides the outcome.

use vstd::prelude::*;
use crate::text::{concat_str, trim, trimmed};

verus! {

/// One command for the agent process. It is sent as a single line, so it
/// should hold no newline of its own.
#[derive(Clone, Debug, PartialEq, Eq)]
pub struct McpRequest {
    pub command: String,
}

/// One reply of the agent process: a response line, trimmed.
#[derive(Clone, Debug, PartialEq, Eq)]
pub struct McpResponse {
    pub result: String,
}

/// The cause of a failed write, flush or read, as the operating system
/// reported it.
#[derive(Clone, Debug, PartialEq, Eq)]
pub struct IoFailure {
    pub message: String,
    pub os_code: Option<i32>,
}

/// Why a query failed.
#[derive(Clone, Debug, PartialEq, Eq)]
pub enum QueryError {
    /// The process was found dead before anything was written.
    ProcessTerminated,
    /// Writing the request line failed.
    WriteFailed(IoFailure),
    /// Flushing the request line failed.
    FlushFailed(IoFailure),
    /// The process closed its output without answering.
    ConnectionClosed,
    /// The response line held nothing but whitespace.
    EmptyResponse,
    /// Reading the response line failed.
    ReadFailed(IoFailure),
    /// No response line arrived within the configured time.
    Timeout,
}

/// What a non-blocking look at the shared process handle found.
#[derive(Clone, Copy, Debug, PartialEq, Eq, Structural)]
pub enum LivenessProbe {
    /// The handle's lock was held by someone else.
    LockBusy,
    /// The lock was free but held no process handle.
    HandleAbsent,
    /// The process has an exit status.
    Exited,
    /// The process has no exit status yet.
    Running,
    /// The exit status could not be determined.
    CheckFailed,
}

/// How the read of the response line ended.
#[derive(Clone, Debug, PartialEq, Eq)]
pub enum ReadOutcome {
    /// The read returned `bytes_read` bytes, decoded as `text`.
    Line { bytes_read: usize, text: String },
    /// The read returned an error.
    Failed(IoFailure),
    /// The timeout elapsed first.
    TimedOut,
}

/// Where a session stands within a query.
#[derive(Clone, Copy, Debug, PartialEq, Eq, Structural)]
pub enum Phase {
    /// No query is under way and the last one, if any, succeeded.
    Idle,
    /// The request line has been handed out and its write is pending.
    Sending,
    /// The request line is written and its flush is pending.
    Flushing,
    /// The request is sent and the response line is awaited.
    AwaitingResponse,
    /// No query is under way and the last one failed.
    Failed,
}

/// Everything the outside world did during one query attempt.
#[derive(Debug, PartialEq, Eq)]
pub struct Exchange {
    pub probe: LivenessProbe,
    pub write: Result<(), IoFailure>,
    pub flush: Result<(), IoFailure>,
    pub read: ReadOutcome,
    /// The clock when the read phase resolved.
    pub now: u64,
}

/// What one whole query attempt did: the line it handed out to be
/// written, if any, and its reply.
#[derive(Debug, PartialEq, Eq)]
pub struct QueryTrace {
    pub written: Option<String>,
    pub reply: Result<McpResponse, QueryError>,
}

/// One step that a driver takes on a session.
pub enum SessionStep {
    /// A query begins, the probe having found this.
    Begin(LivenessProbe),
    /// The write ended, well or not.
    Wrote(bool),
    /// The flush ended, well or not.
    Flushed(bool),
    /// The read phase resolved at the given time.
    Resolved(ReadOutcome, u64),
    /// The query under way is given up.
    Abandon,
}

/// The counters of a session at one moment.
#[derive(Clone, Copy, Debug, PartialEq, Eq, Structural)]
pub struct SessionStats {
    pub process_id: Option<u32>,
    pub uptime_ms: u64,
    pub requests: u64,
    pub idle_ms: u64,
}

/// The abstract state of a session.
pub struct SessionState {
    pub process_id: Option<u32>,
    pub start_time: u64,
    pub request_count: nat,
    pub last_activity: u64,
    pub timeout_secs: u64,
    pub phase: Phase,
}

/// The session with one agent process: its identifier, when it started,
/// how many queries were attempted, when the last read phase resolved, how
/// long a response is waited for, and where the current query stands.
/// Times are milliseconds on the driver's clock.
///
/// A query goes from a resting phase through `Sending`, `Flushing` and
/// `AwaitingResponse` back to `Idle`, or from any of them to `Failed`.
/// `Failed` is a resting phase too: the next query begins from it as from
/// `Idle`.
#[derive(Debug, PartialEq, Eq)]
pub struct McpServerProcess {
    process_id: Option<u32>,
    start_time: u64,
    request_count: u64,
    last_activity: u64,
    response_timeout_secs: u64,
    phase: Phase,
}

/// Whether `step` ends the query under way: a failed write or flush, the
/// end of the read phase, or giving the query up.
pub open spec fn ends_query(step: SessionStep) -> bool {
    step == SessionStep::Wrote(false) || step == SessionStep::Flushed(false) || step is Resolved
        || step is Abandon
}

/// Whether a probe result counts as "alive". A busy lock counts as alive:
/// the probe never waits, and whoever holds the lock is looking after the
/// process.
pub open spec fn probe_alive(probe: LivenessProbe) -> bool {
    probe is Running || probe is LockBusy
}

/// The line written for `command`: the command and one newline.
pub open spec fn frame(command: Seq<char>) -> Seq<char> {
    command.push('\n')
}

/// The reply that a finished read gives.
pub open spec fn read_result(outcome: ReadOutcome) -> Result<Seq<char>, QueryError> {
    match outcome {
        ReadOutcome::Line { bytes_read, text } => if bytes_read == 0 {
            Err(QueryError::ConnectionClosed)
        } else if trim(text@).len() == 0 {
            Err(QueryError::EmptyResponse)
        } else {
            Ok(trim(text@))
        },
        ReadOutcome::Failed(cause) => Err(QueryError::ReadFailed(cause)),
        ReadOutcome::TimedOut => Err(QueryError::Timeout),
    }
}

/// A reply with its text taken as a sequence of characters.
pub open spec fn reply_view(r: Result<McpResponse, QueryError>) -> Result<Seq<char>, QueryError> {
    match r {
        Ok(response) => Ok(response.result@),
        Err(e) => Err(e),
    }
}

/// The reply of a whole query attempt.
pub open spec fn query_result(x: Exchange) -> Result<Seq<char>, QueryError> {
    if !probe_alive(x.probe) {
        Err(QueryError::ProcessTerminated)
    } else {
        match x.write {
            Err(cause) => Err(QueryError::WriteFailed(cause)),
            Ok(_) => match x.flush {
                Err(cause) => Err(QueryError::FlushFailed(cause)),
                Ok(_) => read_result(x.read),
            },
        }
    }
}

/// The line that the beginning of a query hands out to be written:
/// none if the probe found the process dead, else the framed command.
pub open spec fn request_line(command: Seq<char>, probe: LivenessProbe) -> Option<Seq<char>> {
    if probe_alive(probe) {
        Some(frame(command))
    } else {
        None
    }
}

/// What a whole query attempt puts on the wire: the line that its
/// beginning hands out.
pub open spec fn query_written(command: Seq<char>, x: Exchange) -> Option<Seq<char>> {
    request_line(command, x.probe)
}

/// A line that may have been written, taken as a sequence of characters.
pub open spec fn written_view(written: Option<String>) -> Option<Seq<char>> {
    match written {
        Some(line) => Some(line@),
        None => None,
    }
}

impl SessionState {
    /// The state of a session that has served no query yet.
    pub open spec fn fresh(process_id: Option<u32>, now: u64, timeout_secs: u64) -> SessionState {
        SessionState {
            process_id,
            start_time: now,
            request_count: 0,
            last_activity: now,
            timeout_secs,
            phase: Phase::Idle,
        }
    }

    /// Whether a query is under way.
    pub open spec fn in_flight(self) -> bool {
        self.phase is Sending || self.phase is Flushing || self.phase is AwaitingResponse
    }

    /// The state after a query has begun with the given probe result.
    pub open spec fn begun(self, probe: LivenessProbe) -> SessionState {
        SessionState {
            request_count: self.request_count + 1,
            phase: if probe_alive(probe) {
                Phase::Sending
            } else {
                Phase::Failed
            },
            ..self
        }
    }

    /// The state after the write has ended.
    pub open spec fn wrote(self, ok: bool) -> SessionState {
        SessionState {
            phase: if ok {
                Phase::Flushing
            } else {
                Phase::Failed
            },
            ..self
        }
    }

    /// The state after the flush has ended.
    pub open spec fn flushed(self, ok: bool) -> SessionState {
        SessionState {
            phase: if ok {
                Phase::AwaitingResponse
            } else {
                Phase::Failed
            },
            ..self
        }
    }

    /// The state after the read phase has resolved at time `now`.
    pub open spec fn resolved(self, outcome: ReadOutcome, now: u64) -> SessionState {
        SessionState {
            phase: if read_result(outcome) is Ok {
                Phase::Idle
            } else {
                Phase::Failed
            },
            last_activity: now,
            ..self
        }
    }

    /// The state after a query under way, if any, has been given up.
    pub open spec fn abandoned(self) -> SessionState {
        SessionState {
            phase: if self.in_flight() {
                Phase::Failed
            } else {
                self.phase
            },
            ..self
        }
    }

    /// Whether the session may take `step` in this state.
    pub open spec fn allows(self, step: SessionStep) -> bool {
        match step {
            SessionStep::Begin(_) => !self.in_flight(),
            SessionStep::Wrote(_) => self.phase is Sending,
            SessionStep::Flushed(_) => self.phase is Flushing,
            SessionStep::Resolved(_, _) => self.phase is AwaitingResponse,
            SessionStep::Abandon => true,
        }
    }

    /// The state after `step`.
    pub open spec fn after(self, step: SessionStep) -> SessionState {
        match step {
            SessionStep::Begin(probe) => self.begun(probe),
            SessionStep::Wrote(ok) => self.wrote(ok),
            SessionStep::Flushed(ok) => self.flushed(ok),
            SessionStep::Resolved(outcome, now) => self.resolved(outcome, now),
            SessionStep::Abandon => self.abandoned(),
        }
    }

    /// The state after the steps `steps`, in order.
    pub open spec fn after_steps(self, steps: Seq<SessionStep>) -> SessionState
        decreases steps.len(),
    {
        if steps.len() == 0 {
            self
        } else {
            self.after_steps(steps.drop_last()).after(steps.last())
        }
    }

    /// Whether the session may take the steps `steps` in order, starting
    /// from this state.
    pub open spec fn admits(self, steps: Seq<SessionStep>) -> bool
        decreases steps.len(),
    {
        steps.len() == 0 || (self.admits(steps.drop_last()) && self.after_steps(
            steps.drop_last(),
        ).allows(steps.last()))
    }

    /// The state after a whole query attempt.
    pub open spec fn after_query(self, x: Exchange) -> SessionState {
        let s = self.begun(x.probe);
        if !probe_alive(x.probe) {
            s
        } else if x.write is Err {
            s.wrote(false)
        } else if x.flush is Err {
            s.wrote(true).flushed(false)
        } else {
            s.wrote(true).flushed(true).resolved(x.read, x.now)
        }
    }

    /// The state after the query attempts `xs`, in order.
    pub open spec fn after_queries(self, xs: Seq<Exchange>) -> SessionState
        decreases xs.len(),
    {
        if xs.len() == 0 {
            self
        } else {
            self.after_queries(xs.drop_last()).after_query(xs.last())
        }
    }
}

/// Decides whether a probe result counts as "alive".
pub fn is_process_alive(probe: LivenessProbe) -> (alive: bool)
    ensures
        alive == probe_alive(probe),
        probe is Exited || probe is HandleAbsent ==> !alive,
{
    match probe {
        LivenessProbe::LockBusy => true,
        LivenessProbe::HandleAbsent => false,
        LivenessProbe::Exited => false,
        LivenessProbe::Running => true,
        LivenessProbe::CheckFailed => false,
    }
}

/// Turns a finished read into the reply for the caller.
pub fn classify_read(outcome: ReadOutcome) -> (r: Result<McpResponse, QueryError>)
    ensures
        reply_view(r) == read_result(outcome),
{
    match outcome {
        ReadOutcome::Line { bytes_read, text } => {
            if bytes_read == 0 {
                Err(QueryError::ConnectionClosed)
            } else {
                let result = trimmed(text.as_str());
                if result.as_str().unicode_len() == 0 {
                    Err(QueryError::EmptyResponse)
                } else {
                    Ok(McpResponse { result })
                }
            }
        },
        ReadOutcome::Failed(cause) => Err(QueryError::ReadFailed(cause)),
        ReadOutcome::TimedOut => Err(QueryError::Timeout),
    }
}

impl View for McpServerProcess {
    type V = SessionState;

    closed spec fn view(&self) -> SessionState {
        SessionState {
            process_id: self.process_id,
            start_time: self.start_time,
            request_count: self.request_count as nat,
            last_activity: self.last_activity,
            timeout_secs: self.response_timeout_secs,
            phase: self.phase,
        }
    }
}

impl McpServerProcess {
    /// A fresh session for the process `process_id`, started at `now`.
    pub fn new(process_id: Option<u32>, now: u64, response_timeout_secs: u64) -> (s: Self)
        ensures
            s@ == SessionState::fresh(process_id, now, response_timeout_secs),
    {
        McpServerProcess {
            process_id,
            start_time: now,
            request_count: 0,
            last_activity: now,
            response_timeout_secs,
            phase: Phase::Idle,
        }
    }

    /// Begins a query: counts it, and either hands out the line to write
    /// or, if the process is not alive, fails with nothing to write. No
    /// query may be under way, and the counter must have room for one more.
    pub fn begin(&mut self, request: &McpRequest, probe: LivenessProbe) -> (r: Result<
        String,
        QueryError,
    >)
        requires
            !old(self)@.in_flight(),
            old(self)@.request_count < u64::MAX,
        ensures
            final(self)@ == old(self)@.begun(probe),
            match r {
                Ok(line) => request_line(request.command@, probe) == Some(line@),
                Err(e) => request_line(request.command@, probe) is None && e
                    == QueryError::ProcessTerminated,
            },
    {
        self.request_count = self.request_count + 1;
        if !is_process_alive(probe) {
            self.phase = Phase::Failed;
            return Err(QueryError::ProcessTerminated);
        }
        self.phase = Phase::Sending;
        let line = concat_str(request.command.as_str(), "\n");
        proof {
            reveal_strlit("\n");
            assert(line@ =~= frame(request.command@));
        }
        Ok(line)
    }

    /// Takes the outcome of the write. `Ok` asks for the flush.
    pub fn wrote(&mut self, outcome: Result<(), IoFailure>) -> (r: Result<(), QueryError>)
        requires
            old(self)@.phase is Sending,
        ensures
            final(self)@ == old(self)@.wrote(outcome is Ok),
            r == match outcome {
                Ok(_) => Ok::<(), QueryError>(()),
                Err(cause) => Err(QueryError::WriteFailed(cause)),
            },
    {
        match outcome {
            Ok(_) => {
                self.phase = Phase::Flushing;
                Ok(())
            },
            Err(cause) => {
                self.phase = Phase::Failed;
                Err(QueryError::WriteFailed(cause))
            },
        }
    }

    /// Takes the outcome of the flush. `Ok` asks for the read of one line,
    /// raced against the number of seconds it carries.
    pub fn flushed(&mut self, outcome: Result<(), IoFailure>) -> (r: Result<u64, QueryError>)
        requires
            old(self)@.phase is Flushing,
        ensures
            final(self)@ == old(self)@.flushed(outcome is Ok),
            r == match outcome {
                Ok(_) => Ok::<u64, QueryError>(old(self)@.timeout_secs),
                Err(cause) => Err(QueryError::FlushFailed(cause)),
            },
    {
        match outcome {
            Ok(_) => {
                self.phase = Phase::AwaitingResponse;
                Ok(self.response_timeout_secs)
            },
            Err(cause) => {
                self.phase = Phase::Failed;
                Err(QueryError::FlushFailed(cause))
            },
        }
    }

    /// Takes the outcome of the read phase at time `now` and gives the
    /// reply of the query.
    pub fn resolve(&mut self, outcome: ReadOutcome, now: u64) -> (r: Result<
        McpResponse,
        QueryError,
    >)
        requires
            old(self)@.phase is AwaitingResponse,
        ensures
            final(self)@ == old(self)@.resolved(outcome, now),
            reply_view(r) == read_result(outcome),
    {
        let r = classify_read(outcome);
        self.last_activity = now;
        self.phase = if r.is_ok() {
            Phase::Idle
        } else {
            Phase::Failed
        };
        r
    }

    /// Gives up a query whose outcome will never be reported, so that the
    /// next one can begin. The query counts as failed; the counters stay.
    pub fn abandon(&mut self)
        ensures
            final(self)@ == old(self)@.abandoned(),
            !final(self)@.in_flight(),
    {
        if self.in_flight() {
            self.phase = Phase::Failed;
        }
    }

    /// Runs one whole query attempt against the recorded behaviour `x` of
    /// the outside world, stopping at the first failure, and reports what
    /// was handed out to be written and what the reply is.
    pub fn query(&mut self, request: &McpRequest, x: Exchange) -> (r: QueryTrace)
        requires
            !old(self)@.in_flight(),
            old(self)@.request_count < u64::MAX,
        ensures
            final(self)@ == old(self)@.after_query(x),
            written_view(r.written) == query_written(request.command@, x),
            reply_view(r.reply) == query_result(x),
            !final(self)@.in_flight(),
    {
        let Exchange { probe, write, flush, read, now } = x;
        match self.begin(request, probe) {
            Err(e) => QueryTrace { written: None, reply: Err(e) },
            Ok(line) => {
                let reply = match self.wrote(write) {
                    Err(e) => Err(e),
                    Ok(_) => match self.flushed(flush) {
                        Err(e) => Err(e),
                        Ok(_) => self.resolve(read, now),
                    },
                };
                QueryTrace { written: Some(line), reply }
            },
        }
    }

    /// The counters as seen at time `now`. Spans are zero where the clock
    /// reads earlier than the moment they start from.
    pub fn get_stats(&self, now: u64) -> (stats: SessionStats)
        ensures
            stats.process_id == self@.process_id,
            stats.requests == self@.request_count,
            stats.uptime_ms == if now >= self@.start_time {
                now - self@.start_time
            } else {
                0
            },
            stats.idle_ms == if now >= self@.last_activity {
                now - self@.last_activity
            } else {
                0
            },
    {
        SessionStats {
            process_id: self.process_id,
            uptime_ms: if now >= self.start_time {
                now - self.start_time
            } else {
                0
            },
            requests: self.request_count,
            idle_ms: if now >= self.last_activity {
                now - self.last_activity
            } else {
                0
            },
        }
    }

    /// The number of query attempts so far.
    pub fn request_count(&self) -> (n: u64)
        ensures
            n == self@.request_count,
    {
        self.request_count
    }

    /// Where the session stands.
    pub fn phase(&self) -> (p: Phase)
        ensures
            p == self@.phase,
    {
        self.phase
    }

    /// Whether a query is under way.
    pub fn in_flight(&self) -> (b: bool)
        ensures
            b == self@.in_flight(),
    {
        match self.phase {
            Phase::Sending => true,
            Phase::Flushing => true,
            Phase::AwaitingResponse => true,
            _ => false,
        }
    }
}

/// A command without a newline is framed as exactly one line: the only
/// newline of the written text is its last character.
pub proof fn law_frame_is_one_line(command: Seq<char>)
    requires
        !command.contains('\n'),
    ensures
        frame(command).len() == command.len() + 1,
        forall|i: int|
            0 <= i < frame(command).len() ==> ((#[trigger] frame(command)[i] == '\n') <==> i
                == command.len()),
{
    assert forall|i: int| 0 <= i < frame(command).len() implies ((#[trigger] frame(command)[i]
        == '\n') <==> i == command.len()) by {
        if i < command.len() {
            assert(command.contains(command[i]));
        }
    }
}

/// When the process is alive, the write and the flush succeed, and the
/// peer answers with a line that is not blank, the query succeeds with
/// that line trimmed, and what was written is the framed command.
pub proof fn law_echo_is_returned(command: Seq<char>, x: Exchange)
    requires
        probe_alive(x.probe),
        x.write is Ok,
        x.flush is Ok,
        x.read is Line,
        x.read->bytes_read > 0,
        trim(x.read->text@).len() > 0,
    ensures
        query_result(x) == Ok::<Seq<char>, QueryError>(trim(x.read->text@)),
        request_line(command, x.probe) == Some(frame(command)),
        query_written(command, x) == Some(frame(command)),
{
}

/// A query against a process that has exited, or whose handle is gone,
/// fails as terminated, writes nothing, counts as one attempt and leaves
/// no query under way: the probe alone decides it.
pub proof fn law_dead_process_fails_at_once(s: SessionState, command: Seq<char>, x: Exchange)
    requires
        x.probe is Exited || x.probe is HandleAbsent || x.probe is CheckFailed,
    ensures
        query_result(x) == Err::<Seq<char>, QueryError>(QueryError::ProcessTerminated),
        request_line(command, x.probe) is None,
        query_written(command, x) is None,
        s.after_query(x) == s.begun(x.probe),
        s.after_query(x).request_count == s.request_count + 1,
        !s.after_query(x).in_flight(),
{
}

/// Every query attempt, whatever its outcome, adds exactly one to the
/// request counter and ends with no query under way.
pub proof fn law_each_attempt_counts_once(s: SessionState, x: Exchange)
    ensures
        s.after_query(x).request_count == s.request_count + 1,
        !s.after_query(x).in_flight(),
        s.after_query(x).process_id == s.process_id,
        s.after_query(x).start_time == s.start_time,
        s.after_query(x).timeout_secs == s.timeout_secs,
{
}

/// After the attempts `xs` the request counter has grown by their number.
pub proof fn law_counter_grows_by_attempts(s: SessionState, xs: Seq<Exchange>)
    ensures
        s.after_queries(xs).request_count == s.request_count + xs.len(),
        xs.len() > 0 ==> !s.after_queries(xs).in_flight(),
    decreases xs.len(),
{
    if xs.len() > 0 {
        law_counter_grows_by_attempts(s, xs.drop_last());
        law_each_attempt_counts_once(s.after_queries(xs.drop_last()), xs.last());
    }
}

/// On a fresh session the request counter after `xs.len()` attempts is
/// exactly `xs.len()`.
pub proof fn law_counter_equals_attempts(
    process_id: Option<u32>,
    now: u64,
    timeout_secs: u64,
    xs: Seq<Exchange>,
)
    ensures
        SessionState::fresh(process_id, now, timeout_secs).after_queries(xs).request_count
            == xs.len(),
{
    law_counter_grows_by_attempts(SessionState::fresh(process_id, now, timeout_secs), xs);
}

/// The reply to a query depends on what the peer did, not on the clock or
/// on the session: a line that was read is answered as that line whatever
/// the time at which the read resolved and whatever the timeout.
pub proof fn law_reply_ignores_clock(x: Exchange, y: Exchange)
    requires
        x.probe == y.probe,
        x.write == y.write,
        x.flush == y.flush,
        x.read == y.read,
    ensures
        query_result(x) == query_result(y),
{
}

/// The request line is handed out only by the step that begins a query,
/// and a query can begin only while none is under way; once begun, the
/// session stays in flight until a failure or the read phase ends it.
pub proof fn law_one_query_in_flight(s: SessionState, x: Exchange)
    requires
        !s.in_flight(),
        probe_alive(x.probe),
    ensures
        s.begun(x.probe).in_flight(),
        s.begun(x.probe).wrote(true).in_flight(),
        s.begun(x.probe).wrote(true).flushed(true).in_flight(),
        !s.begun(x.probe).wrote(false).in_flight(),
        !s.begun(x.probe).wrote(true).flushed(false).in_flight(),
        !s.begun(x.probe).wrote(true).flushed(true).resolved(x.read, x.now).in_flight(),
{
}

/// A session that may take some steps may take any number of the first of
/// them.
proof fn lemma_admits_prefix(s: SessionState, steps: Seq<SessionStep>, n: int)
    requires
        s.admits(steps),
        0 <= n <= steps.len(),
    ensures
        s.admits(steps.take(n)),
    decreases steps.len() - n,
{
    if n == steps.len() {
        assert(steps.take(n) =~= steps);
    } else {
        lemma_admits_prefix(s, steps.drop_last(), n);
        assert(steps.drop_last().take(n) =~= steps.take(n));
    }
}

/// Where a query is under way after the first `i` steps and none is after
/// the first `j`, one of the steps between ended it.
proof fn lemma_flight_is_ended_by_a_step(s: SessionState, steps: Seq<SessionStep>, i: int, j: int)
    requires
        s.admits(steps),
        0 <= i < j <= steps.len(),
        s.after_steps(steps.take(i)).in_flight(),
        !s.after_steps(steps.take(j)).in_flight(),
    ensures
        exists|k: int| i <= k < j && ends_query(#[trigger] steps[k]),
    decreases j - i,
{
    lemma_admits_prefix(s, steps, j);
    assert(steps.take(j).drop_last() =~= steps.take(j - 1));
    assert(steps.take(j).last() == steps[j - 1]);
    if s.after_steps(steps.take(j - 1)).in_flight() {
        assert(ends_query(steps[j - 1]));
    } else {
        lemma_flight_is_ended_by_a_step(s, steps, i, j - 1);
    }
}

/// Queries do not overlap. In any run of steps that the session may take,
/// between a step that hands out a request line and the next step that
/// begins a query lies a step that ended the first query: a failed write
/// or flush, the end of its read phase, or its being given up.
pub proof fn law_queries_do_not_overlap(
    s: SessionState,
    steps: Seq<SessionStep>,
    i: int,
    j: int,
)
    requires
        s.admits(steps),
        0 <= i < j < steps.len(),
        steps[i] is Begin,
        probe_alive(steps[i]->Begin_0),
        steps[j] is Begin,
    ensures
        exists|k: int| i < k < j && ends_query(#[trigger] steps[k]),
{
    lemma_admits_prefix(s, steps, i + 1);
    assert(steps.take(i + 1).drop_last() =~= steps.take(i));
    assert(steps.take(i + 1).last() == steps[i]);
    assert(s.after_steps(steps.take(i + 1)).in_flight());
    lemma_admits_prefix(s, steps, j + 1);
    assert(steps.take(j + 1).drop_last() =~= steps.take(j));
    assert(steps.take(j + 1).last() == steps[j]);
    assert(!s.after_steps(steps.take(j)).in_flight());
    lemma_flight_is_ended_by_a_step(s, steps, i + 1, j);
    let k = choose|k: int| i + 1 <= k < j && ends_query(#[trigger] steps[k]);
    assert(i < k < j && ends_query(steps[k]));
}

} // verus!
