//! The per-query state machine a forwarding worker runs, the uplink
//! connection state, and the hook interface the embedding application
//! supplies. A worker owns one query at a time and one upstream TCP
//! connection for its whole lifetime; the state machine here decides, the
//! application performs the I/O each decision calls for and feeds the
//! outcome back as the next event.

use vstd::prelude::*;

use crate::packet::QueryView;

verus! {

/// The observation and policy hook the embedding application supplies once
/// at startup and shares read-only across all workers. `request` is called
/// once per query that parsed, before any forwarding; the verdict gates
/// forwarding and the context is threaded unchanged to the paired
/// `response` call. `response` is called once per forwarded query, with
/// the parsed answer when answer parsing succeeded.
pub trait RecordCallback<T> {
    /// Observe a parsed query; return whether to forward it and an opaque
    /// context for the paired `response` call.
    fn request(&self, query: &QueryView) -> (bool, Option<T>);

    /// Observe the answer of a forwarded query, with the context the
    /// paired `request` call produced.
    fn response(&self, answer: Option<&QueryView>, context: Option<T>);
}

/// Relies on std::time::Instant: an opaque reading of the monotonic
/// clock, carried through as the sample hook's context.
#[verifier::external_type_specification]
#[verifier::external_body]
pub struct ExInstant(std::time::Instant);

/// Relies on std::time::Instant::now: a reading of the monotonic clock.
/// Nothing is promised of its value.
pub assume_specification[ std::time::Instant::now ]() -> std::time::Instant;

/// A hook that admits every query and hands the instant it observed the
/// query along as its context.
pub struct LogRecord {}

impl LogRecord {
    /// A fresh hook.
    pub fn new() -> (t: LogRecord)
        ensures
            (t == (LogRecord {})),
    {
        LogRecord {}
    }
}

impl RecordCallback<std::time::Instant> for LogRecord {
    /// Every query is allowed onward, and the context is always there:
    /// the instant the query was observed.
    fn request(&self, query: &QueryView) -> (r: (bool, Option<std::time::Instant>))
        ensures
            r.0,
            (r.1 is Some),
    {
        (true, Some(std::time::Instant::now()))
    }

    fn response(&self, answer: Option<&QueryView>, context: Option<std::time::Instant>) {
    }
}

/// Where one query stands in its round trip. The terminal phase is `Done`;
/// a query vetoed by the hook ends through `Refusing`, every other query
/// ends through `Replying`.
pub enum QueryPhase<T> {
    /// The raw datagram has been claimed and nothing decided yet.
    Received,
    /// The query parsed; the hook's verdict is being awaited. The id and
    /// recursion flag are kept for a possible refusal reply.
    AwaitingVerdict { id: u16, recursion: bool },
    /// The hook vetoed the query; the refusal reply is on its way back.
    Refusing,
    /// The raw bytes are being forwarded upstream, however many attempts
    /// that takes; the hook context rides along for the response call.
    Forwarding { context: Option<T> },
    /// The upstream answer is on its way back to the client.
    Replying,
    /// The round trip is over.
    Done,
}

/// What the application reports back to the state machine: the outcome of
/// the parse, of the hook call, of one forwarding attempt, or of the final
/// send.
pub enum QueryEvent<T> {
    /// The datagram parsed into a view.
    Parsed(QueryView),
    /// The datagram did not parse; the relay proceeds on the raw bytes.
    ParseFailed,
    /// The hook's verdict and context for this query.
    Verdict(bool, Option<T>),
    /// One forwarding attempt failed on connect, write or read.
    ForwardFailed,
    /// One forwarding attempt returned these raw answer bytes.
    ForwardOk(Vec<u8>),
    /// The reply (refusal or answer) went back to the client.
    ReplySent,
}

/// What the state machine asks the application to do next.
pub enum WorkerAction<T> {
    /// Call the hook's `request` with this view and feed back `Verdict`.
    CallRequest(QueryView),
    /// Build the refusal reply for this id and flag and send it to the
    /// query's source address; feed back `ReplySent`.
    SendRefusal { id: u16, recursion: bool },
    /// Frame the query's original bytes and forward them on this worker's
    /// uplink, reconnecting first if the uplink is down; feed back
    /// `ForwardOk` or `ForwardFailed`.
    ForwardQuery,
    /// Call the hook's `response` with the answer's parse and this
    /// context, then send these raw answer bytes to the query's source
    /// address; feed back `ReplySent`.
    DeliverAnswer(Vec<u8>, Option<T>),
    /// The round trip is over; claim the next work item.
    Finish,
    /// The event did not belong to the current phase; nothing to do.
    Idle,
}

/// The phase after handling one event.
pub open spec fn next_phase<T>(p: QueryPhase<T>, e: QueryEvent<T>) -> QueryPhase<T> {
    match (p, e) {
        (QueryPhase::Received, QueryEvent::Parsed(v)) => QueryPhase::AwaitingVerdict {
            id: v.id,
            recursion: v.recursion_available,
        },
        (QueryPhase::Received, QueryEvent::ParseFailed) => QueryPhase::Forwarding {
            context: None,
        },
        (QueryPhase::AwaitingVerdict { .. }, QueryEvent::Verdict(true, ctx)) =>
            QueryPhase::Forwarding { context: ctx },
        (QueryPhase::AwaitingVerdict { .. }, QueryEvent::Verdict(false, _)) =>
            QueryPhase::Refusing,
        (QueryPhase::Forwarding { context }, QueryEvent::ForwardFailed) =>
            QueryPhase::Forwarding { context },
        (QueryPhase::Forwarding { .. }, QueryEvent::ForwardOk(_)) => QueryPhase::Replying,
        (QueryPhase::Refusing, QueryEvent::ReplySent) => QueryPhase::Done,
        (QueryPhase::Replying, QueryEvent::ReplySent) => QueryPhase::Done,
        (q, _) => q,
    }
}

/// The action handling one event calls for.
pub open spec fn next_action<T>(p: QueryPhase<T>, e: QueryEvent<T>) -> WorkerAction<T> {
    match (p, e) {
        (QueryPhase::Received, QueryEvent::Parsed(v)) => WorkerAction::CallRequest(v),
        (QueryPhase::Received, QueryEvent::ParseFailed) => WorkerAction::ForwardQuery,
        (QueryPhase::AwaitingVerdict { .. }, QueryEvent::Verdict(true, _)) =>
            WorkerAction::ForwardQuery,
        (QueryPhase::AwaitingVerdict { id, recursion }, QueryEvent::Verdict(false, _)) =>
            WorkerAction::SendRefusal { id, recursion },
        (QueryPhase::Forwarding { .. }, QueryEvent::ForwardFailed) => WorkerAction::ForwardQuery,
        (QueryPhase::Forwarding { context }, QueryEvent::ForwardOk(a)) =>
            WorkerAction::DeliverAnswer(a, context),
        (QueryPhase::Refusing, QueryEvent::ReplySent) => WorkerAction::Finish,
        (QueryPhase::Replying, QueryEvent::ReplySent) => WorkerAction::Finish,
        (_, _) => WorkerAction::Idle,
    }
}

/// One query's round trip: the original datagram bytes, which never change
/// while the query lives, and the phase it stands in.
pub struct QueryTask<T> {
    /// The raw datagram as received; the exact bytes every forwarding
    /// attempt sends upstream.
    pub query: Vec<u8>,
    /// Where the round trip stands.
    pub phase: QueryPhase<T>,
}

impl<T> QueryTask<T> {
    /// Claim a datagram: the round trip starts in `Received` with the raw
    /// bytes captured.
    pub fn new(query: Vec<u8>) -> (t: QueryTask<T>)
        ensures
            t.query == query,
            t.phase is Received,
    {
        QueryTask { query, phase: QueryPhase::Received }
    }

    /// The original datagram bytes, the ones `ForwardQuery` sends.
    pub fn query_bytes(&self) -> (r: &Vec<u8>)
        ensures
            r == &self.query,
    {
        &self.query
    }

    /// Whether the round trip is over.
    pub fn is_done(&self) -> (r: bool)
        ensures
            r == (self.phase is Done),
    {
        match self.phase {
            QueryPhase::Done => true,
            _ => false,
        }
    }

    /// Handle one event: move to the next phase and say what the
    /// application must do. The original query bytes are never touched,
    /// so a failed forwarding attempt retries exactly the bytes the
    /// client sent.
    pub fn step(self, event: QueryEvent<T>) -> (r: (QueryTask<T>, WorkerAction<T>))
        ensures
            r.0.query == self.query,
            r.0.phase == next_phase(self.phase, event),
            r.1 == next_action(self.phase, event),
    {
        let QueryTask { query, phase } = self;
        let (phase, action) = match (phase, event) {
            (QueryPhase::Received, QueryEvent::Parsed(v)) => {
                let id = v.id;
                let recursion = v.recursion_available;
                (QueryPhase::AwaitingVerdict { id, recursion }, WorkerAction::CallRequest(v))
            },
            (QueryPhase::Received, QueryEvent::ParseFailed) => (
                QueryPhase::Forwarding { context: None },
                WorkerAction::ForwardQuery,
            ),
            (QueryPhase::AwaitingVerdict { .. }, QueryEvent::Verdict(true, ctx)) => (
                QueryPhase::Forwarding { context: ctx },
                WorkerAction::ForwardQuery,
            ),
            (QueryPhase::AwaitingVerdict { id, recursion }, QueryEvent::Verdict(false, _)) => (
                QueryPhase::Refusing,
                WorkerAction::SendRefusal { id, recursion },
            ),
            (QueryPhase::Forwarding { context }, QueryEvent::ForwardFailed) => (
                QueryPhase::Forwarding { context },
                WorkerAction::ForwardQuery,
            ),
            (QueryPhase::Forwarding { context }, QueryEvent::ForwardOk(a)) => (
                QueryPhase::Replying,
                WorkerAction::DeliverAnswer(a, context),
            ),
            (QueryPhase::Refusing, QueryEvent::ReplySent) => (
                QueryPhase::Done,
                WorkerAction::Finish,
            ),
            (QueryPhase::Replying, QueryEvent::ReplySent) => (
                QueryPhase::Done,
                WorkerAction::Finish,
            ),
            (q, _) => (q, WorkerAction::Idle),
        };
        (QueryTask { query, phase }, action)
    }
}

/// The actions a run of events drives the machine through, one action per
/// event, starting from phase `p`.
pub open spec fn actions_from<T>(p: QueryPhase<T>, evs: Seq<QueryEvent<T>>) -> Seq<
    WorkerAction<T>,
>
    decreases evs.len(),
{
    if evs.len() == 0 {
        Seq::empty()
    } else {
        seq![next_action(p, evs[0])] + actions_from(next_phase(p, evs[0]), evs.drop_first())
    }
}

/// Law: a run of events drives exactly one action per event.
pub proof fn lemma_actions_len<T>(p: QueryPhase<T>, evs: Seq<QueryEvent<T>>)
    ensures
        actions_from(p, evs).len() == evs.len(),
    decreases evs.len(),
{
    if evs.len() > 0 {
        lemma_actions_len(next_phase(p, evs[0]), evs.drop_first());
    }
}

/// The phases on which a vetoed query's round trip winds down.
pub open spec fn refusal_path<T>(p: QueryPhase<T>) -> bool {
    p is Refusing || p is Done
}

/// Law: one step preserves the refusal path, and no step taken on it asks
/// the application to forward anything or deliver an upstream answer.
pub proof fn lemma_refusal_path_closed<T>(p: QueryPhase<T>, e: QueryEvent<T>)
    requires
        refusal_path(p),
    ensures
        refusal_path(next_phase(p, e)),
        !(next_action(p, e) is ForwardQuery),
        !(next_action(p, e) is DeliverAnswer),
{
}

/// Law: from a phase on the refusal path, no run of events ever produces a
/// forwarding action or delivers an upstream answer.
pub proof fn lemma_no_forward_on_refusal_path<T>(p: QueryPhase<T>, evs: Seq<QueryEvent<T>>)
    requires
        refusal_path(p),
    ensures
        forall|i: int|
            0 <= i < evs.len() ==> !((#[trigger] actions_from(p, evs)[i]) is ForwardQuery)
                && !(actions_from(p, evs)[i] is DeliverAnswer),
    decreases evs.len(),
{
    if evs.len() > 0 {
        lemma_refusal_path_closed(p, evs[0]);
        let p2 = next_phase(p, evs[0]);
        let rest = evs.drop_first();
        lemma_no_forward_on_refusal_path(p2, rest);
        lemma_actions_len(p2, rest);
        assert forall|i: int| 0 <= i < evs.len() implies !((#[trigger] actions_from(p, evs)[i])
            is ForwardQuery) && !(actions_from(p, evs)[i] is DeliverAnswer) by {
            if i > 0 {
                assert(actions_from(p, evs)[i] == actions_from(p2, rest)[i - 1]);
            }
        }
    }
}

/// Law: when the hook returns `allow = false`, the immediate action is the
/// refusal reply carrying the query's own id and recursion flag, and no
/// later event can ever make the worker send bytes toward the upstream
/// uplink for this query.
pub proof fn lemma_denied_query_never_forwarded<T>(
    id: u16,
    recursion: bool,
    ctx: Option<T>,
    evs: Seq<QueryEvent<T>>,
)
    ensures
        (next_action(
            QueryPhase::<T>::AwaitingVerdict { id, recursion },
            QueryEvent::Verdict(false, ctx),
        ) == WorkerAction::<T>::SendRefusal { id, recursion }),
        (next_phase(
            QueryPhase::<T>::AwaitingVerdict { id, recursion },
            QueryEvent::Verdict(false, ctx),
        ) is Refusing),
        forall|i: int|
            0 <= i < evs.len() ==> !((#[trigger] actions_from(
                QueryPhase::<T>::Refusing,
                evs,
            )[i]) is ForwardQuery),
{
    lemma_no_forward_on_refusal_path(QueryPhase::<T>::Refusing, evs);
}

/// Law: a successful forwarding attempt has its answer bytes delivered to
/// the client byte-identical, together with the context the hook produced
/// for this query, unchanged.
pub proof fn lemma_answer_delivered_unchanged<T>(ctx: Option<T>, answer: Vec<u8>)
    ensures
        next_action(QueryPhase::Forwarding { context: ctx }, QueryEvent::ForwardOk(answer))
            == WorkerAction::DeliverAnswer(answer, ctx),
        (next_phase(
            QueryPhase::<T>::Forwarding { context: ctx },
            QueryEvent::ForwardOk(answer),
        ) is Replying),
{
}

/// Law: a failed forwarding attempt is invisible to the client aside from
/// latency. The failure leaves the machine forwarding with the same
/// context — and, since a step never touches the task's query bytes, the
/// retry sends the same original bytes — and the next successful attempt
/// delivers its answer exactly as if no failure had happened.
pub proof fn lemma_failure_invisible<T>(ctx: Option<T>, answer: Vec<u8>)
    ensures
        (next_phase(QueryPhase::<T>::Forwarding { context: ctx }, QueryEvent::ForwardFailed)
            == QueryPhase::<T>::Forwarding { context: ctx }),
        (next_action(
            QueryPhase::<T>::Forwarding { context: ctx },
            QueryEvent::ForwardFailed,
        ) is ForwardQuery),
        next_action(
            next_phase(QueryPhase::<T>::Forwarding { context: ctx }, QueryEvent::ForwardFailed),
            QueryEvent::ForwardOk(answer),
        ) == WorkerAction::DeliverAnswer(answer, ctx),
{
}

/// Law: however many forwarding attempts fail in a row, the machine keeps
/// retrying — each failure asks for another forward of the same query and
/// the context never changes — so a query is never abandoned to a
/// transient transport failure.
pub proof fn lemma_retries_never_abandon<T>(ctx: Option<T>, evs: Seq<QueryEvent<T>>)
    requires
        forall|i: int| 0 <= i < evs.len() ==> (#[trigger] evs[i]) is ForwardFailed,
    ensures
        forall|i: int|
            0 <= i < evs.len() ==> (#[trigger] actions_from(
                QueryPhase::<T>::Forwarding { context: ctx },
                evs,
            )[i]) is ForwardQuery,
    decreases evs.len(),
{
    let p = QueryPhase::<T>::Forwarding { context: ctx };
    if evs.len() > 0 {
        assert(evs[0] is ForwardFailed);
        assert(next_phase(p, evs[0]) == p);
        let rest = evs.drop_first();
        assert(forall|i: int| 0 <= i < rest.len() ==> (#[trigger] rest[i]) is ForwardFailed);
        lemma_retries_never_abandon(ctx, rest);
        lemma_actions_len(p, rest);
        assert forall|i: int| 0 <= i < evs.len() implies (#[trigger] actions_from(
            p,
            evs,
        )[i]) is ForwardQuery by {
            if i > 0 {
                assert(actions_from(p, evs)[i] == actions_from(p, rest)[i - 1]);
            }
        }
    }
}

/// One worker's upstream TCP connection state: torn down on any I/O
/// failure, lazily recreated before the next forwarding attempt.
pub struct Uplink {
    /// Whether a live connection is held.
    pub connected: bool,
}

impl Uplink {
    /// A fresh uplink starts disconnected; the first forward connects it.
    pub fn new() -> (u: Uplink)
        ensures
            !u.connected,
    {
        Uplink { connected: false }
    }

    /// Whether a forwarding attempt must connect first.
    pub fn needs_connect(&self) -> (r: bool)
        ensures
            r == !self.connected,
    {
        !self.connected
    }

    /// Record that a connection to the upstream was established.
    pub fn mark_connected(&mut self)
        ensures
            final(self).connected,
    {
        self.connected = true;
    }

    /// Record an I/O failure: the connection is torn down and the next
    /// attempt reconnects.
    pub fn mark_broken(&mut self)
        ensures
            !final(self).connected,
    {
        self.connected = false;
    }
}

/// How one forwarding attempt failed, as far as the relay distinguishes:
/// a benign peer-initiated reset is logged more quietly than any other
/// transport failure, but both are handled identically — drop the
/// connection and retry.
pub enum FailureKind {
    /// The peer closed the pipe.
    BrokenPipe,
    /// The stream ended before the declared bytes arrived.
    UnexpectedEof,
    /// Any other transport failure.
    Other,
}

/// Whether a failure is a benign peer-initiated reset, deserving only a
/// quiet log line.
pub fn is_benign_disconnect(kind: &FailureKind) -> (r: bool)
    ensures
        r == (kind is BrokenPipe || kind is UnexpectedEof),
{
    match kind {
        FailureKind::BrokenPipe => true,
        FailureKind::UnexpectedEof => true,
        FailureKind::Other => false,
    }
}

} // verus!


