use vstd::prelude::*;

verus! {

/// Size, in bytes, of the fixed receive buffer that a response is read into.
pub const RX_BUFFER_LEN: usize = 4096;

/// Why the HTTP client failed to build or send a request.
#[derive(Clone, Copy, Debug, PartialEq, Eq, Structural)]
pub enum TransportError {
    Dns,
    Network,
    Codec,
    InvalidUrl,
    Tls,
    BufferTooSmall,
    AlreadySent,
    IncorrectBodyWritten,
    ConnectionAborted,
}

/// What the transport reported once a request was sent.
#[derive(Clone, Copy, Debug, PartialEq, Eq, Structural)]
pub struct SendReport {
    pub status: u16,
    /// Bytes the peer offered for the receive buffer.
    pub offered: usize,
}

/// What is kept of a response: its status, how many bytes the receive buffer
/// holds, and whether the peer offered more than fit.
#[derive(Clone, Copy, Debug, PartialEq, Eq, Structural)]
pub struct ResponseSummary {
    pub status: u16,
    pub stored: usize,
    pub truncated: bool,
}

/// The single, final outcome of one request attempt.
#[derive(Clone, Copy, Debug, PartialEq, Eq, Structural)]
pub enum RequestOutcome {
    BuildError(TransportError),
    SendError(TransportError),
    Success(ResponseSummary),
}

/// Where the executor stands in its one attempt.
#[derive(Clone, Copy, Debug, PartialEq, Eq, Structural)]
pub enum ExecPhase {
    NotStarted,
    Building,
    Sending,
    Done(RequestOutcome),
}

/// The outcome of the work the executor last asked for.
#[derive(Clone, Copy, Debug, PartialEq, Eq, Structural)]
pub enum ExecEvent {
    /// The network stack is ready: begin the attempt.
    Begin,
    BuildSucceeded,
    BuildFailed(TransportError),
    SendSucceeded(SendReport),
    SendFailed(TransportError),
}

/// The next piece of work the executor asks its caller to perform.
#[derive(Clone, Copy, Debug, PartialEq, Eq, Structural)]
pub enum ExecAction {
    /// Build the request against the target; nothing has been sent yet.
    BuildRequest,
    /// Send the built request and read the response into the receive buffer.
    SendRequest,
    /// The attempt is over with this outcome.
    Report(RequestOutcome),
}

/// The number of bytes of an offered response that the receive buffer keeps.
pub open spec fn stored_len(offered: usize) -> usize {
    if offered > RX_BUFFER_LEN {
        RX_BUFFER_LEN
    } else {
        offered
    }
}

/// The summary of a response the transport reported as sent.
pub open spec fn summarize(rep: SendReport) -> ResponseSummary {
    ResponseSummary {
        status: rep.status,
        stored: stored_len(rep.offered),
        truncated: rep.offered > RX_BUFFER_LEN,
    }
}

/// The phase after an event, or `None` when the phase ignores it.
pub open spec fn exec_next(p: ExecPhase, e: ExecEvent) -> Option<ExecPhase> {
    match (p, e) {
        (ExecPhase::NotStarted, ExecEvent::Begin) => Some(ExecPhase::Building),
        (ExecPhase::Building, ExecEvent::BuildSucceeded) => Some(ExecPhase::Sending),
        (ExecPhase::Building, ExecEvent::BuildFailed(err)) => Some(
            ExecPhase::Done(RequestOutcome::BuildError(err)),
        ),
        (ExecPhase::Sending, ExecEvent::SendSucceeded(rep)) => Some(
            ExecPhase::Done(RequestOutcome::Success(summarize(rep))),
        ),
        (ExecPhase::Sending, ExecEvent::SendFailed(err)) => Some(
            ExecPhase::Done(RequestOutcome::SendError(err)),
        ),
        _ => None,
    }
}

/// The work each phase asks for on entry; `NotStarted` asks for none.
pub open spec fn exec_action_of(p: ExecPhase) -> Option<ExecAction> {
    match p {
        ExecPhase::NotStarted => None,
        ExecPhase::Building => Some(ExecAction::BuildRequest),
        ExecPhase::Sending => Some(ExecAction::SendRequest),
        ExecPhase::Done(o) => Some(ExecAction::Report(o)),
    }
}

/// The work asked for in answer to an event, or none when it is ignored.
pub open spec fn exec_emitted(p: ExecPhase, e: ExecEvent) -> Option<ExecAction> {
    match exec_next(p, e) {
        Some(q) => exec_action_of(q),
        None => None,
    }
}

/// The phase reached from `p` after a sequence of events.
pub open spec fn exec_run(p: ExecPhase, evs: Seq<ExecEvent>) -> ExecPhase
    decreases evs.len(),
{
    if evs.len() == 0 {
        p
    } else {
        let q = exec_run(p, evs.drop_last());
        match exec_next(q, evs.last()) {
            Some(r) => r,
            None => q,
        }
    }
}

/// How many times a fresh executor asks for the request to be sent while it
/// takes the events in `evs`.
pub open spec fn send_count(evs: Seq<ExecEvent>) -> nat
    decreases evs.len(),
{
    if evs.len() == 0 {
        0
    } else {
        send_count(evs.drop_last()) + if exec_emitted(
            exec_run(ExecPhase::NotStarted, evs.drop_last()),
            evs.last(),
        ) == Some(ExecAction::SendRequest) {
            1nat
        } else {
            0nat
        }
    }
}

proof fn lemma_send_count_by_phase(evs: Seq<ExecEvent>)
    ensures
        ({
            let p = exec_run(ExecPhase::NotStarted, evs);
            &&& (p is NotStarted || p is Building) ==> send_count(evs) == 0
            &&& p is Sending ==> send_count(evs) == 1
            &&& p matches ExecPhase::Done(o) ==> send_count(evs) == if o is BuildError {
                0nat
            } else {
                1nat
            }
        }),
    decreases evs.len(),
{
    if evs.len() > 0 {
        lemma_send_count_by_phase(evs.drop_last());
    }
}

/// Whatever events it is given, a fresh executor asks for the request to be
/// sent at most once, and never once building the request has failed.
pub proof fn lemma_send_at_most_once(evs: Seq<ExecEvent>)
    ensures
        send_count(evs) <= 1,
        exec_run(ExecPhase::NotStarted, evs) matches ExecPhase::Done(RequestOutcome::BuildError(_))
            ==> send_count(evs) == 0,
{
    lemma_send_count_by_phase(evs);
}

/// The request executor: one build, at most one send, one outcome.
#[derive(Clone, Copy, Debug, PartialEq, Eq, Structural)]
pub struct RequestExecutor {
    pub phase: ExecPhase,
}

impl RequestExecutor {
    /// An executor waiting for the stack to be ready.
    pub fn new() -> (r: RequestExecutor)
        ensures
            r.phase == ExecPhase::NotStarted,
    {
        RequestExecutor { phase: ExecPhase::NotStarted }
    }

    /// The outcome, once the attempt is over.
    pub fn outcome(&self) -> (r: Option<RequestOutcome>)
        ensures
            r == (match self.phase {
                ExecPhase::Done(o) => Some(o),
                _ => None,
            }),
    {
        match self.phase {
            ExecPhase::Done(o) => Some(o),
            _ => None,
        }
    }

    /// Takes the outcome of the last piece of work and returns the next one,
    /// or `None` when the current phase ignores the event.
    pub fn step(&mut self, e: ExecEvent) -> (r: Option<ExecAction>)
        ensures
            r == exec_emitted(old(self).phase, e),
            final(self).phase == (match exec_next(old(self).phase, e) {
                Some(q) => q,
                None => old(self).phase,
            }),
    {
        let next: Option<ExecPhase> = match (self.phase, e) {
            (ExecPhase::NotStarted, ExecEvent::Begin) => Some(ExecPhase::Building),
            (ExecPhase::Building, ExecEvent::BuildSucceeded) => Some(ExecPhase::Sending),
            (ExecPhase::Building, ExecEvent::BuildFailed(err)) => Some(
                ExecPhase::Done(RequestOutcome::BuildError(err)),
            ),
            (ExecPhase::Sending, ExecEvent::SendSucceeded(rep)) => Some(
                ExecPhase::Done(RequestOutcome::Success(summarize_report(rep))),
            ),
            (ExecPhase::Sending, ExecEvent::SendFailed(err)) => Some(
                ExecPhase::Done(RequestOutcome::SendError(err)),
            ),
            _ => None,
        };
        match next {
            Some(q) => {
                self.phase = q;
                match q {
                    ExecPhase::NotStarted => None,
                    ExecPhase::Building => Some(ExecAction::BuildRequest),
                    ExecPhase::Sending => Some(ExecAction::SendRequest),
                    ExecPhase::Done(o) => Some(ExecAction::Report(o)),
                }
            },
            None => None,
        }
    }
}

/// Summarizes a sent response: a peer that offers more than the receive
/// buffer holds yields a truncated success, not an error.
pub fn summarize_report(rep: SendReport) -> (r: ResponseSummary)
    ensures
        r == summarize(rep),
{
    ResponseSummary {
        status: rep.status,
        stored: if rep.offered > RX_BUFFER_LEN {
            RX_BUFFER_LEN
        } else {
            rep.offered
        },
        truncated: rep.offered > RX_BUFFER_LEN,
    }
}

/// Copies as much of `incoming` as fits into the fixed receive buffer and
/// returns how many bytes were kept; the rest of the buffer is untouched.
pub fn fill_rx_buffer(incoming: &[u8], buf: &mut [u8; 4096]) -> (n: usize)
    ensures
        n == stored_len(incoming@.len() as usize),
        n <= incoming@.len(),
        final(buf)@.len() == RX_BUFFER_LEN,
        final(buf)@.take(n as int) == incoming@.take(n as int),
        final(buf)@.skip(n as int) == old(buf)@.skip(n as int),
{
    let n: usize = if incoming.len() > RX_BUFFER_LEN {
        RX_BUFFER_LEN
    } else {
        incoming.len()
    };
    let mut i: usize = 0;
    while i < n
        invariant
            n <= incoming@.len(),
            n <= RX_BUFFER_LEN,
            i <= n,
            buf@.len() == RX_BUFFER_LEN,
            forall|j: int| 0 <= j < i ==> buf@[j] == incoming@[j],
            forall|j: int| i <= j < RX_BUFFER_LEN ==> buf@[j] == old(buf)@[j],
        decreases n - i,
    {
        buf.set(i, incoming[i]);
        i = i + 1;
    }
    assert(buf@.take(n as int) =~= incoming@.take(n as int));
    assert(buf@.skip(n as int) =~= old(buf)@.skip(n as int));
    n
}

} // verus!
