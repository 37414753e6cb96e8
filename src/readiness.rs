use vstd::prelude::*;

verus! {

/// Pause, in milliseconds, between two reads of the network stack's status.
pub const POLL_INTERVAL_MS: u64 = 500;

/// A leased IPv4 address with its prefix length and gateway, each address
/// written as a big-endian integer.
#[derive(Clone, Copy, Debug, PartialEq, Eq, Structural)]
pub struct AddressInfo {
    pub address: u32,
    pub prefix_len: u8,
    pub gateway: Option<u32>,
}

/// One read of the network stack's two status accessors, taken together.
#[derive(Clone, Copy, Debug, PartialEq, Eq, Structural)]
pub struct StackStatus {
    pub link_up: bool,
    pub address: Option<AddressInfo>,
}

/// Where the waiter stands: the link is awaited first, then the address.
#[derive(Clone, Copy, Debug, PartialEq, Eq, Structural)]
pub enum WaitPhase {
    CheckLink,
    PauseLink,
    CheckAddress,
    PauseAddress,
    Ready(AddressInfo),
}

/// The outcome of the work the waiter last asked for.
#[derive(Clone, Copy, Debug, PartialEq, Eq, Structural)]
pub enum WaitEvent {
    Status(StackStatus),
    PollElapsed,
}

/// The next piece of work the waiter asks its caller to perform.
#[derive(Clone, Copy, Debug, PartialEq, Eq, Structural)]
pub enum WaitAction {
    ReadStatus,
    Sleep(u64),
    /// The stack is ready with this address: stop waiting.
    Finish(AddressInfo),
}

/// The readiness waiter: its phase and the time it has spent sleeping.
#[derive(Clone, Copy, Debug, PartialEq, Eq, Structural)]
pub struct ReadinessWaiter {
    pub phase: WaitPhase,
    pub waited_ms: u64,
}

/// The work each phase asks for.
pub open spec fn wait_action_of(p: WaitPhase) -> WaitAction {
    match p {
        WaitPhase::CheckLink => WaitAction::ReadStatus,
        WaitPhase::CheckAddress => WaitAction::ReadStatus,
        WaitPhase::PauseLink => WaitAction::Sleep(POLL_INTERVAL_MS),
        WaitPhase::PauseAddress => WaitAction::Sleep(POLL_INTERVAL_MS),
        WaitPhase::Ready(a) => WaitAction::Finish(a),
    }
}

/// Sleeping time after one more poll interval, held at the top of the range.
pub open spec fn add_poll(waited_ms: u64) -> u64 {
    if waited_ms as int + POLL_INTERVAL_MS as int > u64::MAX as int {
        u64::MAX
    } else {
        (waited_ms + POLL_INTERVAL_MS) as u64
    }
}

/// The waiter after an event, or `None` when its phase ignores the event.
/// A link that is down while the address is awaited sends the waiter back to
/// awaiting the link.
pub open spec fn wait_next(w: ReadinessWaiter, e: WaitEvent) -> Option<ReadinessWaiter> {
    match (w.phase, e) {
        (WaitPhase::CheckLink, WaitEvent::Status(st)) => Some(
            ReadinessWaiter {
                phase: if st.link_up {
                    WaitPhase::CheckAddress
                } else {
                    WaitPhase::PauseLink
                },
                ..w
            },
        ),
        (WaitPhase::CheckAddress, WaitEvent::Status(st)) => Some(
            ReadinessWaiter {
                phase: if !st.link_up {
                    WaitPhase::PauseLink
                } else {
                    match st.address {
                        Some(a) => WaitPhase::Ready(a),
                        None => WaitPhase::PauseAddress,
                    }
                },
                ..w
            },
        ),
        (WaitPhase::PauseLink, WaitEvent::PollElapsed) => Some(
            ReadinessWaiter { phase: WaitPhase::CheckLink, waited_ms: add_poll(w.waited_ms) },
        ),
        (WaitPhase::PauseAddress, WaitEvent::PollElapsed) => Some(
            ReadinessWaiter { phase: WaitPhase::CheckAddress, waited_ms: add_poll(w.waited_ms) },
        ),
        _ => None,
    }
}

/// The work asked for in answer to an event, or none when it is ignored.
pub open spec fn wait_emitted(w: ReadinessWaiter, e: WaitEvent) -> Option<WaitAction> {
    match wait_next(w, e) {
        Some(v) => Some(wait_action_of(v.phase)),
        None => None,
    }
}

/// The waiter reached from `w` after a sequence of events.
pub open spec fn wait_run(w: ReadinessWaiter, evs: Seq<WaitEvent>) -> ReadinessWaiter
    decreases evs.len(),
{
    if evs.len() == 0 {
        w
    } else {
        let v = wait_run(w, evs.drop_last());
        match wait_next(v, evs.last()) {
            Some(u) => u,
            None => v,
        }
    }
}

/// A waiter that has not yet looked at the stack.
pub open spec fn fresh_waiter() -> ReadinessWaiter {
    ReadinessWaiter { phase: WaitPhase::CheckLink, waited_ms: 0 }
}

/// The waiter only ever becomes ready on a status read in which the link is
/// up and an address is present, and it then reports that very address.
pub proof fn lemma_ready_only_when_link_and_address(w: ReadinessWaiter, e: WaitEvent, a: AddressInfo)
    requires
        !(w.phase is Ready),
        wait_emitted(w, e) == Some(WaitAction::Finish(a)),
    ensures
        e == WaitEvent::Status(StackStatus { link_up: true, address: Some(a) }),
{
}

/// On a stack that is already up, with an address, a fresh waiter finishes
/// after two status reads and no sleep; a second fresh waiter run right after
/// does exactly the same.
pub proof fn lemma_ready_stack_no_wait(st: StackStatus)
    requires
        st.link_up,
        st.address is Some,
    ensures
        wait_run(fresh_waiter(), seq![WaitEvent::Status(st), WaitEvent::Status(st)]) == (
        ReadinessWaiter { phase: WaitPhase::Ready(st.address.unwrap()), waited_ms: 0 }),
        wait_emitted(fresh_waiter(), WaitEvent::Status(st)) == Some(WaitAction::ReadStatus),
        wait_emitted(
            wait_run(fresh_waiter(), seq![WaitEvent::Status(st)]),
            WaitEvent::Status(st),
        ) == Some(WaitAction::Finish(st.address.unwrap())),
{
    let one = seq![WaitEvent::Status(st)];
    let two = seq![WaitEvent::Status(st), WaitEvent::Status(st)];
    assert(two.drop_last() =~= one);
    assert(one.drop_last() =~= Seq::<WaitEvent>::empty());
    reveal_with_fuel(wait_run, 3);
}

impl ReadinessWaiter {
    /// A waiter about to read the stack's status for the first time.
    pub fn new() -> (r: ReadinessWaiter)
        ensures
            r == fresh_waiter(),
    {
        ReadinessWaiter { phase: WaitPhase::CheckLink, waited_ms: 0 }
    }

    /// The work the current phase asks for.
    pub fn action(&self) -> (r: WaitAction)
        ensures
            r == wait_action_of(self.phase),
    {
        match self.phase {
            WaitPhase::CheckLink => WaitAction::ReadStatus,
            WaitPhase::CheckAddress => WaitAction::ReadStatus,
            WaitPhase::PauseLink => WaitAction::Sleep(POLL_INTERVAL_MS),
            WaitPhase::PauseAddress => WaitAction::Sleep(POLL_INTERVAL_MS),
            WaitPhase::Ready(a) => WaitAction::Finish(a),
        }
    }

    /// Whether the stack has been seen ready.
    pub fn is_ready(&self) -> (r: bool)
        ensures
            r == self.phase is Ready,
    {
        match self.phase {
            WaitPhase::Ready(_) => true,
            _ => false,
        }
    }

    /// Takes the outcome of the last piece of work and returns the next one,
    /// or `None` when the current phase ignores the event.
    pub fn step(&mut self, e: WaitEvent) -> (r: Option<WaitAction>)
        ensures
            r == wait_emitted(*old(self), e),
            *final(self) == (match wait_next(*old(self), e) {
                Some(v) => v,
                None => *old(self),
            }),
    {
        let waited = if self.waited_ms > u64::MAX - POLL_INTERVAL_MS {
            u64::MAX
        } else {
            self.waited_ms + POLL_INTERVAL_MS
        };
        let next: Option<ReadinessWaiter> = match (self.phase, e) {
            (WaitPhase::CheckLink, WaitEvent::Status(st)) => Some(
                ReadinessWaiter {
                    phase: if st.link_up {
                        WaitPhase::CheckAddress
                    } else {
                        WaitPhase::PauseLink
                    },
                    waited_ms: self.waited_ms,
                },
            ),
            (WaitPhase::CheckAddress, WaitEvent::Status(st)) => {
                let phase = if !st.link_up {
                    WaitPhase::PauseLink
                } else {
                    match st.address {
                        Some(a) => WaitPhase::Ready(a),
                        None => WaitPhase::PauseAddress,
                    }
                };
                Some(ReadinessWaiter { phase, waited_ms: self.waited_ms })
            },
            (WaitPhase::PauseLink, WaitEvent::PollElapsed) => Some(
                ReadinessWaiter { phase: WaitPhase::CheckLink, waited_ms: waited },
            ),
            (WaitPhase::PauseAddress, WaitEvent::PollElapsed) => Some(
                ReadinessWaiter { phase: WaitPhase::CheckAddress, waited_ms: waited },
            ),
            _ => None,
        };
        match next {
            Some(v) => {
                *self = v;
                Some(self.action())
            },
            None => None,
        }
    }
}

} // verus!
