use vstd::prelude::*;

verus! {

/// Pause, in milliseconds, after a failure or a lost link before the
/// supervisor looks at the radio again.
pub const SETTLE_DELAY_MS: u64 = 5000;

/// The radio driver's own view of the station link.
#[derive(Clone, Copy, Debug, PartialEq, Eq, Structural)]
pub enum ConnState {
    Disconnected,
    Connecting,
    Connected,
}

/// Where the supervisor stands in its endless keep-connected loop.
#[derive(Clone, Copy, Debug, PartialEq, Eq, Structural)]
pub enum SupPhase {
    /// About to read the driver's connection state.
    Idle,
    /// Connected; waiting for the driver's disconnect notification.
    WaitDisconnect,
    /// Sleeping the settle delay before trying again.
    Settle,
    /// Asking whether the driver has been started.
    EnsureStarted,
    /// Applying the station configuration and starting the driver.
    Starting,
    /// Asking the driver to join the network.
    Connecting,
}

/// The outcome of the work the supervisor last asked for.
#[derive(Clone, Copy, Debug, PartialEq, Eq, Structural)]
pub enum SupEvent {
    /// The driver reported this connection state.
    StateObserved(ConnState),
    /// The driver signalled that the station was disconnected.
    LinkLost,
    /// The settle delay has passed.
    SettleElapsed,
    /// Whether the driver reported itself started (an error counts as not).
    StartedQueried(bool),
    /// Whether configuring and starting the driver succeeded.
    StartFinished(bool),
    /// Whether the connect request succeeded.
    ConnectFinished(bool),
}

/// The next piece of work the supervisor asks its caller to perform.
#[derive(Clone, Copy, Debug, PartialEq, Eq, Structural)]
pub enum SupAction {
    ObserveState,
    WaitForDisconnect,
    Sleep(u64),
    QueryStarted,
    ConfigureAndStart,
    Connect,
}

/// The work each phase asks for.
pub open spec fn sup_action_of(p: SupPhase) -> SupAction {
    match p {
        SupPhase::Idle => SupAction::ObserveState,
        SupPhase::WaitDisconnect => SupAction::WaitForDisconnect,
        SupPhase::Settle => SupAction::Sleep(SETTLE_DELAY_MS),
        SupPhase::EnsureStarted => SupAction::QueryStarted,
        SupPhase::Starting => SupAction::ConfigureAndStart,
        SupPhase::Connecting => SupAction::Connect,
    }
}

/// Phases that lead to a connect request without another look at the driver.
pub open spec fn may_connect(p: SupPhase) -> bool {
    p is EnsureStarted || p is Starting || p is Connecting
}

/// What an event says about whether the driver is connected, if anything.
pub open spec fn link_report(e: SupEvent) -> Option<bool> {
    match e {
        SupEvent::StateObserved(s) => Some(s == ConnState::Connected),
        SupEvent::LinkLost => Some(false),
        SupEvent::ConnectFinished(ok) => if ok {
            Some(true)
        } else {
            None
        },
        _ => None,
    }
}

/// The phase after an event, or `None` when the phase ignores that event.
/// Word that the driver is connected always diverts a phase that would lead
/// to a connect request into waiting for a disconnect.
pub open spec fn sup_next(p: SupPhase, e: SupEvent) -> Option<SupPhase> {
    if may_connect(p) && link_report(e) == Some(true) {
        Some(SupPhase::WaitDisconnect)
    } else {
        match (p, e) {
            (SupPhase::Idle, SupEvent::StateObserved(s)) => if s == ConnState::Connected {
                Some(SupPhase::WaitDisconnect)
            } else {
                Some(SupPhase::EnsureStarted)
            },
            (SupPhase::WaitDisconnect, SupEvent::LinkLost) => Some(SupPhase::Settle),
            (SupPhase::Settle, SupEvent::SettleElapsed) => Some(SupPhase::Idle),
            (SupPhase::EnsureStarted, SupEvent::StartedQueried(started)) => if started {
                Some(SupPhase::Connecting)
            } else {
                Some(SupPhase::Starting)
            },
            (SupPhase::Starting, SupEvent::StartFinished(ok)) => if ok {
                Some(SupPhase::Connecting)
            } else {
                Some(SupPhase::Settle)
            },
            (SupPhase::Connecting, SupEvent::ConnectFinished(ok)) => if ok {
                Some(SupPhase::WaitDisconnect)
            } else {
                Some(SupPhase::Settle)
            },
            _ => None,
        }
    }
}

/// The work asked for in answer to an event: that of the new phase, or none
/// when the event is ignored.
pub open spec fn sup_emitted(p: SupPhase, e: SupEvent) -> Option<SupAction> {
    match sup_next(p, e) {
        Some(q) => Some(sup_action_of(q)),
        None => None,
    }
}

/// The phase reached from `p` after a sequence of events.
pub open spec fn sup_run(p: SupPhase, evs: Seq<SupEvent>) -> SupPhase
    decreases evs.len(),
{
    if evs.len() == 0 {
        p
    } else {
        let q = sup_run(p, evs.drop_last());
        match sup_next(q, evs.last()) {
            Some(r) => r,
            None => q,
        }
    }
}

/// Whether the latest word from the driver in `evs` says it is connected.
pub open spec fn knows_connected(evs: Seq<SupEvent>) -> bool
    decreases evs.len(),
{
    if evs.len() == 0 {
        false
    } else {
        match link_report(evs.last()) {
            Some(b) => b,
            None => knows_connected(evs.drop_last()),
        }
    }
}

proof fn lemma_connect_phases_follow_disconnected_word(evs: Seq<SupEvent>)
    ensures
        may_connect(sup_run(SupPhase::Idle, evs)) ==> !knows_connected(evs),
    decreases evs.len(),
{
    if evs.len() > 0 {
        lemma_connect_phases_follow_disconnected_word(evs.drop_last());
    }
}

/// Whatever the driver reports, and in whatever order, the supervisor never
/// asks for a connect request while the latest word from the driver is that
/// it is connected.
pub proof fn lemma_never_connects_while_connected(evs: Seq<SupEvent>, i: int)
    requires
        0 <= i < evs.len(),
        sup_emitted(sup_run(SupPhase::Idle, evs.take(i)), evs[i]) == Some(SupAction::Connect),
    ensures
        !knows_connected(evs.take(i + 1)),
{
    let before = evs.take(i);
    let upto = evs.take(i + 1);
    assert(upto.drop_last() =~= before);
    assert(upto.last() == evs[i]);
    lemma_connect_phases_follow_disconnected_word(before);
}

/// A failed start or connect sends the supervisor into a pause of exactly the
/// settle delay; nothing but the end of that pause moves it on, and it then
/// goes straight back to reading the driver's state to try again.
pub proof fn lemma_failure_then_settle_then_retry(p: SupPhase, e: SupEvent)
    ensures
        (p is Starting && e == SupEvent::StartFinished(false)) ==> sup_next(p, e) == Some(
            SupPhase::Settle,
        ),
        (p is Connecting && e == SupEvent::ConnectFinished(false)) ==> sup_next(p, e) == Some(
            SupPhase::Settle,
        ),
        sup_next(p, e) == Some(SupPhase::Settle) ==> sup_emitted(p, e) == Some(
            SupAction::Sleep(SETTLE_DELAY_MS),
        ),
        sup_next(SupPhase::Settle, e) is Some ==> e == SupEvent::SettleElapsed,
        sup_emitted(SupPhase::Settle, SupEvent::SettleElapsed) == Some(SupAction::ObserveState),
        forall|d: u64| sup_emitted(p, e) == Some(SupAction::Sleep(d)) ==> d == SETTLE_DELAY_MS,
{
}

/// The supervisor that keeps the radio associated with the configured network.
pub struct Supervisor {
    pub phase: SupPhase,
}

impl Supervisor {
    /// A supervisor about to read the driver's state.
    pub fn new() -> (r: Supervisor)
        ensures
            r.phase == SupPhase::Idle,
    {
        Supervisor { phase: SupPhase::Idle }
    }

    /// The work the current phase asks for.
    pub fn action(&self) -> (r: SupAction)
        ensures
            r == sup_action_of(self.phase),
    {
        match self.phase {
            SupPhase::Idle => SupAction::ObserveState,
            SupPhase::WaitDisconnect => SupAction::WaitForDisconnect,
            SupPhase::Settle => SupAction::Sleep(SETTLE_DELAY_MS),
            SupPhase::EnsureStarted => SupAction::QueryStarted,
            SupPhase::Starting => SupAction::ConfigureAndStart,
            SupPhase::Connecting => SupAction::Connect,
        }
    }

    /// Takes the outcome of the last piece of work and returns the next one,
    /// or `None` when the current phase ignores the event.
    pub fn step(&mut self, e: SupEvent) -> (r: Option<SupAction>)
        ensures
            r == sup_emitted(old(self).phase, e),
            final(self).phase == (match sup_next(old(self).phase, e) {
                Some(q) => q,
                None => old(self).phase,
            }),
    {
        let connected_word = match e {
            SupEvent::StateObserved(s) => s == ConnState::Connected,
            SupEvent::ConnectFinished(ok) => ok,
            _ => false,
        };
        let leads_to_connect = match self.phase {
            SupPhase::EnsureStarted | SupPhase::Starting | SupPhase::Connecting => true,
            _ => false,
        };
        let next: Option<SupPhase> = if leads_to_connect && connected_word {
            Some(SupPhase::WaitDisconnect)
        } else {
            match (self.phase, e) {
                (SupPhase::Idle, SupEvent::StateObserved(s)) => if s == ConnState::Connected {
                    Some(SupPhase::WaitDisconnect)
                } else {
                    Some(SupPhase::EnsureStarted)
                },
                (SupPhase::WaitDisconnect, SupEvent::LinkLost) => Some(SupPhase::Settle),
                (SupPhase::Settle, SupEvent::SettleElapsed) => Some(SupPhase::Idle),
                (SupPhase::EnsureStarted, SupEvent::StartedQueried(started)) => if started {
                    Some(SupPhase::Connecting)
                } else {
                    Some(SupPhase::Starting)
                },
                (SupPhase::Starting, SupEvent::StartFinished(ok)) => if ok {
                    Some(SupPhase::Connecting)
                } else {
                    Some(SupPhase::Settle)
                },
                (SupPhase::Connecting, SupEvent::ConnectFinished(ok)) => if ok {
                    Some(SupPhase::WaitDisconnect)
                } else {
                    Some(SupPhase::Settle)
                },
                _ => None,
            }
        };
        match next {
            Some(q) => {
                self.phase = q;
                Some(self.action())
            },
            None => None,
        }
    }
}

} // verus!
