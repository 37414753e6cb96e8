use wifi_link::{ConnState, SupAction, SupEvent, SupPhase, Supervisor, SETTLE_DELAY_MS};

#[test]
fn starts_by_reading_the_driver_state() {
    let s = Supervisor::new();
    assert_eq!(s.phase, SupPhase::Idle);
    assert_eq!(s.action(), SupAction::ObserveState);
}

#[test]
fn connected_driver_is_never_asked_to_connect() {
    let mut s = Supervisor::new();
    let a = s.step(SupEvent::StateObserved(ConnState::Connected));
    assert_eq!(a, Some(SupAction::WaitForDisconnect));
    assert_eq!(s.phase, SupPhase::WaitDisconnect);
}

#[test]
fn never_connecting_driver_retries_forever_at_fixed_cadence() {
    let mut s = Supervisor::new();
    for _ in 0..50 {
        assert_eq!(
            s.step(SupEvent::StateObserved(ConnState::Disconnected)),
            Some(SupAction::QueryStarted)
        );
        assert_eq!(s.step(SupEvent::StartedQueried(true)), Some(SupAction::Connect));
        assert_eq!(
            s.step(SupEvent::ConnectFinished(false)),
            Some(SupAction::Sleep(5000))
        );
        assert_eq!(s.step(SupEvent::SettleElapsed), Some(SupAction::ObserveState));
    }
    assert_eq!(s.phase, SupPhase::Idle);
}

#[test]
fn unstarted_driver_is_configured_and_started_before_connect() {
    let mut s = Supervisor::new();
    s.step(SupEvent::StateObserved(ConnState::Disconnected));
    assert_eq!(
        s.step(SupEvent::StartedQueried(false)),
        Some(SupAction::ConfigureAndStart)
    );
    assert_eq!(s.step(SupEvent::StartFinished(true)), Some(SupAction::Connect));
    assert_eq!(
        s.step(SupEvent::ConnectFinished(true)),
        Some(SupAction::WaitForDisconnect)
    );
}

#[test]
fn failed_start_settles_then_retries() {
    let mut s = Supervisor::new();
    s.step(SupEvent::StateObserved(ConnState::Connecting));
    s.step(SupEvent::StartedQueried(false));
    assert_eq!(
        s.step(SupEvent::StartFinished(false)),
        Some(SupAction::Sleep(SETTLE_DELAY_MS))
    );
    assert_eq!(s.step(SupEvent::SettleElapsed), Some(SupAction::ObserveState));
}

#[test]
fn disconnect_recovers_without_intervention() {
    let mut s = Supervisor::new();
    s.step(SupEvent::StateObserved(ConnState::Disconnected));
    s.step(SupEvent::StartedQueried(true));
    assert_eq!(
        s.step(SupEvent::ConnectFinished(true)),
        Some(SupAction::WaitForDisconnect)
    );
    assert_eq!(s.step(SupEvent::LinkLost), Some(SupAction::Sleep(5000)));
    assert_eq!(s.phase, SupPhase::Settle);
    assert_eq!(s.step(SupEvent::SettleElapsed), Some(SupAction::ObserveState));
    assert_eq!(s.phase, SupPhase::Idle);
    assert_eq!(
        s.step(SupEvent::StateObserved(ConnState::Disconnected)),
        Some(SupAction::QueryStarted)
    );
    assert_eq!(s.phase, SupPhase::EnsureStarted);
    assert_eq!(s.step(SupEvent::StartedQueried(true)), Some(SupAction::Connect));
    assert_eq!(s.phase, SupPhase::Connecting);
}

#[test]
fn connected_word_diverts_a_pending_connect() {
    let mut s = Supervisor::new();
    s.step(SupEvent::StateObserved(ConnState::Disconnected));
    s.step(SupEvent::StartedQueried(false));
    assert_eq!(
        s.step(SupEvent::StateObserved(ConnState::Connected)),
        Some(SupAction::WaitForDisconnect)
    );
}

#[test]
fn unrelated_events_are_ignored() {
    let mut s = Supervisor::new();
    assert_eq!(s.step(SupEvent::SettleElapsed), None);
    assert_eq!(s.step(SupEvent::LinkLost), None);
    assert_eq!(s.step(SupEvent::ConnectFinished(true)), None);
    assert_eq!(s.phase, SupPhase::Idle);
    s.step(SupEvent::StateObserved(ConnState::Connected));
    assert_eq!(s.step(SupEvent::StateObserved(ConnState::Disconnected)), None);
    assert_eq!(s.phase, SupPhase::WaitDisconnect);
}
