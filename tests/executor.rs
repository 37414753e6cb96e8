use wifi_link::{
    fill_rx_buffer, summarize_report, ExecAction, ExecEvent, ExecPhase, RequestExecutor,
    RequestOutcome, ResponseSummary, SendReport, TransportError, RX_BUFFER_LEN,
};

#[test]
fn malformed_target_reports_build_error_without_send() {
    let mut x = RequestExecutor::new();
    assert_eq!(x.step(ExecEvent::Begin), Some(ExecAction::BuildRequest));
    let a = x.step(ExecEvent::BuildFailed(TransportError::InvalidUrl));
    assert_eq!(
        a,
        Some(ExecAction::Report(RequestOutcome::BuildError(
            TransportError::InvalidUrl
        )))
    );
    assert_eq!(x.step(ExecEvent::BuildSucceeded), None);
    assert_eq!(
        x.step(ExecEvent::SendSucceeded(SendReport {
            status: 200,
            offered: 10
        })),
        None
    );
    assert_eq!(
        x.outcome(),
        Some(RequestOutcome::BuildError(TransportError::InvalidUrl))
    );
}

#[test]
fn oversized_response_is_a_truncated_success() {
    let mut x = RequestExecutor::new();
    x.step(ExecEvent::Begin);
    assert_eq!(x.step(ExecEvent::BuildSucceeded), Some(ExecAction::SendRequest));
    let a = x.step(ExecEvent::SendSucceeded(SendReport {
        status: 200,
        offered: 10000,
    }));
    let expected = RequestOutcome::Success(ResponseSummary {
        status: 200,
        stored: 4096,
        truncated: true,
    });
    assert_eq!(a, Some(ExecAction::Report(expected)));
    assert_eq!(x.phase, ExecPhase::Done(expected));
}

#[test]
fn send_failure_is_reported_once() {
    let mut x = RequestExecutor::new();
    x.step(ExecEvent::Begin);
    x.step(ExecEvent::BuildSucceeded);
    assert_eq!(
        x.step(ExecEvent::SendFailed(TransportError::ConnectionAborted)),
        Some(ExecAction::Report(RequestOutcome::SendError(
            TransportError::ConnectionAborted
        )))
    );
    assert_eq!(x.step(ExecEvent::Begin), None);
    assert_eq!(x.step(ExecEvent::BuildSucceeded), None);
}

#[test]
fn send_is_asked_for_at_most_once() {
    let events = [
        ExecEvent::Begin,
        ExecEvent::Begin,
        ExecEvent::BuildSucceeded,
        ExecEvent::BuildSucceeded,
        ExecEvent::SendFailed(TransportError::Network),
        ExecEvent::BuildSucceeded,
        ExecEvent::SendSucceeded(SendReport {
            status: 200,
            offered: 1,
        }),
    ];
    let mut x = RequestExecutor::new();
    let sends = events
        .iter()
        .filter(|e| x.step(**e) == Some(ExecAction::SendRequest))
        .count();
    assert_eq!(sends, 1);
}

#[test]
fn small_response_is_kept_whole() {
    let s = summarize_report(SendReport {
        status: 404,
        offered: 4096,
    });
    assert_eq!(
        s,
        ResponseSummary {
            status: 404,
            stored: 4096,
            truncated: false
        }
    );
    let s = summarize_report(SendReport {
        status: 200,
        offered: 0,
    });
    assert_eq!(s.stored, 0);
    assert!(!s.truncated);
}

#[test]
fn rx_buffer_keeps_a_prefix() {
    let incoming: Vec<u8> = (0..5000u32).map(|i| (i % 251) as u8).collect();
    let mut buf = [0xAAu8; 4096];
    let n = fill_rx_buffer(&incoming, &mut buf);
    assert_eq!(n, RX_BUFFER_LEN);
    assert_eq!(&buf[..], &incoming[..4096]);

    let mut buf = [0xAAu8; 4096];
    let n = fill_rx_buffer(&incoming[..10], &mut buf);
    assert_eq!(n, 10);
    assert_eq!(&buf[..10], &incoming[..10]);
    assert!(buf[10..].iter().all(|b| *b == 0xAA));
}
