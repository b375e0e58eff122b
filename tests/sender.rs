use rsonance::{LinkState, ReconnectingSender, SenderAction, SenderEvent, BACKOFF_SECS};

#[test]
fn successful_sends_keep_connected() {
    let mut s = ReconnectingSender::new(5, 64);
    assert_eq!(s.next_action(), SenderAction::SendNext);
    assert_eq!(s.on_event(SenderEvent::SendSucceeded), SenderAction::SendNext);
    assert_eq!(s.link(), LinkState::Connected);
    assert_eq!(s.attempt_count(), 0);
    assert_eq!(BACKOFF_SECS, 1);
}

#[test]
fn failed_send_reconnects_and_success_resets() {
    let mut s = ReconnectingSender::new(3, 64);
    assert_eq!(s.on_event(SenderEvent::SendFailed), SenderAction::BackoffAndReconnect);
    assert_eq!(s.on_event(SenderEvent::ReconnectFailed), SenderAction::BackoffAndReconnect);
    assert_eq!(s.attempt_count(), 1);
    assert_eq!(s.on_event(SenderEvent::ReconnectSucceeded), SenderAction::SendNext);
    assert_eq!(s.attempt_count(), 0);
    assert_eq!(s.link(), LinkState::Connected);
}

#[test]
fn exhausted_attempts_fail_for_good() {
    let mut s = ReconnectingSender::new(2, 64);
    s.on_event(SenderEvent::SendFailed);
    assert_eq!(s.on_event(SenderEvent::ReconnectFailed), SenderAction::BackoffAndReconnect);
    assert_eq!(s.on_event(SenderEvent::ReconnectFailed), SenderAction::Stop);
    assert_eq!(s.link(), LinkState::Failed);
    assert_eq!(s.attempt_count(), 2);
    assert_eq!(s.on_event(SenderEvent::ReconnectSucceeded), SenderAction::Stop);
    assert_eq!(s.on_event(SenderEvent::SendSucceeded), SenderAction::Stop);
}

#[test]
fn zero_attempts_fail_on_first_send_error() {
    let mut s = ReconnectingSender::new(0, 64);
    assert_eq!(s.on_event(SenderEvent::SendFailed), SenderAction::Stop);
    assert_eq!(s.link(), LinkState::Failed);
}

#[test]
fn backlog_beyond_limit_is_dropped() {
    let s = ReconnectingSender::new(5, 10);
    assert_eq!(s.excess_backlog(4), 0);
    assert_eq!(s.excess_backlog(10), 0);
    assert_eq!(s.excess_backlog(13), 3);
}
