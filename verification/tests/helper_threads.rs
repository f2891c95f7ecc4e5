use compio_compat::{
    readiness_result, NotifierFds, PollTimespec, Readiness, Shutdown, ShutdownAction,
    ShutdownEvent, Timeout, UnixPoller, UnixPollerAction, UnixPollerEvent, WaitError, WaitStatus,
    WindowsPoller, WindowsPollerAction, WindowsPollerEvent,
};

#[test]
fn unix_poller_round() {
    let mut p = UnixPoller::new();
    assert_eq!(p.action(), UnixPollerAction::Receive);
    p.handle(UnixPollerEvent::Received(Some(Timeout::new(7, 42))));
    assert_eq!(
        p.action(),
        UnixPollerAction::Poll(Some(PollTimespec { secs: 7, nanos: 42 }))
    );
    p.handle(UnixPollerEvent::Polled { ok: true });
    assert_eq!(p.action(), UnixPollerAction::Notify);
    p.handle(UnixPollerEvent::Notified { ok: true });
    assert_eq!(p.action(), UnixPollerAction::Receive);
    p.handle(UnixPollerEvent::Received(None));
    assert_eq!(p.action(), UnixPollerAction::Poll(None));
}

#[test]
fn unix_poller_stops_and_fails() {
    let mut p = UnixPoller::new();
    p.handle(UnixPollerEvent::Closed);
    assert_eq!(p.action(), UnixPollerAction::Stop);
    p.handle(UnixPollerEvent::Received(None));
    assert_eq!(p.action(), UnixPollerAction::Stop);

    let mut p = UnixPoller::new();
    p.handle(UnixPollerEvent::Received(None));
    p.handle(UnixPollerEvent::Polled { ok: true });
    p.handle(UnixPollerEvent::Notified { ok: false });
    assert_eq!(p.action(), UnixPollerAction::Stop);

    let mut p = UnixPoller::new();
    p.handle(UnixPollerEvent::Received(None));
    p.handle(UnixPollerEvent::Polled { ok: false });
    assert_eq!(p.action(), UnixPollerAction::Abort);

    let mut p = UnixPoller::new();
    p.handle(UnixPollerEvent::Received(Some(Timeout::new(u64::MAX, 0))));
    assert_eq!(p.action(), UnixPollerAction::Abort);
}

#[test]
fn windows_poller_round() {
    let mut p = WindowsPoller::new();
    assert_eq!(p.action(), WindowsPollerAction::Receive);
    p.handle(WindowsPollerEvent::Received(Some(Timeout::new(2, 5_000_000))));
    assert_eq!(p.action(), WindowsPollerAction::Wait(Some(2005)));
    p.handle(WindowsPollerEvent::WaitReturned(WaitStatus::Returned));
    assert_eq!(p.action(), WindowsPollerAction::Notify);
    p.handle(WindowsPollerEvent::Notified { ok: true });
    assert_eq!(p.action(), WindowsPollerAction::Receive);
    p.handle(WindowsPollerEvent::Received(None));
    assert_eq!(p.action(), WindowsPollerAction::Wait(None));
}

#[test]
fn windows_poller_wraps_long_timeouts() {
    let mut p = WindowsPoller::new();
    p.handle(WindowsPollerEvent::Received(Some(Timeout::new(4_294_968, 0))));
    assert_eq!(p.action(), WindowsPollerAction::Wait(Some(704)));
}

#[test]
fn windows_poller_stops_and_fails() {
    let mut p = WindowsPoller::new();
    p.handle(WindowsPollerEvent::Received(None));
    p.handle(WindowsPollerEvent::WaitReturned(WaitStatus::ShutdownSignalled));
    assert_eq!(p.action(), WindowsPollerAction::Stop);

    let mut p = WindowsPoller::new();
    p.handle(WindowsPollerEvent::Received(None));
    p.handle(WindowsPollerEvent::WaitReturned(WaitStatus::Failed));
    assert_eq!(p.action(), WindowsPollerAction::Abort);

    let mut p = WindowsPoller::new();
    p.handle(WindowsPollerEvent::Closed);
    assert_eq!(p.action(), WindowsPollerAction::Stop);

    let mut p = WindowsPoller::new();
    p.handle(WindowsPollerEvent::Received(None));
    p.handle(WindowsPollerEvent::WaitReturned(WaitStatus::Returned));
    p.handle(WindowsPollerEvent::Notified { ok: false });
    assert_eq!(p.action(), WindowsPollerAction::Stop);
}

#[test]
fn unix_shutdown_joins_after_stop_request() {
    let mut s = Shutdown::unix(true);
    assert_eq!(s.action(), ShutdownAction::SendStop);
    s.handle(ShutdownEvent::StopSent);
    assert_eq!(s.action(), ShutdownAction::JoinThread);
    s.handle(ShutdownEvent::Joined { panicked: true });
    assert_eq!(s.action(), ShutdownAction::ResumePanic);

    let mut s = Shutdown::unix(true);
    s.handle(ShutdownEvent::StopSent);
    s.handle(ShutdownEvent::Joined { panicked: false });
    assert_eq!(s.action(), ShutdownAction::Finish);

    let mut s = Shutdown::unix(false);
    s.handle(ShutdownEvent::StopSent);
    assert_eq!(s.action(), ShutdownAction::Finish);
}

#[test]
fn windows_shutdown_joins_only_after_signal() {
    let mut s = Shutdown::windows(true);
    s.handle(ShutdownEvent::StopSent);
    assert_eq!(s.action(), ShutdownAction::SignalEvent);
    s.handle(ShutdownEvent::EventSignalled { ok: true });
    assert_eq!(s.action(), ShutdownAction::JoinThread);
    s.handle(ShutdownEvent::Joined { panicked: false });
    assert_eq!(s.action(), ShutdownAction::Finish);

    let mut s = Shutdown::windows(true);
    s.handle(ShutdownEvent::StopSent);
    s.handle(ShutdownEvent::EventSignalled { ok: false });
    assert_eq!(s.action(), ShutdownAction::Finish);
}

#[test]
fn notifier_prefers_eventfd() {
    let with_efd = NotifierFds::new(5, Some(9));
    assert_eq!(with_efd.as_raw_fd(), 9);
    assert_eq!(with_efd.drain_fd(), Some(9));
    let without = NotifierFds::new(5, None);
    assert_eq!(without.as_raw_fd(), 5);
    assert_eq!(without.drain_fd(), None);
}

#[test]
fn readiness_race_outcomes() {
    assert!(matches!(readiness_result::<u8>(Readiness::Readable(Ok(()))), Ok(())));
    assert!(matches!(
        readiness_result::<u8>(Readiness::Readable(Err(3))),
        Err(WaitError::Io(3))
    ));
    assert!(matches!(
        readiness_result::<u8>(Readiness::TimerElapsed),
        Err(WaitError::TimedOut)
    ));
}

#[test]
fn stop_request_does_not_stop_unix_thread() {
    let mut p = UnixPoller::new();
    p.handle(UnixPollerEvent::Received(None));
    assert_eq!(p.action(), UnixPollerAction::Poll(None));
    p.handle(UnixPollerEvent::Polled { ok: true });
    p.handle(UnixPollerEvent::Notified { ok: true });
    assert_eq!(p.action(), UnixPollerAction::Receive);
}

#[test]
fn stop_request_and_signal_stop_windows_thread() {
    let mut p = WindowsPoller::new();
    p.handle(WindowsPollerEvent::Received(None));
    assert_eq!(p.action(), WindowsPollerAction::Wait(None));
    p.handle(WindowsPollerEvent::WaitReturned(WaitStatus::ShutdownSignalled));
    assert_eq!(p.action(), WindowsPollerAction::Stop);
}

#[test]
fn pollers_answer_each_request_once() {
    let mut p = UnixPoller::new();
    let mut replies = 0;
    for _ in 0..3 {
        assert_eq!(p.action(), UnixPollerAction::Receive);
        p.handle(UnixPollerEvent::Received(None));
        p.handle(UnixPollerEvent::Received(None));
        p.handle(UnixPollerEvent::Polled { ok: true });
        if p.action() == UnixPollerAction::Notify {
            replies += 1;
        }
        p.handle(UnixPollerEvent::Notified { ok: true });
        p.handle(UnixPollerEvent::Notified { ok: true });
    }
    assert_eq!(replies, 3);

    let mut w = WindowsPoller::new();
    let mut replies = 0;
    for _ in 0..3 {
        assert_eq!(w.action(), WindowsPollerAction::Receive);
        w.handle(WindowsPollerEvent::Received(None));
        w.handle(WindowsPollerEvent::Received(None));
        w.handle(WindowsPollerEvent::WaitReturned(WaitStatus::Returned));
        if w.action() == WindowsPollerAction::Notify {
            replies += 1;
        }
        w.handle(WindowsPollerEvent::Notified { ok: true });
        w.handle(WindowsPollerEvent::Notified { ok: true });
    }
    assert_eq!(replies, 3);
}
