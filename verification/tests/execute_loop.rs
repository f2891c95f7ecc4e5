use compio_compat::{ExecuteAction, ExecuteEvent, ExecutePhase, Execution, Timeout, WaitOutcome};

fn feed(e: &mut Execution, event: ExecuteEvent) -> ExecuteAction {
    e.handle(event);
    e.action()
}

#[test]
fn starts_by_polling_the_future() {
    let e = Execution::new();
    assert_eq!(e.phase(), ExecutePhase::Polling);
    assert_eq!(e.action(), ExecuteAction::PollFuture);
}

#[test]
fn pending_round_with_remaining_tasks_waits_zero() {
    let mut e = Execution::new();
    assert_eq!(feed(&mut e, ExecuteEvent::Polled { ready: false }), ExecuteAction::RunTasks);
    let wait = feed(&mut e, ExecuteEvent::Ran { remaining: true });
    match wait {
        ExecuteAction::Wait(Some(t)) => {
            assert_eq!(t.as_secs(), 0);
            assert_eq!(t.subsec_nanos(), 0);
        }
        other => panic!("unexpected action {:?}", other),
    }
    assert_eq!(feed(&mut e, ExecuteEvent::Waited(WaitOutcome::Woken)), ExecuteAction::Clear);
    assert_eq!(feed(&mut e, ExecuteEvent::Cleared { ok: true }), ExecuteAction::PollDriver);
    assert_eq!(feed(&mut e, ExecuteEvent::Driven), ExecuteAction::PollFuture);
}

#[test]
fn pending_round_without_remaining_tasks_uses_deadline() {
    let mut e = Execution::new();
    feed(&mut e, ExecuteEvent::Polled { ready: false });
    assert_eq!(feed(&mut e, ExecuteEvent::Ran { remaining: false }), ExecuteAction::QueryTimeout);
    let deadline = Timeout::new(2, 250_000_000);
    assert_eq!(
        feed(&mut e, ExecuteEvent::TimeoutKnown(Some(deadline))),
        ExecuteAction::Wait(Some(deadline))
    );
}

#[test]
fn pending_round_without_deadline_waits_unbounded() {
    let mut e = Execution::new();
    feed(&mut e, ExecuteEvent::Polled { ready: false });
    feed(&mut e, ExecuteEvent::Ran { remaining: false });
    assert_eq!(feed(&mut e, ExecuteEvent::TimeoutKnown(None)), ExecuteAction::Wait(None));
}

#[test]
fn clear_failure_does_not_stop_the_loop() {
    let mut e = Execution::new();
    feed(&mut e, ExecuteEvent::Polled { ready: false });
    feed(&mut e, ExecuteEvent::Ran { remaining: true });
    feed(&mut e, ExecuteEvent::Waited(WaitOutcome::Woken));
    assert_eq!(
        feed(&mut e, ExecuteEvent::Cleared { ok: false }),
        ExecuteAction::ReportClearFailure
    );
    assert_eq!(e.phase(), ExecutePhase::ReportingClearFailure);
    assert_eq!(feed(&mut e, ExecuteEvent::ClearFailureReported), ExecuteAction::PollDriver);
    assert_eq!(feed(&mut e, ExecuteEvent::Driven), ExecuteAction::PollFuture);
}

#[test]
fn timed_out_wait_continues_the_round() {
    let mut e = Execution::new();
    feed(&mut e, ExecuteEvent::Polled { ready: false });
    feed(&mut e, ExecuteEvent::Ran { remaining: false });
    feed(&mut e, ExecuteEvent::TimeoutKnown(Some(Timeout::new(0, 1_000_000))));
    assert_eq!(feed(&mut e, ExecuteEvent::Waited(WaitOutcome::TimedOut)), ExecuteAction::Clear);
    assert_eq!(feed(&mut e, ExecuteEvent::Cleared { ok: true }), ExecuteAction::PollDriver);
    assert_eq!(feed(&mut e, ExecuteEvent::Driven), ExecuteAction::PollFuture);
    assert_eq!(feed(&mut e, ExecuteEvent::Polled { ready: true }), ExecuteAction::RunTasks);
    assert_eq!(feed(&mut e, ExecuteEvent::Ran { remaining: false }), ExecuteAction::ReturnOutput);
}

#[test]
fn ready_future_runs_tasks_once_then_returns() {
    let mut e = Execution::new();
    assert_eq!(feed(&mut e, ExecuteEvent::Polled { ready: true }), ExecuteAction::RunTasks);
    assert_eq!(feed(&mut e, ExecuteEvent::Ran { remaining: true }), ExecuteAction::ReturnOutput);
    assert_eq!(e.phase(), ExecutePhase::Done);
    assert_eq!(feed(&mut e, ExecuteEvent::Polled { ready: false }), ExecuteAction::ReturnOutput);
}

#[test]
fn failed_wait_aborts_for_good() {
    let mut e = Execution::new();
    feed(&mut e, ExecuteEvent::Polled { ready: false });
    feed(&mut e, ExecuteEvent::Ran { remaining: true });
    assert_eq!(feed(&mut e, ExecuteEvent::Waited(WaitOutcome::Failed)), ExecuteAction::Abort);
    assert_eq!(e.phase(), ExecutePhase::Failed);
    assert_eq!(feed(&mut e, ExecuteEvent::Driven), ExecuteAction::Abort);
}

#[test]
fn unexpected_event_repeats_the_request() {
    let mut e = Execution::new();
    assert_eq!(feed(&mut e, ExecuteEvent::Driven), ExecuteAction::PollFuture);
    feed(&mut e, ExecuteEvent::Polled { ready: false });
    assert_eq!(feed(&mut e, ExecuteEvent::Waited(WaitOutcome::Woken)), ExecuteAction::RunTasks);
}

#[test]
fn timeout_parts_and_millis() {
    let t = Timeout::new(1, 500_000_000);
    assert_eq!(t.as_secs(), 1);
    assert_eq!(t.subsec_nanos(), 500_000_000);
    assert_eq!(t.millis_truncated(), 1500);
    assert_eq!(Timeout::new(0, 999_999).millis_truncated(), 0);
    // 4_294_968 seconds are 4_294_968_000 ms, which wraps past 2^32.
    assert_eq!(Timeout::new(4_294_968, 0).millis_truncated(), 704);
    assert_eq!(Timeout::new(u64::MAX, 0).millis_truncated(), 4_294_966_296);
}

#[test]
fn timeout_to_timespec() {
    let ts = Timeout::new(3, 500).to_timespec().unwrap();
    assert_eq!(ts.secs, 3);
    assert_eq!(ts.nanos, 500);
    let edge = Timeout::new(i64::MAX as u64, 999_999_999).to_timespec().unwrap();
    assert_eq!(edge.secs, i64::MAX);
    assert_eq!(edge.nanos, 999_999_999);
    assert!(Timeout::new(i64::MAX as u64 + 1, 0).to_timespec().is_none());
    assert!(Timeout::zero().to_timespec().is_some());
}

#[test]
fn timed_out_and_woken_waits_drive_the_loop_alike() {
    let events = |outcome| {
        vec![
            ExecuteEvent::Polled { ready: false },
            ExecuteEvent::Ran { remaining: true },
            ExecuteEvent::Waited(outcome),
            ExecuteEvent::Cleared { ok: true },
            ExecuteEvent::Driven,
            ExecuteEvent::Polled { ready: true },
            ExecuteEvent::Ran { remaining: false },
        ]
    };
    let mut woken = Execution::new();
    let mut timed_out = Execution::new();
    for (a, b) in events(WaitOutcome::Woken)
        .into_iter()
        .zip(events(WaitOutcome::TimedOut))
    {
        woken.handle(a);
        timed_out.handle(b);
        assert_eq!(woken.phase(), timed_out.phase());
        assert_ne!(timed_out.phase(), ExecutePhase::Failed);
    }
    assert_eq!(timed_out.action(), ExecuteAction::ReturnOutput);
}
