use farmhand::broker::MAX_DELIVERY_ATTEMPTS;
use farmhand::worker::{
    resolve, Action, Outcome, Resolution, Signal, WorkerRuntime, IDLE_PAUSE_MILLIS, JOB_BATCH,
};

/// Delivers one job as a broker with a bound of `max` does, `outcomes` being
/// how the handler ends each delivery, and counts the deliveries over
/// `fetches` fetches.
fn deliveries(outcomes: &[Outcome], max: i64, fetches: usize) -> (i64, Vec<Resolution>) {
    let mut attempt: i64 = 0;
    let mut pending = true;
    let mut resolutions = Vec::new();
    for _ in 0..fetches {
        if !pending {
            continue;
        }
        attempt += 1;
        let resolution = resolve(outcomes[(attempt - 1) as usize], Some(attempt), max);
        pending = matches!(resolution, Resolution::Nak { .. }) && attempt < max;
        resolutions.push(resolution);
    }
    (attempt, resolutions)
}

#[test]
fn constants_have_their_values() {
    assert_eq!(JOB_BATCH, 3);
    assert_eq!(IDLE_PAUSE_MILLIS, 100);
}

#[test]
fn success_is_acknowledged() {
    assert_eq!(resolve(Outcome::Succeeded, Some(1), 3), Resolution::Ack);
    assert_eq!(resolve(Outcome::Succeeded, Some(3), 3), Resolution::Ack);
    assert_eq!(resolve(Outcome::Succeeded, Some(7), 3), Resolution::Ack);
    assert_eq!(resolve(Outcome::Succeeded, None, 3), Resolution::Ack);
}

#[test]
fn failure_and_crash_are_refused() {
    assert_eq!(resolve(Outcome::Failed, Some(1), 3), Resolution::Nak { exhausted: false });
    assert_eq!(resolve(Outcome::Panicked, Some(1), 3), Resolution::Nak { exhausted: false });
    assert_eq!(resolve(Outcome::Failed, Some(2), 3), Resolution::Nak { exhausted: false });
    assert_eq!(resolve(Outcome::Failed, Some(3), 3), Resolution::Nak { exhausted: true });
    assert_eq!(resolve(Outcome::Panicked, Some(3), 3), Resolution::Nak { exhausted: true });
    assert_eq!(resolve(Outcome::Failed, Some(4), 3), Resolution::Nak { exhausted: true });
}

#[test]
fn a_refusal_is_not_marked_where_the_attempt_is_unknown_or_unbounded() {
    assert_eq!(resolve(Outcome::Failed, None, 3), Resolution::Nak { exhausted: false });
    assert_eq!(resolve(Outcome::Failed, Some(50), 0), Resolution::Nak { exhausted: false });
    assert_eq!(resolve(Outcome::Failed, Some(50), -1), Resolution::Nak { exhausted: false });
    assert_eq!(resolve(Outcome::Panicked, Some(1), 1), Resolution::Nak { exhausted: true });
}

#[test]
fn a_job_that_always_fails_is_not_delivered_on_a_fourth_fetch() {
    let outcomes = [Outcome::Failed; 8];
    let (delivered, resolutions) = deliveries(&outcomes, MAX_DELIVERY_ATTEMPTS, 4);
    assert_eq!(delivered, 3);
    assert_eq!(
        resolutions,
        vec![
            Resolution::Nak { exhausted: false },
            Resolution::Nak { exhausted: false },
            Resolution::Nak { exhausted: true },
        ]
    );
    let (delivered, _) = deliveries(&outcomes, MAX_DELIVERY_ATTEMPTS, 8);
    assert_eq!(delivered, 3);
}

#[test]
fn a_job_that_succeeds_after_failures_is_not_delivered_again() {
    let outcomes = [
        Outcome::Failed,
        Outcome::Panicked,
        Outcome::Succeeded,
        Outcome::Failed,
        Outcome::Failed,
    ];
    let (delivered, resolutions) = deliveries(&outcomes, 3, 5);
    assert_eq!(delivered, 3);
    assert_eq!(resolutions.last(), Some(&Resolution::Ack));
    let (delivered, resolutions) = deliveries(&[Outcome::Succeeded, Outcome::Failed], 3, 2);
    assert_eq!(delivered, 1);
    assert_eq!(resolutions, vec![Resolution::Ack]);
}

#[test]
fn runtime_fetches_a_batch_when_it_wakes() {
    let mut runtime = WorkerRuntime::new(JOB_BATCH);
    assert_eq!(runtime.in_flight(), 0);
    assert_eq!(runtime.step(Signal::Wake), Action::Fetch(3));
}

#[test]
fn runtime_pauses_after_an_empty_batch() {
    let mut runtime = WorkerRuntime::new(JOB_BATCH);
    assert_eq!(runtime.step(Signal::Wake), Action::Fetch(3));
    assert_eq!(runtime.step(Signal::BatchEnd), Action::Pause(100));
    assert_eq!(runtime.step(Signal::Wake), Action::Fetch(3));
}

#[test]
fn runtime_joins_the_batch_before_the_next_fetch() {
    let mut runtime = WorkerRuntime::new(JOB_BATCH);
    assert_eq!(runtime.step(Signal::Wake), Action::Fetch(3));
    assert_eq!(runtime.step(Signal::Job), Action::Dispatch);
    assert_eq!(runtime.step(Signal::Job), Action::Dispatch);
    assert_eq!(runtime.step(Signal::Job), Action::Dispatch);
    assert_eq!(runtime.in_flight(), 3);
    assert_eq!(runtime.step(Signal::BatchEnd), Action::Wait);
    assert_eq!(runtime.step(Signal::Resolved), Action::Wait);
    assert_eq!(runtime.in_flight(), 2);
    assert_eq!(runtime.step(Signal::Resolved), Action::Wait);
    assert_eq!(runtime.in_flight(), 1);
    assert_eq!(runtime.step(Signal::Resolved), Action::Fetch(3));
    assert_eq!(runtime.in_flight(), 0);
}

#[test]
fn runtime_counts_jobs_that_resolve_while_the_batch_is_read() {
    let mut runtime = WorkerRuntime::new(JOB_BATCH);
    assert_eq!(runtime.step(Signal::Wake), Action::Fetch(3));
    assert_eq!(runtime.step(Signal::Job), Action::Dispatch);
    assert_eq!(runtime.step(Signal::Resolved), Action::Wait);
    assert_eq!(runtime.in_flight(), 0);
    assert_eq!(runtime.step(Signal::Job), Action::Dispatch);
    assert_eq!(runtime.in_flight(), 1);
    assert_eq!(runtime.step(Signal::Resolved), Action::Wait);
    assert_eq!(runtime.step(Signal::BatchEnd), Action::Fetch(3));
}

#[test]
fn runtime_never_runs_more_jobs_than_a_batch_holds() {
    let mut runtime = WorkerRuntime::new(JOB_BATCH);
    assert_eq!(runtime.step(Signal::Wake), Action::Fetch(3));
    for _ in 0..3 {
        assert_eq!(runtime.step(Signal::Job), Action::Dispatch);
    }
    assert_eq!(runtime.step(Signal::Job), Action::Skip);
    assert_eq!(runtime.in_flight(), 3);
    let mut single = WorkerRuntime::new(1);
    assert_eq!(single.step(Signal::Wake), Action::Fetch(1));
    assert_eq!(single.step(Signal::Job), Action::Dispatch);
    assert_eq!(single.step(Signal::Job), Action::Skip);
    assert_eq!(single.in_flight(), 1);
}

#[test]
fn runtime_skips_what_is_no_job() {
    let mut runtime = WorkerRuntime::new(JOB_BATCH);
    assert_eq!(runtime.step(Signal::Wake), Action::Fetch(3));
    assert_eq!(runtime.step(Signal::Malformed), Action::Skip);
    assert_eq!(runtime.in_flight(), 0);
    assert_eq!(runtime.step(Signal::Job), Action::Dispatch);
    assert_eq!(runtime.step(Signal::BatchEnd), Action::Wait);
    assert_eq!(runtime.step(Signal::Resolved), Action::Fetch(3));
}

#[test]
fn runtime_does_not_pause_after_a_batch_of_malformed_deliveries() {
    let mut runtime = WorkerRuntime::new(JOB_BATCH);
    assert_eq!(runtime.step(Signal::Wake), Action::Fetch(3));
    assert_eq!(runtime.step(Signal::Malformed), Action::Skip);
    assert_eq!(runtime.step(Signal::BatchEnd), Action::Fetch(3));
}

#[test]
fn runtime_hands_on_a_failed_fetch_and_can_wake_again() {
    let mut runtime = WorkerRuntime::new(JOB_BATCH);
    assert_eq!(runtime.step(Signal::Wake), Action::Fetch(3));
    assert_eq!(runtime.step(Signal::FetchFailed), Action::Fail);
    assert_eq!(runtime.step(Signal::Wake), Action::Fetch(3));
    assert_eq!(runtime.step(Signal::Job), Action::Dispatch);
    assert_eq!(runtime.step(Signal::FetchFailed), Action::Ignore);
}

#[test]
fn runtime_ignores_reports_that_do_not_belong() {
    let mut runtime = WorkerRuntime::new(JOB_BATCH);
    assert_eq!(runtime.step(Signal::Job), Action::Ignore);
    assert_eq!(runtime.step(Signal::Malformed), Action::Ignore);
    assert_eq!(runtime.step(Signal::BatchEnd), Action::Ignore);
    assert_eq!(runtime.step(Signal::Resolved), Action::Ignore);
    assert_eq!(runtime.step(Signal::FetchFailed), Action::Ignore);
    assert_eq!(runtime.step(Signal::Wake), Action::Fetch(3));
    assert_eq!(runtime.step(Signal::Wake), Action::Ignore);
    assert_eq!(runtime.step(Signal::Resolved), Action::Ignore);
    assert_eq!(runtime.step(Signal::Job), Action::Dispatch);
    assert_eq!(runtime.step(Signal::BatchEnd), Action::Wait);
    assert_eq!(runtime.step(Signal::Job), Action::Ignore);
    assert_eq!(runtime.step(Signal::Malformed), Action::Ignore);
    assert_eq!(runtime.step(Signal::BatchEnd), Action::Ignore);
    assert_eq!(runtime.step(Signal::Wake), Action::Ignore);
    assert_eq!(runtime.step(Signal::FetchFailed), Action::Ignore);
    assert_eq!(runtime.in_flight(), 1);
    assert_eq!(runtime.step(Signal::Resolved), Action::Fetch(3));
}

#[test]
fn runtime_with_an_empty_batch_width_dispatches_nothing() {
    let mut runtime = WorkerRuntime::new(0);
    assert_eq!(runtime.step(Signal::Wake), Action::Fetch(0));
    assert_eq!(runtime.step(Signal::Job), Action::Skip);
    assert_eq!(runtime.step(Signal::BatchEnd), Action::Fetch(0));
}

#[test]
fn runtime_stops_at_once_when_nothing_runs() {
    let mut runtime = WorkerRuntime::new(JOB_BATCH);
    assert_eq!(runtime.step(Signal::Shutdown), Action::Stop);
    assert_eq!(runtime.step(Signal::Wake), Action::Ignore);
    let mut fetching = WorkerRuntime::new(JOB_BATCH);
    assert_eq!(fetching.step(Signal::Wake), Action::Fetch(3));
    assert_eq!(fetching.step(Signal::Shutdown), Action::Stop);
    let mut paused = WorkerRuntime::new(JOB_BATCH);
    assert_eq!(paused.step(Signal::Wake), Action::Fetch(3));
    assert_eq!(paused.step(Signal::BatchEnd), Action::Pause(100));
    assert_eq!(paused.step(Signal::Shutdown), Action::Stop);
}

#[test]
fn runtime_drains_the_jobs_in_flight_before_it_stops() {
    let mut runtime = WorkerRuntime::new(JOB_BATCH);
    assert_eq!(runtime.step(Signal::Wake), Action::Fetch(3));
    assert_eq!(runtime.step(Signal::Job), Action::Dispatch);
    assert_eq!(runtime.step(Signal::Job), Action::Dispatch);
    assert_eq!(runtime.step(Signal::Shutdown), Action::Wait);
    assert_eq!(runtime.step(Signal::Job), Action::Ignore);
    assert_eq!(runtime.in_flight(), 2);
    assert_eq!(runtime.step(Signal::Resolved), Action::Wait);
    assert_eq!(runtime.step(Signal::Resolved), Action::Stop);
    assert_eq!(runtime.in_flight(), 0);
    assert_eq!(runtime.step(Signal::Wake), Action::Ignore);
    assert_eq!(runtime.step(Signal::Resolved), Action::Ignore);
    assert_eq!(runtime.step(Signal::Shutdown), Action::Ignore);
}

#[test]
fn runtime_drains_while_it_joins() {
    let mut runtime = WorkerRuntime::new(JOB_BATCH);
    assert_eq!(runtime.step(Signal::Wake), Action::Fetch(3));
    assert_eq!(runtime.step(Signal::Job), Action::Dispatch);
    assert_eq!(runtime.step(Signal::BatchEnd), Action::Wait);
    assert_eq!(runtime.step(Signal::Shutdown), Action::Wait);
    assert_eq!(runtime.step(Signal::Shutdown), Action::Ignore);
    assert_eq!(runtime.step(Signal::Resolved), Action::Stop);
}
