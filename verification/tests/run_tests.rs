use loadgen::run::{Phase, Run};

/// Drives a run to completion: launches whenever a permit is free and a
/// request remains, otherwise finishes the oldest in-flight task with the
/// next outcome from `outcomes` (cycled). Returns the largest in-flight
/// count ever observed.
fn drive(run: &mut Run, outcomes: &[bool]) -> usize {
    let mut next: usize = 0;
    let mut max_in_flight: usize = 0;
    while !run.is_complete() {
        if run.can_launch() {
            run.launch();
        } else {
            let ok = outcomes[next % outcomes.len()];
            next += 1;
            run.finish(ok);
        }
        if run.in_flight() > max_in_flight {
            max_in_flight = run.in_flight();
        }
    }
    max_in_flight
}

#[test]
fn counters_account_for_all_requests() {
    let mut run = Run::new(7, 2);
    drive(&mut run, &[true, false, true]);
    assert_eq!(run.success() + run.error(), 7);
    assert_eq!(run.total(), 7);
}

#[test]
fn in_flight_never_exceeds_capacity() {
    let mut run = Run::new(25, 4);
    let max_in_flight = drive(&mut run, &[true, false]);
    assert!(max_in_flight <= 4);
    assert_eq!(max_in_flight, 4);
}

#[test]
fn zero_requests_complete_immediately() {
    let run = Run::new(0, 100);
    assert!(run.is_complete());
    assert_eq!(run.success(), 0);
    assert_eq!(run.error(), 0);
    assert_eq!(run.phase(), Phase::Complete);
    assert_eq!(run.available(), 100);
}

#[test]
fn unit_capacity_runs_sequentially() {
    let mut run = Run::new(3, 1);
    let max_in_flight = drive(&mut run, &[true]);
    assert_eq!(max_in_flight, 1);

    let mut step = Run::new(2, 1);
    step.launch();
    assert!(!step.can_launch());
    step.finish(true);
    assert!(step.can_launch());
    step.launch();
    assert!(!step.can_launch());
    step.finish(true);
    assert!(step.is_complete());
}

#[test]
fn failed_request_still_releases_permit() {
    let mut run = Run::new(6, 3);
    run.launch();
    run.launch();
    assert_eq!(run.available(), 1);
    run.finish(false);
    assert_eq!(run.available(), 2);
    drive(&mut run, &[false, true, false]);
    assert_eq!(run.available(), 3);
}

#[test]
fn all_success_scenario() {
    let mut run = Run::new(50, 10);
    let max_in_flight = drive(&mut run, &[true]);
    assert_eq!(run.success(), 50);
    assert_eq!(run.error(), 0);
    assert_eq!(run.available(), 10);
    assert!(max_in_flight <= 10);
}

#[test]
fn all_unreachable_scenario() {
    let mut run = Run::new(20, 5);
    drive(&mut run, &[false]);
    assert_eq!(run.success(), 0);
    assert_eq!(run.error(), 20);
    assert_eq!(run.available(), 5);
}

#[test]
fn mixed_status_scenario() {
    // Every request gets an HTTP response; statuses alternate 2xx and 5xx.
    // Classification is transport-level, so a 5xx still counts as success.
    let statuses: [u16; 10] = [200, 500, 200, 503, 200, 500, 200, 502, 200, 500];
    let mut run = Run::new(10, 3);
    let mut next: usize = 0;
    while !run.is_complete() {
        if run.can_launch() {
            run.launch();
        } else {
            let _status = statuses[next];
            next += 1;
            let transport_ok = true;
            run.finish(transport_ok);
        }
    }
    assert_eq!(run.success(), 10);
    assert_eq!(run.error(), 0);
    assert_eq!(run.available(), 3);
}

#[test]
fn phases_in_order() {
    let mut run = Run::new(2, 5);
    assert_eq!(run.phase(), Phase::Idle);
    run.launch();
    assert_eq!(run.phase(), Phase::Dispatching);
    run.launch();
    assert_eq!(run.phase(), Phase::Draining);
    run.finish(true);
    assert_eq!(run.phase(), Phase::Draining);
    run.finish(false);
    assert_eq!(run.phase(), Phase::Complete);
    assert_eq!(run.capacity(), 5);
    assert_eq!(run.in_flight(), 0);
}

#[test]
fn capacity_equal_to_total() {
    let mut run = Run::new(4, 4);
    run.launch();
    run.launch();
    run.launch();
    run.launch();
    assert_eq!(run.available(), 0);
    assert_eq!(run.in_flight(), 4);
    assert!(!run.can_launch());
    run.finish(true);
    run.finish(true);
    run.finish(false);
    run.finish(true);
    assert!(run.is_complete());
    assert_eq!(run.success(), 3);
    assert_eq!(run.error(), 1);
}
