use evolve_core::clockwork::{Clockwork, Job};

#[test]
fn job_pending_after_its_period() {
    let j = Job::new(250, 1_000);
    assert!(!j.is_pending(1_000));
    assert!(!j.is_pending(1_249));
    assert!(j.is_pending(1_250));
    assert!(j.is_pending(2_000));
    // a clock reading behind the last run is not due
    assert!(!j.is_pending(500));
}

#[test]
fn job_execute_rearms() {
    let mut j = Job::new(250, 0);
    j.execute(300);
    assert_eq!(j.last_run_ms, 300);
    assert_eq!(j.period_ms, 250);
    assert!(!j.is_pending(400));
    assert!(j.is_pending(550));
}

#[test]
fn run_pending_reports_due_jobs_in_order() {
    let mut cw = Clockwork::new();
    let fast = cw.every(250, 0);
    let mid = cw.every(1_000, 0);
    let slow = cw.every(5_000, 0);
    assert_eq!((fast, mid, slow), (0, 1, 2));

    assert_eq!(cw.run_pending(100), Vec::<usize>::new());
    assert_eq!(cw.run_pending(250), vec![0]);
    // the fast job was re-armed at 250, so 400 is too early for it
    assert_eq!(cw.run_pending(400), Vec::<usize>::new());
    assert_eq!(cw.run_pending(1_000), vec![0, 1]);
    assert_eq!(cw.run_pending(5_100), vec![0, 1, 2]);
}

#[test]
fn run_pending_runs_each_job_at_most_once_per_sweep() {
    let mut cw = Clockwork::new();
    cw.every(250, 0);
    // far in the future: the job is long overdue, but one sweep runs it once
    let due = cw.run_pending(10_000);
    assert_eq!(due, vec![0]);
    assert_eq!(cw.run_pending(10_100), Vec::<usize>::new());
}
