use logistic_ode::driver::{
    status_of, Config, Driver, FailureKind, SolverOutcome, Statistics, Status, StepReport,
};

fn config() -> Config {
    Config {
        span_positive: true,
        stride_positive: true,
        tolerances_positive: true,
        dimension: 1,
        sample_count: 11,
        evaluation_limit: 1000,
    }
}

fn accepted(samples_reached: u64, reaches_end: bool) -> StepReport {
    StepReport {
        evaluations: 6,
        finite: true,
        within_tolerance: true,
        next_step_too_small: false,
        reaches_end,
        samples_reached,
    }
}

fn rejected(too_small: bool) -> StepReport {
    StepReport {
        evaluations: 6,
        finite: true,
        within_tolerance: false,
        next_step_too_small: too_small,
        reaches_end: false,
        samples_reached: 0,
    }
}

#[test]
fn start_refuses_unusable_configurations() {
    assert!(Driver::start(config()).is_ok());
    let mut c = config();
    c.span_positive = false;
    assert_eq!(Driver::start(c), Err(FailureKind::InvalidConfiguration));
    let mut c = config();
    c.stride_positive = false;
    assert_eq!(Driver::start(c), Err(FailureKind::InvalidConfiguration));
    let mut c = config();
    c.tolerances_positive = false;
    assert_eq!(Driver::start(c), Err(FailureKind::InvalidConfiguration));
    let mut c = config();
    c.dimension = 0;
    assert_eq!(Driver::start(c), Err(FailureKind::InvalidConfiguration));
}

#[test]
fn accepted_steps_emit_consecutive_samples() {
    let mut d = Driver::start(config()).unwrap();
    assert_eq!(d.observe(accepted(3, false)), vec![0, 1, 2]);
    assert_eq!(d.observe(accepted(3, false)), Vec::<u64>::new());
    assert_eq!(d.observe(accepted(5, false)), vec![3, 4]);
    assert_eq!(d.observe(rejected(false)), Vec::<u64>::new());
    assert_eq!(d.observe(accepted(11, true)), vec![5, 6, 7, 8, 9, 10]);
    assert_eq!(d.status, Status::Succeeded);
    assert!(d.is_finished());
    assert_eq!(
        d.stats,
        Statistics { accepted: 4, rejected: 1, evaluations: 30 }
    );
    assert_eq!(d.observe(accepted(11, true)), Vec::<u64>::new());
    assert_eq!(d.stats.accepted, 4);
}

#[test]
fn samples_never_pass_the_last_output_time() {
    let mut d = Driver::start(config()).unwrap();
    let due = d.observe(accepted(50, false));
    assert_eq!(due, (0..11).collect::<Vec<u64>>());
    assert_eq!(d.samples, 11);
    assert_eq!(d.status, Status::Running);
}

#[test]
fn step_underflow_fails_the_run() {
    let mut d = Driver::start(config()).unwrap();
    d.observe(rejected(false));
    assert_eq!(d.status, Status::Running);
    d.observe(rejected(true));
    assert_eq!(d.status, Status::Failed(FailureKind::StepUnderflow));
    assert_eq!(d.stats.rejected, 2);
    assert_eq!(d.stats.accepted, 0);
}

#[test]
fn non_finite_state_fails_the_run() {
    let mut d = Driver::start(config()).unwrap();
    d.observe(accepted(1, false));
    let mut r = accepted(4, false);
    r.finite = false;
    assert_eq!(d.observe(r), Vec::<u64>::new());
    assert_eq!(d.status, Status::Failed(FailureKind::NonFinite));
    assert_eq!(d.samples, 1);
    assert_eq!(d.stats.evaluations, 12);
}

#[test]
fn evaluation_ceiling_fails_the_run() {
    let mut c = config();
    c.evaluation_limit = 15;
    let mut d = Driver::start(c).unwrap();
    d.observe(accepted(1, false));
    d.observe(accepted(2, false));
    assert_eq!(d.status, Status::Running);
    d.observe(accepted(3, false));
    assert_eq!(d.status, Status::Failed(FailureKind::EvaluationLimitExceeded));
    assert_eq!(d.stats, Statistics { accepted: 2, rejected: 0, evaluations: 18 });
    assert_eq!(d.samples, 2);
}

#[test]
fn run_reports_matches_step_by_step() {
    let reports = vec![accepted(2, false), rejected(false), accepted(7, false), accepted(11, true)];
    let start = Driver::start(config()).unwrap();
    let (end, due) = start.run_reports(&reports);
    assert_eq!(due, (0..11).collect::<Vec<u64>>());
    assert_eq!(end.status, Status::Succeeded);
    assert_eq!(end.stats, Statistics { accepted: 3, rejected: 1, evaluations: 24 });
    let (again, due_again) = start.run_reports(&reports);
    assert_eq!(again, end);
    assert_eq!(due_again, due);
}

#[test]
fn all_steps_within_tolerance_reject_nothing() {
    let reports: Vec<StepReport> = (1..=11).map(|i| accepted(i, i == 11)).collect();
    let (end, _) = Driver::start(config()).unwrap().run_reports(&reports);
    assert_eq!(end.stats.rejected, 0);
    assert_eq!(end.stats.accepted, 11);
}

#[test]
fn outcomes_map_to_statuses() {
    assert_eq!(status_of(SolverOutcome::Completed), Status::Succeeded);
    assert_eq!(
        status_of(SolverOutcome::StepLimitReached),
        Status::Failed(FailureKind::EvaluationLimitExceeded)
    );
    assert_eq!(
        status_of(SolverOutcome::StepSizeUnderflow),
        Status::Failed(FailureKind::StepUnderflow)
    );
    assert_eq!(
        status_of(SolverOutcome::StiffnessDetected),
        Status::Failed(FailureKind::StepUnderflow)
    );
    assert_eq!(
        status_of(SolverOutcome::NonFiniteResult),
        Status::Failed(FailureKind::NonFinite)
    );
}
