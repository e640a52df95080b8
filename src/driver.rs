//! The integration driver as a state machine over step reports.
//!
//! The floating-point work of a step (stage evaluations, the error norm, the
//! next step size, the interpolation of output samples) happens outside; each
//! attempted step is summarised by a `StepReport` of plain facts, and the
//! driver decides from it how the run proceeds, keeps the statistics, and says
//! which output samples are due.
use vstd::prelude::*;

verus! {

/// Why a run ended without reaching its end point.
#[derive(Clone, Copy, Debug, PartialEq, Eq, Structural)]
pub enum FailureKind {
    /// The interval, the stride, the tolerances or the state dimension are unusable.
    InvalidConfiguration,
    /// The step size would have to drop below its lower bound.
    StepUnderflow,
    /// The derivative or the proposed state was not finite.
    NonFinite,
    /// The derivative was evaluated more often than the configured ceiling allows.
    EvaluationLimitExceeded,
}

/// Where a run stands.
#[derive(Clone, Copy, Debug, PartialEq, Eq, Structural)]
pub enum Status {
    Running,
    Succeeded,
    Failed(FailureKind),
}

/// Counters kept over one run.
#[derive(Clone, Copy, Debug, PartialEq, Eq, Structural)]
pub struct Statistics {
    pub accepted: u64,
    pub rejected: u64,
    pub evaluations: u64,
}

/// A run's configuration, as the facts the driver decides on.
#[derive(Clone, Copy, Debug, PartialEq, Eq, Structural)]
pub struct Config {
    /// `t_end > t_start`.
    pub span_positive: bool,
    /// The output stride is positive.
    pub stride_positive: bool,
    /// Every relative and absolute tolerance is positive.
    pub tolerances_positive: bool,
    /// Number of components of the state.
    pub dimension: usize,
    /// Number of output times in the interval.
    pub sample_count: u64,
    /// Ceiling on derivative evaluations.
    pub evaluation_limit: u64,
}

/// The outcome of one attempted step.
#[derive(Clone, Copy, Debug, PartialEq, Eq, Structural)]
pub struct StepReport {
    /// Derivative evaluations the attempt used.
    pub evaluations: u64,
    /// Every component of the proposed state is finite.
    pub finite: bool,
    /// The error norm is at most one.
    pub within_tolerance: bool,
    /// The step size the controller proposes next is below the lower bound.
    pub next_step_too_small: bool,
    /// The step ends at `t_end`.
    pub reaches_end: bool,
    /// Number of output times at or before the end of the step.
    pub samples_reached: u64,
}

/// The driver's state: status, statistics and output progress.
#[derive(Clone, Copy, Debug, PartialEq, Eq, Structural)]
pub struct Driver {
    pub status: Status,
    pub stats: Statistics,
    pub evaluation_limit: u64,
    /// Output samples emitted so far: those with index `0..samples`.
    pub samples: u64,
    pub sample_count: u64,
}

/// The configuration is usable.
pub open spec fn config_valid(c: Config) -> bool {
    c.span_positive && c.stride_positive && c.tolerances_positive && c.dimension > 0
}

pub open spec fn min(a: int, b: int) -> int {
    if a <= b { a } else { b }
}

pub open spec fn max(a: int, b: int) -> int {
    if a >= b { a } else { b }
}

impl Driver {
    /// The driver's counters are consistent.
    pub open spec fn wf(self) -> bool {
        &&& self.samples <= self.sample_count
        &&& self.stats.accepted + self.stats.rejected <= self.stats.evaluations
        &&& self.status is Running ==> self.stats.evaluations <= self.evaluation_limit
        &&& self.status is Succeeded ==> self.samples == self.sample_count
        &&& self.status != Status::Failed(FailureKind::InvalidConfiguration)
    }

    /// The driver at the start of a run.
    pub open spec fn initial(c: Config) -> Driver {
        Driver {
            status: Status::Running,
            stats: Statistics { accepted: 0, rejected: 0, evaluations: 0 },
            evaluation_limit: c.evaluation_limit,
            samples: 0,
            sample_count: c.sample_count,
        }
    }

    /// Output samples emitted after an accepted step that reaches
    /// `samples_reached` output times.
    pub open spec fn samples_after(self, r: StepReport) -> u64 {
        if r.reaches_end {
            self.sample_count
        } else {
            max(self.samples as int, min(r.samples_reached as int, self.sample_count as int)) as u64
        }
    }

    /// The state after one step report.
    pub open spec fn next(self, r: StepReport) -> Driver {
        if !(self.status is Running) {
            self
        } else if r.evaluations > self.evaluation_limit - self.stats.evaluations {
            Driver {
                status: Status::Failed(FailureKind::EvaluationLimitExceeded),
                stats: Statistics {
                    evaluations: min(
                        self.stats.evaluations + r.evaluations,
                        u64::MAX as int,
                    ) as u64,
                    ..self.stats
                },
                ..self
            }
        } else {
            let stats = Statistics {
                evaluations: (self.stats.evaluations + r.evaluations) as u64,
                ..self.stats
            };
            if !r.finite {
                Driver { status: Status::Failed(FailureKind::NonFinite), stats, ..self }
            } else if r.within_tolerance {
                Driver {
                    status: if r.reaches_end { Status::Succeeded } else { Status::Running },
                    stats: Statistics { accepted: (stats.accepted + 1) as u64, ..stats },
                    samples: self.samples_after(r),
                    ..self
                }
            } else {
                Driver {
                    status: if r.next_step_too_small {
                        Status::Failed(FailureKind::StepUnderflow)
                    } else {
                        Status::Running
                    },
                    stats: Statistics { rejected: (stats.rejected + 1) as u64, ..stats },
                    ..self
                }
            }
        }
    }

    /// Starts a run, or refuses an unusable configuration.
    pub fn start(c: Config) -> (r: Result<Driver, FailureKind>)
        ensures
            config_valid(c) <==> r is Ok,
            r is Ok ==> r->Ok_0 == Driver::initial(c) && r->Ok_0.wf(),
            r is Err ==> r->Err_0 == FailureKind::InvalidConfiguration,
    {
        if !c.span_positive || !c.stride_positive || !c.tolerances_positive || c.dimension == 0 {
            return Err(FailureKind::InvalidConfiguration);
        }
        Ok(Driver {
            status: Status::Running,
            stats: Statistics { accepted: 0, rejected: 0, evaluations: 0 },
            evaluation_limit: c.evaluation_limit,
            samples: 0,
            sample_count: c.sample_count,
        })
    }

    /// The run has ended, one way or the other.
    pub fn is_finished(&self) -> (r: bool)
        ensures
            r == !(self.status is Running),
    {
        !matches!(self.status, Status::Running)
    }

    /// Takes the report of one attempted step and returns the indices of the
    /// output samples that became due, in increasing order.
    pub fn observe(&mut self, report: StepReport) -> (due: Vec<u64>)
        requires
            old(self).wf(),
            report.evaluations > 0,
        ensures
            *final(self) == old(self).next(report),
            final(self).wf(),
            due@.len() == final(self).samples - old(self).samples,
            forall|k: int| 0 <= k < due@.len() ==> due@[k] == old(self).samples + k,
    {
        let ghost before = *self;
        if !matches!(self.status, Status::Running) {
            return Vec::new();
        }
        if report.evaluations > self.evaluation_limit - self.stats.evaluations {
            self.status = Status::Failed(FailureKind::EvaluationLimitExceeded);
            self.stats.evaluations = self.stats.evaluations.saturating_add(report.evaluations);
            return Vec::new();
        }
        self.stats.evaluations = self.stats.evaluations + report.evaluations;
        if !report.finite {
            self.status = Status::Failed(FailureKind::NonFinite);
            return Vec::new();
        }
        if !report.within_tolerance {
            self.stats.rejected = self.stats.rejected + 1;
            if report.next_step_too_small {
                self.status = Status::Failed(FailureKind::StepUnderflow);
            }
            return Vec::new();
        }
        self.stats.accepted = self.stats.accepted + 1;
        let target: u64 = if report.reaches_end {
            self.sample_count
        } else if report.samples_reached < self.sample_count {
            report.samples_reached
        } else {
            self.sample_count
        };
        let ghost mid = *self;
        let mut due: Vec<u64> = Vec::new();
        while self.samples < target
            invariant
                self.status == mid.status,
                self.stats == mid.stats,
                self.evaluation_limit == mid.evaluation_limit,
                self.samples <= max(before.samples as int, target as int),
                before.samples <= self.samples <= self.sample_count,
                target <= self.sample_count,
                self.sample_count == before.sample_count,
                due@.len() == self.samples - before.samples,
                forall|k: int| 0 <= k < due@.len() ==> due@[k] == before.samples + k,
            decreases target - self.samples,
        {
            due.push(self.samples);
            self.samples = self.samples + 1;
        }
        if report.reaches_end {
            self.status = Status::Succeeded;
        }
        due
    }
}

/// Every attempt in `rs` evaluated the derivative at least once.
pub open spec fn reports_valid(rs: Seq<StepReport>) -> bool {
    forall|k: int| 0 <= k < rs.len() ==> #[trigger] rs[k].evaluations > 0
}

/// The state after feeding the reports `rs` to `d`, in order.
pub open spec fn run(d: Driver, rs: Seq<StepReport>) -> Driver
    decreases rs.len(),
{
    if rs.len() == 0 {
        d
    } else {
        run(d.next(rs[0]), rs.drop_first())
    }
}

/// The output sample indices emitted while feeding `rs` to `d`, in order.
pub open spec fn emitted(d: Driver, rs: Seq<StepReport>) -> Seq<u64>
    decreases rs.len(),
{
    if rs.len() == 0 {
        Seq::empty()
    } else {
        let n = d.next(rs[0]);
        Seq::new((n.samples - d.samples) as nat, |k: int| (d.samples + k) as u64)
            + emitted(n, rs.drop_first())
    }
}

/// Output samples come out on a regular grid: over any sequence of steps, the
/// emitted sample indices are consecutive, so that the times
/// `t_start + index * stride` of successive samples differ by exactly one
/// stride, none is skipped, repeated or emitted out of order, and none lies
/// beyond the last output time.
pub proof fn lemma_output_regular(d: Driver, rs: Seq<StepReport>)
    requires
        d.wf(),
        reports_valid(rs),
    ensures
        run(d, rs).wf(),
        d.samples <= run(d, rs).samples <= d.sample_count,
        emitted(d, rs).len() == run(d, rs).samples - d.samples,
        forall|k: int| 0 <= k < emitted(d, rs).len() ==> #[trigger] emitted(d, rs)[k] == d.samples + k,
    decreases rs.len(),
{
    if rs.len() > 0 {
        let n = d.next(rs[0]);
        let rest = rs.drop_first();
        assert(rs[0].evaluations > 0);
        assert(reports_valid(rest)) by {
            assert forall|k: int| 0 <= k < rest.len() implies #[trigger] rest[k].evaluations > 0 by {
                assert(rest[k] == rs[k + 1]);
            }
        }
        lemma_output_regular(n, rest);
        let head = Seq::new((n.samples - d.samples) as nat, |k: int| (d.samples + k) as u64);
        let all = emitted(d, rs);
        assert(all == head + emitted(n, rest));
        assert forall|k: int| 0 <= k < all.len() implies #[trigger] all[k] == d.samples + k by {
            if k < head.len() {
                assert(all[k] == head[k]);
            } else {
                assert(all[k] == emitted(n, rest)[k - head.len()]);
            }
        }
    }
}

/// Acceptance is decided by the error norm alone: while the run is going and
/// the evaluation ceiling is not crossed, a finite step is counted as accepted
/// exactly when its error norm is at most one and as rejected exactly when it
/// is above one; a rejected step keeps the run where it was, emitting no sample,
/// and the run goes on unless the next step size would be too small.
pub proof fn lemma_step_acceptance(d: Driver, r: StepReport)
    requires
        d.wf(),
        d.status is Running,
        r.evaluations > 0,
        r.evaluations <= d.evaluation_limit - d.stats.evaluations,
        r.finite,
    ensures
        d.next(r).stats.accepted == d.stats.accepted + (if r.within_tolerance { 1int } else { 0int }),
        d.next(r).stats.rejected == d.stats.rejected + (if r.within_tolerance { 0int } else { 1int }),
        d.next(r).stats.evaluations == d.stats.evaluations + r.evaluations,
        !r.within_tolerance ==> d.next(r).samples == d.samples,
        !r.within_tolerance ==> (d.next(r).status is Running <==> !r.next_step_too_small),
        !r.within_tolerance ==> !(d.next(r).status is Succeeded),
{
}

/// A run is determined by its inputs: the same starting state fed the same
/// reports ends in the same state, with the same statistics, and emits the
/// same samples.
pub proof fn lemma_deterministic(d1: Driver, d2: Driver, rs1: Seq<StepReport>, rs2: Seq<StepReport>)
    requires
        d1 == d2,
        rs1 == rs2,
    ensures
        run(d1, rs1) == run(d2, rs2),
        emitted(d1, rs1) == emitted(d2, rs2),
{
}

/// A run ends once: a finished driver ignores every further report.
pub proof fn lemma_terminal_states_final(d: Driver, rs: Seq<StepReport>)
    requires
        !(d.status is Running),
    ensures
        run(d, rs) == d,
        emitted(d, rs).len() == 0,
    decreases rs.len(),
{
    if rs.len() > 0 {
        lemma_terminal_states_final(d.next(rs[0]), rs.drop_first());
    }
}

/// A run whose steps all meet the tolerance rejects none.
pub proof fn lemma_no_rejections(d: Driver, rs: Seq<StepReport>)
    requires
        forall|k: int| 0 <= k < rs.len() ==> (#[trigger] rs[k]).within_tolerance,
    ensures
        run(d, rs).stats.rejected == d.stats.rejected,
    decreases rs.len(),
{
    if rs.len() > 0 {
        let rest = rs.drop_first();
        assert forall|k: int| 0 <= k < rest.len() implies (#[trigger] rest[k]).within_tolerance by {
            assert(rest[k] == rs[k + 1]);
        }
        lemma_no_rejections(d.next(rs[0]), rest);
    }
}

impl Driver {
    /// Feeds the reports to the driver in order; returns the final state and
    /// the output sample indices emitted on the way.
    pub fn run_reports(self, reports: &Vec<StepReport>) -> (r: (Driver, Vec<u64>))
        requires
            self.wf(),
            reports_valid(reports@),
        ensures
            r.0 == run(self, reports@),
            r.1@ == emitted(self, reports@),
    {
        let mut d = self;
        let mut out: Vec<u64> = Vec::new();
        let mut i: usize = 0;
        assert(reports@.skip(0) =~= reports@);
        assert(out@ + emitted(d, reports@) =~= emitted(d, reports@));
        while i < reports.len()
            invariant
                i <= reports@.len(),
                d.wf(),
                reports_valid(reports@),
                run(self, reports@) == run(d, reports@.skip(i as int)),
                emitted(self, reports@) == out@ + emitted(d, reports@.skip(i as int)),
            decreases reports@.len() - i,
        {
            let ghost rest = reports@.skip(i as int);
            assert(rest[0] == reports@[i as int]);
            assert(rest.drop_first() == reports@.skip(i + 1));
            let ghost before = d;
            let mut due = d.observe(reports[i]);
            assert(due@ =~= Seq::new(
                (d.samples - before.samples) as nat,
                |k: int| (before.samples + k) as u64,
            ));
            assert(out@ + due@ + emitted(d, reports@.skip(i + 1)) == out@ + (due@ + emitted(
                d,
                reports@.skip(i + 1),
            )));
            out.append(&mut due);
            i = i + 1;
        }
        assert(reports@.skip(i as int).len() == 0);
        (d, out)
    }
}

/// How an integration run by an external stepper ended.
#[derive(Clone, Copy, Debug, PartialEq, Eq, Structural)]
pub enum SolverOutcome {
    /// The end point was reached.
    Completed,
    /// The stepper's ceiling on steps, and so on evaluations, was reached.
    StepLimitReached,
    /// The step size fell below what the time resolution allows.
    StepSizeUnderflow,
    /// The stepper gave up on a problem that became stiff, which it could
    /// only have gone on with by ever smaller steps.
    StiffnessDetected,
    /// A sample of the result was not finite.
    NonFiniteResult,
}

/// The terminal status that an outcome stands for.
pub open spec fn status_spec(o: SolverOutcome) -> Status {
    match o {
        SolverOutcome::Completed => Status::Succeeded,
        SolverOutcome::StepLimitReached => Status::Failed(FailureKind::EvaluationLimitExceeded),
        SolverOutcome::StepSizeUnderflow => Status::Failed(FailureKind::StepUnderflow),
        SolverOutcome::StiffnessDetected => Status::Failed(FailureKind::StepUnderflow),
        SolverOutcome::NonFiniteResult => Status::Failed(FailureKind::NonFinite),
    }
}

/// The terminal status of a run that an external stepper carried out.
pub fn status_of(o: SolverOutcome) -> (r: Status)
    ensures
        r == status_spec(o),
{
    match o {
        SolverOutcome::Completed => Status::Succeeded,
        SolverOutcome::StepLimitReached => Status::Failed(FailureKind::EvaluationLimitExceeded),
        SolverOutcome::StepSizeUnderflow => Status::Failed(FailureKind::StepUnderflow),
        SolverOutcome::StiffnessDetected => Status::Failed(FailureKind::StepUnderflow),
        SolverOutcome::NonFiniteResult => Status::Failed(FailureKind::NonFinite),
    }
}

} // verus!
