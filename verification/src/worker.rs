//! One job from reading to reporting, and the compiler that jobs run under.

use crate::config::{CompilerConfig, ConfigView};
use crate::metrics::{after, has_room, nanos_of, no_metrics, CompilerMetrics, Completion,
    MetricsView};
use std::path::Path;
use vstd::prelude::*;

verus! {

/// The result of one job, produced once when the job is reported.
#[derive(Debug)]
pub enum TransformOutcome {
    /// The file was transformed and its output written to `output`.
    Success { file: String, output: String },
    /// Reading, transforming or writing failed; `description` says how.
    Failure { file: String, description: String },
}

/// The mathematical content of a `TransformOutcome`.
pub enum OutcomeView {
    Success { file: Seq<char>, output: Seq<char> },
    Failure { file: Seq<char>, description: Seq<char> },
}

impl View for TransformOutcome {
    type V = OutcomeView;

    open spec fn view(&self) -> OutcomeView {
        match self {
            TransformOutcome::Success { file, output } => OutcomeView::Success {
                file: file@,
                output: output@,
            },
            TransformOutcome::Failure { file, description } => OutcomeView::Failure {
                file: file@,
                description: description@,
            },
        }
    }
}

/// Where a job stands.
#[derive(Debug, Clone, Copy, PartialEq, Eq, Structural)]
pub enum Stage {
    /// The source file is being read.
    Reading,
    /// The source text is being transformed.
    Transforming,
    /// The output is being written; the transformation took `elapsed_nanos`.
    Writing { elapsed_nanos: u128 },
    /// The outcome has been reported; nothing more happens to this job.
    Reported,
}

/// What the caller found when it carried out the step a job was waiting for.
#[derive(Debug)]
pub enum StepResult {
    /// The step succeeded and took `elapsed_nanos`.
    Done { elapsed_nanos: u128 },
    /// The step failed; `description` says how.
    Failed { description: String },
}

/// The mathematical content of a `StepResult`.
pub enum StepView {
    Done { elapsed_nanos: u128 },
    Failed { description: Seq<char> },
}

impl View for StepResult {
    type V = StepView;

    open spec fn view(&self) -> StepView {
        match self {
            StepResult::Done { elapsed_nanos } => StepView::Done { elapsed_nanos: *elapsed_nanos },
            StepResult::Failed { description } => StepView::Failed { description: description@ },
        }
    }
}

/// What the caller is to do next for a job.
#[derive(Debug)]
pub enum JobAction {
    /// Transform the source text that was read.
    Transform,
    /// Write the transformed text to `path`.
    Write { path: String },
    /// Send the outcome to the collector; the job is over.
    Report { outcome: TransformOutcome },
    /// The job was over already; there is nothing to do.
    Nothing,
}

/// The mathematical content of a `JobAction`.
pub enum ActionView {
    Transform,
    Write { path: Seq<char> },
    Report { outcome: OutcomeView },
    Nothing,
}

impl View for JobAction {
    type V = ActionView;

    open spec fn view(&self) -> ActionView {
        match self {
            JobAction::Transform => ActionView::Transform,
            JobAction::Write { path } => ActionView::Write { path: path@ },
            JobAction::Report { outcome } => ActionView::Report { outcome: outcome@ },
            JobAction::Nothing => ActionView::Nothing,
        }
    }
}

/// One file on its way through the pipeline.
#[derive(Debug)]
pub struct Job {
    pub file: String,
    pub stage: Stage,
}

/// The mathematical content of a `Job`.
pub struct JobView {
    pub file: Seq<char>,
    pub stage: Stage,
}

impl View for Job {
    type V = JobView;

    open spec fn view(&self) -> JobView {
        JobView { file: self.file@, stage: self.stage }
    }
}

/// What `Path::with_extension` makes of a path and an extension, by the
/// path rules of the platform the library is built for.
pub uninterp spec fn with_extension(path: Seq<char>, extension: Seq<char>) -> Seq<char>;

/// Whether the text holds no character that separates path components.
pub open spec fn separator_free(text: Seq<char>) -> bool {
    forall|i: int| 0 <= i < text.len() ==> text[i] != '/' && text[i] != '\\'
}

/// Where the output of a source file goes: the same path, with the
/// extension of JavaScript files.
pub open spec fn output_path(file: Seq<char>) -> Seq<char> {
    with_extension(file, "js"@)
}

/// `Path::with_extension` on a path given as text: the result is the path
/// that std derives, as text. An extension that holds a path separator makes
/// std panic and is left out.
#[verifier::external_body]
fn path_with_extension(path: &str, extension: &str) -> (derived: String)
    requires
        separator_free(extension@),
    ensures
        derived@ == with_extension(path@, extension@),
{
    Path::new(path).with_extension(extension).to_string_lossy().into_owned()
}

/// The stage that follows when a step of a job at `stage` ended in `result`.
pub open spec fn next_stage(stage: Stage, result: StepView) -> Stage {
    match stage {
        Stage::Reported => Stage::Reported,
        Stage::Reading => match result {
            StepView::Done { .. } => Stage::Transforming,
            StepView::Failed { .. } => Stage::Reported,
        },
        Stage::Transforming => match result {
            StepView::Done { elapsed_nanos } => Stage::Writing { elapsed_nanos },
            StepView::Failed { .. } => Stage::Reported,
        },
        Stage::Writing { .. } => Stage::Reported,
    }
}

/// What is to be done when a step of `job` ended in `result`.
pub open spec fn action_for(job: JobView, result: StepView) -> ActionView {
    match job.stage {
        Stage::Reported => ActionView::Nothing,
        _ => match result {
            StepView::Failed { description } => ActionView::Report {
                outcome: OutcomeView::Failure { file: job.file, description },
            },
            StepView::Done { .. } => match job.stage {
                Stage::Reading => ActionView::Transform,
                Stage::Transforming => ActionView::Write { path: output_path(job.file) },
                _ => ActionView::Report {
                    outcome: OutcomeView::Success { file: job.file, output: output_path(job.file) },
                },
            },
        },
    }
}

/// What the metrics are to count when a step of a job at `stage` ended in
/// `result`: nothing until the job is reported; then a failure, or a success
/// with the time of the transformation alone.
pub open spec fn completion_for(stage: Stage, result: StepView) -> Option<Completion> {
    match stage {
        Stage::Reported => None,
        _ => match result {
            StepView::Failed { .. } => Some(Completion::Failure),
            StepView::Done { .. } => match stage {
                Stage::Writing { elapsed_nanos } => Some(Completion::Success { elapsed_nanos }),
                _ => None,
            },
        },
    }
}

/// The metrics after a step of a job at `stage` ended in `result`.
pub open spec fn metrics_after_step(before: MetricsView, stage: Stage, result: StepView)
    -> MetricsView {
    match completion_for(stage, result) {
        Some(completion) => after(before, completion),
        None => before,
    }
}

/// The time that a job at `stage` will add to the metrics if it succeeds now.
pub open spec fn pending_nanos(stage: Stage) -> nat {
    match stage {
        Stage::Writing { elapsed_nanos } => elapsed_nanos as nat,
        _ => 0,
    }
}

/// Whether the metrics can count what a step of a job at `stage` that ended
/// in `result` adds to them. A step that does not end the job adds nothing.
pub open spec fn step_has_room(metrics: MetricsView, stage: Stage, result: StepView) -> bool {
    match completion_for(stage, result) {
        Some(completion) => has_room(metrics, nanos_of(completion)),
        None => true,
    }
}

impl Job {
    /// A job for `file`, about to be read.
    pub fn new(file: String) -> (job: Self)
        ensures
            job@ == (JobView { file: file@, stage: Stage::Reading }),
    {
        Job { file, stage: Stage::Reading }
    }

    /// Whether the outcome of this job has been reported.
    pub fn is_reported(&self) -> (reported: bool)
        ensures
            reported == (self.stage == Stage::Reported),
    {
        match self.stage {
            Stage::Reported => true,
            _ => false,
        }
    }
}

/// The configuration of a run together with its metrics.
#[derive(Debug)]
pub struct Compiler {
    pub config: CompilerConfig,
    pub metrics: CompilerMetrics,
}

/// The mathematical content of a `Compiler`.
pub struct CompilerView {
    pub config: ConfigView,
    pub metrics: MetricsView,
}

impl View for Compiler {
    type V = CompilerView;

    open spec fn view(&self) -> CompilerView {
        CompilerView { config: self.config@, metrics: self.metrics@ }
    }
}

impl Compiler {
    /// A compiler with the given configuration that has processed nothing.
    pub fn new(config: CompilerConfig) -> (compiler: Self)
        ensures
            compiler@ == (CompilerView { config: config@, metrics: no_metrics() }),
    {
        Compiler { config, metrics: CompilerMetrics::new() }
    }

    /// The path that the output of `file` is written to.
    pub fn output_path_of(file: &str) -> (path: String)
        ensures
            path@ == output_path(file@),
    {
        proof {
            reveal_strlit("js");
        }
        path_with_extension(file, "js")
    }

    /// Whether `advance` can take `result` for `job` without a counter
    /// leaving the range of its machine type.
    pub fn can_advance(&self, job: &Job, result: &StepResult) -> (room: bool)
        ensures
            room == step_has_room(self.metrics@, job.stage, result@),
    {
        match job.stage {
            Stage::Reported => true,
            Stage::Writing { elapsed_nanos } => match result {
                StepResult::Done { .. } => self.metrics.can_record(elapsed_nanos),
                StepResult::Failed { .. } => self.metrics.can_record(0),
            },
            _ => match result {
                StepResult::Done { .. } => true,
                StepResult::Failed { .. } => self.metrics.can_record(0),
            },
        }
    }

    /// Moves `job` on by the step that just ended in `result`, and says what
    /// to do next. A failed step ends the job with a failure that names the
    /// file; a job whose output was written ends with a success that names the
    /// output. When, and only when, the job ends, it is counted in the metrics.
    pub fn advance(&mut self, job: &mut Job, result: StepResult) -> (action: JobAction)
        requires
            step_has_room(old(self).metrics@, old(job).stage, result@),
        ensures
            final(job)@ == (JobView {
                file: old(job).file@,
                stage: next_stage(old(job).stage, result@),
            }),
            action@ == action_for(old(job)@, result@),
            final(self)@ == (CompilerView {
                config: old(self).config@,
                metrics: metrics_after_step(old(self).metrics@, old(job).stage, result@),
            }),
    {
        match job.stage {
            Stage::Reported => JobAction::Nothing,
            Stage::Reading => match result {
                StepResult::Done { .. } => {
                    job.stage = Stage::Transforming;
                    JobAction::Transform
                },
                StepResult::Failed { description } => self.fail(job, description),
            },
            Stage::Transforming => match result {
                StepResult::Done { elapsed_nanos } => {
                    job.stage = Stage::Writing { elapsed_nanos };
                    JobAction::Write { path: Compiler::output_path_of(job.file.as_str()) }
                },
                StepResult::Failed { description } => self.fail(job, description),
            },
            Stage::Writing { elapsed_nanos } => match result {
                StepResult::Done { .. } => {
                    job.stage = Stage::Reported;
                    self.metrics.record_success(elapsed_nanos);
                    JobAction::Report {
                        outcome: TransformOutcome::Success {
                            file: job.file.clone(),
                            output: Compiler::output_path_of(job.file.as_str()),
                        },
                    }
                },
                StepResult::Failed { description } => self.fail(job, description),
            },
        }
    }

    /// Ends `job` with a failure and counts it.
    fn fail(&mut self, job: &mut Job, description: String) -> (action: JobAction)
        requires
            has_room(old(self).metrics@, 0),
        ensures
            final(job)@ == (JobView { file: old(job).file@, stage: Stage::Reported }),
            action@ == (ActionView::Report {
                outcome: OutcomeView::Failure { file: old(job).file@, description: description@ },
            }),
            final(self)@ == (CompilerView {
                config: old(self).config@,
                metrics: after(old(self).metrics@, Completion::Failure),
            }),
    {
        job.stage = Stage::Reported;
        self.metrics.record_failure();
        JobAction::Report {
            outcome: TransformOutcome::Failure { file: job.file.clone(), description },
        }
    }
}

/// The stage of a job after a run of step results, taken in order.
pub open spec fn stage_after(stage: Stage, results: Seq<StepView>) -> Stage
    decreases results.len(),
{
    if results.len() == 0 {
        stage
    } else {
        next_stage(stage_after(stage, results.drop_last()), results.last())
    }
}

/// How many outcomes a job reports along a run of step results.
pub open spec fn reports(job: JobView, results: Seq<StepView>) -> nat
    decreases results.len(),
{
    if results.len() == 0 {
        0
    } else {
        let earlier = results.drop_last();
        let reached = JobView { file: job.file, stage: stage_after(job.stage, earlier) };
        reports(job, earlier) + if action_for(reached, results.last()) is Report {
            1nat
        } else {
            0nat
        }
    }
}

/// How far a job has come: the number of steps behind it, at most three.
pub open spec fn progress(stage: Stage) -> nat {
    match stage {
        Stage::Reading => 0,
        Stage::Transforming => 1,
        Stage::Writing { .. } => 2,
        Stage::Reported => 3,
    }
}

/// A job is counted in the metrics exactly when its outcome is reported, as
/// a success when the outcome is a success and as a failure otherwise; the
/// outcome names the job's file, and a reported job is over.
pub proof fn lemma_counted_when_reported(job: JobView, result: StepView)
    ensures
        action_for(job, result) is Report <==> completion_for(job.stage, result) is Some,
        action_for(job, result) is Report <==> job.stage != Stage::Reported && next_stage(
            job.stage,
            result,
        ) == Stage::Reported,
        action_for(job, result) matches ActionView::Report { outcome } ==> (outcome is Success
            <==> completion_for(job.stage, result) == Some(
            Completion::Success { elapsed_nanos: pending_nanos(job.stage) as u128 },
        )) && (outcome is Failure <==> completion_for(job.stage, result) == Some(
            Completion::Failure,
        )) && (outcome is Failure <==> result is Failed) && match outcome {
            OutcomeView::Success { file, .. } => file == job.file,
            OutcomeView::Failure { file, .. } => file == job.file,
        },
{
}

/// Every job reports one outcome and no more: along any run of steps at most
/// one outcome is reported, a run that ends the job reports exactly one, and
/// three steps end any job.
pub proof fn lemma_one_outcome_per_job(job: JobView, results: Seq<StepView>)
    ensures
        reports(job, results) <= 1,
        reports(job, results) == 1 <==> job.stage != Stage::Reported && stage_after(
            job.stage,
            results,
        ) == Stage::Reported,
        progress(stage_after(job.stage, results)) >= progress(job.stage),
        progress(stage_after(job.stage, results)) >= if results.len() >= 3 {
            3
        } else {
            results.len()
        },
        job.stage == Stage::Reported ==> stage_after(job.stage, results) == Stage::Reported,
    decreases results.len(),
{
    if results.len() > 0 {
        lemma_one_outcome_per_job(job, results.drop_last());
    }
}

} // verus!
