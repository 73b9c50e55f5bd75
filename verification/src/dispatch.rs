//! Launching one job per resolved path, and collecting their outcomes.

use crate::metrics::{after_all, failures, lemma_totals_after_run, no_metrics, CompilerMetrics,
    Completion, MetricsView};
use crate::worker::{Job, JobView, OutcomeView, Stage, TransformOutcome};
use vstd::prelude::*;

verus! {

/// The jobs launched for a list of paths: one for each path, in order, each
/// about to be read.
pub open spec fn launched(paths: Seq<Seq<char>>) -> Seq<JobView> {
    paths.map_values(|path: Seq<char>| JobView { file: path, stage: Stage::Reading })
}

/// The views of a list of jobs.
pub open spec fn job_views(jobs: Seq<Job>) -> Seq<JobView> {
    jobs.map_values(|job: Job| job@)
}

/// Launches one job for every path, whatever their number.
pub fn launch(paths: &Vec<String>) -> (jobs: Vec<Job>)
    ensures
        job_views(jobs@) == launched(paths.deep_view()),
{
    let mut jobs: Vec<Job> = Vec::new();
    let mut i: usize = 0;
    while i < paths.len()
        invariant
            i <= paths.len(),
            jobs.len() == i,
            job_views(jobs@) == launched(paths.deep_view().take(i as int)),
        decreases paths.len() - i,
    {
        let ghost before = jobs@;
        jobs.push(Job::new(paths[i].clone()));
        i = i + 1;
        proof {
            let wanted = launched(paths.deep_view().take(i as int));
            assert forall|k: int| 0 <= k < jobs@.len() implies job_views(jobs@)[k] == wanted[k] by {
                if k < before.len() {
                    assert(job_views(before)[k] == launched(paths.deep_view().take(i - 1))[k]);
                }
            }
            assert(job_views(jobs@) =~= wanted);
        }
    }
    assert(paths.deep_view().take(i as int) =~= paths.deep_view());
    jobs
}

/// How many outcomes of each kind a collector has seen.
pub struct TallyView {
    pub succeeded: nat,
    pub failed: nat,
}

/// The tally before any outcome has arrived.
pub open spec fn no_tally() -> TallyView {
    TallyView { succeeded: 0, failed: 0 }
}

/// The tally after one more outcome.
pub open spec fn tallied(before: TallyView, outcome: OutcomeView) -> TallyView {
    match outcome {
        OutcomeView::Success { .. } => TallyView {
            succeeded: before.succeeded + 1,
            failed: before.failed,
        },
        OutcomeView::Failure { .. } => TallyView {
            succeeded: before.succeeded,
            failed: before.failed + 1,
        },
    }
}

/// Whether the counter that `outcome` adds to is below the limit of its
/// machine type.
pub open spec fn tally_has_room(tally: TallyView, outcome: OutcomeView) -> bool {
    match outcome {
        OutcomeView::Success { .. } => tally.succeeded < usize::MAX,
        OutcomeView::Failure { .. } => tally.failed < usize::MAX,
    }
}

/// The tally after a run of outcomes, in the order of their arrival.
pub open spec fn tallied_all(before: TallyView, outcomes: Seq<OutcomeView>) -> TallyView
    decreases outcomes.len(),
{
    if outcomes.len() == 0 {
        before
    } else {
        tallied(tallied_all(before, outcomes.drop_last()), outcomes.last())
    }
}

/// Whether an outcome and what the metrics counted for its job agree: both
/// are successes or both are failures.
pub open spec fn agree(outcome: OutcomeView, completion: Completion) -> bool {
    outcome is Success <==> completion is Success
}

/// Classifies the outcomes that arrive from the jobs of one pass.
#[derive(Debug)]
pub struct Collector {
    succeeded: usize,
    failed: usize,
}

impl View for Collector {
    type V = TallyView;

    closed spec fn view(&self) -> TallyView {
        TallyView { succeeded: self.succeeded as nat, failed: self.failed as nat }
    }
}

/// What a pass reports when the last outcome has arrived.
#[derive(Debug, Clone, Copy, PartialEq, Eq, Structural)]
pub struct Summary {
    /// Jobs that completed, according to the metrics.
    pub processed: usize,
    /// Time that the successful jobs took, in nanoseconds.
    pub total_nanos: u128,
    /// Successful outcomes that the collector received.
    pub succeeded: usize,
    /// Failed outcomes that the collector received.
    pub failed: usize,
}

/// The summary of a pass with these metrics and this tally.
pub open spec fn summary_of(metrics: MetricsView, tally: TallyView) -> Summary {
    Summary {
        processed: metrics.files_processed as usize,
        total_nanos: metrics.total_nanos as u128,
        succeeded: tally.succeeded as usize,
        failed: tally.failed as usize,
    }
}

impl Collector {
    /// A collector that has received nothing.
    pub fn new() -> (collector: Self)
        ensures
            collector@ == no_tally(),
    {
        Collector { succeeded: 0, failed: 0 }
    }

    /// The number of successful outcomes received.
    pub fn succeeded(&self) -> (count: usize)
        ensures
            count == self@.succeeded,
    {
        self.succeeded
    }

    /// The number of failed outcomes received.
    pub fn failed(&self) -> (count: usize)
        ensures
            count == self@.failed,
    {
        self.failed
    }

    /// Whether this outcome can be counted without its counter leaving the
    /// range of its machine type.
    pub fn can_observe(&self, outcome: &TransformOutcome) -> (room: bool)
        ensures
            room == tally_has_room(self@, outcome@),
    {
        match outcome {
            TransformOutcome::Success { .. } => self.succeeded < usize::MAX,
            TransformOutcome::Failure { .. } => self.failed < usize::MAX,
        }
    }

    /// Counts one outcome as a success or as a failure.
    pub fn observe(&mut self, outcome: &TransformOutcome)
        requires
            tally_has_room(old(self)@, outcome@),
        ensures
            final(self)@ == tallied(old(self)@, outcome@),
    {
        match outcome {
            TransformOutcome::Success { .. } => {
                self.succeeded = self.succeeded + 1;
            },
            TransformOutcome::Failure { .. } => {
                self.failed = self.failed + 1;
            },
        }
    }

    /// The summary of the pass, from the tally and the metrics as they stand
    /// once no more outcomes will arrive.
    pub fn summarize(&self, metrics: &CompilerMetrics) -> (summary: Summary)
        ensures
            summary == summary_of(metrics@, self@),
    {
        Summary {
            processed: metrics.files_processed(),
            total_nanos: metrics.total_nanos(),
            succeeded: self.succeeded,
            failed: self.failed,
        }
    }
}

/// Every outcome is counted once: the two tallies sum to the number of
/// outcomes.
pub proof fn lemma_tally_counts_every_outcome(before: TallyView, outcomes: Seq<OutcomeView>)
    ensures
        tallied_all(before, outcomes).succeeded + tallied_all(before, outcomes).failed
            == before.succeeded + before.failed + outcomes.len(),
        before.succeeded <= tallied_all(before, outcomes).succeeded,
        before.failed <= tallied_all(before, outcomes).failed,
    decreases outcomes.len(),
{
    if outcomes.len() > 0 {
        lemma_tally_counts_every_outcome(before, outcomes.drop_last());
    }
}

/// When the collector has received the outcome of every job that the metrics
/// counted, the processed count is the sum of the successes and the failures
/// received, and the error count is the number of failures received.
pub proof fn lemma_processed_is_successes_plus_failures(
    outcomes: Seq<OutcomeView>,
    completions: Seq<Completion>,
)
    requires
        outcomes.len() == completions.len(),
        forall|k: int| 0 <= k < outcomes.len() ==> agree(#[trigger] outcomes[k], completions[k]),
    ensures
        after_all(no_metrics(), completions).files_processed == tallied_all(
            no_tally(),
            outcomes,
        ).succeeded + tallied_all(no_tally(), outcomes).failed,
        after_all(no_metrics(), completions).errors == tallied_all(no_tally(), outcomes).failed,
        after_all(no_metrics(), completions).files_processed == outcomes.len(),
    decreases outcomes.len(),
{
    lemma_totals_after_run(no_metrics(), completions);
    lemma_tally_counts_every_outcome(no_tally(), outcomes);
    lemma_failures_match(outcomes, completions);
}

/// Outcomes and completions that agree pairwise hold the same number of
/// failures.
proof fn lemma_failures_match(outcomes: Seq<OutcomeView>, completions: Seq<Completion>)
    requires
        outcomes.len() == completions.len(),
        forall|k: int| 0 <= k < outcomes.len() ==> agree(#[trigger] outcomes[k], completions[k]),
    ensures
        tallied_all(no_tally(), outcomes).failed == failures(completions),
    decreases outcomes.len(),
{
    if outcomes.len() > 0 {
        let n = outcomes.len() - 1;
        assert(agree(outcomes[n], completions[n]));
        assert forall|k: int| 0 <= k < n implies agree(
            #[trigger] outcomes.drop_last()[k],
            completions.drop_last()[k],
        ) by {
            assert(agree(outcomes[k], completions[k]));
        }
        lemma_failures_match(outcomes.drop_last(), completions.drop_last());
    }
}

} // verus!
