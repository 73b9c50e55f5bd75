//! The shared counters of a run: files processed, time spent, errors.

use vstd::prelude::*;

verus! {

/// How one job ended, as far as the counters are concerned.
#[derive(Debug, Clone, Copy, PartialEq, Eq, Structural)]
pub enum Completion {
    /// The job succeeded; its transformation took this many nanoseconds.
    Success { elapsed_nanos: u128 },
    /// The job failed.
    Failure,
}

/// The mathematical content of a `CompilerMetrics`.
pub struct MetricsView {
    pub files_processed: nat,
    pub total_nanos: nat,
    pub errors: nat,
}

/// The counters before any job has completed.
pub open spec fn no_metrics() -> MetricsView {
    MetricsView { files_processed: 0, total_nanos: 0, errors: 0 }
}

/// The counters after one more success that took `elapsed_nanos`.
pub open spec fn after_success(before: MetricsView, elapsed_nanos: nat) -> MetricsView {
    MetricsView {
        files_processed: before.files_processed + 1,
        total_nanos: before.total_nanos + elapsed_nanos,
        errors: before.errors,
    }
}

/// The counters after one more failure.
pub open spec fn after_failure(before: MetricsView) -> MetricsView {
    MetricsView {
        files_processed: before.files_processed + 1,
        total_nanos: before.total_nanos,
        errors: before.errors + 1,
    }
}

/// The counters after one more completion.
pub open spec fn after(before: MetricsView, completion: Completion) -> MetricsView {
    match completion {
        Completion::Success { elapsed_nanos } => after_success(before, elapsed_nanos as nat),
        Completion::Failure => after_failure(before),
    }
}

/// The counters after a run of completions, taken in order.
pub open spec fn after_all(before: MetricsView, completions: Seq<Completion>) -> MetricsView
    decreases completions.len(),
{
    if completions.len() == 0 {
        before
    } else {
        after(after_all(before, completions.drop_last()), completions.last())
    }
}

/// How many of the completions are failures.
pub open spec fn failures(completions: Seq<Completion>) -> nat
    decreases completions.len(),
{
    if completions.len() == 0 {
        0
    } else {
        failures(completions.drop_last()) + if completions.last() is Failure {
            1nat
        } else {
            0nat
        }
    }
}

/// The time that the successes among the completions took, summed.
pub open spec fn success_nanos(completions: Seq<Completion>) -> nat
    decreases completions.len(),
{
    if completions.len() == 0 {
        0
    } else {
        success_nanos(completions.drop_last()) + match completions.last() {
            Completion::Success { elapsed_nanos } => elapsed_nanos as nat,
            Completion::Failure => 0nat,
        }
    }
}

/// Whether the counters can take one more completion that took
/// `elapsed_nanos` without leaving the range of their machine types.
pub open spec fn has_room(metrics: MetricsView, elapsed_nanos: nat) -> bool {
    metrics.files_processed < usize::MAX && metrics.total_nanos + elapsed_nanos <= u128::MAX
}

/// The time that a completion adds to the total.
pub open spec fn nanos_of(completion: Completion) -> nat {
    match completion {
        Completion::Success { elapsed_nanos } => elapsed_nanos as nat,
        Completion::Failure => 0,
    }
}

/// Aggregate counters of a run. Every completed job counts as processed; a
/// failed job also counts as an error; only a successful job adds to the time.
#[derive(Debug)]
pub struct CompilerMetrics {
    files_processed: usize,
    total_nanos: u128,
    errors: usize,
}

impl View for CompilerMetrics {
    type V = MetricsView;

    closed spec fn view(&self) -> MetricsView {
        MetricsView {
            files_processed: self.files_processed as nat,
            total_nanos: self.total_nanos as nat,
            errors: self.errors as nat,
        }
    }
}

impl CompilerMetrics {
    /// No error is counted that was not also counted as processed.
    #[verifier::type_invariant]
    spec fn consistent(self) -> bool {
        self.errors <= self.files_processed
    }

    /// Counters of a run in which nothing has completed yet.
    pub fn new() -> (metrics: Self)
        ensures
            metrics@ == no_metrics(),
    {
        CompilerMetrics { files_processed: 0, total_nanos: 0, errors: 0 }
    }

    /// The number of jobs that have completed, successfully or not.
    pub fn files_processed(&self) -> (count: usize)
        ensures
            count == self@.files_processed,
    {
        self.files_processed
    }

    /// The time that the successful jobs took, in nanoseconds.
    pub fn total_nanos(&self) -> (nanos: u128)
        ensures
            nanos == self@.total_nanos,
    {
        self.total_nanos
    }

    /// The number of jobs that have failed.
    pub fn errors(&self) -> (count: usize)
        ensures
            count == self@.errors,
            count <= self@.files_processed,
    {
        proof {
            use_type_invariant(self);
        }
        self.errors
    }

    /// Whether one more completion that took `elapsed_nanos` can be recorded.
    pub fn can_record(&self, elapsed_nanos: u128) -> (room: bool)
        ensures
            room == has_room(self@, elapsed_nanos as nat),
    {
        self.files_processed < usize::MAX && elapsed_nanos <= u128::MAX - self.total_nanos
    }

    /// Counts one successful job and adds its time to the total.
    pub fn record_success(&mut self, elapsed_nanos: u128)
        requires
            has_room(old(self)@, elapsed_nanos as nat),
        ensures
            final(self)@ == after_success(old(self)@, elapsed_nanos as nat),
    {
        proof {
            use_type_invariant(&*self);
        }
        self.files_processed = self.files_processed + 1;
        self.total_nanos = self.total_nanos + elapsed_nanos;
    }

    /// Counts one failed job.
    pub fn record_failure(&mut self)
        requires
            has_room(old(self)@, 0),
        ensures
            final(self)@ == after_failure(old(self)@),
    {
        proof {
            use_type_invariant(&*self);
        }
        self.files_processed = self.files_processed + 1;
        self.errors = self.errors + 1;
    }

    /// Counts one completed job.
    pub fn record(&mut self, completion: Completion)
        requires
            has_room(old(self)@, nanos_of(completion)),
        ensures
            final(self)@ == after(old(self)@, completion),
    {
        match completion {
            Completion::Success { elapsed_nanos } => self.record_success(elapsed_nanos),
            Completion::Failure => self.record_failure(),
        }
    }

    /// The counters as they stand, all three read at one point in time.
    pub fn snapshot(&self) -> (copy: Self)
        ensures
            copy@ == self@,
            copy@.errors <= copy@.files_processed,
    {
        proof {
            use_type_invariant(self);
        }
        CompilerMetrics {
            files_processed: self.files_processed,
            total_nanos: self.total_nanos,
            errors: self.errors,
        }
    }

}

impl Default for CompilerMetrics {
    fn default() -> (metrics: Self)
        ensures
            metrics@ == no_metrics(),
    {
        CompilerMetrics::new()
    }
}

/// After a run of completions the processed count has grown by their number,
/// the error count by the number of failures among them, and the total time
/// by the time of the successes alone.
pub proof fn lemma_totals_after_run(before: MetricsView, completions: Seq<Completion>)
    ensures
        after_all(before, completions).files_processed == before.files_processed
            + completions.len(),
        after_all(before, completions).errors == before.errors + failures(completions),
        after_all(before, completions).total_nanos == before.total_nanos + success_nanos(
            completions,
        ),
        failures(completions) <= completions.len(),
    decreases completions.len(),
{
    if completions.len() > 0 {
        lemma_totals_after_run(before, completions.drop_last());
    }
}

/// No counter ever decreases.
pub proof fn lemma_counters_never_decrease(before: MetricsView, completions: Seq<Completion>)
    ensures
        before.files_processed <= after_all(before, completions).files_processed,
        before.total_nanos <= after_all(before, completions).total_nanos,
        before.errors <= after_all(before, completions).errors,
{
    lemma_totals_after_run(before, completions);
}

} // verus!
