//! The run as a whole: one bulk pass, then the watch loop.

use crate::config;
use crate::config::{jobs_of, CompilerConfig, OptionsView};
use crate::watch::{job_sets_for, submissions, ChangeKind, WatchEvent};
use vstd::prelude::*;

verus! {

/// Where a run stands.
#[derive(Debug, Clone, Copy, PartialEq, Eq, Structural)]
pub enum Phase {
    /// The entries under the root are being gathered.
    Resolving,
    /// The jobs of the bulk pass are running.
    BulkPass,
    /// The bulk pass is over; changes are being watched for.
    Watching,
    /// The subscription ended; the run is over.
    Stopped,
    /// The root could not be read; the run is over and nothing was dispatched.
    Aborted,
}

/// What the caller tells the orchestrator.
#[derive(Debug)]
pub enum RunEvent {
    /// The root was walked and these entries were found.
    RootResolved { entries: Vec<Vec<String>> },
    /// The root could not be opened or walked.
    RootFailed { description: String },
    /// Every job of the bulk pass has been collected and summarised.
    BulkFinished,
    /// A change notification arrived.
    Changed { event: WatchEvent },
    /// A notification arrived that carried an error.
    WatchError { description: String },
    /// No more notifications will arrive.
    SubscriptionEnded,
}

/// The mathematical content of a `RunEvent`.
pub enum RunEventView {
    RootResolved { entries: Seq<Seq<Seq<char>>> },
    RootFailed { description: Seq<char> },
    BulkFinished,
    Changed { kind: ChangeKind, paths: Seq<Seq<char>> },
    WatchError { description: Seq<char> },
    SubscriptionEnded,
}

impl View for RunEvent {
    type V = RunEventView;

    open spec fn view(&self) -> RunEventView {
        match self {
            RunEvent::RootResolved { entries } => RunEventView::RootResolved {
                entries: entries.deep_view(),
            },
            RunEvent::RootFailed { description } => RunEventView::RootFailed {
                description: description@,
            },
            RunEvent::BulkFinished => RunEventView::BulkFinished,
            RunEvent::Changed { event } => RunEventView::Changed {
                kind: event.kind,
                paths: event.paths.deep_view(),
            },
            RunEvent::WatchError { description } => RunEventView::WatchError {
                description: description@,
            },
            RunEvent::SubscriptionEnded => RunEventView::SubscriptionEnded,
        }
    }
}

/// What the orchestrator tells the caller to do.
#[derive(Debug)]
pub enum RunAction {
    /// Dispatch these jobs as the bulk pass, collect them all, then say so.
    Dispatch { jobs: Vec<String> },
    /// Give up: the run cannot start.
    Abort { description: String },
    /// Subscribe to changes under the root.
    Subscribe,
    /// Dispatch each of these job sets on its own, without waiting for it.
    DispatchEach { job_sets: Vec<Vec<String>> },
    /// Log the error of a notification; the loop goes on.
    LogWatchError { description: String },
    /// Leave the watch loop.
    Stop,
    /// The event has no place in this phase; do nothing.
    Nothing,
}

/// The mathematical content of a `RunAction`.
pub enum RunActionView {
    Dispatch { jobs: Seq<Seq<char>> },
    Abort { description: Seq<char> },
    Subscribe,
    DispatchEach { job_sets: Seq<Seq<Seq<char>>> },
    LogWatchError { description: Seq<char> },
    Stop,
    Nothing,
}

impl View for RunAction {
    type V = RunActionView;

    open spec fn view(&self) -> RunActionView {
        match self {
            RunAction::Dispatch { jobs } => RunActionView::Dispatch { jobs: jobs.deep_view() },
            RunAction::Abort { description } => RunActionView::Abort { description: description@ },
            RunAction::Subscribe => RunActionView::Subscribe,
            RunAction::DispatchEach { job_sets } => RunActionView::DispatchEach {
                job_sets: job_sets.deep_view(),
            },
            RunAction::LogWatchError { description } => RunActionView::LogWatchError {
                description: description@,
            },
            RunAction::Stop => RunActionView::Stop,
            RunAction::Nothing => RunActionView::Nothing,
        }
    }
}

/// Sequences the bulk pass and the watch loop of one run.
#[derive(Debug)]
pub struct Orchestrator {
    pub options: config::Option,
    pub source_extension: String,
    pub phase: Phase,
}

/// The mathematical content of an `Orchestrator`.
pub struct OrchestratorView {
    pub options: OptionsView,
    pub source_extension: Seq<char>,
    pub phase: Phase,
}

impl View for Orchestrator {
    type V = OrchestratorView;

    open spec fn view(&self) -> OrchestratorView {
        OrchestratorView {
            options: self.options@,
            source_extension: self.source_extension@,
            phase: self.phase,
        }
    }
}

/// The options with their entries replaced.
pub open spec fn with_entries(options: OptionsView, entries: Seq<Seq<Seq<char>>>) -> OptionsView {
    OptionsView { entry: entries, ..options }
}

/// The state that follows `state` on `event`.
pub open spec fn next_state(state: OrchestratorView, event: RunEventView) -> OrchestratorView {
    match (state.phase, event) {
        (Phase::Resolving, RunEventView::RootResolved { entries }) => OrchestratorView {
            options: with_entries(state.options, entries),
            phase: Phase::BulkPass,
            ..state
        },
        (Phase::Resolving, RunEventView::RootFailed { .. }) => OrchestratorView {
            phase: Phase::Aborted,
            ..state
        },
        (Phase::BulkPass, RunEventView::BulkFinished) => OrchestratorView {
            phase: Phase::Watching,
            ..state
        },
        (Phase::Watching, RunEventView::SubscriptionEnded) => OrchestratorView {
            phase: Phase::Stopped,
            ..state
        },
        _ => state,
    }
}

/// What is to be done in `state` on `event`.
pub open spec fn action_of(state: OrchestratorView, event: RunEventView) -> RunActionView {
    match (state.phase, event) {
        (Phase::Resolving, RunEventView::RootResolved { entries }) => RunActionView::Dispatch {
            jobs: jobs_of(with_entries(state.options, entries)),
        },
        (Phase::Resolving, RunEventView::RootFailed { description }) => RunActionView::Abort {
            description,
        },
        (Phase::BulkPass, RunEventView::BulkFinished) => RunActionView::Subscribe,
        (Phase::Watching, RunEventView::Changed { kind, paths }) => RunActionView::DispatchEach {
            job_sets: job_sets_for(kind, paths, state.source_extension, state.options),
        },
        (Phase::Watching, RunEventView::WatchError { description }) => RunActionView::LogWatchError {
            description,
        },
        (Phase::Watching, RunEventView::SubscriptionEnded) => RunActionView::Stop,
        _ => RunActionView::Nothing,
    }
}

/// The state after a run of events, taken in order.
pub open spec fn state_after(state: OrchestratorView, events: Seq<RunEventView>) -> OrchestratorView
    decreases events.len(),
{
    if events.len() == 0 {
        state
    } else {
        next_state(state_after(state, events.drop_last()), events.last())
    }
}

/// The action that the last of a run of events leads to.
pub open spec fn last_action(state: OrchestratorView, events: Seq<RunEventView>) -> RunActionView
    recommends
        events.len() > 0,
{
    action_of(state_after(state, events.drop_last()), events.last())
}

/// Whether an action hands work to the dispatcher.
pub open spec fn dispatches(action: RunActionView) -> bool {
    action is Dispatch || action is DispatchEach
}

/// The argument that names the root: present exactly when the program was
/// given one argument besides its own name.
pub open spec fn root_of(args: Seq<Seq<char>>) -> Option<Seq<char>> {
    if args.len() == 2 {
        Some(args[1])
    } else {
        None
    }
}

/// Picks the root directory from the program's arguments. With an argument
/// missing, or with one too many, there is none.
pub fn root_argument(args: &Vec<String>) -> (root: Option<String>)
    ensures
        root.deep_view() == root_of(args.deep_view()),
{
    if args.len() == 2 {
        Some(args[1].clone())
    } else {
        None
    }
}

impl Orchestrator {
    /// An orchestrator at the start of a run over sources with the given
    /// extension.
    pub fn new(options: config::Option, source_extension: String) -> (orchestrator: Self)
        ensures
            orchestrator@ == (OrchestratorView {
                options: options@,
                source_extension: source_extension@,
                phase: Phase::Resolving,
            }),
    {
        Orchestrator { options, source_extension, phase: Phase::Resolving }
    }

    /// An orchestrator for TypeScript sources: files that end in `.ts` are
    /// selected, and changes to files with the extension `ts` are acted on.
    pub fn typescript(separator: char, config: CompilerConfig) -> (orchestrator: Self)
        ensures
            orchestrator@ == (OrchestratorView {
                options: OptionsView {
                    entry: Seq::empty(),
                    separator,
                    pattern: ".ts"@,
                    config: config@,
                },
                source_extension: "ts"@,
                phase: Phase::Resolving,
            }),
    {
        Orchestrator::new(config::Option::typescript(separator, config), "ts".to_owned())
    }

    /// Takes one event and says what to do. A root that cannot be read ends
    /// the run before anything is dispatched; the watch loop starts only when
    /// the bulk pass is over, and ends only when the subscription does.
    pub fn step(&mut self, event: RunEvent) -> (action: RunAction)
        ensures
            final(self)@ == next_state(old(self)@, event@),
            action@ == action_of(old(self)@, event@),
    {
        match self.phase {
            Phase::Resolving => match event {
                RunEvent::RootResolved { entries } => {
                    self.options.entry = entries;
                    self.phase = Phase::BulkPass;
                    RunAction::Dispatch { jobs: self.options.resolve() }
                },
                RunEvent::RootFailed { description } => {
                    self.phase = Phase::Aborted;
                    RunAction::Abort { description }
                },
                _ => RunAction::Nothing,
            },
            Phase::BulkPass => match event {
                RunEvent::BulkFinished => {
                    self.phase = Phase::Watching;
                    RunAction::Subscribe
                },
                _ => RunAction::Nothing,
            },
            Phase::Watching => match event {
                RunEvent::Changed { event } => RunAction::DispatchEach {
                    job_sets: submissions(&event, &self.options, self.source_extension.as_str()),
                },
                RunEvent::WatchError { description } => RunAction::LogWatchError { description },
                RunEvent::SubscriptionEnded => {
                    self.phase = Phase::Stopped;
                    RunAction::Stop
                },
                _ => RunAction::Nothing,
            },
            _ => RunAction::Nothing,
        }
    }
}

/// A run that is over stays over: once aborted or stopped, no event changes
/// the state or leads to any action.
pub proof fn lemma_finished_run_does_nothing(state: OrchestratorView, events: Seq<RunEventView>)
    requires
        state.phase == Phase::Aborted || state.phase == Phase::Stopped,
    ensures
        state_after(state, events) == state,
        events.len() > 0 ==> last_action(state, events) is Nothing,
    decreases events.len(),
{
    if events.len() > 0 {
        lemma_finished_run_does_nothing(state, events.drop_last());
    }
}

/// A root that cannot be read is fatal: the run is aborted at once, and no
/// event that follows hands anything to the dispatcher.
pub proof fn lemma_unreadable_root_dispatches_nothing(
    state: OrchestratorView,
    description: Seq<char>,
    later: Seq<RunEventView>,
)
    requires
        state.phase == Phase::Resolving,
    ensures
        action_of(state, RunEventView::RootFailed { description }) == (RunActionView::Abort {
            description,
        }),
        next_state(state, RunEventView::RootFailed { description }).phase == Phase::Aborted,
        later.len() > 0 ==> !dispatches(
            last_action(next_state(state, RunEventView::RootFailed { description }), later),
        ),
{
    lemma_finished_run_does_nothing(
        next_state(state, RunEventView::RootFailed { description }),
        later,
    );
}

/// The phases follow one another in one order only: work is dispatched in
/// bulk only while resolving, the subscription starts only when the bulk pass
/// ends, and changes lead to work only while watching.
pub proof fn lemma_bulk_pass_precedes_watching(state: OrchestratorView, event: RunEventView)
    ensures
        action_of(state, event) is Dispatch ==> state.phase == Phase::Resolving && next_state(
            state,
            event,
        ).phase == Phase::BulkPass,
        action_of(state, event) is Subscribe ==> state.phase == Phase::BulkPass && next_state(
            state,
            event,
        ).phase == Phase::Watching,
        action_of(state, event) is DispatchEach ==> state.phase == Phase::Watching,
        next_state(state, event).phase == Phase::Watching ==> state.phase == Phase::Watching
            || state.phase == Phase::BulkPass,
        next_state(state, event).source_extension == state.source_extension,
        next_state(state, event).options.config == state.options.config,
{
}

} // verus!
