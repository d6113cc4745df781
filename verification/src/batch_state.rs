//! The batch coordinator as a transition system.
//!
//! A batch is a state and four kinds of event: the admitted files arrive, a
//! file is started, a result arrives, the batch is cancelled. This file
//! defines the states, what each event does to them, the invariant that all
//! reachable states share, and the laws that follow from it.

use vstd::prelude::*;

use crate::admission::{admitted, lemma_admission, FileCandidate, FileTask};
use crate::batch_config::BatchConfig;
use crate::progress::BatchProgress;
use crate::result::FileProcessingResult;

verus! {

/// Where a batch stands.
#[derive(Debug, Clone, Copy, PartialEq, Eq, Structural)]
pub enum BatchPhase {
    /// No files have been handed in yet.
    Idle,
    /// Files are being started and results collected.
    Running,
    /// Every admitted file has produced its result.
    Completed,
    /// The batch was cancelled: no file is started any more, results of the
    /// files in progress are still collected.
    Cancelled,
    /// A file failed while the batch was set to stop at the first failure: no
    /// file is started any more, results of the files in progress are still
    /// collected.
    Failed,
}

/// The number of successes among some results.
pub open spec fn successes(results: Seq<FileProcessingResult>) -> nat
    decreases results.len(),
{
    if results.len() == 0 {
        0
    } else {
        successes(results.drop_last()) + if results.last().success {
            1nat
        } else {
            0nat
        }
    }
}

/// The progress of a batch of `total` files before anything has happened.
pub open spec fn fresh_progress(total: nat) -> BatchProgress {
    BatchProgress {
        total_files: total as usize,
        processed_files: 0,
        failed_files: 0,
        current_file: None,
        elapsed_time: 0,
        estimated_remaining: None,
        bytes_processed: 0,
        nodes_processed: 0,
        vectors_generated: 0,
    }
}

/// The state of a batch.
pub struct BatchState {
    pub phase: BatchPhase,
    /// The number of files that may be in progress at once.
    pub capacity: nat,
    /// Whether the first failed file stops the batch.
    pub fail_fast: bool,
    /// The admitted files, in admission order.
    pub tasks: Seq<FileTask>,
    /// How many of the tasks have been started: those before this position.
    pub launched: nat,
    /// The tasks whose results have arrived, in the order of arrival.
    pub settled: Seq<nat>,
    /// The results, in the order of arrival: `results[k]` is that of task
    /// `settled[k]`.
    pub results: Seq<FileProcessingResult>,
    pub cancelled: bool,
    pub progress: BatchProgress,
}

/// What can happen to a batch.
pub enum BatchEvent {
    /// The admitted files arrive.
    Start(Seq<FileTask>),
    /// The next file in admission order is started.
    Launch,
    /// The result of a task arrives, so long after the batch started.
    Settle(nat, FileProcessingResult, u64),
    /// The batch is cancelled.
    Cancel,
}

impl BatchState {
    /// The state of a batch to which nothing has happened.
    pub open spec fn initial(capacity: nat, fail_fast: bool) -> BatchState {
        BatchState {
            phase: BatchPhase::Idle,
            capacity,
            fail_fast,
            tasks: Seq::empty(),
            launched: 0,
            settled: Seq::empty(),
            results: Seq::empty(),
            cancelled: false,
            progress: fresh_progress(0),
        }
    }

    /// The files in progress: started, result not yet in.
    pub open spec fn in_flight(self) -> nat {
        (self.launched - self.results.len()) as nat
    }

    /// Whether task `index` is in progress.
    pub open spec fn in_progress(self, index: nat) -> bool {
        index < self.launched && !self.settled.contains(index)
    }

    /// Whether nothing more will happen: every file has its result, or the
    /// batch was stopped and the files then in progress have theirs.
    pub open spec fn finished(self) -> bool {
        ||| self.phase == BatchPhase::Completed
        ||| (self.phase == BatchPhase::Cancelled || self.phase == BatchPhase::Failed)
            && self.in_flight() == 0
    }

    /// Files can be handed in once, and the list must fit the counters.
    pub open spec fn can_start(self, tasks: Seq<FileTask>) -> bool {
        self.phase == BatchPhase::Idle && tasks.len() <= usize::MAX
    }

    /// The state after the admitted files have arrived.
    pub open spec fn start(self, tasks: Seq<FileTask>) -> BatchState {
        BatchState {
            phase: if self.cancelled {
                BatchPhase::Cancelled
            } else if tasks.len() == 0 {
                BatchPhase::Completed
            } else {
                BatchPhase::Running
            },
            tasks,
            progress: fresh_progress(tasks.len()),
            ..self
        }
    }

    /// A file may be started while the batch runs, a permit is free and a
    /// file is left.
    pub open spec fn can_launch(self) -> bool {
        &&& self.phase == BatchPhase::Running
        &&& self.in_flight() < self.capacity
        &&& self.launched < self.tasks.len()
    }

    /// The state after the next file has been started.
    pub open spec fn launch(self) -> BatchState {
        BatchState {
            launched: self.launched + 1,
            progress: BatchProgress {
                current_file: Some(self.tasks[self.launched as int].path),
                ..self.progress
            },
            ..self
        }
    }

    /// A result is taken if its task is in progress, it names the task's file
    /// and size, and it is a success or carries an error, not both.
    pub open spec fn accepts(self, index: nat, result: FileProcessingResult) -> bool {
        &&& self.in_progress(index)
        &&& result.wf()
        &&& result.file_path@ == self.tasks[index as int].path@
        &&& result.file_size == self.tasks[index as int].size
    }

    /// The state after the result of task `index` has arrived.
    pub open spec fn settle(self, index: nat, result: FileProcessingResult, elapsed: u64) -> BatchState {
        let results = self.results.push(result);
        BatchState {
            phase: if self.phase == BatchPhase::Running {
                if !result.success && self.fail_fast {
                    BatchPhase::Failed
                } else if results.len() == self.tasks.len() {
                    BatchPhase::Completed
                } else {
                    BatchPhase::Running
                }
            } else {
                self.phase
            },
            settled: self.settled.push(index),
            results,
            progress: self.progress.after_result(
                result.success,
                result.file_size,
                result.nodes_count,
                result.vectors_count,
                elapsed,
            ),
            ..self
        }
    }

    /// The state after the batch has been cancelled.
    pub open spec fn cancel(self) -> BatchState {
        BatchState {
            phase: if self.phase == BatchPhase::Running {
                BatchPhase::Cancelled
            } else {
                self.phase
            },
            cancelled: true,
            ..self
        }
    }

    /// The state after one event. An event that cannot happen in a state
    /// leaves it as it is.
    pub open spec fn step(self, event: BatchEvent) -> BatchState {
        match event {
            BatchEvent::Start(tasks) => if self.can_start(tasks) {
                self.start(tasks)
            } else {
                self
            },
            BatchEvent::Launch => if self.can_launch() {
                self.launch()
            } else {
                self
            },
            BatchEvent::Settle(index, result, elapsed) => if self.accepts(index, result) {
                self.settle(index, result, elapsed)
            } else {
                self
            },
            BatchEvent::Cancel => self.cancel(),
        }
    }

    /// The state after a sequence of events.
    pub open spec fn run(self, events: Seq<BatchEvent>) -> BatchState
        decreases events.len(),
    {
        if events.len() == 0 {
            self
        } else {
            self.run(events.drop_last()).step(events.last())
        }
    }

    /// What holds of every state that a batch can reach.
    pub open spec fn inv(self) -> bool {
        &&& self.tasks.len() <= usize::MAX
        &&& self.launched <= self.tasks.len()
        &&& self.settled.len() == self.results.len()
        &&& self.results.len() <= self.launched
        &&& self.in_flight() <= self.capacity
        &&& self.settled.no_duplicates()
        &&& forall|k: int|
            0 <= k < self.settled.len() ==> {
                &&& #[trigger] self.settled[k] < self.launched
                &&& self.results[k].wf()
                &&& self.results[k].file_path@ == self.tasks[self.settled[k] as int].path@
                &&& self.results[k].file_size == self.tasks[self.settled[k] as int].size
            }
        &&& self.progress.total_files == self.tasks.len()
        &&& self.progress.processed_files == successes(self.results)
        &&& self.progress.processed_files + self.progress.failed_files == self.results.len()
        &&& self.progress.estimate_is_current()
        &&& match self.phase {
            BatchPhase::Idle => self.tasks.len() == 0 && self.launched == 0,
            BatchPhase::Running => {
                &&& !self.cancelled
                &&& self.results.len() < self.tasks.len()
                &&& self.fail_fast ==> successes(self.results) == self.results.len()
            },
            BatchPhase::Completed => self.results.len() == self.tasks.len(),
            BatchPhase::Cancelled => self.cancelled,
            BatchPhase::Failed => self.fail_fast && successes(self.results) < self.results.len(),
        }
    }
}

/// Successes never outnumber the results.
pub proof fn lemma_successes_bounded(results: Seq<FileProcessingResult>)
    ensures
        successes(results) <= results.len(),
    decreases results.len(),
{
    if results.len() > 0 {
        lemma_successes_bounded(results.drop_last());
    }
}

/// A list of distinct numbers below `bound` that lacks one of them is shorter
/// than `bound`.
pub proof fn lemma_distinct_below(list: Seq<nat>, bound: nat, missing: nat)
    requires
        list.no_duplicates(),
        forall|k: int| 0 <= k < list.len() ==> #[trigger] list[k] < bound,
        missing < bound,
        !list.contains(missing),
    ensures
        list.len() < bound,
{
    let all = Set::new(|n: nat| n < bound);
    let ints = vstd::set_lib::set_int_range(0, bound as int);
    vstd::set_lib::lemma_int_range(0, bound as int);
    let as_nats = ints.map(|i: int| i as nat);
    assert(all =~= as_nats) by {
        assert forall|n: nat| all.contains(n) implies as_nats.contains(n) by {
            assert(ints.contains(n as int));
        }
    }
    ints.lemma_map_finite(|i: int| i as nat);
    vstd::set_lib::lemma_map_size(ints, as_nats, |i: int| i as nat);
    let rest = all.remove(missing);
    assert(list.to_set() <= rest) by {
        assert forall|n: nat| list.to_set().contains(n) implies rest.contains(n) by {
            let k = choose|k: int| 0 <= k < list.len() && list[k] == n;
            assert(list[k] < bound);
        }
    }
    vstd::set_lib::lemma_len_subset(list.to_set(), rest);
    list.unique_seq_to_set();
}

/// Every event leaves the invariant in place.
pub proof fn lemma_step_preserves_inv(state: BatchState, event: BatchEvent)
    requires
        state.inv(),
    ensures
        state.step(event).inv(),
{
    let next = state.step(event);
    match event {
        BatchEvent::Start(tasks) => {
            if state.can_start(tasks) {
                assert(state.results.len() == 0);
                assert(state.results =~= Seq::empty());
            }
        },
        BatchEvent::Launch => {},
        BatchEvent::Settle(index, result, elapsed) => {
            if state.accepts(index, result) {
                lemma_distinct_below(state.settled, state.launched, index);
                lemma_successes_bounded(state.results);
                assert(next.results.drop_last() =~= state.results);
                assert(next.settled.no_duplicates());
                assert forall|k: int| 0 <= k < next.settled.len() implies {
                    &&& #[trigger] next.settled[k] < next.launched
                    &&& next.results[k].wf()
                    &&& next.results[k].file_path@ == next.tasks[next.settled[k] as int].path@
                    &&& next.results[k].file_size == next.tasks[next.settled[k] as int].size
                } by {
                    if k < state.settled.len() {
                        assert(next.settled[k] == state.settled[k]);
                    }
                }
            }
        },
        BatchEvent::Cancel => {},
    }
}

/// Every state that a batch reaches from a state with the invariant has it.
pub proof fn lemma_run_preserves_inv(state: BatchState, events: Seq<BatchEvent>)
    requires
        state.inv(),
    ensures
        state.run(events).inv(),
    decreases events.len(),
{
    if events.len() > 0 {
        lemma_run_preserves_inv(state, events.drop_last());
        lemma_step_preserves_inv(state.run(events.drop_last()), events.last());
    }
}

/// Bounded concurrency: whatever happens to a batch, the files in progress
/// never outnumber the permits.
pub proof fn law_bounded_concurrency(capacity: nat, fail_fast: bool, events: Seq<BatchEvent>)
    ensures
        BatchState::initial(capacity, fail_fast).run(events).in_flight() <= capacity,
        BatchState::initial(capacity, fail_fast).run(events).capacity == capacity,
        BatchState::initial(capacity, fail_fast).run(events).inv(),
{
    let start = BatchState::initial(capacity, fail_fast);
    lemma_run_preserves_inv(start, events);
    lemma_run_keeps_settings(start, events);
}

/// No event changes the number of permits or the failure policy of a batch.
pub proof fn lemma_run_keeps_settings(state: BatchState, events: Seq<BatchEvent>)
    ensures
        state.run(events).capacity == state.capacity,
        state.run(events).fail_fast == state.fail_fast,
    decreases events.len(),
{
    if events.len() > 0 {
        lemma_run_keeps_settings(state, events.drop_last());
    }
}

/// Conservation: a batch that has completed holds one result for each
/// admitted file, each file once, and its counters add up to the total.
pub proof fn law_conservation(state: BatchState)
    requires
        state.inv(),
        state.phase == BatchPhase::Completed,
    ensures
        state.results.len() == state.tasks.len(),
        state.results.len() == state.progress.total_files,
        state.progress.processed_files + state.progress.failed_files
            == state.progress.total_files,
        state.in_flight() == 0,
        state.launched == state.tasks.len(),
        forall|index: nat| index < state.tasks.len() ==> state.settled.contains(index),
        state.finished(),
{
    assert forall|index: nat| index < state.tasks.len() implies state.settled.contains(
        index,
    ) by {
        if !state.settled.contains(index) {
            lemma_distinct_below(state.settled, state.launched, index);
        }
    }
}

/// A batch that runs is never stuck: a file can be started or a result is
/// awaited, unless the batch has no permits at all.
pub proof fn law_running_batch_can_move(state: BatchState)
    requires
        state.inv(),
        state.phase == BatchPhase::Running,
        state.capacity > 0,
    ensures
        state.can_launch() || state.in_flight() > 0,
{
}

/// Percentage: a completed batch stands at 100 percent, an empty one too, and
/// otherwise the percentage is a hundred times the results over the total,
/// rounded down.
pub proof fn law_percentage(state: BatchState)
    requires
        state.inv(),
    ensures
        state.phase == BatchPhase::Completed ==> state.progress.percent() == 100,
        state.tasks.len() == 0 ==> state.progress.percent() == 100,
        state.tasks.len() > 0 ==> state.progress.percent() == 100 * (state.results.len() as int)
            / (state.tasks.len() as int),
        state.progress.percent() == 100 <==> state.results.len() == state.tasks.len(),
{
    let c = state.results.len() as int;
    let t = state.tasks.len() as int;
    if t > 0 {
        assert(100 * c / t <= 100) by (nonlinear_arith)
            requires
                0 <= c <= t,
                t > 0,
        ;
        assert(c == t ==> 100 * c / t == 100) by (nonlinear_arith)
            requires
                0 <= c <= t,
                t > 0,
        ;
        assert(c < t ==> 100 * c / t < 100) by (nonlinear_arith)
            requires
                0 <= c <= t,
                t > 0,
        ;
    }
}

/// Admission filtering: in a batch over the files admitted from some
/// candidates, the total is the number of admitted files, no result is of a
/// file larger than the limit, and a candidate that is larger than the limit is
/// no task's file.
pub proof fn law_admission_filtering(
    candidates: Seq<FileCandidate>,
    config: BatchConfig,
    state: BatchState,
)
    requires
        candidates.len() <= usize::MAX,
        state.inv(),
        state.tasks == admitted(candidates, config),
    ensures
        state.progress.total_files == admitted(candidates, config).len(),
        forall|k: int|
            0 <= k < state.results.len() ==> (#[trigger] state.results[k]).file_size
                <= config.max_file_size,
        forall|i: int|
            0 <= i < state.tasks.len() ==> (#[trigger] state.tasks[i]).size
                <= config.max_file_size,
{
    let origin = lemma_admission(candidates, config);
    assert forall|k: int| 0 <= k < state.results.len() implies (#[trigger] state.results[k]).file_size
        <= config.max_file_size by {
        assert(state.settled[k] < state.launched);
        assert(origin[state.settled[k] as int] >= 0);
    }
    assert forall|i: int| 0 <= i < state.tasks.len() implies (#[trigger] state.tasks[i]).size
        <= config.max_file_size by {
        assert(origin[i] >= 0);
    }
}

/// Error isolation: in a batch that goes on after errors, a failed file
/// changes nothing but its own result and the failure count. The batch never
/// stops for it, the results that were in stay as they were, and the result is
/// counted as a failure.
pub proof fn law_error_isolation(state: BatchState, index: nat, result: FileProcessingResult, elapsed: u64)
    requires
        state.inv(),
        !state.fail_fast,
        state.accepts(index, result),
        !result.success,
    ensures
        state.settle(index, result, elapsed).phase != BatchPhase::Failed,
        state.settle(index, result, elapsed).results.len() == state.results.len() + 1,
        state.settle(index, result, elapsed).results.last() == result,
        forall|k: int|
            0 <= k < state.results.len() ==> state.settle(index, result, elapsed).results[k]
                == state.results[k],
        state.settle(index, result, elapsed).progress.failed_files == state.progress.failed_files
            + 1,
        state.settle(index, result, elapsed).progress.processed_files
            == state.progress.processed_files,
        state.settle(index, result, elapsed).launched == state.launched,
        state.settle(index, result, elapsed).tasks == state.tasks,
{
    lemma_distinct_below(state.settled, state.launched, index);
}

/// The counters of a batch are the counts of its results: the processed files
/// are the successes, the failed files the rest.
pub proof fn law_counters_match_results(state: BatchState)
    requires
        state.inv(),
    ensures
        state.progress.processed_files == successes(state.results),
        state.progress.failed_files == state.results.len() - successes(state.results),
        state.progress.processed_files + state.progress.failed_files <= state.progress.total_files,
{
    lemma_successes_bounded(state.results);
}

/// No result is lost or changed: whatever happens to a batch, the results it
/// holds stay, in their order, each with the task it belongs to; and no task
/// has two results.
pub proof fn law_results_are_kept(state: BatchState, events: Seq<BatchEvent>)
    requires
        state.inv(),
    ensures
        state.results.len() <= state.run(events).results.len(),
        state.run(events).results.subrange(0, state.results.len() as int) == state.results,
        state.run(events).settled.subrange(0, state.settled.len() as int) == state.settled,
        state.run(events).settled.no_duplicates(),
        state.run(events).results.len() == state.run(events).settled.len(),
    decreases events.len(),
{
    if events.len() == 0 {
        assert(state.results.subrange(0, state.results.len() as int) =~= state.results);
        assert(state.settled.subrange(0, state.settled.len() as int) =~= state.settled);
    } else {
        let before = state.run(events.drop_last());
        law_results_are_kept(state, events.drop_last());
        lemma_run_preserves_inv(state, events.drop_last());
        lemma_step_preserves_inv(before, events.last());
        let after = before.step(events.last());
        assert(after.results.subrange(0, state.results.len() as int) =~= before.results.subrange(
            0,
            state.results.len() as int,
        ));
        assert(after.settled.subrange(0, state.settled.len() as int) =~= before.settled.subrange(
            0,
            state.settled.len() as int,
        ));
    }
}

/// Cancellation containment: once a batch is cancelled no further file is
/// started, whatever happens. All later results are of files that were in
/// progress at that moment, so there are at most as many as there are permits;
/// the results that were in stay, in their order; and the batch stays
/// cancelled.
pub proof fn law_cancellation_containment(state: BatchState, events: Seq<BatchEvent>)
    requires
        state.inv(),
        state.cancelled,
    ensures
        state.run(events).cancelled,
        state.run(events).launched == state.launched,
        state.run(events).results.len() <= state.launched,
        state.run(events).results.len() <= state.results.len() + state.capacity,
        state.results.len() <= state.run(events).results.len(),
        state.run(events).results.subrange(0, state.results.len() as int) == state.results,
        state.run(events).settled.subrange(0, state.settled.len() as int) == state.settled,
        state.run(events).settled.no_duplicates(),
    decreases events.len(),
{
    if events.len() == 0 {
        assert(state.results.subrange(0, state.results.len() as int) =~= state.results);
        assert(state.settled.subrange(0, state.settled.len() as int) =~= state.settled);
    } else {
        let before = state.run(events.drop_last());
        law_cancellation_containment(state, events.drop_last());
        lemma_run_preserves_inv(state, events.drop_last());
        lemma_step_preserves_inv(before, events.last());
        lemma_run_keeps_settings(state, events.drop_last());
        let after = before.step(events.last());
        assert(after.results.subrange(0, state.results.len() as int) =~= before.results.subrange(
            0,
            state.results.len() as int,
        ));
        assert(after.settled.subrange(0, state.settled.len() as int) =~= before.settled.subrange(
            0,
            state.settled.len() as int,
        ));
    }
}

} // verus!
