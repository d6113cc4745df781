//! The coordinator of a batch.
//!
//! `BatchProcessor` decides; its caller acts. The caller hands in the
//! candidate files, asks for the next file to start whenever it can run one,
//! reports each result as it arrives, and passes on a request to cancel. The
//! processor keeps the files in progress within the permitted number, counts
//! progress, and hands out the results in the order of their arrival.

use vstd::prelude::*;
use vstd::string::*;

use crate::admission::{admit_files, admitted, FileCandidate, FileTask};
use crate::batch_config::BatchConfig;
use crate::batch_state::{
    lemma_distinct_below, lemma_step_preserves_inv, successes, BatchEvent, BatchPhase, BatchState,
};
use crate::cancellation::CancellationToken;
use crate::error::{EngineError, ErrorKind};
use crate::limiter::ConcurrencyLimiter;
use crate::progress::{least, BatchProgress, ProgressTracker};
use crate::result::FileProcessingResult;
use crate::text::same_text;

verus! {

/// What a batch returns: the results in the order of their arrival, and the
/// progress at the end.
#[derive(Debug)]
pub struct BatchResult {
    pub results: Vec<FileProcessingResult>,
    pub progress: BatchProgress,
}

/// The position of the first failure among some results, or their number
/// if none failed.
pub open spec fn first_failure(results: Seq<FileProcessingResult>) -> int
    decreases results.len(),
{
    if results.len() == 0 {
        0
    } else if first_failure(results.drop_last()) < results.len() - 1 {
        first_failure(results.drop_last())
    } else if results.last().success {
        results.len() as int
    } else {
        results.len() - 1
    }
}

/// The first failure is a failure, and all results before it are successes.
pub proof fn lemma_first_failure(results: Seq<FileProcessingResult>)
    ensures
        0 <= first_failure(results) <= results.len(),
        first_failure(results) < results.len() ==> !results[first_failure(results)].success,
        forall|k: int| 0 <= k < first_failure(results) ==> (#[trigger] results[k]).success,
        first_failure(results) == results.len() <==> successes(results) == results.len(),
    decreases results.len(),
{
    if results.len() > 0 {
        lemma_first_failure(results.drop_last());
        crate::batch_state::lemma_successes_bounded(results.drop_last());
        assert forall|k: int| 0 <= k < first_failure(results) implies (#[trigger] results[k]).success by {
            if k < results.len() - 1 {
                assert(results.drop_last()[k] == results[k]);
            }
        }
        if first_failure(results.drop_last()) < results.len() - 1 {
            assert(results.drop_last()[first_failure(results.drop_last())] == results[first_failure(
                results.drop_last(),
            )]);
        }
    }
}

/// The coordinator of one batch.
pub struct BatchProcessor {
    config: BatchConfig,
    phase: BatchPhase,
    tasks: Vec<FileTask>,
    launched: usize,
    done: Vec<bool>,
    settled: Ghost<Seq<nat>>,
    results: Vec<FileProcessingResult>,
    tracker: ProgressTracker,
    limiter: ConcurrencyLimiter,
    cancellation_token: CancellationToken,
}

impl View for BatchProcessor {
    type V = BatchState;

    closed spec fn view(&self) -> BatchState {
        BatchState {
            phase: self.phase,
            capacity: self.config.max_concurrent_files as nat,
            fail_fast: !self.config.continue_on_error,
            tasks: self.tasks@,
            launched: self.launched as nat,
            settled: self.settled@,
            results: self.results@,
            cancelled: self.cancellation_token@,
            progress: self.tracker@,
        }
    }
}

fn misuse(reason: &str) -> (error: EngineError)
    ensures
        error is ValidationError,
        error->ValidationError_0@ == reason@,
        error.spec_kind() == ErrorKind::Coordination,
{
    EngineError::ValidationError(String::from_str(reason))
}

impl BatchProcessor {
    /// The settings of the batch.
    pub closed spec fn settings(&self) -> BatchConfig {
        self.config
    }

    /// The processor's parts agree with each other, and its state is one that
    /// a batch can reach.
    pub closed spec fn wf(&self) -> bool {
        &&& self@.inv()
        &&& self.limiter.capacity() == self.config.max_concurrent_files
        &&& self.limiter.in_flight() == self@.in_flight()
        &&& self.done@.len() == self.tasks@.len()
        &&& forall|i: int|
            0 <= i < self.done@.len() ==> (#[trigger] self.done@[i] <==> self.settled@.contains(
                i as nat,
            ))
    }

    /// A well-formed processor is in a state with the batch invariant, whose
    /// permits and failure policy are those of its settings.
    pub proof fn lemma_state(&self)
        requires
            self.wf(),
        ensures
            self@.inv(),
            self@.capacity == self.settings().max_concurrent_files,
            self@.fail_fast == !self.settings().continue_on_error,
            self@.in_flight() <= self.settings().max_concurrent_files,
    {
    }

    /// A processor for one batch under `config`, with nothing handed in yet.
    pub fn new(config: BatchConfig) -> (processor: Self)
        ensures
            processor.wf(),
            processor.settings() == config,
            processor@ == BatchState::initial(
                config.max_concurrent_files as nat,
                !config.continue_on_error,
            ),
    {
        let limiter = ConcurrencyLimiter::new(config.max_concurrent_files);
        let processor = BatchProcessor {
            config,
            phase: BatchPhase::Idle,
            tasks: Vec::new(),
            launched: 0,
            done: Vec::new(),
            settled: Ghost(Seq::empty()),
            results: Vec::new(),
            tracker: ProgressTracker::new(0),
            limiter,
            cancellation_token: CancellationToken::new(),
        };
        proof {
            assert(processor.tasks@ =~= Seq::empty());
            assert(processor.results@ =~= Seq::empty());
            assert(processor@.progress == crate::batch_state::fresh_progress(0));
            assert(processor@ == BatchState::initial(
                config.max_concurrent_files as nat,
                !config.continue_on_error,
            ));
        }
        processor
    }

    /// Hands in the candidate files. They are filtered by the admission rule
    /// and become the tasks of the batch, whose total they fix. The batch then
    /// runs, or is complete at once if no file was admitted, or is cancelled at
    /// once if it was cancelled beforehand. Returns the number of admitted
    /// files; a second call is refused.
    pub fn start(&mut self, candidates: Vec<FileCandidate>) -> (outcome: Result<usize, EngineError>)
        requires
            old(self).wf(),
        ensures
            final(self).wf(),
            final(self).settings() == old(self).settings(),
            match outcome {
                Ok(total) => {
                    &&& old(self)@.phase == BatchPhase::Idle
                    &&& final(self)@ == old(self)@.start(admitted(candidates@, old(self).settings()))
                    &&& total == admitted(candidates@, old(self).settings()).len()
                },
                Err(error) => {
                    &&& old(self)@.phase != BatchPhase::Idle
                    &&& final(self)@ == old(self)@
                    &&& error.spec_kind() == ErrorKind::Coordination
                },
            },
    {
        if self.phase != BatchPhase::Idle {
            return Err(misuse("the batch has already been started"));
        }
        let tasks = admit_files(candidates, &self.config);
        let total: usize = tasks.len();
        let mut done: Vec<bool> = Vec::new();
        let mut i: usize = 0;
        while i < total
            invariant
                i <= total,
                done@.len() == i,
                forall|j: int| 0 <= j < i ==> !(#[trigger] done@[j]),
            decreases total - i,
        {
            done.push(false);
            i = i + 1;
        }
        proof {
            assert(old(self)@.results.len() == 0);
            assert(old(self)@.settled =~= Seq::empty());
            lemma_step_preserves_inv(old(self)@, BatchEvent::Start(tasks@));
        }
        self.tracker = ProgressTracker::new(total);
        self.tasks = tasks;
        self.done = done;
        self.phase = if self.cancellation_token.is_cancelled() {
            BatchPhase::Cancelled
        } else if total == 0 {
            BatchPhase::Completed
        } else {
            BatchPhase::Running
        };
        proof {
            assert(self@.progress == crate::batch_state::fresh_progress(total as nat));
            assert(self@ == old(self)@.start(admitted(candidates@, old(self).settings())));
        }
        Ok(total)
    }

    /// Takes a permit and hands out the next file to start, in admission
    /// order. There is none while the batch does not run (it has not started,
    /// has ended, or was stopped), while every permit is taken, and when every
    /// file has been started. This is the one place where a cancellation keeps
    /// a file from starting.
    pub fn next_task(&mut self) -> (next: Option<FileTask>)
        requires
            old(self).wf(),
        ensures
            final(self).wf(),
            final(self).settings() == old(self).settings(),
            match next {
                Some(task) => {
                    &&& old(self)@.can_launch()
                    &&& final(self)@ == old(self)@.launch()
                    &&& task == old(self)@.tasks[old(self)@.launched as int]
                },
                None => !old(self)@.can_launch() && final(self)@ == old(self)@,
            },
    {
        if self.phase != BatchPhase::Running || self.launched >= self.tasks.len() {
            return None;
        }
        if !self.limiter.try_acquire() {
            return None;
        }
        let task = self.tasks[self.launched].duplicate();
        self.tracker.set_current_file(task.path.clone());
        self.launched = self.launched + 1;
        proof {
            lemma_step_preserves_inv(old(self)@, BatchEvent::Launch);
            assert(self@ == old(self)@.launch());
        }
        Some(task)
    }

    /// Takes in the result of task `index`, `elapsed` nanoseconds after the
    /// batch started, and gives back the task's permit. The result is appended
    /// to the results and counted. The batch completes with the last result;
    /// it fails with the first failed file if it is set to stop at errors.
    /// A result is refused, and changes nothing, if the task is not in
    /// progress, if the result names another file or size than the task's, or
    /// if it is not either a success or an error.
    pub fn record_result(&mut self, index: usize, result: FileProcessingResult, elapsed: u64) -> (outcome:
        Result<(), EngineError>)
        requires
            old(self).wf(),
        ensures
            final(self).wf(),
            final(self).settings() == old(self).settings(),
            match outcome {
                Ok(()) => {
                    &&& old(self)@.accepts(index as nat, result)
                    &&& final(self)@ == old(self)@.settle(index as nat, result, elapsed)
                },
                Err(error) => {
                    &&& !old(self)@.accepts(index as nat, result)
                    &&& final(self)@ == old(self)@
                    &&& error.spec_kind() == ErrorKind::Coordination
                },
            },
    {
        if index >= self.launched || self.done[index] {
            return Err(misuse("the result is of a file that is not in progress"));
        }
        if !result.is_well_formed() || result.file_size != self.tasks[index].size || !same_text(
            result.file_path.as_str(),
            self.tasks[index].path.as_str(),
        ) {
            return Err(misuse("the result does not fit the file it is reported for"));
        }
        proof {
            lemma_distinct_below(self.settled@, self.launched as nat, index as nat);
            lemma_step_preserves_inv(old(self)@, BatchEvent::Settle(index as nat, result, elapsed));
        }
        let failed = !result.success;
        self.limiter.release();
        self.tracker.record(&result, elapsed);
        self.done[index] = true;
        self.results.push(result);
        self.settled = Ghost(self.settled@.push(index as nat));
        if self.phase == BatchPhase::Running {
            if failed && !self.config.continue_on_error {
                self.phase = BatchPhase::Failed;
            } else if self.results.len() == self.tasks.len() {
                self.phase = BatchPhase::Completed;
            }
        }
        proof {
            assert(self@ == old(self)@.settle(index as nat, result, elapsed));
            assert forall|i: int| 0 <= i < self.done@.len() implies (#[trigger] self.done@[i]
                <==> self.settled@.contains(i as nat)) by {
                let before = old(self).settled@;
                if i == index {
                    assert(self.settled@[before.len() as int] == index as nat);
                } else if before.contains(i as nat) {
                    let k = choose|k: int| 0 <= k < before.len() && before[k] == i as nat;
                    assert(self.settled@[k] == i as nat);
                } else if self.settled@.contains(i as nat) {
                    let k = choose|k: int| 0 <= k < self.settled@.len() && self.settled@[k] == i as nat;
                    assert(before[k] == i as nat);
                }
            }
        }
        Ok(())
    }

    /// Cancels the batch: no further file is started. Files in progress run
    /// to their end, and their results are still taken in.
    pub fn cancel(&mut self)
        requires
            old(self).wf(),
        ensures
            final(self).wf(),
            final(self).settings() == old(self).settings(),
            final(self)@ == old(self)@.cancel(),
    {
        self.cancellation_token.cancel();
        if self.phase == BatchPhase::Running {
            self.phase = BatchPhase::Cancelled;
        }
        proof {
            lemma_step_preserves_inv(old(self)@, BatchEvent::Cancel);
            assert(self@ == old(self)@.cancel());
        }
    }

    /// Whether the batch has been cancelled.
    pub fn is_cancelled(&self) -> (cancelled: bool)
        ensures
            cancelled == self@.cancelled,
    {
        self.cancellation_token.is_cancelled()
    }

    /// Where the batch stands.
    pub fn phase(&self) -> (phase: BatchPhase)
        ensures
            phase == self@.phase,
    {
        self.phase
    }

    /// The number of files in progress, which never exceeds the permitted
    /// number.
    pub fn in_flight(&self) -> (count: usize)
        requires
            self.wf(),
        ensures
            count == self@.in_flight(),
            count <= self.settings().max_concurrent_files,
    {
        self.limiter.held()
    }

    /// Whether nothing more will happen: every file has its result, or the
    /// batch was stopped and no file is in progress any more.
    pub fn is_finished(&self) -> (finished: bool)
        requires
            self.wf(),
        ensures
            finished == self@.finished(),
    {
        match self.phase {
            BatchPhase::Completed => true,
            BatchPhase::Cancelled | BatchPhase::Failed => self.limiter.held() == 0,
            _ => false,
        }
    }

    /// The progress as it stands.
    pub fn get_progress(&self) -> (progress: BatchProgress)
        requires
            self.wf(),
        ensures
            progress == self@.progress,
            progress.wf(),
            progress.estimate_is_current(),
    {
        self.tracker.snapshot()
    }

    /// What the progress reporter does at a tick: it reports the progress
    /// while the batch runs, and stops once the batch was cancelled, has
    /// failed or has completed.
    pub fn tick(&self) -> (report: Option<BatchProgress>)
        requires
            self.wf(),
        ensures
            report is Some <==> self@.phase == BatchPhase::Running,
            report matches Some(progress) ==> progress == self@.progress,
    {
        if self.phase == BatchPhase::Running {
            Some(self.tracker.snapshot())
        } else {
            None
        }
    }

    /// A rough estimate of the memory in use, in bytes: the bytes processed
    /// plus 1024 for each node, or the largest 64-bit number if that is less.
    pub fn get_memory_usage(&self) -> (bytes: u64)
        requires
            self.wf(),
        ensures
            bytes == least(
                self@.progress.bytes_processed + self@.progress.nodes_processed * 1024,
                u64::MAX as int,
            ),
    {
        let progress = self.tracker.snapshot();
        let total: u128 = progress.bytes_processed as u128 + (progress.nodes_processed as u128)
            * 1024;
        if total > u64::MAX as u128 {
            u64::MAX
        } else {
            total as u64
        }
    }

    /// Ends the batch. A batch that completed or was cancelled, and has no
    /// file in progress, gives its results in the order of their arrival and
    /// its final progress; failed files are among the results and raise
    /// nothing. A batch that stopped at its first failure gives that
    /// failure's error. A batch that has not finished gives an error of its
    /// own.
    pub fn finish(self) -> (outcome: Result<BatchResult, EngineError>)
        requires
            self.wf(),
        ensures
            match outcome {
                Ok(batch) => {
                    &&& self@.finished()
                    &&& self@.phase != BatchPhase::Failed
                    &&& batch.results@ == self@.results
                    &&& batch.progress == self@.progress
                },
                Err(error) => if self@.finished() {
                    &&& self@.phase == BatchPhase::Failed
                    &&& 0 <= first_failure(self@.results) < self@.results.len()
                    &&& Some(error) == self@.results[first_failure(self@.results)].error
                } else {
                    error.spec_kind() == ErrorKind::Coordination
                },
            },
    {
        let ghost state = self@;
        if !self.is_finished() {
            return Err(misuse("the batch has not finished"));
        }
        let progress = self.tracker.snapshot();
        let mut results = self.results;
        if self.phase != BatchPhase::Failed {
            return Ok(BatchResult { results, progress });
        }
        proof {
            lemma_first_failure(results@);
            let first = first_failure(results@);
            assert(state.settled[first] < state.launched);
            assert(results@[first].wf());
        }
        let mut i: usize = 0;
        while i < results.len() && results[i].success
            invariant
                i <= results.len(),
                i <= first_failure(results@),
                first_failure(results@) < results.len(),
                !results@[first_failure(results@)].success,
                forall|k: int| 0 <= k < first_failure(results@) ==> (#[trigger] results@[k]).success,
            decreases results.len() - i,
        {
            i = i + 1;
        }
        let trigger = results.remove(i);
        match trigger.error {
            Some(error) => Err(error),
            None => Err(misuse("the failed file carries no error")),
        }
    }
}

} // verus!
