//! Progress counters of a batch and the figures derived from them.

use vstd::prelude::*;
use vstd::string::*;

use crate::result::FileProcessingResult;

verus! {

/// The smaller of two numbers.
pub open spec fn least(a: int, b: int) -> int {
    if a <= b {
        a
    } else {
        b
    }
}

/// Estimated time left once `completed` of `total` files took `elapsed`:
/// the average time per completed file, times the files that remain. There is
/// no estimate before the first file has completed, nor once none remains.
pub open spec fn remaining_estimate(elapsed: nat, completed: nat, total: nat) -> Option<nat> {
    if completed == 0 || completed >= total {
        None
    } else {
        Some((elapsed / completed) * ((total - completed) as nat))
    }
}

/// An estimate from a 64-bit elapsed time and machine-sized counts never
/// exceeds 128 bits, so the estimate a progress holds is the exact one.
pub proof fn law_estimate_fits(elapsed: u64, completed: usize, total: usize)
    ensures
        remaining_estimate(elapsed as nat, completed as nat, total as nat) matches Some(estimate)
            ==> estimate <= u128::MAX,
{
    if completed != 0 && completed < total {
        let average = elapsed as nat / completed as nat;
        let left = (total - completed) as nat;
        assert(average <= elapsed) by (nonlinear_arith)
            requires
                average == elapsed as nat / completed as nat,
                completed > 0,
        ;
        assert(average * left <= u128::MAX) by (nonlinear_arith)
            requires
                average <= u64::MAX,
                left <= u64::MAX,
        ;
    }
}

/// Counting a completed file keeps a progress well-formed: one more file
/// has completed, on the side its outcome says, the total stays, and the
/// estimate is the one the new figures give.
pub proof fn law_recording_counts_one(
    progress: BatchProgress,
    success: bool,
    file_size: u64,
    nodes: usize,
    vectors: usize,
    elapsed: u64,
)
    requires
        progress.completed() < progress.total_files,
    ensures
        progress.after_result(success, file_size, nodes, vectors, elapsed).wf(),
        progress.after_result(success, file_size, nodes, vectors, elapsed).estimate_is_current(),
        progress.after_result(success, file_size, nodes, vectors, elapsed).completed()
            == progress.completed() + 1,
        progress.after_result(success, file_size, nodes, vectors, elapsed).total_files
            == progress.total_files,
        progress.after_result(success, file_size, nodes, vectors, elapsed).processed_files
            == progress.processed_files + if success {
            1int
        } else {
            0int
        },
        progress.after_result(success, file_size, nodes, vectors, elapsed).failed_files
            == progress.failed_files + if success {
            0int
        } else {
            1int
        },
        progress.after_result(success, file_size, nodes, vectors, elapsed).bytes_processed
            >= progress.bytes_processed,
{
}

/// A snapshot of how far a batch has come.
#[derive(Debug)]
pub struct BatchProgress {
    pub total_files: usize,
    /// Files that completed successfully.
    pub processed_files: usize,
    /// Files that completed with an error.
    pub failed_files: usize,
    /// The file most recently started. Advisory only.
    pub current_file: Option<String>,
    /// Time since the batch started, in nanoseconds.
    pub elapsed_time: u64,
    /// Estimated time until the batch completes, in nanoseconds.
    pub estimated_remaining: Option<u128>,
    pub bytes_processed: u64,
    pub nodes_processed: usize,
    pub vectors_generated: usize,
}

impl BatchProgress {
    /// Files that have completed, successfully or not.
    pub open spec fn completed(&self) -> nat {
        (self.processed_files + self.failed_files) as nat
    }

    /// No more files have completed than the batch holds.
    pub open spec fn wf(&self) -> bool {
        self.completed() <= self.total_files
    }

    /// The estimate is the one that the counters and the elapsed time give.
    pub open spec fn estimate_is_current(&self) -> bool {
        match remaining_estimate(self.elapsed_time as nat, self.completed(), self.total_files as nat) {
            Some(estimate) => self.estimated_remaining == Some(estimate as u128),
            None => self.estimated_remaining is None,
        }
    }

    /// The share of completed files in percent, rounded down.
    pub open spec fn percent(&self) -> nat {
        if self.total_files == 0 {
            100
        } else {
            least(100 * (self.completed() as int) / (self.total_files as int), 100) as nat
        }
    }

    /// What this progress becomes when one more file completes.
    pub open spec fn after_result(
        &self,
        success: bool,
        file_size: u64,
        nodes: usize,
        vectors: usize,
        elapsed: u64,
    ) -> BatchProgress {
        let processed = if success {
            self.processed_files + 1
        } else {
            self.processed_files as int
        };
        let failed = if success {
            self.failed_files as int
        } else {
            self.failed_files + 1
        };
        BatchProgress {
            total_files: self.total_files,
            processed_files: processed as usize,
            failed_files: failed as usize,
            current_file: self.current_file,
            elapsed_time: elapsed,
            estimated_remaining: match remaining_estimate(
                elapsed as nat,
                (processed + failed) as nat,
                self.total_files as nat,
            ) {
                Some(estimate) => Some(estimate as u128),
                None => None,
            },
            bytes_processed: least(self.bytes_processed + file_size, u64::MAX as int) as u64,
            nodes_processed: least(self.nodes_processed + nodes, usize::MAX as int) as usize,
            vectors_generated: least(self.vectors_generated + vectors, usize::MAX as int) as usize,
        }
    }

    /// The progress of a batch of `total_files` files of which none has
    /// completed.
    pub fn new(total_files: usize) -> (progress: Self)
        ensures
            progress.total_files == total_files,
            progress.processed_files == 0,
            progress.failed_files == 0,
            progress.current_file is None,
            progress.elapsed_time == 0,
            progress.estimated_remaining is None,
            progress.bytes_processed == 0,
            progress.nodes_processed == 0,
            progress.vectors_generated == 0,
            progress.wf(),
            progress.estimate_is_current(),
    {
        BatchProgress {
            total_files,
            processed_files: 0,
            failed_files: 0,
            current_file: None,
            elapsed_time: 0,
            estimated_remaining: None,
            bytes_processed: 0,
            nodes_processed: 0,
            vectors_generated: 0,
        }
    }

    /// Whether every file of the batch has completed.
    pub fn is_complete(&self) -> (complete: bool)
        ensures
            complete == (self.completed() >= self.total_files),
    {
        match self.processed_files.checked_add(self.failed_files) {
            Some(completed) => completed >= self.total_files,
            None => true,
        }
    }

    /// The share of completed files in whole percent: 100 for an empty batch,
    /// else a hundred times the completed files over the total, rounded down
    /// and never above 100.
    pub fn completion_percent(&self) -> (percent: u64)
        ensures
            percent == self.percent(),
            percent <= 100,
            self.total_files == 0 ==> percent == 100,
            self.wf() && self.total_files > 0 ==> percent == 100 * (self.completed() as int) / (
            self.total_files as int),
            self.wf() ==> (percent == 100 <==> self.completed() >= self.total_files),
    {
        if self.total_files == 0 {
            return 100;
        }
        let completed: u128 = self.processed_files as u128 + self.failed_files as u128;
        let total: u128 = self.total_files as u128;
        let share: u128 = 100 * completed / total;
        proof {
            if self.wf() {
                let c = self.completed() as int;
                let t = self.total_files as int;
                assert(100 * c / t <= 100) by (nonlinear_arith)
                    requires
                        0 <= c <= t,
                        t > 0,
                ;
                assert(c >= t ==> 100 * c / t == 100) by (nonlinear_arith)
                    requires
                        0 <= c <= t,
                        t > 0,
                ;
                assert(c < t ==> 100 * c / t < 100) by (nonlinear_arith)
                    requires
                        0 <= c <= t,
                        t > 0,
                ;
            }
        }
        if share >= 100 {
            100
        } else {
            share as u64
        }
    }

    /// A copy of this snapshot.
    pub fn duplicate(&self) -> (copy: Self)
        ensures
            copy == *self,
    {
        let current_file = match &self.current_file {
            Some(path) => Some(path.clone()),
            None => None,
        };
        BatchProgress {
            total_files: self.total_files,
            processed_files: self.processed_files,
            failed_files: self.failed_files,
            current_file,
            elapsed_time: self.elapsed_time,
            estimated_remaining: self.estimated_remaining,
            bytes_processed: self.bytes_processed,
            nodes_processed: self.nodes_processed,
            vectors_generated: self.vectors_generated,
        }
    }
}

/// The one place where the progress of a batch is changed. It is owned by the
/// coordinator; readers get snapshots.
pub struct ProgressTracker {
    progress: BatchProgress,
}

impl View for ProgressTracker {
    type V = BatchProgress;

    closed spec fn view(&self) -> BatchProgress {
        self.progress
    }
}

impl ProgressTracker {
    #[verifier::type_invariant]
    spec fn consistent(&self) -> bool {
        self.progress.wf() && self.progress.estimate_is_current()
    }

    /// A tracker for a batch of `total_files` files.
    pub fn new(total_files: usize) -> (tracker: Self)
        ensures
            tracker@.total_files == total_files,
            tracker@.processed_files == 0,
            tracker@.failed_files == 0,
            tracker@.current_file is None,
            tracker@.elapsed_time == 0,
            tracker@.estimated_remaining is None,
            tracker@.bytes_processed == 0,
            tracker@.nodes_processed == 0,
            tracker@.vectors_generated == 0,
    {
        ProgressTracker { progress: BatchProgress::new(total_files) }
    }

    /// Whether a further result can be recorded.
    pub fn has_room(&self) -> (room: bool)
        ensures
            room == (self@.completed() < self@.total_files),
    {
        proof {
            use_type_invariant(self);
        }
        self.progress.processed_files + self.progress.failed_files < self.progress.total_files
    }

    /// Counts one completed file, `elapsed` nanoseconds after the batch
    /// started: it adds to the processed or to the failed files, adds the
    /// file's size, nodes and vectors to the totals (which stop at the largest
    /// number their type holds), and renews the elapsed time and the estimate.
    pub fn record(&mut self, result: &FileProcessingResult, elapsed: u64)
        requires
            old(self)@.completed() < old(self)@.total_files,
        ensures
            final(self)@ == old(self)@.after_result(
                result.success,
                result.file_size,
                result.nodes_count,
                result.vectors_count,
                elapsed,
            ),
    {
        proof {
            use_type_invariant(&*self);
        }
        let processed_files: usize = if result.success {
            self.progress.processed_files + 1
        } else {
            self.progress.processed_files
        };
        let failed_files: usize = if result.success {
            self.progress.failed_files
        } else {
            self.progress.failed_files + 1
        };
        let total_files: usize = self.progress.total_files;
        let completed: usize = processed_files + failed_files;
        let estimated_remaining: Option<u128> = if completed == 0 || completed >= total_files {
            None
        } else {
            let average: u128 = (elapsed / (completed as u64)) as u128;
            let left: u128 = (total_files - completed) as u128;
            assert(average * left <= u128::MAX) by (nonlinear_arith)
                requires
                    average <= u64::MAX,
                    left <= u64::MAX,
            ;
            Some(average * left)
        };
        let current_file = match &self.progress.current_file {
            Some(path) => Some(path.clone()),
            None => None,
        };
        self.progress = BatchProgress {
            total_files,
            processed_files,
            failed_files,
            current_file,
            elapsed_time: elapsed,
            estimated_remaining,
            bytes_processed: self.progress.bytes_processed.saturating_add(result.file_size),
            nodes_processed: self.progress.nodes_processed.saturating_add(result.nodes_count),
            vectors_generated: self.progress.vectors_generated.saturating_add(
                result.vectors_count,
            ),
        };
    }

    /// Notes the file most recently started.
    pub fn set_current_file(&mut self, path: String)
        ensures
            final(self)@ == (BatchProgress { current_file: Some(path), ..old(self)@ }),
    {
        proof {
            use_type_invariant(&*self);
        }
        self.progress.current_file = Some(path);
    }

    /// The progress as it stands.
    pub fn snapshot(&self) -> (progress: BatchProgress)
        ensures
            progress == self@,
            progress.wf(),
            progress.estimate_is_current(),
    {
        proof {
            use_type_invariant(self);
        }
        self.progress.duplicate()
    }
}

} // verus!
