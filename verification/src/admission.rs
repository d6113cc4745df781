//! File admission: which of the candidate files a batch takes.

use vstd::prelude::*;
use vstd::string::*;

use crate::batch_config::BatchConfig;
use crate::text::{contains_text, extension_of, lists_text, lowercase, lowercased, path_extension};

verus! {

/// A path offered to a batch, with what a look at the file system told of it.
#[derive(Debug)]
pub struct FileCandidate {
    pub path: String,
    /// The size of the file in bytes, or nothing where there is no such file.
    pub size: Option<u64>,
}

/// An admitted file. Each is handed to exactly one worker.
#[derive(Debug)]
pub struct FileTask {
    /// Position of the task among the admitted files.
    pub index: usize,
    pub path: String,
    /// Size in bytes, as resolved at admission.
    pub size: u64,
}

impl FileTask {
    /// The same task, held a second time.
    pub fn duplicate(&self) -> (copy: Self)
        ensures
            copy == *self,
    {
        FileTask { index: self.index, path: self.path.clone(), size: self.size }
    }
}

/// A candidate is taken if the file exists, is no larger than the limit, and
/// has an extension that, in lower case, is among the supported ones.
pub open spec fn admissible(candidate: FileCandidate, config: BatchConfig) -> bool {
    &&& candidate.size matches Some(size) && size <= config.max_file_size
    &&& extension_of(candidate.path@) matches Some(extension) && lists_text(
        config.supported_extensions@,
        lowercased(extension),
    )
}

/// The tasks that a list of candidates gives: one for each admissible
/// candidate, in the order of the candidates, numbered from 0.
pub open spec fn admitted(candidates: Seq<FileCandidate>, config: BatchConfig) -> Seq<FileTask>
    decreases candidates.len(),
{
    if candidates.len() == 0 {
        Seq::empty()
    } else {
        let earlier = admitted(candidates.drop_last(), config);
        let last = candidates.last();
        if admissible(last, config) {
            earlier.push(FileTask { index: earlier.len() as usize, path: last.path, size: last.size->0 })
        } else {
            earlier
        }
    }
}

/// Whether a candidate is taken under `config`.
pub fn is_admissible(candidate: &FileCandidate, config: &BatchConfig) -> (taken: bool)
    ensures
        taken == admissible(*candidate, *config),
{
    match candidate.size {
        None => false,
        Some(size) => {
            if size > config.max_file_size {
                return false;
            }
            match path_extension(candidate.path.as_str()) {
                None => false,
                Some(extension) => {
                    let lower = lowercase(extension.as_str());
                    contains_text(&config.supported_extensions, lower.as_str())
                },
            }
        },
    }
}

/// Filters the candidates into the tasks of a batch. Candidates that are
/// missing, too large or of an unsupported extension are dropped silently.
pub fn admit_files(candidates: Vec<FileCandidate>, config: &BatchConfig) -> (tasks: Vec<FileTask>)
    ensures
        tasks@ == admitted(candidates@, *config),
{
    let mut tasks: Vec<FileTask> = Vec::new();
    let mut i: usize = 0;
    assert(candidates@.take(0) =~= Seq::empty());
    while i < candidates.len()
        invariant
            i <= candidates.len(),
            tasks@ == admitted(candidates@.take(i as int), *config),
            tasks@.len() <= i,
        decreases candidates.len() - i,
    {
        proof {
            assert(candidates@.take(i + 1).drop_last() =~= candidates@.take(i as int));
            assert(candidates@.take(i + 1).last() == candidates@[i as int]);
        }
        if is_admissible(&candidates[i], config) {
            let size = match candidates[i].size {
                Some(size) => size,
                None => 0,
            };
            tasks.push(FileTask { index: tasks.len(), path: candidates[i].path.clone(), size });
        }
        i = i + 1;
    }
    assert(candidates@.take(i as int) =~= candidates@);
    tasks
}

/// Admission keeps the order of the candidates, takes no candidate twice and
/// none that is not admissible: task `k` stems from a candidate `origin[k]`,
/// the origins increase, and every admissible candidate is the origin of a
/// task. So no task is larger than the limit, and the tasks are numbered by
/// their position.
pub proof fn lemma_admission(candidates: Seq<FileCandidate>, config: BatchConfig) -> (origin: Seq<int>)
    requires
        candidates.len() <= usize::MAX,
    ensures
        origin.len() == admitted(candidates, config).len(),
        admitted(candidates, config).len() <= candidates.len(),
        forall|k: int|
            0 <= k < origin.len() ==> {
                &&& 0 <= #[trigger] origin[k] < candidates.len()
                &&& admissible(candidates[origin[k]], config)
                &&& admitted(candidates, config)[k].path == candidates[origin[k]].path
                &&& candidates[origin[k]].size == Some(admitted(candidates, config)[k].size)
                &&& admitted(candidates, config)[k].size <= config.max_file_size
                &&& admitted(candidates, config)[k].index == k
            },
        forall|j: int, k: int| 0 <= j < k < origin.len() ==> origin[j] < origin[k],
        forall|i: int|
            0 <= i < candidates.len() && admissible(#[trigger] candidates[i], config)
                ==> origin.contains(i),
    decreases candidates.len(),
{
    if candidates.len() == 0 {
        Seq::empty()
    } else {
        let earlier = lemma_admission(candidates.drop_last(), config);
        let last = candidates.len() - 1;
        let origin = if admissible(candidates.last(), config) {
            earlier.push(last)
        } else {
            earlier
        };
        let tasks = admitted(candidates, config);
        assert forall|k: int| 0 <= k < origin.len() implies {
            &&& 0 <= #[trigger] origin[k] < candidates.len()
            &&& admissible(candidates[origin[k]], config)
            &&& tasks[k].path == candidates[origin[k]].path
            &&& candidates[origin[k]].size == Some(tasks[k].size)
            &&& tasks[k].size <= config.max_file_size
            &&& tasks[k].index == k
        } by {
            if k < earlier.len() {
                assert(origin[k] == earlier[k]);
                assert(candidates.drop_last()[earlier[k]] == candidates[earlier[k]]);
                assert(tasks[k] == admitted(candidates.drop_last(), config)[k]);
            }
        }
        assert forall|i: int|
            0 <= i < candidates.len() && admissible(#[trigger] candidates[i], config)
        implies origin.contains(i) by {
            if i < last {
                assert(candidates.drop_last()[i] == candidates[i]);
                assert(earlier.contains(i));
                let k = choose|k: int| 0 <= k < earlier.len() && earlier[k] == i;
                assert(origin[k] == i);
            } else {
                assert(origin[origin.len() - 1] == i);
            }
        }
        origin
    }
}

} // verus!
