//! The work on one file.
//!
//! A worker reads its file, has it parsed into significant units, has one
//! record stored for each unit, and reports a result. Reading, parsing and
//! storing are done by the worker's caller; `FileWorker` decides what is done
//! next and what the result is.

use vstd::prelude::*;
use vstd::string::*;

use crate::admission::FileTask;
use crate::error::{ASTProcessingError, EngineError, StorageError};
use crate::result::FileProcessingResult;
use crate::text::{decimal, lines_of, push_decimal, same_text, split_lines, texts_of, trim, trimmed};
use crate::types::NodeMetadata;

verus! {

/// A region of a file that is stored by itself.
#[derive(Debug)]
pub struct SignificantUnit {
    pub text: String,
    /// The line the unit starts at, counted from 0.
    pub line_number: usize,
}

/// What parsing a file gives.
#[derive(Debug)]
pub struct ParseOutput {
    pub node_count: usize,
    pub significant_units: Vec<SignificantUnit>,
}

/// A line is significant if something is left of it once it is trimmed.
pub open spec fn is_significant(line: Seq<char>) -> bool {
    trimmed(line).len() > 0
}

/// Whether `units` are the significant ones among `lines`: one unit for each
/// significant line, in order, with the line's text and number.
pub open spec fn units_of_lines(units: Seq<SignificantUnit>, lines: Seq<Seq<char>>) -> bool
    decreases lines.len(),
{
    if lines.len() == 0 {
        units.len() == 0
    } else if is_significant(lines.last()) {
        &&& units.len() > 0
        &&& units.last().text@ == lines.last()
        &&& units.last().line_number == lines.len() - 1
        &&& units_of_lines(units.drop_last(), lines.drop_last())
    } else {
        units_of_lines(units, lines.drop_last())
    }
}

/// Parses a text line by line: every line that is not blank is a unit.
pub fn parse_lines(content: &str) -> (output: ParseOutput)
    ensures
        units_of_lines(output.significant_units@, lines_of(content@)),
        output.node_count == output.significant_units@.len(),
{
    let lines = split_lines(content);
    let ghost all = lines_of(content@);
    let mut units: Vec<SignificantUnit> = Vec::new();
    let mut number: usize = 0;
    proof {
        reveal_strlit("");
        assert(all.take(0) =~= Seq::empty());
        assert(texts_of(lines@).len() == lines@.len());
    }
    while number < lines.len()
        invariant
            number <= lines.len(),
            texts_of(lines@) == all,
            units_of_lines(units@, all.take(number as int)),
            ""@.len() == 0,
        decreases lines.len() - number,
    {
        proof {
            assert(all.take(number + 1).drop_last() =~= all.take(number as int));
            assert(all.take(number + 1).last() == all[number as int]);
            assert(texts_of(lines@)[number as int] == lines@[number as int]@);
        }
        let inner = trim(lines[number].as_str());
        proof {
            assert(inner@.len() == 0 ==> inner@ =~= ""@);
        }
        if !same_text(inner.as_str(), "") {
            let ghost before = units@;
            units.push(SignificantUnit { text: lines[number].clone(), line_number: number });
            proof {
                assert(units@.drop_last() =~= before);
            }
        }
        number = number + 1;
    }
    proof {
        assert(all.take(number as int) =~= all);
    }
    ParseOutput { node_count: units.len(), significant_units: units }
}

/// The identifier under which the unit at a line of a file is stored: the
/// path, a colon, and the line number in decimal.
pub open spec fn record_id(path: Seq<char>, line_number: nat) -> Seq<char> {
    path + ":"@ + decimal(line_number)
}

/// Whether `record` is what is stored of `unit` of the file at `path`.
pub open spec fn is_record_of(record: NodeMetadata, path: Seq<char>, unit: SignificantUnit) -> bool {
    &&& record.node_id@ == record_id(path, unit.line_number as nat)
    &&& record.file_path@ == path
    &&& record.signature@ == trimmed(unit.text@)
    &&& record.summary@ == "Line "@ + decimal(unit.line_number as nat) + " statement"@
    &&& record.source_snippet@ == unit.text@
    &&& record.complexity == 1
    &&& record.language@ == "javascript"@
}

/// The record that is stored of a unit of the file at `path`.
pub fn unit_record(path: &str, unit: &SignificantUnit) -> (record: NodeMetadata)
    ensures
        is_record_of(record, path@, *unit),
{
    let mut node_id = String::from_str(path);
    node_id.append(":");
    push_decimal(&mut node_id, unit.line_number as u64);
    let mut summary = String::from_str("Line ");
    push_decimal(&mut summary, unit.line_number as u64);
    summary.append(" statement");
    let record = NodeMetadata {
        node_id,
        file_path: String::from_str(path),
        signature: trim(unit.text.as_str()),
        summary,
        source_snippet: unit.text.clone(),
        complexity: 1,
        language: String::from_str("javascript"),
    };
    proof {
        assert(record.node_id@ =~= record_id(path@, unit.line_number as nat));
        assert(record.summary@ =~= "Line "@ + decimal(unit.line_number as nat) + " statement"@);
    }
    record
}

/// A unit is long enough for a vector if its text, encoded as UTF-8, takes
/// more than 10 bytes.
pub open spec fn earns_vector(text: Seq<char>) -> bool {
    vstd::utf8::encode_utf8(text).len() as usize > 10
}

/// How far the work on a file has come.
#[derive(Debug, Clone, Copy, PartialEq, Eq, Structural)]
pub enum WorkerStage {
    /// The file is being read and parsed.
    Working,
    /// The units are being stored, one at a time.
    Storing,
    /// The result stands.
    Done,
}

/// The state of the work on one file.
pub struct WorkerState {
    pub stage: WorkerStage,
    pub task: FileTask,
    /// The units that parsing gave.
    pub units: Seq<SignificantUnit>,
    /// How many of the units have been stored: those before this position.
    pub stored: nat,
    /// How many of the stored units earned a vector.
    pub vectors: nat,
    /// Why the file failed, if it did.
    pub error: Option<EngineError>,
}

impl WorkerState {
    /// The state of a worker that has just been given its file.
    pub open spec fn initial(task: FileTask) -> WorkerState {
        WorkerState {
            stage: WorkerStage::Working,
            task,
            units: Seq::empty(),
            stored: 0,
            vectors: 0,
            error: None,
        }
    }

    /// What holds of every state a worker can reach.
    pub open spec fn inv(self) -> bool {
        &&& self.units.len() <= usize::MAX
        &&& self.stored <= self.units.len()
        &&& self.vectors <= self.stored
        &&& match self.stage {
            WorkerStage::Working => self.units.len() == 0 && self.error is None,
            WorkerStage::Storing => self.stored < self.units.len() && self.error is None,
            WorkerStage::Done => self.error is None ==> self.stored == self.units.len(),
        }
    }

    /// The state after the file has failed with `error`. A failure ends the
    /// work on this file, unless the work has ended already.
    pub open spec fn fail(self, error: EngineError) -> WorkerState {
        if self.stage == WorkerStage::Done {
            self
        } else {
            WorkerState { stage: WorkerStage::Done, error: Some(error), ..self }
        }
    }

    /// The state after parsing has given `units`: they are stored next, or the
    /// work is done if there are none.
    pub open spec fn take_units(self, units: Seq<SignificantUnit>) -> WorkerState {
        WorkerState {
            stage: if units.len() == 0 {
                WorkerStage::Done
            } else {
                WorkerStage::Storing
            },
            units,
            ..self
        }
    }

    /// The state after the next unit has been stored.
    pub open spec fn unit_stored(self) -> WorkerState {
        WorkerState {
            stage: if self.stored + 1 == self.units.len() {
                WorkerStage::Done
            } else {
                WorkerStage::Storing
            },
            stored: self.stored + 1,
            vectors: if earns_vector(self.units[self.stored as int].text@) {
                self.vectors + 1
            } else {
                self.vectors
            },
            ..self
        }
    }

    /// The result of a worker that is done: a success with the counts of what
    /// was stored, or a failure with its error and no counts.
    pub open spec fn outcome(self, processing_time: u64) -> FileProcessingResult {
        FileProcessingResult {
            file_path: self.task.path,
            success: self.error is None,
            error: self.error,
            processing_time,
            file_size: self.task.size,
            nodes_count: if self.error is None {
                self.stored as usize
            } else {
                0
            },
            vectors_count: if self.error is None {
                self.vectors as usize
            } else {
                0
            },
        }
    }
}

/// The work on one file.
pub struct FileWorker {
    task: FileTask,
    stage: WorkerStage,
    units: Vec<SignificantUnit>,
    stored: usize,
    vectors: usize,
    error: Option<EngineError>,
}

impl View for FileWorker {
    type V = WorkerState;

    closed spec fn view(&self) -> WorkerState {
        WorkerState {
            stage: self.stage,
            task: self.task,
            units: self.units@,
            stored: self.stored as nat,
            vectors: self.vectors as nat,
            error: self.error,
        }
    }
}

impl FileWorker {
    /// A worker for `task`, about to read the file.
    pub fn new(task: FileTask) -> (worker: Self)
        ensures
            worker@ == WorkerState::initial(task),
            worker@.inv(),
    {
        let worker = FileWorker {
            task,
            stage: WorkerStage::Working,
            units: Vec::new(),
            stored: 0,
            vectors: 0,
            error: None,
        };
        assert(worker@.units =~= Seq::empty());
        worker
    }

    /// How far the work has come.
    pub fn stage(&self) -> (stage: WorkerStage)
        ensures
            stage == self@.stage,
    {
        self.stage
    }

    /// The file this worker works on.
    pub fn task(&self) -> (task: &FileTask)
        ensures
            *task == self@.task,
    {
        &self.task
    }

    fn fail(&mut self, error: EngineError)
        requires
            old(self)@.inv(),
        ensures
            final(self)@ == old(self)@.fail(error),
            final(self)@.inv(),
    {
        if self.stage != WorkerStage::Done {
            self.stage = WorkerStage::Done;
            self.error = Some(error);
        }
    }

    /// The file could not be read. The work ends with a read error that
    /// carries `reason`.
    pub fn read_failed(&mut self, reason: String)
        requires
            old(self)@.inv(),
        ensures
            final(self)@ == old(self)@.fail(EngineError::Io(reason)),
            final(self)@.inv(),
    {
        self.fail(EngineError::Io(reason));
    }

    /// The file could not be parsed. The work ends with the parser's error.
    pub fn parse_failed(&mut self, error: ASTProcessingError)
        requires
            old(self)@.inv(),
        ensures
            final(self)@ == old(self)@.fail(EngineError::ASTProcessing(error)),
            final(self)@.inv(),
    {
        self.fail(EngineError::ASTProcessing(error));
    }

    /// The file has been parsed. Its units are stored next, one record each;
    /// with no unit the work is done. Says whether the units were taken: they
    /// are not, and nothing changes, unless the worker was waiting for them.
    pub fn parsed(&mut self, output: ParseOutput) -> (taken: bool)
        requires
            old(self)@.inv(),
        ensures
            taken == (old(self)@.stage == WorkerStage::Working),
            final(self)@ == if taken {
                old(self)@.take_units(output.significant_units@)
            } else {
                old(self)@
            },
            final(self)@.inv(),
    {
        if self.stage != WorkerStage::Working {
            return false;
        }
        self.units = output.significant_units;
        self.stage = if self.units.len() == 0 {
            WorkerStage::Done
        } else {
            WorkerStage::Storing
        };
        true
    }

    /// The record to store next: that of the first unit not yet stored, while
    /// units are being stored.
    pub fn next_record(&self) -> (record: Option<NodeMetadata>)
        requires
            self@.inv(),
        ensures
            record is Some <==> self@.stage == WorkerStage::Storing,
            record matches Some(r) ==> is_record_of(
                r,
                self@.task.path@,
                self@.units[self@.stored as int],
            ),
    {
        if self.stage == WorkerStage::Storing {
            Some(unit_record(self.task.path.as_str(), &self.units[self.stored]))
        } else {
            None
        }
    }

    /// The record handed out last has been stored, or storing it has failed.
    /// A stored unit is counted, and it earns a vector if it is long enough;
    /// after the last unit the work is done. A failure ends the work on this
    /// file with the storage error. Says whether the report was taken: it is
    /// not, and nothing changes, unless a unit was being stored.
    pub fn stored(&mut self, outcome: Result<(), StorageError>) -> (taken: bool)
        requires
            old(self)@.inv(),
        ensures
            taken == (old(self)@.stage == WorkerStage::Storing),
            final(self)@ == if !taken {
                old(self)@
            } else {
                match outcome {
                    Ok(()) => old(self)@.unit_stored(),
                    Err(error) => old(self)@.fail(EngineError::Storage(error)),
                }
            },
            final(self)@.inv(),
    {
        if self.stage != WorkerStage::Storing {
            return false;
        }
        match outcome {
            Ok(()) => {
                if self.units[self.stored].text.as_str().len() > 10 {
                    self.vectors = self.vectors + 1;
                }
                self.stored = self.stored + 1;
                if self.stored == self.units.len() {
                    self.stage = WorkerStage::Done;
                }
            },
            Err(error) => {
                self.fail(EngineError::Storage(error));
            },
        }
        true
    }

    /// The result of the work, once it is done, with the time it took in
    /// nanoseconds. A worker that is not done has no result.
    pub fn finish(self, processing_time: u64) -> (result: Option<FileProcessingResult>)
        requires
            self@.inv(),
        ensures
            result is Some <==> self@.stage == WorkerStage::Done,
            result matches Some(r) ==> r == self@.outcome(processing_time),
    {
        if self.stage != WorkerStage::Done {
            return None;
        }
        let success = self.error.is_none();
        Some(
            FileProcessingResult {
                file_path: self.task.path,
                success,
                error: self.error,
                processing_time,
                file_size: self.task.size,
                nodes_count: if success {
                    self.stored
                } else {
                    0
                },
                vectors_count: if success {
                    self.vectors
                } else {
                    0
                },
            },
        )
    }
}

/// The result of a worker fits its file: it names the file's path and size,
/// it is a success exactly if no step failed, and then every unit was stored
/// and counted.
pub proof fn law_worker_result(state: WorkerState, processing_time: u64)
    requires
        state.inv(),
        state.stage == WorkerStage::Done,
    ensures
        state.outcome(processing_time).wf(),
        state.outcome(processing_time).file_path == state.task.path,
        state.outcome(processing_time).file_size == state.task.size,
        state.outcome(processing_time).success <==> state.error is None,
        state.outcome(processing_time).success ==> state.outcome(processing_time).nodes_count
            == state.units.len(),
        state.outcome(processing_time).vectors_count <= state.outcome(processing_time).nodes_count,
{
}

} // verus!
