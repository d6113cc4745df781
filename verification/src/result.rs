//! The outcome of processing one file.

use vstd::prelude::*;

use crate::error::EngineError;

verus! {

/// What became of one admitted file. A worker produces exactly one per file
/// it starts, and nothing changes it afterwards.
#[derive(Debug)]
pub struct FileProcessingResult {
    pub file_path: String,
    pub success: bool,
    /// Why the file failed; absent exactly when it succeeded.
    pub error: Option<EngineError>,
    /// Time spent on the file, in nanoseconds.
    pub processing_time: u64,
    /// Size of the file in bytes, as resolved at admission.
    pub file_size: u64,
    pub nodes_count: usize,
    pub vectors_count: usize,
}

impl FileProcessingResult {
    /// A result is either a success without an error or a failure with one.
    pub open spec fn wf(&self) -> bool {
        self.success <==> self.error is None
    }

    /// Whether this result is either a success without an error or a failure
    /// with one.
    pub fn is_well_formed(&self) -> (ok: bool)
        ensures
            ok == self.wf(),
    {
        self.success == self.error.is_none()
    }
}

} // verus!
