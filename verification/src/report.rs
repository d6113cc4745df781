//! What a host is told of a batch: its failures, and answers in the shape
//! that the command line prints.

use vstd::prelude::*;
use vstd::string::*;

use crate::result::FileProcessingResult;
use crate::types::ProcessingError;

verus! {

/// Whether `report` tells of the failure `result`: it names the file, is of
/// the type `processing_error`, and carries the error's message, or
/// `Unknown error` where the result has no error.
pub open spec fn reports_failure(report: ProcessingError, result: FileProcessingResult) -> bool {
    &&& report.file_path@ == result.file_path@
    &&& report.error_type@ == "processing_error"@
    &&& match result.error {
        Some(error) => error.renders_as(report.message@),
        None => report.message@ == "Unknown error"@,
    }
}

/// Whether `reports` tell of the failures among `results`: one report for
/// each failed result, in order.
pub open spec fn reports_failures(reports: Seq<ProcessingError>, results: Seq<FileProcessingResult>) -> bool
    decreases results.len(),
{
    if results.len() == 0 {
        reports.len() == 0
    } else if results.last().success {
        reports_failures(reports, results.drop_last())
    } else {
        &&& reports.len() > 0
        &&& reports_failure(reports.last(), results.last())
        &&& reports_failures(reports.drop_last(), results.drop_last())
    }
}

/// The failures of a batch as a host is told of them: one report for each
/// failed file, in the order of the results.
pub fn collect_errors(results: &Vec<FileProcessingResult>) -> (reports: Vec<ProcessingError>)
    ensures
        reports_failures(reports@, results@),
{
    let mut reports: Vec<ProcessingError> = Vec::new();
    let mut i: usize = 0;
    proof {
        assert(results@.take(0) =~= Seq::empty());
    }
    while i < results.len()
        invariant
            i <= results.len(),
            reports_failures(reports@, results@.take(i as int)),
        decreases results.len() - i,
    {
        proof {
            assert(results@.take(i + 1).drop_last() =~= results@.take(i as int));
            assert(results@.take(i + 1).last() == results@[i as int]);
        }
        if !results[i].success {
            let message = match &results[i].error {
                Some(error) => error.message(),
                None => String::from_str("Unknown error"),
            };
            let ghost before = reports@;
            reports.push(
                ProcessingError {
                    file_path: results[i].file_path.clone(),
                    error_type: String::from_str("processing_error"),
                    message,
                },
            );
            proof {
                assert(reports@.drop_last() =~= before);
            }
        }
        i = i + 1;
    }
    proof {
        assert(results@.take(i as int) =~= results@);
    }
    reports
}

/// An answer of the command line: either data, or an error message.
#[derive(Debug)]
pub struct CliResponse<T> {
    pub success: bool,
    pub data: Option<T>,
    pub error: Option<String>,
}

impl<T> CliResponse<T> {
    /// The answer that carries `data`.
    pub fn success(data: T) -> (response: Self)
        ensures
            response.success,
            response.data == Some(data),
            response.error is None,
    {
        CliResponse { success: true, data: Some(data), error: None }
    }

    /// The answer that carries an error message.
    pub fn error(error: String) -> (response: Self)
        ensures
            !response.success,
            response.data is None,
            response.error == Some(error),
    {
        CliResponse { success: false, data: None, error: Some(error) }
    }
}

} // verus!
