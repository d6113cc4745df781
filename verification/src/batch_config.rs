//! Settings of one batch run.

use vstd::prelude::*;
use vstd::string::*;

verus! {

/// Calls `num_cpus::get`, the number of logical processors that this process
/// may use. It depends on the machine; its documentation promises at least 1.
#[verifier::external_body]
fn available_cpus() -> (count: usize)
    ensures
        count >= 1,
{
    num_cpus::get()
}

/// Settings of one batch run. They do not change while the batch runs.
#[derive(Debug, Clone)]
pub struct BatchConfig {
    /// Upper bound on the files in progress at any moment.
    pub max_concurrent_files: usize,
    /// Number of records handed to the database at once.
    pub db_batch_size: usize,
    /// Memory, in bytes, above which buffered data is flushed.
    pub max_memory_usage: u64,
    /// Time between two progress reports, in milliseconds.
    pub progress_interval_ms: u64,
    /// Whether the batch goes on after a file has failed.
    pub continue_on_error: bool,
    /// Size, in bytes, above which a file is skipped.
    pub max_file_size: u64,
    /// Extensions of the files that are taken, in lower case, without the dot.
    pub supported_extensions: Vec<String>,
}

impl BatchConfig {
    /// The extensions taken by default.
    pub open spec fn default_extensions() -> Seq<Seq<char>> {
        seq![
            "js"@,
            "ts"@,
            "jsx"@,
            "tsx"@,
            "py"@,
            "rs"@,
            "go"@,
            "java"@,
            "cpp"@,
            "c"@,
            "h"@,
            "hpp"@,
        ]
    }

    /// The texts of the supported extensions, in order.
    pub open spec fn extensions(&self) -> Seq<Seq<char>> {
        Seq::new(self.supported_extensions@.len(), |i: int| self.supported_extensions@[i]@)
    }

    /// What every default setting but the concurrency is.
    pub open spec fn has_default_limits(&self) -> bool {
        &&& self.db_batch_size == 100
        &&& self.max_memory_usage == 1024 * 1024 * 1024
        &&& self.progress_interval_ms == 1000
        &&& self.continue_on_error
        &&& self.max_file_size == 10 * 1024 * 1024
        &&& self.extensions() == Self::default_extensions()
    }

    /// The default settings with room for `max_concurrent_files` files at once.
    pub fn with_concurrency(max_concurrent_files: usize) -> (config: Self)
        ensures
            config.max_concurrent_files == max_concurrent_files,
            config.has_default_limits(),
    {
        let mut supported_extensions: Vec<String> = Vec::new();
        supported_extensions.push(String::from_str("js"));
        supported_extensions.push(String::from_str("ts"));
        supported_extensions.push(String::from_str("jsx"));
        supported_extensions.push(String::from_str("tsx"));
        supported_extensions.push(String::from_str("py"));
        supported_extensions.push(String::from_str("rs"));
        supported_extensions.push(String::from_str("go"));
        supported_extensions.push(String::from_str("java"));
        supported_extensions.push(String::from_str("cpp"));
        supported_extensions.push(String::from_str("c"));
        supported_extensions.push(String::from_str("h"));
        supported_extensions.push(String::from_str("hpp"));
        let config = BatchConfig {
            max_concurrent_files,
            db_batch_size: 100,
            max_memory_usage: 1024 * 1024 * 1024,
            progress_interval_ms: 1000,
            continue_on_error: true,
            max_file_size: 10 * 1024 * 1024,
            supported_extensions,
        };
        assert(config.extensions() =~= Self::default_extensions());
        config
    }
}

impl Default for BatchConfig {
    /// The default settings, with one file in progress per available
    /// processor.
    fn default() -> (config: Self)
        ensures
            config.max_concurrent_files >= 1,
            config.has_default_limits(),
    {
        BatchConfig::with_concurrency(available_cpus())
    }
}

} // verus!
