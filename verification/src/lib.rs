//! Verified kernel of a code-indexing engine.
//!
//! The heart of the library is the batch pipeline: `admission` filters the
//! candidate files, `batch_processor` coordinates a batch as the transition
//! system of `batch_state` prescribes, `worker` decides the steps of the work
//! on one file, `progress` counts, and `limiter` and `cancellation` hold the
//! permits and the stop signal. The library decides and computes; reading
//! files, storing records, waiting and running tasks side by side are left to
//! its caller, which reports what happened and is told what to do next.
//!
//! Around the pipeline stand the engine's configuration, its errors and
//! plain data, checks on what hosts hand in, statistics of benchmarks, a
//! bounded cache, and text helpers.

pub mod admission;
pub mod batch_config;
pub mod batch_processor;
pub mod batch_state;
pub mod cancellation;
pub mod config;
pub mod engine;
pub mod error;
pub mod extraction;
pub mod language;
pub mod limiter;
pub mod memory;
pub mod metrics;
pub mod persistence;
pub mod pool;
pub mod progress;
pub mod report;
pub mod result;
pub mod storage;
pub mod text;
pub mod types;
pub mod utils;
pub mod validation;
pub mod worker;
