// Plain-Rust checks of the basic shapes the engine works with.

use std::collections::HashMap;

use ast_core_engine::batch_state::BatchPhase;

#[derive(Debug, PartialEq)]
enum TestEngineError {
    ConfigurationError(String),
    ProcessingError(String),
    DatabaseError(String),
    VectorError(String),
}

#[test]
fn test_basic_error_types() {
    let config_error = TestEngineError::ConfigurationError("Invalid config".to_string());
    let processing_error = TestEngineError::ProcessingError("Processing failed".to_string());

    match config_error {
        TestEngineError::ConfigurationError(msg) => assert_eq!(msg, "Invalid config"),
        _ => panic!("Wrong error type"),
    }

    match processing_error {
        TestEngineError::ProcessingError(msg) => assert_eq!(msg, "Processing failed"),
        _ => panic!("Wrong error type"),
    }

    let others = vec![
        TestEngineError::DatabaseError("db".to_string()),
        TestEngineError::VectorError("vec".to_string()),
    ];
    assert_eq!(others.len(), 2);
    println!("Basic error types test passed");
}

#[derive(Debug, Clone)]
struct BasicProcessingOptions {
    pub batch_size: usize,
    pub parallel_workers: usize,
    pub enable_caching: bool,
    pub language: String,
}

#[test]
fn test_basic_processing_options() {
    let options = BasicProcessingOptions {
        batch_size: 100,
        parallel_workers: 4,
        enable_caching: true,
        language: "rust".to_string(),
    };

    assert_eq!(options.batch_size, 100);
    assert_eq!(options.parallel_workers, 4);
    assert!(options.enable_caching);
    assert_eq!(options.language, "rust");

    let cloned_options = options.clone();
    assert_eq!(cloned_options.batch_size, options.batch_size);

    println!("Basic processing options test passed");
}

#[derive(Debug, PartialEq)]
enum BatchState {
    Idle,
    Processing,
    Completed,
    Cancelled,
    Failed(String),
}

#[derive(Debug)]
struct BatchInfo {
    pub batch_id: String,
    pub state: BatchState,
    pub total_files: u32,
    pub processed_files: u32,
    pub failed_files: u32,
}

#[test]
fn test_basic_batch_processing_state() {
    let mut batch = BatchInfo {
        batch_id: "batch_001".to_string(),
        state: BatchState::Idle,
        total_files: 100,
        processed_files: 0,
        failed_files: 0,
    };

    assert_eq!(batch.state, BatchState::Idle);
    assert_eq!(batch.total_files, 100);

    batch.state = BatchState::Processing;
    batch.processed_files = 50;

    assert_eq!(batch.state, BatchState::Processing);
    assert_eq!(batch.processed_files, 50);

    let progress = batch.processed_files as f64 / batch.total_files as f64;
    assert!((progress - 0.5).abs() < f64::EPSILON);

    assert_eq!(batch.batch_id, "batch_001");
    assert_eq!(batch.failed_files, 0);
    assert_ne!(BatchState::Completed, BatchState::Cancelled);
    assert_ne!(BatchState::Failed("x".to_string()), BatchState::Idle);
    assert_ne!(BatchPhase::Completed, BatchPhase::Cancelled);
    println!("Basic batch processing state test passed");
}

#[derive(Debug, Clone)]
struct InMemoryStore {
    data: HashMap<String, String>,
}

impl InMemoryStore {
    pub fn new() -> Self {
        InMemoryStore { data: HashMap::new() }
    }

    pub fn insert(&mut self, key: String, value: String) -> Result<(), String> {
        self.data.insert(key, value);
        Ok(())
    }

    pub fn get(&self, key: &str) -> Option<&String> {
        self.data.get(key)
    }

    pub fn delete(&mut self, key: &str) -> bool {
        self.data.remove(key).is_some()
    }

    pub fn count(&self) -> usize {
        self.data.len()
    }
}

#[test]
fn test_basic_database_operations() {
    let mut store = InMemoryStore::new();
    assert_eq!(store.count(), 0);

    store.insert("key1".to_string(), "value1".to_string()).unwrap();
    assert_eq!(store.count(), 1);

    let value = store.get("key1");
    assert_eq!(value, Some(&"value1".to_string()));

    let deleted = store.delete("key1");
    assert!(deleted);
    assert_eq!(store.count(), 0);

    println!("Basic database operations test passed");
}

#[derive(Debug)]
struct BenchmarkResult {
    pub operation: String,
    pub baseline_time_ms: u64,
    pub optimized_time_ms: u64,
}

impl BenchmarkResult {
    pub fn new(operation: String, baseline_time_ms: u64, optimized_time_ms: u64) -> Self {
        BenchmarkResult { operation, baseline_time_ms, optimized_time_ms }
    }

    pub fn improvement_factor(&self) -> f64 {
        self.baseline_time_ms as f64 / self.optimized_time_ms as f64
    }

    pub fn meets_target(&self, target_improvement: f64) -> bool {
        self.improvement_factor() >= target_improvement
    }
}

#[test]
fn test_performance_benchmark_simulation() {
    let file_processing = BenchmarkResult::new("file_processing".to_string(), 1000, 50);
    let vector_search = BenchmarkResult::new("vector_search".to_string(), 500, 25);
    let ast_parsing = BenchmarkResult::new("ast_parsing".to_string(), 2000, 100);

    assert!(file_processing.meets_target(10.0));
    assert!(vector_search.meets_target(10.0));
    assert!(ast_parsing.meets_target(10.0));

    assert_eq!(file_processing.improvement_factor(), 20.0);
    assert_eq!(vector_search.improvement_factor(), 20.0);
    assert_eq!(ast_parsing.improvement_factor(), 20.0);

    println!("Performance benchmark simulation test passed");
    println!("  {} improvement: {}x", file_processing.operation, file_processing.improvement_factor());
    println!("  {} improvement: {}x", vector_search.operation, vector_search.improvement_factor());
    println!("  {} improvement: {}x", ast_parsing.operation, ast_parsing.improvement_factor());
}
