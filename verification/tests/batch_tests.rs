// The batch pipeline: admission, the coordinator, progress, cancellation.

use ast_core_engine::admission::{admit_files, is_admissible, FileCandidate, FileTask};
use ast_core_engine::batch_config::BatchConfig;
use ast_core_engine::batch_processor::{BatchProcessor, BatchResult};
use ast_core_engine::batch_state::BatchPhase;
use ast_core_engine::cancellation::CancellationToken;
use ast_core_engine::error::{ASTProcessingError, EngineError, ErrorKind, StorageError};
use ast_core_engine::limiter::ConcurrencyLimiter;
use ast_core_engine::progress::{BatchProgress, ProgressTracker};
use ast_core_engine::result::FileProcessingResult;

fn candidate(path: &str, size: Option<u64>) -> FileCandidate {
    FileCandidate { path: path.to_string(), size }
}

fn config(concurrency: usize, continue_on_error: bool) -> BatchConfig {
    let mut config = BatchConfig::with_concurrency(concurrency);
    config.continue_on_error = continue_on_error;
    config
}

fn text_files(count: usize) -> Vec<FileCandidate> {
    (0..count).map(|i| candidate(&format!("dir/file{}.js", i), Some(100 + i as u64))).collect()
}

fn success(task: &FileTask, nodes: usize, vectors: usize) -> FileProcessingResult {
    FileProcessingResult {
        file_path: task.path.clone(),
        success: true,
        error: None,
        processing_time: 5,
        file_size: task.size,
        nodes_count: nodes,
        vectors_count: vectors,
    }
}

fn failure(task: &FileTask, error: EngineError) -> FileProcessingResult {
    FileProcessingResult {
        file_path: task.path.clone(),
        success: false,
        error: Some(error),
        processing_time: 5,
        file_size: task.size,
        nodes_count: 0,
        vectors_count: 0,
    }
}

fn parse_error(file: &str) -> EngineError {
    EngineError::ASTProcessing(ASTProcessingError::Parsing { file: file.to_string(), error: "bad".to_string() })
}

// Runs a batch to its end: starts files while permits last, then reports the
// oldest file in progress, and so on. `fails` says which tasks fail.
fn run_batch(processor: &mut BatchProcessor, fails: &[usize]) -> usize {
    let limit = 2;
    let mut waiting: Vec<FileTask> = Vec::new();
    let mut peak = 0;
    let mut clock = 0u64;
    loop {
        while let Some(task) = processor.next_task() {
            waiting.push(task);
        }
        peak = peak.max(processor.in_flight());
        assert!(processor.in_flight() <= limit);
        assert_eq!(processor.in_flight(), waiting.len());
        if waiting.is_empty() {
            break;
        }
        let task = waiting.remove(0);
        clock += 10;
        let result = if fails.contains(&task.index) {
            failure(&task, parse_error(&task.path))
        } else {
            success(&task, 3, 1)
        };
        processor.record_result(task.index, result, clock).unwrap();
    }
    peak
}

#[test]
fn default_settings_are_the_documented_ones() {
    let config = BatchConfig::default();
    assert!(config.max_concurrent_files >= 1);
    assert_eq!(config.db_batch_size, 100);
    assert_eq!(config.max_memory_usage, 1024 * 1024 * 1024);
    assert_eq!(config.progress_interval_ms, 1000);
    assert!(config.continue_on_error);
    assert_eq!(config.max_file_size, 10 * 1024 * 1024);
    assert_eq!(
        config.supported_extensions,
        vec!["js", "ts", "jsx", "tsx", "py", "rs", "go", "java", "cpp", "c", "h", "hpp"]
    );
    assert_eq!(BatchConfig::with_concurrency(7).max_concurrent_files, 7);
}

#[test]
fn admission_drops_missing_oversized_and_unsupported_files() {
    let config = BatchConfig::with_concurrency(2);
    let candidates = vec![
        candidate("a/test.js", Some(21)),
        candidate("a/test.txt", Some(19)),
        candidate("a/large.js", Some(15 * 1024 * 1024)),
        candidate("a/missing.js", None),
        candidate("a/UPPER.TSX", Some(0)),
        candidate("a/edge.py", Some(10 * 1024 * 1024)),
        candidate("a/over.py", Some(10 * 1024 * 1024 + 1)),
        candidate("a/noext", Some(1)),
        candidate("a/.rs", Some(1)),
        candidate("a.rs/b", Some(1)),
        candidate("a/b.tar.rs", Some(1)),
    ];
    let tasks = admit_files(candidates, &config);
    let taken: Vec<(usize, &str, u64)> = tasks.iter().map(|t| (t.index, t.path.as_str(), t.size)).collect();
    assert_eq!(
        taken,
        vec![
            (0, "a/test.js", 21),
            (1, "a/UPPER.TSX", 0),
            (2, "a/edge.py", 10 * 1024 * 1024),
            (3, "a/b.tar.rs", 1),
        ]
    );
    assert!(tasks.iter().all(|t| t.size <= config.max_file_size));
}

#[test]
fn admission_goes_by_the_configured_extensions() {
    let mut config = BatchConfig::with_concurrency(1);
    config.supported_extensions = vec!["md".to_string()];
    config.max_file_size = 5;
    assert!(is_admissible(&candidate("README.MD", Some(5)), &config));
    assert!(!is_admissible(&candidate("README.MD", Some(6)), &config));
    assert!(!is_admissible(&candidate("main.rs", Some(1)), &config));
    assert!(!is_admissible(&candidate("README.md", None), &config));
    config.supported_extensions = vec!["MD".to_string()];
    assert!(!is_admissible(&candidate("README.MD", Some(1)), &config));
    assert!(admit_files(Vec::new(), &config).is_empty());
}

#[test]
fn five_files_two_at_a_time_all_succeed() {
    let mut processor = BatchProcessor::new(config(2, true));
    assert_eq!(processor.phase(), BatchPhase::Idle);
    assert_eq!(processor.start(text_files(5)).unwrap(), 5);
    assert_eq!(processor.phase(), BatchPhase::Running);
    let mut waiting = Vec::new();
    let mut peak = 0;
    let mut clock = 0;
    loop {
        while let Some(task) = processor.next_task() {
            waiting.push(task);
        }
        assert!(processor.in_flight() <= 2);
        peak = peak.max(processor.in_flight());
        if waiting.is_empty() {
            break;
        }
        let task: FileTask = waiting.remove(0);
        clock += 10;
        processor.record_result(task.index, success(&task, 3, 1), clock).unwrap();
    }
    assert_eq!(peak, 2);
    assert_eq!(processor.phase(), BatchPhase::Completed);
    assert!(processor.is_finished());
    let progress = processor.get_progress();
    assert_eq!(progress.completion_percent(), 100);
    let batch: BatchResult = processor.finish().unwrap();
    assert_eq!(batch.results.len(), 5);
    assert_eq!(batch.progress.failed_files, 0);
    assert_eq!(batch.progress.processed_files, 5);
    assert_eq!(batch.progress.total_files, 5);
    assert_eq!(batch.progress.estimated_remaining, None);
    assert_eq!(batch.progress.elapsed_time, 50);
    assert_eq!(batch.progress.nodes_processed, 15);
    assert_eq!(batch.progress.vectors_generated, 5);
    assert_eq!(batch.progress.bytes_processed, 100 + 101 + 102 + 103 + 104);
    assert!(batch.progress.is_complete());
    let order: Vec<&str> = batch.results.iter().map(|r| r.file_path.as_str()).collect();
    assert_eq!(order, vec!["dir/file0.js", "dir/file1.js", "dir/file2.js", "dir/file3.js", "dir/file4.js"]);
}

#[test]
fn two_failures_among_five_files_are_isolated() {
    let mut processor = BatchProcessor::new(config(2, true));
    processor.start(text_files(5)).unwrap();
    run_batch(&mut processor, &[1, 3]);
    assert_eq!(processor.phase(), BatchPhase::Completed);
    let batch = processor.finish().unwrap();
    assert_eq!(batch.progress.failed_files, 2);
    assert_eq!(batch.progress.processed_files, 3);
    assert_eq!(batch.results.len(), 5);
    let failed: Vec<&str> = batch.results.iter().filter(|r| !r.success).map(|r| r.file_path.as_str()).collect();
    assert_eq!(failed, vec!["dir/file1.js", "dir/file3.js"]);
    for result in &batch.results {
        assert_eq!(result.success, result.error.is_none());
        if let Some(error) = &result.error {
            assert_eq!(error.kind(), ErrorKind::Parse);
        }
    }
    assert_eq!(batch.progress.nodes_processed, 9);
}

#[test]
fn results_come_in_arrival_order() {
    let mut processor = BatchProcessor::new(config(3, true));
    processor.start(text_files(3)).unwrap();
    let first = processor.next_task().unwrap();
    let second = processor.next_task().unwrap();
    let third = processor.next_task().unwrap();
    assert!(processor.next_task().is_none());
    assert_eq!((first.index, second.index, third.index), (0, 1, 2));
    assert_eq!(processor.get_progress().current_file, Some("dir/file2.js".to_string()));
    processor.record_result(2, success(&third, 1, 0), 1).unwrap();
    processor.record_result(0, success(&first, 1, 0), 2).unwrap();
    processor.record_result(1, success(&second, 1, 0), 3).unwrap();
    let batch = processor.finish().unwrap();
    let order: Vec<&str> = batch.results.iter().map(|r| r.file_path.as_str()).collect();
    assert_eq!(order, vec!["dir/file2.js", "dir/file0.js", "dir/file1.js"]);
}

#[test]
fn concurrency_never_exceeds_the_limit() {
    for limit in 1..6 {
        let mut processor = BatchProcessor::new(config(limit, true));
        processor.start(text_files(12)).unwrap();
        let mut waiting = Vec::new();
        let mut peak = 0;
        let mut step = 0u64;
        loop {
            while let Some(task) = processor.next_task() {
                waiting.push(task);
            }
            peak = peak.max(processor.in_flight());
            assert!(processor.in_flight() <= limit);
            if waiting.is_empty() {
                break;
            }
            step += 1;
            let pick = (step as usize * 7) % waiting.len();
            let task: FileTask = waiting.remove(pick);
            processor.record_result(task.index, success(&task, 0, 0), step).unwrap();
        }
        assert_eq!(peak, limit);
        assert_eq!(processor.finish().unwrap().results.len(), 12);
    }
}

#[test]
fn a_batch_without_permits_starts_nothing() {
    let mut processor = BatchProcessor::new(config(0, true));
    assert_eq!(processor.start(text_files(2)).unwrap(), 2);
    assert!(processor.next_task().is_none());
    assert_eq!(processor.phase(), BatchPhase::Running);
    assert!(!processor.is_finished());
    assert_eq!(processor.finish().unwrap_err().kind(), ErrorKind::Coordination);
}

#[test]
fn an_empty_batch_is_complete_at_once() {
    let mut processor = BatchProcessor::new(config(2, true));
    assert_eq!(processor.start(vec![candidate("x.txt", Some(1))]).unwrap(), 0);
    assert_eq!(processor.phase(), BatchPhase::Completed);
    assert!(processor.next_task().is_none());
    assert!(processor.tick().is_none());
    assert_eq!(processor.get_progress().completion_percent(), 100);
    let batch = processor.finish().unwrap();
    assert!(batch.results.is_empty());
    assert_eq!(batch.progress.total_files, 0);
    assert!(batch.progress.is_complete());
}

#[test]
fn a_batch_starts_once() {
    let mut processor = BatchProcessor::new(config(2, true));
    processor.start(text_files(1)).unwrap();
    let error = processor.start(text_files(3)).unwrap_err();
    assert_eq!(error.kind(), ErrorKind::Coordination);
    assert_eq!(processor.get_progress().total_files, 1);
}

#[test]
fn cancelling_stops_new_files_and_keeps_running_ones() {
    let mut processor = BatchProcessor::new(config(3, true));
    processor.start(text_files(10)).unwrap();
    let first = processor.next_task().unwrap();
    let second = processor.next_task().unwrap();
    let third = processor.next_task().unwrap();
    assert!(processor.next_task().is_none());
    processor.record_result(first.index, success(&first, 1, 1), 50).unwrap();
    let fourth = processor.next_task().unwrap();
    assert!(!processor.is_cancelled());
    processor.cancel();
    assert!(processor.is_cancelled());
    assert_eq!(processor.phase(), BatchPhase::Cancelled);
    assert!(processor.next_task().is_none());
    assert!(processor.tick().is_none());
    assert!(!processor.is_finished());
    processor.record_result(second.index, success(&second, 1, 1), 60).unwrap();
    assert!(processor.next_task().is_none());
    processor.record_result(fourth.index, failure(&fourth, parse_error("x")), 70).unwrap();
    processor.record_result(third.index, success(&third, 1, 1), 80).unwrap();
    assert!(processor.is_finished());
    processor.cancel();
    assert_eq!(processor.phase(), BatchPhase::Cancelled);
    let batch = processor.finish().unwrap();
    assert_eq!(batch.results.len(), 4);
    assert!(batch.results.len() <= 10);
    assert!(batch.results.len() <= 3 + 1);
    assert_eq!(batch.progress.total_files, 10);
    assert_eq!(batch.progress.processed_files, 3);
    assert_eq!(batch.progress.failed_files, 1);
    assert!(!batch.progress.is_complete());
    let mut paths: Vec<&str> = batch.results.iter().map(|r| r.file_path.as_str()).collect();
    paths.sort();
    paths.dedup();
    assert_eq!(paths.len(), 4);
}

#[test]
fn cancelling_before_the_start_starts_nothing() {
    let mut processor = BatchProcessor::new(config(3, true));
    processor.cancel();
    assert_eq!(processor.phase(), BatchPhase::Idle);
    assert_eq!(processor.start(text_files(4)).unwrap(), 4);
    assert_eq!(processor.phase(), BatchPhase::Cancelled);
    assert!(processor.next_task().is_none());
    assert!(processor.is_finished());
    let batch = processor.finish().unwrap();
    assert!(batch.results.is_empty());
    assert_eq!(batch.progress.total_files, 4);
}

#[test]
fn cancelling_a_completed_batch_leaves_it_completed() {
    let mut processor = BatchProcessor::new(config(1, true));
    processor.start(text_files(1)).unwrap();
    assert_eq!(run_batch(&mut processor, &[]), 1);
    processor.cancel();
    assert!(processor.is_cancelled());
    assert_eq!(processor.phase(), BatchPhase::Completed);
    assert_eq!(processor.finish().unwrap().results.len(), 1);
}

#[test]
fn stopping_at_the_first_failure_surfaces_it() {
    let mut processor = BatchProcessor::new(config(2, false));
    processor.start(text_files(5)).unwrap();
    let first = processor.next_task().unwrap();
    let second = processor.next_task().unwrap();
    processor.record_result(first.index, success(&first, 1, 0), 1).unwrap();
    let third = processor.next_task().unwrap();
    processor
        .record_result(second.index, failure(&second, EngineError::Storage(StorageError::Query("disk full".to_string()))), 2)
        .unwrap();
    assert_eq!(processor.phase(), BatchPhase::Failed);
    assert!(processor.next_task().is_none());
    assert!(!processor.is_finished());
    processor.record_result(third.index, failure(&third, parse_error("later")), 3).unwrap();
    assert!(processor.is_finished());
    assert_eq!(processor.get_progress().failed_files, 2);
    match processor.finish() {
        Err(EngineError::Storage(StorageError::Query(message))) => assert_eq!(message, "disk full"),
        other => panic!("unexpected {:?}", other.map(|b| b.results.len())),
    }
}

#[test]
fn results_that_do_not_belong_are_refused() {
    let mut processor = BatchProcessor::new(config(2, true));
    processor.start(text_files(3)).unwrap();
    let first = processor.next_task().unwrap();
    let ghost = FileTask { index: 2, path: "dir/file2.js".to_string(), size: 102 };
    assert_eq!(processor.record_result(2, success(&ghost, 1, 1), 1).unwrap_err().kind(), ErrorKind::Coordination);
    assert_eq!(processor.record_result(7, success(&ghost, 1, 1), 1).unwrap_err().kind(), ErrorKind::Coordination);
    let mut wrong_path = success(&first, 1, 1);
    wrong_path.file_path = "dir/other.js".to_string();
    assert!(processor.record_result(0, wrong_path, 1).is_err());
    let mut wrong_size = success(&first, 1, 1);
    wrong_size.file_size += 1;
    assert!(processor.record_result(0, wrong_size, 1).is_err());
    let mut both = success(&first, 1, 1);
    both.error = Some(parse_error("x"));
    assert!(processor.record_result(0, both, 1).is_err());
    let mut neither = failure(&first, parse_error("x"));
    neither.error = None;
    assert!(processor.record_result(0, neither, 1).is_err());
    assert_eq!(processor.in_flight(), 1);
    assert_eq!(processor.get_progress().processed_files, 0);
    processor.record_result(0, success(&first, 1, 1), 1).unwrap();
    assert!(processor.record_result(0, success(&first, 1, 1), 2).is_err());
    assert_eq!(processor.get_progress().processed_files, 1);
    assert_eq!(processor.in_flight(), 0);
}

#[test]
fn the_reporter_ticks_while_the_batch_runs() {
    let mut processor = BatchProcessor::new(config(1, true));
    assert!(processor.tick().is_none());
    processor.start(text_files(2)).unwrap();
    let first = processor.next_task().unwrap();
    let report = processor.tick().unwrap();
    assert_eq!(report.total_files, 2);
    assert_eq!(report.processed_files, 0);
    assert_eq!(report.current_file, Some("dir/file0.js".to_string()));
    processor.record_result(first.index, success(&first, 2, 1), 40).unwrap();
    let report = processor.tick().unwrap();
    assert_eq!(report.processed_files, 1);
    assert_eq!(report.elapsed_time, 40);
    assert_eq!(report.estimated_remaining, Some(40));
    assert_eq!(report.completion_percent(), 50);
    let second = processor.next_task().unwrap();
    processor.record_result(second.index, success(&second, 2, 1), 90).unwrap();
    assert!(processor.tick().is_none());
}

#[test]
fn memory_estimate_adds_a_kilobyte_per_node() {
    let mut processor = BatchProcessor::new(config(1, true));
    processor.start(text_files(1)).unwrap();
    assert_eq!(processor.get_memory_usage(), 0);
    let task = processor.next_task().unwrap();
    processor.record_result(task.index, success(&task, 3, 1), 1).unwrap();
    assert_eq!(processor.get_memory_usage(), 100 + 3 * 1024);
}

#[test]
fn progress_starts_empty() {
    let progress = BatchProgress::new(7);
    assert_eq!(progress.total_files, 7);
    assert_eq!(progress.processed_files, 0);
    assert_eq!(progress.failed_files, 0);
    assert_eq!(progress.current_file, None);
    assert_eq!(progress.elapsed_time, 0);
    assert_eq!(progress.estimated_remaining, None);
    assert_eq!(progress.bytes_processed, 0);
    assert_eq!(progress.nodes_processed, 0);
    assert_eq!(progress.vectors_generated, 0);
    assert!(!progress.is_complete());
    assert_eq!(progress.completion_percent(), 0);
    assert!(BatchProgress::new(0).is_complete());
    assert_eq!(BatchProgress::new(0).completion_percent(), 100);
}

#[test]
fn percentage_is_completed_over_total() {
    let mut progress = BatchProgress::new(3);
    progress.processed_files = 1;
    assert_eq!(progress.completion_percent(), 33);
    progress.failed_files = 1;
    assert_eq!(progress.completion_percent(), 66);
    assert!(!progress.is_complete());
    progress.processed_files = 2;
    assert_eq!(progress.completion_percent(), 100);
    assert!(progress.is_complete());
    progress.processed_files = usize::MAX;
    progress.failed_files = usize::MAX;
    assert_eq!(progress.completion_percent(), 100);
    assert!(progress.is_complete());
    let mut big = BatchProgress::new(usize::MAX);
    big.processed_files = usize::MAX - 1;
    assert_eq!(big.completion_percent(), 99);
    assert_eq!(big.completion_percent() as f64, (100.0 * (usize::MAX - 1) as f64 / usize::MAX as f64).floor().min(99.0));
}

#[test]
fn estimate_is_average_times_remaining() {
    let mut tracker = ProgressTracker::new(10);
    assert!(tracker.has_room());
    let task = FileTask { index: 0, path: "a.js".to_string(), size: 1000 };
    tracker.record(&success(&task, 4, 2), 100);
    let progress = tracker.snapshot();
    assert_eq!(progress.estimated_remaining, Some(900));
    assert_eq!(progress.elapsed_time, 100);
    tracker.record(&failure(&task, parse_error("a.js")), 250);
    tracker.record(&success(&task, 1, 0), 1000);
    let progress = tracker.snapshot();
    assert_eq!(progress.processed_files, 2);
    assert_eq!(progress.failed_files, 1);
    assert_eq!(progress.estimated_remaining, Some((1000 / 3) * 7));
    assert_eq!(progress.bytes_processed, 3000);
    assert_eq!(progress.nodes_processed, 5);
    assert_eq!(progress.vectors_generated, 2);
    tracker.set_current_file("b.js".to_string());
    assert_eq!(tracker.snapshot().current_file, Some("b.js".to_string()));
    assert_eq!(tracker.snapshot().processed_files, 2);
}

#[test]
fn estimate_fits_for_the_largest_times() {
    let mut tracker = ProgressTracker::new(usize::MAX);
    let task = FileTask { index: 0, path: "a.js".to_string(), size: u64::MAX };
    tracker.record(&success(&task, usize::MAX, usize::MAX), u64::MAX);
    let progress = tracker.snapshot();
    assert_eq!(progress.estimated_remaining, Some(u64::MAX as u128 * (usize::MAX as u128 - 1)));
    tracker.record(&success(&task, 1, 1), 0);
    let progress = tracker.snapshot();
    assert_eq!(progress.bytes_processed, u64::MAX);
    assert_eq!(progress.nodes_processed, usize::MAX);
    assert_eq!(progress.vectors_generated, usize::MAX);
    assert_eq!(progress.estimated_remaining, Some(0));
}

#[test]
fn tracker_is_full_at_the_total() {
    let mut tracker = ProgressTracker::new(1);
    let task = FileTask { index: 0, path: "a.js".to_string(), size: 1 };
    assert!(tracker.has_room());
    tracker.record(&success(&task, 0, 0), 9);
    assert!(!tracker.has_room());
    assert_eq!(tracker.snapshot().estimated_remaining, None);
    assert!(tracker.snapshot().is_complete());
    assert!(!ProgressTracker::new(0).has_room());
}

#[test]
fn limiter_hands_out_its_permits_and_no_more() {
    let mut limiter = ConcurrencyLimiter::new(2);
    assert_eq!(limiter.limit(), 2);
    assert_eq!(limiter.held(), 0);
    assert!(limiter.try_acquire());
    assert!(limiter.try_acquire());
    assert!(!limiter.try_acquire());
    assert_eq!(limiter.held(), 2);
    limiter.release();
    assert_eq!(limiter.held(), 1);
    assert!(limiter.try_acquire());
    assert!(!limiter.try_acquire());
    assert!(!ConcurrencyLimiter::new(0).try_acquire());
}

#[test]
fn cancellation_is_one_way() {
    let mut token = CancellationToken::new();
    assert!(!token.is_cancelled());
    token.cancel();
    assert!(token.is_cancelled());
    token.cancel();
    assert!(token.is_cancelled());
}

#[test]
fn results_say_whether_they_are_well_formed() {
    let task = FileTask { index: 0, path: "a.js".to_string(), size: 1 };
    assert!(success(&task, 0, 0).is_well_formed());
    assert!(failure(&task, parse_error("a")).is_well_formed());
    let mut odd = success(&task, 0, 0);
    odd.success = false;
    assert!(!odd.is_well_formed());
    assert_eq!(task.duplicate().path, "a.js");
    assert_eq!(task.duplicate().index, 0);
    let snapshot = BatchProgress::new(3).duplicate();
    assert_eq!(snapshot.total_files, 3);
}

#[test]
fn random_runs_keep_the_books_balanced() {
    let mut seed: u64 = 0x2545F4914F6CDD1D;
    let mut next = move |bound: u64| -> u64 {
        seed ^= seed << 13;
        seed ^= seed >> 7;
        seed ^= seed << 17;
        seed % bound
    };
    for round in 0..200 {
        let limit = next(5) as usize;
        let files = next(12) as usize;
        let stop_at_errors = next(4) == 0;
        let mut processor = BatchProcessor::new(config(limit, !stop_at_errors));
        if next(10) == 0 {
            processor.cancel();
        }
        assert_eq!(processor.start(text_files(files)).unwrap(), files);
        let mut waiting: Vec<FileTask> = Vec::new();
        let mut launched = 0;
        let mut recorded = 0;
        let mut failures = 0;
        let mut clock = 0;
        for _ in 0..100 {
            match next(6) {
                0 | 1 => {
                    let before = processor.is_cancelled();
                    if let Some(task) = processor.next_task() {
                        assert!(!before);
                        assert_eq!(task.index, launched);
                        launched += 1;
                        waiting.push(task);
                    }
                }
                2 | 3 => {
                    if !waiting.is_empty() {
                        let task = waiting.remove(next(waiting.len() as u64) as usize);
                        clock += next(50);
                        let fails = next(4) == 0;
                        let result = if fails { failure(&task, parse_error("x")) } else { success(&task, 1, 0) };
                        processor.record_result(task.index, result, clock).unwrap();
                        recorded += 1;
                        failures += fails as usize;
                    }
                }
                4 => {
                    let stray = FileTask { index: next(14) as usize, path: "dir/none.js".to_string(), size: 1 };
                    assert!(processor.record_result(stray.index, success(&stray, 1, 1), clock).is_err());
                }
                _ => {
                    if next(8) == 0 {
                        processor.cancel();
                    }
                }
            }
            let progress = processor.get_progress();
            assert!(processor.in_flight() <= limit, "round {}", round);
            assert_eq!(processor.in_flight(), waiting.len());
            assert_eq!(progress.total_files, files);
            assert_eq!(progress.processed_files + progress.failed_files, recorded);
            assert_eq!(progress.failed_files, failures);
            assert!(recorded + waiting.len() == launched && launched <= files);
            assert_eq!(processor.phase() == BatchPhase::Completed, recorded == files && processor.phase() != BatchPhase::Cancelled && processor.phase() != BatchPhase::Failed);
            assert_eq!(processor.tick().is_some(), processor.phase() == BatchPhase::Running);
            if processor.phase() == BatchPhase::Running {
                assert!(!processor.is_cancelled());
                assert!(recorded < files);
            }
            if processor.phase() == BatchPhase::Failed {
                assert!(stop_at_errors && failures > 0);
            }
            assert_eq!(progress.completion_percent() == 100, recorded == files);
        }
        while let Some(task) = waiting.pop() {
            processor.record_result(task.index, success(&task, 1, 0), clock).unwrap();
            recorded += 1;
        }
        while let Some(task) = processor.next_task() {
            processor.record_result(task.index, success(&task, 1, 0), clock).unwrap();
            recorded += 1;
        }
        if limit == 0 && files > 0 && processor.phase() == BatchPhase::Running {
            assert!(processor.finish().is_err());
            continue;
        }
        assert!(processor.is_finished());
        let failed_phase = processor.phase() == BatchPhase::Failed;
        match processor.finish() {
            Ok(batch) => {
                assert!(!failed_phase);
                assert_eq!(batch.results.len(), recorded);
                let mut paths: Vec<String> = batch.results.iter().map(|r| r.file_path.clone()).collect();
                paths.sort();
                paths.dedup();
                assert_eq!(paths.len(), recorded);
            }
            Err(error) => {
                assert!(failed_phase);
                assert_eq!(error.kind(), ErrorKind::Parse);
            }
        }
    }
}
