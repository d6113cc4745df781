// Configuration, language detection, validation and the engine itself.

use ast_core_engine::config::{config_from_environment, create_hnsw_config, EngineConfig, EnvironmentSettings, HnswConfig, StorageConfig};
use ast_core_engine::engine::{get_engine_version, ASTCoreEngine};
use ast_core_engine::error::ASTProcessingError;
use ast_core_engine::language::{string_to_language, SupportedLanguage};
use ast_core_engine::types::ProcessingOptions;
use ast_core_engine::utils::{detect_language_from_path, format_bytes, language_for_extension};
use ast_core_engine::validation::{check_array_length, index_is_reusable, validate_index_config, DataValidator, MemoryManager, SerializationErrorType};

fn no_settings() -> EnvironmentSettings {
    EnvironmentSettings {
        max_memory_mb: None,
        parallel_workers: None,
        batch_size: None,
        vector_dimensions: None,
        debug: None,
    }
}

#[test]
fn test_engine_version() {
    let version = get_engine_version();
    assert!(version.starts_with("ast-core-engine"));
}

#[test]
fn test_config_default() {
    let config = EngineConfig::default();
    assert_eq!(config.max_memory_mb, 1024);
    assert_eq!(config.parallel_workers, 4);
    assert_eq!(config.batch_size, 100);
    assert_eq!(config.vector_dimensions, 768);
}

#[test]
fn test_load_config() {
    let config = config_from_environment(&no_settings());
    assert!(config.max_memory_mb > 0);
    assert!(config.parallel_workers > 0);
}

#[test]
fn test_processing_options_default() {
    let options = ProcessingOptions::default();
    assert_eq!(options.max_memory_mb, 1024);
    assert_eq!(options.batch_size, 100);
    assert_eq!(options.parallel_workers, 4);
}

#[test]
fn test_engine_creation() {
    let config = EngineConfig::default();
    let engine = ASTCoreEngine::new(config);
    assert!(engine.is_ok());
}

#[test]
fn test_detect_language_from_path() {
    assert_eq!(detect_language_from_path("test.ts").unwrap(), "typescript");
    assert_eq!(detect_language_from_path("test.js").unwrap(), "javascript");
    assert_eq!(detect_language_from_path("test.py").unwrap(), "python");
    assert_eq!(detect_language_from_path("test.rs").unwrap(), "rust");
    assert!(detect_language_from_path("test.unknown").is_err());
}

#[test]
fn test_format_bytes() {
    assert_eq!(format_bytes(1024), "1.00 KB");
    assert_eq!(format_bytes(1024 * 1024), "1.00 MB");
    assert_eq!(format_bytes(512), "512.00 B");
}

#[test]
fn test_string_to_language() {
    assert_eq!(string_to_language("javascript"), Some(SupportedLanguage::JavaScript));
    assert_eq!(string_to_language("js"), Some(SupportedLanguage::JavaScript));
    assert_eq!(string_to_language("TypeScript"), Some(SupportedLanguage::TypeScript));
    assert_eq!(string_to_language("unknown"), None);
}

#[test]
fn test_data_validator() {
    let valid_embedding: Vec<f32> = vec![0.1, 0.2, 0.3];
    let valid_bits: Vec<u32> = valid_embedding.iter().map(|v| v.to_bits()).collect();
    assert!(DataValidator::validate_embedding(&valid_bits, 3).is_ok());

    assert!(DataValidator::validate_embedding(&valid_bits, 4).is_err());

    let empty_embedding: Vec<u32> = Vec::new();
    assert!(DataValidator::validate_embedding(&empty_embedding, 3).is_err());

    let invalid_embedding: Vec<f32> = vec![0.1, f32::NAN, 0.3];
    let invalid_bits: Vec<u32> = invalid_embedding.iter().map(|v| v.to_bits()).collect();
    assert!(DataValidator::validate_embedding(&invalid_bits, 3).is_err());
}

#[test]
fn test_search_params_validation() {
    assert!(DataValidator::validate_search_params(10, Some(50)).is_ok());
    assert!(DataValidator::validate_search_params(10, None).is_ok());

    assert!(DataValidator::validate_search_params(0, None).is_err());
    assert!(DataValidator::validate_search_params(20000, None).is_err());

    assert!(DataValidator::validate_search_params(10, Some(0)).is_err());
    assert!(DataValidator::validate_search_params(10, Some(20000)).is_err());
}

#[test]
fn test_node_id_validation() {
    assert!(DataValidator::validate_node_id("test_node_123").is_ok());

    assert!(DataValidator::validate_node_id("").is_err());

    let long_id = "a".repeat(1001);
    assert!(DataValidator::validate_node_id(&long_id).is_err());
}

#[test]
fn test_memory_estimation() {
    let memory = MemoryManager::estimate_vector_memory(768, 1000);
    assert!(memory > 0);

    assert!(memory >= 3_072_000);
}

#[test]
fn engine_keeps_its_configuration() {
    let mut config = EngineConfig::default();
    config.batch_size = 7;
    let engine = ASTCoreEngine::new(config.clone()).unwrap();
    assert_eq!(engine.config(), &config);
    assert_eq!(get_engine_version(), "ast-core-engine 0.1.0");
}

#[test]
fn default_configurations_have_the_documented_values() {
    let hnsw = HnswConfig::default();
    assert_eq!(hnsw.embedding_dimension, 384);
    assert_eq!(hnsw.m, 16);
    assert_eq!(hnsw.ef_construction, 200);
    assert_eq!(hnsw.ef_search, 100);
    assert_eq!(hnsw.max_elements, 1_000_000);
    let storage = StorageConfig::default();
    assert_eq!(storage.db_path, ".astdb/index.db");
    assert_eq!(storage.max_connections, 10);
    assert_eq!(storage.connection_timeout_secs, 30);
    assert!(storage.enable_wal);
    assert_eq!(storage.cache_size_mb, 256);
    let engine = EngineConfig::default();
    assert_eq!(engine.hnsw_config, hnsw);
    assert_eq!(engine.storage_config, storage);
    assert!(!engine.debug_mode);
    let options = ProcessingOptions::default();
    assert_eq!(options.vector_dimensions, 768);
    assert_eq!(options.index_ef_construction, 200);
    assert_eq!(options.index_m, 16);
    assert_eq!(options.max_depth, 10);
    assert!(!options.include_unnamed_nodes);
    assert_eq!(options.max_node_length, 1000);
    assert!(options.enable_caching);
}

#[test]
fn environment_settings_override_defaults() {
    let mut settings = no_settings();
    settings.max_memory_mb = Some("2048".to_string());
    settings.parallel_workers = Some("+8".to_string());
    settings.batch_size = Some("many".to_string());
    settings.vector_dimensions = Some("007".to_string());
    settings.debug = Some("TRUE".to_string());
    let config = config_from_environment(&settings);
    assert_eq!(config.max_memory_mb, 2048);
    assert_eq!(config.parallel_workers, 8);
    assert_eq!(config.batch_size, 100);
    assert_eq!(config.vector_dimensions, 7);
    assert!(config.debug_mode);
    assert_eq!(config.hnsw_config, HnswConfig::default());
}

#[test]
fn environment_numbers_that_do_not_parse_fall_back() {
    for text in ["", "+", "-1", "1 ", " 1", "4294967296", "1_000", "0x10", "१"] {
        let mut settings = no_settings();
        settings.max_memory_mb = Some(text.to_string());
        assert_eq!(config_from_environment(&settings).max_memory_mb, 1024, "{:?}", text);
        assert!(text.parse::<u32>().is_err(), "{:?}", text);
    }
    for text in ["0", "4294967295", "+0", "00012", "+4294967295"] {
        let mut settings = no_settings();
        settings.max_memory_mb = Some(text.to_string());
        assert_eq!(
            config_from_environment(&settings).max_memory_mb,
            text.parse::<u32>().unwrap(),
            "{:?}",
            text
        );
    }
}

#[test]
fn debug_switch_takes_true_and_one_only() {
    for (text, expected) in [("true", true), ("True", true), ("1", true), ("yes", false), ("0", false), ("", false), ("01", false)] {
        let mut settings = no_settings();
        settings.debug = Some(text.to_string());
        assert_eq!(config_from_environment(&settings).debug_mode, expected, "{:?}", text);
    }
}

#[test]
fn hnsw_config_helper_fills_in_defaults() {
    let config = create_hnsw_config(512, None, Some(300));
    assert_eq!(config.embedding_dimension, 512);
    assert_eq!(config.m, 16);
    assert_eq!(config.ef_construction, 300);
    assert_eq!(config.ef_search, 100);
    assert_eq!(config.max_elements, 1_000_000);
    assert_eq!(create_hnsw_config(1, Some(2), None).m, 2);
    assert_eq!(create_hnsw_config(1, Some(2), None).ef_construction, 200);
}

#[test]
fn language_detection_knows_every_extension() {
    let cases = [
        ("ts", "typescript"), ("tsx", "typescript"), ("js", "javascript"), ("jsx", "javascript"),
        ("mjs", "javascript"), ("cjs", "javascript"), ("py", "python"), ("pyi", "python"),
        ("pyw", "python"), ("rs", "rust"), ("java", "java"), ("cpp", "cpp"), ("cc", "cpp"),
        ("cxx", "cpp"), ("c++", "cpp"), ("hpp", "cpp"), ("hh", "cpp"), ("hxx", "cpp"),
        ("h++", "cpp"), ("c", "c"), ("h", "c"), ("cs", "c_sharp"), ("go", "go"), ("rb", "ruby"),
        ("php", "php"), ("kt", "kotlin"), ("swift", "swift"), ("scala", "scala"), ("sh", "bash"),
        ("bash", "bash"),
    ];
    for (extension, language) in cases {
        assert_eq!(language_for_extension(extension), Some(language));
        assert_eq!(detect_language_from_path(&format!("dir/file.{}", extension)).unwrap(), language);
    }
    assert_eq!(language_for_extension("TS"), None);
    assert_eq!(language_for_extension(""), None);
}

#[test]
fn language_detection_reports_the_extension() {
    match detect_language_from_path("notes.txt") {
        Err(ASTProcessingError::UnsupportedLanguage(message)) => {
            assert_eq!(message, "No language mapping found for extension: txt")
        }
        other => panic!("unexpected {:?}", other),
    }
    match detect_language_from_path("Makefile") {
        Err(ASTProcessingError::UnsupportedLanguage(message)) => {
            assert_eq!(message, "No language mapping found for extension: ")
        }
        other => panic!("unexpected {:?}", other),
    }
    assert!(detect_language_from_path(".rs").is_err());
    assert!(detect_language_from_path("a.rs/b").is_err());
    assert_eq!(detect_language_from_path("a.b/c.d.py").unwrap(), "python");
}

#[test]
fn languages_go_by_several_names_in_any_case() {
    let cases = [
        ("JS", Some(SupportedLanguage::JavaScript)),
        ("ts", Some(SupportedLanguage::TypeScript)),
        ("Python", Some(SupportedLanguage::Python)),
        ("py", Some(SupportedLanguage::Python)),
        ("RUST", Some(SupportedLanguage::Rust)),
        ("rs", Some(SupportedLanguage::Rust)),
        ("java", Some(SupportedLanguage::Java)),
        ("cpp", Some(SupportedLanguage::Cpp)),
        ("C++", Some(SupportedLanguage::Cpp)),
        ("c", Some(SupportedLanguage::C)),
        ("CSharp", Some(SupportedLanguage::CSharp)),
        ("c#", Some(SupportedLanguage::CSharp)),
        ("cs", Some(SupportedLanguage::CSharp)),
        ("Go", Some(SupportedLanguage::Go)),
        ("", None),
        ("golang", None),
    ];
    for (name, expected) in cases {
        assert_eq!(string_to_language(name), expected, "{:?}", name);
    }
}

fn float_format(bytes: u64) -> String {
    let units = ["B", "KB", "MB", "GB", "TB"];
    let mut size = bytes as f64;
    let mut unit = 0;
    while size >= 1024.0 && unit < units.len() - 1 {
        size /= 1024.0;
        unit += 1;
    }
    format!("{:.2} {}", size, units[unit])
}

#[test]
fn format_bytes_agrees_with_floating_point() {
    let mut samples: Vec<u64> = vec![
        0, 1, 9, 10, 99, 100, 511, 512, 1023, 1024, 1025, 1029, 1030, 1034, 1035, 1152, 1408,
        1536, 2047, 2048, 10239, 10240, 1048575, 1048576, 1048577, 1572864, 1073741823,
        1073741824, 1099511627775, 1099511627776, 1099511627777, 5497558138880,
        9007199254740991, 9007199254740992, 9007199254740993, 9007199254740994,
        9007199254740995, 18014398509481983, 18014398509481984, 18014398509481985,
        18014398509481987, 18014398509481989, 1 << 62, (1 << 62) + 511, (1 << 62) + 512,
        (1 << 62) + 513, (1 << 63) - 1, 1 << 63, (1 << 63) + 1024, (1 << 63) + 1025,
        (1 << 63) + 3072, u64::MAX - 2048, u64::MAX - 1024, u64::MAX - 1023, u64::MAX - 1,
        u64::MAX,
    ];
    let mut state: u64 = 0x9E3779B97F4A7C15;
    for _ in 0..20000 {
        state ^= state << 13;
        state ^= state >> 7;
        state ^= state << 17;
        samples.push(state);
        samples.push(state >> (state % 64));
    }
    for unit in [1024u64, 1024 * 1024, 1024 * 1024 * 1024, 1024 * 1024 * 1024 * 1024] {
        for eighth in 0..64u64 {
            samples.push(unit + unit / 8 * eighth);
            samples.push(unit + unit / 128 * eighth);
            samples.push(unit * 1023 + unit / 256 * (192 + eighth));
        }
    }
    for bytes in samples {
        assert_eq!(format_bytes(bytes), float_format(bytes), "{}", bytes);
    }
}

#[test]
fn format_bytes_rounds_ties_to_even() {
    assert_eq!(format_bytes(0), "0.00 B");
    assert_eq!(format_bytes(1023), "1023.00 B");
    assert_eq!(format_bytes(1536), "1.50 KB");
    assert_eq!(format_bytes(1152), "1.12 KB");
    assert_eq!(format_bytes(1408), "1.38 KB");
    assert_eq!(format_bytes(1024 * 1024 * 1024), "1.00 GB");
    assert_eq!(format_bytes(1024 * 1024 * 1024 * 1024), "1.00 TB");
    assert_eq!(format_bytes(u64::MAX), "16777216.00 TB");
}

#[test]
fn search_parameter_errors_name_the_rule() {
    let error = DataValidator::validate_search_params(0, Some(0)).unwrap_err();
    assert_eq!(error.message, "k must be greater than 0");
    assert_eq!(error.error_type, SerializationErrorType::InvalidInput);
    assert_eq!(DataValidator::validate_search_params(10001, None).unwrap_err().message, "k too large (max 10000)");
    assert_eq!(DataValidator::validate_search_params(1, Some(0)).unwrap_err().message, "ef_search must be greater than 0");
    assert_eq!(DataValidator::validate_search_params(10000, Some(10001)).unwrap_err().message, "ef_search too large (max 10000)");
    assert!(DataValidator::validate_search_params(10000, Some(10000)).is_ok());
    assert!(DataValidator::validate_search_params(1, Some(1)).is_ok());
}

#[test]
fn node_id_errors_name_the_rule() {
    assert_eq!(DataValidator::validate_node_id("").unwrap_err().message, "node_id cannot be empty");
    assert_eq!(DataValidator::validate_node_id(&"a".repeat(1001)).unwrap_err().message, "node_id too long (max 1000 characters)");
    assert!(DataValidator::validate_node_id(&"a".repeat(1000)).is_ok());
    for bad in ["a\tb", "a\nb", "caf\u{e9}", "a\u{7f}", "\u{0}"] {
        let error = DataValidator::validate_node_id(bad).unwrap_err();
        assert_eq!(error.message, "node_id contains invalid characters");
        assert_eq!(error.error_type, SerializationErrorType::InvalidInput);
    }
    assert!(DataValidator::validate_node_id(" !~src/main.rs:12").is_ok());
    let long_and_bad = "\u{e9}".repeat(501);
    assert_eq!(DataValidator::validate_node_id(&long_and_bad).unwrap_err().message, "node_id too long (max 1000 characters)");
}

#[test]
fn embedding_errors_name_the_rule() {
    let bits = |values: &[f32]| -> Vec<u32> { values.iter().map(|v| v.to_bits()).collect() };
    assert_eq!(DataValidator::validate_embedding(&bits(&[]), 0).unwrap_err().message, "Embedding vector cannot be empty");
    assert_eq!(
        DataValidator::validate_embedding(&bits(&[1.0, 2.0]), 3).unwrap_err().message,
        format!("Invalid embedding dimension: expected {}, got {}", 3, 2)
    );
    for (values, index) in [
        (vec![0.5, f32::NAN, f32::INFINITY], 1usize),
        (vec![f32::INFINITY, 1.0, 2.0], 0),
        (vec![0.0, -0.0, f32::NEG_INFINITY], 2),
        (vec![f32::MAX, f32::MIN_POSITIVE, -f32::NAN], 2),
    ] {
        let error = DataValidator::validate_embedding(&bits(&values), 3).unwrap_err();
        assert_eq!(error.message, format!("Invalid value at index {}: {}", index, values[index]));
        assert_eq!(error.error_type, SerializationErrorType::InvalidInput);
    }
    assert!(DataValidator::validate_embedding(&bits(&[f32::MAX, f32::MIN, 1e-45]), 3).is_ok());
}

#[test]
fn memory_estimate_follows_the_formula() {
    assert_eq!(MemoryManager::estimate_vector_memory(768, 1000), 768 * 1000 * 4 + 1000 * 64);
    assert_eq!(MemoryManager::estimate_vector_memory(0, 5), 320);
    assert_eq!(MemoryManager::estimate_vector_memory(5, 0), 0);
    assert!(MemoryManager::check_memory_limit(0, 1000, 768, 3).is_ok());
    assert!(MemoryManager::check_memory_limit(0, 1000, 768, 2).is_ok());
    let error = MemoryManager::check_memory_limit(500, 500, 768, 1).unwrap_err();
    assert_eq!(error.message, "Operation would exceed memory limit: 2 MB > 1 MB");
    assert_eq!(error.error_type, SerializationErrorType::MemoryAllocation);
}

#[test]
fn arrays_above_the_limit_are_refused() {
    assert!(check_array_length(0).is_ok());
    assert!(check_array_length(100_000).is_ok());
    let error = check_array_length(100_001).unwrap_err();
    assert_eq!(error.message, "Array too large: 100001 elements (max 100,000)");
    assert_eq!(error.error_type, SerializationErrorType::MemoryAllocation);
}

#[test]
fn index_configuration_is_checked_in_order() {
    let good = HnswConfig { embedding_dimension: 768, m: 16, ef_construction: 200, ef_search: 50, max_elements: 1000 };
    assert!(validate_index_config(&good).is_ok());
    let mut bad = good.clone();
    bad.embedding_dimension = 0;
    bad.m = 0;
    assert_eq!(validate_index_config(&bad).unwrap_err(), "Invalid embedding dimension: 0. Must be between 1 and 10000");
    bad.embedding_dimension = 10001;
    assert_eq!(validate_index_config(&bad).unwrap_err(), "Invalid embedding dimension: 10001. Must be between 1 and 10000");
    let mut bad = good.clone();
    bad.max_elements = 10_000_001;
    assert_eq!(validate_index_config(&bad).unwrap_err(), "Invalid max_elements: 10000001. Must be between 1 and 10,000,000");
    let mut bad = good.clone();
    bad.m = 101;
    assert_eq!(validate_index_config(&bad).unwrap_err(), "Invalid m parameter: 101. Must be between 1 and 100");
    let mut bad = good.clone();
    bad.ef_construction = 1001;
    assert_eq!(validate_index_config(&bad).unwrap_err(), "Invalid ef_construction: 1001. Must be between 1 and 1000");
    let edge = HnswConfig { embedding_dimension: 10000, m: 100, ef_construction: 1000, ef_search: 0, max_elements: 10_000_000 };
    assert!(validate_index_config(&edge).is_ok());
    assert!(index_is_reusable(&edge, &good) == false);
    let bigger = HnswConfig { max_elements: 2000, ..good.clone() };
    assert!(index_is_reusable(&bigger, &good));
    assert!(!index_is_reusable(&good, &bigger));
}
