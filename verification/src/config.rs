//! Configuration of the engine, its defaults, and how settings given as text
//! override them.

use vstd::prelude::*;
use vstd::string::*;

use crate::text::{lowercase, lowercased, parse_u32, parsed_u32, same_text};

verus! {

/// Configuration of the vector index.
#[derive(Clone, Debug, PartialEq, Eq)]
pub struct HnswConfig {
    pub embedding_dimension: u32,
    /// Number of connections per element.
    pub m: u32,
    pub ef_construction: u32,
    pub ef_search: u32,
    pub max_elements: u32,
}

/// Configuration of the storage layer.
#[derive(Clone, Debug, PartialEq, Eq)]
pub struct StorageConfig {
    pub db_path: String,
    pub max_connections: u32,
    pub connection_timeout_secs: u32,
    pub enable_wal: bool,
    pub cache_size_mb: u32,
}

/// Configuration of the engine.
#[derive(Clone, Debug, PartialEq, Eq)]
pub struct EngineConfig {
    pub max_memory_mb: u32,
    pub parallel_workers: u32,
    pub batch_size: u32,
    pub vector_dimensions: u32,
    pub hnsw_config: HnswConfig,
    pub storage_config: StorageConfig,
    pub debug_mode: bool,
}

impl HnswConfig {
    pub open spec fn is_default(&self) -> bool {
        &&& self.embedding_dimension == 384
        &&& self.m == 16
        &&& self.ef_construction == 200
        &&& self.ef_search == 100
        &&& self.max_elements == 1_000_000
    }
}

impl Default for HnswConfig {
    fn default() -> (config: Self)
        ensures
            config.is_default(),
    {
        HnswConfig {
            embedding_dimension: 384,
            m: 16,
            ef_construction: 200,
            ef_search: 100,
            max_elements: 1_000_000,
        }
    }
}

impl StorageConfig {
    pub open spec fn is_default(&self) -> bool {
        &&& self.db_path@ == ".astdb/index.db"@
        &&& self.max_connections == 10
        &&& self.connection_timeout_secs == 30
        &&& self.enable_wal
        &&& self.cache_size_mb == 256
    }
}

impl Default for StorageConfig {
    fn default() -> (config: Self)
        ensures
            config.is_default(),
    {
        StorageConfig {
            db_path: String::from_str(".astdb/index.db"),
            max_connections: 10,
            connection_timeout_secs: 30,
            enable_wal: true,
            cache_size_mb: 256,
        }
    }
}

impl EngineConfig {
    pub open spec fn is_default(&self) -> bool {
        &&& self.max_memory_mb == 1024
        &&& self.parallel_workers == 4
        &&& self.batch_size == 100
        &&& self.vector_dimensions == 768
        &&& self.hnsw_config.is_default()
        &&& self.storage_config.is_default()
        &&& !self.debug_mode
    }
}

impl Default for EngineConfig {
    fn default() -> (config: Self)
        ensures
            config.is_default(),
    {
        EngineConfig {
            max_memory_mb: 1024,
            parallel_workers: 4,
            batch_size: 100,
            vector_dimensions: 768,
            hnsw_config: HnswConfig::default(),
            storage_config: StorageConfig::default(),
            debug_mode: false,
        }
    }
}

/// The settings that the environment may give, each as the text found there.
#[derive(Clone, Debug, PartialEq, Eq)]
pub struct EnvironmentSettings {
    pub max_memory_mb: Option<String>,
    pub parallel_workers: Option<String>,
    pub batch_size: Option<String>,
    pub vector_dimensions: Option<String>,
    pub debug: Option<String>,
}

/// The number that a setting gives: the one it spells, or `fallback` where
/// the setting is absent or spells none.
pub open spec fn number_setting(setting: Option<String>, fallback: u32) -> u32 {
    match setting {
        Some(text) => match parsed_u32(text@) {
            Some(number) => number,
            None => fallback,
        },
        None => fallback,
    }
}

/// Whether a setting switches something on: it reads `true` in any case of
/// letters, or `1`.
pub open spec fn switch_setting(setting: Option<String>) -> bool {
    match setting {
        Some(text) => lowercased(text@) == "true"@ || text@ == "1"@,
        None => false,
    }
}

fn read_number(setting: &Option<String>, fallback: u32) -> (number: u32)
    ensures
        number == number_setting(*setting, fallback),
{
    match setting {
        Some(text) => match parse_u32(text.as_str()) {
            Some(number) => number,
            None => fallback,
        },
        None => fallback,
    }
}

fn read_switch(setting: &Option<String>) -> (on: bool)
    ensures
        on == switch_setting(*setting),
{
    match setting {
        Some(text) => {
            let lower = lowercase(text.as_str());
            same_text(lower.as_str(), "true") || same_text(text.as_str(), "1")
        },
        None => false,
    }
}

/// The configuration that the environment's settings give: each number that
/// is set and well spelled replaces its default, debug mode is on if so set,
/// and the index and storage keep their defaults.
pub fn config_from_environment(settings: &EnvironmentSettings) -> (config: EngineConfig)
    ensures
        config.max_memory_mb == number_setting(settings.max_memory_mb, 1024),
        config.parallel_workers == number_setting(settings.parallel_workers, 4),
        config.batch_size == number_setting(settings.batch_size, 100),
        config.vector_dimensions == number_setting(settings.vector_dimensions, 768),
        config.debug_mode == switch_setting(settings.debug),
        config.hnsw_config.is_default(),
        config.storage_config.is_default(),
{
    EngineConfig {
        max_memory_mb: read_number(&settings.max_memory_mb, 1024),
        parallel_workers: read_number(&settings.parallel_workers, 4),
        batch_size: read_number(&settings.batch_size, 100),
        vector_dimensions: read_number(&settings.vector_dimensions, 768),
        hnsw_config: HnswConfig::default(),
        storage_config: StorageConfig::default(),
        debug_mode: read_switch(&settings.debug),
    }
}

/// An index configuration for embeddings of `embedding_dimension`, with the
/// given connection count and construction width or, where they are absent,
/// 16 and 200.
pub fn create_hnsw_config(embedding_dimension: u32, m: Option<u32>, ef_construction: Option<u32>) -> (config:
    HnswConfig)
    ensures
        config.embedding_dimension == embedding_dimension,
        config.m == match m {
            Some(m) => m,
            None => 16,
        },
        config.ef_construction == match ef_construction {
            Some(width) => width,
            None => 200,
        },
        config.ef_search == 100,
        config.max_elements == 1_000_000,
{
    HnswConfig {
        embedding_dimension,
        m: match m {
            Some(m) => m,
            None => 16,
        },
        ef_construction: match ef_construction {
            Some(width) => width,
            None => 200,
        },
        ef_search: 100,
        max_elements: 1_000_000,
    }
}

} // verus!
