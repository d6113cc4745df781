//! Plain data exchanged with the hosts of the engine.

use vstd::prelude::*;
use vstd::string::*;

verus! {

/// Health report of the engine.
#[derive(Clone, Debug, PartialEq, Eq)]
pub struct EngineHealth {
    pub status: String,
    pub memory_usage_mb: u32,
    pub version: String,
    pub timestamp: u32,
}

/// Options of a processing run.
#[derive(Clone, Debug, PartialEq, Eq)]
pub struct ProcessingOptions {
    pub max_memory_mb: u32,
    pub batch_size: u32,
    pub parallel_workers: u32,
    pub vector_dimensions: u32,
    pub index_ef_construction: u32,
    pub index_m: u32,
    pub max_depth: u32,
    pub include_unnamed_nodes: bool,
    pub max_node_length: u32,
    pub enable_caching: bool,
}

impl Default for ProcessingOptions {
    fn default() -> (options: Self)
        ensures
            options.max_memory_mb == 1024,
            options.batch_size == 100,
            options.parallel_workers == 4,
            options.vector_dimensions == 768,
            options.index_ef_construction == 200,
            options.index_m == 16,
            options.max_depth == 10,
            !options.include_unnamed_nodes,
            options.max_node_length == 1000,
            options.enable_caching,
    {
        ProcessingOptions {
            max_memory_mb: 1024,
            batch_size: 100,
            parallel_workers: 4,
            vector_dimensions: 768,
            index_ef_construction: 200,
            index_m: 16,
            max_depth: 10,
            include_unnamed_nodes: false,
            max_node_length: 1000,
            enable_caching: true,
        }
    }
}

/// One file's failure, as reported to a host.
#[derive(Clone, Debug, PartialEq, Eq)]
pub struct ProcessingError {
    pub file_path: String,
    pub error_type: String,
    pub message: String,
}

/// A position in a source text.
#[derive(Clone, Copy, Debug, PartialEq, Eq, Structural)]
pub struct Point {
    pub row: u32,
    pub column: u32,
}

/// A node of a syntax tree.
#[derive(Clone, Debug, PartialEq, Eq)]
pub struct ASTNode {
    pub id: String,
    pub node_type: String,
    pub start_byte: u32,
    pub end_byte: u32,
    pub start_point: Point,
    pub end_point: Point,
    pub text: String,
    pub language: String,
    pub complexity: i32,
    pub parent_id: Option<String>,
    pub children_ids: Vec<String>,
}

/// What is stored of a node.
#[derive(Clone, Debug, PartialEq, Eq)]
pub struct NodeMetadata {
    pub node_id: String,
    pub file_path: String,
    pub signature: String,
    pub summary: String,
    pub source_snippet: String,
    pub complexity: i32,
    pub language: String,
}

/// What an annotator says of a node.
#[derive(Clone, Debug, PartialEq, Eq)]
pub struct Annotation {
    pub signature: String,
    pub summary: String,
    pub source_snippet: String,
    pub complexity: i32,
    pub language: String,
}

/// What is stored beside a vector.
#[derive(Clone, Debug, PartialEq, Eq)]
pub struct VectorMetadata {
    pub node_id: String,
    pub file_path: String,
    pub node_type: String,
    pub signature: String,
    pub language: String,
    pub embedding_model: String,
    pub timestamp: u32,
}

} // verus!
