//! Records of the persistence layer and the bounded cache in front of it.
//!
//! The cache keeps its entries in concurrent hash maps of the `dashmap`
//! crate. What those maps do is taken from that crate on trust; what the
//! cache does with them is proved.

use dashmap::DashMap;
use vstd::prelude::*;

verus! {

/// A file as the database knows it.
#[derive(Debug, Clone, PartialEq, Eq)]
pub struct FileRecord {
    pub id: i64,
    pub file_path: String,
    pub language: String,
    pub content_hash: String,
    pub ast_node_count: i64,
    pub processing_time_ms: i64,
    pub created_at: i64,
    pub updated_at: i64,
}

/// A syntax node as the database knows it.
#[derive(Debug, Clone, PartialEq, Eq)]
pub struct NodeRecord {
    pub id: i64,
    pub file_id: i64,
    pub node_type: String,
    pub start_byte: i64,
    pub end_byte: i64,
    pub start_row: i64,
    pub end_row: i64,
    pub start_column: i64,
    pub end_column: i64,
    pub text_content: String,
    pub parent_id: Option<i64>,
    pub is_named: bool,
    pub created_at: i64,
}

/// A vector as the database knows it.
#[derive(Debug, Clone, PartialEq, Eq)]
pub struct VectorRecord {
    pub id: i64,
    pub node_id: i64,
    /// The vector, encoded as JSON.
    pub vector_data: String,
    pub model_name: String,
    pub dimensions: i64,
    pub created_at: i64,
}

/// How full a cache is.
#[derive(Debug, Clone, Copy, PartialEq, Eq, Structural)]
pub struct CacheStats {
    pub file_count: usize,
    pub node_count: usize,
    pub vector_count: usize,
    pub max_size: usize,
}

/// How much the storage layer holds.
#[derive(Debug, Clone, Copy, PartialEq, Eq, Structural)]
pub struct StorageStats {
    pub file_count: u64,
    pub node_count: u64,
    pub vector_count: u64,
    pub cache_stats: CacheStats,
    pub connection_pool_size: u32,
    pub max_connections: u32,
}

/// `dashmap::DashMap`, a hash map that may be shared between threads.
#[verifier::external_type_specification]
#[verifier::external_body]
#[verifier::reject_recursive_types(K)]
#[verifier::reject_recursive_types(V)]
#[verifier::reject_recursive_types(S)]
pub struct ExDashMap<K, V, S>(DashMap<K, V, S>);

/// The records in a map of files, by path.
pub uninterp spec fn file_entries(map: DashMap<String, FileRecord>) -> Map<Seq<char>, FileRecord>;

/// The records in a map of nodes, by node identifier.
pub uninterp spec fn node_entries(map: DashMap<i64, NodeRecord>) -> Map<i64, NodeRecord>;

/// The records in a map of vectors, by node identifier.
pub uninterp spec fn vector_entries(map: DashMap<i64, VectorRecord>) -> Map<i64, VectorRecord>;

/// Calls `DashMap::new`, which makes an empty map.
#[verifier::external_body]
fn new_file_map() -> (table: DashMap<String, FileRecord>)
    ensures
        file_entries(table).dom() == Set::<Seq<char>>::empty(),
{
    DashMap::new()
}

/// Calls `DashMap::len`, the number of entries of the map.
#[verifier::external_body]
fn file_map_len(table: &DashMap<String, FileRecord>) -> (count: usize)
    ensures
        count == file_entries(*table).dom().len(),
{
    table.len()
}

/// Calls `DashMap::insert`, which puts the value under the key and replaces
/// what stood there.
#[verifier::external_body]
fn file_map_insert(table: &mut DashMap<String, FileRecord>, path: String, record: FileRecord)
    ensures
        file_entries(*final(table)) == file_entries(*old(table)).insert(path@, record),
{
    table.insert(path, record);
}

/// Calls `DashMap::get` and copies the value found, if there is one.
#[verifier::external_body]
fn file_map_get(table: &DashMap<String, FileRecord>, path: &str) -> (found: Option<FileRecord>)
    ensures
        found is Some <==> file_entries(*table).contains_key(path@),
        found matches Some(record) ==> file_entries(*table)[path@] == record,
{
    table.get(path).map(|entry| entry.clone())
}

/// Calls `DashMap::remove`, which takes the entry of the key out of the map
/// if there is one.
#[verifier::external_body]
fn file_map_remove(table: &mut DashMap<String, FileRecord>, path: &str)
    ensures
        file_entries(*final(table)) == file_entries(*old(table)).remove(path@),
{
    table.remove(path);
}

/// Calls `DashMap::clear`, which removes every entry.
#[verifier::external_body]
fn file_map_clear(table: &mut DashMap<String, FileRecord>)
    ensures
        file_entries(*final(table)).dom() == Set::<Seq<char>>::empty(),
{
    table.clear();
}

/// Calls `DashMap::new`, which makes an empty map.
#[verifier::external_body]
fn new_node_map() -> (table: DashMap<i64, NodeRecord>)
    ensures
        node_entries(table).dom() == Set::<i64>::empty(),
{
    DashMap::new()
}

/// Calls `DashMap::len`, the number of entries of the map.
#[verifier::external_body]
fn node_map_len(table: &DashMap<i64, NodeRecord>) -> (count: usize)
    ensures
        count == node_entries(*table).dom().len(),
{
    table.len()
}

/// Calls `DashMap::insert`, which puts the value under the key and replaces
/// what stood there.
#[verifier::external_body]
fn node_map_insert(table: &mut DashMap<i64, NodeRecord>, node_id: i64, record: NodeRecord)
    ensures
        node_entries(*final(table)) == node_entries(*old(table)).insert(node_id, record),
{
    table.insert(node_id, record);
}

/// Calls `DashMap::get` and copies the value found, if there is one.
#[verifier::external_body]
fn node_map_get(table: &DashMap<i64, NodeRecord>, node_id: i64) -> (found: Option<NodeRecord>)
    ensures
        found is Some <==> node_entries(*table).contains_key(node_id),
        found matches Some(record) ==> node_entries(*table)[node_id] == record,
{
    table.get(&node_id).map(|entry| entry.clone())
}

/// Calls `DashMap::clear`, which removes every entry.
#[verifier::external_body]
fn node_map_clear(table: &mut DashMap<i64, NodeRecord>)
    ensures
        node_entries(*final(table)).dom() == Set::<i64>::empty(),
{
    table.clear();
}

/// Calls `DashMap::new`, which makes an empty map.
#[verifier::external_body]
fn new_vector_map() -> (table: DashMap<i64, VectorRecord>)
    ensures
        vector_entries(table).dom() == Set::<i64>::empty(),
{
    DashMap::new()
}

/// Calls `DashMap::len`, the number of entries of the map.
#[verifier::external_body]
fn vector_map_len(table: &DashMap<i64, VectorRecord>) -> (count: usize)
    ensures
        count == vector_entries(*table).dom().len(),
{
    table.len()
}

/// Calls `DashMap::clear`, which removes every entry.
#[verifier::external_body]
fn vector_map_clear(table: &mut DashMap<i64, VectorRecord>)
    ensures
        vector_entries(*final(table)).dom() == Set::<i64>::empty(),
{
    table.clear();
}

/// What a cache holds.
pub struct CacheContents {
    pub files: Map<Seq<char>, FileRecord>,
    pub nodes: Map<i64, NodeRecord>,
    pub vectors: Map<i64, VectorRecord>,
    /// The number of entries from which on nothing more is taken in.
    pub max_size: nat,
}

impl CacheContents {
    /// No kind of record has more entries than the cache's limit.
    pub open spec fn within_limit(self) -> bool {
        &&& self.files.dom().finite() && self.files.dom().len() <= self.max_size
        &&& self.nodes.dom().finite() && self.nodes.dom().len() <= self.max_size
        &&& self.vectors.dom().finite() && self.vectors.dom().len() <= self.max_size
    }
}

/// A cache of records that were read from or written to the database. It
/// takes in entries until it holds `max_size` of a kind.
pub struct StorageCache {
    file_records: DashMap<String, FileRecord>,
    node_records: DashMap<i64, NodeRecord>,
    vector_records: DashMap<i64, VectorRecord>,
    max_size: usize,
}

impl View for StorageCache {
    type V = CacheContents;

    closed spec fn view(&self) -> CacheContents {
        CacheContents {
            files: file_entries(self.file_records),
            nodes: node_entries(self.node_records),
            vectors: vector_entries(self.vector_records),
            max_size: self.max_size as nat,
        }
    }
}

impl StorageCache {
    /// An empty cache that takes in up to `max_size` entries of each kind.
    pub fn new(max_size: usize) -> (cache: Self)
        ensures
            cache@.files == Map::<Seq<char>, FileRecord>::empty(),
            cache@.nodes == Map::<i64, NodeRecord>::empty(),
            cache@.vectors == Map::<i64, VectorRecord>::empty(),
            cache@.max_size == max_size,
            cache@.within_limit(),
    {
        let cache = StorageCache {
            file_records: new_file_map(),
            node_records: new_node_map(),
            vector_records: new_vector_map(),
            max_size,
        };
        proof {
            assert(cache@.files =~= Map::<Seq<char>, FileRecord>::empty());
            assert(cache@.nodes =~= Map::<i64, NodeRecord>::empty());
            assert(cache@.vectors =~= Map::<i64, VectorRecord>::empty());
        }
        cache
    }

    /// The record cached for a path, if there is one.
    pub fn get_file(&self, path: &str) -> (found: Option<FileRecord>)
        ensures
            found is Some <==> self@.files.contains_key(path@),
            found matches Some(record) ==> self@.files[path@] == record,
    {
        file_map_get(&self.file_records, path)
    }

    /// Caches a file's record under its path, unless the cache already holds
    /// `max_size` files.
    pub fn cache_file(&mut self, path: String, record: FileRecord)
        ensures
            final(self)@.files == if old(self)@.files.dom().len() < old(self)@.max_size {
                old(self)@.files.insert(path@, record)
            } else {
                old(self)@.files
            },
            final(self)@.nodes == old(self)@.nodes,
            final(self)@.vectors == old(self)@.vectors,
            final(self)@.max_size == old(self)@.max_size,
            old(self)@.within_limit() ==> final(self)@.within_limit(),
    {
        if file_map_len(&self.file_records) < self.max_size {
            file_map_insert(&mut self.file_records, path, record);
        }
    }

    /// The record cached for a node, if there is one.
    pub fn get_node(&self, node_id: i64) -> (found: Option<NodeRecord>)
        ensures
            found is Some <==> self@.nodes.contains_key(node_id),
            found matches Some(record) ==> self@.nodes[node_id] == record,
    {
        node_map_get(&self.node_records, node_id)
    }

    /// Caches a node's record under its identifier, unless the cache already
    /// holds `max_size` nodes.
    pub fn cache_node(&mut self, node_id: i64, record: NodeRecord)
        ensures
            final(self)@.nodes == if old(self)@.nodes.dom().len() < old(self)@.max_size {
                old(self)@.nodes.insert(node_id, record)
            } else {
                old(self)@.nodes
            },
            final(self)@.files == old(self)@.files,
            final(self)@.vectors == old(self)@.vectors,
            final(self)@.max_size == old(self)@.max_size,
            old(self)@.within_limit() ==> final(self)@.within_limit(),
    {
        if node_map_len(&self.node_records) < self.max_size {
            node_map_insert(&mut self.node_records, node_id, record);
        }
    }

    /// Drops the record cached for a path, if there is one.
    pub fn forget_file(&mut self, path: &str)
        ensures
            final(self)@.files == old(self)@.files.remove(path@),
            final(self)@.nodes == old(self)@.nodes,
            final(self)@.vectors == old(self)@.vectors,
            final(self)@.max_size == old(self)@.max_size,
            old(self)@.within_limit() ==> final(self)@.within_limit(),
    {
        proof {
            let files = old(self)@.files;
            if files.dom().finite() {
                if files.dom().contains(path@) {
                    files.lemma_remove_key_len(path@);
                } else {
                    assert(files.remove(path@) =~= files);
                }
            }
        }
        file_map_remove(&mut self.file_records, path);
    }

    /// Empties the cache.
    pub fn clear(&mut self)
        ensures
            final(self)@.files == Map::<Seq<char>, FileRecord>::empty(),
            final(self)@.nodes == Map::<i64, NodeRecord>::empty(),
            final(self)@.vectors == Map::<i64, VectorRecord>::empty(),
            final(self)@.max_size == old(self)@.max_size,
            final(self)@.within_limit(),
    {
        file_map_clear(&mut self.file_records);
        node_map_clear(&mut self.node_records);
        vector_map_clear(&mut self.vector_records);
        proof {
            assert(self@.files =~= Map::<Seq<char>, FileRecord>::empty());
            assert(self@.nodes =~= Map::<i64, NodeRecord>::empty());
            assert(self@.vectors =~= Map::<i64, VectorRecord>::empty());
        }
    }

    /// How many entries of each kind the cache holds, and its limit.
    pub fn cache_stats(&self) -> (stats: CacheStats)
        ensures
            stats.file_count == self@.files.dom().len(),
            stats.node_count == self@.nodes.dom().len(),
            stats.vector_count == self@.vectors.dom().len(),
            stats.max_size == self@.max_size,
    {
        CacheStats {
            file_count: file_map_len(&self.file_records),
            node_count: node_map_len(&self.node_records),
            vector_count: vector_map_len(&self.vector_records),
            max_size: self.max_size,
        }
    }
}

} // verus!
