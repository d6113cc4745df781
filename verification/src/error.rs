//! Error types of the engine and their rendered messages.

use vstd::prelude::*;
use vstd::string::*;

use crate::text::{begins_with, decimal, push_decimal};

verus! {

/// `serde_json::Error`, carried through unopened.
#[verifier::external_type_specification]
#[verifier::external_body]
pub struct ExJsonError(serde_json::Error);

/// Renders a `serde_json::Error` through its `Display` impl. The text may
/// hold what the operating system says of an error, so nothing is claimed of
/// it.
#[verifier::external_body]
fn render_json_error(error: &serde_json::Error) -> (text: String) {
    error.to_string()
}

/// Failures of the vector database.
#[derive(Debug)]
pub enum VectorDatabaseError {
    IndexInit(String),
    Search(String),
    Insert(String),
    InvalidDimensions { expected: usize, actual: usize },
}

/// Failures of source parsing.
#[derive(Debug)]
pub enum ASTProcessingError {
    ParserInit(String),
    Parsing { file: String, error: String },
    UnsupportedLanguage(String),
    TreeSitter(String),
}

/// Failures of the persistence layer.
#[derive(Debug)]
pub enum StorageError {
    Connection(String),
    Query(String),
    Transaction(String),
    Migration(String),
}

/// Any failure the engine reports.
#[derive(Debug)]
pub enum EngineError {
    VectorDatabase(VectorDatabaseError),
    ASTProcessing(ASTProcessingError),
    Storage(StorageError),
    Configuration(String),
    Memory(String),
    /// An I/O failure, with the text the operating system gave for it.
    Io(String),
    Serialization(serde_json::Error),
    VectorDbError(String),
    ValidationError(String),
    InitializationError(String),
}

/// The kinds of failure the batch pipeline tells apart.
#[derive(Debug, Clone, Copy, PartialEq, Eq, Structural)]
pub enum ErrorKind {
    /// An admitted file could not be read.
    FileRead,
    /// The parsing collaborator rejected the file.
    Parse,
    /// The persistence collaborator rejected a record.
    Storage,
    /// The pipeline itself is at fault.
    Coordination,
}

fn prefixed(prefix: &str, detail: &str) -> (text: String)
    ensures
        text@ == prefix@ + detail@,
{
    let text = String::from_str(prefix).concat(detail);
    text
}

impl VectorDatabaseError {
    pub open spec fn message_text(&self) -> Seq<char> {
        match self {
            VectorDatabaseError::IndexInit(m) => "Index initialization failed: "@ + m@,
            VectorDatabaseError::Search(m) => "Search operation failed: "@ + m@,
            VectorDatabaseError::Insert(m) => "Insert operation failed: "@ + m@,
            VectorDatabaseError::InvalidDimensions { expected, actual } =>
                "Invalid vector dimensions: expected "@ + decimal(*expected as nat) + ", got "@
                    + decimal(*actual as nat),
        }
    }

    /// The message of this error.
    pub fn message(&self) -> (text: String)
        ensures
            text@ == self.message_text(),
    {
        match self {
            VectorDatabaseError::IndexInit(m) => prefixed("Index initialization failed: ", m.as_str()),
            VectorDatabaseError::Search(m) => prefixed("Search operation failed: ", m.as_str()),
            VectorDatabaseError::Insert(m) => prefixed("Insert operation failed: ", m.as_str()),
            VectorDatabaseError::InvalidDimensions { expected, actual } => {
                let mut text = String::from_str("Invalid vector dimensions: expected ");
                push_decimal(&mut text, *expected as u64);
                text.append(", got ");
                push_decimal(&mut text, *actual as u64);
                assert(text@ =~= self.message_text());
                text
            },
        }
    }
}

impl ASTProcessingError {
    pub open spec fn message_text(&self) -> Seq<char> {
        match self {
            ASTProcessingError::ParserInit(m) => "Parser initialization failed: "@ + m@,
            ASTProcessingError::Parsing { file, error } =>
                "Parsing failed for file "@ + file@ + ": "@ + error@,
            ASTProcessingError::UnsupportedLanguage(m) => "Unsupported language: "@ + m@,
            ASTProcessingError::TreeSitter(m) => "Tree-sitter error: "@ + m@,
        }
    }

    /// The message of this error.
    pub fn message(&self) -> (text: String)
        ensures
            text@ == self.message_text(),
    {
        match self {
            ASTProcessingError::ParserInit(m) => prefixed("Parser initialization failed: ", m.as_str()),
            ASTProcessingError::Parsing { file, error } => {
                let mut text = prefixed("Parsing failed for file ", file.as_str());
                text.append(": ");
                text.append(error.as_str());
                assert(text@ =~= self.message_text());
                text
            },
            ASTProcessingError::UnsupportedLanguage(m) => prefixed("Unsupported language: ", m.as_str()),
            ASTProcessingError::TreeSitter(m) => prefixed("Tree-sitter error: ", m.as_str()),
        }
    }
}

impl StorageError {
    pub open spec fn message_text(&self) -> Seq<char> {
        match self {
            StorageError::Connection(m) => "Database connection failed: "@ + m@,
            StorageError::Query(m) => "Query execution failed: "@ + m@,
            StorageError::Transaction(m) => "Transaction failed: "@ + m@,
            StorageError::Migration(m) => "Migration failed: "@ + m@,
        }
    }

    /// The message of this error.
    pub fn message(&self) -> (text: String)
        ensures
            text@ == self.message_text(),
    {
        match self {
            StorageError::Connection(m) => prefixed("Database connection failed: ", m.as_str()),
            StorageError::Query(m) => prefixed("Query execution failed: ", m.as_str()),
            StorageError::Transaction(m) => prefixed("Transaction failed: ", m.as_str()),
            StorageError::Migration(m) => prefixed("Migration failed: ", m.as_str()),
        }
    }
}

impl EngineError {
    /// The message of this error: a heading for its variant, then the
    /// detail. Of a serialization error it is the heading only, the text of
    /// the cause being the cause's own.
    pub open spec fn message_text(&self) -> Seq<char> {
        match self {
            EngineError::VectorDatabase(e) => "Vector database error: "@ + e.message_text(),
            EngineError::ASTProcessing(e) => "AST processing error: "@ + e.message_text(),
            EngineError::Storage(e) => "Storage error: "@ + e.message_text(),
            EngineError::Configuration(m) => "Configuration error: "@ + m@,
            EngineError::Memory(m) => "Memory error: "@ + m@,
            EngineError::Io(m) => "IO error: "@ + m@,
            EngineError::Serialization(_) => "Serialization error: "@,
            EngineError::VectorDbError(m) => "Vector database error: "@ + m@,
            EngineError::ValidationError(m) => "Validation error: "@ + m@,
            EngineError::InitializationError(m) => "Initialization error: "@ + m@,
        }
    }

    /// Whether `text` is the message of this error: it is the heading and the
    /// detail, where the cause of a serialization error may read anything.
    pub open spec fn renders_as(&self, text: Seq<char>) -> bool {
        if self is Serialization {
            begins_with(text, self.message_text())
        } else {
            text == self.message_text()
        }
    }

    /// The message of this error: a heading for its variant, then the detail.
    pub fn message(&self) -> (text: String)
        ensures
            self.renders_as(text@),
    {
        match self {
            EngineError::VectorDatabase(e) => {
                let detail = e.message();
                prefixed("Vector database error: ", detail.as_str())
            },
            EngineError::ASTProcessing(e) => {
                let detail = e.message();
                prefixed("AST processing error: ", detail.as_str())
            },
            EngineError::Storage(e) => {
                let detail = e.message();
                prefixed("Storage error: ", detail.as_str())
            },
            EngineError::Configuration(m) => prefixed("Configuration error: ", m.as_str()),
            EngineError::Memory(m) => prefixed("Memory error: ", m.as_str()),
            EngineError::Io(m) => prefixed("IO error: ", m.as_str()),
            EngineError::Serialization(e) => {
                let detail = render_json_error(e);
                let text = prefixed("Serialization error: ", detail.as_str());
                assert(text@.take("Serialization error: "@.len() as int)
                    =~= "Serialization error: "@);
                text
            },
            EngineError::VectorDbError(m) => prefixed("Vector database error: ", m.as_str()),
            EngineError::ValidationError(m) => prefixed("Validation error: ", m.as_str()),
            EngineError::InitializationError(m) => prefixed("Initialization error: ", m.as_str()),
        }
    }

    pub open spec fn spec_kind(&self) -> ErrorKind {
        match self {
            EngineError::Io(_) => ErrorKind::FileRead,
            EngineError::ASTProcessing(_) => ErrorKind::Parse,
            EngineError::Storage(_) => ErrorKind::Storage,
            _ => ErrorKind::Coordination,
        }
    }

    /// The pipeline's kind of this error: reading, parsing and storing fail
    /// one file only, anything else is the pipeline's own fault.
    #[verifier::when_used_as_spec(spec_kind)]
    pub fn kind(&self) -> (kind: ErrorKind)
        ensures
            kind == self.spec_kind(),
    {
        match self {
            EngineError::Io(_) => ErrorKind::FileRead,
            EngineError::ASTProcessing(_) => ErrorKind::Parse,
            EngineError::Storage(_) => ErrorKind::Storage,
            _ => ErrorKind::Coordination,
        }
    }
}

impl From<VectorDatabaseError> for EngineError {
    fn from(error: VectorDatabaseError) -> (wrapped: EngineError) {
        EngineError::VectorDatabase(error)
    }
}

impl vstd::std_specs::convert::FromSpecImpl<VectorDatabaseError> for EngineError {
    open spec fn obeys_from_spec() -> bool {
        true
    }

    open spec fn from_spec(error: VectorDatabaseError) -> EngineError {
        EngineError::VectorDatabase(error)
    }
}

impl From<ASTProcessingError> for EngineError {
    fn from(error: ASTProcessingError) -> (wrapped: EngineError) {
        EngineError::ASTProcessing(error)
    }
}

impl vstd::std_specs::convert::FromSpecImpl<ASTProcessingError> for EngineError {
    open spec fn obeys_from_spec() -> bool {
        true
    }

    open spec fn from_spec(error: ASTProcessingError) -> EngineError {
        EngineError::ASTProcessing(error)
    }
}

impl From<StorageError> for EngineError {
    fn from(error: StorageError) -> (wrapped: EngineError) {
        EngineError::Storage(error)
    }
}

impl vstd::std_specs::convert::FromSpecImpl<StorageError> for EngineError {
    open spec fn obeys_from_spec() -> bool {
        true
    }

    open spec fn from_spec(error: StorageError) -> EngineError {
        EngineError::Storage(error)
    }
}

impl From<serde_json::Error> for EngineError {
    fn from(error: serde_json::Error) -> (wrapped: EngineError) {
        EngineError::Serialization(error)
    }
}

impl vstd::std_specs::convert::FromSpecImpl<serde_json::Error> for EngineError {
    open spec fn obeys_from_spec() -> bool {
        true
    }

    open spec fn from_spec(error: serde_json::Error) -> EngineError {
        EngineError::Serialization(error)
    }
}

} // verus!
