//! Checks on what a host hands to the vector database, and estimates of the
//! memory that vectors take.

use vstd::prelude::*;
use vstd::std_specs::iter::IteratorSpec;
use vstd::string::*;

use crate::config::HnswConfig;
use crate::error::EngineError;
use crate::text::{decimal, push_decimal};

verus! {

/// What went wrong in a conversion or a check.
#[derive(Debug, Clone, Copy, PartialEq, Eq, Structural)]
pub enum SerializationErrorType {
    TypeConversion,
    JsonParsing,
    ArrayConversion,
    InvalidInput,
    MemoryAllocation,
}

/// A failed conversion or check.
#[derive(Debug)]
pub struct SerializationError {
    pub message: String,
    pub error_type: SerializationErrorType,
}

impl SerializationError {
    pub fn new(message: String, error_type: SerializationErrorType) -> (error: Self)
        ensures
            error.message == message,
            error.error_type == error_type,
    {
        SerializationError { message, error_type }
    }

    /// Whether this error is of the given type and reads `message`.
    pub open spec fn reads(&self, error_type: SerializationErrorType, message: Seq<char>) -> bool {
        self.error_type == error_type && self.message@ == message
    }
}

fn invalid_input(message: &str) -> (error: SerializationError)
    ensures
        error.reads(SerializationErrorType::InvalidInput, message@),
{
    SerializationError::new(String::from_str(message), SerializationErrorType::InvalidInput)
}

/// The largest number of results, and the largest search width, that a
/// search may ask for.
pub const MAX_SEARCH_WIDTH: u32 = 10000;

/// The largest length of a node identifier, in bytes.
pub const MAX_NODE_ID_LENGTH: usize = 1000;

/// What is wrong with the parameters of a search, if anything: the first of
/// the rules that they break.
pub open spec fn search_params_fault(k: u32, ef_search: Option<u32>) -> Option<Seq<char>> {
    if k == 0 {
        Some("k must be greater than 0"@)
    } else if k > MAX_SEARCH_WIDTH {
        Some("k too large (max 10000)"@)
    } else if ef_search == Some(0u32) {
        Some("ef_search must be greater than 0"@)
    } else if ef_search is Some && ef_search->0 > MAX_SEARCH_WIDTH {
        Some("ef_search too large (max 10000)"@)
    } else {
        None
    }
}

/// A character that may stand in a node identifier: printable ASCII, that is
/// ASCII that is no control character.
pub open spec fn is_printable_ascii(c: char) -> bool {
    ' ' <= c <= '~'
}

/// Whether every character of a text may stand in a node identifier.
pub open spec fn all_printable_ascii(text: Seq<char>) -> bool {
    forall|i: int| 0 <= i < text.len() ==> is_printable_ascii(#[trigger] text[i])
}

/// The length of a text in bytes, as `str::len` gives it.
pub open spec fn byte_length(text: Seq<char>) -> usize {
    vstd::utf8::encode_utf8(text).len() as usize
}

/// What is wrong with a node identifier, if anything: the first of the rules
/// that it breaks.
pub open spec fn node_id_fault(node_id: Seq<char>) -> Option<Seq<char>> {
    if node_id.len() == 0 {
        Some("node_id cannot be empty"@)
    } else if byte_length(node_id) > MAX_NODE_ID_LENGTH {
        Some("node_id too long (max 1000 characters)"@)
    } else if !all_printable_ascii(node_id) {
        Some("node_id contains invalid characters"@)
    } else {
        None
    }
}

/// Whether the bits of a 32-bit float stand for a finite number: the
/// exponent is not all ones.
pub open spec fn is_finite_bits(bits: u32) -> bool {
    bits & 0x7F80_0000u32 != 0x7F80_0000u32
}

/// How a float that is not finite is written: `NaN`, `inf` or `-inf`.
pub open spec fn non_finite_text(bits: u32) -> Seq<char> {
    if bits & 0x007F_FFFFu32 != 0 {
        "NaN"@
    } else if bits & 0x8000_0000u32 != 0 {
        "-inf"@
    } else {
        "inf"@
    }
}

/// The position of the first value that is not finite, or the number of
/// values if all are finite.
pub open spec fn first_non_finite(bits: Seq<u32>) -> int
    decreases bits.len(),
{
    if bits.len() == 0 {
        0
    } else if first_non_finite(bits.drop_last()) < bits.len() - 1 {
        first_non_finite(bits.drop_last())
    } else if is_finite_bits(bits.last()) {
        bits.len() as int
    } else {
        bits.len() - 1
    }
}

/// What is wrong with an embedding, given by the bits of its values, if
/// anything: the first of the rules that it breaks.
pub open spec fn embedding_fault(bits: Seq<u32>, expected_dimension: usize) -> Option<Seq<char>> {
    if bits.len() == 0 {
        Some("Embedding vector cannot be empty"@)
    } else if bits.len() != expected_dimension {
        Some(
            "Invalid embedding dimension: expected "@ + decimal(expected_dimension as nat)
                + ", got "@ + decimal(bits.len()),
        )
    } else if first_non_finite(bits) < bits.len() {
        Some(
            "Invalid value at index "@ + decimal(first_non_finite(bits) as nat) + ": "@
                + non_finite_text(bits[first_non_finite(bits)]),
        )
    } else {
        None
    }
}

/// The first value that is not finite is not finite, and all before it are.
pub proof fn lemma_first_non_finite(bits: Seq<u32>)
    ensures
        0 <= first_non_finite(bits) <= bits.len(),
        first_non_finite(bits) < bits.len() ==> !is_finite_bits(bits[first_non_finite(bits)]),
        forall|i: int| 0 <= i < first_non_finite(bits) ==> is_finite_bits(#[trigger] bits[i]),
    decreases bits.len(),
{
    if bits.len() > 0 {
        lemma_first_non_finite(bits.drop_last());
        assert forall|i: int| 0 <= i < first_non_finite(bits) implies is_finite_bits(
            #[trigger] bits[i],
        ) by {
            if i < bits.len() - 1 {
                assert(bits.drop_last()[i] == bits[i]);
            }
        }
        if first_non_finite(bits.drop_last()) < bits.len() - 1 {
            assert(bits.drop_last()[first_non_finite(bits.drop_last())] == bits[first_non_finite(
                bits.drop_last(),
            )]);
        }
    }
}

/// If the values before `k` are finite and the one at `k` is not, `k` is the
/// first that is not.
pub proof fn lemma_first_non_finite_is(bits: Seq<u32>, k: int)
    requires
        0 <= k <= bits.len(),
        forall|i: int| 0 <= i < k ==> is_finite_bits(#[trigger] bits[i]),
        k < bits.len() ==> !is_finite_bits(bits[k]),
    ensures
        first_non_finite(bits) == k,
{
    lemma_first_non_finite(bits);
    let f = first_non_finite(bits);
    if f < k {
        assert(is_finite_bits(bits[f]));
    } else if f > k {
        assert(is_finite_bits(bits[k]));
    }
}

/// Checks on data before it is processed.
pub struct DataValidator;

impl DataValidator {
    /// Checks the parameters of a search: `k` and, where given, `ef_search`
    /// must lie between 1 and 10000.
    pub fn validate_search_params(k: u32, ef_search: Option<u32>) -> (outcome: Result<
        (),
        SerializationError,
    >)
        ensures
            match outcome {
                Ok(()) => search_params_fault(k, ef_search) is None,
                Err(error) => search_params_fault(k, ef_search) matches Some(message) && error.reads(
                    SerializationErrorType::InvalidInput,
                    message,
                ),
            },
    {
        if k == 0 {
            return Err(invalid_input("k must be greater than 0"));
        }
        if k > MAX_SEARCH_WIDTH {
            return Err(invalid_input("k too large (max 10000)"));
        }
        match ef_search {
            Some(ef) => {
                if ef == 0 {
                    return Err(invalid_input("ef_search must be greater than 0"));
                }
                if ef > MAX_SEARCH_WIDTH {
                    return Err(invalid_input("ef_search too large (max 10000)"));
                }
            },
            None => {},
        }
        Ok(())
    }

    /// Checks a node identifier: it must not be empty, not take more than
    /// 1000 bytes, and hold printable ASCII only.
    pub fn validate_node_id(node_id: &str) -> (outcome: Result<(), SerializationError>)
        ensures
            match outcome {
                Ok(()) => node_id_fault(node_id@) is None,
                Err(error) => node_id_fault(node_id@) matches Some(message) && error.reads(
                    SerializationErrorType::InvalidInput,
                    message,
                ),
            },
    {
        broadcast use vstd::string::group_string_axioms;

        if node_id.is_empty() {
            return Err(invalid_input("node_id cannot be empty"));
        }
        if node_id.len() > MAX_NODE_ID_LENGTH {
            return Err(invalid_input("node_id too long (max 1000 characters)"));
        }
        let mut chars = node_id.chars();
        let ghost mut k: int = 0;
        assert(node_id@.skip(0) =~= node_id@);
        loop
            invariant
                chars.obeys_prophetic_iter_laws(),
                0 <= k <= node_id@.len(),
                chars.remaining() == node_id@.skip(k),
                node_id@.len() > 0,
                byte_length(node_id@) <= MAX_NODE_ID_LENGTH,
                forall|i: int| 0 <= i < k ==> is_printable_ascii(#[trigger] node_id@[i]),
            decreases node_id@.len() - k,
        {
            match chars.next() {
                None => {
                    return Ok(());
                },
                Some(c) => {
                    if !(c >= ' ' && c <= '~') {
                        assert(!is_printable_ascii(node_id@[k]));
                        return Err(invalid_input("node_id contains invalid characters"));
                    }
                    proof {
                        assert(node_id@.skip(k).drop_first() =~= node_id@.skip(k + 1));
                        k = k + 1;
                    }
                },
            }
        }
    }

    /// Checks an embedding, given by the bits of its 32-bit float values: it
    /// must not be empty, must have the expected number of values, and every
    /// value must be finite. The message names the first value that is not.
    pub fn validate_embedding(embedding_bits: &Vec<u32>, expected_dimension: usize) -> (outcome:
        Result<(), SerializationError>)
        ensures
            match outcome {
                Ok(()) => embedding_fault(embedding_bits@, expected_dimension) is None,
                Err(error) => embedding_fault(embedding_bits@, expected_dimension) matches Some(
                    message,
                ) && error.reads(SerializationErrorType::InvalidInput, message),
            },
    {
        if embedding_bits.len() == 0 {
            return Err(invalid_input("Embedding vector cannot be empty"));
        }
        if embedding_bits.len() != expected_dimension {
            let mut message = String::from_str("Invalid embedding dimension: expected ");
            push_decimal(&mut message, expected_dimension as u64);
            message.append(", got ");
            push_decimal(&mut message, embedding_bits.len() as u64);
            assert(message@ =~= "Invalid embedding dimension: expected "@ + decimal(
                expected_dimension as nat,
            ) + ", got "@ + decimal(embedding_bits@.len()));
            return Err(SerializationError::new(message, SerializationErrorType::InvalidInput));
        }
        let mut i: usize = 0;
        while i < embedding_bits.len()
            invariant
                i <= embedding_bits.len(),
                embedding_bits@.len() == expected_dimension,
                embedding_bits@.len() > 0,
                forall|j: int| 0 <= j < i ==> is_finite_bits(#[trigger] embedding_bits@[j]),
            decreases embedding_bits.len() - i,
        {
            let bits: u32 = embedding_bits[i];
            if bits & 0x7F80_0000u32 == 0x7F80_0000u32 {
                proof {
                    lemma_first_non_finite_is(embedding_bits@, i as int);
                }
                let mut message = String::from_str("Invalid value at index ");
                push_decimal(&mut message, i as u64);
                message.append(": ");
                if bits & 0x007F_FFFFu32 != 0 {
                    message.append("NaN");
                } else if bits & 0x8000_0000u32 != 0 {
                    message.append("-inf");
                } else {
                    message.append("inf");
                }
                assert(message@ =~= "Invalid value at index "@ + decimal(i as nat) + ": "@
                    + non_finite_text(bits));
                return Err(SerializationError::new(message, SerializationErrorType::InvalidInput));
            }
            i = i + 1;
        }
        proof {
            lemma_first_non_finite_is(embedding_bits@, embedding_bits@.len() as int);
        }
        Ok(())
    }
}

/// The memory that `count` vectors of `dimensions` values take, in bytes:
/// four bytes for each value and 64 bytes of overhead for each vector.
pub open spec fn vector_memory(dimensions: nat, count: nat) -> nat {
    dimensions * count * 4 + count * 64
}

/// The message of an operation that would take `estimated_mb` megabytes where
/// `max_memory_mb` are allowed.
pub open spec fn memory_limit_message(estimated_mb: nat, max_memory_mb: nat) -> Seq<char> {
    "Operation would exceed memory limit: "@ + decimal(estimated_mb) + " MB > "@ + decimal(
        max_memory_mb,
    ) + " MB"@
}

/// Estimates of the memory that vectors take.
pub struct MemoryManager;

impl MemoryManager {
    /// The memory that `count` vectors of `dimensions` values take, in bytes.
    pub fn estimate_vector_memory(dimensions: usize, count: usize) -> (bytes: usize)
        requires
            vector_memory(dimensions as nat, count as nat) <= usize::MAX,
        ensures
            bytes == vector_memory(dimensions as nat, count as nat),
    {
        proof {
            assert(dimensions * count <= vector_memory(dimensions as nat, count as nat))
                by (nonlinear_arith);
            assert(dimensions * count * 4 <= vector_memory(dimensions as nat, count as nat))
                by (nonlinear_arith);
            assert(count * 64 <= vector_memory(dimensions as nat, count as nat))
                by (nonlinear_arith);
        }
        (dimensions * count * 4) + (count * 64)
    }

    /// Whether adding `new_vectors` to `current_vectors` stays within
    /// `max_memory_mb` megabytes. The estimate for all the vectors, in whole
    /// megabytes, must not exceed the limit; the error names both numbers.
    pub fn check_memory_limit(
        current_vectors: usize,
        new_vectors: usize,
        dimensions: usize,
        max_memory_mb: usize,
    ) -> (outcome: Result<(), SerializationError>)
        requires
            current_vectors + new_vectors <= usize::MAX,
            vector_memory(dimensions as nat, (current_vectors + new_vectors) as nat) <= usize::MAX,
        ensures
            match outcome {
                Ok(()) => vector_memory(dimensions as nat, (current_vectors + new_vectors) as nat)
                    / (1024 * 1024) <= max_memory_mb,
                Err(error) => {
                    &&& vector_memory(dimensions as nat, (current_vectors + new_vectors) as nat)
                        / (1024 * 1024) > max_memory_mb
                    &&& error.reads(
                        SerializationErrorType::MemoryAllocation,
                        memory_limit_message(
                            vector_memory(
                                dimensions as nat,
                                (current_vectors + new_vectors) as nat,
                            ) / (1024 * 1024),
                            max_memory_mb as nat,
                        ),
                    )
                },
            },
    {
        let total_vectors: usize = current_vectors + new_vectors;
        let estimated_mb: usize = Self::estimate_vector_memory(dimensions, total_vectors) / (1024
            * 1024);
        if estimated_mb > max_memory_mb {
            let mut message = String::from_str("Operation would exceed memory limit: ");
            push_decimal(&mut message, estimated_mb as u64);
            message.append(" MB > ");
            push_decimal(&mut message, max_memory_mb as u64);
            message.append(" MB");
            assert(message@ =~= memory_limit_message(estimated_mb as nat, max_memory_mb as nat));
            return Err(SerializationError::new(message, SerializationErrorType::MemoryAllocation));
        }
        Ok(())
    }
}

/// The largest number of values that an array handed over by a host may hold.
pub const MAX_ARRAY_LENGTH: usize = 100_000;

/// Whether an array of `length` values is taken over from a host: it is not
/// if it holds more than 100,000 values, and the error says how many it holds.
pub fn check_array_length(length: usize) -> (outcome: Result<(), SerializationError>)
    ensures
        match outcome {
            Ok(()) => length <= MAX_ARRAY_LENGTH,
            Err(error) => length > MAX_ARRAY_LENGTH && error.reads(
                SerializationErrorType::MemoryAllocation,
                "Array too large: "@ + decimal(length as nat) + " elements (max 100,000)"@,
            ),
        },
{
    if length > MAX_ARRAY_LENGTH {
        let mut message = String::from_str("Array too large: ");
        push_decimal(&mut message, length as u64);
        message.append(" elements (max 100,000)");
        assert(message@ =~= "Array too large: "@ + decimal(length as nat)
            + " elements (max 100,000)"@);
        return Err(SerializationError::new(message, SerializationErrorType::MemoryAllocation));
    }
    Ok(())
}

/// What is wrong with the configuration of a vector index, if anything: the
/// first of the rules that it breaks.
pub open spec fn index_config_fault(config: HnswConfig) -> Option<Seq<char>> {
    if config.embedding_dimension == 0 || config.embedding_dimension > 10000 {
        Some(
            "Invalid embedding dimension: "@ + decimal(config.embedding_dimension as nat)
                + ". Must be between 1 and 10000"@,
        )
    } else if config.max_elements == 0 || config.max_elements > 10_000_000 {
        Some(
            "Invalid max_elements: "@ + decimal(config.max_elements as nat)
                + ". Must be between 1 and 10,000,000"@,
        )
    } else if config.m == 0 || config.m > 100 {
        Some("Invalid m parameter: "@ + decimal(config.m as nat) + ". Must be between 1 and 100"@)
    } else if config.ef_construction == 0 || config.ef_construction > 1000 {
        Some(
            "Invalid ef_construction: "@ + decimal(config.ef_construction as nat)
                + ". Must be between 1 and 1000"@,
        )
    } else {
        None
    }
}

fn out_of_range(prefix: &str, value: u32, suffix: &str) -> (message: String)
    ensures
        message@ == prefix@ + decimal(value as nat) + suffix@,
{
    let mut message = String::from_str(prefix);
    push_decimal(&mut message, value as u64);
    message.append(suffix);
    assert(message@ =~= prefix@ + decimal(value as nat) + suffix@);
    message
}

/// Checks the configuration of a vector index: the embedding dimension must
/// lie between 1 and 10000, the number of elements between 1 and 10,000,000,
/// the connection count between 1 and 100, and the construction width between
/// 1 and 1000. The message names the first number that does not.
pub fn validate_index_config(config: &HnswConfig) -> (outcome: Result<(), String>)
    ensures
        match outcome {
            Ok(()) => index_config_fault(*config) is None,
            Err(message) => index_config_fault(*config) == Some(message@),
        },
{
    if config.embedding_dimension == 0 || config.embedding_dimension > 10000 {
        return Err(
            out_of_range(
                "Invalid embedding dimension: ",
                config.embedding_dimension,
                ". Must be between 1 and 10000",
            ),
        );
    }
    if config.max_elements == 0 || config.max_elements > 10_000_000 {
        return Err(
            out_of_range(
                "Invalid max_elements: ",
                config.max_elements,
                ". Must be between 1 and 10,000,000",
            ),
        );
    }
    if config.m == 0 || config.m > 100 {
        return Err(out_of_range("Invalid m parameter: ", config.m, ". Must be between 1 and 100"));
    }
    if config.ef_construction == 0 || config.ef_construction > 1000 {
        return Err(
            out_of_range(
                "Invalid ef_construction: ",
                config.ef_construction,
                ". Must be between 1 and 1000",
            ),
        );
    }
    Ok(())
}

/// Whether an index that exists can serve a request for a new one: it can if
/// it has the requested dimension and room for at least as many elements.
pub fn index_is_reusable(existing: &HnswConfig, requested: &HnswConfig) -> (reusable: bool)
    ensures
        reusable == (existing.embedding_dimension == requested.embedding_dimension
            && existing.max_elements >= requested.max_elements),
{
    existing.embedding_dimension == requested.embedding_dimension && existing.max_elements
        >= requested.max_elements
}

/// The message for a vector of `actual` values where `expected` are due.
/// `what` names the vector: an embedding to add, or the embedding of a query.
pub open spec fn dimension_message(what: Seq<char>, expected: nat, actual: nat) -> Seq<char> {
    "Invalid "@ + what + " dimension: expected "@ + decimal(expected) + ", got "@ + decimal(actual)
}

fn check_dimension(what: &str, expected: u32, actual: usize) -> (outcome: Result<(), EngineError>)
    ensures
        match outcome {
            Ok(()) => actual == expected,
            Err(error) => {
                &&& actual != expected
                &&& error is ValidationError
                &&& error->ValidationError_0@ == dimension_message(
                    what@,
                    expected as nat,
                    actual as nat,
                )
            },
        },
{
    if actual == expected as usize {
        return Ok(());
    }
    let mut message = String::from_str("Invalid ");
    message.append(what);
    message.append(" dimension: expected ");
    push_decimal(&mut message, expected as u64);
    message.append(", got ");
    push_decimal(&mut message, actual as u64);
    assert(message@ =~= dimension_message(what@, expected as nat, actual as nat));
    Err(EngineError::ValidationError(message))
}

/// Whether a vector of `actual` values may be added to a database of
/// `expected` dimensions: it may if the numbers agree.
pub fn check_embedding_dimension(expected: u32, actual: usize) -> (outcome: Result<(), EngineError>)
    ensures
        match outcome {
            Ok(()) => actual == expected,
            Err(error) => {
                &&& actual != expected
                &&& error is ValidationError
                &&& error->ValidationError_0@ == dimension_message(
                    "embedding"@,
                    expected as nat,
                    actual as nat,
                )
            },
        },
{
    check_dimension("embedding", expected, actual)
}

/// Whether a query of `actual` values may be put to a database of
/// `expected` dimensions: it may if the numbers agree.
pub fn check_query_dimension(expected: u32, actual: usize) -> (outcome: Result<(), EngineError>)
    ensures
        match outcome {
            Ok(()) => actual == expected,
            Err(error) => {
                &&& actual != expected
                &&& error is ValidationError
                &&& error->ValidationError_0@ == dimension_message(
                    "query embedding"@,
                    expected as nat,
                    actual as nat,
                )
            },
        },
{
    check_dimension("query embedding", expected, actual)
}

} // verus!
