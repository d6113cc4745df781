//! The persistence collaborator as the pipeline sees it: a store that is
//! written by upserts, keyed by record identifier.

use vstd::prelude::*;

use crate::text::{decimal, digit_char};
use crate::types::NodeMetadata;
use crate::worker::record_id;

verus! {

/// A store after one record has been upserted: the record stands under its
/// identifier, whatever stood there before.
pub open spec fn upsert(store: Map<Seq<char>, NodeMetadata>, record: NodeMetadata) -> Map<
    Seq<char>,
    NodeMetadata,
> {
    store.insert(record.node_id@, record)
}

/// A store after some records have been upserted one after the other.
pub open spec fn upsert_all(store: Map<Seq<char>, NodeMetadata>, records: Seq<NodeMetadata>) -> Map<
    Seq<char>,
    NodeMetadata,
>
    decreases records.len(),
{
    if records.len() == 0 {
        store
    } else {
        upsert(upsert_all(store, records.drop_last()), records.last())
    }
}

/// Whether one of the records has the identifier `key`.
pub open spec fn writes_key(records: Seq<NodeMetadata>, key: Seq<char>) -> bool {
    exists|i: int| 0 <= i < records.len() && (#[trigger] records[i]).node_id@ == key
}

/// What stands under a key after some upserts depends on the store before
/// them only where none of the records has that key.
pub proof fn lemma_upsert_all_at(
    store: Map<Seq<char>, NodeMetadata>,
    other: Map<Seq<char>, NodeMetadata>,
    records: Seq<NodeMetadata>,
    key: Seq<char>,
)
    ensures
        writes_key(records, key) ==> {
            &&& upsert_all(store, records).contains_key(key)
            &&& upsert_all(other, records).contains_key(key)
            &&& upsert_all(store, records)[key] == upsert_all(other, records)[key]
        },
        !writes_key(records, key) ==> {
            &&& upsert_all(store, records).contains_key(key) == store.contains_key(key)
            &&& upsert_all(store, records)[key] == store[key]
        },
    decreases records.len(),
{
    if records.len() > 0 {
        let earlier = records.drop_last();
        lemma_upsert_all_at(store, other, earlier, key);
        if records.last().node_id@ == key {
            assert(records[records.len() - 1].node_id@ == key);
        } else if writes_key(records, key) {
            let i = choose|i: int| 0 <= i < records.len() && (#[trigger] records[i]).node_id@ == key;
            assert(earlier[i].node_id@ == key);
        } else if writes_key(earlier, key) {
            let i = choose|i: int| 0 <= i < earlier.len() && (#[trigger] earlier[i]).node_id@ == key;
            assert(records[i].node_id@ == key);
        }
    }
}

/// Idempotent re-run: storing the records of a run a second time leaves the
/// store as the first run left it. Every write is an upsert, so a record that
/// is already there is replaced and never refused.
pub proof fn law_rerun_is_idempotent(store: Map<Seq<char>, NodeMetadata>, records: Seq<NodeMetadata>)
    ensures
        upsert_all(upsert_all(store, records), records) == upsert_all(store, records),
{
    let once = upsert_all(store, records);
    let twice = upsert_all(once, records);
    assert forall|key: Seq<char>| #[trigger] twice.dom().contains(key) == once.dom().contains(key) by {
        lemma_upsert_all_at(once, store, records, key);
    }
    assert forall|key: Seq<char>| once.dom().contains(key) implies #[trigger] twice[key] == once[key] by {
        lemma_upsert_all_at(once, store, records, key);
    }
    assert(twice.dom() =~= once.dom());
    assert(twice =~= once);
}

/// A decimal numeral has at least one digit, and more than one from 10 on.
pub proof fn lemma_decimal_length(n: nat)
    ensures
        decimal(n).len() >= 1,
        n >= 10 ==> decimal(n).len() >= 2,
    decreases n,
{
    if n >= 10 {
        lemma_decimal_length(n / 10);
    }
}

/// Different numbers have different decimal numerals.
pub proof fn lemma_decimal_injective(a: nat, b: nat)
    requires
        decimal(a) == decimal(b),
    ensures
        a == b,
    decreases a,
{
    lemma_decimal_length(a);
    lemma_decimal_length(b);
    if a < 10 {
        assert(decimal(a)[0] == digit_char(a));
        assert(decimal(b)[0] == digit_char(b));
    } else {
        let da = decimal(a / 10);
        let db = decimal(b / 10);
        assert(decimal(a).drop_last() =~= da);
        assert(decimal(b).drop_last() =~= db);
        assert(decimal(a).last() == digit_char(a % 10));
        assert(decimal(b).last() == digit_char(b % 10));
        lemma_decimal_injective(a / 10, b / 10);
    }
}

/// The units of one file are stored under different identifiers: two lines
/// of a file share an identifier only if they are the same line.
pub proof fn law_record_ids_distinct(path: Seq<char>, first_line: nat, second_line: nat)
    requires
        record_id(path, first_line) == record_id(path, second_line),
    ensures
        first_line == second_line,
{
    let prefix = path + ":"@;
    let a = record_id(path, first_line);
    let b = record_id(path, second_line);
    assert(a.skip(prefix.len() as int) =~= decimal(first_line));
    assert(b.skip(prefix.len() as int) =~= decimal(second_line));
    lemma_decimal_injective(first_line, second_line);
}

} // verus!
