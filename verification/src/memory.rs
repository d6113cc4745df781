//! The memory in use by the process, read from what the system reports.

use vstd::prelude::*;
use vstd::string::*;

use crate::progress::least;
use crate::text::{
    begins_with, lines_of, parse_u64, parsed_u64, split_lines, split_words, starts_with_text,
    texts_of, words_of,
};

verus! {

/// The resident memory, in bytes, that one line of a process status report
/// states: the line begins with `VmRSS:`, and its second word is a number of
/// kilobytes whose number of bytes fits 64 bits.
pub open spec fn line_resident_bytes(line: Seq<char>) -> Option<u64> {
    if begins_with(line, "VmRSS:"@) && words_of(line).len() >= 2 {
        match parsed_u64(words_of(line)[1]) {
            Some(kilobytes) => if kilobytes * 1024 <= u64::MAX {
                Some((kilobytes * 1024) as u64)
            } else {
                None
            },
            None => None,
        }
    } else {
        None
    }
}

/// The resident memory that the first line to state one states.
pub open spec fn first_resident_bytes(lines: Seq<Seq<char>>) -> Option<u64>
    decreases lines.len(),
{
    if lines.len() == 0 {
        None
    } else {
        match first_resident_bytes(lines.drop_last()) {
            Some(bytes) => Some(bytes),
            None => line_resident_bytes(lines.last()),
        }
    }
}

fn resident_bytes_of_line(line: &str) -> (bytes: Option<u64>)
    ensures
        bytes == line_resident_bytes(line@),
{
    if !starts_with_text(line, "VmRSS:") {
        return None;
    }
    let words = split_words(line);
    if words.len() < 2 {
        proof {
            assert(texts_of(words@).len() == words@.len());
        }
        return None;
    }
    proof {
        assert(texts_of(words@)[1] == words@[1]@);
    }
    match parse_u64(words[1].as_str()) {
        Some(kilobytes) => kilobytes.checked_mul(1024),
        None => None,
    }
}

/// The resident memory of the process in bytes, as its status report states
/// it: the figure of the first line that begins with `VmRSS:` and goes on
/// with a number of kilobytes.
pub fn resident_bytes_from_status(status: &str) -> (bytes: Option<u64>)
    ensures
        bytes == first_resident_bytes(lines_of(status@)),
{
    let lines = split_lines(status);
    let ghost all = lines_of(status@);
    let mut i: usize = 0;
    proof {
        assert(all.take(0) =~= Seq::empty());
        assert(texts_of(lines@).len() == lines@.len());
    }
    while i < lines.len()
        invariant
            i <= lines.len(),
            texts_of(lines@) == all,
            all == lines_of(status@),
            first_resident_bytes(all.take(i as int)) is None,
        decreases lines.len() - i,
    {
        proof {
            assert(all.take(i + 1).drop_last() =~= all.take(i as int));
            assert(all.take(i + 1).last() == all[i as int]);
            assert(texts_of(lines@)[i as int] == lines@[i as int]@);
        }
        let found = resident_bytes_of_line(lines[i].as_str());
        if found.is_some() {
            proof {
                assert(first_resident_bytes(all.take(i + 1)) == found);
                lemma_first_stays(all, i + 1);
            }
            return found;
        }
        i = i + 1;
    }
    proof {
        assert(all.take(i as int) =~= all);
    }
    None
}

/// Once a line has stated the resident memory, later lines do not change it.
proof fn lemma_first_stays(lines: Seq<Seq<char>>, k: int)
    requires
        0 <= k <= lines.len(),
        first_resident_bytes(lines.take(k)) is Some,
    ensures
        first_resident_bytes(lines) == first_resident_bytes(lines.take(k)),
    decreases lines.len() - k,
{
    if k == lines.len() {
        assert(lines.take(k) =~= lines);
    } else {
        assert(lines.take(k + 1).drop_last() =~= lines.take(k));
        lemma_first_stays(lines, k + 1);
    }
}

/// The memory in use by the process, in bytes: what its status report
/// states; failing that, what the system's process table gives in kilobytes,
/// times 1024 and no more than 64 bits hold; failing that, 0.
pub fn memory_usage_from(status: Option<&str>, process_kilobytes: Option<u64>) -> (bytes: u64)
    ensures
        bytes == match (
            match status {
                Some(report) => first_resident_bytes(lines_of(report@)),
                None => None,
            }
        ) {
            Some(stated) => stated as int,
            None => match process_kilobytes {
                Some(kilobytes) => least(kilobytes * 1024, u64::MAX as int),
                None => 0,
            },
        },
{
    let stated = match status {
        Some(report) => resident_bytes_from_status(report),
        None => None,
    };
    match stated {
        Some(bytes) => bytes,
        None => match process_kilobytes {
            Some(kilobytes) => match kilobytes.checked_mul(1024) {
                Some(bytes) => bytes,
                None => u64::MAX,
            },
            None => 0,
        },
    }
}

} // verus!
