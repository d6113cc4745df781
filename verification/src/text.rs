//! Text helpers shared by the rest of the library.
//!
//! Contracts speak of a string through its view, the sequence of its
//! characters. Comparison, membership, decimal numbers, lines and words are
//! proved here; case folding, trimming, white space and path syntax are taken
//! from the standard library and only named.

use vstd::prelude::*;
use vstd::std_specs::iter::IteratorSpec;
use vstd::string::*;

verus! {

/// Whether two strings hold the same characters.
pub fn same_text(a: &str, b: &str) -> (same: bool)
    ensures
        same == (a@ == b@),
{
    broadcast use vstd::string::group_string_axioms;

    let mut left = a.chars();
    let mut right = b.chars();
    let ghost mut k: int = 0;
    assert(a@.skip(0) =~= a@);
    assert(b@.skip(0) =~= b@);
    loop
        invariant
            0 <= k <= a@.len(),
            k <= b@.len(),
            left.remaining() == a@.skip(k),
            right.remaining() == b@.skip(k),
            a@.take(k) == b@.take(k),
            left.obeys_prophetic_iter_laws(),
            right.obeys_prophetic_iter_laws(),
        decreases a@.len() - k,
    {
        let x = left.next();
        let y = right.next();
        match (x, y) {
            (None, None) => {
                proof {
                    assert(a@ =~= a@.take(k));
                    assert(b@ =~= b@.take(k));
                }
                return true;
            },
            (Some(cx), Some(cy)) => {
                if cx != cy {
                    assert(a@[k] != b@[k]);
                    return false;
                }
                proof {
                    assert(a@.skip(k).drop_first() =~= a@.skip(k + 1));
                    assert(b@.skip(k).drop_first() =~= b@.skip(k + 1));
                    assert(a@.take(k + 1) =~= a@.take(k).push(a@[k]));
                    assert(b@.take(k + 1) =~= b@.take(k).push(b@[k]));
                    k = k + 1;
                }
            },
            _ => {
                assert(a@.len() != b@.len());
                return false;
            },
        }
    }
}

/// Whether some entry of `list` reads `needle`.
pub open spec fn lists_text(list: Seq<String>, needle: Seq<char>) -> bool {
    exists|i: int| 0 <= i < list.len() && (#[trigger] list[i])@ == needle
}

/// Whether `list` holds a string equal to `needle`.
pub fn contains_text(list: &Vec<String>, needle: &str) -> (found: bool)
    ensures
        found == lists_text(list@, needle@),
{
    let mut i: usize = 0;
    while i < list.len()
        invariant
            i <= list.len(),
            forall|j: int| 0 <= j < i ==> (#[trigger] list@[j])@ != needle@,
        decreases list.len() - i,
    {
        if same_text(list[i].as_str(), needle) {
            return true;
        }
        i = i + 1;
    }
    false
}

/// The character of a decimal digit.
pub open spec fn digit_char(d: nat) -> char
    recommends
        d < 10,
{
    if d == 0 {
        '0'
    } else if d == 1 {
        '1'
    } else if d == 2 {
        '2'
    } else if d == 3 {
        '3'
    } else if d == 4 {
        '4'
    } else if d == 5 {
        '5'
    } else if d == 6 {
        '6'
    } else if d == 7 {
        '7'
    } else if d == 8 {
        '8'
    } else {
        '9'
    }
}

/// The decimal numeral of `n`, without sign or leading zeros.
pub open spec fn decimal(n: nat) -> Seq<char>
    decreases n,
{
    if n < 10 {
        seq![digit_char(n)]
    } else {
        decimal(n / 10).push(digit_char(n % 10))
    }
}

fn digit_text(d: u64) -> (text: &'static str)
    requires
        d < 10,
    ensures
        text@ == seq![digit_char(d as nat)],
{
    proof {
        reveal_strlit("0");
        reveal_strlit("1");
        reveal_strlit("2");
        reveal_strlit("3");
        reveal_strlit("4");
        reveal_strlit("5");
        reveal_strlit("6");
        reveal_strlit("7");
        reveal_strlit("8");
        reveal_strlit("9");
    }
    let text = if d == 0 {
        "0"
    } else if d == 1 {
        "1"
    } else if d == 2 {
        "2"
    } else if d == 3 {
        "3"
    } else if d == 4 {
        "4"
    } else if d == 5 {
        "5"
    } else if d == 6 {
        "6"
    } else if d == 7 {
        "7"
    } else if d == 8 {
        "8"
    } else {
        "9"
    };
    assert(text@ =~= seq![digit_char(d as nat)]);
    text
}

/// Appends the decimal numeral of `n` to `out`.
pub fn push_decimal(out: &mut String, n: u64)
    ensures
        final(out)@ == old(out)@ + decimal(n as nat),
    decreases n,
{
    if n >= 10 {
        push_decimal(out, n / 10);
    }
    out.append(digit_text(n % 10));
    proof {
        if n >= 10 {
            assert(final(out)@ =~= old(out)@ + decimal(n as nat));
        } else {
            assert(final(out)@ =~= old(out)@ + decimal(n as nat));
        }
    }
}

/// The decimal numeral of `n` as a string.
pub fn decimal_text(n: u64) -> (text: String)
    ensures
        text@ == decimal(n as nat),
{
    let mut text = String::new();
    push_decimal(&mut text, n);
    assert(text@ =~= decimal(n as nat));
    text
}

/// Whether a character is a decimal digit.
pub open spec fn is_digit(c: char) -> bool {
    '0' <= c <= '9'
}

/// The number that a string of decimal digits denotes.
pub open spec fn digits_value(digits: Seq<char>) -> nat
    decreases digits.len(),
{
    if digits.len() == 0 {
        0
    } else {
        digits_value(digits.drop_last()) * 10 + (digits.last() as nat - '0' as nat) as nat
    }
}

/// Whether a text consists of decimal digits only.
pub open spec fn all_digits(text: Seq<char>) -> bool {
    forall|i: int| 0 <= i < text.len() ==> is_digit(#[trigger] text[i])
}

/// A text without the plus sign that it may begin with.
pub open spec fn unsigned_part(text: Seq<char>) -> Seq<char> {
    if text.len() > 0 && text[0] == '+' {
        text.skip(1)
    } else {
        text
    }
}

/// The number up to `limit` that a text denotes: an optional plus sign,
/// then one or more decimal digits and nothing else, of a value that does not
/// exceed the limit.
pub open spec fn parsed_number(text: Seq<char>, limit: nat) -> Option<nat> {
    let digits = unsigned_part(text);
    if digits.len() > 0 && all_digits(digits) && digits_value(digits) <= limit {
        Some(digits_value(digits))
    } else {
        None
    }
}

/// The 32-bit number that a text denotes: an optional plus sign, then one or
/// more decimal digits and nothing else, of a value that fits.
pub open spec fn parsed_u32(text: Seq<char>) -> Option<u32> {
    match parsed_number(text, u32::MAX as nat) {
        Some(number) => Some(number as u32),
        None => None,
    }
}

/// The 64-bit number that a text denotes: an optional plus sign, then one or
/// more decimal digits and nothing else, of a value that fits.
pub open spec fn parsed_u64(text: Seq<char>) -> Option<u64> {
    match parsed_number(text, u64::MAX as nat) {
        Some(number) => Some(number as u64),
        None => None,
    }
}

/// The value of a digit string never shrinks when a digit is appended.
proof fn lemma_digits_value_grows(digits: Seq<char>, k: int)
    requires
        0 <= k <= digits.len(),
        all_digits(digits),
    ensures
        digits_value(digits.take(k)) <= digits_value(digits),
    decreases digits.len() - k,
{
    if k == digits.len() {
        assert(digits.take(k) =~= digits);
    } else {
        lemma_digits_value_grows(digits, k + 1);
        assert(digits.take(k + 1).drop_last() =~= digits.take(k));
        assert(is_digit(digits[k]));
    }
}

/// Reads a number in decimal notation that does not exceed `limit`.
pub fn parse_number(text: &str, limit: u64) -> (number: Option<u64>)
    ensures
        match number {
            Some(n) => parsed_number(text@, limit as nat) == Some(n as nat),
            None => parsed_number(text@, limit as nat) is None,
        },
{
    broadcast use vstd::string::group_string_axioms;

    let mut chars = text.chars();
    let mut pending = chars.next();
    let ghost mut digits = text@;
    assert(text@.skip(0) =~= text@);
    if pending == Some('+') {
        pending = chars.next();
        proof {
            digits = text@.skip(1);
            assert(text@.skip(0).drop_first() =~= text@.skip(1));
        }
    }
    let ghost mut k: int = 0;
    let mut value: u64 = 0;
    let mut seen: bool = false;
    proof {
        assert(digits.take(0) =~= Seq::empty());
        if digits.len() > 0 {
            assert(digits.skip(0).drop_first() =~= digits.skip(1));
            assert(digits.skip(0) =~= digits);
        }
    }
    loop
        invariant
            chars.obeys_prophetic_iter_laws(),
            digits == unsigned_part(text@),
            0 <= k <= digits.len(),
            pending == if k < digits.len() {
                Some(digits[k])
            } else {
                None
            },
            k < digits.len() ==> chars.remaining() == digits.skip(k + 1),
            seen == (k > 0),
            forall|i: int| 0 <= i < k ==> is_digit(#[trigger] digits[i]),
            value == digits_value(digits.take(k)),
            value <= limit,
        decreases digits.len() - k,
    {
        match pending {
            None => {
                proof {
                    assert(digits.take(k) =~= digits);
                }
                if !seen {
                    return None;
                }
                return Some(value);
            },
            Some(c) => {
                if !(c >= '0' && c <= '9') {
                    assert(!is_digit(digits[k]));
                    return None;
                }
                let digit: u64 = (c as u32 - '0' as u32) as u64;
                let grown: u128 = (value as u128) * 10 + (digit as u128);
                proof {
                    assert(digits.take(k + 1).drop_last() =~= digits.take(k));
                    assert(grown == digits_value(digits.take(k + 1)));
                }
                if grown > limit as u128 {
                    proof {
                        if all_digits(digits) {
                            lemma_digits_value_grows(digits, k + 1);
                        }
                    }
                    return None;
                }
                value = grown as u64;
                seen = true;
                pending = chars.next();
                proof {
                    if k + 1 < digits.len() {
                        assert(digits.skip(k + 1).drop_first() =~= digits.skip(k + 2));
                    }
                    k = k + 1;
                }
            },
        }
    }
}

/// Reads a 32-bit number in decimal notation.
pub fn parse_u32(text: &str) -> (number: Option<u32>)
    ensures
        number == parsed_u32(text@),
{
    match parse_number(text, u32::MAX as u64) {
        Some(number) => Some(number as u32),
        None => None,
    }
}

/// Reads a 64-bit number in decimal notation.
pub fn parse_u64(text: &str) -> (number: Option<u64>)
    ensures
        number == parsed_u64(text@),
{
    parse_number(text, u64::MAX)
}

/// Whether a text begins with another.
pub open spec fn begins_with(text: Seq<char>, prefix: Seq<char>) -> bool {
    prefix.len() <= text.len() && text.take(prefix.len() as int) == prefix
}

/// Whether `text` begins with `prefix`.
pub fn starts_with_text(text: &str, prefix: &str) -> (begins: bool)
    ensures
        begins == begins_with(text@, prefix@),
{
    broadcast use vstd::string::group_string_axioms;

    let mut left = text.chars();
    let mut right = prefix.chars();
    let ghost mut k: int = 0;
    assert(text@.skip(0) =~= text@);
    assert(prefix@.skip(0) =~= prefix@);
    loop
        invariant
            0 <= k <= text@.len(),
            k <= prefix@.len(),
            left.remaining() == text@.skip(k),
            right.remaining() == prefix@.skip(k),
            text@.take(k) == prefix@.take(k),
            left.obeys_prophetic_iter_laws(),
            right.obeys_prophetic_iter_laws(),
        decreases prefix@.len() - k,
    {
        let wanted = right.next();
        match wanted {
            None => {
                proof {
                    assert(prefix@ =~= prefix@.take(k));
                }
                return true;
            },
            Some(cy) => {
                let found = left.next();
                match found {
                    None => {
                        return false;
                    },
                    Some(cx) => {
                        if cx != cy {
                            proof {
                                if begins_with(text@, prefix@) {
                                    assert(text@.take(prefix@.len() as int)[k] == text@[k]);
                                }
                            }
                            return false;
                        }
                        proof {
                            assert(text@.skip(k).drop_first() =~= text@.skip(k + 1));
                            assert(prefix@.skip(k).drop_first() =~= prefix@.skip(k + 1));
                            assert(text@.take(k + 1) =~= text@.take(k).push(text@[k]));
                            assert(prefix@.take(k + 1) =~= prefix@.take(k).push(prefix@[k]));
                            k = k + 1;
                        }
                    },
                }
            },
        }
    }
}

/// Whether a character is white space, as `char::is_whitespace` tells: it
/// has the Unicode property White_Space.
pub uninterp spec fn is_white_space(c: char) -> bool;

/// Calls `char::is_whitespace`.
#[verifier::external_body]
pub(crate) fn is_whitespace(c: char) -> (white: bool)
    ensures
        white == is_white_space(c),
{
    c.is_whitespace()
}

/// The words read from the first `k` characters of a text, and the word
/// being read. Words are the stretches of a text between white space.
pub open spec fn words_read(text: Seq<char>, k: int) -> (Seq<Seq<char>>, Seq<char>)
    decreases k,
{
    if k <= 0 {
        (Seq::empty(), Seq::empty())
    } else {
        let (words, current) = words_read(text, k - 1);
        if is_white_space(text[k - 1]) {
            if current.len() > 0 {
                (words.push(current), Seq::empty())
            } else {
                (words, current)
            }
        } else {
            (words, current.push(text[k - 1]))
        }
    }
}

/// The words of a text: its stretches between white space, none of them
/// empty.
pub open spec fn words_of(text: Seq<char>) -> Seq<Seq<char>> {
    let (words, current) = words_read(text, text.len() as int);
    if current.len() > 0 {
        words.push(current)
    } else {
        words
    }
}

/// Splits a text into its words.
pub fn split_words(text: &str) -> (words: Vec<String>)
    ensures
        texts_of(words@) == words_of(text@),
{
    broadcast use vstd::string::group_string_axioms;

    let mut words: Vec<String> = Vec::new();
    let mut current = String::new();
    let mut empty: bool = true;
    let mut chars = text.chars();
    let ghost mut k: int = 0;
    assert(text@.skip(0) =~= text@);
    assert(texts_of(words@) =~= words_read(text@, 0).0);
    loop
        invariant
            chars.obeys_prophetic_iter_laws(),
            0 <= k <= text@.len(),
            chars.remaining() == text@.skip(k),
            texts_of(words@) == words_read(text@, k).0,
            current@ == words_read(text@, k).1,
            empty == (current@.len() == 0),
        decreases text@.len() - k,
    {
        let next = chars.next();
        match next {
            None => {
                if !empty {
                    proof {
                        assert(texts_of(words@.push(current)) =~= texts_of(words@).push(current@));
                    }
                    words.push(current);
                }
                return words;
            },
            Some(c) => {
                proof {
                    assert(text@.skip(k).drop_first() =~= text@.skip(k + 1));
                }
                if is_whitespace(c) {
                    if !empty {
                        proof {
                            assert(texts_of(words@.push(current)) =~= texts_of(words@).push(
                                current@,
                            ));
                        }
                        words.push(current);
                        current = String::new();
                        empty = true;
                    }
                } else {
                    push_char(&mut current, c);
                    empty = false;
                }
                proof {
                    k = k + 1;
                }
            },
        }
    }
}

/// Calls `String::push`, which appends one character to a string.
#[verifier::external_body]
pub(crate) fn push_char(text: &mut String, c: char)
    ensures
        final(text)@ == old(text)@.push(c),
{
    text.push(c);
}

/// A line without the carriage return that it may end with.
pub open spec fn without_return(line: Seq<char>) -> Seq<char> {
    if line.len() > 0 && line.last() == '\r' {
        line.drop_last()
    } else {
        line
    }
}

/// The lines read from the first `k` characters of a text, and the line
/// being read. A line ends at a line feed; the carriage return before the line
/// feed, if there is one, is not part of the line.
pub open spec fn lines_read(text: Seq<char>, k: int) -> (Seq<Seq<char>>, Seq<char>)
    decreases k,
{
    if k <= 0 {
        (Seq::empty(), Seq::empty())
    } else {
        let (lines, current) = lines_read(text, k - 1);
        if text[k - 1] == '\n' {
            (lines.push(without_return(current)), Seq::empty())
        } else {
            (lines, current.push(text[k - 1]))
        }
    }
}

/// The lines of a text. They are separated by line feeds, or by carriage
/// returns followed by line feeds; the separators are not part of the lines;
/// the last line need not end with one.
pub open spec fn lines_of(text: Seq<char>) -> Seq<Seq<char>> {
    let (lines, current) = lines_read(text, text.len() as int);
    if current.len() > 0 {
        lines.push(current)
    } else {
        lines
    }
}

/// The texts of a list of strings.
pub open spec fn texts_of(list: Seq<String>) -> Seq<Seq<char>> {
    Seq::new(list.len(), |i: int| list[i]@)
}

/// Splits a text into its lines.
pub fn split_lines(text: &str) -> (lines: Vec<String>)
    ensures
        texts_of(lines@) == lines_of(text@),
{
    broadcast use vstd::string::group_string_axioms;

    let mut lines: Vec<String> = Vec::new();
    let mut current = String::new();
    let mut held_return: bool = false;
    let mut chars = text.chars();
    let ghost mut k: int = 0;
    assert(text@.skip(0) =~= text@);
    assert(texts_of(lines@) =~= lines_read(text@, 0).0);
    loop
        invariant
            chars.obeys_prophetic_iter_laws(),
            0 <= k <= text@.len(),
            chars.remaining() == text@.skip(k),
            texts_of(lines@) == lines_read(text@, k).0,
            lines_read(text@, k).1 == if held_return {
                current@.push('\r')
            } else {
                current@
            },
            !held_return && current@.len() > 0 ==> current@.last() != '\r',
        decreases text@.len() - k,
    {
        let next = chars.next();
        match next {
            None => {
                if held_return {
                    push_char(&mut current, '\r');
                }
                proof {
                    reveal_strlit("");
                    assert(k == text@.len());
                    assert(current@ == lines_read(text@, text@.len() as int).1);
                    assert(""@.len() == 0);
                    assert(""@ =~= Seq::<char>::empty());
                }
                if !same_text(current.as_str(), "") {
                    proof {
                        assert(current@.len() > 0);
                        assert(texts_of(lines@.push(current)) =~= texts_of(lines@).push(current@));
                    }
                    lines.push(current);
                }
                return lines;
            },
            Some(c) => {
                proof {
                    assert(text@.skip(k).drop_first() =~= text@.skip(k + 1));
                }
                if c == '\n' {
                    proof {
                        let read = lines_read(text@, k).1;
                        assert(without_return(read) =~= current@);
                        assert(texts_of(lines@.push(current)) =~= texts_of(lines@).push(current@));
                    }
                    lines.push(current);
                    current = String::new();
                    held_return = false;
                } else {
                    if held_return {
                        push_char(&mut current, '\r');
                    }
                    if c == '\r' {
                        held_return = true;
                    } else {
                        held_return = false;
                        push_char(&mut current, c);
                    }
                }
                proof {
                    k = k + 1;
                }
            },
        }
    }
}

/// The lower-case form of a text, as `str::to_lowercase` computes it.
pub uninterp spec fn lowercased(text: Seq<char>) -> Seq<char>;

/// Calls `str::to_lowercase`, which maps each character to its Unicode
/// lower-case form; the result is a function of the characters alone.
#[verifier::external_body]
pub(crate) fn lowercase(text: &str) -> (lower: String)
    ensures
        lower@ == lowercased(text@),
{
    text.to_lowercase()
}

/// A text without its leading and trailing white space, as `str::trim`
/// computes it.
pub uninterp spec fn trimmed(text: Seq<char>) -> Seq<char>;

/// Calls `str::trim`, which drops the leading and trailing characters that
/// have the Unicode property White_Space.
#[verifier::external_body]
pub(crate) fn trim(text: &str) -> (inner: String)
    ensures
        inner@ == trimmed(text@),
{
    text.trim().to_string()
}

/// The extension of the final component of a path, as `Path::extension`
/// computes it in the path syntax of the system the library is built for:
/// the text after the last dot of the file name, if the name has a dot that
/// is not its first character.
pub uninterp spec fn extension_of(path: Seq<char>) -> Option<Seq<char>>;

/// Calls `Path::extension` on the path that `path` spells.
#[verifier::external_body]
pub(crate) fn path_extension(path: &str) -> (extension: Option<String>)
    ensures
        extension is Some <==> extension_of(path@) is Some,
        extension matches Some(e) ==> extension_of(path@) == Some(e@),
{
    std::path::Path::new(path).extension().and_then(|e| e.to_str()).map(|e| e.to_string())
}

} // verus!
