//! Small helpers: language detection by file extension, and sizes in words.

use vstd::prelude::*;
use vstd::string::*;

use crate::error::ASTProcessingError;
use crate::text::{decimal, digit_char, extension_of, path_extension, push_decimal, same_text};

verus! {

/// The language that files of an extension are written in.
pub open spec fn language_of(extension: Seq<char>) -> Option<Seq<char>> {
    if extension == "ts"@ || extension == "tsx"@ {
        Some("typescript"@)
    } else if extension == "js"@ || extension == "jsx"@ || extension == "mjs"@ || extension
        == "cjs"@ {
        Some("javascript"@)
    } else if extension == "py"@ || extension == "pyi"@ || extension == "pyw"@ {
        Some("python"@)
    } else if extension == "rs"@ {
        Some("rust"@)
    } else if extension == "java"@ {
        Some("java"@)
    } else if extension == "cpp"@ || extension == "cc"@ || extension == "cxx"@ || extension
        == "c++"@ || extension == "hpp"@ || extension == "hh"@ || extension == "hxx"@ || extension
        == "h++"@ {
        Some("cpp"@)
    } else if extension == "c"@ || extension == "h"@ {
        Some("c"@)
    } else if extension == "cs"@ {
        Some("c_sharp"@)
    } else if extension == "go"@ {
        Some("go"@)
    } else if extension == "rb"@ {
        Some("ruby"@)
    } else if extension == "php"@ {
        Some("php"@)
    } else if extension == "kt"@ {
        Some("kotlin"@)
    } else if extension == "swift"@ {
        Some("swift"@)
    } else if extension == "scala"@ {
        Some("scala"@)
    } else if extension == "sh"@ || extension == "bash"@ {
        Some("bash"@)
    } else {
        None
    }
}

/// The language that files of an extension are written in, if it is known.
/// Extensions are told apart by their exact spelling.
pub fn language_for_extension(extension: &str) -> (language: Option<&'static str>)
    ensures
        language is Some <==> language_of(extension@) is Some,
        language matches Some(name) ==> language_of(extension@) == Some(name@),
{
    let e = extension;
    if same_text(e, "ts") || same_text(e, "tsx") {
        Some("typescript")
    } else if same_text(e, "js") || same_text(e, "jsx") || same_text(e, "mjs") || same_text(
        e,
        "cjs",
    ) {
        Some("javascript")
    } else if same_text(e, "py") || same_text(e, "pyi") || same_text(e, "pyw") {
        Some("python")
    } else if same_text(e, "rs") {
        Some("rust")
    } else if same_text(e, "java") {
        Some("java")
    } else if same_text(e, "cpp") || same_text(e, "cc") || same_text(e, "cxx") || same_text(
        e,
        "c++",
    ) || same_text(e, "hpp") || same_text(e, "hh") || same_text(e, "hxx") || same_text(e, "h++") {
        Some("cpp")
    } else if same_text(e, "c") || same_text(e, "h") {
        Some("c")
    } else if same_text(e, "cs") {
        Some("c_sharp")
    } else if same_text(e, "go") {
        Some("go")
    } else if same_text(e, "rb") {
        Some("ruby")
    } else if same_text(e, "php") {
        Some("php")
    } else if same_text(e, "kt") {
        Some("kotlin")
    } else if same_text(e, "swift") {
        Some("swift")
    } else if same_text(e, "scala") {
        Some("scala")
    } else if same_text(e, "sh") || same_text(e, "bash") {
        Some("bash")
    } else {
        None
    }
}

/// The extension that language detection goes by: that of the path, or the
/// empty text where the path has none.
pub open spec fn detection_key(path: Seq<char>) -> Seq<char> {
    match extension_of(path) {
        Some(extension) => extension,
        None => Seq::empty(),
    }
}

/// The language of a file, judged by the extension of its path. A path
/// without a known extension is refused, with a message that names the
/// extension.
pub fn detect_language_from_path(file_path: &str) -> (language: Result<String, ASTProcessingError>)
    ensures
        match language {
            Ok(name) => language_of(detection_key(file_path@)) == Some(name@),
            Err(error) => {
                &&& language_of(detection_key(file_path@)) is None
                &&& error is UnsupportedLanguage
                &&& error->UnsupportedLanguage_0@ == "No language mapping found for extension: "@
                    + detection_key(file_path@)
            },
        },
{
    let extension = match path_extension(file_path) {
        Some(extension) => extension,
        None => String::new(),
    };
    match language_for_extension(extension.as_str()) {
        Some(name) => Ok(String::from_str(name)),
        None => {
            let message = String::from_str("No language mapping found for extension: ").concat(
                extension.as_str(),
            );
            Err(ASTProcessingError::UnsupportedLanguage(message))
        },
    }
}

/// The quotient of two numbers, rounded to the nearest whole number; where
/// two are equally near, to the even one.
pub open spec fn round_half_even(numerator: nat, denominator: nat) -> nat
    recommends
        denominator > 0,
{
    let quotient = numerator / denominator;
    let rest = numerator % denominator;
    if 2 * rest > denominator || (2 * rest == denominator && quotient % 2 == 1) {
        quotient + 1
    } else {
        quotient
    }
}

/// The distance between neighbouring double-precision numbers around
/// `bytes`: 1 below 2^53, then doubling with every further bit.
pub open spec fn double_spacing(bytes: nat) -> nat {
    if bytes < 0x20_0000_0000_0000 {
        1
    } else if bytes < 0x40_0000_0000_0000 {
        2
    } else if bytes < 0x80_0000_0000_0000 {
        4
    } else if bytes < 0x100_0000_0000_0000 {
        8
    } else if bytes < 0x200_0000_0000_0000 {
        16
    } else if bytes < 0x400_0000_0000_0000 {
        32
    } else if bytes < 0x800_0000_0000_0000 {
        64
    } else if bytes < 0x1000_0000_0000_0000 {
        128
    } else if bytes < 0x2000_0000_0000_0000 {
        256
    } else if bytes < 0x4000_0000_0000_0000 {
        512
    } else if bytes < 0x8000_0000_0000_0000 {
        1024
    } else {
        2048
    }
}

/// The double-precision number nearest to `bytes`. Sizes are measured in
/// double precision, which holds whole numbers exactly up to 2^53.
pub open spec fn nearest_double(bytes: nat) -> nat {
    round_half_even(bytes, double_spacing(bytes)) * double_spacing(bytes)
}

/// The unit a size is given in: the largest of B, KB, MB, GB and TB that the
/// size reaches, numbered from 0.
pub open spec fn size_unit(size: nat) -> nat {
    if size < 1024 {
        0
    } else if size < 1024 * 1024 {
        1
    } else if size < 1024 * 1024 * 1024 {
        2
    } else if size < 1024 * 1024 * 1024 * 1024 {
        3
    } else {
        4
    }
}

/// The number of bytes in a unit.
pub open spec fn unit_bytes(unit: nat) -> nat {
    if unit == 0 {
        1
    } else if unit == 1 {
        1024
    } else if unit == 2 {
        1024 * 1024
    } else if unit == 3 {
        1024 * 1024 * 1024
    } else {
        1024 * 1024 * 1024 * 1024
    }
}

/// The name of a unit.
pub open spec fn unit_name(unit: nat) -> Seq<char> {
    if unit == 0 {
        "B"@
    } else if unit == 1 {
        "KB"@
    } else if unit == 2 {
        "MB"@
    } else if unit == 3 {
        "GB"@
    } else {
        "TB"@
    }
}

/// A size in hundredths of its unit, rounded to the nearest hundredth.
pub open spec fn size_hundredths(bytes: nat) -> nat {
    let size = nearest_double(bytes);
    round_half_even(size * 100, unit_bytes(size_unit(size)))
}

/// A size in words: the number of units with two decimals, a space, and the
/// unit's name.
pub open spec fn formatted_bytes(bytes: nat) -> Seq<char> {
    let hundredths = size_hundredths(bytes);
    decimal(hundredths / 100) + "."@ + seq![
        digit_char(hundredths % 100 / 10),
        digit_char(hundredths % 10),
    ] + " "@ + unit_name(size_unit(nearest_double(bytes)))
}

/// Rounding to the nearest whole number misses the exact quotient by at most
/// a half.
pub proof fn lemma_round_half_even_is_nearest(numerator: nat, denominator: nat)
    requires
        denominator > 0,
    ensures
        2 * (round_half_even(numerator, denominator) * denominator - numerator) <= denominator,
        2 * (numerator - round_half_even(numerator, denominator) * denominator) <= denominator,
{
    let q = numerator / denominator;
    let r = numerator % denominator;
    assert(numerator == q * denominator + r) by {
        vstd::arithmetic::div_mod::lemma_fundamental_div_mod(numerator as int, denominator as int);
        assert(q * denominator == denominator * q) by (nonlinear_arith);
    }
    assert((q + 1) * denominator == q * denominator + denominator) by (nonlinear_arith);
}

fn rounded_quotient(numerator: u128, denominator: u128) -> (rounded: u128)
    requires
        denominator > 0,
        denominator <= u64::MAX,
    ensures
        rounded == round_half_even(numerator as nat, denominator as nat),
{
    let quotient: u128 = numerator / denominator;
    let rest: u128 = numerator % denominator;
    if 2 * rest > denominator || (2 * rest == denominator && quotient % 2 == 1) {
        assert(quotient < u128::MAX) by {
            assert(rest > 0);
            assert(numerator == denominator * quotient + rest) by {
                vstd::arithmetic::div_mod::lemma_fundamental_div_mod(
                    numerator as int,
                    denominator as int,
                );
            }
            assert(denominator * quotient >= quotient) by (nonlinear_arith)
                requires
                    denominator >= 1,
                    quotient >= 0,
            ;
        }
        quotient + 1
    } else {
        quotient
    }
}

fn spacing_of(bytes: u64) -> (spacing: u64)
    ensures
        spacing == double_spacing(bytes as nat),
        1 <= spacing <= 2048,
{
    if bytes < 0x20_0000_0000_0000 {
        1
    } else if bytes < 0x40_0000_0000_0000 {
        2
    } else if bytes < 0x80_0000_0000_0000 {
        4
    } else if bytes < 0x100_0000_0000_0000 {
        8
    } else if bytes < 0x200_0000_0000_0000 {
        16
    } else if bytes < 0x400_0000_0000_0000 {
        32
    } else if bytes < 0x800_0000_0000_0000 {
        64
    } else if bytes < 0x1000_0000_0000_0000 {
        128
    } else if bytes < 0x2000_0000_0000_0000 {
        256
    } else if bytes < 0x4000_0000_0000_0000 {
        512
    } else if bytes < 0x8000_0000_0000_0000 {
        1024
    } else {
        2048
    }
}

fn size_of(bytes: u64) -> (size: u128)
    ensures
        size == nearest_double(bytes as nat),
        size <= 0x2_0000_0000_0000_0000,
{
    let spacing: u64 = spacing_of(bytes);
    let steps: u128 = rounded_quotient(bytes as u128, spacing as u128);
    proof {
        lemma_round_half_even_is_nearest(bytes as nat, spacing as nat);
        assert(steps * spacing <= 0x2_0000_0000_0000_0000) by (nonlinear_arith)
            requires
                2 * (steps * spacing - bytes) <= spacing,
                spacing <= 2048,
                bytes <= u64::MAX,
        ;
    }
    steps * (spacing as u128)
}

fn hundredths_in(size: u128, divisor: u128) -> (hundredths: u128)
    requires
        1 <= divisor <= 0x100_0000_0000,
        size <= 0x2_0000_0000_0000_0000,
        divisor < 0x100_0000_0000 ==> size < 1024 * divisor,
    ensures
        hundredths == round_half_even((size * 100) as nat, divisor as nat),
        hundredths <= 0x4_0000_0000,
{
    let hundredths: u128 = rounded_quotient(size * 100, divisor);
    proof {
        lemma_round_half_even_is_nearest((size * 100) as nat, divisor as nat);
        if divisor < 0x100_0000_0000 {
            assert(hundredths <= 102400) by (nonlinear_arith)
                requires
                    2 * (hundredths * divisor - size * 100) <= divisor,
                    divisor >= 1,
                    size < 1024 * divisor,
                    hundredths >= 0,
            ;
        } else {
            assert(hundredths <= 0x4_0000_0000) by (nonlinear_arith)
                requires
                    2 * (hundredths * divisor - size * 100) <= divisor,
                    divisor == 0x100_0000_0000,
                    size <= 0x2_0000_0000_0000_0000,
                    hundredths >= 0,
            ;
        }
    }
    hundredths
}

fn unit_text(unit: u8) -> (name: &'static str)
    ensures
        name@ == unit_name(unit as nat),
{
    if unit == 0 {
        "B"
    } else if unit == 1 {
        "KB"
    } else if unit == 2 {
        "MB"
    } else if unit == 3 {
        "GB"
    } else {
        "TB"
    }
}

/// Writes a number of bytes in the largest unit it reaches, with two
/// decimals: `512.00 B`, `1.00 KB`, `1.50 MB`.
pub fn format_bytes(bytes: u64) -> (text: String)
    ensures
        text@ == formatted_bytes(bytes as nat),
{
    let size: u128 = size_of(bytes);
    let (unit, divisor): (u8, u128) = if size < 1024 {
        (0, 1)
    } else if size < 1024 * 1024 {
        (1, 1024)
    } else if size < 1024 * 1024 * 1024 {
        (2, 1024 * 1024)
    } else if size < 1024 * 1024 * 1024 * 1024 {
        (3, 1024 * 1024 * 1024)
    } else {
        (4, 1024 * 1024 * 1024 * 1024)
    };
    assert(unit == size_unit(size as nat));
    assert(divisor == unit_bytes(unit as nat));
    let hundredths: u128 = hundredths_in(size, divisor);
    assert(hundredths == size_hundredths(bytes as nat));
    let whole: u64 = (hundredths / 100) as u64;
    let tenths: u64 = (hundredths % 100 / 10) as u64;
    let last: u64 = (hundredths % 10) as u64;
    let mut text = String::new();
    push_decimal(&mut text, whole);
    text.append(".");
    push_decimal(&mut text, tenths);
    push_decimal(&mut text, last);
    text.append(" ");
    text.append(unit_text(unit));
    proof {
        assert(decimal(tenths as nat) =~= seq![digit_char(tenths as nat)]);
        assert(decimal(last as nat) =~= seq![digit_char(last as nat)]);
        assert(text@ =~= decimal(whole as nat) + "."@ + seq![
            digit_char(tenths as nat),
            digit_char(last as nat),
        ] + " "@ + unit_name(unit as nat));
    }
    text
}

} // verus!
