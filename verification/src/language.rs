//! The languages the parser knows, and the names they go by.

use vstd::prelude::*;
use vstd::string::*;

use crate::text::{lowercase, lowercased, same_text};

verus! {

/// A language that can be parsed.
#[derive(Debug, Clone, Copy, PartialEq, Eq, Hash, Structural)]
pub enum SupportedLanguage {
    JavaScript,
    TypeScript,
    Python,
    Rust,
    Java,
    Cpp,
    C,
    CSharp,
    Go,
}

/// The language that a name in lower case stands for.
pub open spec fn language_named(name: Seq<char>) -> Option<SupportedLanguage> {
    if name == "javascript"@ || name == "js"@ {
        Some(SupportedLanguage::JavaScript)
    } else if name == "typescript"@ || name == "ts"@ {
        Some(SupportedLanguage::TypeScript)
    } else if name == "python"@ || name == "py"@ {
        Some(SupportedLanguage::Python)
    } else if name == "rust"@ || name == "rs"@ {
        Some(SupportedLanguage::Rust)
    } else if name == "java"@ {
        Some(SupportedLanguage::Java)
    } else if name == "cpp"@ || name == "c++"@ {
        Some(SupportedLanguage::Cpp)
    } else if name == "c"@ {
        Some(SupportedLanguage::C)
    } else if name == "csharp"@ || name == "c#"@ || name == "cs"@ {
        Some(SupportedLanguage::CSharp)
    } else if name == "go"@ {
        Some(SupportedLanguage::Go)
    } else {
        None
    }
}

/// The language that a name stands for, whatever the case of its letters.
pub fn string_to_language(name: &str) -> (language: Option<SupportedLanguage>)
    ensures
        language == language_named(lowercased(name@)),
{
    let lower = lowercase(name);
    let n = lower.as_str();
    if same_text(n, "javascript") || same_text(n, "js") {
        Some(SupportedLanguage::JavaScript)
    } else if same_text(n, "typescript") || same_text(n, "ts") {
        Some(SupportedLanguage::TypeScript)
    } else if same_text(n, "python") || same_text(n, "py") {
        Some(SupportedLanguage::Python)
    } else if same_text(n, "rust") || same_text(n, "rs") {
        Some(SupportedLanguage::Rust)
    } else if same_text(n, "java") {
        Some(SupportedLanguage::Java)
    } else if same_text(n, "cpp") || same_text(n, "c++") {
        Some(SupportedLanguage::Cpp)
    } else if same_text(n, "c") {
        Some(SupportedLanguage::C)
    } else if same_text(n, "csharp") || same_text(n, "c#") || same_text(n, "cs") {
        Some(SupportedLanguage::CSharp)
    } else if same_text(n, "go") {
        Some(SupportedLanguage::Go)
    } else {
        None
    }
}

} // verus!
