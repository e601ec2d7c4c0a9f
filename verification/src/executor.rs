//! The language catalog for runnable code snippets: recognizing a
//! language from its fenced-block tag and naming it back. Actually
//! running a snippet needs a browser runtime and stays with the host.

use vstd::prelude::*;

use crate::text::eq_ignore_case;
use crate::text::matches_keyword;

verus! {

/// A programming language a snippet can be tagged with; tags that match
/// no catalog entry are carried through verbatim.
#[derive(Clone, Debug, PartialEq)]
pub enum CodeLanguage {
    JavaScript,
    TypeScript,
    Python,
    Rust,
    C,
    Cpp,
    Go,
    Java,
    Ruby,
    PHP,
    Perl,
    Lua,
    Haskell,
    Elixir,
    Kotlin,
    Scala,
    Bash,
    Other(String),
}

impl CodeLanguage {
    /// The canonical lowercase name of the language; an `Other` tag
    /// names itself.
    pub open spec fn spec_name(&self) -> Seq<char> {
        match self {
            CodeLanguage::JavaScript => "javascript"@,
            CodeLanguage::TypeScript => "typescript"@,
            CodeLanguage::Python => "python"@,
            CodeLanguage::Rust => "rust"@,
            CodeLanguage::C => "c"@,
            CodeLanguage::Cpp => "cpp"@,
            CodeLanguage::Go => "go"@,
            CodeLanguage::Java => "java"@,
            CodeLanguage::Ruby => "ruby"@,
            CodeLanguage::PHP => "php"@,
            CodeLanguage::Perl => "perl"@,
            CodeLanguage::Lua => "lua"@,
            CodeLanguage::Haskell => "haskell"@,
            CodeLanguage::Elixir => "elixir"@,
            CodeLanguage::Kotlin => "kotlin"@,
            CodeLanguage::Scala => "scala"@,
            CodeLanguage::Bash => "bash"@,
            CodeLanguage::Other(s) => s@,
        }
    }

    /// Recognizes a fenced-block tag, ignoring basic-latin case and
    /// accepting the usual abbreviations; anything unrecognized comes
    /// back as `Other` with the tag verbatim, so the result is always
    /// `Some`. The case fold covers the letters A–Z only: a tag spelt
    /// with an exotic uppercase form whose lowercase lies outside
    /// A–Z (the Kelvin sign, say) is not folded and lands in `Other`.
    pub fn from_str(lang: &str) -> (r: Option<Self>)
        ensures
            ({
                let s = lang@;
                if matches_keyword(s, "javascript"@) || matches_keyword(s, "js"@) {
                    r == Some(CodeLanguage::JavaScript)
                } else if matches_keyword(s, "typescript"@) || matches_keyword(s, "ts"@) {
                    r == Some(CodeLanguage::TypeScript)
                } else if matches_keyword(s, "python"@) || matches_keyword(s, "py"@) {
                    r == Some(CodeLanguage::Python)
                } else if matches_keyword(s, "rust"@) || matches_keyword(s, "rs"@) {
                    r == Some(CodeLanguage::Rust)
                } else if matches_keyword(s, "c"@) {
                    r == Some(CodeLanguage::C)
                } else if matches_keyword(s, "cpp"@) || matches_keyword(s, "c++"@)
                    || matches_keyword(s, "cxx"@) || matches_keyword(s, "cc"@) {
                    r == Some(CodeLanguage::Cpp)
                } else if matches_keyword(s, "go"@) || matches_keyword(s, "golang"@) {
                    r == Some(CodeLanguage::Go)
                } else if matches_keyword(s, "java"@) {
                    r == Some(CodeLanguage::Java)
                } else if matches_keyword(s, "ruby"@) || matches_keyword(s, "rb"@) {
                    r == Some(CodeLanguage::Ruby)
                } else if matches_keyword(s, "php"@) {
                    r == Some(CodeLanguage::PHP)
                } else if matches_keyword(s, "perl"@) || matches_keyword(s, "pl"@) {
                    r == Some(CodeLanguage::Perl)
                } else if matches_keyword(s, "lua"@) {
                    r == Some(CodeLanguage::Lua)
                } else if matches_keyword(s, "haskell"@) || matches_keyword(s, "hs"@) {
                    r == Some(CodeLanguage::Haskell)
                } else if matches_keyword(s, "elixir"@) || matches_keyword(s, "ex"@) {
                    r == Some(CodeLanguage::Elixir)
                } else if matches_keyword(s, "kotlin"@) || matches_keyword(s, "kt"@) {
                    r == Some(CodeLanguage::Kotlin)
                } else if matches_keyword(s, "scala"@) {
                    r == Some(CodeLanguage::Scala)
                } else if matches_keyword(s, "bash"@) || matches_keyword(s, "shell"@)
                    || matches_keyword(s, "sh"@) {
                    r == Some(CodeLanguage::Bash)
                } else {
                    r matches Some(l) && l matches CodeLanguage::Other(o) && o@ == lang@
                }
            }),
    {
        if eq_ignore_case(lang, "javascript") || eq_ignore_case(lang, "js") {
            Some(Self::JavaScript)
        } else if eq_ignore_case(lang, "typescript") || eq_ignore_case(lang, "ts") {
            Some(Self::TypeScript)
        } else if eq_ignore_case(lang, "python") || eq_ignore_case(lang, "py") {
            Some(Self::Python)
        } else if eq_ignore_case(lang, "rust") || eq_ignore_case(lang, "rs") {
            Some(Self::Rust)
        } else if eq_ignore_case(lang, "c") {
            Some(Self::C)
        } else if eq_ignore_case(lang, "cpp") || eq_ignore_case(lang, "c++") || eq_ignore_case(
            lang,
            "cxx",
        ) || eq_ignore_case(lang, "cc") {
            Some(Self::Cpp)
        } else if eq_ignore_case(lang, "go") || eq_ignore_case(lang, "golang") {
            Some(Self::Go)
        } else if eq_ignore_case(lang, "java") {
            Some(Self::Java)
        } else if eq_ignore_case(lang, "ruby") || eq_ignore_case(lang, "rb") {
            Some(Self::Ruby)
        } else if eq_ignore_case(lang, "php") {
            Some(Self::PHP)
        } else if eq_ignore_case(lang, "perl") || eq_ignore_case(lang, "pl") {
            Some(Self::Perl)
        } else if eq_ignore_case(lang, "lua") {
            Some(Self::Lua)
        } else if eq_ignore_case(lang, "haskell") || eq_ignore_case(lang, "hs") {
            Some(Self::Haskell)
        } else if eq_ignore_case(lang, "elixir") || eq_ignore_case(lang, "ex") {
            Some(Self::Elixir)
        } else if eq_ignore_case(lang, "kotlin") || eq_ignore_case(lang, "kt") {
            Some(Self::Kotlin)
        } else if eq_ignore_case(lang, "scala") {
            Some(Self::Scala)
        } else if eq_ignore_case(lang, "bash") || eq_ignore_case(lang, "shell") || eq_ignore_case(
            lang,
            "sh",
        ) {
            Some(Self::Bash)
        } else {
            Some(Self::Other(lang.to_owned()))
        }
    }

    /// The canonical lowercase name of the language.
    pub fn as_str(&self) -> (r: &str)
        ensures
            r@ == self.spec_name(),
    {
        match self {
            Self::JavaScript => "javascript",
            Self::TypeScript => "typescript",
            Self::Python => "python",
            Self::Rust => "rust",
            Self::C => "c",
            Self::Cpp => "cpp",
            Self::Go => "go",
            Self::Java => "java",
            Self::Ruby => "ruby",
            Self::PHP => "php",
            Self::Perl => "perl",
            Self::Lua => "lua",
            Self::Haskell => "haskell",
            Self::Elixir => "elixir",
            Self::Kotlin => "kotlin",
            Self::Scala => "scala",
            Self::Bash => "bash",
            Self::Other(s) => s.as_str(),
        }
    }

    /// Every language in the catalog can be handed to some execution
    /// service, so this holds of them all.
    pub fn is_web_executable(&self) -> (r: bool)
        ensures
            r,
    {
        true
    }
}

/// What came back from running a snippet: captured output on success,
/// the failure message otherwise, and the wall time when it was
/// measured.
#[derive(Clone, Debug)]
pub struct ExecutionResult {
    pub success: bool,
    pub output: String,
    pub error: Option<String>,
    pub execution_time: Option<u32>,
}

/// Settings for running snippets; the runner itself lives with the
/// host, which owns the browser runtime the services are called from.
pub struct CodeExecutor {
    pub timeout_ms: u32,
}

impl Default for CodeExecutor {
    /// Half a minute before a run is abandoned.
    fn default() -> (r: Self)
        ensures
            r.timeout_ms == 30000,
    {
        Self { timeout_ms: 30000 }
    }
}

impl CodeExecutor {
    pub fn new(timeout_ms: u32) -> (r: Self)
        ensures
            r.timeout_ms == timeout_ms,
    {
        Self { timeout_ms }
    }
}

} // verus!
