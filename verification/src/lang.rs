//! The closed set of languages the engine can execute, and the mapping
//! between a request's language string and the language tag.

use vstd::prelude::*;
use crate::text::str_eq;

verus! {

/// What can go wrong while preparing or running a job. Per-job errors
/// never cross job boundaries: each becomes one terminal frame for the
/// submitting client.
#[derive(Clone, Debug)]
pub enum RuntimeError {
    NoExecutor,
    Capture(String),
    WriteFailed(String),
    InitializationFailure(String),
    ParseInput(String),
}

/// One tag per supported language; dispatch over this enum is exhaustive,
/// so every language has an adapter.
#[derive(Clone, Copy, Debug, PartialEq, Eq, Structural)]
pub enum Languages {
    Python,
    Javascript,
    Rust,
    Go,
    C,
    Cpp,
    Shell,
}

/// The canonical name of each language, as it appears in requests.
pub open spec fn language_name(lang: Languages) -> Seq<char> {
    match lang {
        Languages::Python => "python"@,
        Languages::Javascript => "javascript"@,
        Languages::Rust => "rust"@,
        Languages::Go => "go"@,
        Languages::C => "c"@,
        Languages::Cpp => "cpp"@,
        Languages::Shell => "shell"@,
    }
}

/// Which language a request's language string selects; an unrecognized
/// string falls back to Python.
pub open spec fn language_of_name(s: Seq<char>) -> Languages {
    if s == "python"@ {
        Languages::Python
    } else if s == "javascript"@ {
        Languages::Javascript
    } else if s == "rust"@ {
        Languages::Rust
    } else if s == "go"@ {
        Languages::Go
    } else if s == "c"@ {
        Languages::C
    } else if s == "cpp"@ {
        Languages::Cpp
    } else if s == "shell"@ {
        Languages::Shell
    } else {
        Languages::Python
    }
}

impl Languages {
    /// The language's canonical name.
    pub fn as_string(&self) -> (r: &str)
        ensures
            r@ == language_name(*self),
    {
        match self {
            Self::Python => "python",
            Self::Javascript => "javascript",
            Self::Rust => "rust",
            Self::Go => "go",
            Self::C => "c",
            Self::Cpp => "cpp",
            Self::Shell => "shell",
        }
    }

    /// The language's canonical name (older spelling, kept for callers).
    pub fn to_string(&self) -> (r: &str)
        ensures
            r@ == language_name(*self),
    {
        self.as_string()
    }

    /// Selects the language a request names; unrecognized names select
    /// Python.
    pub fn from_string(language: &str) -> (r: Languages)
        ensures
            r == language_of_name(language@),
    {
        if str_eq(language, "python") {
            Self::Python
        } else if str_eq(language, "javascript") {
            Self::Javascript
        } else if str_eq(language, "rust") {
            Self::Rust
        } else if str_eq(language, "go") {
            Self::Go
        } else if str_eq(language, "c") {
            Self::C
        } else if str_eq(language, "cpp") {
            Self::Cpp
        } else if str_eq(language, "shell") {
            Self::Shell
        } else {
            Self::Python
        }
    }
}

/// Each language's canonical name selects that language back: the
/// name-to-language mapping inverts the language-to-name mapping.
pub proof fn lemma_language_name_round_trip(lang: Languages)
    ensures
        language_of_name(language_name(lang)) == lang,
{
    reveal_strlit("python");
    reveal_strlit("javascript");
    reveal_strlit("rust");
    reveal_strlit("go");
    reveal_strlit("c");
    reveal_strlit("cpp");
    reveal_strlit("shell");
    // The seven names all have different lengths, so none selects an
    // earlier branch of language_of_name than its own.
    match lang {
        Languages::Python => assert(language_name(lang).len() == 6),
        Languages::Javascript => assert(language_name(lang).len() == 10),
        Languages::Rust => assert(language_name(lang).len() == 4),
        Languages::Go => assert(language_name(lang).len() == 2),
        Languages::C => assert(language_name(lang).len() == 1),
        Languages::Cpp => assert(language_name(lang).len() == 3),
        Languages::Shell => assert(language_name(lang).len() == 5),
    }
}

} // verus!
