//! The recursion mode of a watch, and its resolution from text.

use vstd::prelude::*;
use vstd::string::*;

verus! {

/// Whether a watch covers the whole subtree below its path or the path alone.
#[derive(Clone, Copy, Debug, PartialEq, Eq, Structural)]
pub enum RecursiveMode {
    Recursive,
    NonRecursive,
}

/// Why a mode selector was turned down.
#[derive(Clone, Copy, Debug, PartialEq, Eq, Structural)]
pub enum ParseError {
    /// The selector is neither of the two accepted tokens.
    UnrecognizedMode,
}

impl ParseError {
    /// The text shown for this error.
    pub fn message(&self) -> (text: String)
        ensures
            text@ == "unrecognized recursion mode"@,
    {
        "unrecognized recursion mode".to_owned()
    }
}

/// Whether two strings hold the same characters.
fn same_text(left: &str, right: &str) -> (same: bool)
    ensures
        same == (left@ == right@),
{
    let n: usize = left.unicode_len();
    if n != right.unicode_len() {
        return false;
    }
    let mut i: usize = 0;
    while i < n
        invariant
            n == left@.len(),
            n == right@.len(),
            i <= n,
            forall|j: int| 0 <= j < i ==> left@[j] == right@[j],
        decreases n - i,
    {
        if left.get_char(i) != right.get_char(i) {
            return false;
        }
        i += 1;
    }
    assert(left@ =~= right@);
    true
}

impl RecursiveMode {
    /// The mode that a selector names: `recursive` and `nonrecursive`, in
    /// exactly this spelling, name the two modes; no other text names one.
    pub open spec fn spec_from_str(text: Seq<char>) -> Option<RecursiveMode> {
        if text == "recursive"@ {
            Some(RecursiveMode::Recursive)
        } else if text == "nonrecursive"@ {
            Some(RecursiveMode::NonRecursive)
        } else {
            None
        }
    }

    /// Resolves a mode selector. The two accepted tokens give their mode;
    /// every other text is an error, never a default.
    pub fn from_str(s: &str) -> (resolved: Result<RecursiveMode, ParseError>)
        ensures
            resolved == match RecursiveMode::spec_from_str(s@) {
                Some(mode) => Ok::<RecursiveMode, ParseError>(mode),
                None => Err::<RecursiveMode, ParseError>(ParseError::UnrecognizedMode),
            },
    {
        if same_text(s, "recursive") {
            Ok(RecursiveMode::Recursive)
        } else if same_text(s, "nonrecursive") {
            Ok(RecursiveMode::NonRecursive)
        } else {
            Err(ParseError::UnrecognizedMode)
        }
    }
}

/// The two accepted tokens resolve, and to different modes.
pub proof fn accepted_tokens_resolve()
    ensures
        RecursiveMode::spec_from_str("recursive"@) == Some(RecursiveMode::Recursive),
        RecursiveMode::spec_from_str("nonrecursive"@) == Some(RecursiveMode::NonRecursive),
        RecursiveMode::spec_from_str("recursive"@) != RecursiveMode::spec_from_str(
            "nonrecursive"@,
        ),
{
    reveal_strlit("recursive");
    reveal_strlit("nonrecursive");
    assert("recursive"@.len() != "nonrecursive"@.len());
}

/// A text resolves to a mode only if it is one of the two accepted tokens,
/// and each mode is named by exactly one token.
pub proof fn resolution_is_exact(text: Seq<char>)
    ensures
        RecursiveMode::spec_from_str(text) == Some(RecursiveMode::Recursive) <==> text
            == "recursive"@,
        RecursiveMode::spec_from_str(text) == Some(RecursiveMode::NonRecursive) <==> text
            == "nonrecursive"@,
        RecursiveMode::spec_from_str(text) is None <==> text != "recursive"@ && text
            != "nonrecursive"@,
{
    accepted_tokens_resolve();
}

} // verus!
