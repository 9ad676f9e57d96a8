use vstd::prelude::*;
use vstd::string::StringExecFns;
use vstd::string::StrSliceExecFns;
use crate::front_end::{
    finds_include, front_end_finds_errors, has_syntax_errors, mentions_include, MAX_SOURCE_CHARS,
};

verus! {

/// Why a source text was judged invalid.
#[derive(Debug, Clone, Copy, PartialEq, Eq, Structural)]
pub enum ValidationError {
    /// The front end reported at least one syntax error.
    ParseFailed,
}

/// The fixed description of a failed parse.
pub open spec fn parse_failed_text() -> Seq<char> {
    "Parsing failed"@
}

impl ValidationError {
    /// The description that this error carries, in words.
    pub open spec fn description(self) -> Seq<char> {
        match self {
            ValidationError::ParseFailed => parse_failed_text(),
        }
    }

    /// The description, as a `String`.
    pub fn message(&self) -> (r: String)
        ensures
            r@ == self.description(),
    {
        match self {
            ValidationError::ParseFailed => String::from_str("Parsing failed"),
        }
    }
}

/// The outcome that a verdict of the front end calls for: failure exactly when errors
/// were found.
pub open spec fn outcome_spec(found_errors: bool) -> Result<(), ValidationError> {
    if found_errors {
        Err(ValidationError::ParseFailed)
    } else {
        Ok(())
    }
}

/// Turns the front end's verdict into the validation outcome.
pub fn outcome_of(found_errors: bool) -> (r: Result<(), ValidationError>)
    ensures
        r == outcome_spec(found_errors),
        r is Ok <==> !found_errors,
{
    if found_errors {
        Err(ValidationError::ParseFailed)
    } else {
        Ok(())
    }
}

/// Validates a source text that includes no other file and is shorter than
/// `MAX_SOURCE_CHARS` characters.
pub fn parse_qasm3(source: &str) -> (r: Result<(), ValidationError>)
    requires
        !mentions_include(source@),
        source@.len() < MAX_SOURCE_CHARS,
    ensures
        r == outcome_spec(has_syntax_errors(source@)),
        r is Ok <==> !has_syntax_errors(source@),
{
    let found = front_end_finds_errors(source);
    outcome_of(found)
}

/// Whether `source` is one that `parse_qasm3` takes: no `include`, and
/// fewer than `MAX_SOURCE_CHARS` characters.
pub open spec fn is_self_contained(source: Seq<char>) -> bool {
    !mentions_include(source) && source.len() < MAX_SOURCE_CHARS
}

/// Validates `source` where the outcome depends on the text alone. Returns
/// `None` when the text mentions `include`, for the front end would then read
/// other files from disk, which this library leaves to its caller; and when it
/// has `MAX_SOURCE_CHARS` characters or more.
pub fn validate(source: &str) -> (r: Option<Result<(), ValidationError>>)
    ensures
        r is None <==> !is_self_contained(source@),
        r matches Some(o) ==> o == outcome_spec(has_syntax_errors(source@)),
{
    if source.unicode_len() >= MAX_SOURCE_CHARS || finds_include(source) {
        None
    } else {
        Some(parse_qasm3(source))
    }
}

} // verus!
