//! The grammar of the insertion command: the command word, a text in double
//! quotes, a dash, and the author up to the end of the line.

use vstd::prelude::*;
use vstd::string::*;

verus! {

/// The error of the regex crate when a pattern cannot be compiled.
#[verifier::external_type_specification]
#[verifier::external_body]
pub struct ExRegexError(regex::Error);

/// Whether the regex crate compiles `pattern`.
pub uninterp spec fn pattern_compiles(pattern: Seq<char>) -> bool;

/// The capture groups of the leftmost match of `pattern` in `text`, the whole
/// match first, each group absent where it took no part; `None` where
/// `pattern` matches nowhere in `text`.
pub uninterp spec fn pattern_groups(pattern: Seq<char>, text: Seq<char>) -> Option<
    Seq<Option<Seq<char>>>,
>;

/// Compiles `pattern` with `Regex::new` of the regex crate and searches `text`
/// with `Regex::captures`. Claimed: the call fails exactly when the pattern
/// does not compile, and otherwise what was captured is `pattern_groups` of
/// the two texts. What the groups hold is left to the crate.
#[verifier::external_body]
fn capture_groups(pattern: &str, text: &str) -> (r: Result<
    Option<Vec<Option<String>>>,
    regex::Error,
>)
    ensures
        r is Ok <==> pattern_compiles(pattern@),
        r matches Ok(g) ==> g.deep_view() == pattern_groups(pattern@, text@),
{
    let re = regex::Regex::new(pattern)?;
    Ok(re.captures(text).map(|c| c.iter().map(|m| m.map(|m| m.as_str().to_string())).collect()))
}

/// Why an insertion command yields no quote.
#[derive(Debug, Clone, Copy, PartialEq, Eq, Structural)]
pub enum AddQuoteError {
    /// The message does not follow the grammar.
    Malformed,
    /// The pattern of the grammar could not be compiled.
    Engine,
}

/// The pattern of the insertion command.
pub open spec fn add_quote_pattern() -> Seq<char> {
    "!addquote\\s+\"([^\"]+)\"\\s*-\\s*(.*)"@
}

/// The text and the author among the capture groups of a match: the first and
/// the second group, both of which must have taken part.
pub open spec fn fields_of(groups: Option<Seq<Option<Seq<char>>>>) -> Option<
    (Seq<char>, Seq<char>),
> {
    match groups {
        Some(g) => if g.len() >= 3 && g[1] is Some && g[2] is Some {
            Some((g[1]->0, g[2]->0))
        } else {
            None
        },
        None => None,
    }
}

/// What an insertion command parses to, given whether the pattern compiled
/// and what it captured.
pub open spec fn parsed(compiles: bool, groups: Option<Seq<Option<Seq<char>>>>) -> Result<
    (Seq<char>, Seq<char>),
    AddQuoteError,
> {
    if !compiles {
        Err(AddQuoteError::Engine)
    } else {
        match fields_of(groups) {
            Some(f) => Ok(f),
            None => Err(AddQuoteError::Malformed),
        }
    }
}

/// What the message `content` parses to as an insertion command.
pub open spec fn parse_spec(content: Seq<char>) -> Result<(Seq<char>, Seq<char>), AddQuoteError> {
    parsed(pattern_compiles(add_quote_pattern()), pattern_groups(add_quote_pattern(), content))
}

/// The parsed fields as plain values.
pub open spec fn parse_view(r: Result<(String, String), AddQuoteError>) -> Result<
    (Seq<char>, Seq<char>),
    AddQuoteError,
> {
    match r {
        Ok((t, a)) => Ok((t@, a@)),
        Err(e) => Err(e),
    }
}

/// The text and the author among the capture groups of a match, or
/// `Malformed` where there was no match or a group is missing.
pub fn fields_from_groups(groups: &Option<Vec<Option<String>>>) -> (r: Result<
    (String, String),
    AddQuoteError,
>)
    ensures
        parse_view(r) == parsed(true, groups.deep_view()),
{
    match groups {
        Some(g) => {
            if g.len() < 3 {
                return Err(AddQuoteError::Malformed);
            }
            match (&g[1], &g[2]) {
                (Some(t), Some(a)) => Ok((t.clone(), a.clone())),
                _ => Err(AddQuoteError::Malformed),
            }
        },
        None => Err(AddQuoteError::Malformed),
    }
}

/// Parses `content` with the grammar that `pattern` writes down: its first
/// group is the text, its second the author.
pub fn parse_with(pattern: &str, content: &str) -> (r: Result<(String, String), AddQuoteError>)
    ensures
        parse_view(r) == parsed(pattern_compiles(pattern@), pattern_groups(pattern@, content@)),
{
    match capture_groups(pattern, content) {
        Ok(groups) => fields_from_groups(&groups),
        Err(_) => Err(AddQuoteError::Engine),
    }
}

/// Parses `content` as an insertion command.
pub fn parse_add_quote(content: &str) -> (r: Result<(String, String), AddQuoteError>)
    ensures
        parse_view(r) == parse_spec(content@),
{
    parse_with("!addquote\\s+\"([^\"]+)\"\\s*-\\s*(.*)", content)
}

} // verus!
