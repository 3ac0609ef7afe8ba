use vstd::prelude::*;
use crate::errors::GrepError;

verus! {

#[verifier::external_type_specification]
#[verifier::external_body]
pub struct ExRegex(regex::Regex);

#[verifier::external_type_specification]
#[verifier::external_body]
pub struct ExRegexError(regex::Error);

/// Whether the regular expression written as `pattern` matches anywhere in
/// `line`. The full matching semantics would take pages to state, so the
/// result is only named; it is a function of the two texts alone.
pub uninterp spec fn regex_match(pattern: Seq<char>, line: Seq<char>) -> bool;

/// Whether `pattern` is a valid regular expression: well-formed syntax,
/// and compiled within the default size limit. What counts as valid takes
/// pages to state, so the result is only named; it is a function of the
/// pattern text alone.
pub uninterp spec fn regex_ok(pattern: Seq<char>) -> bool;

/// A compiled pattern, paired with the exact text it was compiled from.
/// The pairing is established by the one constructor, `Pattern::compile`,
/// and never changes; a `Pattern`'s view is that text.
pub struct Pattern {
    re: regex::Regex,
    src: String,
}

impl View for Pattern {
    type V = Seq<char>;

    closed spec fn view(&self) -> Seq<char> {
        self.src@
    }
}

/// Relies on regex::Regex::new: whether compilation succeeds depends on
/// the pattern text alone (a deterministic parser under the default size
/// limit), which is what the name `regex_ok` stands for. On success the
/// returned value is the automaton compiled from `src`, so the `Pattern`
/// pairs it with exactly that text; on failure (invalid syntax, or a
/// pattern over the size limit) the regex crate's error is passed
/// through unchanged.
#[verifier::external_body]
fn regex_compile(src: &str) -> (r: Result<Pattern, regex::Error>)
    ensures
        r is Ok <==> regex_ok(src@),
        r matches Ok(p) ==> p@ == src@,
{
    match regex::Regex::new(src) {
        Ok(re) => Ok(Pattern { re, src: src.to_string() }),
        Err(e) => Err(e),
    }
}

/// Relies on regex::Regex::is_match: true if and only if the regex matches
/// anywhere in `line`; deterministic for a fixed pattern text and line,
/// which is what the name `regex_match` stands for.
#[verifier::external_body]
fn regex_is_match(p: &Pattern, line: &str) -> (r: bool)
    ensures
        r == regex_match(p@, line@),
{
    p.re.is_match(line)
}

impl Pattern {
    /// Compiles a pattern text. Detects a malformed pattern here, at
    /// construction time, before any line is scanned: compilation
    /// succeeds exactly when the text is a valid pattern.
    pub fn compile(src: &str) -> (r: Result<Pattern, GrepError>)
        ensures
            r is Ok <==> regex_ok(src@),
            r matches Ok(p) ==> p@ == src@,
            r matches Err(e) ==> e == GrepError::PatternError,
    {
        match regex_compile(src) {
            Ok(p) => Ok(p),
            Err(_) => Err(GrepError::PatternError),
        }
    }

    /// Does this pattern match anywhere in `line`?
    pub fn is_match(&self, line: &str) -> (r: bool)
        ensures
            r == regex_match(self@, line@),
    {
        regex_is_match(self, line)
    }
}

} // verus!
