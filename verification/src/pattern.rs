//! Regular-expression matching through the `regex` crate.
//!
//! The crate's own matching engine decides; what it decides is named by
//! `regex_compiles` and `regex_finds_match`, functions of the pattern text and
//! the haystack alone.

use vstd::prelude::*;
use crate::user::{SSH_KEY_PATTERN, USERNAME_PATTERN, ssh_key_form, username_form};

verus! {

#[verifier::external_type_specification]
#[verifier::external_body]
pub struct ExRegex(regex::Regex);

#[verifier::external_type_specification]
#[verifier::external_body]
pub struct ExRegexError(regex::Error);

/// Whether `regex::Regex::new` accepts `pattern`: its syntax is valid and the
/// compiled program stays within the crate's default size limit.
pub uninterp spec fn regex_compiles(pattern: Seq<char>) -> bool;

/// Whether the regex compiled from `pattern` matches somewhere in `haystack`
/// (`regex::Regex::is_match`).
pub uninterp spec fn regex_finds_match(pattern: Seq<char>, haystack: Seq<char>) -> bool;

/// `regex::Regex::new`. Claimed: it succeeds exactly when `regex_compiles`
/// holds of the pattern text; nothing is claimed of the error's content.
#[verifier::external_body]
fn regex_new(pattern: &str) -> (r: Result<regex::Regex, regex::Error>)
    ensures
        r is Ok <==> regex_compiles(pattern@),
{
    regex::Regex::new(pattern)
}

/// A regex together with the pattern text it was compiled from. The fields are
/// private and `compile` is the only constructor, so `regex` is always the
/// result of `regex::Regex::new(source)`.
pub struct CompiledPattern {
    source: String,
    regex: regex::Regex,
}

impl View for CompiledPattern {
    type V = Seq<char>;

    /// The pattern text.
    closed spec fn view(&self) -> Seq<char> {
        self.source@
    }
}

/// `regex::Regex::is_match` on the regex held by `pattern`. Claimed: the answer
/// is `regex_finds_match` of the pattern text the regex was compiled from; and,
/// for the two fixed patterns of the library, it is what the regex crate's
/// documented syntax makes of them (`username_form`, `ssh_key_form`).
#[verifier::external_body]
fn regex_is_match(pattern: &CompiledPattern, haystack: &str) -> (b: bool)
    ensures
        b == regex_finds_match(pattern@, haystack@),
        pattern@ == USERNAME_PATTERN@ ==> (b <==> username_form(haystack@)),
        pattern@ == SSH_KEY_PATTERN@ ==> (b <==> ssh_key_form(haystack@)),
{
    pattern.regex.is_match(haystack)
}

impl CompiledPattern {
    /// Compiles `pattern`; fails exactly when the regex crate rejects it.
    pub fn compile(pattern: &str) -> (r: Result<CompiledPattern, regex::Error>)
        ensures
            r is Ok <==> regex_compiles(pattern@),
            r matches Ok(p) ==> p@ == pattern@,
    {
        match regex_new(pattern) {
            Ok(regex) => Ok(CompiledPattern { source: String::from_str(pattern), regex }),
            Err(e) => Err(e),
        }
    }

    /// Whether the pattern matches somewhere in `haystack`.
    pub fn is_match(&self, haystack: &str) -> (b: bool)
        ensures
            b == regex_finds_match(self@, haystack@),
            self@ == USERNAME_PATTERN@ ==> (b <==> username_form(haystack@)),
            self@ == SSH_KEY_PATTERN@ ==> (b <==> ssh_key_form(haystack@)),
    {
        regex_is_match(self, haystack)
    }
}

} // verus!
