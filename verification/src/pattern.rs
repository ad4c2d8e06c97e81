//! The regular expressions of the `regex` crate, as far as the filter uses
//! them. Nothing in this file is proved: it states what the crate's functions
//! return, and the rest of the library reasons from that.

use regex::Regex;
use vstd::prelude::*;

verus! {

/// A compiled regular expression of the `regex` crate. Nothing is known of
/// what is inside.
#[verifier::external_type_specification]
#[verifier::external_body]
pub struct ExRegex(Regex);

/// The error of the `regex` crate for a pattern that it does not compile.
#[verifier::external_type_specification]
#[verifier::external_body]
pub struct ExRegexError(regex::Error);

/// What `Regex::new` returns for `pattern`: the compiled expression, or the
/// error for a pattern that is malformed or compiles to more than the crate's
/// default size limit.
pub uninterp spec fn regex_new(pattern: Seq<char>) -> Result<Regex, regex::Error>;

/// What `Regex::is_match` returns: whether `re` matches anywhere in `haystack`.
pub uninterp spec fn regex_is_match(re: Regex, haystack: Seq<char>) -> bool;

/// What `Regex::replace_all` returns: `haystack` with every non-overlapping
/// match of `re` replaced by `replacement`, in which `$name` and `$1` stand
/// for capture groups.
pub uninterp spec fn regex_replace_all(
    re: Regex,
    haystack: Seq<char>,
    replacement: Seq<char>,
) -> Seq<char>;

/// How the `regex` crate words `err` through its `Display`.
pub uninterp spec fn regex_error_text(err: regex::Error) -> Seq<char>;

/// Calls `Regex::new`. Trusted: the result depends on the pattern alone.
#[verifier::external_body]
pub(crate) fn compile(pattern: &str) -> (r: Result<Regex, regex::Error>)
    ensures
        r == regex_new(pattern@),
{
    Regex::new(pattern)
}

/// Calls `Regex::is_match`. Trusted: the result depends on the expression and
/// the haystack alone.
#[verifier::external_body]
pub(crate) fn is_match(re: &Regex, haystack: &str) -> (b: bool)
    ensures
        b == regex_is_match(*re, haystack@),
{
    re.is_match(haystack)
}

/// Calls `Regex::replace_all` with a string as the replacement, and copies the
/// result. Trusted: the result depends on the three arguments alone.
#[verifier::external_body]
pub(crate) fn replace_all(re: &Regex, haystack: &str, replacement: &str) -> (out: String)
    ensures
        out@ == regex_replace_all(*re, haystack@, replacement@),
{
    re.replace_all(haystack, replacement).into_owned()
}

/// Calls `to_string` on an error of the `regex` crate. Trusted: the text
/// depends on the error alone.
#[verifier::external_body]
pub(crate) fn error_text(err: &regex::Error) -> (out: String)
    ensures
        out@ == regex_error_text(*err),
{
    err.to_string()
}

} // verus!
