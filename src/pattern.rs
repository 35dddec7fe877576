//! Path patterns: regular expressions compiled once and then only matched.

use vstd::prelude::*;

verus! {

#[verifier::external_type_specification]
#[verifier::external_body]
pub struct ExRegex(regex::Regex);

#[verifier::external_type_specification]
#[verifier::external_body]
pub struct ExRegexError(regex::Error);

/// Whether `pattern` is accepted by the regex compiler (valid syntax, and
/// within the compiler's default size limit).
pub uninterp spec fn pattern_compiles(pattern: Seq<char>) -> bool;

/// Whether the expression compiled from `pattern` finds a match anywhere in
/// `haystack`.
pub uninterp spec fn pattern_matches(pattern: Seq<char>, haystack: Seq<char>) -> bool;

/// A compiled path pattern. It is only built by `compile`, so `re` is always
/// the expression compiled from `source`.
pub struct Pattern {
    source: String,
    re: regex::Regex,
}

impl View for Pattern {
    type V = Seq<char>;

    closed spec fn view(&self) -> Seq<char> {
        self.source@
    }
}

impl Pattern {
    /// Relies on regex::Regex::new: it fails exactly on the patterns that do
    /// not compile, and otherwise yields the expression for `source`.
    #[verifier::external_body]
    pub(crate) fn compile(source: String) -> (r: Result<Pattern, regex::Error>)
        ensures
            r is Ok <==> pattern_compiles(source@),
            r matches Ok(p) ==> p@ == source@,
    {
        match regex::Regex::new(&source) {
            Ok(re) => Ok(Pattern { source, re }),
            Err(e) => Err(e),
        }
    }

    /// Relies on regex::Regex::is_match: an unanchored search of `haystack`.
    #[verifier::external_body]
    pub(crate) fn is_match(&self, haystack: &str) -> (r: bool)
        ensures
            r == pattern_matches(self@, haystack@),
    {
        self.re.is_match(haystack)
    }
}

} // verus!
