//! Path patterns: a compiled regular expression over request paths.
//!
//! A pattern is compiled once, at route-registration time; matching a
//! request path against it can then never fail. Matching is unanchored:
//! a pattern matches a path when it matches anywhere inside it, not only
//! when it describes the whole path.

use vstd::prelude::*;

verus! {

/// The pattern string was not a valid regular expression.
#[derive(Clone, Copy, Debug)]
pub struct PatternError;

/// Whether `pattern` is a valid regular expression, that is, whether
/// `regex::Regex::new` accepts it. Success of compilation depends on the
/// pattern string alone.
pub uninterp spec fn pattern_valid(pattern: Seq<char>) -> bool;

/// Whether the regular expression `pattern` matches anywhere inside `path`,
/// as `regex::Regex::is_match` decides it. The result depends on the two
/// strings alone.
pub uninterp spec fn path_matches(pattern: Seq<char>, path: Seq<char>) -> bool;

#[verifier::external_type_specification]
#[verifier::external_body]
pub struct ExRegex(regex::Regex);

/// A compiled path pattern.
///
/// `pattern` is the source text the matcher was compiled from; the two
/// fields are only ever set together by [`Path::new`], so the matcher
/// always is the compilation of `pattern`.
pub struct Path {
    pattern: String,
    matcher: regex::Regex,
}

impl View for Path {
    type V = Seq<char>;

    closed spec fn view(&self) -> Seq<char> {
        self.pattern@
    }
}

impl Path {
    /// Compiles `pattern` into a path matcher.
    ///
    /// Relies on `regex::Regex::new`: it returns `Ok` exactly for the
    /// pattern strings that are valid regular expressions.
    #[verifier::external_body]
    pub fn new(pattern: &str) -> (result: Result<Path, PatternError>)
        ensures
            result is Ok <==> pattern_valid(pattern@),
            result matches Ok(p) ==> p@ == pattern@,
    {
        match regex::Regex::new(pattern) {
            Ok(matcher) => Ok(Path { pattern: pattern.to_owned(), matcher }),
            Err(_) => Err(PatternError),
        }
    }

    /// Tests whether this pattern matches anywhere inside `path`.
    ///
    /// Relies on `regex::Regex::is_match`: true if and only if the pattern
    /// matches somewhere in the haystack (an unanchored search).
    #[verifier::external_body]
    pub fn matches(&self, path: &str) -> (result: bool)
        ensures
            result == path_matches(self@, path@),
    {
        self.matcher.is_match(path)
    }

    /// The pattern text this matcher was compiled from.
    pub fn pattern(&self) -> (result: &str)
        ensures
            result@ == self@,
    {
        self.pattern.as_str()
    }
}

} // verus!
