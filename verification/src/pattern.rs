//! Compiled name patterns: the one place the library touches the regex
//! engine.

use vstd::prelude::*;
use regex::RegexBuilder;

verus! {

#[verifier::external_type_specification]
#[verifier::external_body]
pub struct ExRegex(regex::Regex);

/// Whether `pattern` compiles as a regular expression under the given
/// case-insensitivity flag.
pub uninterp spec fn regex_ok(pattern: Seq<char>, ignore_case: bool) -> bool;

/// Whether the compiled `pattern` matches somewhere inside `text`
/// (substring-search semantics).
pub uninterp spec fn regex_match(pattern: Seq<char>, ignore_case: bool, text: Seq<char>) -> bool;

/// A compiled pattern, remembering what it was compiled from.
pub struct Matcher {
    re: regex::Regex,
    pattern: String,
    case_insensitive: bool,
}

impl Matcher {
    /// The pattern this matcher was compiled from.
    pub closed spec fn pattern_spec(&self) -> Seq<char> {
        self.pattern@
    }

    /// Whether this matcher folds case.
    pub closed spec fn ignore_case_spec(&self) -> bool {
        self.case_insensitive
    }

    /// Relies on `regex::RegexBuilder::build`: whether a pattern compiles
    /// depends on the pattern and its flags alone.  The error text is the
    /// regex engine's own message.
    #[verifier::external_body]
    pub fn compile(pattern: &str, ignore_case: bool) -> (r: Result<Matcher, String>)
        ensures
            r is Ok <==> regex_ok(pattern@, ignore_case),
            r matches Ok(m) ==> m.pattern_spec() == pattern@ && m.ignore_case_spec()
                == ignore_case,
    {
        match RegexBuilder::new(pattern).case_insensitive(ignore_case).build() {
            Ok(re) => Ok(
                Matcher { re, pattern: pattern.to_owned(), case_insensitive: ignore_case },
            ),
            Err(e) => Err(format!("{}", e)),
        }
    }

    /// Relies on `regex::Regex::is_match`: whether a match exists anywhere in
    /// the text depends on the pattern, its flags and the text alone.
    #[verifier::external_body]
    pub fn is_match(&self, text: &str) -> (r: bool)
        ensures
            r == regex_match(self.pattern_spec(), self.ignore_case_spec(), text@),
    {
        self.re.is_match(text)
    }
}

} // verus!
