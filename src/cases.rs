use vstd::prelude::*;

use crate::text::str_eq;

verus! {

/// Whether `regex` accepts `pattern` as a regular expression, matched case
/// insensitively where `case_insensitive` holds.
pub uninterp spec fn regex_compiles(pattern: Seq<char>, case_insensitive: bool) -> bool;

/// Whether the regular expression `pattern` matches somewhere in `text`.
pub uninterp spec fn regex_finds(pattern: Seq<char>, case_insensitive: bool, text: Seq<char>) -> bool;

/// The lower-case form of `s`.
pub uninterp spec fn lower_of(s: Seq<char>) -> Seq<char>;

/// Relies on `regex::RegexBuilder::build` (with `case_insensitive`) and
/// `regex::Regex::is_match`: compiles `pattern`, then tests whether it matches
/// anywhere in `text`; a pattern that does not compile gives the error's text.
#[verifier::external_body]
fn regex_match(pattern: &str, case_insensitive: bool, text: &str) -> (r: Result<bool, String>)
    ensures
        r is Ok <==> regex_compiles(pattern@, case_insensitive),
        r matches Ok(found) ==> found == regex_finds(pattern@, case_insensitive, text@),
{
    match regex::RegexBuilder::new(pattern).case_insensitive(case_insensitive).build() {
        Ok(re) => Ok(re.is_match(text)),
        Err(e) => Err(e.to_string()),
    }
}

/// Relies on `str::to_lowercase`: the result depends on the characters alone.
#[verifier::external_body]
fn lowercase(s: &str) -> (r: String)
    ensures
        r@ == lower_of(s@),
{
    s.to_lowercase()
}

/// What checking `output` against `pattern` gives: whether it is accepted, or
/// `None` where the pattern cannot be evaluated.
pub open spec fn output_verdict(
    output: Seq<char>,
    pattern: Seq<char>,
    use_regex: bool,
    case_insensitive: bool,
) -> Option<bool> {
    if use_regex {
        if regex_compiles(pattern, case_insensitive) {
            Some(regex_finds(pattern, case_insensitive, output))
        } else {
            None
        }
    } else if case_insensitive {
        Some(lower_of(output) == lower_of(pattern))
    } else {
        Some(output == pattern)
    }
}

/// One input and the pattern its output must meet.
#[derive(Debug)]
pub struct TestCase {
    /// Fed to the program's standard input.
    pub stdin: String,
    /// Expected output: the exact text, or a regular expression.
    pub expected_pattern: String,
    /// Whether `expected_pattern` is a regular expression.
    pub use_regex: bool,
    /// Whether letter case is ignored.
    pub case_insensitive: bool,
}

impl Clone for TestCase {
    fn clone(&self) -> (r: Self)
        ensures
            r == *self,
    {
        TestCase {
            stdin: self.stdin.clone(),
            expected_pattern: self.expected_pattern.clone(),
            use_regex: self.use_regex,
            case_insensitive: self.case_insensitive,
        }
    }
}

impl TestCase {
    /// Whether `output` meets `pattern` under this case's flags; an error where
    /// the pattern cannot be evaluated.
    pub fn check_output(&self, output: &str, pattern: &str) -> (r: Result<bool, String>)
        ensures
            r is Ok <==> output_verdict(output@, pattern@, self.use_regex, self.case_insensitive) is Some,
            r matches Ok(b) ==> output_verdict(output@, pattern@, self.use_regex, self.case_insensitive)
                == Some(b),
    {
        if self.use_regex {
            regex_match(pattern, self.case_insensitive, output)
        } else if self.case_insensitive {
            let a = lowercase(output);
            let b = lowercase(pattern);
            Ok(str_eq(a.as_str(), b.as_str()))
        } else {
            Ok(str_eq(output, pattern))
        }
    }
}

} // verus!
