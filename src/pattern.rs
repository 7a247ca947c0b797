use vstd::prelude::*;

verus! {

#[verifier::external_type_specification]
#[verifier::external_body]
pub struct ExRegex(regex::Regex);

/// Whether the regex crate accepts `pattern` under its default limits.
pub uninterp spec fn pattern_compiles(pattern: Seq<char>) -> bool;

/// Whether the regex written `pattern` matches somewhere in `line`.
pub uninterp spec fn pattern_matches(pattern: Seq<char>, line: Seq<char>) -> bool;

/// A compiled regular expression together with the text it was compiled from.
pub struct Pattern {
    regex: regex::Regex,
    source: Ghost<Seq<char>>,
}

impl Pattern {
    /// The text this pattern was compiled from.
    pub closed spec fn source(&self) -> Seq<char> {
        self.source@
    }

    /// Compiles `pattern`; `None` where the regex crate refuses it.
    pub fn compile(pattern: &str) -> (r: Option<Pattern>)
        ensures
            r.is_some() == pattern_compiles(pattern@),
            r matches Some(p) ==> p.source() == pattern@,
    {
        compile_regex(pattern)
    }

    /// Whether the pattern matches somewhere in `line`.
    pub fn is_match(&self, line: &str) -> (r: bool)
        ensures
            r == pattern_matches(self.source(), line@),
    {
        regex_is_match(self, line)
    }
}

/// Relies on `regex::Regex::new`: it fails exactly on a pattern it does not accept.
/// This is the one place a `Pattern` is built, so the regex of every `Pattern` is the
/// one compiled from its source.
#[verifier::external_body]
fn compile_regex(pattern: &str) -> (r: Option<Pattern>)
    ensures
        r.is_some() == pattern_compiles(pattern@),
        r matches Some(p) ==> p.source() == pattern@,
{
    regex::Regex::new(pattern).ok().map(|regex| Pattern { regex, source: Ghost(pattern@) })
}

/// Relies on `regex::Regex::is_match`: true exactly where the regex matches somewhere
/// in the haystack. The regex is the one `compile_regex` built from the source.
#[verifier::external_body]
fn regex_is_match(p: &Pattern, line: &str) -> (r: bool)
    ensures
        r == pattern_matches(p.source(), line@),
{
    p.regex.is_match(line)
}

} // verus!
