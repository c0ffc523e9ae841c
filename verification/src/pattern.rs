//! Regular expressions of the `regex` crate, compiled once and matched
//! against lines of text.

use vstd::prelude::*;

verus! {

#[verifier::external_type_specification]
#[verifier::external_body]
pub struct ExRegex(regex::Regex);

/// Whether `regex::Regex::new` accepts the pattern `pattern`.
pub uninterp spec fn regex_compiles(pattern: Seq<char>) -> bool;

/// The text of capture group 1 in the leftmost-first match of the pattern
/// `pattern` in `text`, as `regex::Regex::captures` and `Captures::get(1)`
/// give it: `None` when nothing matches or group 1 took no part.
pub uninterp spec fn regex_group_one(pattern: Seq<char>, text: Seq<char>) -> Option<Seq<char>>;

/// A compiled regular expression together with the pattern it was compiled
/// from. Only `compile` makes one, so the two always agree.
pub struct LinePattern {
    regex: regex::Regex,
    source: String,
}

impl LinePattern {
    /// The pattern this was compiled from.
    pub closed spec fn source(&self) -> Seq<char> {
        self.source@
    }
}

/// `regex::Regex::new`: compiles `pattern`; its error becomes `None`. The
/// contract names whether it compiles and records the pattern; what the
/// compiled expression matches is named by `regex_group_one`.
#[verifier::external_body]
pub fn compile(pattern: &str) -> (r: Option<LinePattern>)
    ensures
        r is Some <==> regex_compiles(pattern@),
        r matches Some(p) ==> p.source() == pattern@,
{
    regex::Regex::new(pattern).ok().map(|regex| LinePattern { regex, source: pattern.to_string() })
}

/// `regex::Regex::captures` followed by `Captures::get(1)`: the text of the
/// first capture group of the leftmost-first match in `text`, which the
/// contract names.
#[verifier::external_body]
pub fn first_group(p: &LinePattern, text: &str) -> (r: Option<String>)
    ensures
        match r {
            Some(g) => regex_group_one(p.source(), text@) == Some(g@),
            None => regex_group_one(p.source(), text@) is None,
        },
{
    p.regex.captures(text).and_then(|c| c.get(1)).map(|m| m.as_str().to_string())
}

} // verus!
