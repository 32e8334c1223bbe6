//! Path patterns whose filesystem changes do not count as changes.
use vstd::prelude::*;

verus! {

#[verifier::external_type_specification]
#[verifier::external_body]
pub struct ExRegex(regex::Regex);

#[verifier::external_type_specification]
#[verifier::external_body]
pub struct ExRegexError(regex::Error);

/// Whether the regex crate accepts `pattern` as an expression.
pub uninterp spec fn regex_compiles(pattern: Seq<char>) -> bool;

/// Whether the expression written `pattern` matches somewhere in `text`.
pub uninterp spec fn regex_matches(pattern: Seq<char>, text: Seq<char>) -> bool;

/// Relies on `regex::Regex::new`: it compiles `pattern` or reports why it cannot,
/// and which of the two depends on the pattern alone.
#[verifier::external_body]
fn compile_regex(pattern: &str) -> (r: Result<regex::Regex, regex::Error>)
    ensures
        r is Ok <==> regex_compiles(pattern@),
{
    regex::Regex::new(pattern)
}

/// Why a pattern could not be turned into an ignored path.
#[derive(Debug)]
pub enum IgnoredPathErr {
    Regex(regex::Error),
}

/// A regular expression over paths; a change to a path it matches is ignored.
#[derive(Debug)]
pub struct IgnoredPath {
    re: regex::Regex,
    pattern: String,
}

impl View for IgnoredPath {
    type V = Seq<char>;

    /// The pattern the expression was compiled from.
    closed spec fn view(&self) -> Seq<char> {
        self.pattern@
    }
}

impl IgnoredPath {
    /// Compiles `path` as a regular expression.
    pub fn new(path: &str) -> (r: Result<Self, IgnoredPathErr>)
        ensures
            r is Ok <==> regex_compiles(path@),
            r matches Ok(p) ==> p@ == path@,
    {
        match compile_regex(path) {
            Ok(re) => Ok(IgnoredPath { re, pattern: path.to_owned() }),
            Err(e) => Err(IgnoredPathErr::Regex(e)),
        }
    }

    /// Relies on `regex::Regex::is_match` on the expression compiled from `self.pattern`
    /// (the only way an `IgnoredPath` is built): whether it matches anywhere in `text`.
    #[verifier::external_body]
    fn regex_is_match(&self, text: &str) -> (r: bool)
        ensures
            r == regex_matches(self.pattern@, text@),
    {
        self.re.is_match(text)
    }

    /// Whether the pattern matches somewhere in `other`.
    pub fn matched_by(&self, other: &str) -> (r: bool)
        ensures
            r == regex_matches(self@, other@),
    {
        self.regex_is_match(other)
    }
}

/// Some pattern of `ignored` matches `path`.
pub open spec fn matched_by_any(ignored: Seq<IgnoredPath>, path: Seq<char>) -> bool {
    exists|j: int| 0 <= j < ignored.len() && regex_matches(#[trigger] ignored[j]@, path)
}

/// A batch of changed paths is ignored when every path in it is matched by some pattern.
pub open spec fn batch_ignored(ignored: Seq<IgnoredPath>, paths: Seq<String>) -> bool {
    forall|i: int| 0 <= i < paths.len() ==> matched_by_any(ignored, #[trigger] paths[i]@)
}

/// Whether some pattern of `ignored` matches `path`.
pub fn any_matches(ignored: &Vec<IgnoredPath>, path: &str) -> (r: bool)
    ensures
        r == matched_by_any(ignored@, path@),
{
    let mut j: usize = 0;
    while j < ignored.len()
        invariant
            j <= ignored.len(),
            forall|m: int| 0 <= m < j ==> !regex_matches(#[trigger] ignored@[m]@, path@),
        decreases ignored.len() - j,
    {
        if ignored[j].matched_by(path) {
            return true;
        }
        j += 1;
    }
    false
}

/// Whether a batch of changed paths is to be dropped: every path in it is matched by at
/// least one pattern. A batch with one unmatched path counts as a change.
pub fn is_ignored(ignored: &Vec<IgnoredPath>, paths: &Vec<String>) -> (r: bool)
    ensures
        r == batch_ignored(ignored@, paths@),
{
    let mut i: usize = 0;
    while i < paths.len()
        invariant
            i <= paths.len(),
            forall|m: int| 0 <= m < i ==> matched_by_any(ignored@, #[trigger] paths@[m]@),
        decreases paths.len() - i,
    {
        if !any_matches(ignored, paths[i].as_str()) {
            return false;
        }
        i += 1;
    }
    true
}

} // verus!
