//! Regular-expression patch files: each names target files of the chart and
//! either rewrites them with a regular expression or appends text to them.
use vstd::prelude::*;
use crate::patch::PatchError;
use crate::text::{concat3, join, join_path};

verus! {

/// One document of a regular-expression patch file.
pub struct RegexpPatch {
    pub name: String,
    pub targets: Vec<String>,
    pub before: Option<String>,
    pub after: Option<String>,
}

#[verifier::external_type_specification]
#[verifier::external_body]
pub struct ExRegex(regex::Regex);

#[verifier::external_type_specification]
#[verifier::external_body]
pub struct ExRegexError(regex::Error);

/// Whether `regex::Regex::new` accepts `pattern`.
pub uninterp spec fn regex_compiles(pattern: Seq<char>) -> bool;

/// What `regex::Regex::replace_all` gives for the regular expression
/// `pattern` on `haystack` with the replacement `replacement` (in which
/// `$name` and `${name}` stand for capture groups).
pub uninterp spec fn regex_replace_all(
    pattern: Seq<char>,
    haystack: Seq<char>,
    replacement: Seq<char>,
) -> Seq<char>;

/// A compiled regular expression, with the pattern it was compiled from.
pub struct CompiledPattern {
    source: String,
    regex: regex::Regex,
}

impl CompiledPattern {
    /// The pattern this regular expression was compiled from.
    pub closed spec fn source(&self) -> Seq<char> {
        self.source@
    }
}

/// Calls `regex::Regex::new`. Claimed: it succeeds exactly when
/// `regex_compiles(pattern)` holds, which depends on the pattern alone.
#[verifier::external_body]
fn compile(pattern: &str) -> (r: Result<CompiledPattern, regex::Error>)
    ensures
        r is Ok <==> regex_compiles(pattern@),
        r matches Ok(c) ==> c.source() == pattern@,
{
    match regex::Regex::new(pattern) {
        Ok(regex) => Ok(CompiledPattern { source: pattern.to_string(), regex }),
        Err(e) => Err(e),
    }
}

/// Calls `regex::Regex::replace_all` with a string replacement. Claimed:
/// the result is `regex_replace_all` of the compiled pattern, the haystack
/// and the replacement.
#[verifier::external_body]
fn replace_all(pattern: &CompiledPattern, haystack: &str, replacement: &str) -> (r: String)
    ensures
        r@ == regex_replace_all(pattern.source(), haystack@, replacement@),
{
    pattern.regex.replace_all(haystack, replacement).into_owned()
}

/// What a patch document does to the content of each of its targets.
pub enum Edit {
    /// Replace every match of `pattern` by `after`.
    Replace { pattern: CompiledPattern, after: String },
    /// Append a newline and `after`.
    Append { after: String },
}

/// The content that `e` makes of `content`.
pub open spec fn edited(e: Edit, content: Seq<char>) -> Seq<char> {
    match e {
        Edit::Replace { pattern, after } => regex_replace_all(pattern.source(), content, after@),
        Edit::Append { after } => content + "\n"@ + after@,
    }
}

/// The text a patch document puts in: its `after`, or nothing.
pub open spec fn after_text(p: RegexpPatch) -> Seq<char> {
    match p.after {
        Some(a) => a@,
        None => Seq::empty(),
    }
}

impl RegexpPatch {
    /// The edit this document makes: a replacement where it has a `before`
    /// pattern, which must compile; an append otherwise.
    pub fn edit(&self) -> (r: Result<Edit, PatchError>)
        ensures
            self.before is None ==> (r matches Ok(Edit::Append { after }) && after@ == after_text(
                *self,
            )),
            self.before matches Some(b) ==> {
                &&& r is Ok <==> regex_compiles(b@)
                &&& r matches Ok(e) ==> (e matches Edit::Replace { pattern, after } && pattern.source()
                    == b@ && after@ == after_text(*self))
                &&& r is Err ==> r matches Err(PatchError::InvalidRegex(_))
            },
    {
        let after = match &self.after {
            Some(a) => a.clone(),
            None => String::new(),
        };
        match &self.before {
            Some(before) => match compile(before.as_str()) {
                Ok(pattern) => Ok(Edit::Replace { pattern, after }),
                Err(e) => Err(PatchError::InvalidRegex(e.to_string())),
            },
            None => Ok(Edit::Append { after }),
        }
    }
}

impl Edit {
    /// The new content of a target whose content was `content`.
    pub fn apply(&self, content: &str) -> (r: String)
        ensures
            r@ == edited(*self, content@),
    {
        match self {
            Edit::Replace { pattern, after } => replace_all(pattern, content, after.as_str()),
            Edit::Append { after } => concat3(content, "\n", after.as_str()),
        }
    }
}

/// The file of the chart at `chart_local_path` that the target `target`
/// names.
pub fn target_file(chart_local_path: &str, target: &str) -> (r: String)
    ensures
        r@ == join_path(chart_local_path@, target@),
{
    join(chart_local_path, target)
}

} // verus!
