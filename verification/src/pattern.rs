//! Anchored-pattern matching, backed by the `regex` crate.
//!
//! A `Pattern` pairs a pattern string with the regex compiled from exactly that
//! string; the fields are private so every `Pattern` in existence was built by
//! [`Pattern::new`] and the pairing cannot be broken. What the engine returns
//! for a given pattern and haystack is a function of those two texts alone, so
//! the contracts name it with the two uninterpreted functions below and state
//! only what the `regex` documentation plainly gives.
use vstd::prelude::*;

verus! {

/// Declares `regex::Regex` so that it can stand in a field; a value of it is
/// opaque here, and everything known about it is said by the items below.
#[verifier::external_type_specification]
#[verifier::external_body]
pub struct ExRegex(regex::Regex);

/// Whether `regex::Regex::new` accepts `pattern`: it compiles and is within
/// the default size limit. A function of the pattern text alone.
pub uninterp spec fn regex_compiles(pattern: Seq<char>) -> bool;

/// What `regex::Regex::find` returns for the regex compiled from `pattern` on
/// the haystack `text`: the text of the first match, or `None` when the
/// pattern matches nowhere in `text`. A function of the two texts alone.
pub uninterp spec fn regex_find(pattern: Seq<char>, text: Seq<char>) -> Option<Seq<char>>;

/// A compiled anchored pattern together with the text it was compiled from.
pub struct Pattern {
    text: String,
    regex: regex::Regex,
}

impl View for Pattern {
    type V = Seq<char>;

    /// A pattern is abstracted as its pattern text.
    closed spec fn view(&self) -> Seq<char> {
        self.text@
    }
}

/// Relies on regex::Regex::new: it returns `Ok` exactly when the pattern is
/// valid and within the size limit, and the compiled regex then stands for
/// that pattern text.
#[verifier::external_body]
fn compile(pattern: &str) -> (r: Option<Pattern>)
    ensures
        r is Some <==> regex_compiles(pattern@),
        r matches Some(p) ==> p@ == pattern@,
{
    match regex::Regex::new(pattern) {
        Ok(regex) => Some(Pattern { text: pattern.to_string(), regex }),
        Err(_) => None,
    }
}

/// Relies on regex::Regex::find: the first match is determined by the pattern
/// and the haystack alone, and its text is a substring of the haystack, so its
/// length is at most the haystack's. The character offset `index` is turned
/// into the corresponding byte offset before slicing.
#[verifier::external_body]
fn find_from(p: &Pattern, text: &str, index: usize) -> (r: Option<String>)
    requires
        index <= text@.len(),
    ensures
        r matches Some(m) ==> regex_find(p@, text@.skip(index as int)) == Some(m@)
            && m@.len() <= text@.len() - index,
        r is None ==> regex_find(p@, text@.skip(index as int)) is None,
{
    let byte: usize = text.char_indices().nth(index).map(|(b, _)| b).unwrap_or(text.len());
    p.regex.find(&text[byte..]).map(|m| m.as_str().to_string())
}

impl Pattern {
    /// Compile `pattern`; `None` exactly when the regex engine rejects it.
    pub fn new(pattern: &str) -> (r: Option<Pattern>)
        ensures
            r is Some <==> regex_compiles(pattern@),
            r matches Some(p) ==> p@ == pattern@,
    {
        compile(pattern)
    }

    /// The first match of this pattern in `text` from character offset
    /// `index` on, as [`regex_find`] names it.
    pub(crate) fn find_in(&self, text: &str, index: usize) -> (r: Option<String>)
        requires
            index <= text@.len(),
        ensures
            r matches Some(m) ==> regex_find(self@, text@.skip(index as int)) == Some(m@)
                && m@.len() <= text@.len() - index,
            r is None ==> regex_find(self@, text@.skip(index as int)) is None,
    {
        find_from(self, text, index)
    }
}

} // verus!
