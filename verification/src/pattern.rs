//! Compiled regular expressions from the `regex` crate, each kept together
//! with the pattern text it was compiled from.
//!
//! What a pattern matches is the `regex` crate's business: the contracts
//! name it (`regex_finds`) rather than restate it.
use vstd::prelude::*;
use crate::text::owned;

verus! {

/// The `regex` crate's compiled regular expression.
#[verifier::external_type_specification]
#[verifier::external_body]
pub struct ExRegex(regex::Regex);

/// The `regex` crate's compilation error.
#[verifier::external_type_specification]
#[verifier::external_body]
pub struct ExRegexError(regex::Error);

/// Whether `regex::Regex::new` accepts `pattern`.
pub uninterp spec fn regex_compiles(pattern: Seq<char>) -> bool;

/// Whether the regular expression `pattern` matches somewhere in `text`, as
/// `regex::Regex::is_match` decides it.
pub uninterp spec fn regex_finds(pattern: Seq<char>, text: Seq<char>) -> bool;

/// A compiled regular expression and the pattern it was compiled from.
///
/// Values are only made by [`CompiledPattern::compile`], so the two always
/// belong together.
#[derive(Debug)]
pub struct CompiledPattern {
    source: String,
    regex: regex::Regex,
}

impl CompiledPattern {
    /// The pattern text.
    pub closed spec fn source_view(&self) -> Seq<char> {
        self.source@
    }

    /// `regex::Regex::new`: compiles `pattern`, keeping its text. It fails
    /// exactly on the patterns the crate refuses.
    #[verifier::external_body]
    pub(crate) fn compile(pattern: &str) -> (r: Result<CompiledPattern, regex::Error>)
        ensures
            r is Ok <==> regex_compiles(pattern@),
            r matches Ok(c) ==> c.source_view() == pattern@,
    {
        let regex = regex::Regex::new(pattern)?;
        Ok(CompiledPattern { source: pattern.to_string(), regex })
    }

    /// `regex::Regex::is_match`: whether the pattern matches somewhere in
    /// `text`.
    #[verifier::external_body]
    pub(crate) fn is_match(&self, text: &str) -> (m: bool)
        ensures
            m == regex_finds(self.source_view(), text@),
    {
        self.regex.is_match(text)
    }

    /// The pattern text (`regex::Regex::as_str`).
    pub fn as_str(&self) -> (s: &str)
        ensures
            s@ == self.source_view(),
    {
        self.source.as_str()
    }
}

/// `regex::Error`'s display text. It depends on the error's details, which
/// are not modelled; nothing is stated of it.
#[verifier::external_body]
pub(crate) fn regex_error_text(e: &regex::Error) -> (s: String) {
    e.to_string()
}

} // verus!
