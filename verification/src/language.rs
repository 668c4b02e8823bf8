//! Language tags, held as the text that the tag parser normalises them to.

use vstd::prelude::*;

verus! {

/// The serialization of the language tag that a text stands for, or `None`
/// where the text is not a well-formed tag.
///
/// This names what `language_tags::LanguageTag::parse` returns, taken as text
/// by `into_string`. The parser decides on the text alone, so the same text
/// always gives the same tag. Nothing else is claimed of it here.
pub uninterp spec fn language_tag_of(text: Seq<char>) -> Option<Seq<char>>;

/// Whether a text is the serialization of a language tag: what some text is
/// parsed to.
pub open spec fn is_serialized_tag(text: Seq<char>) -> bool {
    exists|source: Seq<char>| language_tag_of(source) == Some(text)
}

/// Parses a text with `language_tags::LanguageTag::parse` and hands back the
/// tag's serialization (`LanguageTag::into_string`), or `None` on a parse
/// error.
///
/// Not verified: the contract only gives the outcome its name,
/// [`language_tag_of`].
#[verifier::external_body]
fn parse_tag(text: &str) -> (serialization: Option<String>)
    ensures
        serialization.deep_view() == language_tag_of(text@),
{
    match language_tags::LanguageTag::parse(text) {
        Ok(tag) => Some(tag.into_string()),
        Err(_) => None,
    }
}

/// A language, identified by a well-formed language tag.
///
/// Two languages are equal when their tags have the same serialization. A
/// value is only ever made by [`Language::parse`], so it always holds a tag
/// as the parser writes it.
#[derive(Debug, Hash)]
pub struct Language {
    tag: String,
}

impl View for Language {
    type V = Seq<char>;

    closed spec fn view(&self) -> Seq<char> {
        self.tag@
    }
}

impl DeepView for Language {
    type V = Seq<char>;

    open spec fn deep_view(&self) -> Seq<char> {
        self@
    }
}

impl Language {
    #[verifier::type_invariant]
    spec fn holds_a_tag(&self) -> bool {
        is_serialized_tag(self.tag@)
    }

    /// Parses a language tag. Returns `None` where the text is not a
    /// well-formed tag.
    pub fn parse(text: &str) -> (language: Option<Language>)
        ensures
            language.deep_view() == language_tag_of(text@),
    {
        match parse_tag(text) {
            Some(tag) => Some(Language { tag }),
            None => None,
        }
    }

    /// The tag's serialization.
    pub fn as_str(&self) -> (text: &str)
        ensures
            text@ == self@,
            is_serialized_tag(text@),
    {
        proof {
            use_type_invariant(self);
        }
        self.tag.as_str()
    }
}

impl Clone for Language {
    fn clone(&self) -> (copy: Language)
        ensures
            copy@ == self@,
    {
        proof {
            use_type_invariant(self);
        }
        Language { tag: self.tag.clone() }
    }
}

impl PartialEq for Language {
    fn eq(&self, other: &Language) -> (same: bool) {
        self.tag == other.tag
    }
}

impl Eq for Language {

}

impl vstd::std_specs::cmp::PartialEqSpecImpl for Language {
    open spec fn obeys_eq_spec() -> bool {
        true
    }

    open spec fn eq_spec(&self, other: &Language) -> bool {
        self@ == other@
    }
}

} // verus!
