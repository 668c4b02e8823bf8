//! Raw rows of the translation table, and what one row contributes to the
//! index.

use vstd::prelude::*;

use crate::fields::{table_and_field_to_enum, translatable_field};
use crate::key::{key_options_to_struct, reference_key, TranslationLookup, TranslationLookupView};
use crate::language::{language_tag_of, Language};

verus! {

/// A row of the translation table as it is read: every column as text, the
/// three referencing columns absent or present.
#[derive(Debug)]
pub struct RawTranslation {
    pub table_name: String,
    pub field_name: String,
    pub language: String,
    pub translation: String,
    pub record_id: Option<String>,
    pub record_sub_id: Option<String>,
    pub field_value: Option<String>,
}

/// What a [`RawTranslation`] stands for.
pub ghost struct RawTranslationView {
    pub table_name: Seq<char>,
    pub field_name: Seq<char>,
    pub language: Seq<char>,
    pub translation: Seq<char>,
    pub record_id: Option<Seq<char>>,
    pub record_sub_id: Option<Seq<char>>,
    pub field_value: Option<Seq<char>>,
}

impl View for RawTranslation {
    type V = RawTranslationView;

    open spec fn view(&self) -> RawTranslationView {
        RawTranslationView {
            table_name: self.table_name@,
            field_name: self.field_name@,
            language: self.language@,
            translation: self.translation@,
            record_id: self.record_id.deep_view(),
            record_sub_id: self.record_sub_id.deep_view(),
            field_value: self.field_value.deep_view(),
        }
    }
}

impl DeepView for RawTranslation {
    type V = RawTranslationView;

    open spec fn deep_view(&self) -> RawTranslationView {
        self@
    }
}

/// A copy of a text that may be absent.
fn clone_optional_text(text: &Option<String>) -> (copy: Option<String>)
    ensures
        copy.deep_view() == text.deep_view(),
{
    match text {
        Some(text) => Some(text.clone()),
        None => None,
    }
}

/// Whether two texts that may be absent are both absent or the same text.
fn same_optional_text(left: &Option<String>, right: &Option<String>) -> (same: bool)
    ensures
        same == (left.deep_view() == right.deep_view()),
{
    match (left, right) {
        (Some(left), Some(right)) => *left == *right,
        (None, None) => true,
        _ => false,
    }
}

impl Clone for RawTranslation {
    fn clone(&self) -> (copy: RawTranslation)
        ensures
            copy@ == self@,
    {
        RawTranslation {
            table_name: self.table_name.clone(),
            field_name: self.field_name.clone(),
            language: self.language.clone(),
            translation: self.translation.clone(),
            record_id: clone_optional_text(&self.record_id),
            record_sub_id: clone_optional_text(&self.record_sub_id),
            field_value: clone_optional_text(&self.field_value),
        }
    }
}

impl PartialEq for RawTranslation {
    fn eq(&self, other: &RawTranslation) -> (same: bool) {
        self.table_name == other.table_name && self.field_name == other.field_name
            && self.language == other.language && self.translation == other.translation
            && same_optional_text(&self.record_id, &other.record_id) && same_optional_text(
            &self.record_sub_id,
            &other.record_sub_id,
        ) && same_optional_text(&self.field_value, &other.field_value)
    }
}

impl vstd::std_specs::cmp::PartialEqSpecImpl for RawTranslation {
    open spec fn obeys_eq_spec() -> bool {
        true
    }

    open spec fn eq_spec(&self, other: &RawTranslation) -> bool {
        self@ == other@
    }
}

impl Default for RawTranslation {
    /// A row with empty texts and no reference.
    fn default() -> (row: RawTranslation)
        ensures
            row@ == (RawTranslationView {
                table_name: Seq::empty(),
                field_name: Seq::empty(),
                language: Seq::empty(),
                translation: Seq::empty(),
                record_id: None,
                record_sub_id: None,
                field_value: None,
            }),
    {
        RawTranslation {
            table_name: String::new(),
            field_name: String::new(),
            language: String::new(),
            translation: String::new(),
            record_id: None,
            record_sub_id: None,
            field_value: None,
        }
    }
}

/// The entry that a row gives, once its language column has been parsed:
/// where it is found in the index, and the text found there.
///
/// A row gives no entry where its language is not a well-formed tag, where
/// its table and column name no translatable field, or where it refers to
/// nothing.
pub open spec fn resolved_entry(language: Option<Seq<char>>, row: RawTranslationView) -> Option<
    (TranslationLookupView, Seq<char>),
> {
    match (
        language,
        translatable_field(row.table_name, row.field_name),
        reference_key(row.record_id, row.record_sub_id, row.field_value),
    ) {
        (Some(language), Some(field), Some(key)) => Some(
            (TranslationLookupView { language, field, key }, row.translation),
        ),
        _ => None,
    }
}

/// The entry that a row gives.
pub open spec fn row_entry(row: RawTranslationView) -> Option<(TranslationLookupView, Seq<char>)> {
    resolved_entry(language_tag_of(row.language), row)
}

/// Whether a row gives an entry that the lookup finds.
pub open spec fn row_is_found_by(row: RawTranslationView, lookup: TranslationLookupView) -> bool {
    row_entry(row) matches Some(entry) && entry.0 == lookup
}

/// Resolves a row whose language column has been parsed: looks up its field,
/// derives its key, and pairs where the row is found with its translation.
///
/// `language` is the outcome of parsing the row's language column. The row
/// is dropped, by returning `None`, where the language is absent, the field
/// is not translatable, or no key can be derived.
pub fn resolve_row(language: Option<Language>, row: RawTranslation) -> (entry: Option<
    (TranslationLookup, String),
>)
    ensures
        entry.deep_view() == resolved_entry(language.deep_view(), row@),
{
    match language {
        Some(language) => {
            match table_and_field_to_enum(row.table_name.as_str(), row.field_name.as_str()) {
                Some(field) => {
                    match key_options_to_struct(row.record_id, row.record_sub_id, row.field_value) {
                        Some(key) => Some((TranslationLookup { language, field, key }, row.translation)),
                        None => None,
                    }
                },
                None => None,
            }
        },
        None => None,
    }
}

} // verus!
