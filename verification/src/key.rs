//! Reference keys: how a translation row says what it translates, and the
//! precedence among the three ways of saying it.

use vstd::prelude::*;

use crate::fields::TranslatableField;
use crate::language::Language;

verus! {

/// An identifier of a record: its id alone, or its id with a sub-id.
#[derive(Debug, Hash)]
pub enum RecordIdTypes {
    RecordSubId((String, String)),
    RecordId(String),
}

/// What a value of [`RecordIdTypes`] stands for.
pub ghost enum RecordIdTypesView {
    RecordSubId(Seq<char>, Seq<char>),
    RecordId(Seq<char>),
}

impl View for RecordIdTypes {
    type V = RecordIdTypesView;

    open spec fn view(&self) -> RecordIdTypesView {
        match self {
            RecordIdTypes::RecordSubId(ids) => RecordIdTypesView::RecordSubId(ids.0@, ids.1@),
            RecordIdTypes::RecordId(id) => RecordIdTypesView::RecordId(id@),
        }
    }
}

impl Clone for RecordIdTypes {
    fn clone(&self) -> (copy: RecordIdTypes)
        ensures
            copy@ == self@,
    {
        match self {
            RecordIdTypes::RecordSubId(ids) => RecordIdTypes::RecordSubId(
                (ids.0.clone(), ids.1.clone()),
            ),
            RecordIdTypes::RecordId(id) => RecordIdTypes::RecordId(id.clone()),
        }
    }
}

impl PartialEq for RecordIdTypes {
    fn eq(&self, other: &RecordIdTypes) -> (same: bool) {
        match (self, other) {
            (RecordIdTypes::RecordSubId(a), RecordIdTypes::RecordSubId(b)) => a.0 == b.0 && a.1
                == b.1,
            (RecordIdTypes::RecordId(a), RecordIdTypes::RecordId(b)) => *a == *b,
            _ => false,
        }
    }
}

impl Eq for RecordIdTypes {

}

impl vstd::std_specs::cmp::PartialEqSpecImpl for RecordIdTypes {
    open spec fn obeys_eq_spec() -> bool {
        true
    }

    open spec fn eq_spec(&self, other: &RecordIdTypes) -> bool {
        self@ == other@
    }
}

/// The key by which a translation refers to what it translates.
#[derive(Debug, Hash)]
pub enum TranslationKey {
    /// The id of one record.
    Record(String),
    /// The id of a record together with a sub-id, such as a trip and a stop
    /// sequence.
    RecordSub((String, String)),
    /// The untranslated value itself.
    Value(String),
}

/// What a [`TranslationKey`] stands for.
pub ghost enum TranslationKeyView {
    Record(Seq<char>),
    RecordSub(Seq<char>, Seq<char>),
    Value(Seq<char>),
}

impl View for TranslationKey {
    type V = TranslationKeyView;

    open spec fn view(&self) -> TranslationKeyView {
        match self {
            TranslationKey::Record(id) => TranslationKeyView::Record(id@),
            TranslationKey::RecordSub(ids) => TranslationKeyView::RecordSub(ids.0@, ids.1@),
            TranslationKey::Value(value) => TranslationKeyView::Value(value@),
        }
    }
}

impl DeepView for TranslationKey {
    type V = TranslationKeyView;

    open spec fn deep_view(&self) -> TranslationKeyView {
        self@
    }
}

impl Clone for TranslationKey {
    fn clone(&self) -> (copy: TranslationKey)
        ensures
            copy@ == self@,
    {
        match self {
            TranslationKey::Record(id) => TranslationKey::Record(id.clone()),
            TranslationKey::RecordSub(ids) => TranslationKey::RecordSub(
                (ids.0.clone(), ids.1.clone()),
            ),
            TranslationKey::Value(value) => TranslationKey::Value(value.clone()),
        }
    }
}

impl PartialEq for TranslationKey {
    fn eq(&self, other: &TranslationKey) -> (same: bool) {
        match (self, other) {
            (TranslationKey::Record(a), TranslationKey::Record(b)) => *a == *b,
            (TranslationKey::RecordSub(a), TranslationKey::RecordSub(b)) => a.0 == b.0 && a.1
                == b.1,
            (TranslationKey::Value(a), TranslationKey::Value(b)) => *a == *b,
            _ => false,
        }
    }
}

impl Eq for TranslationKey {

}

impl vstd::std_specs::cmp::PartialEqSpecImpl for TranslationKey {
    open spec fn obeys_eq_spec() -> bool {
        true
    }

    open spec fn eq_spec(&self, other: &TranslationKey) -> bool {
        self@ == other@
    }
}

/// The key that the three referencing columns of a row give.
///
/// A record id with a sub-id comes first, then a record id alone, then the
/// value. A sub-id without a record id refers to nothing.
pub open spec fn reference_key(
    record_id: Option<Seq<char>>,
    record_sub_id: Option<Seq<char>>,
    field_value: Option<Seq<char>>,
) -> Option<TranslationKeyView> {
    match (record_id, record_sub_id, field_value) {
        (Some(id), Some(sub_id), _) => Some(TranslationKeyView::RecordSub(id, sub_id)),
        (Some(id), None, _) => Some(TranslationKeyView::Record(id)),
        (None, _, Some(value)) => Some(TranslationKeyView::Value(value)),
        (None, _, None) => None,
    }
}

/// Derives the one key of a row from its three referencing columns.
///
/// Returns `None` where the row has neither a record id nor a value.
pub fn key_options_to_struct(
    record_id: Option<String>,
    record_sub_id: Option<String>,
    field_value: Option<String>,
) -> (key: Option<TranslationKey>)
    ensures
        key.deep_view() == reference_key(
            record_id.deep_view(),
            record_sub_id.deep_view(),
            field_value.deep_view(),
        ),
        record_id is Some && record_sub_id is Some ==> key.deep_view() == Some(
            TranslationKeyView::RecordSub(record_id->0@, record_sub_id->0@),
        ),
        key is None <==> record_id is None && field_value is None,
{
    match (record_id, record_sub_id, field_value) {
        (Some(record_id), Some(record_sub_id), _) => Some(
            TranslationKey::RecordSub((record_id, record_sub_id)),
        ),
        (Some(record_id), _, _) => Some(TranslationKey::Record(record_id)),
        (_, _, Some(field_value)) => Some(TranslationKey::Value(field_value)),
        _ => None,
    }
}

/// What an entry of the index is found by: a language, a field, and the key
/// of what is translated.
#[derive(Debug, Hash)]
pub struct TranslationLookup {
    pub language: Language,
    pub field: TranslatableField,
    pub key: TranslationKey,
}

/// What a [`TranslationLookup`] stands for.
pub ghost struct TranslationLookupView {
    pub language: Seq<char>,
    pub field: TranslatableField,
    pub key: TranslationKeyView,
}

impl View for TranslationLookup {
    type V = TranslationLookupView;

    open spec fn view(&self) -> TranslationLookupView {
        TranslationLookupView { language: self.language@, field: self.field, key: self.key@ }
    }
}

impl DeepView for TranslationLookup {
    type V = TranslationLookupView;

    open spec fn deep_view(&self) -> TranslationLookupView {
        self@
    }
}

impl Clone for TranslationLookup {
    fn clone(&self) -> (copy: TranslationLookup)
        ensures
            copy@ == self@,
    {
        TranslationLookup {
            language: self.language.clone(),
            field: self.field,
            key: self.key.clone(),
        }
    }
}

impl PartialEq for TranslationLookup {
    fn eq(&self, other: &TranslationLookup) -> (same: bool) {
        self.language == other.language && self.field == other.field && self.key == other.key
    }
}

impl Eq for TranslationLookup {

}

impl vstd::std_specs::cmp::PartialEqSpecImpl for TranslationLookup {
    open spec fn obeys_eq_spec() -> bool {
        true
    }

    open spec fn eq_spec(&self, other: &TranslationLookup) -> bool {
        self@ == other@
    }
}

} // verus!
