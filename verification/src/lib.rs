//! Resolution of a transit feed's translation table.
//!
//! Rows of the table name a table, a column and a language, carry a translated
//! text, and refer to what they translate by a record id, by a record id with
//! a sub-id, or by the untranslated value itself. This crate turns such rows
//! into an index from (language, field, key) to the translated text, together
//! with the (field, language) pairs and the languages that the index covers.
//!
//! - [`fields`]: the translatable fields and the lookup from table and column
//!   names.
//! - [`key`]: reference keys and the precedence among the referencing columns.
//! - [`language`]: language tags.
//! - [`row`]: raw rows and what one row contributes.
//! - [`index`]: the index and how it is built.
//! - [`model`]: the index as mathematics.
//! - [`laws`]: what holds of every table.

pub mod fields;
pub mod index;
pub mod key;
pub mod language;
pub mod laws;
pub mod model;
pub mod row;
pub mod text;

pub use fields::{
    table_and_field_to_enum, AgencyFields, AreaFields, CalendarFields, FareProductFields,
    FeedInfoFields, RouteFields, StopFields, StopTimeFields, TranslatableField, TripFields,
};
pub use index::{
    distinct_languages, index_entries, translate_raw_translations, TranslationMap,
    TranslationResult,
};
pub use key::{key_options_to_struct, RecordIdTypes, TranslationKey, TranslationLookup};
pub use language::Language;
pub use row::{resolve_row, RawTranslation};
