//! What holds of every translation table: the laws of the index, stated over
//! the model and proved.

use vstd::prelude::*;
use vstd::std_specs::cmp::PartialEqSpec;

use crate::fields::{translatable_field, TranslatableField};
use crate::index::TranslationResult;
use crate::key::{reference_key, TranslationKeyView, TranslationLookupView};
use crate::language::{is_serialized_tag, language_tag_of};
use crate::model::{
    lemma_entries_map_push, lemma_index_is_consistent, resolved_entries, translation_index,
};
use crate::row::{row_entry, row_is_found_by, RawTranslationView};

verus! {

/// A row with a record id and a sub-id is keyed by the two together, whether
/// or not it has a value as well: where such a row gives an entry, the
/// entry's key is the pair of ids.
pub proof fn lemma_record_and_sub_id_come_first(row: RawTranslationView)
    requires
        row.record_id is Some,
        row.record_sub_id is Some,
    ensures
        reference_key(row.record_id, row.record_sub_id, row.field_value) == Some(
            TranslationKeyView::RecordSub(row.record_id->0, row.record_sub_id->0),
        ),
        row_entry(row) matches Some(entry) ==> entry.0.key == TranslationKeyView::RecordSub(
            row.record_id->0,
            row.record_sub_id->0,
        ),
{
}

/// The entries of two tables read one after the other are the entries of the
/// first followed by those of the second.
pub proof fn lemma_resolved_entries_concat(
    first: Seq<RawTranslationView>,
    second: Seq<RawTranslationView>,
)
    ensures
        resolved_entries(first + second) == resolved_entries(first) + resolved_entries(second),
    decreases second.len(),
{
    if second.len() == 0 {
        assert(first + second =~= first);
        assert(resolved_entries(first) + resolved_entries(second) =~= resolved_entries(first));
    } else {
        assert((first + second).drop_last() =~= first + second.drop_last());
        assert((first + second).last() == second.last());
        lemma_resolved_entries_concat(first, second.drop_last());
        match row_entry(second.last()) {
            Some(entry) => {
                assert((resolved_entries(first) + resolved_entries(second.drop_last())).push(entry)
                    =~= resolved_entries(first) + resolved_entries(second.drop_last()).push(
                    entry,
                ));
            },
            None => {},
        }
    }
}

/// A row that gives no entry leaves no trace: the table with the row, at any
/// place in it, builds the index that the table without the row builds.
pub proof fn lemma_dropped_row_leaves_no_trace(
    before: Seq<RawTranslationView>,
    row: RawTranslationView,
    after: Seq<RawTranslationView>,
)
    requires
        row_entry(row) is None,
    ensures
        resolved_entries(before.push(row) + after) == resolved_entries(before + after),
        translation_index(before.push(row) + after) == translation_index(before + after),
{
    assert(before.push(row).drop_last() =~= before);
    lemma_resolved_entries_concat(before.push(row), after);
    lemma_resolved_entries_concat(before, after);
}

/// A row whose table and column name no translatable field contributes
/// nothing, whatever its other columns hold.
pub proof fn lemma_untranslatable_row_contributes_nothing(
    before: Seq<RawTranslationView>,
    row: RawTranslationView,
    after: Seq<RawTranslationView>,
)
    requires
        translatable_field(row.table_name, row.field_name) is None,
    ensures
        row_entry(row) is None,
        translation_index(before.push(row) + after) == translation_index(before + after),
{
    lemma_dropped_row_leaves_no_trace(before, row, after);
}

/// A row whose language is not a well-formed tag contributes nothing: the
/// translations, the covered pairs and the languages are those of the table
/// without it.
pub proof fn lemma_unparseable_language_row_contributes_nothing(
    before: Seq<RawTranslationView>,
    row: RawTranslationView,
    after: Seq<RawTranslationView>,
)
    requires
        language_tag_of(row.language) is None,
    ensures
        row_entry(row) is None,
        translation_index(before.push(row) + after) == translation_index(before + after),
{
    lemma_dropped_row_leaves_no_trace(before, row, after);
}

/// A row with neither a record id nor a value contributes nothing.
pub proof fn lemma_row_without_reference_contributes_nothing(
    before: Seq<RawTranslationView>,
    row: RawTranslationView,
    after: Seq<RawTranslationView>,
)
    requires
        row.record_id is None,
        row.field_value is None,
    ensures
        row_entry(row) is None,
        translation_index(before.push(row) + after) == translation_index(before + after),
{
    lemma_dropped_row_leaves_no_trace(before, row, after);
}

/// Building twice from the same rows gives the same index: two results that
/// were built from one table have equal translations, equal covered pairs and
/// equal languages, in the same order, and `==` finds them equal.
pub proof fn lemma_same_rows_same_index(
    first: TranslationResult,
    second: TranslationResult,
    rows: Seq<RawTranslationView>,
)
    requires
        first@ == translation_index(rows),
        second@ == translation_index(rows),
    ensures
        first@ == second@,
        first.eq_spec(&second),
        first.translations@ == second.translations@,
        first.possible_translations.deep_view() == second.possible_translations.deep_view(),
        first.avaliable_languages.deep_view() == second.avaliable_languages.deep_view(),
{
}

/// The index holds a translation under a lookup exactly when some row gives
/// an entry found by that lookup.
pub proof fn lemma_index_holds_what_rows_give(rows: Seq<RawTranslationView>)
    ensures
        forall|lookup: TranslationLookupView|
            translation_index(rows).translations.contains_key(lookup) <==> exists|i: int|
                0 <= i < rows.len() && #[trigger] row_is_found_by(rows[i], lookup),
    decreases rows.len(),
{
    if rows.len() > 0 {
        let before = rows.drop_last();
        lemma_index_holds_what_rows_give(before);
        match row_entry(rows.last()) {
            Some(entry) => {
                lemma_entries_map_push(resolved_entries(before), entry);
            },
            None => {},
        }
        assert forall|lookup: TranslationLookupView|
            translation_index(rows).translations.contains_key(lookup) implies exists|i: int|
            0 <= i < rows.len() && #[trigger] row_is_found_by(rows[i], lookup) by {
            if translation_index(before).translations.contains_key(lookup) {
                let i = choose|i: int|
                    0 <= i < before.len() && #[trigger] row_is_found_by(before[i], lookup);
                assert(row_is_found_by(rows[i], lookup));
            } else {
                assert(row_is_found_by(rows[rows.len() - 1], lookup));
            }
        }
        assert forall|lookup: TranslationLookupView|
            (exists|i: int|
                0 <= i < rows.len() && #[trigger] row_is_found_by(
                    rows[i],
                    lookup,
                )) implies translation_index(rows).translations.contains_key(lookup) by {
            let i = choose|i: int| 0 <= i < rows.len() && #[trigger] row_is_found_by(rows[i], lookup);
            if i < rows.len() - 1 {
                assert(row_is_found_by(before[i], lookup));
                assert(translation_index(before).translations.contains_key(lookup));
            } else {
                assert(rows[i] == rows.last());
            }
        }
    }
}

/// The last row found by a lookup gives the translation: where a row is
/// found by a lookup and no later row is, the index holds that row's
/// translation under the lookup.
pub proof fn lemma_last_row_wins(
    rows: Seq<RawTranslationView>,
    at: int,
    lookup: TranslationLookupView,
)
    requires
        0 <= at < rows.len(),
        row_is_found_by(rows[at], lookup),
        forall|later: int| at < later < rows.len() ==> !#[trigger] row_is_found_by(rows[later], lookup),
    ensures
        translation_index(rows).translations.contains_key(lookup),
        translation_index(rows).translations[lookup] == rows[at].translation,
    decreases rows.len(),
{
    let before = rows.drop_last();
    match row_entry(rows.last()) {
        Some(entry) => {
            lemma_entries_map_push(resolved_entries(before), entry);
        },
        None => {},
    }
    if at < rows.len() - 1 {
        assert(before[at] == rows[at]);
        assert forall|later: int| at < later < before.len() implies !#[trigger] row_is_found_by(
            before[later],
            lookup,
        ) by {
            assert(before[later] == rows[later]);
        }
        lemma_last_row_wins(before, at, lookup);
        assert(!row_is_found_by(rows[rows.len() - 1], lookup));
    }
}

/// Of two rows found by the same language, field and key, the later one
/// gives the translation, wherever the two stand in the table, as long as no
/// row after them is found by the same lookup.
pub proof fn lemma_later_row_wins(
    rows: Seq<RawTranslationView>,
    earlier: int,
    later: int,
    lookup: TranslationLookupView,
)
    requires
        0 <= earlier < later < rows.len(),
        row_is_found_by(rows[earlier], lookup),
        row_is_found_by(rows[later], lookup),
        forall|after: int|
            later < after < rows.len() ==> !#[trigger] row_is_found_by(rows[after], lookup),
    ensures
        translation_index(rows).translations.contains_key(lookup),
        translation_index(rows).translations[lookup] == rows[later].translation,
{
    lemma_last_row_wins(rows, later, lookup);
}

/// The index of every table is consistent: each covered pair has a
/// translation found by its field and language, each translation's field and
/// language are a covered pair, the languages are those of the covered
/// pairs, and no pair or language is listed twice.
pub proof fn lemma_translation_index_is_consistent(rows: Seq<RawTranslationView>)
    ensures
        translation_index(rows).consistent(),
{
    lemma_index_is_consistent(resolved_entries(rows));
}

/// Every language of an index is the tag of some row's language column, as
/// the parser writes it.
pub proof fn lemma_languages_come_from_rows(rows: Seq<RawTranslationView>, language: Seq<char>)
    requires
        translation_index(rows).languages.contains(language),
    ensures
        exists|i: int|
            0 <= i < rows.len() && #[trigger] language_tag_of(rows[i].language) == Some(language),
        is_serialized_tag(language),
{
    lemma_translation_index_is_consistent(rows);
    lemma_index_holds_what_rows_give(rows);
    let index = translation_index(rows);
    let field = choose|field: TranslatableField| index.coverage.contains((field, language));
    let lookup = choose|lookup: TranslationLookupView|
        #[trigger] index.translations.contains_key(lookup) && lookup.field == field
            && lookup.language == language;
    let i = choose|i: int| 0 <= i < rows.len() && #[trigger] row_is_found_by(rows[i], lookup);
    assert(language_tag_of(rows[i].language) == Some(language));
}

} // verus!
