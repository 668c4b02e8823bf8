//! The index as mathematics: what a sequence of entries, and a sequence of
//! rows, builds.

use vstd::prelude::*;

use crate::fields::TranslatableField;
use crate::key::TranslationLookupView;
use crate::row::{row_entry, RawTranslationView};

verus! {

/// The map that a sequence of entries builds when they are inserted in order:
/// of two entries with one key, the later one stays.
pub open spec fn entries_map<K, V>(entries: Seq<(K, V)>) -> Map<K, V>
    decreases entries.len(),
{
    if entries.len() == 0 {
        Map::empty()
    } else {
        entries_map(entries.drop_last()).insert(entries.last().0, entries.last().1)
    }
}

/// No two entries of the sequence have the same key.
pub open spec fn keys_distinct<K, V>(entries: Seq<(K, V)>) -> bool {
    forall|i: int, j: int| 0 <= i < j < entries.len() ==> entries[i].0 != entries[j].0
}

/// The sequence with the item added at its end, unless it holds the item
/// already.
pub open spec fn with_item<T>(items: Seq<T>, item: T) -> Seq<T> {
    if items.contains(item) {
        items
    } else {
        items.push(item)
    }
}

/// The distinct items of a sequence, each at the place of its first
/// occurrence.
pub open spec fn first_occurrences<T>(items: Seq<T>) -> Seq<T>
    decreases items.len(),
{
    if items.len() == 0 {
        Seq::empty()
    } else {
        with_item(first_occurrences(items.drop_last()), items.last())
    }
}

/// The field and the language that an entry is found by.
pub open spec fn coverage_pair(entry: (TranslationLookupView, Seq<char>)) -> (
    TranslatableField,
    Seq<char>,
) {
    (entry.0.field, entry.0.language)
}

/// The language of a coverage pair.
pub open spec fn pair_language(pair: (TranslatableField, Seq<char>)) -> Seq<char> {
    pair.1
}

/// A resolved index: the translations by where they are found, the
/// (field, language) pairs that have a translation, and the languages of
/// those pairs. Pairs and languages stand in the order of their first
/// occurrence.
pub ghost struct TranslationIndex {
    pub translations: Map<TranslationLookupView, Seq<char>>,
    pub coverage: Seq<(TranslatableField, Seq<char>)>,
    pub languages: Seq<Seq<char>>,
}

impl TranslationIndex {
    /// The three parts agree: a pair is covered exactly when some translation
    /// is found under its field and language, a language is listed exactly
    /// when some pair has it, and nothing is listed twice.
    pub open spec fn consistent(self) -> bool {
        &&& self.translations.dom().finite()
        &&& self.coverage.no_duplicates()
        &&& self.languages.no_duplicates()
        &&& forall|field: TranslatableField, language: Seq<char>|
            self.coverage.contains((field, language)) <==> exists|lookup: TranslationLookupView|
                #[trigger] self.translations.contains_key(lookup) && lookup.field == field
                    && lookup.language == language
        &&& forall|language: Seq<char>|
            self.languages.contains(language) <==> exists|field: TranslatableField|
                self.coverage.contains((field, language))
    }
}

/// The languages of a sequence of coverage pairs.
pub open spec fn coverage_languages(coverage: Seq<(TranslatableField, Seq<char>)>) -> Seq<
    Seq<char>,
> {
    first_occurrences(coverage.map_values(|pair: (TranslatableField, Seq<char>)| pair_language(pair)))
}

/// The coverage pairs of a sequence of entries.
pub open spec fn entries_coverage(entries: Seq<(TranslationLookupView, Seq<char>)>) -> Seq<
    (TranslatableField, Seq<char>),
> {
    first_occurrences(
        entries.map_values(|entry: (TranslationLookupView, Seq<char>)| coverage_pair(entry)),
    )
}

/// The index that a sequence of entries builds.
pub open spec fn index_of(entries: Seq<(TranslationLookupView, Seq<char>)>) -> TranslationIndex {
    TranslationIndex {
        translations: entries_map(entries),
        coverage: entries_coverage(entries),
        languages: coverage_languages(entries_coverage(entries)),
    }
}

/// The entries that a sequence of rows gives, in the order of the rows. Rows
/// that give no entry leave no trace.
pub open spec fn resolved_entries(rows: Seq<RawTranslationView>) -> Seq<
    (TranslationLookupView, Seq<char>),
>
    decreases rows.len(),
{
    if rows.len() == 0 {
        Seq::empty()
    } else {
        match row_entry(rows.last()) {
            Some(entry) => resolved_entries(rows.drop_last()).push(entry),
            None => resolved_entries(rows.drop_last()),
        }
    }
}

/// The index that a sequence of rows builds.
pub open spec fn translation_index(rows: Seq<RawTranslationView>) -> TranslationIndex {
    index_of(resolved_entries(rows))
}

/// Adding an entry at the end inserts it into the map.
pub proof fn lemma_entries_map_push<K, V>(entries: Seq<(K, V)>, entry: (K, V))
    ensures
        entries_map(entries.push(entry)) == entries_map(entries).insert(entry.0, entry.1),
{
    assert(entries.push(entry).drop_last() =~= entries);
}

/// The keys of the map are the keys of the entries, and there are finitely
/// many.
pub proof fn lemma_entries_map_keys<K, V>(entries: Seq<(K, V)>)
    ensures
        entries_map(entries).dom().finite(),
        forall|key: K|
            entries_map(entries).contains_key(key) <==> exists|i: int|
                0 <= i < entries.len() && #[trigger] entries[i].0 == key,
    decreases entries.len(),
{
    if entries.len() > 0 {
        let before = entries.drop_last();
        lemma_entries_map_keys(before);
        assert forall|key: K| entries_map(entries).contains_key(key) implies exists|i: int|
            0 <= i < entries.len() && #[trigger] entries[i].0 == key by {
            if key == entries.last().0 {
                assert(entries[entries.len() - 1].0 == key);
            } else {
                let i = choose|i: int| 0 <= i < before.len() && #[trigger] before[i].0 == key;
                assert(entries[i].0 == key);
            }
        }
        assert forall|key: K|
            (exists|i: int|
                0 <= i < entries.len() && #[trigger] entries[i].0 == key) implies entries_map(
            entries,
        ).contains_key(key) by {
            let i = choose|i: int| 0 <= i < entries.len() && #[trigger] entries[i].0 == key;
            if i < entries.len() - 1 {
                assert(before[i].0 == key);
            }
        }
    }
}

/// An entry that no later entry shares its key with is the one found in the
/// map.
pub proof fn lemma_last_entry_wins<K, V>(entries: Seq<(K, V)>, i: int)
    requires
        0 <= i < entries.len(),
        forall|j: int| i < j < entries.len() ==> entries[j].0 != entries[i].0,
    ensures
        entries_map(entries).contains_key(entries[i].0),
        entries_map(entries)[entries[i].0] == entries[i].1,
    decreases entries.len(),
{
    if i < entries.len() - 1 {
        let before = entries.drop_last();
        assert(before[i] == entries[i]);
        assert forall|j: int| i < j < before.len() implies before[j].0 != before[i].0 by {
            assert(before[j] == entries[j]);
        }
        lemma_last_entry_wins(before, i);
        assert(entries[entries.len() - 1].0 != entries[i].0);
    }
}

/// With distinct keys, the map has as many entries as the sequence.
pub proof fn lemma_entries_map_len<K, V>(entries: Seq<(K, V)>)
    requires
        keys_distinct(entries),
    ensures
        entries_map(entries).dom().finite(),
        entries_map(entries).len() == entries.len(),
    decreases entries.len(),
{
    lemma_entries_map_keys(entries);
    if entries.len() > 0 {
        let before = entries.drop_last();
        assert(keys_distinct(before)) by {
            assert forall|i: int, j: int| 0 <= i < j < before.len() implies before[i].0
                != before[j].0 by {
                assert(before[i] == entries[i]);
                assert(before[j] == entries[j]);
            }
        }
        lemma_entries_map_len(before);
        lemma_entries_map_keys(before);
        if entries_map(before).contains_key(entries.last().0) {
            let i = choose|i: int|
                0 <= i < before.len() && #[trigger] before[i].0 == entries.last().0;
            assert(entries[i].0 == entries[entries.len() - 1].0);
        }
    }
}

/// With distinct keys, replacing the text of one entry changes the map at
/// that entry's key and nowhere else.
pub proof fn lemma_entries_map_update<K, V>(entries: Seq<(K, V)>, i: int, value: V)
    requires
        keys_distinct(entries),
        0 <= i < entries.len(),
    ensures
        keys_distinct(entries.update(i, (entries[i].0, value))),
        entries_map(entries.update(i, (entries[i].0, value))) == entries_map(entries).insert(
            entries[i].0,
            value,
        ),
{
    let key = entries[i].0;
    let updated = entries.update(i, (key, value));
    lemma_entries_map_keys(entries);
    lemma_entries_map_keys(updated);
    assert(keys_distinct(updated)) by {
        assert forall|a: int, b: int| 0 <= a < b < updated.len() implies updated[a].0
            != updated[b].0 by {
            assert(updated[a].0 == entries[a].0);
            assert(updated[b].0 == entries[b].0);
        }
    }
    let left = entries_map(updated);
    let right = entries_map(entries).insert(key, value);
    assert forall|k: K| left.contains_key(k) <==> right.contains_key(k) by {
        if left.contains_key(k) {
            let j = choose|j: int| 0 <= j < updated.len() && #[trigger] updated[j].0 == k;
            assert(entries[j].0 == k);
        }
        if right.contains_key(k) && k != key {
            let j = choose|j: int| 0 <= j < entries.len() && #[trigger] entries[j].0 == k;
            assert(updated[j].0 == k);
        }
        if k == key {
            assert(updated[i].0 == k);
        }
    }
    assert forall|k: K| left.contains_key(k) implies left[k] == right[k] by {
        let j = choose|j: int| 0 <= j < updated.len() && #[trigger] updated[j].0 == k;
        lemma_last_entry_wins(updated, j);
        if j != i {
            assert(updated[j] == entries[j]);
            lemma_last_entry_wins(entries, j);
        }
    }
    assert(left =~= right);
}

/// Adding an item at the end of a sequence adds it to the distinct items,
/// unless it is among them already.
pub proof fn lemma_first_occurrences_push<T>(items: Seq<T>, item: T)
    ensures
        first_occurrences(items.push(item)) == with_item(first_occurrences(items), item),
{
    assert(items.push(item).drop_last() =~= items);
}

/// The distinct items of a sequence are its items, each once.
pub proof fn lemma_first_occurrences<T>(items: Seq<T>)
    ensures
        first_occurrences(items).no_duplicates(),
        forall|item: T| first_occurrences(items).contains(item) <==> items.contains(item),
    decreases items.len(),
{
    if items.len() > 0 {
        let before = items.drop_last();
        let last = items.last();
        lemma_first_occurrences(before);
        let kept = first_occurrences(before);
        assert forall|item: T| first_occurrences(items).contains(item) implies items.contains(
            item,
        ) by {
            if kept.contains(item) {
                assert(before.contains(item));
                let i = before.index_of(item);
                assert(items[i] == item);
            } else {
                assert(first_occurrences(items) == kept.push(last));
                let i = first_occurrences(items).index_of(item);
                assert(i == kept.len());
                assert(items[items.len() - 1] == item);
            }
        }
        assert forall|item: T| items.contains(item) implies first_occurrences(items).contains(
            item,
        ) by {
            let i = items.index_of(item);
            if i < items.len() - 1 {
                assert(before[i] == item);
                assert(before.contains(item));
                assert(kept.contains(item));
                let k = kept.index_of(item);
                assert(first_occurrences(items)[k] == item);
            } else if !kept.contains(last) {
                assert(kept.push(last)[kept.len() as int] == last);
            }
        }
    }
}

/// The index that a sequence of entries builds is consistent.
pub proof fn lemma_index_is_consistent(entries: Seq<(TranslationLookupView, Seq<char>)>)
    ensures
        index_of(entries).consistent(),
{
    let index = index_of(entries);
    let pairs = entries.map_values(|entry: (TranslationLookupView, Seq<char>)| coverage_pair(entry));
    let languages = index.coverage.map_values(
        |pair: (TranslatableField, Seq<char>)| pair_language(pair),
    );
    lemma_entries_map_keys(entries);
    lemma_first_occurrences(pairs);
    lemma_first_occurrences(languages);
    assert forall|field: TranslatableField, language: Seq<char>|
        index.coverage.contains((field, language)) <==> exists|lookup: TranslationLookupView|
            #[trigger] index.translations.contains_key(lookup) && lookup.field == field
                && lookup.language == language by {
        if index.coverage.contains((field, language)) {
            assert(pairs.contains((field, language)));
            let i = pairs.index_of((field, language));
            assert(index.translations.contains_key(entries[i].0));
        }
        if exists|lookup: TranslationLookupView|
            #[trigger] index.translations.contains_key(lookup) && lookup.field == field
                && lookup.language == language {
            let lookup = choose|lookup: TranslationLookupView|
                #[trigger] index.translations.contains_key(lookup) && lookup.field == field
                    && lookup.language == language;
            let i = choose|i: int| 0 <= i < entries.len() && #[trigger] entries[i].0 == lookup;
            assert(pairs[i] == (field, language));
            assert(pairs.contains((field, language)));
        }
    }
    assert forall|language: Seq<char>|
        index.languages.contains(language) <==> exists|field: TranslatableField|
            index.coverage.contains((field, language)) by {
        if index.languages.contains(language) {
            assert(languages.contains(language));
            let i = languages.index_of(language);
            assert(index.coverage[i] == (index.coverage[i].0, language));
            assert(index.coverage.contains((index.coverage[i].0, language)));
        }
        if exists|field: TranslatableField| index.coverage.contains((field, language)) {
            let field = choose|field: TranslatableField| index.coverage.contains((field, language));
            let i = index.coverage.index_of((field, language));
            assert(languages[i] == language);
            assert(languages.contains(language));
        }
    }
}

} // verus!
