//! The resolved index and how it is built.

use vstd::prelude::*;

use crate::fields::TranslatableField;
use crate::key::{TranslationLookup, TranslationLookupView};
use crate::language::Language;
use crate::model::{
    coverage_languages, coverage_pair, entries_map, first_occurrences, index_of,
    keys_distinct, lemma_entries_map_keys, lemma_entries_map_len, lemma_entries_map_push,
    lemma_entries_map_update, lemma_first_occurrences_push, lemma_index_is_consistent,
    lemma_last_entry_wins, pair_language, resolved_entries, translation_index, TranslationIndex,
};
use crate::row::{resolve_row, RawTranslation};

verus! {

/// The translations of an index, each found by its [`TranslationLookup`].
///
/// A lookup is held at most once: inserting under a lookup that the map
/// holds replaces the text found there.
#[derive(Debug)]
pub struct TranslationMap {
    entries: Vec<(TranslationLookup, String)>,
}

impl View for TranslationMap {
    type V = Map<TranslationLookupView, Seq<char>>;

    closed spec fn view(&self) -> Map<TranslationLookupView, Seq<char>> {
        entries_map(self.entries.deep_view())
    }
}

impl TranslationMap {
    #[verifier::type_invariant]
    spec fn holds_each_lookup_once(&self) -> bool {
        keys_distinct(self.entries.deep_view())
    }

    /// An empty map.
    pub fn new() -> (map: TranslationMap)
        ensures
            map@ == Map::<TranslationLookupView, Seq<char>>::empty(),
    {
        let entries: Vec<(TranslationLookup, String)> = Vec::new();
        assert(entries.deep_view() =~= Seq::empty());
        TranslationMap { entries }
    }

    /// Where among the entries a lookup is held, if it is.
    fn position(&self, lookup: &TranslationLookup) -> (found: Option<usize>)
        ensures
            match found {
                Some(i) => i < self.entries.len() && self.entries.deep_view()[i as int].0
                    == lookup@,
                None => forall|i: int|
                    0 <= i < self.entries.len() ==> self.entries.deep_view()[i].0 != lookup@,
            },
    {
        let mut i: usize = 0;
        while i < self.entries.len()
            invariant
                i <= self.entries.len(),
                forall|j: int| 0 <= j < i ==> self.entries.deep_view()[j].0 != lookup@,
            decreases self.entries.len() - i,
        {
            if self.entries[i].0 == *lookup {
                return Some(i);
            }
            i += 1;
        }
        None
    }

    /// The number of translations.
    pub fn len(&self) -> (count: usize)
        ensures
            self@.dom().finite(),
            count == self@.len(),
    {
        proof {
            use_type_invariant(self);
            lemma_entries_map_len(self.entries.deep_view());
        }
        self.entries.len()
    }

    /// Whether the map holds no translation.
    pub fn is_empty(&self) -> (empty: bool)
        ensures
            empty == (self@.len() == 0),
    {
        self.len() == 0
    }

    /// Whether a translation is found by the lookup.
    pub fn contains_key(&self, lookup: &TranslationLookup) -> (found: bool)
        ensures
            found == self@.contains_key(lookup@),
    {
        proof {
            lemma_entries_map_keys(self.entries.deep_view());
        }
        self.position(lookup).is_some()
    }

    /// The translation found by the lookup, if there is one.
    pub fn get(&self, lookup: &TranslationLookup) -> (text: Option<&String>)
        ensures
            text.deep_view() == self@.get(lookup@),
    {
        proof {
            use_type_invariant(self);
            lemma_entries_map_keys(self.entries.deep_view());
        }
        match self.position(lookup) {
            Some(i) => {
                proof {
                    lemma_last_entry_wins(self.entries.deep_view(), i as int);
                }
                Some(&self.entries[i].1)
            },
            None => None,
        }
    }

    /// The translations with their lookups, each lookup once.
    pub fn entries(&self) -> (entries: &Vec<(TranslationLookup, String)>)
        ensures
            keys_distinct(entries.deep_view()),
            entries_map(entries.deep_view()) == self@,
            entries.len() == self@.len(),
    {
        proof {
            use_type_invariant(self);
            lemma_entries_map_len(self.entries.deep_view());
        }
        &self.entries
    }

    /// Puts a translation where the lookup finds it, in place of the one
    /// found there before, which is returned.
    pub fn insert(&mut self, lookup: TranslationLookup, text: String) -> (previous: Option<String>)
        ensures
            final(self)@ == old(self)@.insert(lookup@, text@),
            previous.deep_view() == old(self)@.get(lookup@),
    {
        proof {
            use_type_invariant(&*self);
            lemma_entries_map_keys(self.entries.deep_view());
        }
        let found = self.position(&lookup);
        // The entries are taken out while they change, and put back once
        // they hold each lookup once again.
        let mut entries: Vec<(TranslationLookup, String)> = Vec::new();
        assert(entries.deep_view() =~= Seq::empty());
        core::mem::swap(&mut self.entries, &mut entries);
        let ghost before = entries.deep_view();
        let previous = match found {
            Some(i) => {
                let mut held = text;
                proof {
                    lemma_last_entry_wins(before, i as int);
                    lemma_entries_map_update(before, i as int, held@);
                }
                core::mem::swap(&mut entries[i].1, &mut held);
                assert(entries.deep_view() =~= before.update(i as int, (lookup@, text@)));
                Some(held)
            },
            None => {
                proof {
                    lemma_entries_map_push(before, (lookup@, text@));
                }
                entries.push((lookup, text));
                assert(entries.deep_view() =~= before.push((lookup@, text@)));
                None
            },
        };
        core::mem::swap(&mut self.entries, &mut entries);
        previous
    }
}

impl Clone for TranslationMap {
    fn clone(&self) -> (copy: TranslationMap)
        ensures
            copy@ == self@,
    {
        proof {
            use_type_invariant(self);
        }
        let mut entries: Vec<(TranslationLookup, String)> = Vec::new();
        let mut i: usize = 0;
        assert(entries.deep_view() =~= self.entries.deep_view().take(0));
        while i < self.entries.len()
            invariant
                i <= self.entries.len(),
                entries.deep_view() == self.entries.deep_view().take(i as int),
            decreases self.entries.len() - i,
        {
            let ghost before = entries.deep_view();
            entries.push((self.entries[i].0.clone(), self.entries[i].1.clone()));
            assert(entries.deep_view() =~= before.push(self.entries.deep_view()[i as int]));
            assert(self.entries.deep_view().take(i as int).push(self.entries.deep_view()[i as int])
                =~= self.entries.deep_view().take(i + 1));
            i += 1;
        }
        assert(self.entries.deep_view().take(self.entries.len() as int)
            =~= self.entries.deep_view());
        TranslationMap { entries }
    }
}

impl PartialEq for TranslationMap {
    /// Two maps are equal when the same lookups find the same translations
    /// in both.
    fn eq(&self, other: &TranslationMap) -> (same: bool) {
        proof {
            use_type_invariant(self);
            use_type_invariant(other);
            lemma_entries_map_len(self.entries.deep_view());
            lemma_entries_map_len(other.entries.deep_view());
            lemma_entries_map_keys(self.entries.deep_view());
        }
        if self.entries.len() != other.entries.len() {
            return false;
        }
        let mut i: usize = 0;
        while i < self.entries.len()
            invariant
                i <= self.entries.len(),
                keys_distinct(self.entries.deep_view()),
                forall|j: int|
                    0 <= j < i ==> other@.get(#[trigger] self.entries.deep_view()[j].0) == Some(
                        self.entries.deep_view()[j].1,
                    ),
            decreases self.entries.len() - i,
        {
            proof {
                lemma_last_entry_wins(self.entries.deep_view(), i as int);
            }
            match other.get(&self.entries[i].0) {
                Some(text) => {
                    if *text != self.entries[i].1 {
                        return false;
                    }
                },
                None => {
                    return false;
                },
            }
            i += 1;
        }
        proof {
            assert forall|lookup: TranslationLookupView| self@.contains_key(lookup) implies other@.get(
                lookup,
            ) == Some(self@[lookup]) by {
                let j = choose|j: int|
                    0 <= j < self.entries.len() && #[trigger] self.entries.deep_view()[j].0
                        == lookup;
                lemma_last_entry_wins(self.entries.deep_view(), j);
            }
            assert(self@.dom().subset_of(other@.dom()));
            vstd::set_lib::lemma_subset_equality(self@.dom(), other@.dom());
            assert(self@ =~= other@);
        }
        true
    }
}

impl Eq for TranslationMap {

}

impl vstd::std_specs::cmp::PartialEqSpecImpl for TranslationMap {
    open spec fn obeys_eq_spec() -> bool {
        true
    }

    open spec fn eq_spec(&self, other: &TranslationMap) -> bool {
        self@ == other@
    }
}

/// A resolved translation table: the translations, the (field, language)
/// pairs that have one, and the languages of those pairs.
///
/// Pairs and languages are listed once each, in the order in which the rows
/// first brought them.
#[derive(Debug)]
pub struct TranslationResult {
    pub avaliable_languages: Vec<Language>,
    pub translations: TranslationMap,
    pub possible_translations: Vec<(TranslatableField, Language)>,
}

impl View for TranslationResult {
    type V = TranslationIndex;

    open spec fn view(&self) -> TranslationIndex {
        TranslationIndex {
            translations: self.translations@,
            coverage: self.possible_translations.deep_view(),
            languages: self.avaliable_languages.deep_view(),
        }
    }
}

/// A copy of a list of languages.
fn clone_languages(languages: &Vec<Language>) -> (copy: Vec<Language>)
    ensures
        copy.deep_view() == languages.deep_view(),
{
    let mut copy: Vec<Language> = Vec::new();
    let mut i: usize = 0;
    while i < languages.len()
        invariant
            i <= languages.len(),
            copy.len() == i,
            forall|j: int| 0 <= j < i ==> copy[j]@ == languages[j]@,
        decreases languages.len() - i,
    {
        copy.push(languages[i].clone());
        i += 1;
    }
    assert(copy.deep_view() =~= languages.deep_view());
    copy
}

/// A copy of a list of covered pairs.
fn clone_pairs(pairs: &Vec<(TranslatableField, Language)>) -> (copy: Vec<
    (TranslatableField, Language),
>)
    ensures
        copy.deep_view() == pairs.deep_view(),
{
    let mut copy: Vec<(TranslatableField, Language)> = Vec::new();
    let mut i: usize = 0;
    while i < pairs.len()
        invariant
            i <= pairs.len(),
            copy.len() == i,
            forall|j: int| 0 <= j < i ==> copy[j].0 == pairs[j].0 && copy[j].1@ == pairs[j].1@,
        decreases pairs.len() - i,
    {
        copy.push((pairs[i].0, pairs[i].1.clone()));
        i += 1;
    }
    assert(copy.deep_view() =~= pairs.deep_view());
    copy
}

/// Whether two lists hold the same languages in the same order.
fn same_languages(left: &Vec<Language>, right: &Vec<Language>) -> (same: bool)
    ensures
        same == (left.deep_view() == right.deep_view()),
{
    if left.len() != right.len() {
        assert(left.deep_view().len() != right.deep_view().len());
        return false;
    }
    let mut i: usize = 0;
    while i < left.len()
        invariant
            i <= left.len(),
            left.len() == right.len(),
            forall|j: int| 0 <= j < i ==> left[j]@ == right[j]@,
        decreases left.len() - i,
    {
        if left[i] != right[i] {
            assert(left.deep_view()[i as int] != right.deep_view()[i as int]);
            return false;
        }
        i += 1;
    }
    assert(left.deep_view() =~= right.deep_view());
    true
}

/// Whether two lists hold the same covered pairs in the same order.
fn same_pairs(
    left: &Vec<(TranslatableField, Language)>,
    right: &Vec<(TranslatableField, Language)>,
) -> (same: bool)
    ensures
        same == (left.deep_view() == right.deep_view()),
{
    if left.len() != right.len() {
        assert(left.deep_view().len() != right.deep_view().len());
        return false;
    }
    let mut i: usize = 0;
    while i < left.len()
        invariant
            i <= left.len(),
            left.len() == right.len(),
            forall|j: int| 0 <= j < i ==> left[j].0 == right[j].0 && left[j].1@ == right[j].1@,
        decreases left.len() - i,
    {
        if left[i].0 != right[i].0 || left[i].1 != right[i].1 {
            assert(left.deep_view()[i as int] != right.deep_view()[i as int]);
            return false;
        }
        i += 1;
    }
    assert(left.deep_view() =~= right.deep_view());
    true
}

impl Clone for TranslationResult {
    fn clone(&self) -> (copy: TranslationResult)
        ensures
            copy@ == self@,
    {
        TranslationResult {
            avaliable_languages: clone_languages(&self.avaliable_languages),
            translations: self.translations.clone(),
            possible_translations: clone_pairs(&self.possible_translations),
        }
    }
}

impl PartialEq for TranslationResult {
    /// Two results are equal when they hold the same translations, and the
    /// same covered pairs and languages in the same order.
    fn eq(&self, other: &TranslationResult) -> (same: bool) {
        self.translations == other.translations && same_pairs(
            &self.possible_translations,
            &other.possible_translations,
        ) && same_languages(&self.avaliable_languages, &other.avaliable_languages)
    }
}

impl Eq for TranslationResult {

}

impl vstd::std_specs::cmp::PartialEqSpecImpl for TranslationResult {
    open spec fn obeys_eq_spec() -> bool {
        true
    }

    open spec fn eq_spec(&self, other: &TranslationResult) -> bool {
        self@ == other@
    }
}

/// Whether the pairs hold the pair of a field and a language.
fn holds_pair(
    pairs: &Vec<(TranslatableField, Language)>,
    field: TranslatableField,
    language: &Language,
) -> (held: bool)
    ensures
        held == pairs.deep_view().contains((field, language@)),
{
    let mut i: usize = 0;
    while i < pairs.len()
        invariant
            i <= pairs.len(),
            forall|j: int| 0 <= j < i ==> pairs.deep_view()[j] != (field, language@),
        decreases pairs.len() - i,
    {
        if pairs[i].0 == field && pairs[i].1 == *language {
            assert(pairs.deep_view()[i as int] == (field, language@));
            return true;
        }
        i += 1;
    }
    false
}

/// Whether the languages hold a language.
fn holds_language(languages: &Vec<Language>, language: &Language) -> (held: bool)
    ensures
        held == languages.deep_view().contains(language@),
{
    let mut i: usize = 0;
    while i < languages.len()
        invariant
            i <= languages.len(),
            forall|j: int| 0 <= j < i ==> languages.deep_view()[j] != language@,
        decreases languages.len() - i,
    {
        if languages[i] == *language {
            assert(languages.deep_view()[i as int] == language@);
            return true;
        }
        i += 1;
    }
    false
}

/// The languages of the pairs, each once, in the order of their first
/// occurrence.
pub fn distinct_languages(pairs: &Vec<(TranslatableField, Language)>) -> (languages: Vec<Language>)
    ensures
        languages.deep_view() == coverage_languages(pairs.deep_view()),
{
    let mut languages: Vec<Language> = Vec::new();
    let ghost all = pairs.deep_view().map_values(
        |pair: (TranslatableField, Seq<char>)| pair_language(pair),
    );
    assert(languages.deep_view() =~= Seq::empty());
    assert(all.take(0) =~= Seq::empty());
    let mut i: usize = 0;
    while i < pairs.len()
        invariant
            i <= pairs.len(),
            all == pairs.deep_view().map_values(
                |pair: (TranslatableField, Seq<char>)| pair_language(pair),
            ),
            languages.deep_view() == first_occurrences(all.take(i as int)),
        decreases pairs.len() - i,
    {
        proof {
            lemma_first_occurrences_push(all.take(i as int), all[i as int]);
            assert(all.take(i as int).push(all[i as int]) =~= all.take(i + 1));
        }
        if !holds_language(&languages, &pairs[i].1) {
            let ghost before = languages.deep_view();
            languages.push(pairs[i].1.clone());
            assert(languages.deep_view() =~= before.push(all[i as int]));
        }
        i += 1;
    }
    assert(all.take(pairs.len() as int) =~= all);
    languages
}

/// Builds the index of a sequence of entries: each entry is put where its
/// lookup finds it, in place of an earlier entry found there, and its field
/// and language are recorded as covered.
pub fn index_entries(entries: Vec<(TranslationLookup, String)>) -> (result: TranslationResult)
    ensures
        result@ == index_of(entries.deep_view()),
        result@.consistent(),
{
    proof {
        lemma_index_is_consistent(entries.deep_view());
    }
    let mut translations = TranslationMap::new();
    let mut possible_translations: Vec<(TranslatableField, Language)> = Vec::new();
    let ghost all = entries.deep_view();
    let ghost pairs = all.map_values(
        |entry: (TranslationLookupView, Seq<char>)| coverage_pair(entry),
    );
    assert(possible_translations.deep_view() =~= Seq::empty());
    assert(all.take(0) =~= Seq::empty());
    assert(pairs.take(0) =~= Seq::empty());
    for entry in it: entries
        invariant
            all.len() == it.seq().len(),
            forall|i: int| 0 <= i < all.len() ==> all[i] == it.seq()[i].deep_view(),
            pairs == all.map_values(
                |entry: (TranslationLookupView, Seq<char>)| coverage_pair(entry),
            ),
            translations@ == entries_map(all.take(it.index() as int)),
            possible_translations.deep_view() == first_occurrences(pairs.take(it.index() as int)),
    {
        let ghost n = it.index() as int;
        let (lookup, text) = entry;
        proof {
            assert(all[n] == (lookup@, text@));
            assert(all.take(n).push(all[n]) =~= all.take(n + 1));
            assert(pairs.take(n).push(pairs[n]) =~= pairs.take(n + 1));
            lemma_entries_map_push(all.take(n), all[n]);
            lemma_first_occurrences_push(pairs.take(n), pairs[n]);
        }
        if !holds_pair(&possible_translations, lookup.field, &lookup.language) {
            let ghost before = possible_translations.deep_view();
            possible_translations.push((lookup.field, lookup.language.clone()));
            assert(possible_translations.deep_view() =~= before.push(pairs[n]));
        }
        translations.insert(lookup, text);
    }
    assert(all.take(all.len() as int) =~= all);
    assert(pairs.take(all.len() as int) =~= pairs);
    let avaliable_languages = distinct_languages(&possible_translations);
    TranslationResult { avaliable_languages, translations, possible_translations }
}

/// Resolves a translation table: parses each row's language, looks up its
/// field and derives its key, and builds the index of the rows that have all
/// three.
///
/// A row whose language is not a well-formed tag, whose table and column name
/// no translatable field, or which refers to nothing is dropped, and the rows
/// after it are read as if it had not been there. Of two rows found by the
/// same language, field and key, the later one gives the translation.
pub fn translate_raw_translations(raw_translations: Vec<RawTranslation>) -> (result:
    TranslationResult)
    ensures
        result@ == translation_index(raw_translations.deep_view()),
        result@.consistent(),
{
    let mut entries: Vec<(TranslationLookup, String)> = Vec::new();
    let ghost rows = raw_translations.deep_view();
    assert(entries.deep_view() =~= Seq::empty());
    assert(rows.take(0) =~= Seq::empty());
    for row in it: raw_translations
        invariant
            rows.len() == it.seq().len(),
            forall|i: int| 0 <= i < rows.len() ==> rows[i] == it.seq()[i]@,
            entries.deep_view() == resolved_entries(rows.take(it.index() as int)),
    {
        let ghost n = it.index() as int;
        proof {
            assert(rows.take(n + 1).drop_last() =~= rows.take(n));
            assert(rows.take(n + 1).last() == row@);
        }
        let language = Language::parse(row.language.as_str());
        match resolve_row(language, row) {
            Some(entry) => {
                let ghost before = entries.deep_view();
                let ghost added = entry.deep_view();
                entries.push(entry);
                assert(entries.deep_view() =~= before.push(added));
            },
            None => {},
        }
    }
    assert(rows.take(rows.len() as int) =~= rows);
    index_entries(entries)
}

} // verus!
