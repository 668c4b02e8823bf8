use gtfs_translations::{
    resolve_row, Language, RawTranslation, RouteFields, StopFields, TranslatableField,
    TranslationKey, TranslationLookup,
};

fn row(
    table_name: &str,
    field_name: &str,
    language: &str,
    translation: &str,
    record_id: Option<&str>,
    record_sub_id: Option<&str>,
    field_value: Option<&str>,
) -> RawTranslation {
    RawTranslation {
        table_name: table_name.to_string(),
        field_name: field_name.to_string(),
        language: language.to_string(),
        translation: translation.to_string(),
        record_id: record_id.map(|text| text.to_string()),
        record_sub_id: record_sub_id.map(|text| text.to_string()),
        field_value: field_value.map(|text| text.to_string()),
    }
}

#[test]
fn a_row_resolves_to_its_lookup_and_translation() {
    let raw = row("stops", "stop_name", "en", "Main St", Some("S1"), None, None);
    let entry = resolve_row(Language::parse("en"), raw);
    assert_eq!(
        entry,
        Some((
            TranslationLookup {
                language: Language::parse("en").unwrap(),
                field: TranslatableField::Stops(StopFields::Name),
                key: TranslationKey::Record("S1".to_string()),
            },
            "Main St".to_string()
        ))
    );
}

#[test]
fn the_language_of_the_entry_is_the_one_handed_in() {
    let raw = row("stops", "stop_name", "en", "Rue Principale", Some("S1"), None, None);
    let (lookup, _) = resolve_row(Language::parse("fr"), raw).unwrap();
    assert_eq!(lookup.language.as_str(), "fr");
}

#[test]
fn a_row_without_a_language_is_dropped() {
    let raw = row("stops", "stop_name", "??", "Main St", Some("S1"), None, None);
    assert_eq!(resolve_row(None, raw), None);
}

#[test]
fn a_row_of_an_untranslatable_field_is_dropped() {
    let raw = row("unknown_table", "stop_name", "en", "Main St", Some("S1"), None, None);
    assert_eq!(resolve_row(Language::parse("en"), raw), None);
    let raw = row("stops", "stop_id", "en", "Main St", Some("S1"), Some("2"), Some("v"));
    assert_eq!(resolve_row(Language::parse("en"), raw), None);
}

#[test]
fn a_row_without_a_reference_is_dropped() {
    let raw = row("stops", "stop_name", "en", "Main St", None, None, None);
    assert_eq!(resolve_row(Language::parse("en"), raw), None);
    let raw = row("stops", "stop_name", "en", "Main St", None, Some("2"), None);
    assert_eq!(resolve_row(Language::parse("en"), raw), None);
}

#[test]
fn a_row_with_both_ids_and_a_value_is_keyed_by_the_ids() {
    let raw = row(
        "routes",
        "route_url",
        "en",
        "http://x",
        Some("R1"),
        Some("1"),
        Some("http://y"),
    );
    let (lookup, text) = resolve_row(Language::parse("en"), raw).unwrap();
    assert_eq!(lookup.field, TranslatableField::Routes(RouteFields::Url));
    assert_eq!(
        lookup.key,
        TranslationKey::RecordSub(("R1".to_string(), "1".to_string()))
    );
    assert_ne!(lookup.key, TranslationKey::Value("http://y".to_string()));
    assert_ne!(lookup.key, TranslationKey::Record("R1".to_string()));
    assert_eq!(text, "http://x");
}

#[test]
fn an_empty_translation_is_kept() {
    let raw = row("stops", "stop_desc", "en", "", None, None, Some("A stop"));
    let (lookup, text) = resolve_row(Language::parse("en"), raw).unwrap();
    assert_eq!(lookup.key, TranslationKey::Value("A stop".to_string()));
    assert_eq!(text, "");
}

#[test]
fn the_default_row_is_empty() {
    let raw = RawTranslation::default();
    assert_eq!(raw, row("", "", "", "", None, None, None));
    assert_eq!(resolve_row(Language::parse("en"), raw), None);
}

#[test]
fn rows_compare_by_every_column() {
    let raw = row("stops", "stop_name", "en", "Main St", Some("S1"), None, Some("v"));
    assert_eq!(raw.clone(), raw);
    assert_ne!(raw, row("stops", "stop_name", "en", "Main St", Some("S1"), None, None));
    assert_ne!(raw, row("stops", "stop_name", "en", "Main St", Some("S1"), Some(""), Some("v")));
    assert_ne!(raw, row("stops", "stop_name", "en", "Main", Some("S1"), None, Some("v")));
    assert_ne!(raw, row("stops", "stop_name", "fr", "Main St", Some("S1"), None, Some("v")));
    assert_ne!(raw, row("stops", "stop_code", "en", "Main St", Some("S1"), None, Some("v")));
    assert_ne!(raw, row("trips", "stop_name", "en", "Main St", Some("S1"), None, Some("v")));
    assert_ne!(raw, row("stops", "stop_name", "en", "Main St", Some("S2"), None, Some("v")));
}

#[test]
fn lookups_compare_by_language_field_and_key() {
    let lookup = TranslationLookup {
        language: Language::parse("en").unwrap(),
        field: TranslatableField::Stops(StopFields::Name),
        key: TranslationKey::Record("S1".to_string()),
    };
    assert_eq!(lookup.clone(), lookup);
    assert_ne!(
        lookup,
        TranslationLookup {
            language: Language::parse("fr").unwrap(),
            field: TranslatableField::Stops(StopFields::Name),
            key: TranslationKey::Record("S1".to_string()),
        }
    );
    assert_ne!(
        lookup,
        TranslationLookup {
            language: Language::parse("en").unwrap(),
            field: TranslatableField::Stops(StopFields::Code),
            key: TranslationKey::Record("S1".to_string()),
        }
    );
    assert_ne!(
        lookup,
        TranslationLookup {
            language: Language::parse("en").unwrap(),
            field: TranslatableField::Stops(StopFields::Name),
            key: TranslationKey::Record("S2".to_string()),
        }
    );
}
