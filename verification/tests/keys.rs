use gtfs_translations::{key_options_to_struct, RecordIdTypes, TranslationKey};

fn text(value: &str) -> Option<String> {
    Some(value.to_string())
}

#[test]
fn record_id_and_sub_id_give_a_record_sub_key() {
    assert_eq!(
        key_options_to_struct(text("T1"), text("3"), None),
        Some(TranslationKey::RecordSub(("T1".to_string(), "3".to_string())))
    );
}

#[test]
fn record_id_and_sub_id_come_before_the_value() {
    assert_eq!(
        key_options_to_struct(text("R1"), text("1"), text("http://y")),
        Some(TranslationKey::RecordSub(("R1".to_string(), "1".to_string())))
    );
}

#[test]
fn record_id_alone_gives_a_record_key() {
    assert_eq!(
        key_options_to_struct(text("S1"), None, None),
        Some(TranslationKey::Record("S1".to_string()))
    );
}

#[test]
fn record_id_comes_before_the_value() {
    assert_eq!(
        key_options_to_struct(text("S1"), None, text("Main St")),
        Some(TranslationKey::Record("S1".to_string()))
    );
}

#[test]
fn value_alone_gives_a_value_key() {
    assert_eq!(
        key_options_to_struct(None, None, text("Main St")),
        Some(TranslationKey::Value("Main St".to_string()))
    );
}

#[test]
fn sub_id_without_record_id_is_ignored() {
    assert_eq!(
        key_options_to_struct(None, text("3"), text("Main St")),
        Some(TranslationKey::Value("Main St".to_string()))
    );
    assert_eq!(key_options_to_struct(None, text("3"), None), None);
}

#[test]
fn no_reference_gives_no_key() {
    assert_eq!(key_options_to_struct(None, None, None), None);
}

#[test]
fn empty_texts_are_present() {
    assert_eq!(
        key_options_to_struct(text(""), None, None),
        Some(TranslationKey::Record(String::new()))
    );
    assert_eq!(
        key_options_to_struct(text(""), text(""), text("v")),
        Some(TranslationKey::RecordSub((String::new(), String::new())))
    );
    assert_eq!(
        key_options_to_struct(None, None, text("")),
        Some(TranslationKey::Value(String::new()))
    );
}

#[test]
fn keys_of_different_kinds_differ() {
    let record = TranslationKey::Record("a".to_string());
    let value = TranslationKey::Value("a".to_string());
    let record_sub = TranslationKey::RecordSub(("a".to_string(), "".to_string()));
    assert_ne!(record, value);
    assert_ne!(record, record_sub);
    assert_ne!(value, record_sub);
    assert_eq!(record, TranslationKey::Record("a".to_string()));
    assert_ne!(record, TranslationKey::Record("b".to_string()));
    assert_eq!(record.clone(), record);
    assert_eq!(record_sub.clone(), record_sub);
    assert_ne!(
        record_sub,
        TranslationKey::RecordSub(("a".to_string(), "1".to_string()))
    );
}

#[test]
fn record_ids_compare_by_their_texts() {
    let id = RecordIdTypes::RecordId("a".to_string());
    let sub_id = RecordIdTypes::RecordSubId(("a".to_string(), "1".to_string()));
    assert_eq!(id, RecordIdTypes::RecordId("a".to_string()));
    assert_ne!(id, RecordIdTypes::RecordId("b".to_string()));
    assert_ne!(id, sub_id);
    assert_eq!(sub_id.clone(), sub_id);
    assert_eq!(id.clone(), id);
    assert_ne!(
        sub_id,
        RecordIdTypes::RecordSubId(("a".to_string(), "2".to_string()))
    );
}
