use pulcinella::form::FormFields;

fn value(fields: &FormFields, name: &str) -> Option<String> {
    fields.get(&name.to_string()).cloned()
}

#[test]
fn an_empty_body_has_no_fields() {
    let fields = FormFields::parse(b"");
    assert_eq!(fields.len(), 0);
    assert_eq!(value(&fields, ""), None);
    assert_eq!(value(&fields, "k"), None);
}

#[test]
fn a_body_is_split_into_names_and_values() {
    let fields = FormFields::parse(b"a=1&b=2&c");
    assert_eq!(fields.len(), 3);
    assert_eq!(value(&fields, "a"), Some("1".to_string()));
    assert_eq!(value(&fields, "b"), Some("2".to_string()));
    assert_eq!(value(&fields, "c"), Some("".to_string()));
    assert_eq!(value(&fields, "d"), None);
    assert_eq!(value(&fields, "a=1"), None);
}

#[test]
fn empty_pieces_are_skipped() {
    let fields = FormFields::parse(b"&&a=1&&");
    assert_eq!(fields.len(), 1);
    assert_eq!(value(&fields, "a"), Some("1".to_string()));
}

#[test]
fn names_and_values_are_decoded() {
    let fields = FormFields::parse(b"%23first=%25try%25&a+b=c+d&x=%zz");
    assert_eq!(fields.len(), 3);
    assert_eq!(value(&fields, "#first"), Some("%try%".to_string()));
    assert_eq!(value(&fields, "a b"), Some("c d".to_string()));
    assert_eq!(value(&fields, "x"), Some("%zz".to_string()));
}

#[test]
fn the_last_value_of_a_name_wins() {
    let fields = FormFields::parse(b"k=first&other=1&k=second&k=third");
    assert_eq!(fields.len(), 2);
    assert_eq!(value(&fields, "k"), Some("third".to_string()));
    assert_eq!(value(&fields, "other"), Some("1".to_string()));
}

#[test]
fn a_table_of_pairs_keeps_every_name_once() {
    let pairs = vec![
        ("k".to_string(), "1".to_string()),
        ("l".to_string(), "2".to_string()),
        ("k".to_string(), "3".to_string()),
    ];
    let fields = FormFields::from_pairs(&pairs);
    assert_eq!(fields.len(), 2);
    assert_eq!(value(&fields, "k"), Some("3".to_string()));
    assert_eq!(value(&fields, "l"), Some("2".to_string()));
    assert_eq!(FormFields::from_pairs(&vec![]).len(), 0);
}

#[test]
fn insert_replaces_and_adds() {
    let mut fields = FormFields::new();
    assert_eq!(fields.len(), 0);
    fields.insert("k".to_string(), "1".to_string());
    assert_eq!(fields.len(), 1);
    fields.insert("K".to_string(), "2".to_string());
    assert_eq!(fields.len(), 2);
    fields.insert("k".to_string(), "3".to_string());
    assert_eq!(fields.len(), 2);
    assert_eq!(value(&fields, "k"), Some("3".to_string()));
    assert_eq!(value(&fields, "K"), Some("2".to_string()));
}
