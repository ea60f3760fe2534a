use lab_tools_client::metadata::{MetaValue, Metadata};

#[test]
fn empty_metadata_has_no_keys() {
    let metadata = Metadata::new();
    assert_eq!(metadata.get("response"), None);
    assert_eq!(metadata.get(""), None);
}

#[test]
fn inserted_value_is_found() {
    let mut metadata = Metadata::new();
    metadata.insert("response".to_string(), MetaValue::Text("hello".to_string()));
    assert_eq!(metadata.get("response"), Some(&MetaValue::Text("hello".to_string())));
    assert_eq!(metadata.get("Response"), None);
    assert_eq!(metadata.get("response "), None);
}

#[test]
fn later_insert_replaces_earlier() {
    let mut metadata = Metadata::new();
    metadata.insert("response".to_string(), MetaValue::Number("1".to_string()));
    metadata.insert("elapsed".to_string(), MetaValue::Number("0.25".to_string()));
    metadata.insert("response".to_string(), MetaValue::Boolean(true));
    assert_eq!(metadata.get("response"), Some(&MetaValue::Boolean(true)));
    assert_eq!(metadata.get("elapsed"), Some(&MetaValue::Number("0.25".to_string())));
}

#[test]
fn keys_do_not_disturb_each_other() {
    let mut metadata = Metadata::new();
    let keys = ["a", "b", "response", "", "r\u{e9}ponse"];
    for (i, key) in keys.iter().enumerate() {
        metadata.insert(key.to_string(), MetaValue::Number(i.to_string()));
    }
    for (i, key) in keys.iter().enumerate() {
        assert_eq!(metadata.get(key), Some(&MetaValue::Number(i.to_string())));
    }
    assert_eq!(metadata.get("c"), None);
}

#[test]
fn display_text_of_each_kind() {
    assert_eq!(MetaValue::Text("hi".to_string()).display_text(), Some("hi".to_string()));
    assert_eq!(MetaValue::Text(String::new()).display_text(), Some(String::new()));
    assert_eq!(MetaValue::Number("2.5".to_string()).display_text(), Some("2.5".to_string()));
    assert_eq!(MetaValue::Boolean(true).display_text(), Some("true".to_string()));
    assert_eq!(MetaValue::Boolean(false).display_text(), Some("false".to_string()));
    assert_eq!(MetaValue::Null.display_text(), Some("null".to_string()));
    assert_eq!(
        MetaValue::Nested("ListValue(ListValue { values: [] })".to_string()).display_text(),
        Some("ListValue(ListValue { values: [] })".to_string())
    );
    assert_eq!(MetaValue::Unset.display_text(), None);
}
