use cms_records::models::field_model::FieldModel;
use cms_records::value::{Object, Thing, Timestamp, Value};

#[test]
fn new_object_has_no_keys() {
    let object = Object::new();
    assert!(object.get("name").is_none());
    assert!(!object.contains_key("name"));
    assert!(Object::default().get("").is_none());
}

#[test]
fn get_returns_the_inserted_value() {
    let mut object = Object::new();
    object.insert("name".to_string(), Value::Str("Home".to_string()));
    object.insert("count".to_string(), Value::Num(3));
    assert!(matches!(object.get("name"), Some(Value::Str(text)) if text == "Home"));
    assert!(matches!(object.get("count"), Some(Value::Num(3))));
    assert!(object.get("Name").is_none());
    assert!(object.contains_key("count"));
    assert!(!object.contains_key("coun"));
}

#[test]
fn later_insert_replaces_the_value_of_a_key() {
    let mut object = Object::new();
    object.insert("name".to_string(), Value::Str("old".to_string()));
    object.insert("other".to_string(), Value::Bool(true));
    object.insert("name".to_string(), Value::Str("new".to_string()));
    assert!(matches!(object.get("name"), Some(Value::Str(text)) if text == "new"));
    assert!(matches!(object.get("other"), Some(Value::Bool(true))));
}

#[test]
fn empty_key_is_a_key_like_any_other() {
    let mut object = Object::new();
    object.insert(String::new(), Value::Null);
    assert!(matches!(object.get(""), Some(Value::Null)));
    assert!(object.get(" ").is_none());
}

#[test]
fn clone_copies_nested_values() {
    let mut nested = Object::new();
    nested.insert("label".to_string(), Value::Str("Red".to_string()));
    nested.insert("value".to_string(), Value::Str("r".to_string()));
    let mut source = Object::new();
    source.insert(
        "id".to_string(),
        Value::Thing(Thing { collection: "field".to_string(), identifier: "42".to_string() }),
    );
    source.insert("name".to_string(), Value::Str("Colour".to_string()));
    source.insert("field_data".to_string(), Value::Array(vec![Value::Object(nested), Value::Null]));
    source.insert("created_at".to_string(), Value::Timestamp(Timestamp { seconds: 9, nanos: 1 }));
    let copy = source.clone();
    let from_copy = FieldModel::decode(&copy).unwrap();
    assert_eq!(from_copy, FieldModel::decode(&source).unwrap());
    assert_eq!(from_copy.id, "42");
    assert_eq!(from_copy.field_data.as_ref().unwrap().len(), 2);
    assert_eq!(from_copy.field_data.as_ref().unwrap()[0].label, "Red");
    assert_eq!(from_copy.created_at, Timestamp { seconds: 9, nanos: 1 });
}

#[test]
fn clone_of_a_value_holds_the_same() {
    let value = Value::Array(vec![Value::Num(-1), Value::Bool(false), Value::Str("x".to_string())]);
    match value.clone() {
        Value::Array(items) => {
            assert_eq!(items.len(), 3);
            assert!(matches!(items[0], Value::Num(-1)));
            assert!(matches!(items[1], Value::Bool(false)));
            assert!(matches!(&items[2], Value::Str(text) if text == "x"));
        }
        _ => panic!("an array clones to an array"),
    }
    let thing = Thing { collection: "field".to_string(), identifier: "7".to_string() };
    assert_eq!(thing.clone(), thing);
    let instant = Timestamp { seconds: 1, nanos: 2 };
    assert_eq!(instant.clone(), instant);
}

#[test]
fn error_says_what_went_wrong() {
    assert_eq!(
        cms_records::error::Error::NestedRecord.message(),
        "a nested record could not be decoded"
    );
}

#[test]
fn default_page_of_fields_is_empty() {
    let page = cms_records::models::field_model::FieldPagination::default();
    assert!(page.data.is_empty());
    assert_eq!(
        page.pagination,
        cms_records::models::Pagination { page: 0, size: 0, total: 0 }
    );
}
