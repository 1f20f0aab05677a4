use upload_form::media::MediaPattern;
use upload_form::pipeline::upload_schema;
use upload_form::schema::{FieldKind, FieldSchema, FieldSpec, SchemaError};

fn field(name: &str, max_size: u64) -> FieldSpec {
    FieldSpec {
        name: name.to_string(),
        kind: FieldKind::Binary,
        max_size,
        pattern: MediaPattern::Any,
    }
}

#[test]
fn schema_holds_its_declarations() {
    let schema = FieldSchema::new(vec![field("a", 1), field("b", 20)]).unwrap();
    assert_eq!(schema.get(&"a".to_string()), Some(&field("a", 1)));
    assert_eq!(schema.get(&"b".to_string()), Some(&field("b", 20)));
    assert_eq!(schema.get(&"c".to_string()), None);
    assert_eq!(schema.get(&"A".to_string()), None);
}

#[test]
fn empty_schema_declares_nothing() {
    let schema = FieldSchema::new(vec![]).unwrap();
    assert_eq!(schema.get(&"a".to_string()), None);
}

#[test]
fn repeated_name_makes_no_schema() {
    let result = FieldSchema::new(vec![field("a", 1), field("b", 1), field("a", 2)]);
    assert_eq!(result.unwrap_err(), SchemaError::DuplicateField("a".to_string()));
}

#[test]
fn zero_size_limit_makes_no_schema() {
    let result = FieldSchema::new(vec![field("a", 1), field("b", 0)]);
    assert_eq!(result.unwrap_err(), SchemaError::ZeroSizeLimit("b".to_string()));
}

#[test]
fn first_defective_declaration_is_reported() {
    let result = FieldSchema::new(vec![field("z", 0), field("a", 1), field("a", 1)]);
    assert_eq!(result.unwrap_err(), SchemaError::ZeroSizeLimit("z".to_string()));
    let result = FieldSchema::new(vec![field("a", 1), field("a", 1), field("z", 0)]);
    assert_eq!(result.unwrap_err(), SchemaError::DuplicateField("a".to_string()));
}

#[test]
fn repetition_is_reported_before_the_size() {
    let result = FieldSchema::new(vec![field("a", 1), field("a", 0)]);
    assert_eq!(result.unwrap_err(), SchemaError::DuplicateField("a".to_string()));
}

#[test]
fn upload_schema_declares_avatar_and_data() {
    let schema = upload_schema();
    let avatar = schema.get(&"avatar".to_string()).unwrap();
    assert_eq!(avatar.kind, FieldKind::Binary);
    assert_eq!(avatar.max_size, 8_388_608);
    assert_eq!(avatar.pattern, MediaPattern::AnySubtype("image".to_string()));
    let data = schema.get(&"data".to_string()).unwrap();
    assert_eq!(data.kind, FieldKind::Text);
    assert_eq!(data.max_size, 1_048_576);
    assert_eq!(data.pattern, MediaPattern::Any);
    assert_eq!(schema.get(&"extra".to_string()), None);
}
