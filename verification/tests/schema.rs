use ordermap::OrderMap;
use tantivy_node::descriptor::FieldDescriptor;
use tantivy_node::descriptor::IndexDetail;
use tantivy_node::descriptor::NumericOption;
use tantivy_node::descriptor::TextOption;
use tantivy_node::engine::BridgeError;
use tantivy_node::schema::add_field;
use tantivy_node::schema::field_count;
use tantivy_node::schema::field_id;
use tantivy_node::schema::field_info;
use tantivy_node::schema::new_schema;

fn sample() -> OrderMap<String, FieldDescriptor> {
    let mut descriptor = OrderMap::new();
    descriptor.insert(
        "title".to_string(),
        FieldDescriptor::Text { flags: Some(vec![TextOption::STORED]), tokenizer: None, index: None },
    );
    descriptor.insert(
        "body".to_string(),
        FieldDescriptor::Text {
            flags: None,
            tokenizer: Some("en_stem".to_string()),
            index: Some(IndexDetail::WithFreqs),
        },
    );
    descriptor.insert("sku".to_string(), FieldDescriptor::String { flags: Some(vec![]) });
    descriptor.insert(
        "price".to_string(),
        FieldDescriptor::F64 { flags: Some(vec![NumericOption::INDEXED, NumericOption::STORED]) },
    );
    descriptor.insert("weight".to_string(), FieldDescriptor::F64 { flags: None });
    descriptor
}

#[test]
fn schema_fields_follow_declaration_order() {
    let cell = new_schema(&sample()).unwrap();
    let schema = cell.as_ref().unwrap();
    assert_eq!(field_count(schema), 5);
    assert_eq!(field_id(schema, "title"), Some(0));
    assert_eq!(field_id(schema, "body"), Some(1));
    assert_eq!(field_id(schema, "sku"), Some(2));
    assert_eq!(field_id(schema, "price"), Some(3));
    assert_eq!(field_id(schema, "weight"), Some(4));
    assert_eq!(field_id(schema, "missing"), None);
}

#[test]
fn schema_compiles_twice_to_the_same_ids() {
    let first = new_schema(&sample()).unwrap();
    let second = new_schema(&sample()).unwrap();
    let a = first.as_ref().unwrap();
    let b = second.as_ref().unwrap();
    for name in ["title", "body", "sku", "price", "weight"] {
        assert_eq!(field_id(a, name), field_id(b, name));
    }
    assert!(a.as_schema() == b.as_schema());
}

#[test]
fn text_field_defaults() {
    let cell = new_schema(&sample()).unwrap();
    let schema = cell.as_ref().unwrap();
    let title = field_info(schema, 0).unwrap();
    assert_eq!(title.name, "title");
    assert!(title.stored);
    assert!(title.indexed);
    assert_eq!(title.tokenizer.as_deref(), Some("default"));
    assert_eq!(title.detail, Some(IndexDetail::WithFreqsAndPositions));
}

#[test]
fn text_field_with_named_tokenizer() {
    let cell = new_schema(&sample()).unwrap();
    let schema = cell.as_ref().unwrap();
    let body = field_info(schema, 1).unwrap();
    assert_eq!(body.name, "body");
    assert!(!body.stored);
    assert!(body.indexed);
    assert_eq!(body.tokenizer.as_deref(), Some("en_stem"));
    assert_eq!(body.detail, Some(IndexDetail::WithFreqs));
}

#[test]
fn text_field_with_tokenizer_and_no_detail_is_basic() {
    let mut descriptor = OrderMap::new();
    descriptor.insert(
        "body".to_string(),
        FieldDescriptor::Text { flags: None, tokenizer: Some("raw".to_string()), index: None },
    );
    let cell = new_schema(&descriptor).unwrap();
    let info = field_info(cell.as_ref().unwrap(), 0).unwrap();
    assert_eq!(info.tokenizer.as_deref(), Some("raw"));
    assert_eq!(info.detail, Some(IndexDetail::Basic));
}

#[test]
fn text_field_detail_applies_without_a_tokenizer() {
    for (declared, expected) in [
        (Some(IndexDetail::Basic), IndexDetail::Basic),
        (Some(IndexDetail::WithFreqs), IndexDetail::WithFreqs),
        (Some(IndexDetail::WithFreqsAndPositions), IndexDetail::WithFreqsAndPositions),
        (None, IndexDetail::WithFreqsAndPositions),
    ] {
        let mut descriptor = OrderMap::new();
        descriptor.insert(
            "t".to_string(),
            FieldDescriptor::Text { flags: None, tokenizer: None, index: declared },
        );
        let cell = new_schema(&descriptor).unwrap();
        let info = field_info(cell.as_ref().unwrap(), 0).unwrap();
        assert_eq!(info.name, "t");
        assert!(info.indexed);
        assert_eq!(info.tokenizer.as_deref(), Some("default"));
        assert_eq!(info.detail, Some(expected));
    }
}

#[test]
fn text_field_detail_applies_with_a_tokenizer() {
    for declared in [IndexDetail::Basic, IndexDetail::WithFreqs, IndexDetail::WithFreqsAndPositions]
    {
        let mut descriptor = OrderMap::new();
        descriptor.insert(
            "t".to_string(),
            FieldDescriptor::Text {
                flags: Some(vec![TextOption::STORED]),
                tokenizer: Some("raw".to_string()),
                index: Some(declared),
            },
        );
        let cell = new_schema(&descriptor).unwrap();
        let info = field_info(cell.as_ref().unwrap(), 0).unwrap();
        assert!(info.stored);
        assert_eq!(info.tokenizer.as_deref(), Some("raw"));
        assert_eq!(info.detail, Some(declared));
    }
}

#[test]
fn string_field_is_raw_and_basic() {
    let cell = new_schema(&sample()).unwrap();
    let schema = cell.as_ref().unwrap();
    let sku = field_info(schema, 2).unwrap();
    assert_eq!(sku.name, "sku");
    assert!(!sku.stored);
    assert!(sku.indexed);
    assert_eq!(sku.tokenizer.as_deref(), Some("raw"));
    assert_eq!(sku.detail, Some(IndexDetail::Basic));
}

#[test]
fn numeric_field_flags() {
    let cell = new_schema(&sample()).unwrap();
    let schema = cell.as_ref().unwrap();
    let price = field_info(schema, 3).unwrap();
    assert_eq!(price.name, "price");
    assert!(price.stored);
    assert!(price.indexed);
    assert_eq!(price.tokenizer, None);
    assert_eq!(price.detail, None);
    let weight = field_info(schema, 4).unwrap();
    assert!(!weight.stored);
    assert!(!weight.indexed);
    assert!(field_info(schema, 5).is_none());
}

#[test]
fn empty_descriptor_gives_empty_schema() {
    let descriptor: OrderMap<String, FieldDescriptor> = OrderMap::new();
    let cell = new_schema(&descriptor).unwrap();
    let schema = cell.as_ref().unwrap();
    assert_eq!(field_count(schema), 0);
    assert!(field_info(schema, 0).is_none());
}

#[test]
fn repeated_name_keeps_first_position_and_last_descriptor() {
    let mut descriptor = OrderMap::new();
    descriptor.insert("a".to_string(), FieldDescriptor::String { flags: None });
    descriptor.insert("b".to_string(), FieldDescriptor::F64 { flags: None });
    descriptor.insert(
        "a".to_string(),
        FieldDescriptor::String { flags: Some(vec![TextOption::STORED]) },
    );
    let cell = new_schema(&descriptor).unwrap();
    let schema = cell.as_ref().unwrap();
    assert_eq!(field_count(schema), 2);
    assert_eq!(field_id(schema, "a"), Some(0));
    assert_eq!(field_id(schema, "b"), Some(1));
    assert!(field_info(schema, 0).unwrap().stored);
}

#[test]
fn add_field_appends_to_the_builder() {
    let mut builder = tantivy::schema::Schema::builder();
    add_field(&mut builder, "x", &FieldDescriptor::F64 { flags: Some(vec![NumericOption::STORED]) });
    add_field(
        &mut builder,
        "y",
        &FieldDescriptor::Text {
            flags: Some(vec![TextOption::STORED, TextOption::STORED]),
            tokenizer: None,
            index: None,
        },
    );
    add_field(
        &mut builder,
        "z",
        &FieldDescriptor::Text { flags: None, tokenizer: None, index: Some(IndexDetail::Basic) },
    );
    let schema = builder.build();
    let x = schema.get_field("x").unwrap();
    let y = schema.get_field("y").unwrap();
    let z = schema.get_field("z").unwrap();
    assert_eq!((x.field_id(), y.field_id(), z.field_id()), (0, 1, 2));
    assert!(schema.get_field_entry(x).is_stored() && !schema.get_field_entry(x).is_indexed());
    assert!(schema.get_field_entry(y).is_stored() && schema.get_field_entry(y).is_indexed());
    assert_eq!(
        schema.get_field_entry(z).field_type().index_record_option(),
        Some(tantivy::schema::IndexRecordOption::Basic)
    );
}

#[test]
fn names_that_the_engine_does_not_take_are_refused() {
    for (names, refused) in [
        (vec![""], ""),
        (vec!["-a"], "-a"),
        (vec!["a", "-", "", "b"], "-"),
        (vec!["a-b", "", "-x"], ""),
    ] {
        let mut descriptor = OrderMap::new();
        for name in names {
            descriptor.insert(name.to_string(), FieldDescriptor::F64 { flags: None });
        }
        match new_schema(&descriptor) {
            Err(BridgeError::InvalidArgument(message)) => assert_eq!(
                message,
                format!("a field name must not be empty or begin with a hyphen: {refused}")
            ),
            _ => panic!("the name was accepted"),
        }
    }
}

#[test]
fn names_with_a_hyphen_inside_are_taken() {
    let mut descriptor = OrderMap::new();
    descriptor.insert("a-b".to_string(), FieldDescriptor::F64 { flags: None });
    descriptor.insert("é-".to_string(), FieldDescriptor::String { flags: None });
    descriptor.insert(" ".to_string(), FieldDescriptor::String { flags: None });
    let cell = new_schema(&descriptor).unwrap();
    let schema = cell.as_ref().unwrap();
    assert_eq!(field_id(schema, "a-b"), Some(0));
    assert_eq!(field_id(schema, "é-"), Some(1));
    assert_eq!(field_id(schema, " "), Some(2));
}
