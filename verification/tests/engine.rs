use tantivy::schema::Schema;
use tantivy::schema::TEXT;
use tantivy::ReloadPolicy;
use ordermap::OrderMap;
use tantivy_node::descriptor::FieldDescriptor;
use tantivy_node::descriptor::NumericOption;
use tantivy_node::descriptor::ReloadOnPolicy;
use tantivy_node::descriptor::TextOption;
use tantivy_node::engine::document_from;
use tantivy_node::engine::engine_reload_policy;
use tantivy_node::engine::merge_terms;
use tantivy_node::engine::parse_document;
use tantivy_node::engine::pattern_from;
use tantivy_node::engine::size_from;
use tantivy_node::engine::term_pattern;
use tantivy_node::engine::top_docs_plan;
use tantivy_node::engine::BridgeError;
use tantivy_node::num::HostNumber;
use tantivy_node::schema::new_schema;
use tantivy_node::schema::CompiledSchema;

fn host(x: f64) -> HostNumber {
    HostNumber::from_bits(x.to_bits())
}

fn schema() -> CompiledSchema {
    let mut descriptor = OrderMap::new();
    descriptor.insert(
        "title".to_string(),
        FieldDescriptor::Text { flags: Some(vec![TextOption::STORED]), tokenizer: None, index: None },
    );
    descriptor.insert(
        "price".to_string(),
        FieldDescriptor::F64 { flags: Some(vec![NumericOption::STORED]) },
    );
    new_schema(&descriptor).unwrap().take().unwrap()
}

fn strings(texts: &[&str]) -> Vec<String> {
    texts.iter().map(|text| text.to_string()).collect()
}

#[test]
fn reload_policy_is_carried_over() {
    assert!(matches!(engine_reload_policy(ReloadOnPolicy::Manual), ReloadPolicy::Manual));
    assert!(matches!(
        engine_reload_policy(ReloadOnPolicy::CommitWithDelay),
        ReloadPolicy::OnCommitWithDelay
    ));
}

#[test]
fn document_that_fits_the_schema_is_parsed() {
    let schema = schema();
    let document = parse_document(&schema, r#"{"title": "Of Mice and Men", "price": 9.5}"#).unwrap();
    let title = schema.as_schema().get_field("title").unwrap();
    let values: Vec<String> = document
        .get_all(title)
        .map(|value| tantivy::schema::Value::as_str(&value).unwrap().to_string())
        .collect();
    assert_eq!(values, vec!["Of Mice and Men".to_string()]);
}

#[test]
fn malformed_json_is_a_document_parse_error() {
    match parse_document(&schema(), "{\"title\": ") {
        Err(BridgeError::DocumentParseError(message)) => assert!(!message.is_empty()),
        _ => panic!("malformed JSON was accepted"),
    }
}

#[test]
fn value_of_the_wrong_type_is_a_document_parse_error() {
    match parse_document(&schema(), r#"{"price": "cheap"}"#) {
        Err(BridgeError::DocumentParseError(message)) => assert!(message.contains("price")),
        _ => panic!("a text was accepted as a number"),
    }
    match parse_document(&schema(), r#"{"title": 12}"#) {
        Err(BridgeError::DocumentParseError(message)) => assert!(message.contains("title")),
        _ => panic!("a number was accepted as a text"),
    }
}

#[test]
fn same_text_gives_the_same_document() {
    let schema = schema();
    let text = r#"{"title": ["a", "b"], "price": 1.5}"#;
    let first = parse_document(&schema, text).unwrap();
    let second = parse_document(&schema, text).unwrap();
    assert!(first == second);
    let other = parse_document(&schema, r#"{"title": "a", "price": 1.5}"#).unwrap();
    assert!(first != other);
}

#[test]
fn document_answer_keeps_the_message() {
    match document_from(Err("no document".to_string())) {
        Err(BridgeError::DocumentParseError(message)) => assert_eq!(message, "no document"),
        _ => panic!("an error became a document"),
    }
}

#[test]
fn limit_of_zero_asks_for_no_collector() {
    assert!(top_docs_plan(0).is_none());
    assert!(top_docs_plan(1).is_some());
    assert!(top_docs_plan(usize::MAX).is_some());
}

#[test]
fn collector_keeps_the_limit() {
    let mut builder = Schema::builder();
    let body = builder.add_text_field("body", TEXT);
    let index = tantivy::Index::create_in_ram(builder.build());
    let mut writer = index.writer_with_num_threads(1, 15_000_000).unwrap();
    for _ in 0..5 {
        let mut document = tantivy::TantivyDocument::default();
        document.add_text(body, "same words");
        writer.add_document(document).unwrap();
    }
    writer.commit().unwrap();
    let searcher = index.reader().unwrap().searcher();
    let query = tantivy::query::AllQuery;
    assert_eq!(searcher.search(&query, &top_docs_plan(3).unwrap()).unwrap().len(), 3);
    assert_eq!(searcher.search(&query, &top_docs_plan(5).unwrap()).unwrap().len(), 5);
    assert_eq!(searcher.search(&query, &top_docs_plan(9).unwrap()).unwrap().len(), 5);
}

#[test]
fn term_pattern_accepts_patterns_and_refuses_the_rest() {
    assert!(term_pattern("ab.*").is_ok());
    assert!(term_pattern("").is_ok());
    match term_pattern("(unclosed") {
        Err(BridgeError::InvalidArgument(message)) => assert!(!message.is_empty()),
        _ => panic!("the pattern was accepted"),
    }
}

#[test]
fn pattern_answer_keeps_the_message() {
    match pattern_from(Err("no pattern".to_string())) {
        Err(BridgeError::InvalidArgument(message)) => assert_eq!(message, "no pattern"),
        _ => panic!("an error became an automaton"),
    }
}

#[test]
fn merge_terms_keeps_each_term_once_in_first_order() {
    let found = vec![strings(&["b", "a", "b"]), strings(&[]), strings(&["c", "a", "d"])];
    assert_eq!(merge_terms(&found), strings(&["b", "a", "c", "d"]));
    assert!(merge_terms(&Vec::new()).is_empty());
    assert_eq!(merge_terms(&vec![strings(&["x"])]), strings(&["x"]));
}

#[test]
fn size_from_takes_integers_in_range() {
    assert_eq!(size_from(host(0.0)).unwrap(), 0);
    assert_eq!(size_from(host(50000000.0)).unwrap(), 50000000);
    assert_eq!(size_from(host(9007199254740991.0)).unwrap(), 9007199254740991);
}

#[test]
fn size_from_refuses_the_rest_as_invalid_arguments() {
    for (number, reason) in [
        (1.5, "is not an integer"),
        (f64::NAN, "is not an integer"),
        (-1.0, "is out of range for u53"),
        (9007199254740992.0, "is out of range for u53"),
        (f64::INFINITY, "is out of range for u53"),
    ] {
        match size_from(host(number)) {
            Err(BridgeError::InvalidArgument(message)) => assert_eq!(message, reason),
            _ => panic!("the number was accepted"),
        }
    }
}
