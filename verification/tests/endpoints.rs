use serde_json::Value;
use std::path::PathBuf;
use tokenapi::json::Json;
use tokenapi::server::api::{
    all_properties, health, query, reread_mappings, single_property_by_other_impl, single_property_by_spec,
    single_subject, AppMutState, Query, Reply,
};
use tokenapi::server::registry::{read_mappings, MappingFile, Registry};

const SUBJECT: &str = "782c158a98aed3aa676d9c85117525dcf3acc5506a30a8d87369fbcb4d6f6e6574";

fn file(name: &str, content: Option<&str>) -> MappingFile {
    MappingFile { name: name.to_string(), content: content.map(|c| c.to_string()) }
}

fn value(text: &str) -> Value {
    serde_json::from_str(text).unwrap()
}

fn s(text: &str) -> String {
    text.to_string()
}

fn sample_registry() -> Registry {
    let mut reg = Registry::new();
    let files = vec![
        file(SUBJECT, Some(r#"{"subject": "782c", "name": {"value": "Token"}, "ticker": {"value": "TKN"}}"#)),
        file("plain", Some("[1, 2]")),
        file("broken", Some("{not json")),
        file("unreadable", None),
    ];
    assert_eq!(read_mappings(&mut reg, files), 2);
    reg
}

fn token_document() -> Json {
    Json::Object(vec![
        (s("name"), value(r#"{"value": "Token"}"#)),
        (s("subject"), Value::String(s("782c"))),
        (s("ticker"), value(r#"{"value": "TKN"}"#)),
    ])
}

#[test]
fn health_check_works() {
    assert_eq!(health(), Reply::Empty);
}

#[test]
fn subject_endpoint_returns_404() {
    let reg = sample_registry();
    assert_eq!(single_subject(&reg, &s("DOESNOTEXIST")), Reply::NotFound);
}

#[test]
fn subject_endpoint_returns_200() {
    let reg = sample_registry();
    assert_eq!(single_subject(&reg, &s(SUBJECT)), Reply::Document(token_document()));
}

#[test]
fn read_mappings_parses_and_skips() {
    let reg = sample_registry();
    assert_eq!(reg.len(), 2);
    assert!(reg.contains(&s(SUBJECT)));
    assert!(reg.contains(&s("plain")));
    assert!(!reg.contains(&s("broken")));
    assert!(!reg.contains(&s("unreadable")));
    // The document is the parse of the text, not the text.
    assert_eq!(single_subject(&reg, &s("plain")), Reply::Document(Json::Other(value("[1,2]"))));
}

#[test]
fn reread_of_same_files_adds_nothing() {
    let mut reg = sample_registry();
    let again = vec![file(SUBJECT, Some(r#"{"ticker": {"value": "TKN"}, "name": {"value": "Token"}, "subject": "782c"}"#))];
    assert_eq!(read_mappings(&mut reg, again), 0);
    assert_eq!(reg.len(), 2);
    assert_eq!(single_subject(&reg, &s(SUBJECT)), Reply::Document(token_document()));
}

#[test]
fn later_file_overrides_earlier() {
    let mut reg = Registry::new();
    let files = vec![file("a", Some("1")), file("a", Some("2")), file("a", Some("oops"))];
    assert_eq!(read_mappings(&mut reg, files), 1);
    assert_eq!(single_subject(&reg, &s("a")), Reply::Document(Json::Other(Value::from(2))));
}

#[test]
fn reread_keeps_old_subjects() {
    let mut state = AppMutState { mappings: sample_registry(), registry_path: PathBuf::from("/srv/mappings") };
    let (reply, added) = reread_mappings(&mut state, vec![file("new", Some("true")), file(SUBJECT, Some("{}"))]);
    assert_eq!(reply, Reply::Text(s("Reread contents")));
    assert_eq!(added, 1);
    assert_eq!(state.registry_path, PathBuf::from("/srv/mappings"));
    assert_eq!(state.mappings.len(), 3);
    assert_eq!(single_subject(&state.mappings, &s(SUBJECT)), Reply::Document(Json::Object(vec![])));
    assert_eq!(single_subject(&state.mappings, &s("new")), Reply::Document(Json::Other(Value::Bool(true))));
}

#[test]
fn all_properties_returns_whole_subject() {
    let reg = sample_registry();
    assert_eq!(all_properties(&reg, &s(SUBJECT)), Reply::Document(token_document()));
    assert_eq!(all_properties(&reg, &s("nope")), Reply::NotFound);
}

#[test]
fn single_property_returns_subject_and_value() {
    let reg = sample_registry();
    let expected = Reply::Object(vec![
        (s("subject"), token_document()),
        (s("ticker"), Json::Other(value(r#"{"value": "TKN"}"#))),
    ]);
    assert_eq!(single_property_by_other_impl(&reg, &s(SUBJECT), &s("ticker")), expected);
    assert_eq!(single_property_by_spec(&reg, &s(SUBJECT), &s("ticker")), expected);
}

#[test]
fn single_property_not_found() {
    let reg = sample_registry();
    assert_eq!(single_property_by_spec(&reg, &s(SUBJECT), &s("logo")), Reply::NotFound);
    assert_eq!(single_property_by_spec(&reg, &s("nope"), &s("name")), Reply::NotFound);
    // A document that is no object has no properties.
    assert_eq!(single_property_by_other_impl(&reg, &s("plain"), &s("0")), Reply::NotFound);
}

#[test]
fn property_named_subject_is_the_later_member() {
    let reg = sample_registry();
    let reply = single_property_by_other_impl(&reg, &s(SUBJECT), &s("subject"));
    match reply {
        Reply::Object(members) => {
            // As members of one JSON object, the later one wins.
            let last = members.iter().rev().find(|(k, _)| k == "subject").unwrap();
            assert_eq!(last.1, Json::Other(Value::String(s("782c"))));
        }
        other => panic!("unexpected reply {:?}", other),
    }
}

#[test]
fn query_returns_found_subjects_in_order() {
    let reg = sample_registry();
    let q = Query { subjects: vec![s("plain"), s("missing"), s(SUBJECT)], properties: None };
    assert_eq!(
        query(&reg, &q),
        Reply::Subjects(vec![Json::Other(value("[1,2]")), token_document()])
    );
}

#[test]
fn query_narrows_to_properties() {
    let reg = sample_registry();
    let q = Query {
        subjects: vec![s(SUBJECT), s("plain"), s("missing")],
        properties: Some(vec![s("ticker"), s("logo"), s("ticker")]),
    };
    match query(&reg, &q) {
        Reply::Subjects(docs) => {
            assert_eq!(docs.len(), 2);
            assert_eq!(docs[0].get(&s("ticker")), Some(&value(r#"{"value": "TKN"}"#)));
            assert_eq!(docs[0].get(&s("name")), None);
            assert_eq!(docs[0].get(&s("logo")), None);
            assert_eq!(docs[1], Json::Object(vec![]));
        }
        other => panic!("unexpected reply {:?}", other),
    }
}

#[test]
fn query_with_no_subjects() {
    let reg = sample_registry();
    let q = Query { subjects: vec![], properties: Some(vec![s("name")]) };
    assert_eq!(query(&reg, &q), Reply::Subjects(vec![]));
}

#[test]
fn json_get_takes_last_member() {
    let doc = Json::Object(vec![(s("a"), Value::from(1)), (s("b"), Value::from(2)), (s("a"), Value::from(3))]);
    assert_eq!(doc.get(&s("a")), Some(&Value::from(3)));
    assert_eq!(doc.get(&s("b")), Some(&Value::from(2)));
    assert_eq!(doc.get(&s("c")), None);
    assert_eq!(Json::Other(Value::Null).get(&s("a")), None);
    assert_eq!(doc.duplicate(), doc);
    assert_eq!(doc.narrow(&vec![s("a")]), Json::Object(vec![(s("a"), Value::from(3))]));
}

#[test]
fn other_document_holding_an_object_has_its_members() {
    let obj = value(r#"{"logo": "L", "url": "U"}"#);
    let doc = Json::Other(obj.clone());
    assert_eq!(doc.get(&s("logo")), Some(&Value::String(s("L"))));
    assert_eq!(doc.get(&s("name")), None);
    assert_eq!(doc.narrow(&vec![s("url"), s("name")]), Json::Object(vec![(s("url"), Value::String(s("U")))]));

    let mut reg = Registry::new();
    reg.insert(s("raw"), doc.clone());
    assert_eq!(
        single_property_by_spec(&reg, &s("raw"), &s("logo")),
        Reply::Object(vec![(s("subject"), doc), (s("logo"), Json::Other(Value::String(s("L"))))])
    );
    let q = Query { subjects: vec![s("raw")], properties: Some(vec![s("url")]) };
    assert_eq!(query(&reg, &q), Reply::Subjects(vec![Json::Object(vec![(s("url"), Value::String(s("U")))])]));
}
