use serde_json::Value;
use tokenapi::api::{
    all_properties, health, query, read_mappings, reread_mappings, single_property, single_subject, AppMutState,
    Query,
};
use tokenapi::json::Json;
use tokenapi::server::api::Reply;
use tokenapi::server::registry::{MappingFile, Registry};

fn s(text: &str) -> String {
    text.to_string()
}

fn registry() -> Registry {
    let mut reg = Registry::new();
    read_mappings(
        &mut reg,
        vec![MappingFile { name: s("abc"), content: Some(s(r#"{"logo": "x", "url": "y"}"#)) }],
    );
    reg
}

#[test]
fn legacy_health() {
    assert_eq!(health(), Reply::Empty);
}

#[test]
fn legacy_subject_and_properties() {
    let reg = registry();
    let doc = Json::Object(vec![(s("logo"), Value::String(s("x"))), (s("url"), Value::String(s("y")))]);
    assert_eq!(single_subject(&reg, &s("abc")), Reply::Document(doc.clone()));
    assert_eq!(all_properties(&reg, &s("abc")), Reply::Document(doc.clone()));
    assert_eq!(single_subject(&reg, &s("zzz")), Reply::NotFound);
    assert_eq!(
        single_property(&reg, &s("abc"), &s("url")),
        Reply::Object(vec![(s("subject"), doc), (s("url"), Json::Other(Value::String(s("y"))))])
    );
    assert_eq!(single_property(&reg, &s("abc"), &s("name")), Reply::NotFound);
}

#[test]
fn legacy_query_and_reread() {
    let mut state = AppMutState { mappings: registry(), registry_path: s("./registry/mappings") };
    let q = Query { subjects: vec![s("abc"), s("def")], properties: Some(vec![s("logo")]) };
    assert_eq!(
        query(&state.mappings, &q),
        Reply::Subjects(vec![Json::Object(vec![(s("logo"), Value::String(s("x")))])])
    );
    let reply = reread_mappings(&mut state, vec![MappingFile { name: s("def"), content: Some(s("null")) }]);
    assert_eq!(reply, Reply::Text(s("Reread contents")));
    assert_eq!(
        query(&state.mappings, &q),
        Reply::Subjects(vec![
            Json::Object(vec![(s("logo"), Value::String(s("x")))]),
            Json::Object(vec![]),
        ])
    );
}
