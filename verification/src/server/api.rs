//! The endpoints of the service, as functions from the registry and the
//! request to the reply; the HTTP plumbing around them is not part of the
//! library.

use crate::json::{name_set, Json, JsonView};
use crate::server::registry::{added_subjects, loaded, parsed_files, read_mappings, MappingFile, Registry};
use std::path::PathBuf;
use vstd::prelude::*;
use vstd::string::StringExecFns;

verus! {

#[verifier::external_type_specification]
#[verifier::external_body]
pub struct ExPathBuf(PathBuf);

/// The state the endpoints share: the registry and the directory it is read from.
pub struct AppMutState {
    pub mappings: Registry,
    pub registry_path: PathBuf,
}

/// A batch query: the subjects asked for, and, optionally, the only
/// properties to return of each.
pub struct Query {
    pub subjects: Vec<String>,
    pub properties: Option<Vec<String>>,
}

/// A reply of an endpoint.
#[derive(Debug, Clone, PartialEq)]
pub enum Reply {
    /// `200 OK` with an empty body.
    Empty,
    /// `200 OK` with a text body.
    Text(String),
    /// `404 Not Found` with an empty body.
    NotFound,
    /// `200 OK` with a JSON document as body.
    Document(Json),
    /// `200 OK` with a JSON object as body, given by its members; a later
    /// member overrides an earlier one with the same name.
    Object(Vec<(String, Json)>),
    /// `200 OK` with the body `{"subjects": [...]}` holding these documents in order.
    Subjects(Vec<Json>),
}

/// The mathematical model of a [`Reply`].
pub enum ReplyView {
    Empty,
    Text(Seq<char>),
    NotFound,
    Document(JsonView),
    Object(Map<Seq<char>, JsonView>),
    Subjects(Seq<JsonView>),
}

/// The object that a list of members denotes: a later member overrides an
/// earlier one with the same name.
pub open spec fn object_map(s: Seq<(String, Json)>) -> Map<Seq<char>, JsonView>
    decreases s.len(),
{
    if s.len() == 0 {
        Map::empty()
    } else {
        object_map(s.drop_last()).insert(s.last().0@, s.last().1@)
    }
}

/// The models of a list of documents.
pub open spec fn documents(s: Seq<Json>) -> Seq<JsonView> {
    s.map_values(|j: Json| j@)
}

impl View for Reply {
    type V = ReplyView;

    open spec fn view(&self) -> ReplyView {
        match self {
            Reply::Empty => ReplyView::Empty,
            Reply::Text(t) => ReplyView::Text(t@),
            Reply::NotFound => ReplyView::NotFound,
            Reply::Document(j) => ReplyView::Document(j@),
            Reply::Object(m) => ReplyView::Object(object_map(m@)),
            Reply::Subjects(v) => ReplyView::Subjects(documents(v@)),
        }
    }
}

/// The reply for a subject: its document, or `404` where the registry does
/// not hold it.
pub open spec fn subject_reply(reg: Map<Seq<char>, JsonView>, subject: Seq<char>) -> ReplyView {
    if reg.contains_key(subject) {
        ReplyView::Document(reg[subject])
    } else {
        ReplyView::NotFound
    }
}

/// The reply for a property of a subject: the object
/// `{"subject": <document>, <property>: <value>}`, in which the property
/// overrides the first member where it is called `subject`; or `404` where
/// the subject or its property is missing.
pub open spec fn property_reply(
    reg: Map<Seq<char>, JsonView>,
    subject: Seq<char>,
    property: Seq<char>,
) -> ReplyView {
    if reg.contains_key(subject) && reg[subject].members().contains_key(property) {
        ReplyView::Object(
            Map::<Seq<char>, JsonView>::empty().insert("subject"@, reg[subject]).insert(
                property,
                JsonView::Other(reg[subject].members()[property]),
            ),
        )
    } else {
        ReplyView::NotFound
    }
}

/// A document as a batch query returns it: whole, or narrowed to the
/// requested properties it has.
pub open spec fn narrowed(doc: JsonView, properties: Option<Seq<String>>) -> JsonView {
    match properties {
        None => doc,
        Some(names) => JsonView::Object(doc.members().restrict(name_set(names))),
    }
}

/// The documents a batch query returns: one for each requested subject that
/// the registry holds, in the order of the request.
pub open spec fn query_results(
    reg: Map<Seq<char>, JsonView>,
    subjects: Seq<String>,
    properties: Option<Seq<String>>,
) -> Seq<JsonView>
    decreases subjects.len(),
{
    if subjects.len() == 0 {
        Seq::empty()
    } else {
        let prev = query_results(reg, subjects.drop_last(), properties);
        let s = subjects.last()@;
        if reg.contains_key(s) {
            prev.push(narrowed(reg[s], properties))
        } else {
            prev
        }
    }
}

/// The requested property names of a query, as a model.
pub open spec fn requested(properties: Option<Vec<String>>) -> Option<Seq<String>> {
    match properties {
        Some(v) => Some(v@),
        None => None,
    }
}

/// Endpoint for a load balancer to check the health of the service.
pub fn health() -> (r: Reply)
    ensures
        r@ == ReplyView::Empty,
{
    Reply::Empty
}

/// Endpoint to reread the registry: the files read from the registry
/// directory are loaded into the mappings. Returns the reply and how many
/// subjects were new.
pub fn reread_mappings(app_data: &mut AppMutState, files: Vec<MappingFile>) -> (r: (Reply, usize))
    ensures
        final(app_data).mappings@ == loaded(old(app_data).mappings@, parsed_files(files@)),
        final(app_data).registry_path == old(app_data).registry_path,
        r.0@ == ReplyView::Text("Reread contents"@),
        added_subjects(old(app_data).mappings@, final(app_data).mappings@).finite(),
        r.1 == added_subjects(old(app_data).mappings@, final(app_data).mappings@).len(),
{
    let added = read_mappings(&mut app_data.mappings, files);
    (Reply::Text(String::from_str("Reread contents")), added)
}

/// Endpoint to retrieve a single subject.
pub fn single_subject(mappings: &Registry, subject: &String) -> (r: Reply)
    ensures
        r@ == subject_reply(mappings@, subject@),
{
    match mappings.get(subject) {
        Some(doc) => Reply::Document(doc.duplicate()),
        None => Reply::NotFound,
    }
}

/// Endpoint for all properties of a subject. The live registry service
/// returns the whole subject here, and so does this one.
pub fn all_properties(mappings: &Registry, subject: &String) -> (r: Reply)
    ensures
        r@ == subject_reply(mappings@, subject@),
{
    match mappings.get(subject) {
        Some(doc) => Reply::Document(doc.duplicate()),
        None => Reply::NotFound,
    }
}

/// Endpoint for one property of a subject, at `/metadata/{subject}/properties/{property}`.
pub fn single_property_by_other_impl(mappings: &Registry, subject: &String, property: &String) -> (r: Reply)
    ensures
        r@ == property_reply(mappings@, subject@, property@),
{
    single_property(mappings, subject, property)
}

/// Endpoint for one property of a subject, at `/metadata/{subject}/property/{property}`.
pub fn single_property_by_spec(mappings: &Registry, subject: &String, property: &String) -> (r: Reply)
    ensures
        r@ == property_reply(mappings@, subject@, property@),
{
    single_property(mappings, subject, property)
}

/// One property of a subject, with the subject's document.
pub(crate) fn single_property(mappings: &Registry, subject: &String, property: &String) -> (r: Reply)
    ensures
        r@ == property_reply(mappings@, subject@, property@),
{
    let doc = match mappings.get(subject) {
        Some(doc) => doc,
        None => return Reply::NotFound,
    };
    let value = match doc.get(property) {
        Some(v) => v,
        None => return Reply::NotFound,
    };
    let members = vec![
        (String::from_str("subject"), doc.duplicate()),
        (property.clone(), Json::Other(value.clone())),
    ];
    proof {
        assert(members@.drop_last().drop_last() =~= Seq::<(String, Json)>::empty());
        assert(members@.drop_last().last() == members@[0]);
        assert(object_map(members@.drop_last().drop_last()) =~= Map::empty());
        assert(object_map(members@.drop_last()) =~= Map::<Seq<char>, JsonView>::empty().insert("subject"@, doc@));
        assert(object_map(members@) =~= object_map(members@.drop_last()).insert(property@, JsonView::Other(*value)));
    }
    Reply::Object(members)
}

/// The documents a batch query returns, in order.
pub(crate) fn select_subjects(
    mappings: &Registry,
    subjects: &Vec<String>,
    properties: &Option<Vec<String>>,
) -> (r: Vec<Json>)
    ensures
        documents(r@) == query_results(mappings@, subjects@, requested(*properties)),
{
    let mut out: Vec<Json> = Vec::new();
    let mut i: usize = 0;
    while i < subjects.len()
        invariant
            i <= subjects.len(),
            documents(out@) =~= query_results(mappings@, subjects@.take(i as int), requested(*properties)),
        decreases subjects.len() - i,
    {
        let ghost prev = out@;
        assert(subjects@.take(i + 1).drop_last() =~= subjects@.take(i as int));
        match mappings.get(&subjects[i]) {
            Some(doc) => {
                let d = match properties {
                    Some(names) => doc.narrow(names),
                    None => doc.duplicate(),
                };
                out.push(d);
                assert(documents(out@) =~= documents(prev).push(d@));
            },
            None => {},
        }
        i = i + 1;
    }
    assert(subjects@.take(subjects.len() as int) =~= subjects@);
    out
}

/// Endpoint for a batch query of several subjects at once. Where the query
/// lists properties, each subject is narrowed to those of them it has.
pub fn query(mappings: &Registry, payload: &Query) -> (r: Reply)
    ensures
        r@ == ReplyView::Subjects(query_results(mappings@, payload.subjects@, requested(payload.properties))),
{
    Reply::Subjects(select_subjects(mappings, &payload.subjects, &payload.properties))
}

} // verus!
