//! The first version of the endpoints, which `run` serves. It answers as
//! [`crate::server::api`] does; its `read_mappings` does not count what it
//! added.

use crate::server::api::{property_reply, query_results, requested, select_subjects, subject_reply, Reply, ReplyView};
use crate::server::registry::{loaded, parsed_files, MappingFile, Registry};
use crate::server::{api as server_api, registry};
use vstd::prelude::*;
use vstd::string::StringExecFns;

verus! {

/// The state the endpoints share: the registry and the directory it is read from.
pub struct AppMutState {
    pub mappings: Registry,
    pub registry_path: String,
}

/// A batch query: the subjects asked for, and, optionally, the only
/// properties to return of each.
pub struct Query {
    pub subjects: Vec<String>,
    pub properties: Option<Vec<String>>,
}

/// Endpoint for a load balancer to check the health of the service.
pub fn health() -> (r: Reply)
    ensures
        r@ == ReplyView::Empty,
{
    server_api::health()
}

/// Endpoint to reread the registry.
pub fn reread_mappings(app_data: &mut AppMutState, files: Vec<MappingFile>) -> (r: Reply)
    ensures
        final(app_data).mappings@ == loaded(old(app_data).mappings@, parsed_files(files@)),
        final(app_data).registry_path == old(app_data).registry_path,
        r@ == ReplyView::Text("Reread contents"@),
{
    read_mappings(&mut app_data.mappings, files);
    Reply::Text(String::from_str("Reread contents"))
}

/// Reads the registry files into `mappings`: every file that could be read
/// and parses as JSON is stored under its name.
pub fn read_mappings(mappings: &mut Registry, files: Vec<MappingFile>)
    ensures
        final(mappings)@ == loaded(old(mappings)@, parsed_files(files@)),
{
    let _ = registry::read_mappings(mappings, files);
}

/// Endpoint to retrieve a single subject.
pub fn single_subject(mappings: &Registry, subject: &String) -> (r: Reply)
    ensures
        r@ == subject_reply(mappings@, subject@),
{
    server_api::single_subject(mappings, subject)
}

/// Endpoint for all properties of a subject; like the live registry service
/// it returns the whole subject.
pub fn all_properties(mappings: &Registry, subject: &String) -> (r: Reply)
    ensures
        r@ == subject_reply(mappings@, subject@),
{
    server_api::all_properties(mappings, subject)
}

/// Endpoint for one property of a subject.
pub fn single_property(mappings: &Registry, subject: &String, property: &String) -> (r: Reply)
    ensures
        r@ == property_reply(mappings@, subject@, property@),
{
    server_api::single_property(mappings, subject, property)
}

/// Endpoint for a batch query of several subjects at once.
pub fn query(mappings: &Registry, payload: &Query) -> (r: Reply)
    ensures
        r@ == ReplyView::Subjects(query_results(mappings@, payload.subjects@, requested(payload.properties))),
{
    Reply::Subjects(select_subjects(mappings, &payload.subjects, &payload.properties))
}

} // verus!
