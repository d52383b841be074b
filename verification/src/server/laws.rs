//! Properties of the service that span its endpoints and its reloads.

use crate::json::{name_set, parsed_json, JsonView};
use crate::server::api::{narrowed, property_reply, query_results, subject_reply, ReplyView};
use crate::server::registry::{added_subjects, loaded, parsed_files, MappingFile};
use vstd::prelude::*;

verus! {

/// Loading documents into a registry overrides it with the documents alone:
/// the registry afterwards is the registry before, with each subject that
/// the documents name mapped to its last document.
pub proof fn lemma_loaded_overrides(m: Map<Seq<char>, JsonView>, docs: Seq<(Seq<char>, Option<JsonView>)>)
    ensures
        loaded(m, docs) == m.union_prefer_right(loaded(Map::empty(), docs)),
    decreases docs.len(),
{
    if docs.len() > 0 {
        lemma_loaded_overrides(m, docs.drop_last());
    }
    assert(loaded(m, docs) =~= m.union_prefer_right(loaded(Map::empty(), docs)));
}

/// Reading the registry never loses a subject, and a subject that no file
/// gives a document for keeps its document.
pub proof fn law_reread_keeps_subjects(
    m: Map<Seq<char>, JsonView>,
    docs: Seq<(Seq<char>, Option<JsonView>)>,
    subject: Seq<char>,
)
    ensures
        m.dom().subset_of(loaded(m, docs).dom()),
        (forall|i: int| 0 <= i < docs.len() ==> docs[i].0 != subject || docs[i].1 is None)
            ==> loaded(m, docs).contains_key(subject) == m.contains_key(subject)
            && (m.contains_key(subject) ==> loaded(m, docs)[subject] == m[subject]),
    decreases docs.len(),
{
    lemma_loaded_overrides(m, docs);
    if docs.len() > 0 {
        law_reread_keeps_subjects(m, docs.drop_last(), subject);
        assert(forall|i: int| 0 <= i < docs.len() - 1 ==> docs.drop_last()[i] == docs[i]);
    }
}

/// A subject is served with the document of the last file that gave one for
/// it (what a read of the registry gives back of a file).
pub proof fn law_subject_serves_last_document(
    m: Map<Seq<char>, JsonView>,
    docs: Seq<(Seq<char>, Option<JsonView>)>,
    i: int,
    subject: Seq<char>,
    doc: JsonView,
)
    requires
        0 <= i < docs.len(),
        docs[i] == (subject, Some(doc)),
        forall|l: int| i < l < docs.len() ==> docs[l].0 != subject || docs[l].1 is None,
    ensures
        subject_reply(loaded(m, docs), subject) == ReplyView::Document(doc),
    decreases docs.len(),
{
    if i < docs.len() - 1 {
        law_subject_serves_last_document(m, docs.drop_last(), i, subject, doc);
    }
}

/// Reading an unchanged registry again changes nothing: loading the same
/// documents twice gives the registry that loading them once gives, and the
/// second load adds no subject.
pub proof fn law_reread_is_idempotent(m: Map<Seq<char>, JsonView>, docs: Seq<(Seq<char>, Option<JsonView>)>)
    ensures
        loaded(loaded(m, docs), docs) == loaded(m, docs),
        added_subjects(loaded(m, docs), loaded(loaded(m, docs), docs)) == Set::<Seq<char>>::empty(),
{
    lemma_loaded_overrides(m, docs);
    lemma_loaded_overrides(loaded(m, docs), docs);
    assert(loaded(loaded(m, docs), docs) =~= loaded(m, docs));
    assert(added_subjects(loaded(m, docs), loaded(m, docs)) =~= Set::<Seq<char>>::empty());
}

/// The property endpoint answers `{"subject": <document>, <property>: <value>}`;
/// where the property is itself called `subject`, its value takes the place
/// of the document, as the later key of a JSON object does.
pub proof fn law_property_named_subject_overrides(reg: Map<Seq<char>, JsonView>, subject: Seq<char>)
    requires
        reg.contains_key(subject),
        reg[subject].members().contains_key("subject"@),
    ensures
        property_reply(reg, subject, "subject"@) == ReplyView::Object(
            Map::<Seq<char>, JsonView>::empty().insert("subject"@, JsonView::Other(reg[subject].members()["subject"@])),
        ),
{
    let m = Map::<Seq<char>, JsonView>::empty().insert("subject"@, reg[subject]).insert(
        "subject"@,
        JsonView::Other(reg[subject].members()["subject"@]),
    );
    assert(m =~= Map::<Seq<char>, JsonView>::empty().insert(
        "subject"@,
        JsonView::Other(reg[subject].members()["subject"@]),
    ));
}

/// A batch query returns no more documents than it asks for, and where the
/// registry holds every requested subject, it returns one for each, in the
/// order asked, narrowed as requested.
pub proof fn law_query_follows_request(
    reg: Map<Seq<char>, JsonView>,
    subjects: Seq<String>,
    properties: Option<Seq<String>>,
)
    ensures
        query_results(reg, subjects, properties).len() <= subjects.len(),
        (forall|i: int| 0 <= i < subjects.len() ==> reg.contains_key(#[trigger] subjects[i]@)) ==> {
            &&& query_results(reg, subjects, properties).len() == subjects.len()
            &&& forall|i: int| 0 <= i < subjects.len() ==> #[trigger] query_results(reg, subjects, properties)[i]
                == narrowed(reg[subjects[i]@], properties)
        },
    decreases subjects.len(),
{
    if subjects.len() > 0 {
        law_query_follows_request(reg, subjects.drop_last(), properties);
        if forall|i: int| 0 <= i < subjects.len() ==> reg.contains_key(#[trigger] subjects[i]@) {
            assert(forall|i: int| 0 <= i < subjects.len() - 1 ==> subjects.drop_last()[i] == subjects[i]);
            assert(reg.contains_key(subjects[subjects.len() - 1]@));
        }
    }
}

/// The batch query and the property endpoint agree: asking the query for
/// one subject and one property gives the object of that property alone,
/// holding the value that the property endpoint gives; where the subject
/// lacks the property, the query gives `{}` and the endpoint `404`.
pub proof fn law_query_agrees_with_property(reg: Map<Seq<char>, JsonView>, subject: String, property: String)
    requires
        reg.contains_key(subject@),
    ensures
        reg[subject@].members().contains_key(property@) ==> {
            &&& query_results(reg, seq![subject], Some(seq![property])) == seq![
                JsonView::Object(Map::<Seq<char>, serde_json::Value>::empty().insert(property@, reg[subject@].members()[property@]))
            ]
            &&& property_reply(reg, subject@, property@) is Object
        },
        !reg[subject@].members().contains_key(property@) ==> {
            &&& query_results(reg, seq![subject], Some(seq![property])) == seq![JsonView::Object(Map::empty())]
            &&& property_reply(reg, subject@, property@) == ReplyView::NotFound
        },
{
    let names = seq![property];
    assert(seq![subject].drop_last() =~= Seq::<String>::empty());
    assert(names[0]@ == property@);
    assert(name_set(names) =~= set![property@]);
    let m = reg[subject@].members();
    if m.contains_key(property@) {
        assert(m.restrict(set![property@]) =~= Map::<Seq<char>, serde_json::Value>::empty().insert(property@, m[property@]));
    } else {
        assert(m.restrict(set![property@]) =~= Map::empty());
    }
    assert(seq![subject].last() == subject);
    assert(query_results(reg, Seq::<String>::empty(), Some(names)) =~= Seq::<JsonView>::empty());
    assert(query_results(reg, seq![subject], Some(names)) =~= seq![narrowed(reg[subject@], Some(names))]);
}

/// A registry file is read as a whole: the document loaded for a readable
/// file is serde_json's parse of its entire text, under the file's name, and
/// a file that could not be read gives no document.
pub proof fn law_file_parsed_whole(files: Seq<MappingFile>, i: int)
    requires
        0 <= i < files.len(),
    ensures
        parsed_files(files).len() == files.len(),
        parsed_files(files)[i].0 == files[i].name@,
        files[i].content matches Some(t) ==> parsed_files(files)[i].1 == parsed_json(t@),
        files[i].content is None ==> parsed_files(files)[i].1 is None,
{
}

/// Reading the registry serves each subject with serde_json's parse of the
/// whole text of the last file of that name whose text parses.
pub proof fn law_read_serves_whole_file(
    m: Map<Seq<char>, JsonView>,
    files: Seq<MappingFile>,
    i: int,
    text: String,
    doc: JsonView,
)
    requires
        0 <= i < files.len(),
        files[i].content == Some(text),
        parsed_json(text@) == Some(doc),
        forall|l: int|
            i < l < files.len() && files[l].name@ == files[i].name@ ==> (files[l].content matches Some(t)
                ==> parsed_json(t@) is None),
    ensures
        subject_reply(loaded(m, parsed_files(files)), files[i].name@) == ReplyView::Document(doc),
{
    let docs = parsed_files(files);
    assert forall|l: int| i < l < docs.len() implies docs[l].0 != files[i].name@ || docs[l].1 is None by {
        law_file_parsed_whole(files, l);
    }
    law_subject_serves_last_document(m, docs, i, files[i].name@, doc);
}

/// Reading a single file whose whole text parses into a registry that does
/// not hold its name adds exactly that subject, with that document.
pub proof fn law_single_file_adds_its_subject(m: Map<Seq<char>, JsonView>, file: MappingFile, text: String, doc: JsonView)
    requires
        file.content == Some(text),
        parsed_json(text@) == Some(doc),
        !m.contains_key(file.name@),
    ensures
        added_subjects(m, loaded(m, parsed_files(seq![file]))) == set![file.name@],
        loaded(m, parsed_files(seq![file])) == m.insert(file.name@, doc),
{
    let docs = parsed_files(seq![file]);
    law_file_parsed_whole(seq![file], 0);
    assert(docs.drop_last() =~= Seq::<(Seq<char>, Option<JsonView>)>::empty());
    assert(loaded(m, docs.drop_last()) == m);
    assert(added_subjects(m, m.insert(file.name@, doc)) =~= set![file.name@]);
}

/// Narrowing to a list of property names keeps every listed property that the
/// document has, with its value, and nothing else; without a list the
/// document is returned whole.
pub proof fn law_narrowing_keeps_requested(doc: JsonView, names: Seq<String>, key: Seq<char>)
    ensures
        narrowed(doc, None) == doc,
        narrowed(doc, Some(names)).members().contains_key(key) <==> (doc.members().contains_key(key)
            && exists|j: int| 0 <= j < names.len() && #[trigger] names[j]@ == key),
        narrowed(doc, Some(names)).members().contains_key(key) ==> narrowed(doc, Some(names)).members()[key]
            == doc.members()[key],
        forall|j: int|
            0 <= j < names.len() && doc.members().contains_key(#[trigger] names[j]@) ==> narrowed(
                doc,
                Some(names),
            ).members()[names[j]@] == doc.members()[names[j]@],
{
    assert forall|j: int| 0 <= j < names.len() && doc.members().contains_key(#[trigger] names[j]@) implies
        name_set(names).contains(names[j]@) by {}
}

/// A batch query answers each requested subject on its own: the answer for
/// one list of subjects followed by another is the answer for the first
/// followed by the answer for the second, whatever subjects are missing.
pub proof fn law_query_concatenates(
    reg: Map<Seq<char>, JsonView>,
    first: Seq<String>,
    second: Seq<String>,
    properties: Option<Seq<String>>,
)
    ensures
        query_results(reg, first + second, properties) == query_results(reg, first, properties)
            + query_results(reg, second, properties),
    decreases second.len(),
{
    if second.len() == 0 {
        assert(first + second =~= first);
        assert(query_results(reg, first, properties) + query_results(reg, second, properties)
            =~= query_results(reg, first, properties));
    } else {
        law_query_concatenates(reg, first, second.drop_last(), properties);
        assert((first + second).drop_last() =~= first + second.drop_last());
        assert((first + second).last() == second.last());
        let a = query_results(reg, first, properties);
        let b = query_results(reg, second.drop_last(), properties);
        if reg.contains_key(second.last()@) {
            let x = narrowed(reg[second.last()@], properties);
            assert((a + b).push(x) =~= a + b.push(x));
        }
    }
}

/// The answer for one requested subject: its document, narrowed as asked,
/// where the registry holds it, and nothing where it does not. With
/// `law_query_concatenates`, a requested subject the registry holds is
/// returned whatever other requested subjects are missing.
pub proof fn law_query_single_subject(reg: Map<Seq<char>, JsonView>, subject: String, properties: Option<Seq<String>>)
    ensures
        reg.contains_key(subject@) ==> query_results(reg, seq![subject], properties) == seq![
            narrowed(reg[subject@], properties)
        ],
        !reg.contains_key(subject@) ==> query_results(reg, seq![subject], properties) == Seq::<JsonView>::empty(),
{
    assert(seq![subject].drop_last() =~= Seq::<String>::empty());
    assert(seq![subject].last() == subject);
    assert(query_results(reg, Seq::<String>::empty(), properties) =~= Seq::<JsonView>::empty());
    if reg.contains_key(subject@) {
        assert(query_results(reg, seq![subject], properties) =~= seq![narrowed(reg[subject@], properties)]);
    }
}

/// Appending a requested subject that the registry holds appends its
/// narrowed document to the answer, and appending one it does not hold
/// changes nothing, whatever the earlier subjects are.
pub proof fn law_query_push(
    reg: Map<Seq<char>, JsonView>,
    subjects: Seq<String>,
    subject: String,
    properties: Option<Seq<String>>,
)
    ensures
        reg.contains_key(subject@) ==> query_results(reg, subjects.push(subject), properties) == query_results(
            reg,
            subjects,
            properties,
        ).push(narrowed(reg[subject@], properties)),
        !reg.contains_key(subject@) ==> query_results(reg, subjects.push(subject), properties) == query_results(
            reg,
            subjects,
            properties,
        ),
{
    law_query_concatenates(reg, subjects, seq![subject], properties);
    law_query_single_subject(reg, subject, properties);
    assert(subjects + seq![subject] =~= subjects.push(subject));
    assert(query_results(reg, subjects, properties) + Seq::<JsonView>::empty() =~= query_results(reg, subjects, properties));
    if reg.contains_key(subject@) {
        assert(query_results(reg, subjects, properties) + seq![narrowed(reg[subject@], properties)]
            =~= query_results(reg, subjects, properties).push(narrowed(reg[subject@], properties)));
    }
}

} // verus!
