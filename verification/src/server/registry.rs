//! The registry: the metadata documents, each under the name of the file it
//! was read from.

use crate::json::{parse_json, parsed_json, Json, JsonView};
use vstd::hash_map::StringHashMap;
use vstd::prelude::*;

verus! {

/// The subjects the service knows: a map from subject to metadata document.
pub struct Registry {
    subjects: StringHashMap<Json>,
}

impl View for Registry {
    type V = Map<Seq<char>, JsonView>;

    closed spec fn view(&self) -> Map<Seq<char>, JsonView> {
        self.subjects@.map_values(|j: Json| j@)
    }
}

/// A file of the registry directory: its name without extension, which names
/// the subject, and its text, or `None` where it could not be read.
pub struct MappingFile {
    pub name: String,
    pub content: Option<String>,
}

/// The model of a list of parsed files: each subject with its document, or
/// `None` where the file did not give one.
pub open spec fn documents_view(docs: Seq<(String, Option<Json>)>) -> Seq<(Seq<char>, Option<JsonView>)> {
    docs.map_values(|d: (String, Option<Json>)| (d.0@, match d.1 {
        Some(j) => Some(j@),
        None => None,
    }))
}

/// The documents that a list of registry files gives: the parse of the text
/// of each file that could be read.
pub open spec fn parsed_files(files: Seq<MappingFile>) -> Seq<(Seq<char>, Option<JsonView>)> {
    files.map_values(|f: MappingFile| (f.name@, match f.content {
        Some(t) => parsed_json(t@),
        None => None,
    }))
}

/// The registry `m` after the documents `docs` were loaded in order: each
/// document is stored under its subject, replacing what was there; an entry
/// without a document changes nothing.
pub open spec fn loaded(m: Map<Seq<char>, JsonView>, docs: Seq<(Seq<char>, Option<JsonView>)>) -> Map<Seq<char>, JsonView>
    decreases docs.len(),
{
    if docs.len() == 0 {
        m
    } else {
        let prev = loaded(m, docs.drop_last());
        match docs.last().1 {
            Some(j) => prev.insert(docs.last().0, j),
            None => prev,
        }
    }
}

/// The subjects that loading added to a registry that did not hold them before.
pub open spec fn added_subjects(before: Map<Seq<char>, JsonView>, after: Map<Seq<char>, JsonView>) -> Set<Seq<char>> {
    after.dom().difference(before.dom())
}

impl Registry {
    /// An empty registry.
    pub fn new() -> (r: Registry)
        ensures
            r@ == Map::<Seq<char>, JsonView>::empty(),
    {
        let r = Registry { subjects: StringHashMap::new() };
        assert(r@ =~= Map::<Seq<char>, JsonView>::empty());
        r
    }

    /// The number of subjects.
    pub fn len(&self) -> (n: usize)
        ensures
            n == self@.len(),
    {
        proof {
            broadcast use vstd::hash_map::group_hash_map_axioms;
            assert(self@.dom() =~= self.subjects@.dom());
        }
        self.subjects.len()
    }

    /// The document of `subject`, if the registry holds it.
    pub fn get(&self, subject: &String) -> (r: Option<&Json>)
        ensures
            match r {
                Some(j) => self@.contains_key(subject@) && j@ == self@[subject@],
                None => !self@.contains_key(subject@),
            },
    {
        self.subjects.get(subject.as_str())
    }

    /// Stores `doc` under `subject`, replacing what was there.
    pub fn insert(&mut self, subject: String, doc: Json)
        ensures
            final(self)@ == old(self)@.insert(subject@, doc@),
    {
        self.subjects.insert(subject, doc);
        assert(self@ =~= old(self)@.insert(subject@, doc@));
    }

    /// Whether the registry holds `subject`.
    pub fn contains(&self, subject: &String) -> (b: bool)
        ensures
            b == self@.contains_key(subject@),
    {
        self.subjects.contains_key(subject.as_str())
    }

    /// Loads parsed documents in order, each under its subject; an entry
    /// without a document is skipped. Returns how many subjects were new.
    pub fn load(&mut self, docs: Vec<(String, Option<Json>)>) -> (added: usize)
        ensures
            final(self)@ == loaded(old(self)@, documents_view(docs@)),
            added_subjects(old(self)@, final(self)@).finite(),
            added == added_subjects(old(self)@, final(self)@).len(),
    {
        let ghost start = self@;
        let ghost dv = documents_view(docs@);
        let mut added: usize = 0;
        let mut docs = docs;
        let ghost all = docs@;
        let mut rest: Vec<(String, Option<Json>)> = Vec::new();
        // Take the documents in order by reversing the list once.
        while docs.len() > 0
            invariant
                rest@ =~= all.subrange(docs@.len() as int, all.len() as int).reverse(),
                docs@ =~= all.take(docs@.len() as int),
                docs@.len() <= all.len(),
            decreases docs.len(),
        {
            let d = docs.pop().unwrap();
            rest.push(d);
        }
        assert(rest@ =~= all.reverse());
        assert(all.len() == rest.len());
        assert(added_subjects(start, self@) =~= Set::<Seq<char>>::empty());
        let mut i: usize = 0;
        while rest.len() > 0
            invariant
                i + rest@.len() == all.len(),
                all.len() <= usize::MAX,
                rest@ =~= all.subrange(i as int, all.len() as int).reverse(),
                dv == documents_view(all),
                self@ == loaded(start, dv.take(i as int)),
                start.dom().subset_of(self@.dom()),
                added_subjects(start, self@).finite(),
                added == added_subjects(start, self@).len(),
                added <= i,
            decreases rest.len(),
        {
            let ghost before = self@;
            let d = rest.pop().unwrap();
            assert(d == all[i as int]);
            assert(dv.take(i + 1).drop_last() =~= dv.take(i as int));
            let (subject, doc) = d;
            match doc {
                Some(j) => {
                    let fresh = !self.contains(&subject);
                    self.insert(subject, j);
                    if fresh {
                        assert(added_subjects(start, self@) =~= added_subjects(start, before).insert(subject@));
                        added = added + 1;
                    } else {
                        assert(added_subjects(start, self@) =~= added_subjects(start, before));
                    }
                },
                None => {},
            }
            i = i + 1;
        }
        assert(dv.take(all.len() as int) =~= dv);
        added
    }
}

/// Reads the registry files into `mappings`: the text of every file that
/// could be read is parsed as JSON, and each document is stored under the
/// file's name; files that were not read or are not JSON are skipped.
/// Returns how many subjects were new.
pub fn read_mappings(mappings: &mut Registry, files: Vec<MappingFile>) -> (added: usize)
    ensures
        final(mappings)@ == loaded(old(mappings)@, parsed_files(files@)),
        added_subjects(old(mappings)@, final(mappings)@).finite(),
        added == added_subjects(old(mappings)@, final(mappings)@).len(),
{
    let mut docs: Vec<(String, Option<Json>)> = Vec::new();
    let mut i: usize = 0;
    while i < files.len()
        invariant
            i <= files.len(),
            documents_view(docs@) =~= parsed_files(files@.take(i as int)),
        decreases files.len() - i,
    {
        let doc = match &files[i].content {
            Some(text) => parse_json(text.as_str()),
            None => None,
        };
        let ghost prev = docs@;
        docs.push((files[i].name.clone(), doc));
        proof {
            assert(files@.take(i + 1).drop_last() =~= files@.take(i as int));
            assert(docs@.drop_last() =~= prev);
            assert(documents_view(docs@).last() == parsed_files(files@.take(i + 1)).last());
            assert(documents_view(docs@) =~= documents_view(prev).push(documents_view(docs@).last()));
            assert(parsed_files(files@.take(i + 1)) =~= parsed_files(files@.take(i as int)).push(
                parsed_files(files@.take(i + 1)).last(),
            ));
        }
        i = i + 1;
    }
    assert(files@.take(files.len() as int) =~= files@);
    mappings.load(docs)
}

} // verus!
