//! The metadata documents the service holds and hands out.
//!
//! A registry file holds one JSON document. The service reads the members of
//! a document that is a JSON object, and carries every other JSON value
//! through as it was parsed.

use serde_json::Value;
use vstd::prelude::*;

verus! {

#[verifier::external_type_specification]
#[verifier::external_body]
pub struct ExValue(Value);

/// A JSON document: an object given by its members, or any other JSON value.
///
/// When a member name occurs more than once, the later member is the one that
/// counts, as when the members are inserted into a JSON map one by one.
#[derive(Debug, Clone, PartialEq)]
pub enum Json {
    /// A JSON object, as its list of members.
    Object(Vec<(String, Value)>),
    /// Any other JSON value.
    Other(Value),
}

/// The mathematical model of a [`Json`] document.
pub enum JsonView {
    Object(Map<Seq<char>, Value>),
    Other(Value),
}

impl JsonView {
    /// The members of the document: those listed for an object, and for any
    /// other value those that `serde_json::Value::get` finds in it.
    pub open spec fn members(self) -> Map<Seq<char>, Value> {
        match self {
            JsonView::Object(m) => m,
            JsonView::Other(v) => value_members(v),
        }
    }
}

/// The map that a list of members denotes: a later member overrides an
/// earlier one with the same name.
pub open spec fn members_map(s: Seq<(String, Value)>) -> Map<Seq<char>, Value>
    decreases s.len(),
{
    if s.len() == 0 {
        Map::empty()
    } else {
        members_map(s.drop_last()).insert(s.last().0@, s.last().1)
    }
}

impl View for Json {
    type V = JsonView;

    open spec fn view(&self) -> JsonView {
        match self {
            Json::Object(members) => JsonView::Object(members_map(members@)),
            Json::Other(v) => JsonView::Other(*v),
        }
    }
}

/// What `serde_json::Value::get` finds under `key` in `v`: the member of that
/// name where `v` is an object that has one.
pub uninterp spec fn value_member(v: Value, key: Seq<char>) -> Option<Value>;

/// The members that `serde_json::Value::get` finds in a value.
pub open spec fn value_members(v: Value) -> Map<Seq<char>, Value> {
    Map::new(|k: Seq<char>| value_member(v, k) is Some, |k: Seq<char>| value_member(v, k)->Some_0)
}

/// `serde_json::Value::get` with a member name.
///
/// Trusted: the result is the value that the name `value_member` gives for
/// the value and the key. Nothing is stated of which values are objects.
#[verifier::external_body]
fn value_get<'a>(v: &'a Value, key: &str) -> (r: Option<&'a Value>)
    ensures
        match r {
            Some(x) => value_member(*v, key@) == Some(*x),
            None => value_member(*v, key@) is None,
        },
{
    v.get(key)
}

/// The set of names that a list of strings holds.
pub open spec fn name_set(names: Seq<String>) -> Set<Seq<char>> {
    Set::new(|k: Seq<char>| exists|j: int| 0 <= j < names.len() && #[trigger] names[j]@ == k)
}

/// The document that `serde_json` parses from a text, or `None` where the
/// text is not JSON.
pub uninterp spec fn parsed_json(text: Seq<char>) -> Option<JsonView>;

/// Parses `text` with `serde_json::from_str` into a `serde_json::Value`, and
/// splits an object into its members (`serde_json::Map::into_iter`).
///
/// Trusted: the result is the document that the name `parsed_json` gives for
/// the text, and `None` exactly where `serde_json` refuses the text. Nothing
/// is stated of which texts `serde_json` accepts.
#[verifier::external_body]
pub(crate) fn parse_json(text: &str) -> (doc: Option<Json>)
    ensures
        match doc {
            Some(d) => parsed_json(text@) == Some(d@),
            None => parsed_json(text@) is None,
        },
{
    match serde_json::from_str::<Value>(text) {
        Ok(Value::Object(map)) => Some(Json::Object(map.into_iter().collect())),
        Ok(other) => Some(Json::Other(other)),
        Err(_) => None,
    }
}

/// `<serde_json::Value as Clone>::clone` (derived). Trusted: the copy equals
/// the original.
pub assume_specification[ <Value as Clone>::clone ](v: &Value) -> (c: Value)
    ensures
        c == *v,
;

/// The members of the first `n` entries, one more step.
proof fn lemma_members_map_step(s: Seq<(String, Value)>, n: int)
    requires
        0 <= n < s.len(),
    ensures
        members_map(s.take(n + 1)) == members_map(s.take(n)).insert(s[n].0@, s[n].1),
{
    assert(s.take(n + 1).drop_last() =~= s.take(n));
}

impl Json {
    /// The value of the member called `key`, as `serde_json::Value::get` gives it:
    /// the last member of that name of a listed object, and for any other
    /// value what `serde_json::Value::get` finds.
    pub fn get(&self, key: &String) -> (r: Option<&Value>)
        ensures
            match r {
                Some(v) => self@.members().contains_key(key@) && *v == self@.members()[key@],
                None => !self@.members().contains_key(key@),
            },
    {
        match self {
            Json::Other(v) => value_get(v, key.as_str()),
            Json::Object(members) => {
                let mut found: Option<usize> = None;
                let mut i: usize = 0;
                while i < members.len()
                    invariant
                        i <= members.len(),
                        match found {
                            Some(j) => j < i && members_map(members@.take(i as int)).contains_key(key@)
                                && members_map(members@.take(i as int))[key@] == members@[j as int].1,
                            None => !members_map(members@.take(i as int)).contains_key(key@),
                        },
                    decreases members.len() - i,
                {
                    proof {
                        lemma_members_map_step(members@, i as int);
                    }
                    if members[i].0 == *key {
                        found = Some(i);
                    }
                    i = i + 1;
                }
                assert(members@.take(members.len() as int) =~= members@);
                match found {
                    Some(j) => Some(&members[j].1),
                    None => None,
                }
            },
        }
    }

    /// A copy of the document.
    pub fn duplicate(&self) -> (c: Json)
        ensures
            c@ == self@,
    {
        match self {
            Json::Other(v) => Json::Other(v.clone()),
            Json::Object(members) => {
                let mut out: Vec<(String, Value)> = Vec::new();
                let mut i: usize = 0;
                while i < members.len()
                    invariant
                        i <= members.len(),
                        out@ =~= members@.take(i as int),
                    decreases members.len() - i,
                {
                    let k = members[i].0.clone();
                    let v = members[i].1.clone();
                    out.push((k, v));
                    i = i + 1;
                }
                assert(members@.take(members.len() as int) =~= members@);
                Json::Object(out)
            },
        }
    }

    /// The object of those members of the document whose names are listed in
    /// `names`; a value without members gives `{}`.
    pub fn narrow(&self, names: &Vec<String>) -> (n: Json)
        ensures
            n@ == JsonView::Object(self@.members().restrict(name_set(names@))),
    {
        let mut out: Vec<(String, Value)> = Vec::new();
        let mut i: usize = 0;
        while i < names.len()
            invariant
                i <= names.len(),
                members_map(out@) =~= self@.members().restrict(name_set(names@.take(i as int))),
            decreases names.len() - i,
        {
            let ghost before = name_set(names@.take(i as int));
            let ghost after = name_set(names@.take(i + 1));
            assert forall|k: Seq<char>| after.contains(k) <==> (before.contains(k) || k == names@[i as int]@) by {
                if after.contains(k) {
                    let j = choose|j: int| 0 <= j < i + 1 && #[trigger] names@.take(i + 1)[j]@ == k;
                    if j < i {
                        assert(names@.take(i as int)[j]@ == k);
                    }
                }
                if before.contains(k) {
                    let j = choose|j: int| 0 <= j < i && #[trigger] names@.take(i as int)[j]@ == k;
                    assert(names@.take(i + 1)[j]@ == k);
                }
                if k == names@[i as int]@ {
                    assert(names@.take(i + 1)[i as int]@ == k);
                }
            }
            let ghost prev = out@;
            match self.get(&names[i]) {
                Some(v) => {
                    let k = names[i].clone();
                    let c = v.clone();
                    out.push((k, c));
                    assert(out@.drop_last() =~= prev);
                },
                None => {},
            }
            assert(members_map(out@) =~= self@.members().restrict(after));
            i = i + 1;
        }
        assert(names@.take(names.len() as int) =~= names@);
        Json::Object(out)
    }
}

} // verus!
