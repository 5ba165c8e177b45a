//! JSON documents as the library sees them: `serde_json` parses the text, and
//! the tree it returns is handed over as a [`Json`] value whose view is a
//! [`JsonValue`].
use vstd::prelude::*;

verus! {

/// A parsed JSON value. Numbers keep the text that `serde_json` prints for
/// them; object members keep the order in which `serde_json` hands them out.
pub enum Json {
    Null,
    Bool(bool),
    Number(String),
    Str(String),
    Array(Vec<Json>),
    Object(Vec<(String, Json)>),
}

/// The mathematical value of a [`Json`].
pub enum JsonValue {
    Null,
    Bool(bool),
    Number(Seq<char>),
    Str(Seq<char>),
    Array(Seq<JsonValue>),
    Object(Seq<(Seq<char>, JsonValue)>),
}

impl Json {
    pub open spec fn value(&self) -> JsonValue
        decreases self,
    {
        match self {
            Json::Null => JsonValue::Null,
            Json::Bool(b) => JsonValue::Bool(*b),
            Json::Number(n) => JsonValue::Number(n@),
            Json::Str(s) => JsonValue::Str(s@),
            Json::Array(items) => JsonValue::Array(
                Seq::new(
                    items.len() as nat,
                    |i: int|
                        if 0 <= i < items.len() {
                            items[i].value()
                        } else {
                            JsonValue::Null
                        },
                ),
            ),
            Json::Object(members) => JsonValue::Object(
                Seq::new(
                    members.len() as nat,
                    |i: int|
                        if 0 <= i < members.len() {
                            (members[i].0@, members[i].1.value())
                        } else {
                            (Seq::empty(), JsonValue::Null)
                        },
                ),
            ),
        }
    }
}

/// `serde_json`'s own tree, as its parser hands it out.
#[verifier::external_type_specification]
#[verifier::external_body]
pub struct ExSerdeJsonValue(serde_json::Value);

/// The JSON document that `text` holds, if it holds exactly one.
pub uninterp spec fn json_document(text: Seq<char>) -> Option<JsonValue>;

/// What a `serde_json::Value` holds.
pub uninterp spec fn value_tree(v: serde_json::Value) -> JsonValue;

/// Relies on `serde_json::from_str` into a `serde_json::Value`: whether it
/// succeeds, and the tree it yields, depend on the text alone.
#[verifier::external_body]
fn serde_parse(text: &str) -> (r: Option<serde_json::Value>)
    ensures
        match r {
            Some(v) => json_document(text@) == Some(value_tree(v)),
            None => json_document(text@) is None,
        },
{
    serde_json::from_str(text).ok()
}

/// Moves a `serde_json::Value` into a [`Json`], variant for variant; a
/// number becomes the text that its `Display` (from `serde_json`) prints.
#[verifier::external_body]
fn json_tree(v: serde_json::Value) -> (r: Json)
    ensures
        r.value() == value_tree(v),
{
    match v {
        serde_json::Value::Null => Json::Null,
        serde_json::Value::Bool(b) => Json::Bool(b),
        serde_json::Value::Number(n) => Json::Number(n.to_string()),
        serde_json::Value::String(s) => Json::Str(s),
        serde_json::Value::Array(a) => Json::Array(a.into_iter().map(json_tree).collect()),
        serde_json::Value::Object(m) => Json::Object(m.into_iter().map(|(k, x)| (k, json_tree(x))).collect()),
    }
}

/// Parses `text` as one JSON document.
pub fn parse_json(text: &str) -> (r: Option<Json>)
    ensures
        (match r {
            Some(j) => Some(j.value()),
            None => None,
        }) == json_document(text@),
{
    match serde_parse(text) {
        Some(v) => Some(json_tree(v)),
        None => None,
    }
}

/// The value of the first member named `key`.
pub open spec fn member(members: Seq<(Seq<char>, JsonValue)>, key: Seq<char>) -> Option<JsonValue>
    decreases members.len(),
{
    if members.len() == 0 {
        None
    } else if members[0].0 == key {
        Some(members[0].1)
    } else {
        member(members.drop_first(), key)
    }
}

proof fn lemma_member_skip(members: Seq<(Seq<char>, JsonValue)>, key: Seq<char>, i: int)
    requires
        0 <= i <= members.len(),
        forall|k: int| 0 <= k < i ==> members[k].0 != key,
    ensures
        member(members, key) == member(members.subrange(i, members.len() as int), key),
    decreases i,
{
    if i > 0 {
        assert forall|k: int| 0 <= k < i - 1 implies members.drop_first()[k].0 != key by {
            assert(members[k + 1].0 != key);
        }
        lemma_member_skip(members.drop_first(), key, i - 1);
        assert(members.drop_first().subrange(i - 1, members.len() - 1) =~= members.subrange(
            i,
            members.len() as int,
        ));
    } else {
        assert(members.subrange(0, members.len() as int) =~= members);
    }
}

/// The first member of `j` named `key`, when `j` is an object.
pub fn find_member<'a>(j: &'a Json, key: &String) -> (r: Option<&'a Json>)
    ensures
        match j.value() {
            JsonValue::Object(members) => match r {
                Some(x) => member(members, key@) == Some(x.value()),
                None => member(members, key@) is None,
            },
            _ => r is None,
        },
{
    match j {
        Json::Object(members) => {
            let ghost ms = j.value()->Object_0;
            assert(ms.len() == members.len());
            let mut i: usize = 0;
            while i < members.len()
                invariant
                    i <= members.len(),
                    ms == j.value()->Object_0,
                    j.value() is Object,
                    *j == Json::Object(*members),
                    forall|k: int| 0 <= k < i ==> ms[k].0 != key@,
                decreases members.len() - i,
            {
                assert(ms[i as int] == (members@[i as int].0@, members@[i as int].1.value()));
                if members[i].0 == *key {
                    proof {
                        lemma_member_skip(ms, key@, i as int);
                        assert(ms.subrange(i as int, ms.len() as int)[0] == ms[i as int]);
                    }
                    return Some(&members[i].1);
                }
                i += 1;
            }
            proof {
                lemma_member_skip(ms, key@, i as int);
            }
            None
        },
        _ => None,
    }
}

} // verus!
