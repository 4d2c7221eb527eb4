//! The crate's own model of JSON values.
//!
//! The chat service replies with JSON text of unreliable shape, so the crate
//! keeps every parsed reply as a [`JsonValue`] tree of plain values and reasons
//! about it through its mathematical view, [`JsonSpec`]. Parsing the raw text
//! is delegated to `serde_json` behind a single trusted wrapper; everything
//! that reads or rewrites the tree afterwards is verified.

use vstd::prelude::*;
use crate::strutil::str_eq;

verus! {

/// The mathematical shape of a JSON value. Numbers are kept as the sequence of
/// characters of their literal rendering; the crate's logic never computes
/// with them.
pub enum JsonSpec {
    Null,
    Bool(bool),
    Number(Seq<char>),
    Str(Seq<char>),
    Array(Seq<JsonSpec>),
    Object(Seq<(Seq<char>, JsonSpec)>),
}

/// A JSON value as executable data. Object members are kept in the order the
/// parser hands them over; keys coming from a real parse are unique.
#[derive(Debug, PartialEq)]
pub enum JsonValue {
    Null,
    Bool(bool),
    Number(String),
    Str(String),
    Array(Vec<JsonValue>),
    Object(Vec<(String, JsonValue)>),
}

impl JsonValue {
    /// The mathematical shape of this value.
    pub open spec fn to_spec(self) -> JsonSpec
        decreases self,
        via Self::to_spec_decreases
    {
        match self {
            JsonValue::Null => JsonSpec::Null,
            JsonValue::Bool(b) => JsonSpec::Bool(b),
            JsonValue::Number(s) => JsonSpec::Number(s@),
            JsonValue::Str(s) => JsonSpec::Str(s@),
            JsonValue::Array(a) => JsonSpec::Array(arr_spec(a@)),
            JsonValue::Object(o) => JsonSpec::Object(members_spec(o@)),
        }
    }

    #[via_fn]
    proof fn to_spec_decreases(self) {
        match self {
            JsonValue::Array(a) => {
                assert(decreases_to!(self => a));
                assert(decreases_to!(a => a@));
            },
            JsonValue::Object(o) => {
                assert(decreases_to!(self => o));
                assert(decreases_to!(o => o@));
            },
            _ => {},
        }
    }
}

/// The elementwise shape of an array's items.
pub open spec fn arr_spec(s: Seq<JsonValue>) -> Seq<JsonSpec>
    decreases s,
    via arr_spec_decreases
{
    if s.len() == 0 {
        Seq::empty()
    } else {
        arr_spec(s.drop_last()).push(s.last().to_spec())
    }
}

#[via_fn]
proof fn arr_spec_decreases(s: Seq<JsonValue>) {
    if s.len() > 0 {
        assert(decreases_to!(s => s[s.len() - 1]));
        assert(decreases_to!(s => s.subrange(0, s.len() - 1)));
    }
}

/// The elementwise shape of an object's member list.
pub open spec fn members_spec(s: Seq<(String, JsonValue)>) -> Seq<(Seq<char>, JsonSpec)>
    decreases s,
    via members_spec_decreases
{
    if s.len() == 0 {
        Seq::empty()
    } else {
        members_spec(s.drop_last()).push((s.last().0@, s.last().1.to_spec()))
    }
}

#[via_fn]
proof fn members_spec_decreases(s: Seq<(String, JsonValue)>) {
    if s.len() > 0 {
        assert(decreases_to!(s => s[s.len() - 1]));
        assert(decreases_to!(s[s.len() - 1] => s[s.len() - 1].1));
        assert(decreases_to!(s => s.subrange(0, s.len() - 1)));
    }
}

/// `arr_spec` maps the item shapes one for one.
pub proof fn lemma_arr_spec(s: Seq<JsonValue>)
    ensures
        arr_spec(s).len() == s.len(),
        forall|i: int| 0 <= i < s.len() ==> arr_spec(s)[i] == s[i].to_spec(),
    decreases s.len(),
{
    if s.len() > 0 {
        lemma_arr_spec(s.drop_last());
    }
}

/// `members_spec` maps the members one for one.
pub proof fn lemma_members_spec(s: Seq<(String, JsonValue)>)
    ensures
        members_spec(s).len() == s.len(),
        forall|i: int|
            0 <= i < s.len() ==> members_spec(s)[i] == (s[i].0@, s[i].1.to_spec()),
    decreases s.len(),
{
    if s.len() > 0 {
        lemma_members_spec(s.drop_last());
    }
}

impl View for JsonValue {
    type V = JsonSpec;

    open spec fn view(&self) -> JsonSpec {
        self.to_spec()
    }
}

/// The view of an object's member list, as used by [`JsonValue::view`] for the
/// `Object` variant.
pub open spec fn obj_view(o: Vec<(String, JsonValue)>) -> Seq<(Seq<char>, JsonSpec)> {
    members_spec(o@)
}

/// The value of the first member of `obj` named `key`, if any.
pub open spec fn spec_lookup(obj: Seq<(Seq<char>, JsonSpec)>, key: Seq<char>) -> Option<JsonSpec>
    decreases obj.len(),
{
    if obj.len() == 0 {
        None
    } else if obj[0].0 == key {
        Some(obj[0].1)
    } else {
        spec_lookup(obj.drop_first(), key)
    }
}

/// The set of member names of an object.
pub open spec fn key_set(obj: Seq<(Seq<char>, JsonSpec)>) -> Set<Seq<char>> {
    Set::new(|k: Seq<char>| exists|i: int| 0 <= i < obj.len() && obj[i].0 == k)
}

proof fn lemma_lookup_skip(obj: Seq<(Seq<char>, JsonSpec)>, key: Seq<char>, i: int)
    requires
        0 <= i <= obj.len(),
        forall|j: int| 0 <= j < i ==> obj[j].0 != key,
    ensures
        spec_lookup(obj, key) == spec_lookup(obj.skip(i), key),
    decreases i,
{
    if i > 0 {
        assert(obj.skip(1) =~= obj.drop_first());
        lemma_lookup_skip(obj.drop_first(), key, i - 1);
        assert(obj.drop_first().skip(i - 1) =~= obj.skip(i));
    } else {
        assert(obj.skip(0) =~= obj);
    }
}

/// A member named `key` exists exactly when the lookup finds one.
pub proof fn lemma_lookup_key_set(obj: Seq<(Seq<char>, JsonSpec)>, key: Seq<char>)
    ensures
        spec_lookup(obj, key) is Some <==> key_set(obj).contains(key),
    decreases obj.len(),
{
    if obj.len() > 0 && obj[0].0 != key {
        lemma_lookup_key_set(obj.drop_first(), key);
        assert(key_set(obj.drop_first()).contains(key) ==> key_set(obj).contains(key)) by {
            if key_set(obj.drop_first()).contains(key) {
                let i = choose|i: int|
                    0 <= i < obj.drop_first().len() && obj.drop_first()[i].0 == key;
                assert(obj[i + 1].0 == key);
            }
        }
        assert(key_set(obj).contains(key) ==> key_set(obj.drop_first()).contains(key)) by {
            if key_set(obj).contains(key) {
                let i = choose|i: int| 0 <= i < obj.len() && obj[i].0 == key;
                assert(obj.drop_first()[i - 1].0 == key);
            }
        }
    }
}

/// A reference to the value of the first member of `obj` named `key`.
#[verifier::loop_isolation(false)]
pub fn get_field<'a>(obj: &'a Vec<(String, JsonValue)>, key: &str) -> (r: Option<&'a JsonValue>)
    ensures
        match r {
            Some(v) => spec_lookup(obj_view(*obj), key@) == Some(v@),
            None => spec_lookup(obj_view(*obj), key@) is None,
        },
{
    let ghost ov = obj_view(*obj);
    proof {
        lemma_members_spec(obj@);
    }
    let mut i: usize = 0;
    while i < obj.len()
        invariant
            ov == obj_view(*obj),
            0 <= i <= obj.len(),
            ov.len() == obj.len(),
            forall|j: int| 0 <= j < i ==> ov[j].0 != key@,
        decreases obj.len() - i,
    {
        if str_eq(obj[i].0.as_str(), key) {
            proof {
                lemma_lookup_skip(ov, key@, i as int);
                assert(ov.skip(i as int)[0] == ov[i as int]);
            }
            return Some(&obj[i].1);
        }
        i = i + 1;
    }
    proof {
        lemma_lookup_skip(ov, key@, i as int);
    }
    None
}

/// A copy of an object's member list whose view equals the original's.
#[verifier::loop_isolation(false)]
pub fn duplicate_object(o: &Vec<(String, JsonValue)>) -> (r: Vec<(String, JsonValue)>)
    ensures
        obj_view(r) == obj_view(*o),
    decreases *o,
{
    let mut out: Vec<(String, JsonValue)> = Vec::new();
    let mut i: usize = 0;
    while i < o.len()
        invariant
            0 <= i <= o.len(),
            out@.len() == i,
            forall|j: int| 0 <= j < i ==> out@[j].0@ == o@[j].0@ && out@[j].1@ == o@[j].1@,
        decreases o.len() - i,
    {
        let name = o[i].0.clone();
        proof {
            assert(decreases_to!(*o => o@));
            assert(decreases_to!(o@ => o@[i as int]));
            assert(decreases_to!(o@[i as int] => o@[i as int].1));
        }
        let value = o[i].1.duplicate();
        out.push((name, value));
        i = i + 1;
    }
    proof {
        lemma_members_spec(out@);
        lemma_members_spec(o@);
        assert(obj_view(out) =~= obj_view(*o));
    }
    out
}

#[verifier::external_type_specification]
#[verifier::external_body]
pub struct ExSerdeValue(serde_json::Value);

/// The JSON tree that `serde_json` parses a given text to, or `None` where it
/// reports an error. Parsing depends on the characters alone, so the result
/// can be named; nothing is assumed about it beyond [`parse_json`]'s contract.
pub uninterp spec fn json_of(s: Seq<char>) -> Option<JsonSpec>;

/// Rebuilds a `serde_json::Value` tree as the crate's own [`JsonValue`],
/// variant by variant; a number becomes the text `serde_json` renders it as.
#[verifier::external_body]
fn from_serde_value(v: serde_json::Value) -> JsonValue {
    match v {
        serde_json::Value::Null => JsonValue::Null,
        serde_json::Value::Bool(b) => JsonValue::Bool(b),
        serde_json::Value::Number(n) => JsonValue::Number(n.to_string()),
        serde_json::Value::String(s) => JsonValue::Str(s),
        serde_json::Value::Array(a) => JsonValue::Array(
            a.into_iter().map(from_serde_value).collect(),
        ),
        serde_json::Value::Object(m) => JsonValue::Object(
            m.into_iter().map(|(k, w)| (k, from_serde_value(w))).collect(),
        ),
    }
}

/// Relies on `serde_json::from_str::<serde_json::Value>`: it parses the text
/// as one JSON value, a pure function of the characters that [`json_of`]
/// names; on malformed input it returns an error, whose rendering is passed
/// along.
#[verifier::external_body]
pub fn parse_json(s: &str) -> (r: Result<JsonValue, String>)
    ensures
        match r {
            Ok(v) => json_of(s@) == Some(v@),
            Err(_) => json_of(s@) is None,
        },
{
    match serde_json::from_str::<serde_json::Value>(s) {
        Ok(v) => Ok(from_serde_value(v)),
        Err(e) => Err(e.to_string()),
    }
}

impl JsonValue {
    /// A copy of the tree whose view equals the original's.
    #[verifier::loop_isolation(false)]
    pub fn duplicate(&self) -> (r: JsonValue)
        ensures
            r@ == self@,
        decreases *self,
    {
        match self {
            JsonValue::Null => JsonValue::Null,
            JsonValue::Bool(b) => JsonValue::Bool(*b),
            JsonValue::Number(s) => JsonValue::Number(s.clone()),
            JsonValue::Str(s) => JsonValue::Str(s.clone()),
            JsonValue::Array(a) => {
                let mut out: Vec<JsonValue> = Vec::new();
                let mut i: usize = 0;
                while i < a.len()
                    invariant
                        0 <= i <= a.len(),
                        out@.len() == i,
                        forall|j: int| 0 <= j < i ==> out@[j]@ == a@[j]@,
                    decreases a.len() - i,
                {
                    proof {
                        assert(decreases_to!(*self => *a));
                        assert(decreases_to!(*a => a@));
                        assert(decreases_to!(a@ => a@[i as int]));
                    }
                    let value = a[i].duplicate();
                    out.push(value);
                    i = i + 1;
                }
                proof {
                    lemma_arr_spec(out@);
                    lemma_arr_spec(a@);
                    assert(arr_spec(out@) =~= arr_spec(a@));
                }
                JsonValue::Array(out)
            },
            JsonValue::Object(o) => {
                let out = duplicate_object(o);
                JsonValue::Object(out)
            },
        }
    }
}

} // verus!
