//! The JSON values that the Calendar API sends and receives, held as plain
//! values so that the event logic can be verified on them.

use vstd::prelude::*;

verus! {

/// A JSON value. A number is held by the `i64` that it equals, or `None`
/// when it is not an integer that fits in an `i64` (a fraction, or a large
/// unsigned integer).
#[derive(Debug, PartialEq)]
pub enum JsonValue {
    Null,
    Bool(bool),
    Number(Option<i64>),
    Str(String),
    Array(Vec<JsonValue>),
    Object(Vec<(String, JsonValue)>),
}

/// A JSON value as mathematical data.
pub enum Json {
    Null,
    Bool(bool),
    Number(Option<i64>),
    Str(Seq<char>),
    Array(Seq<Json>),
    Object(Seq<(Seq<char>, Json)>),
}

impl JsonValue {
    /// The value as mathematical data.
    pub open spec fn view(self) -> Json
        decreases self,
    {
        match self {
            JsonValue::Null => Json::Null,
            JsonValue::Bool(b) => Json::Bool(b),
            JsonValue::Number(n) => Json::Number(n),
            JsonValue::Str(s) => Json::Str(s@),
            JsonValue::Array(v) => Json::Array(JsonValue::items_view(v@)),
            JsonValue::Object(f) => Json::Object(JsonValue::fields_view(f@)),
        }
    }

    /// The items of an array as mathematical data.
    pub open spec fn items_view(s: Seq<JsonValue>) -> Seq<Json>
        decreases s,
    {
        if s.len() == 0 {
            Seq::empty()
        } else {
            JsonValue::items_view(s.drop_last()).push(s.last().view())
        }
    }

    /// The members of an object as mathematical data.
    pub open spec fn fields_view(s: Seq<(String, JsonValue)>) -> Seq<(Seq<char>, Json)>
        decreases s,
    {
        if s.len() == 0 {
            Seq::empty()
        } else {
            JsonValue::fields_view(s.drop_last()).push((s.last().0@, s.last().1.view()))
        }
    }
}

/// The value of the first member named `key`.
pub open spec fn lookup(fields: Seq<(Seq<char>, Json)>, key: Seq<char>) -> Option<Json>
    decreases fields.len(),
{
    if fields.len() == 0 {
        None
    } else if fields[0].0 == key {
        Some(fields[0].1)
    } else {
        lookup(fields.drop_first(), key)
    }
}

impl Json {
    /// What `Value::get(key)` gives: the member `key` of an object.
    pub open spec fn get(self, key: Seq<char>) -> Option<Json> {
        match self {
            Json::Object(f) => lookup(f, key),
            _ => None,
        }
    }

    /// What `Value::as_str` gives.
    pub open spec fn as_str(self) -> Option<Seq<char>> {
        match self {
            Json::Str(s) => Some(s),
            _ => None,
        }
    }

    /// What `Value::as_bool` gives.
    pub open spec fn as_bool(self) -> Option<bool> {
        match self {
            Json::Bool(b) => Some(b),
            _ => None,
        }
    }

    /// What `Value::as_i64` gives.
    pub open spec fn as_i64(self) -> Option<i64> {
        match self {
            Json::Number(n) => n,
            _ => None,
        }
    }

    /// What `Value::as_array` gives.
    pub open spec fn as_array(self) -> Option<Seq<Json>> {
        match self {
            Json::Array(a) => Some(a),
            _ => None,
        }
    }
}

/// An optional value as mathematical data.
pub open spec fn opt_json(o: Option<&JsonValue>) -> Option<Json> {
    match o {
        Some(v) => Some(v.view()),
        None => None,
    }
}

/// `get(key)` then `as_str()`.
pub open spec fn get_str(v: Json, key: Seq<char>) -> Option<Seq<char>> {
    match v.get(key) {
        Some(x) => x.as_str(),
        None => None,
    }
}

/// `get(key)` then `as_bool()`.
pub open spec fn get_bool(v: Json, key: Seq<char>) -> Option<bool> {
    match v.get(key) {
        Some(x) => x.as_bool(),
        None => None,
    }
}

/// `get(key)` then `as_i64()`.
pub open spec fn get_i64(v: Json, key: Seq<char>) -> Option<i64> {
    match v.get(key) {
        Some(x) => x.as_i64(),
        None => None,
    }
}

/// `get(key)` then `as_array()`.
pub open spec fn get_array(v: Json, key: Seq<char>) -> Option<Seq<Json>> {
    match v.get(key) {
        Some(x) => x.as_array(),
        None => None,
    }
}

pub proof fn lemma_items_view_len(s: Seq<JsonValue>)
    ensures
        JsonValue::items_view(s).len() == s.len(),
        forall|i: int| 0 <= i < s.len() ==> #[trigger] JsonValue::items_view(s)[i] == s[i].view(),
    decreases s.len(),
{
    if s.len() > 0 {
        lemma_items_view_len(s.drop_last());
        assert forall|i: int| 0 <= i < s.len() implies #[trigger] JsonValue::items_view(s)[i]
            == s[i].view() by {
            if i < s.len() - 1 {
                assert(s.drop_last()[i] == s[i]);
            }
        }
    }
}

pub proof fn lemma_fields_view_len(s: Seq<(String, JsonValue)>)
    ensures
        JsonValue::fields_view(s).len() == s.len(),
        forall|i: int|
            0 <= i < s.len() ==> #[trigger] JsonValue::fields_view(s)[i] == (s[i].0@, s[i].1.view()),
    decreases s.len(),
{
    if s.len() > 0 {
        lemma_fields_view_len(s.drop_last());
        assert forall|i: int| 0 <= i < s.len() implies #[trigger] JsonValue::fields_view(s)[i]
            == (s[i].0@, s[i].1.view()) by {
            if i < s.len() - 1 {
                assert(s.drop_last()[i] == s[i]);
            }
        }
    }
}

impl JsonValue {
    /// The member `key` of an object (the first one so named); `None` for
    /// anything but an object.
    pub fn get(&self, key: &str) -> (r: Option<&JsonValue>)
        ensures
            opt_json(r) == self.view().get(key@),
    {
        match self {
            JsonValue::Object(fields) => {
                let ghost fv = JsonValue::fields_view(fields@);
                assert(self.view() == Json::Object(fv));
                proof {
                    lemma_fields_view_len(fields@);
                    assert(fv.subrange(0, fv.len() as int) == fv);
                }
                let mut i: usize = 0;
                while i < fields.len()
                    invariant
                        i <= fields@.len(),
                        fv == JsonValue::fields_view(fields@),
                        self.view() == Json::Object(fv),
                        fv.len() == fields@.len(),
                        forall|k: int|
                            0 <= k < fields@.len() ==> #[trigger] fv[k] == (
                                fields@[k].0@,
                                fields@[k].1.view(),
                            ),
                        lookup(fv, key@) == lookup(fv.subrange(i as int, fv.len() as int), key@),
                    decreases fields@.len() - i,
                {
                    let ghost rest = fv.subrange(i as int, fv.len() as int);
                    if crate::text::str_eq(fields[i].0.as_str(), key) {
                        assert(rest[0] == fv[i as int]);
                        assert(lookup(rest, key@) == Some(fields@[i as int].1.view()));
                        return Some(&fields[i].1);
                    }
                    assert(rest.drop_first() == fv.subrange(i as int + 1, fv.len() as int));
                    i = i + 1;
                }
                assert(fv.subrange(i as int, fv.len() as int).len() == 0);
                assert(self.view() == Json::Object(fv));
                None
            },
            _ => None,
        }
    }

    /// The text of a string value.
    pub fn as_str(&self) -> (r: Option<&String>)
        ensures
            match r {
                Some(s) => self.view().as_str() == Some(s@),
                None => self.view().as_str() is None,
            },
    {
        match self {
            JsonValue::Str(s) => Some(s),
            _ => None,
        }
    }

    /// The value of a boolean.
    pub fn as_bool(&self) -> (r: Option<bool>)
        ensures
            r == self.view().as_bool(),
    {
        match self {
            JsonValue::Bool(b) => Some(*b),
            _ => None,
        }
    }

    /// The `i64` that a number equals, when there is one.
    pub fn as_i64(&self) -> (r: Option<i64>)
        ensures
            r == self.view().as_i64(),
    {
        match self {
            JsonValue::Number(n) => *n,
            _ => None,
        }
    }

    /// The items of an array.
    pub fn as_array(&self) -> (r: Option<&Vec<JsonValue>>)
        ensures
            match r {
                Some(v) => self.view().as_array() == Some(JsonValue::items_view(v@)),
                None => self.view().as_array() is None,
            },
    {
        match self {
            JsonValue::Array(v) => Some(v),
            _ => None,
        }
    }
}

/// Appends the member `key: v` to an object's member list.
pub fn push_member(fields: &mut Vec<(String, JsonValue)>, key: &str, v: JsonValue)
    ensures
        JsonValue::fields_view(final(fields)@) == JsonValue::fields_view(old(fields)@).push(
            (key@, v.view()),
        ),
{
    let ghost old_fields = fields@;
    let k = key.to_owned();
    fields.push((k, v));
    proof {
        assert(fields@.drop_last() == old_fields);
    }
}

/// Appends `v` to an array's item list.
pub fn push_item(items: &mut Vec<JsonValue>, v: JsonValue)
    ensures
        JsonValue::items_view(final(items)@) == JsonValue::items_view(old(items)@).push(v.view()),
{
    let ghost old_items = items@;
    items.push(v);
    proof {
        assert(items@.drop_last() == old_items);
    }
}

/// A string value.
pub fn string_value(s: &str) -> (v: JsonValue)
    ensures
        v.view() == Json::Str(s@),
{
    JsonValue::Str(s.to_owned())
}

/// The object `{ key: v }`.
pub fn object1(key: &str, v: JsonValue) -> (o: JsonValue)
    ensures
        o.view() == Json::Object(seq![(key@, v.view())]),
{
    let mut f: Vec<(String, JsonValue)> = Vec::new();
    push_member(&mut f, key, v);
    assert(JsonValue::fields_view(Seq::<(String, JsonValue)>::empty()) == Seq::<(Seq<char>, Json)>::empty());
    JsonValue::Object(f)
}

/// The object `{ k1: v1, k2: v2 }`.
pub fn object2(k1: &str, v1: JsonValue, k2: &str, v2: JsonValue) -> (o: JsonValue)
    ensures
        o.view() == Json::Object(seq![(k1@, v1.view()), (k2@, v2.view())]),
{
    let ghost g1 = v1.view();
    let ghost g2 = v2.view();
    let mut f: Vec<(String, JsonValue)> = Vec::new();
    push_member(&mut f, k1, v1);
    push_member(&mut f, k2, v2);
    assert(JsonValue::fields_view(Seq::<(String, JsonValue)>::empty()) == Seq::<(Seq<char>, Json)>::empty());
    assert(JsonValue::fields_view(f@) =~= seq![(k1@, g1), (k2@, g2)]);
    JsonValue::Object(f)
}

/// The array `[v]`.
pub fn array1(v: JsonValue) -> (a: JsonValue)
    ensures
        a.view() == Json::Array(seq![v.view()]),
{
    let mut items: Vec<JsonValue> = Vec::new();
    push_item(&mut items, v);
    assert(JsonValue::items_view(Seq::<JsonValue>::empty()) == Seq::<Json>::empty());
    JsonValue::Array(items)
}

/// The empty array `[]`.
pub fn empty_array() -> (a: JsonValue)
    ensures
        a.view() == Json::Array(Seq::empty()),
{
    let items: Vec<JsonValue> = Vec::new();
    assert(JsonValue::items_view(items@) == Seq::<Json>::empty());
    JsonValue::Array(items)
}

} // verus!
