use vstd::prelude::*;
use crate::text::same_text;

verus! {

/// A JSON document as the library reads it: numbers keep their decimal
/// text, objects list their members.
pub enum JsonValue {
    Null,
    Bool(bool),
    Number(JsonNumber),
    Str(String),
    Array(Vec<JsonValue>),
    Object(Vec<JsonMember>),
}

/// A JSON number: its decimal text, and its value where it was written as
/// a non-negative integer that fits in 64 bits.
pub struct JsonNumber {
    pub text: String,
    pub whole: Option<u64>,
}

pub struct JsonMember {
    pub key: String,
    pub value: JsonValue,
}

#[verifier::external_type_specification]
#[verifier::external_body]
pub struct ExSerdeValue(serde_json::Value);

/// The document that serde_json reads from a text, or `None` where the text
/// is not one JSON document.
pub uninterp spec fn json_of(text: Seq<char>) -> Option<Json>;

/// Relies on `serde_json::from_str::<serde_json::Value>`: it reads the text as
/// one JSON document or fails, and what it reads depends on the text alone
/// (an object holds each member name once, the last value given winning, in
/// the order of the names).
#[verifier::external_body]
pub(crate) fn parse_json(text: &str) -> (r: Option<JsonValue>)
    ensures
        r is None <==> json_of(text@) is None,
        r matches Some(v) ==> json_of(text@) == Some(v@),
{
    match serde_json::from_str::<serde_json::Value>(text) {
        Ok(v) => Some(json_from_serde(v)),
        Err(_) => None,
    }
}

/// Relies on the variants of `serde_json::Value`, on `serde_json::Number`'s
/// `Display` and `as_u64`, and on `serde_json::Map::into_iter`: moves each
/// node into the matching `JsonValue` node.
#[verifier::external_body]
fn json_from_serde(v: serde_json::Value) -> JsonValue {
    match v {
        serde_json::Value::Null => JsonValue::Null,
        serde_json::Value::Bool(b) => JsonValue::Bool(b),
        serde_json::Value::Number(n) => JsonValue::Number(
            JsonNumber { text: n.to_string(), whole: n.as_u64() },
        ),
        serde_json::Value::String(s) => JsonValue::Str(s),
        serde_json::Value::Array(a) => JsonValue::Array(a.into_iter().map(json_from_serde).collect()),
        serde_json::Value::Object(m) => JsonValue::Object(
            m.into_iter().map(|(key, x)| JsonMember { key, value: json_from_serde(x) }).collect(),
        ),
    }
}

/// The mathematical model of a JSON document.
pub enum Json {
    Null,
    Bool(bool),
    Number(Seq<char>, Option<u64>),
    Str(Seq<char>),
    Array(Seq<Json>),
    Object(Seq<(Seq<char>, Json)>),
}

impl Json {
    pub open spec fn array_items(self) -> Seq<Json> {
        match self {
            Json::Array(items) => items,
            _ => Seq::empty(),
        }
    }

    pub open spec fn object_members(self) -> Seq<(Seq<char>, Json)> {
        match self {
            Json::Object(members) => members,
            _ => Seq::empty(),
        }
    }

    /// The value of the first member named `key`, for an object.
    pub open spec fn get(self, key: Seq<char>) -> Option<Json> {
        match self {
            Json::Object(members) => member_from(members, key, 0),
            _ => None,
        }
    }

    /// Null, an object without members, or an array without items.
    pub open spec fn is_blank(self) -> bool {
        match self {
            Json::Null => true,
            Json::Object(members) => members.len() == 0,
            Json::Array(items) => items.len() == 0,
            _ => false,
        }
    }
}

/// The value of the first member named `key` at position `i` or later.
pub open spec fn member_from(members: Seq<(Seq<char>, Json)>, key: Seq<char>, i: int) -> Option<Json>
    decreases members.len() - i,
{
    if i < 0 || i >= members.len() {
        None
    } else if members[i].0 == key {
        Some(members[i].1)
    } else {
        member_from(members, key, i + 1)
    }
}

/// The model of an array lists the models of its items, and that of an
/// object the names and models of its members.
pub proof fn lemma_view_parts(v: &JsonValue)
    ensures
        v matches JsonValue::Array(items) ==> {
            &&& v@.array_items().len() == items@.len()
            &&& forall|k: int| 0 <= k < items@.len() ==> #[trigger] v@.array_items()[k] == items@[k]@
        },
        v matches JsonValue::Object(ms) ==> {
            &&& v@.object_members().len() == ms@.len()
            &&& forall|k: int|
                0 <= k < ms@.len() ==> #[trigger] v@.object_members()[k] == (ms@[k].key@, ms@[k].value@)
        },
{
}

/// The model of an optional borrowed value.
pub open spec fn opt_view(v: Option<&JsonValue>) -> Option<Json> {
    match v {
        Some(x) => Some(x@),
        None => None,
    }
}

impl DeepView for JsonValue {
    type V = Json;

    open spec fn deep_view(&self) -> Json {
        self.view()
    }
}

impl JsonValue {
    /// The model of the document.
    pub open spec fn view(&self) -> Json
        decreases self,
    {
        match self {
            JsonValue::Null => Json::Null,
            JsonValue::Bool(b) => Json::Bool(*b),
            JsonValue::Number(n) => Json::Number(n.text@, n.whole),
            JsonValue::Str(s) => Json::Str(s@),
            JsonValue::Array(items) => Json::Array(
                Seq::new(
                    items@.len(),
                    |i: int|
                        if 0 <= i < items@.len() {
                            items@[i].view()
                        } else {
                            Json::Null
                        },
                ),
            ),
            JsonValue::Object(members) => Json::Object(
                Seq::new(
                    members@.len(),
                    |i: int|
                        if 0 <= i < members@.len() {
                            (members@[i].key@, members@[i].value.view())
                        } else {
                            (Seq::empty(), Json::Null)
                        },
                ),
            ),
        }
    }

    /// Reads one JSON document from a text; `None` where the text is not one.
    pub fn parse(text: &str) -> (r: Option<JsonValue>)
        ensures
            r is None <==> json_of(text@) is None,
            r matches Some(v) ==> json_of(text@) == Some(v@),
    {
        parse_json(text)
    }

    /// The value of the first member named `key`, where this is an object.
    pub fn get_field(&self, key: &str) -> (r: Option<&JsonValue>)
        ensures
            opt_view(r) == self@.get(key@),
    {
        match self {
            JsonValue::Object(members) => {
                let ghost ms = self@.object_members();
                let mut i: usize = 0;
                while i < members.len()
                    invariant
                        *self == JsonValue::Object(*members),
                        ms == self@.object_members(),
                        ms.len() == members@.len(),
                        i <= members@.len(),
                        member_from(ms, key@, 0) == member_from(ms, key@, i as int),
                    decreases members@.len() - i,
                {
                    assert(ms[i as int] == (members@[i as int].key@, members@[i as int].value@));
                    if same_text(members[i].key.as_str(), key) {
                        return Some(&members[i].value);
                    }
                    i = i + 1;
                }
                None
            },
            _ => None,
        }
    }

    /// Null, an object without members, or an array without items.
    pub fn is_blank(&self) -> (r: bool)
        ensures
            r == self@.is_blank(),
    {
        match self {
            JsonValue::Null => true,
            JsonValue::Object(members) => members.len() == 0,
            JsonValue::Array(items) => items.len() == 0,
            _ => false,
        }
    }

    /// A copy of the document that is equal to it as a model.
    pub fn deep_copy(&self) -> (r: JsonValue)
        ensures
            r@ == self@,
        decreases self,
    {
        match self {
            JsonValue::Null => JsonValue::Null,
            JsonValue::Bool(b) => JsonValue::Bool(*b),
            JsonValue::Number(n) => JsonValue::Number(
                JsonNumber { text: n.text.clone(), whole: n.whole },
            ),
            JsonValue::Str(s) => JsonValue::Str(s.clone()),
            JsonValue::Array(items) => {
                let mut out: Vec<JsonValue> = Vec::new();
                let mut i: usize = 0;
                while i < items.len()
                    invariant
                        *self == JsonValue::Array(*items),
                        i <= items@.len(),
                        out@.len() == i,
                        forall|j: int| 0 <= j < i ==> #[trigger] out@[j]@ == items@[j]@,
                    decreases items@.len() - i,
                {
                    proof {
                        vstd::std_specs::vec::axiom_vec_index_decreases(*items, i as int);
                        assert(decreases_to!(*self => (*self)->Array_0));
                    }
                    let c = items[i].deep_copy();
                    out.push(c);
                    i = i + 1;
                }
                let r = JsonValue::Array(out);
                assert forall|j: int| 0 <= j < out@.len() implies r@.array_items()[j]
                    == self@.array_items()[j] by {
                    assert(out@[j]@ == items@[j]@);
                }
                assert(r@.array_items() =~= self@.array_items());
                r
            },
            JsonValue::Object(members) => {
                let mut out: Vec<JsonMember> = Vec::new();
                let mut i: usize = 0;
                while i < members.len()
                    invariant
                        *self == JsonValue::Object(*members),
                        i <= members@.len(),
                        out@.len() == i,
                        forall|j: int|
                            0 <= j < i ==> #[trigger] out@[j].key@ == members@[j].key@
                                && out@[j].value@ == members@[j].value@,
                    decreases members@.len() - i,
                {
                    proof {
                        vstd::std_specs::vec::axiom_vec_index_decreases(*members, i as int);
                        assert(decreases_to!(*self => (*self)->Object_0));
                        assert(decreases_to!(members[i as int] => members[i as int].value));
                    }
                    let key = members[i].key.clone();
                    let value = members[i].value.deep_copy();
                    out.push(JsonMember { key, value });
                    assert(out@[i as int].key@ == members@[i as int].key@);
                    assert(out@[i as int].value@ == members@[i as int].value@);
                    i = i + 1;
                }
                let r = JsonValue::Object(out);
                assert(r@.object_members() =~= self@.object_members());
                r
            },
        }
    }
}

} // verus!
