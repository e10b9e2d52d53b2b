use vstd::prelude::*;
use crate::json::{Json, JsonValue, opt_view};

verus! {

/// A string member.
pub open spec fn text_of(j: Option<Json>) -> Option<Seq<char>> {
    match j {
        Some(Json::Str(s)) => Some(s),
        _ => None,
    }
}

/// A member that may be missing or null, and is a string otherwise;
/// `None` where it is something else.
pub open spec fn opt_text_of(j: Option<Json>) -> Option<Option<Seq<char>>> {
    match j {
        None => Some(None),
        Some(Json::Null) => Some(None),
        Some(Json::Str(s)) => Some(Some(s)),
        _ => None,
    }
}

/// A number member, as its text.
pub open spec fn number_of(j: Option<Json>) -> Option<Seq<char>> {
    match j {
        Some(Json::Number(text, _)) => Some(text),
        _ => None,
    }
}

/// A member that is a non-negative whole number.
pub open spec fn count_of(j: Option<Json>) -> Option<u64> {
    match j {
        Some(Json::Number(_, Some(n))) => Some(n),
        _ => None,
    }
}

/// An array member whose items are all strings.
pub open spec fn text_list_of(j: Option<Json>) -> Option<Seq<Seq<char>>> {
    match j {
        Some(Json::Array(items)) => if forall|i: int| 0 <= i < items.len() ==> #[trigger] items[i] is Str {
            Some(Seq::new(items.len(), |i: int| items[i]->Str_0))
        } else {
            None
        },
        _ => None,
    }
}

/// A member that may be missing or null, and otherwise is an array whose
/// items are each null or a string.
pub open spec fn opt_slot_list_of(j: Option<Json>) -> Option<Option<Seq<Option<Seq<char>>>>> {
    match j {
        None => Some(None),
        Some(Json::Null) => Some(None),
        Some(Json::Array(items)) => if forall|i: int|
            0 <= i < items.len() ==> #[trigger] opt_text_of(Some(items[i])) is Some {
            Some(Some(Seq::new(items.len(), |i: int| opt_text_of(Some(items[i]))->0)))
        } else {
            None
        },
        _ => None,
    }
}

/// An array member, as its items.
pub open spec fn items_of(j: Option<Json>) -> Option<Seq<Json>> {
    match j {
        Some(Json::Array(items)) => Some(items),
        _ => None,
    }
}

/// An object member whose values are all strings, as its pairs in order.
pub open spec fn text_pairs_of(j: Option<Json>) -> Option<Seq<(Seq<char>, Seq<char>)>> {
    match j {
        Some(Json::Object(ms)) => if forall|i: int| 0 <= i < ms.len() ==> #[trigger] ms[i].1 is Str {
            Some(Seq::new(ms.len(), |i: int| (ms[i].0, ms[i].1->Str_0)))
        } else {
            None
        },
        _ => None,
    }
}

/// The string member `key` of an object.
pub fn text_field(obj: &JsonValue, key: &str) -> (r: Option<String>)
    ensures
        r.deep_view() == text_of(obj@.get(key@)),
{
    match obj.get_field(key) {
        Some(JsonValue::Str(s)) => Some(s.clone()),
        _ => None,
    }
}

/// The member `key` of an object, where it is missing, null or a string.
pub fn opt_text_field(obj: &JsonValue, key: &str) -> (r: Option<Option<String>>)
    ensures
        r.deep_view() == opt_text_of(obj@.get(key@)),
{
    match obj.get_field(key) {
        None => Some(None),
        Some(JsonValue::Null) => Some(None),
        Some(JsonValue::Str(s)) => Some(Some(s.clone())),
        _ => None,
    }
}

/// The number member `key` of an object, as its text.
pub fn number_field(obj: &JsonValue, key: &str) -> (r: Option<String>)
    ensures
        r.deep_view() == number_of(obj@.get(key@)),
{
    match obj.get_field(key) {
        Some(JsonValue::Number(n)) => Some(n.text.clone()),
        _ => None,
    }
}

/// The member `key` of an object, where it is a non-negative integer.
pub fn count_field(obj: &JsonValue, key: &str) -> (r: Option<u64>)
    ensures
        r == count_of(obj@.get(key@)),
{
    match obj.get_field(key) {
        Some(JsonValue::Number(n)) => n.whole,
        _ => None,
    }
}

/// The member `key` of an object, where it is an array of strings.
pub fn text_list_field(obj: &JsonValue, key: &str) -> (r: Option<Vec<String>>)
    ensures
        r.deep_view() == text_list_of(obj@.get(key@)),
{
    let field = obj.get_field(key);
    match field {
        Some(JsonValue::Array(items)) => {
            let ghost js = field->0@.array_items();
            proof {
                crate::json::lemma_view_parts(field->0);
                assert(field->0@ == Json::Array(js));
            }
            let mut out: Vec<String> = Vec::new();
            let mut i: usize = 0;
            while i < items.len()
                invariant
                    js.len() == items@.len(),
                    field->0@ == Json::Array(js),
                    field is Some,
                    opt_view(field) == obj@.get(key@),
                    forall|k: int| 0 <= k < items@.len() ==> #[trigger] js[k] == items@[k]@,
                    i <= items@.len(),
                    out@.len() == i,
                    forall|k: int| 0 <= k < i ==> #[trigger] js[k] is Str,
                    forall|k: int| 0 <= k < i ==> #[trigger] out@[k]@ == js[k]->Str_0,
                decreases items@.len() - i,
            {
                match &items[i] {
                    JsonValue::Str(s) => {
                        out.push(s.clone());
                        assert(js[i as int] == Json::Str(s@));
                        assert(out@[i as int]@ == js[i as int]->Str_0);
                    },
                    _ => {
                        assert(!(js[i as int] is Str));
                        assert(field->0@ == Json::Array(js));
                        return None;
                    },
                }
                i = i + 1;
            }
            assert(out.deep_view() =~= Seq::new(js.len(), |k: int| js[k]->Str_0));
            assert(field->0@ == Json::Array(js));
            Some(out)
        },
        _ => None,
    }
}

/// The member `key` of an object, where it is missing, null, or an array
/// of strings and nulls.
#[verifier::loop_isolation(false)]
pub fn opt_slot_list_field(obj: &JsonValue, key: &str) -> (r: Option<Option<Vec<Option<String>>>>)
    ensures
        r.deep_view() == opt_slot_list_of(obj@.get(key@)),
{
    let field = obj.get_field(key);
    match field {
        None => Some(None),
        Some(JsonValue::Null) => Some(None),
        Some(JsonValue::Array(items)) => {
            let ghost js = field->0@.array_items();
            proof {
                crate::json::lemma_view_parts(field->0);
                assert(field->0@ == Json::Array(js));
            }
            let mut out: Vec<Option<String>> = Vec::new();
            let mut i: usize = 0;
            while i < items.len()
                invariant
                    i <= items@.len(),
                    out@.len() == i,
                    forall|k: int| 0 <= k < i ==> #[trigger] opt_text_of(Some(js[k])) is Some,
                    forall|k: int| 0 <= k < i ==> #[trigger] out@[k].deep_view() == opt_text_of(Some(js[k]))->0,
                decreases items@.len() - i,
            {
                match &items[i] {
                    JsonValue::Null => {
                        out.push(None);
                        assert(js[i as int] == Json::Null);
                    },
                    JsonValue::Str(s) => {
                        out.push(Some(s.clone()));
                        assert(js[i as int] == Json::Str(s@));
                    },
                    _ => {
                        assert(opt_text_of(Some(js[i as int])) is None);
                        return None;
                    },
                }
                assert(out@[i as int].deep_view() == opt_text_of(Some(js[i as int]))->0);
                i = i + 1;
            }
            assert(out.deep_view() =~= Seq::new(js.len(), |k: int| opt_text_of(Some(js[k]))->0));
            Some(Some(out))
        },
        _ => None,
    }
}

/// The member `key` of an object, where it is an object of strings, as its
/// pairs in order.
#[verifier::loop_isolation(false)]
pub fn text_pairs_field(obj: &JsonValue, key: &str) -> (r: Option<Vec<(String, String)>>)
    ensures
        r.deep_view() == text_pairs_of(obj@.get(key@)),
{
    let field = obj.get_field(key);
    match field {
        Some(JsonValue::Object(ms)) => {
            let ghost js = field->0@.object_members();
            proof {
                crate::json::lemma_view_parts(field->0);
                assert(field->0@ == Json::Object(js));
            }
            let mut out: Vec<(String, String)> = Vec::new();
            let mut i: usize = 0;
            while i < ms.len()
                invariant
                    i <= ms@.len(),
                    out@.len() == i,
                    forall|k: int| 0 <= k < i ==> #[trigger] js[k].1 is Str,
                    forall|k: int| 0 <= k < i ==> #[trigger] out@[k].deep_view() == (js[k].0, js[k].1->Str_0),
                decreases ms@.len() - i,
            {
                match &ms[i].value {
                    JsonValue::Str(s) => {
                        out.push((ms[i].key.clone(), s.clone()));
                        assert(js[i as int] == (ms@[i as int].key@, Json::Str(s@)));
                    },
                    _ => {
                        assert(!(js[i as int].1 is Str));
                        return None;
                    },
                }
                assert(out@[i as int].deep_view() == (js[i as int].0, js[i as int].1->Str_0));
                i = i + 1;
            }
            assert(out.deep_view() =~= Seq::new(js.len(), |k: int| (js[k].0, js[k].1->Str_0)));
            Some(out)
        },
        _ => None,
    }
}

/// The member `key` of an object, where it is an array, as copies of its
/// items.
#[verifier::loop_isolation(false)]
pub fn items_field(obj: &JsonValue, key: &str) -> (r: Option<Vec<JsonValue>>)
    ensures
        r.deep_view() == items_of(obj@.get(key@)),
{
    let field = obj.get_field(key);
    match field {
        Some(JsonValue::Array(items)) => {
            let ghost js = field->0@.array_items();
            proof {
                crate::json::lemma_view_parts(field->0);
                assert(field->0@ == Json::Array(js));
            }
            let mut out: Vec<JsonValue> = Vec::new();
            let mut i: usize = 0;
            while i < items.len()
                invariant
                    i <= items@.len(),
                    out@.len() == i,
                    forall|k: int| 0 <= k < i ==> #[trigger] out@[k]@ == js[k],
                decreases items@.len() - i,
            {
                out.push(items[i].deep_copy());
                i = i + 1;
            }
            assert(out.deep_view() =~= js);
            Some(out)
        },
        _ => None,
    }
}

} // verus!
