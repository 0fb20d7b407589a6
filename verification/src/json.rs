//! The JSON values this library reads. Parsing itself is `serde_json`'s:
//! the trusted boundary below hands the parsed value over as
//! [`JsonData`], a model of the library's own over plain values, named
//! as a function of the body text ([`json_data_of`]). Everything that
//! interprets a parsed value works on that model, in verified code with
//! exact contracts.

use vstd::prelude::*;
use crate::text::str_eq;

verus! {

#[verifier::external_type_specification]
#[verifier::external_body]
pub struct ExJsonValue(serde_json::Value);

#[verifier::external_type_specification]
#[verifier::external_body]
pub struct ExJsonError(serde_json::Error);

/// A parsed JSON value over plain values. Object members carry unique
/// keys, in the parser's storage order (sorted); a duplicated key keeps
/// its last value. A number not representable as a `u64` — negative,
/// fractional, or too large — appears as [`JsonData::Other`]: no typed
/// record in this library accepts such a number, only the exact kind it
/// expects.
#[derive(Debug)]
pub enum JsonData {
    Null,
    Bool(bool),
    UInt(u64),
    Str(String),
    List(Vec<JsonData>),
    Obj(Vec<(String, JsonData)>),
    /// A number outside the `u64` range.
    Other,
}

/// What a text parses to: the model of the parsed value, absent exactly
/// when the text is not well-formed JSON in `serde_json`'s eyes;
/// decided by the text alone.
pub uninterp spec fn json_data_of(s: Seq<char>) -> Option<JsonData>;

/// Relies on `serde_json::from_str::<Value>`: parses a self-describing
/// JSON value, succeeding exactly on well-formed JSON text; the parsed
/// value, converted by [`json_data_from_value`], is a function of the
/// text alone.
#[verifier::external_body]
pub fn parse_json(s: &str) -> (r: Result<JsonData, serde_json::Error>)
    ensures
        r is Ok <==> json_data_of(s@) is Some,
        r is Ok ==> Some(r->Ok_0) == json_data_of(s@),
{
    match serde_json::from_str::<serde_json::Value>(s) {
        Ok(v) => Ok(json_data_from_value(v)),
        Err(e) => Err(e),
    }
}

/// Relies on the shape of `serde_json::Value`: each variant becomes the
/// corresponding [`JsonData`] variant, one arm each; a number keeps its
/// value when `Number::as_u64` gives one and becomes `Other` otherwise.
#[verifier::external_body]
fn json_data_from_value(v: serde_json::Value) -> JsonData {
    match v {
        serde_json::Value::Null => JsonData::Null,
        serde_json::Value::Bool(b) => JsonData::Bool(b),
        serde_json::Value::Number(n) => match n.as_u64() {
            Some(u) => JsonData::UInt(u),
            None => JsonData::Other,
        },
        serde_json::Value::String(s) => JsonData::Str(s),
        serde_json::Value::Array(items) => JsonData::List(
            items.into_iter().map(json_data_from_value).collect(),
        ),
        serde_json::Value::Object(members) => JsonData::Obj(
            members.into_iter().map(|(k, x)| (k, json_data_from_value(x))).collect(),
        ),
    }
}

/// Relies on `serde_json::Error`'s `Display` impl: renders the parse
/// error's description.
#[verifier::external_body]
pub fn json_error_text(e: &serde_json::Error) -> String {
    e.to_string()
}

/// The value under a key among object members: the first member whose
/// key matches (keys are unique, so the only one).
pub open spec fn spec_obj_get(entries: Seq<(String, JsonData)>, key: Seq<char>) -> Option<JsonData>
    decreases entries.len(),
{
    if entries.len() == 0 {
        None
    } else if entries[0].0@ == key {
        Some(entries[0].1)
    } else {
        spec_obj_get(entries.drop_first(), key)
    }
}

/// The value under a key of an object; absent for every other kind of
/// value and for a missing key.
pub open spec fn spec_get(d: JsonData, key: Seq<char>) -> Option<JsonData> {
    match d {
        JsonData::Obj(entries) => spec_obj_get(entries@, key),
        _ => None,
    }
}

/// A field read from a record: absent and `null` both count as absent.
pub open spec fn spec_field(d: JsonData, key: Seq<char>) -> Option<JsonData> {
    match spec_get(d, key) {
        None => None,
        Some(v) => if v is Null {
            None
        } else {
            Some(v)
        },
    }
}

proof fn lemma_obj_get_skip(entries: Seq<(String, JsonData)>, key: Seq<char>, i: int)
    requires
        0 <= i <= entries.len(),
        forall|j: int| 0 <= j < i ==> (#[trigger] entries[j].0)@ != key,
    ensures
        spec_obj_get(entries, key) == spec_obj_get(entries.skip(i), key),
    decreases i,
{
    if i == 0 {
        assert(entries.skip(0) =~= entries);
    } else {
        assert(entries[0].0@ != key);
        lemma_obj_get_skip(entries.drop_first(), key, i - 1);
        assert(entries.drop_first().skip(i - 1) =~= entries.skip(i));
    }
}

/// Looks a key up in a value, as [`spec_get`] describes.
pub fn json_get<'a>(d: &'a JsonData, key: &str) -> (r: Option<&'a JsonData>)
    ensures
        r is Some <==> spec_get(*d, key@) is Some,
        r matches Some(v) ==> spec_get(*d, key@) == Some(*v),
{
    match d {
        JsonData::Obj(entries) => {
            let n: usize = entries.len();
            let mut i: usize = 0;
            while i < n
                invariant
                    n == entries@.len(),
                    0 <= i <= n,
                    d is Obj,
                    d->Obj_0@ == entries@,
                    forall|j: int| 0 <= j < i ==> (#[trigger] entries@[j].0)@ != key@,
                decreases n - i,
            {
                if str_eq(entries[i].0.as_str(), key) {
                    proof {
                        lemma_obj_get_skip(entries@, key@, i as int);
                        assert(entries@.skip(i as int)[0] == entries@[i as int]);
                        assert(entries@.skip(i as int).len() > 0);
                        assert(spec_obj_get(entries@.skip(i as int), key@) == Some(
                            entries@[i as int].1,
                        ));
                        assert(spec_get(*d, key@) == Some(entries@[i as int].1));
                    }
                    return Some(&entries[i].1);
                }
                i = i + 1;
            }
            proof {
                lemma_obj_get_skip(entries@, key@, n as int);
                assert(entries@.skip(n as int) =~= Seq::<(String, JsonData)>::empty());
            }
            None
        },
        _ => None,
    }
}

/// Reads a field, as [`spec_field`] describes.
pub fn json_field<'a>(d: &'a JsonData, key: &str) -> (r: Option<&'a JsonData>)
    ensures
        r is Some <==> spec_field(*d, key@) is Some,
        r matches Some(v) ==> spec_field(*d, key@) == Some(*v),
{
    match json_get(d, key) {
        None => None,
        Some(x) => match x {
            JsonData::Null => None,
            _ => Some(x),
        },
    }
}

/// A field read from a JSON record: absent (or `null`), present with
/// the expected kind of value, or present with some other kind, which
/// a typed record rejects.
pub type FieldRead<T> = Result<Option<T>, ()>;

/// An optional string field: absent and `null` both count as absent;
/// any other non-string value is a mismatch.
pub open spec fn spec_str_field(d: JsonData, key: Seq<char>) -> FieldRead<String> {
    match spec_field(d, key) {
        None => Ok(None),
        Some(v) => match v {
            JsonData::Str(s) => Ok(Some(s)),
            _ => Err(()),
        },
    }
}

/// An optional unsigned number field, as [`spec_str_field`] reads
/// strings.
pub open spec fn spec_u64_field(d: JsonData, key: Seq<char>) -> FieldRead<u64> {
    match spec_field(d, key) {
        None => Ok(None),
        Some(v) => match v {
            JsonData::UInt(n) => Ok(Some(n)),
            _ => Err(()),
        },
    }
}

/// An optional boolean field, as [`spec_str_field`] reads strings.
pub open spec fn spec_bool_field(d: JsonData, key: Seq<char>) -> FieldRead<bool> {
    match spec_field(d, key) {
        None => Ok(None),
        Some(v) => match v {
            JsonData::Bool(b) => Ok(Some(b)),
            _ => Err(()),
        },
    }
}

/// Reads an optional string field, as [`spec_str_field`] describes.
pub fn read_str_field(d: &JsonData, key: &str) -> (r: FieldRead<String>)
    ensures
        r == spec_str_field(*d, key@),
{
    match json_field(d, key) {
        None => Ok(None),
        Some(x) => match x {
            JsonData::Str(s) => Ok(Some(s.clone())),
            _ => Err(()),
        },
    }
}

/// Reads an optional unsigned number field, as [`spec_u64_field`]
/// describes.
pub fn read_u64_field(d: &JsonData, key: &str) -> (r: FieldRead<u64>)
    ensures
        r == spec_u64_field(*d, key@),
{
    match json_field(d, key) {
        None => Ok(None),
        Some(x) => match x {
            JsonData::UInt(n) => Ok(Some(*n)),
            _ => Err(()),
        },
    }
}

/// Reads an optional boolean field, as [`spec_bool_field`] describes.
pub fn read_bool_field(d: &JsonData, key: &str) -> (r: FieldRead<bool>)
    ensures
        r == spec_bool_field(*d, key@),
{
    match json_field(d, key) {
        None => Ok(None),
        Some(x) => match x {
            JsonData::Bool(b) => Ok(Some(*b)),
            _ => Err(()),
        },
    }
}

/// Every element of a list is a string.
pub open spec fn spec_str_items_ok(items: Seq<JsonData>) -> bool {
    forall|i: int| 0 <= i < items.len() ==> (#[trigger] items[i]) is Str
}

/// An optional array-of-strings field is acceptable: absent, or a list
/// of strings.
pub open spec fn spec_str_array_field_ok(d: JsonData, key: Seq<char>) -> bool {
    match spec_field(d, key) {
        None => true,
        Some(x) => x is List && spec_str_items_ok(x->List_0@),
    }
}

/// What an optional array-of-strings field denotes: absent reads as
/// empty, present as the strings in order.
pub open spec fn spec_str_array_field_matches(v: Seq<String>, d: JsonData, key: Seq<char>) -> bool {
    match spec_field(d, key) {
        None => v.len() == 0,
        Some(x) => {
            &&& x is List
            &&& v.len() == x->List_0@.len()
            &&& forall|i: int| 0 <= i < v.len() ==> v[i] == (#[trigger] x->List_0@[i])->Str_0
        },
    }
}

/// Reads an optional array-of-strings field: exactly the acceptable
/// fields, absent as empty, any non-string element a mismatch.
pub fn read_str_array_field(d: &JsonData, key: &str) -> (r: FieldRead<Vec<String>>)
    ensures
        r is Ok <==> spec_str_array_field_ok(*d, key@),
        r matches Ok(Some(v)) ==> spec_str_array_field_matches(v@, *d, key@),
        r matches Ok(None) ==> spec_field(*d, key@) is None,
{
    match json_field(d, key) {
        None => Ok(None),
        Some(x) => match x {
            JsonData::List(items) => {
                let n: usize = items.len();
                let mut out: Vec<String> = Vec::new();
                let mut i: usize = 0;
                while i < n
                    invariant
                        n == items@.len(),
                        0 <= i <= n,
                        out@.len() == i,
                        spec_field(*d, key@) is Some,
                        spec_field(*d, key@)->0 is List,
                        spec_field(*d, key@)->0->List_0@ == items@,
                        forall|j: int| 0 <= j < i ==> (#[trigger] items@[j]) is Str,
                        forall|j: int| 0 <= j < i ==> out@[j] == (#[trigger] items@[j])->Str_0,
                    decreases n - i,
                {
                    match &items[i] {
                        JsonData::Str(s) => out.push(s.clone()),
                        _ => {
                            proof {
                                assert(!(items@[i as int] is Str));
                                assert(!spec_str_items_ok(items@));
                            }
                            return Err(());
                        },
                    }
                    i = i + 1;
                }
                Ok(Some(out))
            },
            _ => Err(()),
        },
    }
}

} // verus!
