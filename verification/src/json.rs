//! JSON values as the library holds them, with their mathematical model,
//! equality, object lookup and compact text rendering.
use vstd::prelude::*;
use serde_json::{from_str, Number, Value};
use crate::text::{push_str, text_less, text_lt, text_lt_transitive};

verus! {

/// The mathematical model of a JSON value.
pub enum Json {
    Null,
    Bool(bool),
    /// A number, by its canonical decimal text.
    Number(Seq<char>),
    Str(Seq<char>),
    Array(Seq<Json>),
    /// Object entries; held values keep keys in ascending order (see
    /// `json_well_formed`).
    Object(Seq<(Seq<char>, Json)>),
}

/// One key/value entry of a JSON object.
#[derive(Debug)]
pub struct JsonEntry {
    pub key: String,
    pub value: JsonValue,
}

/// A JSON value.
///
/// Numbers are held by their canonical text (integers in decimal, other
/// numbers in shortest round-trip form, negative zero written as `0.0`), so
/// that two numbers are equal exactly when their texts are. Object entries
/// are held with keys in ascending order and without repeats, the order in
/// which JSON objects are kept and walked (`json_well_formed` states it,
/// `is_well_formed` checks it).
#[derive(Debug)]
pub enum JsonValue {
    Null,
    Bool(bool),
    Number(String),
    Str(String),
    Array(Vec<JsonValue>),
    Object(Vec<JsonEntry>),
}

impl JsonValue {
    /// The mathematical model of this value.
    pub open spec fn model(&self) -> Json
        decreases self,
    {
        match self {
            JsonValue::Null => Json::Null,
            JsonValue::Bool(b) => Json::Bool(*b),
            JsonValue::Number(n) => Json::Number(n@),
            JsonValue::Str(s) => Json::Str(s@),
            JsonValue::Array(items) => Json::Array(
                Seq::new(
                    items@.len(),
                    |i: int|
                        if 0 <= i < items@.len() {
                            items@[i].model()
                        } else {
                            Json::Null
                        },
                ),
            ),
            JsonValue::Object(entries) => Json::Object(
                Seq::new(
                    entries@.len(),
                    |i: int|
                        if 0 <= i < entries@.len() {
                            (entries@[i].key@, entries@[i].value.model())
                        } else {
                            (Seq::empty(), Json::Null)
                        },
                ),
            ),
        }
    }
}

/// The models of a sequence of values.
pub open spec fn models(items: Seq<JsonValue>) -> Seq<Json> {
    Seq::new(items.len(), |i: int| items[i].model())
}

/// The first position of `key` among object entries.
pub open spec fn first_key_index(entries: Seq<(Seq<char>, Json)>, key: Seq<char>) -> int {
    choose|i: int|
        0 <= i < entries.len() && entries[i].0 == key && forall|j: int|
            0 <= j < i ==> entries[j].0 != key
}

/// Whether some entry has the key.
pub open spec fn has_key(entries: Seq<(Seq<char>, Json)>, key: Seq<char>) -> bool {
    exists|i: int| 0 <= i < entries.len() && entries[i].0 == key
}

/// Member lookup (`Value::get` with a string key): the value under `key` when
/// `j` is an object that has it.
pub open spec fn json_get(j: Json, key: Seq<char>) -> Option<Json> {
    match j {
        Json::Object(entries) => if has_key(entries, key) {
            Some(entries[first_key_index(entries, key)].1)
        } else {
            None
        },
        _ => None,
    }
}

/// The string held by a JSON string.
pub open spec fn json_as_str(j: Json) -> Option<Seq<char>> {
    match j {
        Json::Str(s) => Some(s),
        _ => None,
    }
}

/// The flag held by a JSON boolean.
pub open spec fn json_as_bool(j: Json) -> Option<bool> {
    match j {
        Json::Bool(b) => Some(b),
        _ => None,
    }
}

/// Whether two values are equal.
pub fn json_equal(a: &JsonValue, b: &JsonValue) -> (r: bool)
    ensures
        r == (a.model() == b.model()),
    decreases a,
{
    match (a, b) {
        (JsonValue::Null, JsonValue::Null) => true,
        (JsonValue::Bool(x), JsonValue::Bool(y)) => *x == *y,
        (JsonValue::Number(x), JsonValue::Number(y)) => text_equal(x, y),
        (JsonValue::Str(x), JsonValue::Str(y)) => text_equal(x, y),
        (JsonValue::Array(xs), JsonValue::Array(ys)) => {
            if xs.len() != ys.len() {
                assert(a.model()->Array_0.len() != b.model()->Array_0.len());
                return false;
            }
            let mut i: usize = 0;
            while i < xs.len()
                invariant
                    xs.len() == ys.len(),
                    i <= xs.len(),
                    a == JsonValue::Array(*xs),
                    b == JsonValue::Array(*ys),
                    forall|k: int| 0 <= k < i ==> xs@[k].model() == ys@[k].model(),
                decreases xs.len() - i,
            {
                proof {
                    assert(decreases_to!(*a => *xs));
                    assert(decreases_to!(*xs => xs@));
                    assert(decreases_to!(xs@ => xs@[i as int]));
                }
                if !json_equal(&xs[i], &ys[i]) {
                    assert(a.model()->Array_0[i as int] == xs@[i as int].model());
                    assert(b.model()->Array_0[i as int] == ys@[i as int].model());
                    return false;
                }
                i += 1;
            }
            assert(a.model()->Array_0 =~= b.model()->Array_0);
            true
        },
        (JsonValue::Object(xs), JsonValue::Object(ys)) => {
            if xs.len() != ys.len() {
                assert(a.model()->Object_0.len() != b.model()->Object_0.len());
                return false;
            }
            let mut i: usize = 0;
            while i < xs.len()
                invariant
                    xs.len() == ys.len(),
                    i <= xs.len(),
                    a == JsonValue::Object(*xs),
                    b == JsonValue::Object(*ys),
                    forall|k: int|
                        0 <= k < i ==> xs@[k].key@ == ys@[k].key@ && xs@[k].value.model()
                            == ys@[k].value.model(),
                decreases xs.len() - i,
            {
                proof {
                    assert(decreases_to!(*a => *xs));
                    assert(decreases_to!(*xs => xs@));
                    assert(decreases_to!(xs@ => xs@[i as int]));
                    assert(decreases_to!(xs@[i as int] => xs@[i as int].value));
                }
                if !text_equal(&xs[i].key, &ys[i].key) || !json_equal(&xs[i].value, &ys[i].value) {
                    assert(a.model()->Object_0[i as int] == (
                        xs@[i as int].key@,
                        xs@[i as int].value.model(),
                    ));
                    assert(b.model()->Object_0[i as int] == (
                        ys@[i as int].key@,
                        ys@[i as int].value.model(),
                    ));
                    return false;
                }
                i += 1;
            }
            assert(a.model()->Object_0 =~= b.model()->Object_0);
            true
        },
        _ => false,
    }
}

/// Whether two strings hold the same characters.
pub fn text_equal(x: &String, y: &String) -> (r: bool)
    ensures
        r == (x@ == y@),
{
    *x == *y
}

/// Member lookup: the value under `key` when `v` is an object that has it.
pub fn get_member<'a>(v: &'a JsonValue, key: &str) -> (r: Option<&'a JsonValue>)
    ensures
        r is Some <==> json_get(v.model(), key@) is Some,
        r matches Some(x) ==> Some(x.model()) == json_get(v.model(), key@),
{
    match v {
        JsonValue::Object(entries) => {
            let ghost es = v.model()->Object_0;
            let mut i: usize = 0;
            while i < entries.len()
                invariant
                    i <= entries.len(),
                    v == JsonValue::Object(*entries),
                    es == v.model()->Object_0,
                    es.len() == entries@.len(),
                    forall|j: int| 0 <= j < i ==> es[j].0 != key@,
                decreases entries.len() - i,
            {
                assert(es[i as int] == (entries@[i as int].key@, entries@[i as int].value.model()));
                if crate::text::str_eq(entries[i].key.as_str(), key) {
                    assert(has_key(es, key@));
                    let ghost k = first_key_index(es, key@);
                    assert(k == i as int) by {
                        if k < i {
                            assert(es[k].0 != key@);
                        } else if k > i {
                            assert(es[i as int].0 == key@);
                        }
                    }
                    return Some(&entries[i].value);
                }
                i += 1;
            }
            assert(!has_key(es, key@));
            None
        },
        _ => None,
    }
}

/// The elements of a JSON array.
pub fn as_array(v: &JsonValue) -> (r: Option<&Vec<JsonValue>>)
    ensures
        r is Some <==> v.model() is Array,
        r matches Some(items) ==> v.model() == Json::Array(models(items@)),
{
    match v {
        JsonValue::Array(items) => {
            assert(v.model()->Array_0 =~= models(items@));
            Some(items)
        },
        _ => None,
    }
}

/// The entries of a JSON object.
pub fn as_object(v: &JsonValue) -> (r: Option<&Vec<JsonEntry>>)
    ensures
        r is Some <==> v.model() is Object,
        r matches Some(es) ==> v.model()->Object_0 == entry_models(es@),
{
    match v {
        JsonValue::Object(entries) => {
            assert(v.model()->Object_0 =~= entry_models(entries@));
            Some(entries)
        },
        _ => None,
    }
}

/// The models of object entries.
pub open spec fn entry_models(es: Seq<JsonEntry>) -> Seq<(Seq<char>, Json)> {
    Seq::new(es.len(), |i: int| (es[i].key@, es[i].value.model()))
}

/// The text of a JSON string.
pub fn as_str(v: &JsonValue) -> (r: Option<&String>)
    ensures
        r is Some <==> json_as_str(v.model()) is Some,
        r matches Some(s) ==> Some(s@) == json_as_str(v.model()),
{
    match v {
        JsonValue::Str(s) => Some(s),
        _ => None,
    }
}

/// The flag of a JSON boolean.
pub fn as_bool(v: &JsonValue) -> (r: Option<bool>)
    ensures
        r == json_as_bool(v.model()),
{
    match v {
        JsonValue::Bool(b) => Some(*b),
        _ => None,
    }
}

/// Whether a value is JSON `null`.
pub fn is_null(v: &JsonValue) -> (r: bool)
    ensures
        r == (v.model() is Null),
{
    match v {
        JsonValue::Null => true,
        _ => false,
    }
}

/// Whether a value is among a list of values.
pub fn contains_value(items: &Vec<JsonValue>, v: &JsonValue) -> (r: bool)
    ensures
        r == models(items@).contains(v.model()),
{
    let mut i: usize = 0;
    while i < items.len()
        invariant
            i <= items.len(),
            forall|k: int| 0 <= k < i ==> items@[k].model() != v.model(),
        decreases items.len() - i,
    {
        if json_equal(&items[i], v) {
            assert(models(items@)[i as int] == v.model());
            return true;
        }
        i += 1;
    }
    assert(!models(items@).contains(v.model())) by {
        if models(items@).contains(v.model()) {
            let k = choose|k: int| 0 <= k < models(items@).len() && models(items@)[k] == v.model();
            assert(items@[k].model() == v.model());
        }
    }
    false
}

/// A lowercase hexadecimal digit.
pub open spec fn hex_digit(n: u32) -> char {
    if n < 10 {
        (('0' as u32) + n) as char
    } else {
        (('a' as u32) + n - 10) as char
    }
}

/// Lets `serde_json::Value` stand in signatures; its contents are opaque.
#[verifier::external_type_specification]
#[verifier::external_body]
pub struct ExSerdeJsonValue(Value);

/// What `serde_json::Value`'s `Display` writes (the compact form) for the
/// value with this model.
pub uninterp spec fn serde_json_text(j: Json) -> Seq<char>;

/// The `serde_json::Value` of a value: one variant for each variant, numbers
/// read back from their text with `serde_json::from_str` (a text that does
/// not read as a number becomes `null`), objects gathered into a
/// `serde_json::Map`. Nothing is stated of the result.
#[verifier::external_body]
fn to_serde_value(v: &JsonValue) -> Value {
    match v {
        JsonValue::Null => Value::Null,
        JsonValue::Bool(b) => Value::Bool(*b),
        JsonValue::Number(t) => from_str::<Number>(t).map(Value::Number).unwrap_or(Value::Null),
        JsonValue::Str(s) => Value::String(s.clone()),
        JsonValue::Array(items) => Value::Array(items.iter().map(to_serde_value).collect()),
        JsonValue::Object(es) => Value::Object(
            es.iter().map(|e| (e.key.clone(), to_serde_value(&e.value))).collect(),
        ),
    }
}

/// Writes a value with `serde_json::Value`'s `Display` (`to_string`); the
/// text depends only on the value's model and is named by
/// `serde_json_text`, not spelled out.
#[verifier::external_body]
fn serde_display(v: &JsonValue) -> (r: String)
    ensures
        r@ == serde_json_text(v.model()),
{
    to_serde_value(v).to_string()
}

/// The compact JSON text of a value, as `serde_json` writes it.
pub fn to_json_text(v: &JsonValue) -> (r: String)
    ensures
        r@ == serde_json_text(v.model()),
{
    serde_display(v)
}

/// Appends the compact JSON text of a value.
pub fn push_json_text(out: &mut String, v: &JsonValue)
    ensures
        final(out)@ == old(out)@ + serde_json_text(v.model()),
{
    let t = serde_display(v);
    push_str(out, t.as_str());
}

/// Appends the compact JSON text of an array made of the given values.
pub fn push_array_text(out: &mut String, items: &Vec<JsonValue>)
    ensures
        final(out)@ == old(out)@ + serde_json_text(Json::Array(models(items@))),
{
    let mut copies: Vec<JsonValue> = Vec::new();
    let mut i: usize = 0;
    while i < items.len()
        invariant
            i <= items.len(),
            copies@.len() == i,
            forall|k: int| 0 <= k < i ==> (#[trigger] copies@[k]).model() == items@[k].model(),
        decreases items.len() - i,
    {
        copies.push(clone_json(&items[i]));
        i += 1;
    }
    let arr = JsonValue::Array(copies);
    assert(arr.model()->Array_0 =~= models(items@));
    push_json_text(out, &arr);
}

/// A copy of a value.
pub fn clone_json(v: &JsonValue) -> (r: JsonValue)
    ensures
        r.model() == v.model(),
    decreases v,
{
    match v {
        JsonValue::Null => JsonValue::Null,
        JsonValue::Bool(b) => JsonValue::Bool(*b),
        JsonValue::Number(t) => JsonValue::Number(t.clone()),
        JsonValue::Str(t) => JsonValue::Str(t.clone()),
        JsonValue::Array(items) => {
            let mut out: Vec<JsonValue> = Vec::new();
            let mut i: usize = 0;
            while i < items.len()
                invariant
                    i <= items.len(),
                    v == JsonValue::Array(*items),
                    out@.len() == i,
                    forall|k: int| 0 <= k < i ==> (#[trigger] out@[k]).model() == items@[k].model(),
                decreases items.len() - i,
            {
                proof {
                    assert(decreases_to!(*v => v->Array_0));
                    assert(decreases_to!(*items => items@));
                    assert(decreases_to!(items@ => items@[i as int]));
                    assert(decreases_to!(*v => items@[i as int]));
                }
                let c = clone_json(&items[i]);
                out.push(c);
                i += 1;
            }
            let r = JsonValue::Array(out);
            assert(r.model()->Array_0 =~= v.model()->Array_0);
            r
        },
        JsonValue::Object(entries) => {
            let mut out: Vec<JsonEntry> = Vec::new();
            let mut i: usize = 0;
            while i < entries.len()
                invariant
                    i <= entries.len(),
                    v == JsonValue::Object(*entries),
                    out@.len() == i,
                    forall|k: int|
                        0 <= k < i ==> (#[trigger] out@[k]).key@ == entries@[k].key@
                            && out@[k].value.model() == entries@[k].value.model(),
                decreases entries.len() - i,
            {
                proof {
                    assert(decreases_to!(*v => v->Object_0));
                    assert(decreases_to!(*entries => entries@));
                    assert(decreases_to!(entries@ => entries@[i as int]));
                    assert(decreases_to!(entries@[i as int] => entries@[i as int].value));
                    assert(decreases_to!(*v => entries@[i as int].value));
                }
                let value = clone_json(&entries[i].value);
                out.push(JsonEntry { key: entries[i].key.clone(), value });
                i += 1;
            }
            let r = JsonValue::Object(out);
            assert(r.model()->Object_0 =~= v.model()->Object_0);
            r
        },
    }
}

/// Whether keys run in strictly ascending order, so that none repeats.
pub open spec fn keys_ascending(keys: Seq<Seq<char>>) -> bool {
    forall|i: int, j: int| 0 <= i < j < keys.len() ==> text_lt(#[trigger] keys[i], #[trigger] keys[j])
}

/// The keys of object entries, in their order.
pub open spec fn entry_keys(entries: Seq<(Seq<char>, Json)>) -> Seq<Seq<char>> {
    entries.map_values(|e: (Seq<char>, Json)| e.0)
}

/// The invariant of JSON values as the library holds them: every object,
/// at any depth, has its keys in strictly ascending order.
pub open spec fn json_well_formed(j: Json) -> bool
    decreases j,
{
    match j {
        Json::Array(items) => forall|i: int|
            0 <= i < items.len() ==> json_well_formed(#[trigger] items[i]),
        Json::Object(entries) => keys_ascending(entry_keys(entries)) && forall|i: int|
            0 <= i < entries.len() ==> json_well_formed(#[trigger] entries[i].1),
        _ => true,
    }
}

/// Whether texts run in strictly ascending order, checked pair by pair.
pub fn texts_ascending(keys: &Vec<&str>) -> (r: bool)
    ensures
        r == keys_ascending(keys@.map_values(|k: &str| k@)),
{
    let ghost ks = keys@.map_values(|k: &str| k@);
    let mut i: usize = 1;
    if keys.len() == 0 {
        return true;
    }
    while i < keys.len()
        invariant
            1 <= i <= keys@.len(),
            ks == keys@.map_values(|k: &str| k@),
            keys_ascending(ks.take(i as int)),
        decreases keys.len() - i,
    {
        if !text_less(keys[i - 1], keys[i]) {
            assert(!keys_ascending(ks)) by {
                assert(ks[i - 1] == keys@[i - 1]@);
                assert(ks[i as int] == keys@[i as int]@);
            }
            return false;
        }
        proof {
            let t = ks.take(i as int + 1);
            assert forall|a: int, b: int| 0 <= a < b < t.len() implies text_lt(
                #[trigger] t[a],
                #[trigger] t[b],
            ) by {
                assert(t[a] == ks[a]);
                assert(t[b] == ks[b]);
                if b < i {
                    assert(ks.take(i as int)[a] == ks[a]);
                    assert(ks.take(i as int)[b] == ks[b]);
                } else if a < i - 1 {
                    assert(ks.take(i as int)[a] == ks[a]);
                    assert(ks.take(i as int)[i - 1] == ks[i - 1]);
                    text_lt_transitive(ks[a], ks[i - 1], ks[b]);
                }
            }
        }
        i += 1;
    }
    assert(ks.take(keys@.len() as int) =~= ks);
    true
}

/// Whether a value meets the invariant: every object's keys strictly
/// ascending, at any depth.
pub fn is_well_formed(v: &JsonValue) -> (r: bool)
    ensures
        r == json_well_formed(v.model()),
    decreases v,
{
    match v {
        JsonValue::Array(items) => {
            let mut i: usize = 0;
            while i < items.len()
                invariant
                    i <= items.len(),
                    v == JsonValue::Array(*items),
                    forall|k: int| 0 <= k < i ==> json_well_formed(#[trigger] v.model()->Array_0[k]),
                decreases items.len() - i,
            {
                proof {
                    assert(decreases_to!(*v => v->Array_0));
                    assert(decreases_to!(*items => items@));
                    assert(decreases_to!(items@ => items@[i as int]));
                    assert(decreases_to!(*v => items@[i as int]));
                }
                if !is_well_formed(&items[i]) {
                    assert(v.model()->Array_0[i as int] == items@[i as int].model());
                    return false;
                }
                assert(v.model()->Array_0[i as int] == items@[i as int].model());
                i += 1;
            }
            true
        },
        JsonValue::Object(entries) => {
            let mut keys: Vec<&str> = Vec::new();
            let mut i: usize = 0;
            while i < entries.len()
                invariant
                    i <= entries.len(),
                    keys@.len() == i,
                    forall|k: int| 0 <= k < i ==> (#[trigger] keys@[k])@ == entries@[k].key@,
                decreases entries.len() - i,
            {
                keys.push(entries[i].key.as_str());
                i += 1;
            }
            let ghost m = v.model()->Object_0;
            assert(keys@.map_values(|k: &str| k@) =~= entry_keys(m));
            if !texts_ascending(&keys) {
                return false;
            }
            let mut j: usize = 0;
            while j < entries.len()
                invariant
                    j <= entries.len(),
                    v == JsonValue::Object(*entries),
                    m == v.model()->Object_0,
                    forall|k: int| 0 <= k < j ==> json_well_formed(#[trigger] m[k].1),
                decreases entries.len() - j,
            {
                proof {
                    assert(decreases_to!(*v => v->Object_0));
                    assert(decreases_to!(*entries => entries@));
                    assert(decreases_to!(entries@ => entries@[j as int]));
                    assert(decreases_to!(entries@[j as int] => entries@[j as int].value));
                    assert(decreases_to!(*v => entries@[j as int].value));
                }
                if !is_well_formed(&entries[j].value) {
                    assert(m[j as int].1 == entries@[j as int].value.model());
                    return false;
                }
                assert(m[j as int].1 == entries@[j as int].value.model());
                j += 1;
            }
            true
        },
        _ => true,
    }
}

} // verus!
