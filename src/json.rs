//! A JSON value held as plain data, with its mathematical model.
//!
//! Text is turned into values and back by serde_json; everything the gateway
//! reads out of a value is done here, on `JsonValue`, and is verified.
use vstd::prelude::*;

verus! {

#[verifier::external_type_specification]
#[verifier::external_body]
pub struct ExSerdeValue(serde_json::Value);

/// A JSON document. Integers that fit in `i64` are `Int`; any other number
/// keeps its decimal text in `Num`. An object is a list of members.
#[derive(Debug)]
pub enum JsonValue {
    Null,
    Bool(bool),
    Int(i64),
    Num(String),
    Str(String),
    Array(Vec<JsonValue>),
    Object(Vec<(String, JsonValue)>),
}

/// The model of a `JsonValue`.
pub enum Json {
    Null,
    Bool(bool),
    Int(int),
    Num(Seq<char>),
    Str(Seq<char>),
    Array(Seq<Json>),
    Object(Seq<(Seq<char>, Json)>),
}

pub open spec fn json_view(v: &JsonValue) -> Json
    decreases v,
{
    match v {
        JsonValue::Null => Json::Null,
        JsonValue::Bool(b) => Json::Bool(*b),
        JsonValue::Int(n) => Json::Int(*n as int),
        JsonValue::Num(s) => Json::Num(s@),
        JsonValue::Str(s) => Json::Str(s@),
        JsonValue::Array(items) => Json::Array(
            Seq::new(
                items.len() as nat,
                |i: int|
                    if 0 <= i < items.len() {
                        json_view(&items[i])
                    } else {
                        Json::Null
                    },
            ),
        ),
        JsonValue::Object(fields) => Json::Object(
            Seq::new(
                fields.len() as nat,
                |i: int|
                    if 0 <= i < fields.len() {
                        (fields[i].0@, json_view(&fields[i].1))
                    } else {
                        (Seq::empty(), Json::Null)
                    },
            ),
        ),
    }
}

impl View for JsonValue {
    type V = Json;

    open spec fn view(&self) -> Json {
        json_view(self)
    }
}

/// The value of the first member named `key` at or after position `i`.
pub open spec fn lookup_from(fields: Seq<(Seq<char>, Json)>, key: Seq<char>, i: int) -> Option<Json>
    decreases fields.len() - i,
{
    if i < 0 || i >= fields.len() {
        None
    } else if fields[i].0 == key {
        Some(fields[i].1)
    } else {
        lookup_from(fields, key, i + 1)
    }
}

/// The member `key` of an object; `None` for a missing member or a non-object.
pub open spec fn field(j: Json, key: Seq<char>) -> Option<Json> {
    match j {
        Json::Object(fields) => lookup_from(fields, key, 0),
        _ => None,
    }
}

/// A member that is absent or `null`.
pub open spec fn absent_or_null(j: Json, key: Seq<char>) -> bool {
    field(j, key) is None || field(j, key) == Some(Json::Null)
}

/// The model of an optional value written as a member: absent becomes `null`.
pub open spec fn opt_json(o: Option<Json>) -> Json {
    match o {
        Some(j) => j,
        None => Json::Null,
    }
}

/// What serde_json reads from a text: the document, or `None` where the
/// text is not JSON.
pub uninterp spec fn parsed_text(text: Seq<char>) -> Option<Json>;

/// The compact text that serde_json writes for a document.
pub uninterp spec fn written_text(j: Json) -> Seq<char>;

/// Compares two string slices character by character.
pub fn str_eq(a: &str, b: &str) -> (r: bool)
    ensures
        r == (a@ == b@),
{
    let n = a.unicode_len();
    if n != b.unicode_len() {
        return false;
    }
    let mut i: usize = 0;
    while i < n
        invariant
            n == a@.len(),
            n == b@.len(),
            i <= n,
            forall|k: int| 0 <= k < i ==> a@[k] == b@[k],
        decreases n - i,
    {
        if a.get_char(i) != b.get_char(i) {
            return false;
        }
        i = i + 1;
    }
    assert(a@ =~= b@);
    true
}

/// The member `key` of an object value.
pub fn get_field<'a>(v: &'a JsonValue, key: &str) -> (r: Option<&'a JsonValue>)
    ensures
        field(v@, key@) == match r {
            Some(x) => Some(x@),
            None => None::<Json>,
        },
{
    match v {
        JsonValue::Object(fields) => {
            let ghost m = v@->Object_0;
            let mut i: usize = 0;
            while i < fields.len()
                invariant
                    v@ == Json::Object(m),
                    m.len() == fields.len(),
                    forall|k: int|
                        0 <= k < fields.len() ==> #[trigger] m[k] == (fields[k].0@, fields[k].1@),
                    i <= fields.len(),
                    lookup_from(m, key@, 0) == lookup_from(m, key@, i as int),
                decreases fields.len() - i,
            {
                assert(m[i as int] == (fields[i as int].0@, fields[i as int].1@));
                if str_eq(fields[i].0.as_str(), key) {
                    return Some(&fields[i].1);
                }
                i = i + 1;
            }
            None
        },
        _ => None,
    }
}

/// The model of a list of members.
pub open spec fn members_view(fields: Seq<(String, JsonValue)>) -> Seq<(Seq<char>, Json)> {
    Seq::new(fields.len(), |i: int| (fields[i].0@, fields[i].1@))
}

/// An object's model is the model of its members.
pub proof fn lemma_object_view(fields: Vec<(String, JsonValue)>)
    ensures
        JsonValue::Object(fields)@ == Json::Object(members_view(fields@)),
{
    assert(JsonValue::Object(fields)@->Object_0 =~= members_view(fields@));
}

/// Appends a member to a list of members.
pub fn push_member(fields: &mut Vec<(String, JsonValue)>, key: &str, v: JsonValue)
    ensures
        members_view(final(fields)@) == members_view(old(fields)@).push((key@, v@)),
{
    let ghost v_model = v@;
    fields.push((key.to_owned(), v));
    assert(members_view(final(fields)@) =~= members_view(old(fields)@).push((key@, v_model)));
}

/// The first member named `key` at or after `i` is the one at `k`.
pub proof fn lemma_lookup_found(fields: Seq<(Seq<char>, Json)>, key: Seq<char>, k: int, i: int)
    requires
        0 <= i <= k < fields.len(),
        fields[k].0 == key,
        forall|j: int| i <= j < k ==> fields[j].0 != key,
    ensures
        lookup_from(fields, key, i) == Some(fields[k].1),
    decreases k - i,
{
    if i < k {
        lemma_lookup_found(fields, key, k, i + 1);
    }
}

/// No member at or after `i` is named `key`.
pub proof fn lemma_lookup_missing(fields: Seq<(Seq<char>, Json)>, key: Seq<char>, i: int)
    requires
        0 <= i,
        forall|j: int| i <= j < fields.len() ==> fields[j].0 != key,
    ensures
        lookup_from(fields, key, i) is None,
    decreases fields.len() - i,
{
    if i < fields.len() {
        lemma_lookup_missing(fields, key, i + 1);
    }
}

/// An integer member; `None` where it is missing or not an integer.
pub open spec fn int_member(j: Json, key: Seq<char>) -> Option<int> {
    match field(j, key) {
        Some(Json::Int(n)) => Some(n),
        _ => None,
    }
}

/// A string member; `None` where it is missing or not a string.
pub open spec fn str_member(j: Json, key: Seq<char>) -> Option<Seq<char>> {
    match field(j, key) {
        Some(Json::Str(s)) => Some(s),
        _ => None,
    }
}

/// A boolean member; `None` where it is missing or not a boolean.
pub open spec fn bool_member(j: Json, key: Seq<char>) -> Option<bool> {
    match field(j, key) {
        Some(Json::Bool(b)) => Some(b),
        _ => None,
    }
}

/// An optional integer member: `Some(None)` where it is missing or `null`,
/// `None` where it holds anything but an integer.
pub open spec fn opt_int_member(j: Json, key: Seq<char>) -> Option<Option<int>> {
    match field(j, key) {
        None => Some(None),
        Some(Json::Null) => Some(None),
        Some(Json::Int(n)) => Some(Some(n)),
        _ => None,
    }
}

/// An optional string member, read as `opt_int_member` reads an integer.
pub open spec fn opt_str_member(j: Json, key: Seq<char>) -> Option<Option<Seq<char>>> {
    match field(j, key) {
        None => Some(None),
        Some(Json::Null) => Some(None),
        Some(Json::Str(s)) => Some(Some(s)),
        _ => None,
    }
}

/// A member of any kind, where `null` counts as missing.
pub open spec fn any_member(j: Json, key: Seq<char>) -> Option<Json> {
    match field(j, key) {
        Some(Json::Null) => None,
        other => other,
    }
}

/// A copy of a value.
pub fn copy_json(v: &JsonValue) -> (r: JsonValue)
    ensures
        r@ == v@,
    decreases v,
{
    match v {
        JsonValue::Null => JsonValue::Null,
        JsonValue::Bool(b) => JsonValue::Bool(*b),
        JsonValue::Int(n) => JsonValue::Int(*n),
        JsonValue::Num(s) => JsonValue::Num(s.clone()),
        JsonValue::Str(s) => JsonValue::Str(s.clone()),
        JsonValue::Array(items) => {
            let mut out: Vec<JsonValue> = Vec::new();
            let mut i: usize = 0;
            while i < items.len()
                invariant
                    *v == JsonValue::Array(*items),
                    i <= items.len(),
                    out.len() == i,
                    forall|k: int| 0 <= k < i ==> #[trigger] out[k]@ == items[k]@,
                decreases items.len() - i,
            {
                proof {
                    assert(decreases_to!(*items => items[i as int]));
                    assert(decreases_to!(*v => v->Array_0));
                    assert(decreases_to!(*v => items[i as int]));
                }
                out.push(copy_json(&items[i]));
                i = i + 1;
            }
            let r = JsonValue::Array(out);
            assert forall|k: int| 0 <= k < items.len() implies json_view(&out[k]) == json_view(
                &items[k],
            ) by {
                assert(out[k]@ == items[k]@);
            }
            assert(r@->Array_0 =~= v@->Array_0);
            r
        },
        JsonValue::Object(fields) => {
            let mut out: Vec<(String, JsonValue)> = Vec::new();
            let mut i: usize = 0;
            while i < fields.len()
                invariant
                    *v == JsonValue::Object(*fields),
                    i <= fields.len(),
                    out.len() == i,
                    forall|k: int|
                        0 <= k < i ==> (#[trigger] out[k]).0@ == fields[k].0@ && out[k].1@
                            == fields[k].1@,
                decreases fields.len() - i,
            {
                proof {
                    assert(decreases_to!(*fields => fields[i as int]));
                    assert(decreases_to!(*v => v->Object_0));
                    assert(decreases_to!(fields[i as int] => fields[i as int].1));
                    assert(decreases_to!(*v => fields[i as int].1));
                }
                out.push((fields[i].0.clone(), copy_json(&fields[i].1)));
                i = i + 1;
            }
            let r = JsonValue::Object(out);
            assert forall|k: int| 0 <= k < fields.len() implies json_view(&out[k].1) == json_view(
                &fields[k].1,
            ) && out[k].0@ == fields[k].0@ by {
                assert(out[k].0@ == fields[k].0@);
            }
            assert(r@->Object_0 =~= v@->Object_0);
            r
        },
    }
}

/// Reads an integer member.
pub fn get_int(v: &JsonValue, key: &str) -> (r: Option<i64>)
    ensures
        int_member(v@, key@) == match r {
            Some(n) => Some(n as int),
            None => None::<int>,
        },
{
    match get_field(v, key) {
        Some(JsonValue::Int(n)) => Some(*n),
        _ => None,
    }
}

/// Reads a string member.
pub fn get_str(v: &JsonValue, key: &str) -> (r: Option<String>)
    ensures
        str_member(v@, key@) == match r {
            Some(s) => Some(s@),
            None => None::<Seq<char>>,
        },
{
    match get_field(v, key) {
        Some(JsonValue::Str(s)) => Some(s.clone()),
        _ => None,
    }
}

/// Reads a boolean member.
pub fn get_bool(v: &JsonValue, key: &str) -> (r: Option<bool>)
    ensures
        bool_member(v@, key@) == r,
{
    match get_field(v, key) {
        Some(JsonValue::Bool(b)) => Some(*b),
        _ => None,
    }
}

/// Reads an optional integer member.
pub fn get_opt_int(v: &JsonValue, key: &str) -> (r: Option<Option<i64>>)
    ensures
        opt_int_member(v@, key@) == match r {
            Some(Some(n)) => Some(Some(n as int)),
            Some(None) => Some(None::<int>),
            None => None::<Option<int>>,
        },
{
    match get_field(v, key) {
        None => Some(None),
        Some(JsonValue::Null) => Some(None),
        Some(JsonValue::Int(n)) => Some(Some(*n)),
        _ => None,
    }
}

/// Reads an optional string member.
pub fn get_opt_str(v: &JsonValue, key: &str) -> (r: Option<Option<String>>)
    ensures
        opt_str_member(v@, key@) == match r {
            Some(Some(s)) => Some(Some(s@)),
            Some(None) => Some(None::<Seq<char>>),
            None => None::<Option<Seq<char>>>,
        },
{
    match get_field(v, key) {
        None => Some(None),
        Some(JsonValue::Null) => Some(None),
        Some(JsonValue::Str(s)) => Some(Some(s.clone())),
        _ => None,
    }
}

/// Reads a member of any kind, `null` counting as missing.
pub fn get_any(v: &JsonValue, key: &str) -> (r: Option<JsonValue>)
    ensures
        any_member(v@, key@) == match r {
            Some(x) => Some(x@),
            None => None::<Json>,
        },
{
    match get_field(v, key) {
        None => None,
        Some(JsonValue::Null) => None,
        Some(x) => Some(copy_json(x)),
    }
}

/// Converts a serde_json value into a `JsonValue`, one node for one node.
#[verifier::external_body]
fn from_serde(v: serde_json::Value) -> JsonValue {
    match v {
        serde_json::Value::Null => JsonValue::Null,
        serde_json::Value::Bool(b) => JsonValue::Bool(b),
        serde_json::Value::Number(n) => match n.as_i64() {
            Some(i) => JsonValue::Int(i),
            None => JsonValue::Num(n.to_string()),
        },
        serde_json::Value::String(s) => JsonValue::Str(s),
        serde_json::Value::Array(a) => JsonValue::Array(a.into_iter().map(from_serde).collect()),
        serde_json::Value::Object(m) => JsonValue::Object(
            m.into_iter().map(|(k, x)| (k, from_serde(x))).collect(),
        ),
    }
}

/// Converts a `JsonValue` into a serde_json value, one node for one node.
#[verifier::external_body]
fn to_serde(v: &JsonValue) -> serde_json::Value {
    match v {
        JsonValue::Null => serde_json::Value::Null,
        JsonValue::Bool(b) => serde_json::Value::Bool(*b),
        JsonValue::Int(i) => serde_json::Value::from(*i),
        JsonValue::Num(s) => s.parse().map(serde_json::Value::Number).unwrap_or(serde_json::Value::Null),
        JsonValue::Str(s) => serde_json::Value::String(s.clone()),
        JsonValue::Array(a) => serde_json::Value::Array(a.iter().map(to_serde).collect()),
        JsonValue::Object(m) => serde_json::Value::Object(
            m.iter().map(|(k, x)| (k.clone(), to_serde(x))).collect(),
        ),
    }
}

/// Relies on serde_json::from_str::<serde_json::Value>: it reads a whole
/// text as one JSON document, and fails on anything else.
#[verifier::external_body]
pub fn parse_json(text: &str) -> (r: Option<JsonValue>)
    ensures
        match r {
            Some(v) => parsed_text(text@) == Some(v@),
            None => parsed_text(text@) is None,
        },
{
    serde_json::from_str::<serde_json::Value>(text).ok().map(from_serde)
}

/// Relies on serde_json::to_string on a serde_json::Value, which cannot fail
/// for a value of that type.
#[verifier::external_body]
pub fn write_json(v: &JsonValue) -> (r: String)
    ensures
        r@ == written_text(v@),
{
    serde_json::to_string(&to_serde(v)).unwrap_or_default()
}

} // verus!
