use vstd::prelude::*;

verus! {

/// A JSON document, held as the library's own tree of plain values. A number
/// carries the decoder's decimal rendering of its value, so that no floating
/// point stands in the library. An object holds its members in the order the
/// decoder hands them out.
pub enum Json {
    Null,
    Bool(bool),
    Num(String),
    Str(String),
    Arr(Vec<Json>),
    Obj(Vec<(String, Json)>),
}

/// The tree that a `serde_json::Value` holds, as the library's own type.
/// `serde_json::Value` is the outside decoder's document type; this names its
/// contents.
pub uninterp spec fn json_rep(v: serde_json::Value) -> Json;

/// What the outside JSON decoder yields on a text: `None` where the text is
/// not valid JSON, otherwise the parsed tree. The result depends on the text
/// alone.
pub uninterp spec fn json_of_text(s: Seq<char>) -> Option<Json>;

#[verifier::external_type_specification]
#[verifier::external_body]
pub struct ExValue(serde_json::Value);

/// Relies on serde_json::from_str::<serde_json::Value>: succeeds exactly on
/// valid JSON texts and returns the parsed document.
#[verifier::external_body]
fn parse_value(s: &str) -> (r: Option<serde_json::Value>)
    ensures
        match r {
            Some(v) => json_of_text(s@) == Some(json_rep(v)),
            None => json_of_text(s@) is None,
        },
{
    serde_json::from_str::<serde_json::Value>(s).ok()
}

/// Relies on serde_json::Value's variants: each arm moves the matching
/// payload over; a number comes as serde_json's decimal rendering of it.
#[verifier::external_body]
fn json_of_value(v: serde_json::Value) -> (r: Json)
    ensures
        r == json_rep(v),
{
    match v {
        serde_json::Value::Null => Json::Null,
        serde_json::Value::Bool(b) => Json::Bool(b),
        serde_json::Value::Number(n) => Json::Num(n.to_string()),
        serde_json::Value::String(s) => Json::Str(s),
        serde_json::Value::Array(a) => Json::Arr(a.into_iter().map(json_of_value).collect()),
        serde_json::Value::Object(m) => {
            Json::Obj(m.into_iter().map(|(k, w)| (k, json_of_value(w))).collect())
        },
    }
}

/// Parses a text through the outside JSON decoder and hands back the
/// library's own tree, or `None` where the text is not valid JSON.
pub fn parse_json(s: &str) -> (r: Option<Json>)
    ensures
        r == json_of_text(s@),
{
    match parse_value(s) {
        Some(v) => Some(json_of_value(v)),
        None => None,
    }
}

/// Character-for-character equality of two texts.
pub fn str_equal(a: &str, b: &str) -> (r: bool)
    ensures
        r == (a@ == b@),
{
    let alen = a.unicode_len();
    let blen = b.unicode_len();
    if alen != blen {
        return false;
    }
    let mut i: usize = 0;
    while i < alen
        invariant
            alen == a@.len(),
            blen == b@.len(),
            alen == blen,
            i <= alen,
            forall|j: int| 0 <= j < i ==> a@[j] == b@[j],
        decreases alen - i,
    {
        if a.get_char(i) != b.get_char(i) {
            return false;
        }
        i += 1;
    }
    proof {
        assert(a@ =~= b@);
    }
    true
}

/// The member a key names in an object's member list at or after an index:
/// the first pair carrying the key.
pub open spec fn obj_get_from(fields: Seq<(String, Json)>, key: Seq<char>, i: int) -> Option<Json>
    decreases fields.len() - i when 0 <= i <= fields.len()
{
    if i >= fields.len() {
        None
    } else if fields[i].0@ == key {
        Some(fields[i].1)
    } else {
        obj_get_from(fields, key, i + 1)
    }
}

/// The member a key names in an object's member list: the first pair carrying
/// the key, searched front to back.
pub open spec fn obj_get(fields: Seq<(String, Json)>, key: Seq<char>) -> Option<Json> {
    obj_get_from(fields, key, 0)
}

/// Scanning past members whose keys all differ from the searched key leaves
/// the search where it stands.
pub proof fn lemma_obj_get_scan(fields: Seq<(String, Json)>, key: Seq<char>, i: int, j: int)
    requires
        0 <= i <= j <= fields.len(),
        forall|k: int| i <= k < j ==> fields[k].0@ != key,
    ensures
        obj_get_from(fields, key, i) == obj_get_from(fields, key, j),
    decreases j - i,
{
    if i < j {
        lemma_obj_get_scan(fields, key, i + 1, j);
    }
}

/// Looks a key up in an object's member list, front to back.
pub fn get_field<'a>(fields: &'a Vec<(String, Json)>, key: &str) -> (r: Option<&'a Json>)
    ensures
        match r {
            Some(t) => obj_get(fields@, key@) == Some(*t),
            None => obj_get(fields@, key@) is None,
        },
{
    let mut i: usize = 0;
    while i < fields.len()
        invariant
            i <= fields@.len(),
            obj_get_from(fields@, key@, i as int) == obj_get(fields@, key@),
        decreases fields@.len() - i,
    {
        if str_equal(fields[i].0.as_str(), key) {
            return Some(&fields[i].1);
        }
        i += 1;
    }
    None
}

} // verus!
