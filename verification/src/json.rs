use vstd::prelude::*;

verus! {

/// A JSON tree held as plain values, so that reading fields out of a
/// response body is ordinary verified code. A number outside the signed
/// 64-bit range (for instance a fraction) is kept only as `BigNum`, which no
/// field of the wire format accepts.
pub enum Json {
    Null,
    Bool(bool),
    Int(i64),
    BigNum,
    Str(String),
    Arr(Vec<Json>),
    Obj(Vec<(String, Json)>),
}

/// The mathematical shape of a JSON tree: texts as character sequences,
/// arrays and objects as sequences.
pub ghost enum JsonV {
    Null,
    Bool(bool),
    Int(int),
    BigNum,
    Str(Seq<char>),
    Arr(Seq<JsonV>),
    Obj(Seq<(Seq<char>, JsonV)>),
}

/// The shape of a held JSON tree.
pub open spec fn jview(j: Json) -> JsonV
    decreases j,
{
    match j {
        Json::Null => JsonV::Null,
        Json::Bool(b) => JsonV::Bool(b),
        Json::Int(n) => JsonV::Int(n as int),
        Json::BigNum => JsonV::BigNum,
        Json::Str(s) => JsonV::Str(s@),
        Json::Arr(v) => {
            proof {
                broadcast use vstd::std_specs::vec::group_vec_axioms;

            }
            JsonV::Arr(jview_seq(v@))
        },
        Json::Obj(v) => {
            proof {
                broadcast use vstd::std_specs::vec::group_vec_axioms;

            }
            JsonV::Obj(jview_pairs(v@))
        },
    }
}

/// The shapes of the elements of an array node, in order.
pub open spec fn jview_seq(s: Seq<Json>) -> Seq<JsonV>
    decreases s,
{
    if s.len() == 0 {
        Seq::empty()
    } else {
        proof {
            broadcast use vstd::seq::group_seq_axioms;

            assert(decreases_to!(s => s[0]));
            assert(s.drop_first() == s.subrange(1, s.len() as int));
        }
        seq![jview(s[0])] + jview_seq(s.drop_first())
    }
}

/// The shapes of the pairs of an object node, in order.
pub open spec fn jview_pairs(s: Seq<(String, Json)>) -> Seq<(Seq<char>, JsonV)>
    decreases s,
{
    if s.len() == 0 {
        Seq::empty()
    } else {
        proof {
            broadcast use vstd::seq::group_seq_axioms;

            assert(decreases_to!(s => s[0]));
            assert(s.drop_first() == s.subrange(1, s.len() as int));
        }
        seq![(s[0].0@, jview(s[0].1))] + jview_pairs(s.drop_first())
    }
}

/// Element by element, an array node's shape is its elements' shapes.
pub proof fn lemma_jview_seq(s: Seq<Json>)
    ensures
        jview_seq(s).len() == s.len(),
        forall|i: int| 0 <= i < s.len() ==> jview_seq(s)[i] == jview(s[i]),
    decreases s.len(),
{
    if s.len() > 0 {
        lemma_jview_seq(s.drop_first());
    }
}

/// Pair by pair, an object node's shape is its pairs' shapes.
pub proof fn lemma_jview_pairs(s: Seq<(String, Json)>)
    ensures
        jview_pairs(s).len() == s.len(),
        forall|i: int|
            0 <= i < s.len() ==> jview_pairs(s)[i] == (s[i].0@, jview(s[i].1)),
    decreases s.len(),
{
    if s.len() > 0 {
        lemma_jview_pairs(s.drop_first());
    }
}

/// The tree that a text holds when it is well-formed JSON, and nothing when
/// it is not. What this names is decided by the JSON grammar alone, so it is
/// a function of the text.
pub uninterp spec fn json_of(s: Seq<char>) -> Option<JsonV>;

#[verifier::external_type_specification]
#[verifier::external_body]
pub struct ExValue(serde_json::Value);

/// Relies on serde_json::Value being an enum of exactly null, bool, number,
/// string, array and object: each variant is moved over one to one; a number
/// is kept when `as_i64` accepts it and marked out of range otherwise.
#[verifier::external_body]
fn from_value(v: &serde_json::Value) -> Json {
    match v {
        serde_json::Value::Null => Json::Null,
        serde_json::Value::Bool(b) => Json::Bool(*b),
        serde_json::Value::Number(n) => match n.as_i64() {
            Some(i) => Json::Int(i),
            None => Json::BigNum,
        },
        serde_json::Value::String(s) => Json::Str(s.clone()),
        serde_json::Value::Array(a) => Json::Arr(a.iter().map(from_value).collect()),
        serde_json::Value::Object(m) => Json::Obj(
            m.iter().map(|(k, x)| (k.clone(), from_value(x))).collect(),
        ),
    }
}

/// Relies on serde_json::from_str::<serde_json::Value>: a well-formed text
/// yields its JSON tree, a malformed one an error, whose description is
/// passed along.
#[verifier::external_body]
pub(crate) fn parse_json(text: &str) -> (r: Result<Json, String>)
    ensures
        r matches Ok(j) ==> json_of(text@) == Some(jview(j)),
        r is Err ==> json_of(text@) is None,
{
    match serde_json::from_str::<serde_json::Value>(text) {
        Ok(v) => Ok(from_value(&v)),
        Err(e) => Err(e.to_string()),
    }
}

/// Relies on serde_json::from_str::<serde_json::Value>: parses the same text
/// once more, only so that a structured copy can be shown beside a parse
/// diagnostic.
#[verifier::external_body]
pub(crate) fn reparse_value(text: &str) -> (r: Option<serde_json::Value>)
    ensures
        r is Some <==> json_of(text@) is Some,
{
    serde_json::from_str::<serde_json::Value>(text).ok()
}

/// Relies on serde_json::Value's pretty Debug rendering; used only inside a
/// diagnostic line.
#[verifier::external_body]
pub(crate) fn dump_value(v: &serde_json::Value) -> String {
    format!("{:#?}", v)
}

/// The value under the first occurrence of a key in an object's pair list.
pub open spec fn s_get(o: Seq<(Seq<char>, JsonV)>, key: Seq<char>) -> Option<JsonV>
    decreases o.len(),
{
    if o.len() == 0 {
        None
    } else if o[0].0 == key {
        Some(o[0].1)
    } else {
        s_get(o.drop_first(), key)
    }
}

proof fn lemma_s_get_skip(o: Seq<(Seq<char>, JsonV)>, key: Seq<char>, k: int)
    requires
        0 <= k <= o.len(),
        forall|j: int| 0 <= j < k ==> o[j].0 != key,
    ensures
        s_get(o, key) == s_get(o.skip(k), key),
    decreases k,
{
    if k > 0 {
        lemma_s_get_skip(o, key, k - 1);
        assert(o.skip(k - 1).drop_first() =~= o.skip(k));
    } else {
        assert(o.skip(0) =~= o);
    }
}

/// Looks a key up in an object node's pair list, first match winning.
pub(crate) fn obj_get<'a>(v: &'a Vec<(String, Json)>, key: &String) -> (r: Option<&'a Json>)
    ensures
        (r matches Some(j) ==> s_get(jview_pairs(v@), key@) == Some(jview(*j))),
        (r is None ==> s_get(jview_pairs(v@), key@) is None),
{
    let mut k: usize = 0;
    while k < v.len()
        invariant
            k <= v.len(),
            forall|j: int| 0 <= j < k ==> jview_pairs(v@)[j].0 != key@,
        decreases v.len() - k,
    {
        if v[k].0 == *key {
            proof {
                lemma_jview_pairs(v@);
                lemma_s_get_skip(jview_pairs(v@), key@, k as int);
                assert(jview_pairs(v@).skip(k as int)[0] == jview_pairs(v@)[k as int]);
            }
            return Some(&v[k].1);
        }
        proof {
            lemma_jview_pairs(v@);
            assert(jview_pairs(v@)[k as int].0 == v@[k as int].0@);
        }
        k = k + 1;
    }
    proof {
        lemma_jview_pairs(v@);
        lemma_s_get_skip(jview_pairs(v@), key@, v@.len() as int);
    }
    None
}

/// A required text field: the key must be present and hold a string.
pub open spec fn s_req_str(o: Seq<(Seq<char>, JsonV)>, key: Seq<char>) -> Option<Seq<char>> {
    match s_get(o, key) {
        Some(JsonV::Str(s)) => Some(s),
        _ => None,
    }
}

/// An optional text field: absent or null is nothing, a string is itself,
/// any other value is malformed.
pub open spec fn s_opt_str(o: Seq<(Seq<char>, JsonV)>, key: Seq<char>) -> Option<
    Option<Seq<char>>,
> {
    match s_get(o, key) {
        None => Some(None),
        Some(JsonV::Null) => Some(None),
        Some(JsonV::Str(s)) => Some(Some(s)),
        _ => None,
    }
}

/// A required counter field: the key must hold an unsigned 32-bit number.
pub open spec fn s_req_u32(o: Seq<(Seq<char>, JsonV)>, key: Seq<char>) -> Option<u32> {
    match s_get(o, key) {
        Some(JsonV::Int(n)) => if 0 <= n <= u32::MAX {
            Some(n as u32)
        } else {
            None
        },
        _ => None,
    }
}

/// An optional counter field, in the same three-way reading as `s_opt_str`.
pub open spec fn s_opt_u32(o: Seq<(Seq<char>, JsonV)>, key: Seq<char>) -> Option<Option<u32>> {
    match s_get(o, key) {
        None => Some(None),
        Some(JsonV::Null) => Some(None),
        Some(JsonV::Int(n)) => if 0 <= n <= u32::MAX {
            Some(Some(n as u32))
        } else {
            None
        },
        _ => None,
    }
}

/// A required flag field: the key must hold a boolean.
pub open spec fn s_req_bool(o: Seq<(Seq<char>, JsonV)>, key: Seq<char>) -> Option<bool> {
    match s_get(o, key) {
        Some(JsonV::Bool(b)) => Some(b),
        _ => None,
    }
}

/// An optional array field, in the same three-way reading as `s_opt_str`.
pub open spec fn s_opt_arr(o: Seq<(Seq<char>, JsonV)>, key: Seq<char>) -> Option<
    Option<Seq<JsonV>>,
> {
    match s_get(o, key) {
        None => Some(None),
        Some(JsonV::Null) => Some(None),
        Some(JsonV::Arr(a)) => Some(Some(a)),
        _ => None,
    }
}

fn field_err(key: &String) -> (r: String) {
    let mut msg = String::from_str("missing or malformed field ");
    msg.append(key.as_str());
    msg
}

pub(crate) fn req_str(v: &Vec<(String, Json)>, key: &String) -> (r: Result<String, String>)
    ensures
        (r matches Ok(s) ==> s_req_str(jview_pairs(v@), key@) == Some(s@)),
        (r is Err <==> s_req_str(jview_pairs(v@), key@) is None),
{
    match obj_get(v, key) {
        Some(j) => match j {
            Json::Str(s) => Ok(s.clone()),
            _ => Err(field_err(key)),
        },
        None => Err(field_err(key)),
    }
}

pub(crate) fn opt_str(v: &Vec<(String, Json)>, key: &String) -> (r: Result<
    Option<String>,
    String,
>)
    ensures
        (r matches Ok(s) ==> (match s {
            Some(x) => s_opt_str(jview_pairs(v@), key@) == Some(Some(x@)),
            None => s_opt_str(jview_pairs(v@), key@) == Some(None::<Seq<char>>),
        })),
        (r is Err <==> s_opt_str(jview_pairs(v@), key@) is None),
{
    match obj_get(v, key) {
        Some(j) => match j {
            Json::Str(s) => Ok(Some(s.clone())),
            Json::Null => Ok(None),
            _ => Err(field_err(key)),
        },
        None => Ok(None),
    }
}

pub(crate) fn req_u32(v: &Vec<(String, Json)>, key: &String) -> (r: Result<u32, String>)
    ensures
        (r matches Ok(n) ==> s_req_u32(jview_pairs(v@), key@) == Some(n)),
        (r is Err <==> s_req_u32(jview_pairs(v@), key@) is None),
{
    match obj_get(v, key) {
        Some(j) => match j {
            Json::Int(n) => {
                let n = *n;
                if 0 <= n && n <= u32::MAX as i64 {
                    Ok(n as u32)
                } else {
                    Err(field_err(key))
                }
            },
            _ => Err(field_err(key)),
        },
        None => Err(field_err(key)),
    }
}

pub(crate) fn opt_u32(v: &Vec<(String, Json)>, key: &String) -> (r: Result<Option<u32>, String>)
    ensures
        (r matches Ok(s) ==> (match s {
            Some(n) => s_opt_u32(jview_pairs(v@), key@) == Some(Some(n)),
            None => s_opt_u32(jview_pairs(v@), key@) == Some(None::<u32>),
        })),
        (r is Err <==> s_opt_u32(jview_pairs(v@), key@) is None),
{
    match obj_get(v, key) {
        Some(j) => match j {
            Json::Int(n) => {
                let n = *n;
                if 0 <= n && n <= u32::MAX as i64 {
                    Ok(Some(n as u32))
                } else {
                    Err(field_err(key))
                }
            },
            Json::Null => Ok(None),
            _ => Err(field_err(key)),
        },
        None => Ok(None),
    }
}

pub(crate) fn req_bool(v: &Vec<(String, Json)>, key: &String) -> (r: Result<bool, String>)
    ensures
        (r matches Ok(b) ==> s_req_bool(jview_pairs(v@), key@) == Some(b)),
        (r is Err <==> s_req_bool(jview_pairs(v@), key@) is None),
{
    match obj_get(v, key) {
        Some(j) => match j {
            Json::Bool(b) => Ok(*b),
            _ => Err(field_err(key)),
        },
        None => Err(field_err(key)),
    }
}

pub(crate) fn opt_arr<'a>(v: &'a Vec<(String, Json)>, key: &String) -> (r: Result<
    Option<&'a Vec<Json>>,
    String,
>)
    ensures
        (r matches Ok(s) ==> (match s {
            Some(a) => s_opt_arr(jview_pairs(v@), key@) == Some(Some(jview_seq(a@))),
            None => s_opt_arr(jview_pairs(v@), key@) == Some(None::<Seq<JsonV>>),
        })),
        (r is Err <==> s_opt_arr(jview_pairs(v@), key@) is None),
{
    match obj_get(v, key) {
        Some(j) => match j {
            Json::Arr(a) => Ok(Some(a)),
            Json::Null => Ok(None),
            _ => Err(field_err(key)),
        },
        None => Ok(None),
    }
}

} // verus!
