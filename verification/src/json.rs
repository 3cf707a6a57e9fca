use vstd::prelude::*;
use crate::text::str_eq;

verus! {

/// A JSON document, as the library models the remote API's wire shapes.
/// Numbers that fit a 64-bit signed integer are held exactly; any other
/// number (a fraction, or an integer out of that range) is held as its
/// literal text, so that no value of the remote contract is lost.
#[derive(Debug)]
pub enum Json {
    Null,
    Bool(bool),
    Int(i64),
    NumText(String),
    Str(String),
    Arr(Vec<Json>),
    Obj(Vec<(String, Json)>),
}

/// The value bound to the first pair whose key reads `k`, if any.
pub open spec fn lookup_pairs(ps: Seq<(String, Json)>, k: Seq<char>) -> Option<Json>
    decreases ps.len(),
{
    if ps.len() == 0 {
        None
    } else if ps[0].0@ == k {
        Some(ps[0].1)
    } else {
        lookup_pairs(ps.drop_first(), k)
    }
}

/// The value of field `k` of `j`, when `j` is an object that has it.
pub open spec fn obj_get(j: Json, k: Seq<char>) -> Option<Json> {
    match j {
        Json::Obj(ps) => lookup_pairs(ps@, k),
        _ => None,
    }
}

pub open spec fn obj_has_key(j: Json, k: Seq<char>) -> bool {
    obj_get(j, k) is Some
}

/// The field pairs of an object document; empty for any other document.
pub open spec fn obj_pairs(j: Json) -> Seq<(String, Json)> {
    match j {
        Json::Obj(ps) => ps@,
        _ => Seq::empty(),
    }
}

/// The elements of an array document; empty for any other document.
pub open spec fn arr_items(j: Json) -> Seq<Json> {
    match j {
        Json::Arr(items) => items@,
        _ => Seq::empty(),
    }
}

impl Json {
    pub fn is_obj(&self) -> (b: bool)
        ensures
            b == (self is Obj),
    {
        match self {
            Json::Obj(_) => true,
            _ => false,
        }
    }
}

/// Finds field `key` in `j`, if `j` is an object that has it.
pub fn get_field<'a>(j: &'a Json, key: &str) -> (r: Option<&'a Json>)
    ensures
        match r {
            Some(v) => obj_get(*j, key@) == Some(*v),
            None => obj_get(*j, key@) is None,
        },
{
    match j {
        Json::Obj(ps) => {
            proof {
                assert(ps@.skip(0) =~= ps@);
            }
            let mut i: usize = 0;
            while i < ps.len()
                invariant
                    i <= ps@.len(),
                    obj_get(*j, key@) == lookup_pairs(ps@, key@),
                    lookup_pairs(ps@, key@) == lookup_pairs(ps@.skip(i as int), key@),
                decreases ps@.len() - i,
            {
                proof {
                    assert(ps@.skip(i as int)[0] == ps@[i as int]);
                    assert(ps@.skip(i as int).drop_first() =~= ps@.skip(i as int + 1));
                }
                if str_eq(ps[i].0.as_str(), key) {
                    proof {
                        assert(lookup_pairs(ps@.skip(i as int), key@) == Some(ps@[i as int].1));
                    }
                    return Some(&ps[i].1);
                }
                i += 1;
            }
            None
        },
        _ => None,
    }
}

// ---------------------------------------------------------------------------
// Field extraction, following the remote contract's reading rules: a field
// may be required (its absence fails the whole decode) or optional (absence
// and `null` both read as "not present"); a present field of the wrong shape
// always fails the decode.
// ---------------------------------------------------------------------------

pub open spec fn req_str_ok(j: Json, k: Seq<char>) -> bool {
    obj_get(j, k) matches Some(Json::Str(_))
}

pub open spec fn req_str_val(j: Json, k: Seq<char>) -> Seq<char> {
    match obj_get(j, k) {
        Some(Json::Str(s)) => s@,
        _ => Seq::empty(),
    }
}

pub open spec fn opt_str_ok(j: Json, k: Seq<char>) -> bool {
    match obj_get(j, k) {
        None => true,
        Some(Json::Null) => true,
        Some(Json::Str(_)) => true,
        _ => false,
    }
}

pub open spec fn opt_str_val(j: Json, k: Seq<char>) -> Option<Seq<char>> {
    match obj_get(j, k) {
        Some(Json::Str(s)) => Some(s@),
        _ => None,
    }
}

pub open spec fn req_i64_ok(j: Json, k: Seq<char>) -> bool {
    obj_get(j, k) matches Some(Json::Int(_))
}

pub open spec fn req_i64_val(j: Json, k: Seq<char>) -> i64 {
    match obj_get(j, k) {
        Some(Json::Int(n)) => n,
        _ => 0,
    }
}

pub open spec fn opt_i64_ok(j: Json, k: Seq<char>) -> bool {
    match obj_get(j, k) {
        None => true,
        Some(Json::Null) => true,
        Some(Json::Int(_)) => true,
        _ => false,
    }
}

pub open spec fn opt_i64_val(j: Json, k: Seq<char>) -> Option<i64> {
    match obj_get(j, k) {
        Some(Json::Int(n)) => Some(n),
        _ => None,
    }
}

pub open spec fn req_i32_ok(j: Json, k: Seq<char>) -> bool {
    match obj_get(j, k) {
        Some(Json::Int(n)) => i32::MIN <= n <= i32::MAX,
        _ => false,
    }
}

pub open spec fn req_i32_val(j: Json, k: Seq<char>) -> i32 {
    req_i64_val(j, k) as i32
}

pub open spec fn opt_i32_ok(j: Json, k: Seq<char>) -> bool {
    match obj_get(j, k) {
        None => true,
        Some(Json::Null) => true,
        Some(Json::Int(n)) => i32::MIN <= n <= i32::MAX,
        _ => false,
    }
}

pub open spec fn opt_i32_val(j: Json, k: Seq<char>) -> Option<i32> {
    match obj_get(j, k) {
        Some(Json::Int(n)) => Some(n as i32),
        _ => None,
    }
}

pub open spec fn req_bool_ok(j: Json, k: Seq<char>) -> bool {
    obj_get(j, k) matches Some(Json::Bool(_))
}

pub open spec fn req_bool_val(j: Json, k: Seq<char>) -> bool {
    match obj_get(j, k) {
        Some(Json::Bool(b)) => b,
        _ => false,
    }
}

// ---------------------------------------------------------------------------
// Writing optional fields: the remote contract reads `null` and an absent
// field alike, so an optional value that is carried in a fixed-shape object
// writes as `null` when it is not present.
// ---------------------------------------------------------------------------

pub open spec fn opt_str_json(o: Option<String>) -> Json {
    match o {
        Some(s) => Json::Str(s),
        None => Json::Null,
    }
}

pub fn opt_str_to_json(o: &Option<String>) -> (r: Json)
    ensures
        r == opt_str_json(*o),
{
    match o {
        Some(s) => Json::Str(s.clone()),
        None => Json::Null,
    }
}

pub open spec fn opt_i64_json(o: Option<i64>) -> Json {
    match o {
        Some(n) => Json::Int(n),
        None => Json::Null,
    }
}

pub fn opt_i64_to_json(o: &Option<i64>) -> (r: Json)
    ensures
        r == opt_i64_json(*o),
{
    match o {
        Some(n) => Json::Int(*n),
        None => Json::Null,
    }
}

/// Reads a required string field. `None` means the decode must fail.
pub fn take_req_str(j: &Json, key: &str) -> (r: Option<String>)
    ensures
        r is Some <==> req_str_ok(*j, key@),
        r matches Some(s) ==> s@ == req_str_val(*j, key@),
{
    match get_field(j, key) {
        Some(Json::Str(s)) => Some(s.clone()),
        _ => None,
    }
}

/// Reads an optional string field; the outer `None` means the decode must
/// fail, while `Some(None)` means the field is not present.
pub fn take_opt_str(j: &Json, key: &str) -> (r: Option<Option<String>>)
    ensures
        r is Some <==> opt_str_ok(*j, key@),
        r matches Some(v) ==> match v {
            Some(s) => opt_str_val(*j, key@) == Some(s@),
            None => opt_str_val(*j, key@) is None,
        },
{
    match get_field(j, key) {
        None => Some(None),
        Some(Json::Null) => Some(None),
        Some(Json::Str(s)) => Some(Some(s.clone())),
        _ => None,
    }
}

pub fn take_req_i64(j: &Json, key: &str) -> (r: Option<i64>)
    ensures
        r is Some <==> req_i64_ok(*j, key@),
        r matches Some(n) ==> n == req_i64_val(*j, key@),
{
    match get_field(j, key) {
        Some(Json::Int(n)) => Some(*n),
        _ => None,
    }
}

pub fn take_opt_i64(j: &Json, key: &str) -> (r: Option<Option<i64>>)
    ensures
        r is Some <==> opt_i64_ok(*j, key@),
        r matches Some(v) ==> v == opt_i64_val(*j, key@),
{
    match get_field(j, key) {
        None => Some(None),
        Some(Json::Null) => Some(None),
        Some(Json::Int(n)) => Some(Some(*n)),
        _ => None,
    }
}

pub fn take_req_i32(j: &Json, key: &str) -> (r: Option<i32>)
    ensures
        r is Some <==> req_i32_ok(*j, key@),
        r matches Some(n) ==> n == req_i32_val(*j, key@),
{
    match get_field(j, key) {
        Some(Json::Int(n)) => {
            let v = *n;
            if i32::MIN as i64 <= v && v <= i32::MAX as i64 {
                Some(v as i32)
            } else {
                None
            }
        },
        _ => None,
    }
}

pub fn take_opt_i32(j: &Json, key: &str) -> (r: Option<Option<i32>>)
    ensures
        r is Some <==> opt_i32_ok(*j, key@),
        r matches Some(v) ==> v == opt_i32_val(*j, key@),
{
    match get_field(j, key) {
        None => Some(None),
        Some(Json::Null) => Some(None),
        Some(Json::Int(n)) => {
            let v = *n;
            if i32::MIN as i64 <= v && v <= i32::MAX as i64 {
                Some(Some(v as i32))
            } else {
                None
            }
        },
        _ => None,
    }
}

pub fn take_req_bool(j: &Json, key: &str) -> (r: Option<bool>)
    ensures
        r is Some <==> req_bool_ok(*j, key@),
        r matches Some(b) ==> b == req_bool_val(*j, key@),
{
    match get_field(j, key) {
        Some(Json::Bool(b)) => Some(*b),
        _ => None,
    }
}

} // verus!
