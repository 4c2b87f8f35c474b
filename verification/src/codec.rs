//! The generic pieces of the wire codec: how one looked-up JSON
//! value decodes into a typed field, and how a typed field encodes
//! back into a JSON object entry.
//!
//! A *looked-up* value is what [`crate::json::spec_lookup`] returns
//! for a key: absent, or present with some JSON value. A required
//! field demands the right shape; an optional field treats absent and
//! null alike as unset.

use vstd::prelude::*;
use crate::errors::Error;
use crate::json::{JsonValue, spec_lookup, lookup_ref};

verus! {

/// A looked-up value that must be a string.
pub open spec fn req_str_wf(l: Option<JsonValue>) -> bool {
    l matches Some(v) && v is Str
}

/// A looked-up value that decoded to the text `f`.
pub open spec fn req_str_val(l: Option<JsonValue>, f: Seq<char>) -> bool {
    l matches Some(v) && (v matches JsonValue::Str(s) && s@ == f)
}

/// A looked-up value that may be absent, null, or a string.
pub open spec fn opt_str_wf(l: Option<JsonValue>) -> bool {
    match l {
        None => true,
        Some(v) => v is Str || v is Null,
    }
}

/// A looked-up optional string that decoded to `f`.
pub open spec fn opt_str_val(l: Option<JsonValue>, f: Option<String>) -> bool {
    match l {
        None => f is None,
        Some(v) => match v {
            JsonValue::Null => f is None,
            JsonValue::Str(s) => f matches Some(t) && t@ == s@,
            _ => false,
        },
    }
}

/// A looked-up value that must be an integer.
pub open spec fn req_int_wf(l: Option<JsonValue>) -> bool {
    l matches Some(v) && v is Int
}

/// A looked-up integer that decoded to `f`.
pub open spec fn req_int_val(l: Option<JsonValue>, f: i64) -> bool {
    l matches Some(v) && (v matches JsonValue::Int(i) && i == f)
}

/// A looked-up value that may be absent, null, or an integer.
pub open spec fn opt_int_wf(l: Option<JsonValue>) -> bool {
    match l {
        None => true,
        Some(v) => v is Int || v is Null,
    }
}

/// A looked-up optional integer that decoded to `f`.
pub open spec fn opt_int_val(l: Option<JsonValue>, f: Option<i64>) -> bool {
    match l {
        None => f is None,
        Some(v) => match v {
            JsonValue::Null => f is None,
            JsonValue::Int(i) => f == Some(i),
            _ => false,
        },
    }
}

/// A looked-up value that must be a truth value.
pub open spec fn req_bool_wf(l: Option<JsonValue>) -> bool {
    l matches Some(v) && v is Bool
}

/// A looked-up truth value that decoded to `f`.
pub open spec fn req_bool_val(l: Option<JsonValue>, f: bool) -> bool {
    l matches Some(v) && v == JsonValue::Bool(f)
}

/// A looked-up value that must be an object.
pub open spec fn obj_wf(l: Option<JsonValue>) -> bool {
    l matches Some(v) && v is Obj
}

/// A looked-up object whose fields were moved into `f`.
pub open spec fn obj_val(l: Option<JsonValue>, f: Seq<(String, JsonValue)>) -> bool {
    l matches Some(v) && (v matches JsonValue::Obj(m) && m@ == f)
}

/// A looked-up free-form value: absent and null both decode to
/// nothing, anything else is carried as it came.
pub open spec fn opt_json_val(l: Option<JsonValue>, f: Option<JsonValue>) -> bool {
    match l {
        None => f is None,
        Some(v) => match v {
            JsonValue::Null => f is None,
            _ => f == Some(v),
        },
    }
}

/// An encoded optional string field: null when unset.
pub open spec fn opt_str_entry(e: (String, JsonValue), k: Seq<char>, v: Option<String>) -> bool {
    &&& e.0@ == k
    &&& match v {
        None => e.1 is Null,
        Some(s) => e.1 matches JsonValue::Str(t) && t@ == s@,
    }
}

/// An encoded optional integer field: null when unset.
pub open spec fn opt_int_entry(e: (String, JsonValue), k: Seq<char>, v: Option<i64>) -> bool {
    &&& e.0@ == k
    &&& match v {
        None => e.1 is Null,
        Some(i) => e.1 == JsonValue::Int(i),
    }
}

/// An encoded free-form field: null when unset, else the value as it
/// came.
pub open spec fn opt_json_entry(e: (String, JsonValue), k: Seq<char>, v: Option<JsonValue>) -> bool {
    &&& e.0@ == k
    &&& match v {
        None => e.1 is Null,
        Some(j) => e.1 == j,
    }
}

/// An encoded field holding the given object fields.
pub open spec fn obj_entry(e: (String, JsonValue), k: Seq<char>, m: Seq<(String, JsonValue)>) -> bool {
    &&& e.0@ == k
    &&& e.1 matches JsonValue::Obj(mm) && mm@ == m
}

/// Decodes a required string field.
pub(crate) fn field_req_str(fields: &Vec<(String, JsonValue)>, key: &str) -> (r: Result<String, Error>)
    ensures
        r is Ok <==> req_str_wf(spec_lookup(fields@, key@)),
        r matches Ok(s) ==> req_str_val(spec_lookup(fields@, key@), s@),
{
    match lookup_ref(fields, key) {
        Some(JsonValue::Str(s)) => Ok(s.clone()),
        _ => Err(Error::HTTPError("malformed resource field".to_owned())),
    }
}

/// Decodes an optional string field: absent and null both mean none.
pub(crate) fn field_opt_str(fields: &Vec<(String, JsonValue)>, key: &str) -> (r: Result<Option<String>, Error>)
    ensures
        r is Ok <==> opt_str_wf(spec_lookup(fields@, key@)),
        r matches Ok(s) ==> opt_str_val(spec_lookup(fields@, key@), s),
{
    match lookup_ref(fields, key) {
        None => Ok(None),
        Some(JsonValue::Null) => Ok(None),
        Some(JsonValue::Str(s)) => Ok(Some(s.clone())),
        Some(_) => Err(Error::HTTPError("malformed resource field".to_owned())),
    }
}

/// Decodes a required integer field.
pub(crate) fn field_req_int(fields: &Vec<(String, JsonValue)>, key: &str) -> (r: Result<i64, Error>)
    ensures
        r is Ok <==> req_int_wf(spec_lookup(fields@, key@)),
        r matches Ok(i) ==> req_int_val(spec_lookup(fields@, key@), i),
{
    match lookup_ref(fields, key) {
        Some(JsonValue::Int(i)) => Ok(*i),
        _ => Err(Error::HTTPError("malformed resource field".to_owned())),
    }
}

/// Decodes an optional integer field: absent and null both mean none.
pub(crate) fn field_opt_int(fields: &Vec<(String, JsonValue)>, key: &str) -> (r: Result<Option<i64>, Error>)
    ensures
        r is Ok <==> opt_int_wf(spec_lookup(fields@, key@)),
        r matches Ok(i) ==> opt_int_val(spec_lookup(fields@, key@), i),
{
    match lookup_ref(fields, key) {
        None => Ok(None),
        Some(JsonValue::Null) => Ok(None),
        Some(JsonValue::Int(i)) => Ok(Some(*i)),
        Some(_) => Err(Error::HTTPError("malformed resource field".to_owned())),
    }
}

/// Decodes a required truth-valued field.
pub(crate) fn field_req_bool(fields: &Vec<(String, JsonValue)>, key: &str) -> (r: Result<bool, Error>)
    ensures
        r is Ok <==> req_bool_wf(spec_lookup(fields@, key@)),
        r matches Ok(b) ==> req_bool_val(spec_lookup(fields@, key@), b),
{
    match lookup_ref(fields, key) {
        Some(JsonValue::Bool(b)) => Ok(*b),
        _ => Err(Error::HTTPError("malformed resource field".to_owned())),
    }
}

/// A looked-up integer that must fit a count.
pub open spec fn usize_wf(l: Option<JsonValue>) -> bool {
    l matches Some(v) && (v matches JsonValue::Int(i) && 0 <= i as int <= usize::MAX as int)
}

/// A looked-up count that decoded to `u`.
pub open spec fn usize_val(l: Option<JsonValue>, u: usize) -> bool {
    l matches Some(v) && (v matches JsonValue::Int(i) && i as int == u as int)
}

/// Decodes a non-negative count field.
pub(crate) fn field_req_usize(fields: &Vec<(String, JsonValue)>, key: &str) -> (r: Result<usize, Error>)
    ensures
        r is Ok <==> usize_wf(spec_lookup(fields@, key@)),
        r matches Ok(u) ==> usize_val(spec_lookup(fields@, key@), u),
{
    match lookup_ref(fields, key) {
        Some(JsonValue::Int(i)) => {
            let i = *i;
            if 0 <= i && (i as u64) <= (usize::MAX as u64) {
                Ok(i as usize)
            } else {
                Err(Error::HTTPError("malformed list field".to_owned()))
            }
        },
        _ => Err(Error::HTTPError("malformed list field".to_owned())),
    }
}

} // verus!
