//! Reading an operator's settings out of its config object.

use vstd::prelude::*;
use crate::json::{JsonValue, JsonMap, JVal, JObj, obj_model, lookup, map_get};
use crate::text::append_str;

verus! {

/// The settings object, or the error for a definition that is not one.
pub open spec fn def_object(v: JVal) -> Result<JObj, Seq<char>> {
    match v {
        JVal::Obj(o) => Ok(o),
        _ => Err("invalid type: expected a map"@),
    }
}

/// A required string setting.
pub open spec fn req_str(o: JObj, key: Seq<char>) -> Result<Seq<char>, Seq<char>> {
    match lookup(o, key) {
        None => Err("missing field `"@ + key + "`"@),
        Some(JVal::Str(s)) => Ok(s),
        Some(_) => Err("invalid type for `"@ + key + "`, expected a string"@),
    }
}

/// An optional string setting with a default.
pub open spec fn opt_str(o: JObj, key: Seq<char>, default: Seq<char>) -> Result<Seq<char>, Seq<char>> {
    match lookup(o, key) {
        None => Ok(default),
        Some(JVal::Str(s)) => Ok(s),
        Some(_) => Err("invalid type for `"@ + key + "`, expected a string"@),
    }
}

/// A required setting of any JSON type.
pub open spec fn req_value(o: JObj, key: Seq<char>) -> Result<JVal, Seq<char>> {
    match lookup(o, key) {
        None => Err("missing field `"@ + key + "`"@),
        Some(v) => Ok(v),
    }
}

/// `<prefix>: <message>`.
pub open spec fn prefixed(prefix: Seq<char>, m: Seq<char>) -> Seq<char> {
    prefix + ": "@ + m
}

pub fn prefix_error(prefix: &str, m: &str) -> (r: String)
    ensures
        r@ == prefixed(prefix@, m@),
{
    let mut s = String::new();
    append_str(&mut s, prefix);
    append_str(&mut s, ": ");
    append_str(&mut s, m);
    assert(s@ =~= prefixed(prefix@, m@));
    s
}

fn quoted_key_error(before: &str, key: &str, after: &str) -> (r: String)
    ensures
        r@ == before@ + key@ + after@,
{
    let mut s = String::new();
    append_str(&mut s, before);
    append_str(&mut s, key);
    append_str(&mut s, after);
    assert(s@ =~= before@ + key@ + after@);
    s
}

pub fn read_def_object(v: &JsonValue) -> (r: Result<&JsonMap, String>)
    ensures
        match def_object(v@) {
            Ok(o) => r matches Ok(m) && obj_model(m@) == o,
            Err(e) => r matches Err(x) && x@ == e,
        },
{
    match v.as_object() {
        Some(m) => Ok(m),
        None => Err("invalid type: expected a map".to_owned()),
    }
}

pub fn read_req_str(o: &JsonMap, key: &str) -> (r: Result<String, String>)
    ensures
        match req_str(obj_model(o@), key@) {
            Ok(s) => r matches Ok(x) && x@ == s,
            Err(e) => r matches Err(x) && x@ == e,
        },
{
    match map_get(o, key) {
        None => Err(quoted_key_error("missing field `", key, "`")),
        Some(v) => match v.as_str() {
            Some(s) => Ok(s.to_owned()),
            None => Err(quoted_key_error("invalid type for `", key, "`, expected a string")),
        },
    }
}

pub fn read_opt_str(o: &JsonMap, key: &str, default: &str) -> (r: Result<String, String>)
    ensures
        match opt_str(obj_model(o@), key@, default@) {
            Ok(s) => r matches Ok(x) && x@ == s,
            Err(e) => r matches Err(x) && x@ == e,
        },
{
    match map_get(o, key) {
        None => Ok(default.to_owned()),
        Some(v) => match v.as_str() {
            Some(s) => Ok(s.to_owned()),
            None => Err(quoted_key_error("invalid type for `", key, "`, expected a string")),
        },
    }
}

pub fn read_req_value(o: &JsonMap, key: &str) -> (r: Result<JsonValue, String>)
    ensures
        match req_value(obj_model(o@), key@) {
            Ok(v) => r matches Ok(x) && x@ == v,
            Err(e) => r matches Err(x) && x@ == e,
        },
{
    match map_get(o, key) {
        None => Err(quoted_key_error("missing field `", key, "`")),
        Some(v) => Ok(v.deep_copy()),
    }
}

} // verus!
