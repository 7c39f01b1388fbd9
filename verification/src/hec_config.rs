//! Settings shared by the HEC exporters' configs: endpoint, batching and
//! retry.

use vstd::prelude::*;
use crate::json::{JsonValue, JsonMap, JVal, JObj, obj_model, lookup, map_get};
use crate::config::{spec_parse_duration, duration_fits, duration_fits_exec, parse_duration};
use crate::exporter::{BatchConfig, RetryPolicy};
use crate::op_def::{prefixed, prefix_error};
use crate::text::{spec_parse_u64, parse_u64_chars, chars_of, append_str};

verus! {

/// What `reqwest::Url`'s parser makes of a text: the normalized URL, or
/// the error's message.
pub uninterp spec fn spec_url_parse(s: Seq<char>) -> Result<Seq<char>, Seq<char>>;

/// Parses an endpoint with `reqwest::Url::parse` and gives its normalized
/// text (`Url::as_str`); the contract claims only that the outcome is the
/// one `spec_url_parse` names.
#[verifier::external_body]
pub(crate) fn parse_url(s: &str) -> (r: Result<String, String>)
    ensures
        match spec_url_parse(s@) {
            Ok(u) => r matches Ok(x) && x@ == u,
            Err(e) => r matches Err(x) && x@ == e,
        },
{
    match reqwest::Url::parse(s) {
        Ok(u) => Ok(u.as_str().to_owned()),
        Err(e) => Err(e.to_string()),
    }
}

/// An optional unsigned setting, no larger than `max`.
pub open spec fn opt_uint(o: JObj, key: Seq<char>, default: nat, max: nat) -> Result<nat, Seq<char>> {
    match lookup(o, key) {
        None => Ok(default),
        Some(JVal::Num(n)) => match spec_parse_u64(n) {
            Some(v) => if v <= max {
                Ok(v as nat)
            } else {
                Err("invalid value for `"@ + key + "`: out of range"@)
            },
            None => Err("invalid type for `"@ + key + "`, expected an unsigned integer"@),
        },
        Some(_) => Err("invalid type for `"@ + key + "`, expected an unsigned integer"@),
    }
}

/// An optional string setting with a default.
pub open spec fn opt_text(o: JObj, key: Seq<char>, default: Seq<char>) -> Result<Seq<char>, Seq<char>> {
    crate::op_def::opt_str(o, key, default)
}

/// An optional nested settings object: absent means empty.
pub open spec fn opt_section(o: JObj, key: Seq<char>) -> Result<JObj, Seq<char>> {
    match lookup(o, key) {
        None => Ok(Seq::empty()),
        Some(JVal::Obj(m)) => Ok(m),
        Some(_) => Err("invalid type for `"@ + key + "`, expected a map"@),
    }
}

/// An optional string that may also be `null`.
pub open spec fn opt_opt_str(o: JObj, key: Seq<char>) -> Result<Option<Seq<char>>, Seq<char>> {
    match lookup(o, key) {
        None => Ok(None),
        Some(JVal::Null) => Ok(None),
        Some(JVal::Str(s)) => Ok(Some(s)),
        Some(_) => Err("invalid type for `"@ + key + "`, expected a string"@),
    }
}

/// The batching and retry settings as written, before their durations
/// are parsed: max events, max bytes, flush interval, max attempts,
/// initial and max backoff.
pub open spec fn batch_retry_def(o: JObj, default_max_events: nat)
    -> Result<(nat, nat, Seq<char>, nat, Seq<char>, Seq<char>), Seq<char>> {
    match opt_section(o, "batch"@) {
        Err(e) => Err(e),
        Ok(b) => match opt_uint(b, "max_events"@, default_max_events, usize::MAX as nat) {
            Err(e) => Err(e),
            Ok(me) => match opt_uint(b, "max_bytes"@, 1_000_000, usize::MAX as nat) {
                Err(e) => Err(e),
                Ok(mb) => match opt_text(b, "flush_interval"@, "2s"@) {
                    Err(e) => Err(e),
                    Ok(fi) => match opt_section(o, "retry"@) {
                        Err(e) => Err(e),
                        Ok(r) => match opt_uint(r, "max_attempts"@, 5, u32::MAX as nat) {
                            Err(e) => Err(e),
                            Ok(ma) => match opt_text(r, "initial_backoff"@, "500ms"@) {
                                Err(e) => Err(e),
                                Ok(ib) => match opt_text(r, "max_backoff"@, "30s"@) {
                                    Err(e) => Err(e),
                                    Ok(mx) => Ok((me, mb, fi, ma, ib, mx)),
                                },
                            },
                        },
                    },
                },
            },
        },
    }
}

/// A duration setting: its milliseconds, or the error naming the setting.
pub open spec fn duration_setting(what: Seq<char>, s: Seq<char>) -> Result<nat, Seq<char>> {
    match spec_parse_duration(s) {
        Err(e) => Err("invalid "@ + what + ": "@ + e),
        Ok(v) => if v <= u64::MAX {
            Ok(v)
        } else {
            Err("invalid "@ + what + ": duration out of range"@)
        },
    }
}

/// The endpoint and the parsed batching and retry settings: endpoint URL,
/// then `batch.flush_interval`, `retry.initial_backoff`,
/// `retry.max_backoff`.
pub open spec fn hec_settings(endpoint: Seq<char>, d: (nat, nat, Seq<char>, nat, Seq<char>, Seq<char>))
    -> Result<(Seq<char>, nat, nat, nat, nat, nat, nat), Seq<char>> {
    match spec_url_parse(endpoint) {
        Err(e) => Err("invalid endpoint '"@ + endpoint + "': "@ + e),
        Ok(u) => match duration_setting("batch.flush_interval"@, d.2) {
            Err(e) => Err(e),
            Ok(fi) => match duration_setting("retry.initial_backoff"@, d.4) {
                Err(e) => Err(e),
                Ok(ib) => match duration_setting("retry.max_backoff"@, d.5) {
                    Err(e) => Err(e),
                    Ok(mx) => Ok((u, d.0, d.1, fi, d.3, ib, mx)),
                },
            },
        },
    }
}

fn key_error(before: &str, key: &str, after: &str) -> (r: String)
    ensures
        r@ == before@ + key@ + after@,
{
    let mut s = String::new();
    append_str(&mut s, before);
    append_str(&mut s, key);
    append_str(&mut s, after);
    assert(s@ =~= before@ + key@ + after@);
    s
}

pub fn read_opt_uint(o: &JsonMap, key: &str, default: u64, max: u64) -> (r: Result<u64, String>)
    ensures
        match opt_uint(obj_model(o@), key@, default as nat, max as nat) {
            Ok(v) => r matches Ok(x) && x == v,
            Err(e) => r matches Err(x) && x@ == e,
        },
{
    match map_get(o, key) {
        None => Ok(default),
        Some(JsonValue::Number(n)) => {
            let cs = chars_of(n.as_str());
            match parse_u64_chars(&cs) {
                Some(v) => if v <= max {
                    Ok(v)
                } else {
                    Err(key_error("invalid value for `", key, "`: out of range"))
                },
                None => Err(key_error("invalid type for `", key, "`, expected an unsigned integer")),
            }
        },
        Some(_) => Err(key_error("invalid type for `", key, "`, expected an unsigned integer")),
    }
}

pub fn read_opt_section<'a>(o: &'a JsonMap, key: &str) -> (r: Result<JsonMap, String>)
    ensures
        match opt_section(obj_model(o@), key@) {
            Ok(m) => r matches Ok(x) && obj_model(x@) == m,
            Err(e) => r matches Err(x) && x@ == e,
        },
{
    match map_get(o, key) {
        None => {
            let empty: JsonMap = Vec::new();
            assert(obj_model(empty@) =~= Seq::<(Seq<char>, JVal)>::empty());
            Ok(empty)
        },
        Some(v) => match v.as_object() {
            Some(m) => Ok(crate::json::copy_map(m)),
            None => Err(key_error("invalid type for `", key, "`, expected a map")),
        },
    }
}

pub fn read_opt_opt_str(o: &JsonMap, key: &str) -> (r: Result<Option<String>, String>)
    ensures
        match opt_opt_str(obj_model(o@), key@) {
            Ok(Some(s)) => r matches Ok(Some(x)) && x@ == s,
            Ok(None) => r matches Ok(None),
            Err(e) => r matches Err(x) && x@ == e,
        },
{
    match map_get(o, key) {
        None => Ok(None),
        Some(JsonValue::Null) => Ok(None),
        Some(JsonValue::Str(s)) => Ok(Some(s.clone())),
        Some(_) => Err(key_error("invalid type for `", key, "`, expected a string")),
    }
}

/// The batching and retry settings as written.
pub fn read_batch_retry(o: &JsonMap, default_max_events: u64) -> (r: Result<(u64, u64, String, u64, String, String), String>)
    ensures
        match batch_retry_def(obj_model(o@), default_max_events as nat) {
            Ok(d) => r matches Ok(x) && x.0 == d.0 && x.1 == d.1 && x.2@ == d.2 && x.3 == d.3 && x.4@ == d.4 && x.5@ == d.5,
            Err(e) => r matches Err(x) && x@ == e,
        },
{
    let b = read_opt_section(o, "batch")?;
    let me = read_opt_uint(&b, "max_events", default_max_events, usize::MAX as u64)?;
    let mb = read_opt_uint(&b, "max_bytes", 1_000_000, usize::MAX as u64)?;
    let fi = crate::op_def::read_opt_str(&b, "flush_interval", "2s")?;
    let r = read_opt_section(o, "retry")?;
    let ma = read_opt_uint(&r, "max_attempts", 5, 0xffff_ffffu64)?;
    let ib = crate::op_def::read_opt_str(&r, "initial_backoff", "500ms")?;
    let mx = crate::op_def::read_opt_str(&r, "max_backoff", "30s")?;
    Ok((me, mb, fi, ma, ib, mx))
}

fn read_duration_setting(what: &str, s: &str) -> (r: Result<u64, String>)
    ensures
        match duration_setting(what@, s@) {
            Ok(v) => r matches Ok(x) && x == v,
            Err(e) => r matches Err(x) && x@ == e,
        },
{
    if !duration_fits_exec(s) {
        return Err(key_error("invalid ", what, ": duration out of range"));
    }
    match parse_duration(s) {
        Ok(v) => Ok(v),
        Err(e) => {
            let mut m = String::new();
            append_str(&mut m, "invalid ");
            append_str(&mut m, what);
            append_str(&mut m, ": ");
            append_str(&mut m, e.as_str());
            assert(m@ =~= "invalid "@ + what@ + ": "@ + e@);
            Err(m)
        },
    }
}

/// Parses the endpoint and the durations of the written settings.
pub fn read_hec_settings(endpoint: &str, d: &(u64, u64, String, u64, String, String))
    -> (r: Result<(String, BatchConfig, RetryPolicy), String>)
    requires
        d.0 <= usize::MAX,
        d.1 <= usize::MAX,
        d.3 <= u32::MAX,
    ensures
        match hec_settings(endpoint@, (d.0 as nat, d.1 as nat, d.2@, d.3 as nat, d.4@, d.5@)) {
            Ok(s) => r matches Ok((u, b, p)) && u@ == s.0 && b.max_events == s.1 && b.max_bytes == s.2
                && b.flush_interval_ms == s.3 && p.max_attempts == s.4 && p.initial_backoff_ms == s.5
                && p.max_backoff_ms == s.6,
            Err(e) => r matches Err(x) && x@ == e,
        },
{
    let u = match parse_url(endpoint) {
        Ok(u) => u,
        Err(e) => {
            let mut m = String::new();
            append_str(&mut m, "invalid endpoint '");
            append_str(&mut m, endpoint);
            append_str(&mut m, "': ");
            append_str(&mut m, e.as_str());
            assert(m@ =~= "invalid endpoint '"@ + endpoint@ + "': "@ + e@);
            return Err(m);
        },
    };
    let fi = read_duration_setting("batch.flush_interval", d.2.as_str())?;
    let ib = read_duration_setting("retry.initial_backoff", d.4.as_str())?;
    let mx = read_duration_setting("retry.max_backoff", d.5.as_str())?;
    Ok((
        u,
        BatchConfig { max_events: d.0 as usize, max_bytes: d.1 as usize, flush_interval_ms: fi },
        RetryPolicy { max_attempts: d.3 as u32, initial_backoff_ms: ib, max_backoff_ms: mx },
    ))
}

} // verus!
