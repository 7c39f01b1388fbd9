//! The generic Splunk HEC exporter: sibling top-level keys
//! `time`/`host`/`source`/`sourcetype`/`index`/`event`.

use vstd::prelude::*;
use crate::json::{JsonValue, JsonMap, JVal, JObj, obj_model, lookup, obj_insert, map_get, map_insert};
use crate::event::{Event, EventModel, spec_render_body};
use crate::exporter::{EnvelopeBuilder, EnvelopeError, BatchConfig, RetryPolicy, HttpHecExporter};
use crate::field_ref::{strip_prefix, strip_prefix_str};
use crate::hec_config::{batch_retry_def, hec_settings, opt_text, opt_opt_str, read_batch_retry, read_hec_settings, read_opt_opt_str};
use crate::op_def::{def_object, req_str, prefixed, prefix_error, read_def_object, read_req_str, read_opt_str};
use crate::text::{int_text, i64_to_text};

verus! {

pub fn default_max_events() -> (r: usize)
    ensures
        r == 200,
{
    200
}

pub fn default_max_bytes() -> (r: usize)
    ensures
        r == 1_000_000,
{
    1_000_000
}

pub fn default_flush_interval() -> (r: String)
    ensures
        r@ == "2s"@,
{
    "2s".to_owned()
}

pub fn default_max_attempts() -> (r: u32)
    ensures
        r == 5,
{
    5
}

pub fn default_initial_backoff() -> (r: String)
    ensures
        r@ == "500ms"@,
{
    "500ms".to_owned()
}

pub fn default_max_backoff() -> (r: String)
    ensures
        r@ == "30s"@,
{
    "30s".to_owned()
}

pub fn default_source() -> (r: String)
    ensures
        r@ == "sgcia"@,
{
    "sgcia".to_owned()
}

/// An attribute named by a path, with or without its `attributes.`
/// prefix; only top-level attributes are found.
pub open spec fn attr_lookup(e: EventModel, path: Seq<char>) -> Option<JVal> {
    let p = match strip_prefix(path, "attributes."@) {
        Some(rest) => rest,
        None => path,
    };
    lookup(e.attributes, p)
}

/// The event's host: the resource's `host`, else the `hostname`
/// attribute, else `"unknown"`.
pub open spec fn event_host(e: EventModel) -> JVal {
    match lookup(e.resource, "host"@) {
        Some(v) => v,
        None => match lookup(e.attributes, "hostname"@) {
            Some(v) => v,
            None => JVal::Str("unknown"@),
        },
    }
}

/// Reads an attribute by path.
pub fn resolve_attr<'a>(event: &'a Event, path: &str) -> (r: Option<&'a JsonValue>)
    ensures
        r.is_some() == attr_lookup(event@, path@).is_some(),
        r matches Some(v) ==> attr_lookup(event@, path@) == Some(v@),
{
    match strip_prefix_str(path, "attributes.") {
        Some(rest) => map_get(&event.attributes, rest.as_str()),
        None => map_get(&event.attributes, path),
    }
}

/// The event's host value.
pub fn resolve_host(event: &Event) -> (r: JsonValue)
    ensures
        r@ == event_host(event@),
{
    match map_get(&event.resource, "host") {
        Some(v) => v.deep_copy(),
        None => match map_get(&event.attributes, "hostname") {
            Some(v) => v.deep_copy(),
            None => JsonValue::Str("unknown".to_owned()),
        },
    }
}

pub struct SplunkHecEnvelopeBuilder {
    pub source: String,
    /// Attribute path to read a per-event sourcetype from.
    pub sourcetype_field: Option<String>,
    pub default_sourcetype: Option<String>,
    pub index: Option<String>,
}

/// The sourcetype an event is sent with: the named attribute if the event
/// has it, else the default, else none.
pub open spec fn splunk_sourcetype(b: SplunkHecEnvelopeBuilder, e: EventModel) -> Option<JVal> {
    let from_field = match b.sourcetype_field {
        Some(p) => attr_lookup(e, p@),
        None => None,
    };
    match from_field {
        Some(v) => Some(v),
        None => match b.default_sourcetype {
            Some(s) => Some(JVal::Str(s@)),
            None => None,
        },
    }
}

/// The Splunk HEC envelope of an event.
pub open spec fn splunk_envelope(b: SplunkHecEnvelopeBuilder, e: EventModel) -> JVal {
    let o1 = obj_insert(Seq::empty(), "time"@, JVal::Num(int_text(e.timestamp.secs as int)));
    let o2 = obj_insert(o1, "host"@, event_host(e));
    let o3 = obj_insert(o2, "source"@, JVal::Str(b.source@));
    let o4 = match splunk_sourcetype(b, e) {
        Some(st) => obj_insert(o3, "sourcetype"@, st),
        None => o3,
    };
    let o5 = match b.index {
        Some(i) => obj_insert(o4, "index"@, JVal::Str(i@)),
        None => o4,
    };
    JVal::Obj(obj_insert(o5, "event"@, JVal::Str(spec_render_body(e.body))))
}

/// Law: the envelope's `time` is the event's own timestamp, in whole
/// seconds, whatever else the envelope holds.
pub proof fn law_splunk_time_is_event_timestamp(b: SplunkHecEnvelopeBuilder, e: EventModel)
    ensures
        splunk_envelope(b, e) matches JVal::Obj(o) && lookup(o, "time"@) == Some(JVal::Num(int_text(e.timestamp.secs as int))),
{
    reveal_strlit("time");
    reveal_strlit("host");
    reveal_strlit("source");
    reveal_strlit("sourcetype");
    reveal_strlit("index");
    reveal_strlit("event");
    let t = JVal::Num(int_text(e.timestamp.secs as int));
    let o1 = obj_insert(Seq::empty(), "time"@, t);
    crate::field_ref::lemma_lookup_insert_same(Seq::empty(), "time"@, t);
    assert("host"@ != "time"@) by { assert("host"@[0] != "time"@[0]); }
    assert("source"@ != "time"@) by { assert("source"@[0] != "time"@[0]); }
    assert("sourcetype"@ != "time"@) by { assert("sourcetype"@[0] != "time"@[0]); }
    assert("index"@ != "time"@) by { assert("index"@[0] != "time"@[0]); }
    assert("event"@ != "time"@) by { assert("event"@[0] != "time"@[0]); }
    let o2 = obj_insert(o1, "host"@, event_host(e));
    crate::field_ref::lemma_lookup_insert_other(o1, "host"@, event_host(e), "time"@);
    let o3 = obj_insert(o2, "source"@, JVal::Str(b.source@));
    crate::field_ref::lemma_lookup_insert_other(o2, "source"@, JVal::Str(b.source@), "time"@);
    let o4 = match splunk_sourcetype(b, e) {
        Some(st) => obj_insert(o3, "sourcetype"@, st),
        None => o3,
    };
    if let Some(st) = splunk_sourcetype(b, e) {
        crate::field_ref::lemma_lookup_insert_other(o3, "sourcetype"@, st, "time"@);
    }
    let o5 = match b.index {
        Some(i) => obj_insert(o4, "index"@, JVal::Str(i@)),
        None => o4,
    };
    if let Some(i) = b.index {
        crate::field_ref::lemma_lookup_insert_other(o4, "index"@, JVal::Str(i@), "time"@);
    }
    crate::field_ref::lemma_lookup_insert_other(o5, "event"@, JVal::Str(spec_render_body(e.body)), "time"@);
}

impl EnvelopeBuilder for SplunkHecEnvelopeBuilder {
    open spec fn spec_build(&self, e: EventModel) -> Result<JVal, Seq<char>> {
        Ok(splunk_envelope(*self, e))
    }

    fn build(&self, event: &Event) -> (r: Result<JsonValue, EnvelopeError>) {
        let mut obj: JsonMap = Vec::new();
        assert(obj_model(obj@) =~= Seq::<(Seq<char>, JVal)>::empty());
        map_insert(&mut obj, "time".to_owned(), JsonValue::Number(i64_to_text(event.timestamp.secs)));
        map_insert(&mut obj, "host".to_owned(), resolve_host(event));
        map_insert(&mut obj, "source".to_owned(), JsonValue::Str(self.source.clone()));
        let from_field = match &self.sourcetype_field {
            Some(p) => match resolve_attr(event, p.as_str()) {
                Some(v) => Some(v.deep_copy()),
                None => None,
            },
            None => None,
        };
        let sourcetype = match from_field {
            Some(v) => Some(v),
            None => match &self.default_sourcetype {
                Some(s) => Some(JsonValue::Str(s.clone())),
                None => None,
            },
        };
        if let Some(st) = sourcetype {
            map_insert(&mut obj, "sourcetype".to_owned(), st);
        }
        if let Some(idx) = &self.index {
            map_insert(&mut obj, "index".to_owned(), JsonValue::Str(idx.clone()));
        }
        map_insert(&mut obj, "event".to_owned(), JsonValue::Str(event.render_body()));
        let ghost om = obj;
        proof {
            crate::json::lemma_object_view(om);
        }
        Ok(JsonValue::Object(obj))
    }
}

/// A Splunk HEC exporter's settings.
pub struct SplunkHecConfig {
    pub endpoint: String,
    pub token: String,
    pub source: String,
    pub sourcetype_field: Option<String>,
    pub default_sourcetype: Option<String>,
    pub index: Option<String>,
    pub batch: BatchConfig,
    pub retry: RetryPolicy,
}

/// The settings as written: endpoint, token, source, sourcetype field,
/// sourcetype, index, then batching and retry.
pub open spec fn splunk_def(v: JVal)
    -> Result<(Seq<char>, Seq<char>, Seq<char>, Option<Seq<char>>, Option<Seq<char>>, Option<Seq<char>>,
        (nat, nat, Seq<char>, nat, Seq<char>, Seq<char>)), Seq<char>> {
    match def_object(v) {
        Err(e) => Err(e),
        Ok(o) => match req_str(o, "endpoint"@) {
            Err(e) => Err(e),
            Ok(ep) => match req_str(o, "token"@) {
                Err(e) => Err(e),
                Ok(tk) => match opt_text(o, "source"@, "sgcia"@) {
                    Err(e) => Err(e),
                    Ok(src) => match opt_opt_str(o, "sourcetype_field"@) {
                        Err(e) => Err(e),
                        Ok(stf) => match opt_opt_str(o, "sourcetype"@) {
                            Err(e) => Err(e),
                            Ok(st) => match opt_opt_str(o, "index"@) {
                                Err(e) => Err(e),
                                Ok(ix) => match batch_retry_def(o, 200) {
                                    Err(e) => Err(e),
                                    Ok(d) => Ok((ep, tk, src, stf, st, ix, d)),
                                },
                            },
                        },
                    },
                },
            },
        },
    }
}

pub open spec fn opt_str_view(o: Option<String>) -> Option<Seq<char>> {
    match o {
        Some(s) => Some(s@),
        None => None,
    }
}

/// The config is what the definition describes.
pub open spec fn splunk_config_matches(c: SplunkHecConfig, v: JVal) -> bool {
    &&& splunk_def(v) matches Ok((ep, tk, src, stf, st, ix, d))
    &&& hec_settings(ep, d) matches Ok(s)
    &&& c.endpoint@ == s.0 && c.token@ == tk && c.source@ == src
    &&& opt_str_view(c.sourcetype_field) == stf && opt_str_view(c.default_sourcetype) == st
    &&& opt_str_view(c.index) == ix
    &&& c.batch.max_events == s.1 && c.batch.max_bytes == s.2 && c.batch.flush_interval_ms == s.3
    &&& c.retry.max_attempts == s.4 && c.retry.initial_backoff_ms == s.5 && c.retry.max_backoff_ms == s.6
}

/// Why a definition gives no config.
pub open spec fn splunk_config_error(v: JVal) -> Option<Seq<char>> {
    match splunk_def(v) {
        Err(e) => Some(e),
        Ok((ep, tk, src, stf, st, ix, d)) => match hec_settings(ep, d) {
            Err(e) => Some(e),
            Ok(_) => None,
        },
    }
}

impl SplunkHecConfig {
    /// Reads the settings; errors are prefixed with the exporter's id.
    pub fn from_value(id: &str, value: &JsonValue) -> (r: Result<SplunkHecConfig, String>)
        ensures
            match splunk_config_error(value@) {
                None => r matches Ok(c) && splunk_config_matches(c, value@),
                Some(e) => r matches Err(x) && x@ == prefixed(id@, e),
            },
    {
        match Self::read(value) {
            Ok(c) => Ok(c),
            Err(e) => Err(prefix_error(id, e.as_str())),
        }
    }

    fn read(value: &JsonValue) -> (r: Result<SplunkHecConfig, String>)
        ensures
            match splunk_config_error(value@) {
                None => r matches Ok(c) && splunk_config_matches(c, value@),
                Some(e) => r matches Err(x) && x@ == e,
            },
    {
        let o = read_def_object(value)?;
        let ep = read_req_str(o, "endpoint")?;
        let tk = read_req_str(o, "token")?;
        let src = read_opt_str(o, "source", "sgcia")?;
        let stf = read_opt_opt_str(o, "sourcetype_field")?;
        let st = read_opt_opt_str(o, "sourcetype")?;
        let ix = read_opt_opt_str(o, "index")?;
        let d = read_batch_retry(o, 200)?;
        let (u, batch, retry) = read_hec_settings(ep.as_str(), &d)?;
        Ok(SplunkHecConfig {
            endpoint: u,
            token: tk,
            source: src,
            sourcetype_field: stf,
            default_sourcetype: st,
            index: ix,
            batch,
            retry,
        })
    }
}

/// Builds the exporter's settings from its config definition.
pub fn build(name: &str, value: &JsonValue) -> (r: Result<HttpHecExporter<SplunkHecEnvelopeBuilder>, String>)
    ensures
        match splunk_config_error(value@) {
            None => r matches Ok(x) && x.name@ == name@ && exists|c: SplunkHecConfig| splunk_config_matches(c, value@)
                && x.endpoint == c.endpoint && x.auth_header@ == "Splunk "@ + c.token@
                && x.builder.source == c.source && x.builder.sourcetype_field == c.sourcetype_field
                && x.builder.default_sourcetype == c.default_sourcetype && x.builder.index == c.index
                && x.batch == c.batch && x.retry == c.retry,
            Some(e) => r matches Err(x) && x@ == prefixed(name@, e),
        },
{
    let cfg = SplunkHecConfig::from_value(name, value)?;
    let ghost c = cfg;
    let builder = SplunkHecEnvelopeBuilder {
        source: cfg.source,
        sourcetype_field: cfg.sourcetype_field,
        default_sourcetype: cfg.default_sourcetype,
        index: cfg.index,
    };
    Ok(HttpHecExporter::new(name, cfg.endpoint, cfg.token.as_str(), builder, cfg.batch, cfg.retry))
}

} // verus!
