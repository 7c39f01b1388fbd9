//! The SentinelOne DataPipeline HEC exporter: top-level keys are only
//! `time`/`host`/`event`/`fields`; every other piece of metadata is nested
//! under `fields`.

use vstd::prelude::*;
use crate::json::{JsonValue, JsonMap, JVal, JObj, obj_model, obj_insert, map_insert, find_key};
use crate::event::{Event, EventModel, spec_render_body};
use crate::exporter::{EnvelopeBuilder, EnvelopeError, BatchConfig, RetryPolicy, HttpHecExporter};
use crate::field_ref::{obj_extend, extend_map};
use crate::hec_config::{batch_retry_def, hec_settings, opt_opt_str, opt_section, read_batch_retry, read_hec_settings, read_opt_opt_str, read_opt_section};
use crate::op_def::{def_object, req_str, prefixed, prefix_error, read_def_object, read_req_str};
use crate::splunk_hec::{attr_lookup, event_host, resolve_attr, resolve_host, opt_str_view};
use crate::text::{int_text, i64_to_text};

verus! {

pub fn default_max_events() -> (r: usize)
    ensures
        r == 100,
{
    100
}

pub fn default_max_bytes() -> (r: usize)
    ensures
        r == 1_000_000,
{
    1_000_000
}

pub fn default_flush_interval() -> (r: String)
    ensures
        r@ == "2s"@,
{
    "2s".to_owned()
}

pub fn default_max_attempts() -> (r: u32)
    ensures
        r == 5,
{
    5
}

pub fn default_initial_backoff() -> (r: String)
    ensures
        r@ == "500ms"@,
{
    "500ms".to_owned()
}

pub fn default_max_backoff() -> (r: String)
    ensures
        r@ == "30s"@,
{
    "30s".to_owned()
}

pub struct S1HecEnvelopeBuilder {
    /// By convention `<product>_ts_parser`: DataPipeline picks the parser
    /// with exactly this name.
    pub sourcetype: String,
    pub datasource: Option<String>,
    /// Attribute path of the per-source routing key.
    pub msgid_field: Option<String>,
    /// Entries added to `fields`, in order.
    pub static_fields: JsonMap,
}

/// The `fields` object of an event's envelope.
pub open spec fn s1_fields(b: S1HecEnvelopeBuilder, e: EventModel) -> JObj {
    let f1 = obj_insert(Seq::empty(), "sourcetype"@, JVal::Str(b.sourcetype@));
    let f2 = match b.datasource {
        Some(d) => obj_insert(f1, "datasource"@, JVal::Str(d@)),
        None => f1,
    };
    let f3 = match b.msgid_field {
        Some(p) => match attr_lookup(e, p@) {
            Some(v) => obj_insert(f2, "msgid"@, v),
            None => f2,
        },
        None => f2,
    };
    let f4 = match e.severity {
        Some((n, _)) => obj_insert(f3, "syslog_severity"@, JVal::Num(int_text(n as int))),
        None => f3,
    };
    obj_extend(f4, obj_model(b.static_fields@))
}

/// The DataPipeline envelope of an event.
pub open spec fn s1_envelope(b: S1HecEnvelopeBuilder, e: EventModel) -> JVal {
    let o1 = obj_insert(Seq::empty(), "time"@, JVal::Num(int_text(e.timestamp.secs as int)));
    let o2 = obj_insert(o1, "host"@, event_host(e));
    let o3 = obj_insert(o2, "event"@, JVal::Str(spec_render_body(e.body)));
    JVal::Obj(obj_insert(o3, "fields"@, JVal::Obj(s1_fields(b, e))))
}

/// Law: the envelope's `time` is the event's own timestamp, in whole
/// seconds.
pub proof fn law_s1_time_is_event_timestamp(b: S1HecEnvelopeBuilder, e: EventModel)
    ensures
        s1_envelope(b, e) matches JVal::Obj(o) && crate::json::lookup(o, "time"@) == Some(JVal::Num(int_text(e.timestamp.secs as int))),
{
    reveal_strlit("time");
    reveal_strlit("host");
    reveal_strlit("event");
    reveal_strlit("fields");
    let t = JVal::Num(int_text(e.timestamp.secs as int));
    let o1 = obj_insert(Seq::empty(), "time"@, t);
    crate::field_ref::lemma_lookup_insert_same(Seq::empty(), "time"@, t);
    assert("host"@ != "time"@) by { assert("host"@[0] != "time"@[0]); }
    assert("event"@ != "time"@) by { assert("event"@[0] != "time"@[0]); }
    assert("fields"@ != "time"@) by { assert("fields"@[0] != "time"@[0]); }
    let o2 = obj_insert(o1, "host"@, event_host(e));
    crate::field_ref::lemma_lookup_insert_other(o1, "host"@, event_host(e), "time"@);
    let o3 = obj_insert(o2, "event"@, JVal::Str(spec_render_body(e.body)));
    crate::field_ref::lemma_lookup_insert_other(o2, "event"@, JVal::Str(spec_render_body(e.body)), "time"@);
    crate::field_ref::lemma_lookup_insert_other(o3, "fields"@, JVal::Obj(s1_fields(b, e)), "time"@);
}

/// Law: an envelope's top level holds exactly `time`, `host`, `event` and
/// `fields`, in that order, whatever the event.
pub proof fn law_s1_envelope_keys(b: S1HecEnvelopeBuilder, e: EventModel)
    ensures
        s1_envelope(b, e) matches JVal::Obj(o) && o.len() == 4 && o[0].0 == "time"@ && o[1].0 == "host"@
            && o[2].0 == "event"@ && o[3].0 == "fields"@,
{
    reveal_strlit("time");
    reveal_strlit("host");
    reveal_strlit("event");
    reveal_strlit("fields");
    let o1 = obj_insert(Seq::empty(), "time"@, JVal::Num(int_text(e.timestamp.secs as int)));
    assert(find_key(Seq::<(Seq<char>, JVal)>::empty(), "time"@) is None);
    let o2 = obj_insert(o1, "host"@, event_host(e));
    assert("time"@ != "host"@) by {
        assert("time"@[0] != "host"@[0]);
    }
    assert(find_key(o1.drop_first(), "host"@) is None);
    assert(find_key(o1, "host"@) is None);
    let o3 = obj_insert(o2, "event"@, JVal::Str(spec_render_body(e.body)));
    assert("time"@ != "event"@) by {
        assert("time"@[0] != "event"@[0]);
    }
    assert("host"@ != "event"@) by {
        assert("host"@[0] != "event"@[0]);
    }
    assert(o2.drop_first().drop_first().len() == 0);
    assert(find_key(o2.drop_first().drop_first(), "event"@) is None);
    assert(find_key(o2.drop_first(), "event"@) is None);
    assert(find_key(o2, "event"@) is None);
    assert("time"@ != "fields"@) by {
        assert("time"@[0] != "fields"@[0]);
    }
    assert("host"@ != "fields"@) by {
        assert("host"@[0] != "fields"@[0]);
    }
    assert("event"@ != "fields"@) by {
        assert("event"@[0] != "fields"@[0]);
    }
    assert(o3.drop_first().drop_first().drop_first().len() == 0);
    assert(find_key(o3.drop_first().drop_first().drop_first(), "fields"@) is None);
    assert(find_key(o3.drop_first().drop_first(), "fields"@) is None);
    assert(find_key(o3.drop_first(), "fields"@) is None);
    assert(find_key(o3, "fields"@) is None);
}

impl EnvelopeBuilder for S1HecEnvelopeBuilder {
    open spec fn spec_build(&self, e: EventModel) -> Result<JVal, Seq<char>> {
        Ok(s1_envelope(*self, e))
    }

    fn build(&self, event: &Event) -> (r: Result<JsonValue, EnvelopeError>) {
        let mut fields: JsonMap = Vec::new();
        assert(obj_model(fields@) =~= Seq::<(Seq<char>, JVal)>::empty());
        map_insert(&mut fields, "sourcetype".to_owned(), JsonValue::Str(self.sourcetype.clone()));
        if let Some(ds) = &self.datasource {
            map_insert(&mut fields, "datasource".to_owned(), JsonValue::Str(ds.clone()));
        }
        if let Some(path) = &self.msgid_field {
            if let Some(v) = resolve_attr(event, path.as_str()) {
                map_insert(&mut fields, "msgid".to_owned(), v.deep_copy());
            }
        }
        if let Some(sev) = &event.severity {
            map_insert(&mut fields, "syslog_severity".to_owned(), JsonValue::Number(i64_to_text(sev.number as i64)));
        }
        extend_map(&mut fields, &self.static_fields);
        let ghost fm = fields;
        proof {
            crate::json::lemma_object_view(fm);
        }
        let mut obj: JsonMap = Vec::new();
        assert(obj_model(obj@) =~= Seq::<(Seq<char>, JVal)>::empty());
        map_insert(&mut obj, "time".to_owned(), JsonValue::Number(i64_to_text(event.timestamp.secs)));
        map_insert(&mut obj, "host".to_owned(), resolve_host(event));
        map_insert(&mut obj, "event".to_owned(), JsonValue::Str(event.render_body()));
        map_insert(&mut obj, "fields".to_owned(), JsonValue::Object(fields));
        let ghost om = obj;
        proof {
            crate::json::lemma_object_view(om);
        }
        Ok(JsonValue::Object(obj))
    }
}

/// A DataPipeline HEC exporter's settings.
pub struct S1HecConfig {
    pub endpoint: String,
    pub token: String,
    pub sourcetype: String,
    pub datasource: Option<String>,
    pub msgid_field: Option<String>,
    pub static_fields: JsonMap,
    pub batch: BatchConfig,
    pub retry: RetryPolicy,
}

/// The settings as written: endpoint, token, sourcetype, datasource, msgid
/// field, static fields, then batching and retry.
pub open spec fn s1_def(v: JVal)
    -> Result<(Seq<char>, Seq<char>, Seq<char>, Option<Seq<char>>, Option<Seq<char>>, JObj,
        (nat, nat, Seq<char>, nat, Seq<char>, Seq<char>)), Seq<char>> {
    match def_object(v) {
        Err(e) => Err(e),
        Ok(o) => match req_str(o, "endpoint"@) {
            Err(e) => Err(e),
            Ok(ep) => match req_str(o, "token"@) {
                Err(e) => Err(e),
                Ok(tk) => match req_str(o, "sourcetype"@) {
                    Err(e) => Err(e),
                    Ok(st) => match opt_opt_str(o, "datasource"@) {
                        Err(e) => Err(e),
                        Ok(ds) => match opt_opt_str(o, "msgid_field"@) {
                            Err(e) => Err(e),
                            Ok(mf) => match opt_section(o, "static_fields"@) {
                                Err(e) => Err(e),
                                Ok(sf) => match batch_retry_def(o, 100) {
                                    Err(e) => Err(e),
                                    Ok(d) => Ok((ep, tk, st, ds, mf, sf, d)),
                                },
                            },
                        },
                    },
                },
            },
        },
    }
}

/// The config is what the definition describes.
pub open spec fn s1_config_matches(c: S1HecConfig, v: JVal) -> bool {
    &&& s1_def(v) matches Ok((ep, tk, st, ds, mf, sf, d))
    &&& hec_settings(ep, d) matches Ok(s)
    &&& c.endpoint@ == s.0 && c.token@ == tk && c.sourcetype@ == st
    &&& opt_str_view(c.datasource) == ds && opt_str_view(c.msgid_field) == mf
    &&& obj_model(c.static_fields@) == sf
    &&& c.batch.max_events == s.1 && c.batch.max_bytes == s.2 && c.batch.flush_interval_ms == s.3
    &&& c.retry.max_attempts == s.4 && c.retry.initial_backoff_ms == s.5 && c.retry.max_backoff_ms == s.6
}

/// Why a definition gives no config.
pub open spec fn s1_config_error(v: JVal) -> Option<Seq<char>> {
    match s1_def(v) {
        Err(e) => Some(e),
        Ok((ep, tk, st, ds, mf, sf, d)) => match hec_settings(ep, d) {
            Err(e) => Some(e),
            Ok(_) => None,
        },
    }
}

impl S1HecConfig {
    /// Reads the settings; errors are prefixed with the exporter's id.
    pub fn from_value(id: &str, value: &JsonValue) -> (r: Result<S1HecConfig, String>)
        ensures
            match s1_config_error(value@) {
                None => r matches Ok(c) && s1_config_matches(c, value@),
                Some(e) => r matches Err(x) && x@ == prefixed(id@, e),
            },
    {
        match Self::read(value) {
            Ok(c) => Ok(c),
            Err(e) => Err(prefix_error(id, e.as_str())),
        }
    }

    fn read(value: &JsonValue) -> (r: Result<S1HecConfig, String>)
        ensures
            match s1_config_error(value@) {
                None => r matches Ok(c) && s1_config_matches(c, value@),
                Some(e) => r matches Err(x) && x@ == e,
            },
    {
        let o = read_def_object(value)?;
        let ep = read_req_str(o, "endpoint")?;
        let tk = read_req_str(o, "token")?;
        let st = read_req_str(o, "sourcetype")?;
        let ds = read_opt_opt_str(o, "datasource")?;
        let mf = read_opt_opt_str(o, "msgid_field")?;
        let sf = read_opt_section(o, "static_fields")?;
        let d = read_batch_retry(o, 100)?;
        let (u, batch, retry) = read_hec_settings(ep.as_str(), &d)?;
        Ok(S1HecConfig {
            endpoint: u,
            token: tk,
            sourcetype: st,
            datasource: ds,
            msgid_field: mf,
            static_fields: sf,
            batch,
            retry,
        })
    }
}

/// Builds the exporter's settings from its config definition.
pub fn build(name: &str, value: &JsonValue) -> (r: Result<HttpHecExporter<S1HecEnvelopeBuilder>, String>)
    ensures
        match s1_config_error(value@) {
            None => r matches Ok(x) && x.name@ == name@ && exists|c: S1HecConfig| s1_config_matches(c, value@)
                && x.endpoint == c.endpoint && x.auth_header@ == "Splunk "@ + c.token@
                && x.builder.sourcetype == c.sourcetype && x.builder.datasource == c.datasource
                && x.builder.msgid_field == c.msgid_field && x.builder.static_fields == c.static_fields
                && x.batch == c.batch && x.retry == c.retry,
            Some(e) => r matches Err(x) && x@ == prefixed(name@, e),
        },
{
    let cfg = S1HecConfig::from_value(name, value)?;
    let builder = S1HecEnvelopeBuilder {
        sourcetype: cfg.sourcetype,
        datasource: cfg.datasource,
        msgid_field: cfg.msgid_field,
        static_fields: cfg.static_fields,
    };
    Ok(HttpHecExporter::new(name, cfg.endpoint, cfg.token.as_str(), builder, cfg.batch, cfg.retry))
}

} // verus!
