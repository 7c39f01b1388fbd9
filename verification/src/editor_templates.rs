//! Curated source templates for the Receivers tab: each turns a couple of
//! typed parameters into a ready receiver (a listen address or a file
//! glob, plus a parsing `operators:` chain already filled in).
//!
//! A template is data: the receiver's shape and its operator recipes. One
//! verified builder turns a template and its parameters into the
//! receiver's value.

use vstd::prelude::*;
use crate::json::{JsonValue, JsonMap, JVal, JObj, obj_model, arr_model, obj_insert, map_insert, lemma_object_view,
    lemma_array_view, map_get};
use crate::editor_schema::{FieldSpec, FieldKind, FieldModel, EnumChoice, f, field_model, field_models, value_path, get_path, set_path};
use crate::field_ref::path_set;
use crate::text::{split_on, str_eq};

verus! {

#[derive(Clone, Copy, Debug, PartialEq, Eq, Structural)]
pub enum TemplateCategory {
    NetworkSecurity,
    Generic,
    Windows,
    Database,
    Messaging,
}

impl TemplateCategory {
    pub fn label(self) -> (r: &'static str)
        ensures
            r@ == category_label(self),
    {
        match self {
            TemplateCategory::NetworkSecurity => "Network & security devices",
            TemplateCategory::Database => "Databases",
            TemplateCategory::Messaging => "Messaging & big data",
            TemplateCategory::Generic => "Generic",
            TemplateCategory::Windows => "Windows / Active Directory",
        }
    }
}

pub open spec fn category_label(c: TemplateCategory) -> Seq<char> {
    match c {
        TemplateCategory::NetworkSecurity => "Network & security devices"@,
        TemplateCategory::Database => "Databases"@,
        TemplateCategory::Messaging => "Messaging & big data"@,
        TemplateCategory::Generic => "Generic"@,
        TemplateCategory::Windows => "Windows / Active Directory"@,
    }
}

/// The receiver a template builds, before its operators.
#[derive(Clone, Copy, Debug)]
pub enum Shape {
    /// A syslog listener: this protocol, the `transport` and
    /// `listen_address` parameters, this address by default.
    Syslog { protocol: &'static str, default_addr: &'static str },
    /// A file tailer: the glob parameter, this glob by default, read from
    /// the end.
    FileTail { default_glob: &'static str },
    /// A Windows Event Log reader: the `channel` parameter, this channel by
    /// default, every event.
    EventLog { default_channel: &'static str },
}

/// One operator of a template's chain.
#[derive(Clone, Copy, Debug)]
pub enum OpRecipe {
    /// `regex_parser` from the body into attributes.
    Regex(&'static str),
    /// `severity_parser` of `attributes.severity` with the default preset.
    Severity,
    /// `key_value_parser` of a field into attributes.
    KeyValue(&'static str),
    /// `json_parser` from the body into attributes.
    Json,
    /// `add` of a fixed value.
    Add(&'static str, &'static str),
    /// `add` of a text parameter (field, parameter, fallback).
    AddParam(&'static str, &'static str, &'static str),
    /// `move` from one field to another.
    Move(&'static str, &'static str),
}

pub struct SourceTemplate {
    /// Stable id, used only to look a template back up.
    pub key: &'static str,
    pub title: &'static str,
    pub category: TemplateCategory,
    pub description: &'static str,
    /// The registered receiver type the built value is shaped for.
    pub receiver_type: &'static str,
    /// Suggested id for the new receiver.
    pub default_id: &'static str,
    /// The parameters the user fills in; never an operator list.
    pub params: Vec<FieldSpec>,
    pub shape: Shape,
    pub ops: Vec<OpRecipe>,
}

/// The spec form of a shape.
pub enum ShapeView {
    Syslog { protocol: Seq<char>, default_addr: Seq<char> },
    FileTail { default_glob: Seq<char> },
    EventLog { default_channel: Seq<char> },
}

pub open spec fn shape_view(sh: Shape) -> ShapeView {
    match sh {
        Shape::Syslog { protocol, default_addr } => ShapeView::Syslog { protocol: protocol@, default_addr: default_addr@ },
        Shape::FileTail { default_glob } => ShapeView::FileTail { default_glob: default_glob@ },
        Shape::EventLog { default_channel } => ShapeView::EventLog { default_channel: default_channel@ },
    }
}

/// The spec form of an operator recipe.
pub enum OpView {
    Regex(Seq<char>),
    Severity,
    KeyValue(Seq<char>),
    Json,
    Add(Seq<char>, Seq<char>),
    AddParam(Seq<char>, Seq<char>, Seq<char>),
    Move(Seq<char>, Seq<char>),
}

pub open spec fn op_view(op: OpRecipe) -> OpView {
    match op {
        OpRecipe::Regex(r) => OpView::Regex(r@),
        OpRecipe::Severity => OpView::Severity,
        OpRecipe::KeyValue(f) => OpView::KeyValue(f@),
        OpRecipe::Json => OpView::Json,
        OpRecipe::Add(f, v) => OpView::Add(f@, v@),
        OpRecipe::AddParam(f, k, d) => OpView::AddParam(f@, k@, d@),
        OpRecipe::Move(a, b) => OpView::Move(a@, b@),
    }
}

/// The spec form of a template.
#[verifier::ext_equal]
pub struct TemplateView {
    pub key: Seq<char>,
    pub title: Seq<char>,
    pub category: TemplateCategory,
    pub description: Seq<char>,
    pub receiver_type: Seq<char>,
    pub default_id: Seq<char>,
    pub params: Seq<FieldModel>,
    pub shape: ShapeView,
    pub ops: Seq<OpView>,
}

pub open spec fn template_view(t: SourceTemplate) -> TemplateView {
    TemplateView {
        key: t.key@,
        title: t.title@,
        category: t.category,
        description: t.description@,
        receiver_type: t.receiver_type@,
        default_id: t.default_id@,
        params: field_models(t.params@),
        shape: shape_view(t.shape),
        ops: Seq::new(t.ops@.len(), |i: int| op_view(t.ops@[i])),
    }
}

pub open spec fn template_views(v: Seq<SourceTemplate>) -> Seq<TemplateView> {
    Seq::new(v.len(), |i: int| template_view(v[i]))
}

/// The key of a file tailer's glob list.
pub open spec fn glob_key() -> Seq<char> {
    "inc\x6cude"@
}

/// A text parameter, else the fallback.
pub open spec fn param_text(params: JVal, key: Seq<char>, fallback: Seq<char>) -> Seq<char> {
    match value_path(params, split_on(key, '.')) {
        Some(JVal::Str(s)) => s,
        _ => fallback,
    }
}

pub open spec fn s(t: Seq<char>) -> JVal {
    JVal::Str(t)
}

/// The value of one operator recipe.
pub open spec fn op_model(op: OpView, params: JVal) -> JVal {
    match op {
        OpView::Regex(r) => JVal::Obj(seq![
            ("type"@, s("regex_parser"@)), ("parse_from"@, s("body"@)), ("parse_to"@, s("attributes"@)), ("regex"@, s(r)),
            ("on_error"@, s("send_quiet"@)),
        ]),
        OpView::Severity => JVal::Obj(seq![
            ("type"@, s("severity_parser"@)), ("parse_from"@, s("attributes.severity"@)), ("preset"@, s("default"@)),
            ("on_error"@, s("send_quiet"@)),
        ]),
        OpView::KeyValue(from) => JVal::Obj(seq![
            ("type"@, s("key_value_parser"@)), ("parse_from"@, s(from)), ("parse_to"@, s("attributes"@)), ("on_error"@, s("send_quiet"@)),
        ]),
        OpView::Json => JVal::Obj(seq![
            ("type"@, s("json_parser"@)), ("parse_from"@, s("body"@)), ("parse_to"@, s("attributes"@)), ("on_error"@, s("send_quiet"@)),
        ]),
        OpView::Add(field, value) => JVal::Obj(seq![("type"@, s("add"@)), ("field"@, s(field)), ("value"@, s(value))]),
        OpView::AddParam(field, key, fallback) => JVal::Obj(seq![
            ("type"@, s("add"@)), ("field"@, s(field)), ("value"@, s(param_text(params, key, fallback))),
        ]),
        OpView::Move(from, to) => JVal::Obj(seq![("type"@, s("move"@)), ("from"@, s(from)), ("to"@, s(to))]),
    }
}

/// The receiver's value before its operators.
pub open spec fn shape_model(shape: ShapeView, params: JVal) -> JObj {
    match shape {
        ShapeView::Syslog { protocol, default_addr } => {
            let m = path_set(Seq::empty(), split_on("protocol"@, '.'), s(protocol));
            let addr = param_text(params, "listen_address"@, default_addr);
            if param_text(params, "transport"@, "udp"@) == "tcp"@ {
                path_set(path_set(m, split_on("tcp.listen_address"@, '.'), s(addr)), split_on("enable_octet_counting"@, '.'), JVal::Bool(true))
            } else {
                path_set(m, split_on("udp.listen_address"@, '.'), s(addr))
            }
        },
        ShapeView::FileTail { default_glob } => {
            let globs = match value_path(params, split_on(glob_key(), '.')) {
                Some(v) => v,
                None => JVal::Arr(seq![s(default_glob)]),
            };
            path_set(obj_insert(Seq::empty(), glob_key(), globs), split_on("start_at"@, '.'), s("end"@))
        },
        ShapeView::EventLog { default_channel } => obj_insert(
            obj_insert(Seq::empty(), "channel"@, s(param_text(params, "channel"@, default_channel))),
            "query"@,
            s("*"@),
        ),
    }
}

/// The receiver a template builds from its parameters: its shape, then
/// `operators` with each recipe's operator in order.
pub open spec fn build_model(t: TemplateView, params: JVal) -> JVal {
    JVal::Obj(obj_insert(
        shape_model(t.shape, params),
        "operators"@,
        JVal::Arr(Seq::new(t.ops.len(), |i: int| op_model(t.ops[i], params))),
    ))
}

/// A text parameter, else the fallback.
fn param_str(params: &JsonValue, key: &str, fallback: &str) -> (r: String)
    ensures
        r@ == param_text(params@, key@, fallback@),
{
    match get_path(params, key) {
        Some(v) => match v.as_str() {
            Some(t) => t.to_owned(),
            None => fallback.to_owned(),
        },
        None => fallback.to_owned(),
    }
}

fn jstr(t: &str) -> (r: JsonValue)
    ensures
        r@ == s(t@),
{
    JsonValue::Str(t.to_owned())
}

/// An object from entries whose keys are all distinct.
fn object_of(entries: Vec<(String, JsonValue)>) -> (r: JsonValue)
    ensures
        r@ == JVal::Obj(obj_model(entries@)),
{
    let ghost e = entries;
    proof {
        lemma_object_view(e);
    }
    JsonValue::Object(entries)
}

/// The operator of a recipe.
fn op_value(op: OpRecipe, params: &JsonValue) -> (r: JsonValue)
    ensures
        r@ == op_model(op_view(op), params@),
{
    let e: Vec<(String, JsonValue)> = match op {
        OpRecipe::Regex(re) => vec![
            ("type".to_owned(), jstr("regex_parser")),
            ("parse_from".to_owned(), jstr("body")),
            ("parse_to".to_owned(), jstr("attributes")),
            ("regex".to_owned(), jstr(re)),
            ("on_error".to_owned(), jstr("send_quiet")),
        ],
        OpRecipe::Severity => vec![
            ("type".to_owned(), jstr("severity_parser")),
            ("parse_from".to_owned(), jstr("attributes.severity")),
            ("preset".to_owned(), jstr("default")),
            ("on_error".to_owned(), jstr("send_quiet")),
        ],
        OpRecipe::KeyValue(from) => vec![
            ("type".to_owned(), jstr("key_value_parser")),
            ("parse_from".to_owned(), jstr(from)),
            ("parse_to".to_owned(), jstr("attributes")),
            ("on_error".to_owned(), jstr("send_quiet")),
        ],
        OpRecipe::Json => vec![
            ("type".to_owned(), jstr("json_parser")),
            ("parse_from".to_owned(), jstr("body")),
            ("parse_to".to_owned(), jstr("attributes")),
            ("on_error".to_owned(), jstr("send_quiet")),
        ],
        OpRecipe::Add(field, value) => vec![
            ("type".to_owned(), jstr("add")),
            ("field".to_owned(), jstr(field)),
            ("value".to_owned(), jstr(value)),
        ],
        OpRecipe::AddParam(field, key, fallback) => {
            let v = param_str(params, key, fallback);
            vec![("type".to_owned(), jstr("add")), ("field".to_owned(), jstr(field)), ("value".to_owned(), JsonValue::Str(v))]
        },
        OpRecipe::Move(from, to) => vec![
            ("type".to_owned(), jstr("move")),
            ("from".to_owned(), jstr(from)),
            ("to".to_owned(), jstr(to)),
        ],
    };
    let r = object_of(e);
    assert(obj_model(e@) =~= match op_model(op_view(op), params@) {
        JVal::Obj(o) => o,
        _ => Seq::empty(),
    });
    r
}

/// Sets a path in an object to a string.
fn set_str(map: &mut JsonMap, path: &str, t: &str)
    ensures
        obj_model(final(map)@) == path_set(obj_model(old(map)@), split_on(path@, '.'), s(t@)),
{
    set_path(map, path, jstr(t));
}

/// The receiver's value before its operators.
fn shape_value(shape: Shape, params: &JsonValue) -> (r: JsonMap)
    ensures
        obj_model(r@) == shape_model(shape_view(shape), params@),
{
    let mut map: JsonMap = Vec::new();
    assert(obj_model(map@) =~= Seq::<(Seq<char>, JVal)>::empty());
    match shape {
        Shape::Syslog { protocol, default_addr } => {
            set_str(&mut map, "protocol", protocol);
            let addr = param_str(params, "listen_address", default_addr);
            let transport = param_str(params, "transport", "udp");
            if str_eq(transport.as_str(), "tcp") {
                set_str(&mut map, "tcp.listen_address", addr.as_str());
                set_path(&mut map, "enable_octet_counting", JsonValue::Bool(true));
            } else {
                set_str(&mut map, "udp.listen_address", addr.as_str());
            }
        },
        Shape::FileTail { default_glob } => {
            let globs = match get_path(params, "inc\x6cude") {
                Some(v) => v.deep_copy(),
                None => {
                    let a = vec![jstr(default_glob)];
                    let ghost av = a;
                    proof {
                        lemma_array_view(av);
                        assert(arr_model(a@) =~= seq![s(default_glob@)]);
                    }
                    JsonValue::Array(a)
                },
            };
            map_insert(&mut map, "inc\x6cude".to_owned(), globs);
            set_str(&mut map, "start_at", "end");
        },
        Shape::EventLog { default_channel } => {
            let channel = param_str(params, "channel", default_channel);
            map_insert(&mut map, "channel".to_owned(), JsonValue::Str(channel));
            map_insert(&mut map, "query".to_owned(), jstr("*"));
        },
    }
    map
}

/// The receiver a template builds from its parameters.
pub fn build(t: &SourceTemplate, params: &JsonValue) -> (r: JsonValue)
    ensures
        r@ == build_model(template_view(*t), params@),
{
    let mut map = shape_value(t.shape, params);
    let mut ops: Vec<JsonValue> = Vec::new();
    let mut i: usize = 0;
    while i < t.ops.len()
        invariant
            i <= t.ops@.len(),
            ops@.len() == i,
            forall|j: int| 0 <= j < i ==> #[trigger] ops@[j]@ == op_model(op_view(t.ops@[j]), params@),
        decreases t.ops@.len() - i,
    {
        ops.push(op_value(t.ops[i], params));
        i = i + 1;
    }
    let ghost ov = ops;
    proof {
        lemma_array_view(ov);
        assert forall|j: int| 0 <= j < t.ops@.len() implies arr_model(ops@)[j] == op_model(op_view(t.ops@[j]), params@) by {
            assert(ops@[j]@ == op_model(op_view(t.ops@[j]), params@));
        }
        assert(arr_model(ops@) =~= Seq::new(t.ops@.len(), |j: int| op_model(template_view(*t).ops[j], params@)));
    }
    map_insert(&mut map, "operators".to_owned(), JsonValue::Array(ops));
    let ghost mv = map;
    proof {
        lemma_object_view(mv);
    }
    JsonValue::Object(map)
}

} // verus!

verus! {

/// A template.
fn tpl(
    key: &'static str,
    title: &'static str,
    category: TemplateCategory,
    description: &'static str,
    receiver_type: &'static str,
    default_id: &'static str,
    params: Vec<FieldSpec>,
    shape: Shape,
    ops: Vec<OpRecipe>,
) -> (r: SourceTemplate)
    ensures
        r.key == key,
        r.title == title,
        r.category == category,
        r.description == description,
        r.receiver_type == receiver_type,
        r.default_id == default_id,
        r.params@ == params@,
        r.shape == shape,
        r.ops@ == ops@,
{
    SourceTemplate { key, title, category, description, receiver_type, default_id, params, shape, ops }
}

/// The `transport` and `listen_address` parameters of a syslog template.
fn syslog_params(transport_help: &'static str, addr: &'static str, addr_help: &'static str) -> (r: Vec<FieldSpec>)
    ensures
        field_models(r@) == seq![
            ("transport"@, FieldKind::Enum(EnumChoice::Transport), true, Some("udp"@), transport_help@),
            ("listen_address"@, FieldKind::Str, true, Some(addr@), addr_help@),
        ],
{
    vec![
        f("transport", FieldKind::Enum(EnumChoice::Transport), true, Some("udp"), transport_help),
        f("listen_address", FieldKind::Str, true, Some(addr), addr_help),
    ]
}

/// The glob parameter of a file template.
fn glob_param(default: Option<&'static str>, help: &'static str) -> (r: FieldSpec)
    ensures
        field_model(r) == (glob_key(), FieldKind::StringList, true, match default {
            Some(d) => Some(d@),
            None => None,
        }, help@),
{
    f("inc\x6cude", FieldKind::StringList, true, default, help)
}

fn syslog_templates(out: &mut Vec<SourceTemplate>)
    ensures
        template_keys(final(out)@) == template_keys(old(out)@) + syslog_template_keys(),
        template_ids(final(out)@) == template_ids(old(out)@) + syslog_template_ids(),
        template_views(final(out)@) == template_views(old(out)@) + syslog_template_table(),
{
    let t0 = tpl(
        "cisco_asa",
        "Cisco ASA (syslog)",
        TemplateCategory::NetworkSecurity,
        "Cisco ASA firewall, RFC 3164 syslog with the %ASA-severity-msgid: message grammar.",
        "syslog",
        "syslog/cisco_asa",
        syslog_params(
            "udp or tcp, matching how the ASA is configured to send logs.",
            "0.0.0.0:514",
            "Address to listen on -- e.g. 0.0.0.0:514. Just a suggested starting port; adjust if this collector already listens on it elsewhere.",
        ),
        Shape::Syslog { protocol: "rfc3164", default_addr: "0.0.0.0:514" },
        vec![
            OpRecipe::Regex(r"^%ASA-(?P<severity>\d)-(?P<msgid>\d+):\s*(?P<message>.*)$"),
            OpRecipe::Severity,
            OpRecipe::Add("attributes.datasource", "cisco_asa"),
            OpRecipe::Add("attributes.sourcetype", "cisco_asa_ts_parser"),
            OpRecipe::Move("attributes.message", "body"),
        ],
    );
    assert(template_view(t0) =~= syslog_template_table()[0]);
    out.push(t0);
    let t1 = tpl(
        "cisco_catalyst",
        "Cisco Catalyst / IOS (syslog)",
        TemplateCategory::NetworkSecurity,
        "Cisco IOS switches/routers, RFC 3164 syslog with the %FACILITY-severity-MNEMONIC: message grammar.",
        "syslog",
        "syslog/cisco_catalyst",
        syslog_params(
            "udp or tcp, matching how the switch is configured to send logs.",
            "0.0.0.0:515",
            "Address to listen on -- e.g. 0.0.0.0:515.",
        ),
        Shape::Syslog { protocol: "rfc3164", default_addr: "0.0.0.0:515" },
        vec![
            OpRecipe::Regex(r"^%(?P<facility>[A-Z0-9_]+)-(?P<severity>\d)-(?P<mnemonic>[A-Z0-9_]+):\s*(?P<message>.*)$"),
            OpRecipe::Severity,
            OpRecipe::Add("attributes.datasource", "cisco_ios"),
            OpRecipe::Add("attributes.sourcetype", "cisco_catalyst_ts_parser"),
            OpRecipe::Move("attributes.message", "body"),
        ],
    );
    assert(template_view(t1) =~= syslog_template_table()[1]);
    out.push(t1);
    let t2 = tpl(
        "cisco_meraki",
        "Cisco Meraki (syslog)",
        TemplateCategory::NetworkSecurity,
        "Meraki dashboard syslog export (flows/events/urls). Best-effort parsing -- Meraki's exact message shape varies by log type.",
        "syslog",
        "syslog/cisco_meraki",
        syslog_params(
            "udp or tcp, matching the syslog server target configured in the Meraki dashboard.",
            "0.0.0.0:516",
            "Address to listen on -- e.g. 0.0.0.0:516.",
        ),
        Shape::Syslog { protocol: "none", default_addr: "0.0.0.0:516" },
        vec![
            OpRecipe::Regex(r"^(?P<timestamp>\S+\s+\S+)\s+(?P<device>\S+)\s+(?P<log_type>\S+)\s+(?P<message>.*)$"),
            OpRecipe::KeyValue("attributes.message"),
            OpRecipe::Add("attributes.datasource", "cisco_meraki"),
            OpRecipe::Add("attributes.sourcetype", "cisco_meraki_ts_parser"),
            OpRecipe::Move("attributes.message", "body"),
        ],
    );
    assert(template_view(t2) =~= syslog_template_table()[2]);
    out.push(t2);
    let t3 = tpl(
        "ubiquiti",
        "Ubiquiti / UniFi (syslog)",
        TemplateCategory::NetworkSecurity,
        "UniFi APs/switches/gateways, RFC 3164 syslog. No vendor-specific parsing -- message format varies by device type.",
        "syslog",
        "syslog/ubiquiti",
        syslog_params(
            "udp or tcp, matching the UniFi controller/device's remote syslog config.",
            "0.0.0.0:517",
            "Address to listen on -- e.g. 0.0.0.0:517.",
        ),
        Shape::Syslog { protocol: "rfc3164", default_addr: "0.0.0.0:517" },
        vec![OpRecipe::Add("attributes.datasource", "ubiquiti"), OpRecipe::Add("attributes.sourcetype", "ubiquiti_ts_parser")],
    );
    assert(template_view(t3) =~= syslog_template_table()[3]);
    out.push(t3);
    let t4 = tpl(
        "haproxy",
        "HAProxy (syslog)",
        TemplateCategory::NetworkSecurity,
        "HAProxy's default httplog format. HAProxy's log format is configurable, so this covers the common default.",
        "syslog",
        "syslog/haproxy",
        syslog_params("udp or tcp, matching HAProxy's log target config.", "0.0.0.0:518", "Address to listen on -- e.g. 0.0.0.0:518."),
        Shape::Syslog { protocol: "rfc3164", default_addr: "0.0.0.0:518" },
        vec![
            OpRecipe::Regex(r#"^(?P<client_ip>[\d.:a-fA-F]+):(?P<client_port>\d+) \[(?P<accept_date>[^\]]+)\] (?P<frontend>\S+) (?P<backend>\S+)/(?P<server>\S+) \S+ (?P<status_code>\d+) (?P<bytes_read>\d+) \S+ \S+ \S+ \S+ \S+ "(?P<http_request>[^"]*)"$"#),
            OpRecipe::Add("attributes.datasource", "haproxy"),
            OpRecipe::Add("attributes.sourcetype", "haproxy_ts_parser"),
        ],
    );
    assert(template_view(t4) =~= syslog_template_table()[4]);
    out.push(t4);
    let t5 = tpl(
        "cef",
        "CEF -- Common Event Format (syslog)",
        TemplateCategory::NetworkSecurity,
        "Any device emitting CEF over syslog (ArcSight-style CEF:0|Vendor|Product|...|Extension).",
        "syslog",
        "syslog/cef",
        syslog_params(
            "udp or tcp, matching the CEF-emitting device's syslog config.",
            "0.0.0.0:519",
            "Address to listen on -- e.g. 0.0.0.0:519.",
        ),
        Shape::Syslog { protocol: "none", default_addr: "0.0.0.0:519" },
        vec![
            OpRecipe::Regex(r"^CEF:(?P<cef_version>\d)\|(?P<device_vendor>[^|]*)\|(?P<device_product>[^|]*)\|(?P<device_version>[^|]*)\|(?P<signature_id>[^|]*)\|(?P<name>[^|]*)\|(?P<cef_severity>[^|]*)\|(?P<extension>.*)$"),
            OpRecipe::KeyValue("attributes.extension"),
            OpRecipe::Add("attributes.datasource", "cef"),
            OpRecipe::Add("attributes.sourcetype", "cef_ts_parser"),
        ],
    );
    assert(template_view(t5) =~= syslog_template_table()[5]);
    out.push(t5);
    let t6 = tpl(
        "generic_syslog",
        "Generic syslog (RFC 5424)",
        TemplateCategory::Generic,
        "Modern Linux hosts / rsyslog's default remote-forwarding template -- structured envelope, no vendor-specific regex needed.",
        "syslog",
        "syslog/generic",
        syslog_params(
            "udp or tcp, matching the sender's remote-syslog config.",
            "0.0.0.0:1514",
            "Address to listen on -- e.g. 0.0.0.0:1514.",
        ),
        Shape::Syslog { protocol: "rfc5424", default_addr: "0.0.0.0:1514" },
        vec![
            OpRecipe::Add("attributes.datasource", "generic_syslog"),
            OpRecipe::Add("attributes.sourcetype", "generic_rsyslog"),
            OpRecipe::Move("attributes.message", "body"),
        ],
    );
    assert(template_view(t6) =~= syslog_template_table()[6]);
    out.push(t6);
}

fn file_templates(out: &mut Vec<SourceTemplate>)
    ensures
        template_keys(final(out)@) == template_keys(old(out)@) + file_template_keys(),
        template_ids(final(out)@) == template_ids(old(out)@) + file_template_ids(),
        template_views(final(out)@) == template_views(old(out)@) + file_template_table(),
{
    let t0 = tpl(
        "file_log",
        "Generic file tailing",
        TemplateCategory::Generic,
        "Tail any log file with no parsing beyond tagging a sourcetype -- a starting point for a format none of the other templates cover.",
        "file_log",
        "file_log/app",
        vec![
            glob_param(None, "File glob(s) to tail -- e.g. /var/log/myapp/*.log."),
            f("sourcetype", FieldKind::Str, true, None, "Sourcetype tag to add to every event from this file -- e.g. myapp."),
        ],
        Shape::FileTail { default_glob: "/var/log/*.log" },
        vec![OpRecipe::AddParam("attributes.sourcetype", "sourcetype", "generic")],
    );
    assert(template_view(t0) =~= file_template_table()[0]);
    out.push(t0);
    let t1 = tpl(
        "json_logs",
        "JSON logs",
        TemplateCategory::Generic,
        "One JSON object per line -- parsed and merged into attributes.",
        "file_log",
        "file_log/json",
        vec![
            glob_param(None, "File glob(s) to tail -- e.g. /var/log/myapp/*.jsonl."),
            f("sourcetype", FieldKind::Str, false, Some("json"), "Sourcetype tag to add to every event from this file."),
        ],
        Shape::FileTail { default_glob: "/var/log/*.jsonl" },
        vec![OpRecipe::Json, OpRecipe::AddParam("attributes.sourcetype", "sourcetype", "json")],
    );
    assert(template_view(t1) =~= file_template_table()[1]);
    out.push(t1);
    let t2 = tpl(
        "w3c_logs",
        "W3C / IIS extended log",
        TemplateCategory::Generic,
        "IIS's default W3C extended log field selection.",
        "file_log",
        "file_log/iis",
        vec![glob_param(Some(r"C:\inetpub\logs\LogFiles\W3SVC1\*.log"), r"IIS log file glob(s) -- e.g. C:\inetpub\logs\LogFiles\W3SVC1\*.log.")],
        Shape::FileTail { default_glob: r"C:\inetpub\logs\LogFiles\W3SVC1\*.log" },
        vec![
            OpRecipe::Regex(r"^(?P<date>\S+) (?P<time>\S+) (?P<s_ip>\S+) (?P<method>\S+) (?P<uri_stem>\S+) (?P<uri_query>\S+) (?P<port>\S+) (?P<username>\S+) (?P<client_ip>\S+) (?P<user_agent>\S+) (?P<referer>\S+) (?P<status>\d+) (?P<substatus>\d+) (?P<win32_status>\d+) (?P<time_taken>\d+)$"),
            OpRecipe::Add("attributes.sourcetype", "iis_w3c"),
        ],
    );
    assert(template_view(t2) =~= file_template_table()[2]);
    out.push(t2);
    let t3 = tpl(
        "nginx",
        "nginx access log",
        TemplateCategory::Generic,
        "nginx's default combined log_format.",
        "file_log",
        "file_log/nginx",
        vec![glob_param(Some("/var/log/nginx/access.log"), "nginx access log file glob(s) -- e.g. /var/log/nginx/access.log.")],
        Shape::FileTail { default_glob: "/var/log/nginx/access.log" },
        vec![
            OpRecipe::Regex(r#"^(?P<remote_addr>\S+) - (?P<remote_user>\S+) \[(?P<time_local>[^\]]+)\] "(?P<request>[^"]*)" (?P<status>\d+) (?P<bytes_sent>\d+) "(?P<referer>[^"]*)" "(?P<user_agent>[^"]*)"$"#),
            OpRecipe::Add("attributes.sourcetype", "nginx_access"),
        ],
    );
    assert(template_view(t3) =~= file_template_table()[3]);
    out.push(t3);
    let t4 = tpl(
        "windows_dhcp",
        "Windows DHCP server log",
        TemplateCategory::Windows,
        "Microsoft DHCP server audit log (flat CSV file, not the Event Log) -- captures the security-relevant lease/host fields.",
        "file_log",
        "file_log/windows_dhcp",
        vec![glob_param(Some(r"C:\Windows\System32\dhcp\DhcpSrvLog-*.log"), r"DHCP server audit log glob(s) -- e.g. C:\Windows\System32\dhcp\DhcpSrvLog-*.log.")],
        Shape::FileTail { default_glob: r"C:\Windows\System32\dhcp\DhcpSrvLog-*.log" },
        vec![
            OpRecipe::Regex(r"^(?P<event_id>\d+),(?P<date>[^,]*),(?P<time>[^,]*),(?P<description>[^,]*),(?P<ip_address>[^,]*),(?P<host_name>[^,]*),(?P<mac_address>[^,]*),(?P<rest>.*)$"),
            OpRecipe::Add("attributes.sourcetype", "windows_dhcp"),
        ],
    );
    assert(template_view(t4) =~= file_template_table()[4]);
    out.push(t4);
    let t5 = tpl(
        "active_directory",
        "Active Directory (Windows Event Log)",
        TemplateCategory::Windows,
        "Domain controller Security channel events (logon/account/AD activity). Windows-only at runtime, like any windows_event_log receiver.",
        "windows_event_log",
        "windows_event_log/active_directory",
        vec![f(
            "channel",
            FieldKind::Str,
            true,
            Some("Security"),
            "Windows Event Log channel to read -- Security covers logon/account/AD events; some environments also use Directory Service.",
        )],
        Shape::EventLog { default_channel: "Security" },
        vec![OpRecipe::Add("attributes.sourcetype", "windows_security"), OpRecipe::Add("attributes.datasource", "active_directory")],
    );
    assert(template_view(t5) =~= file_template_table()[5]);
    out.push(t5);
    let t6 = tpl(
        "mysql",
        "MySQL error log",
        TemplateCategory::Database,
        "MySQL 8+'s default error log format ([level] [error_code] [subsystem] message).",
        "file_log",
        "file_log/mysql",
        vec![glob_param(Some("/var/log/mysql/error.log"), "MySQL error log glob(s) -- e.g. /var/log/mysql/error.log.")],
        Shape::FileTail { default_glob: "/var/log/mysql/error.log" },
        vec![
            OpRecipe::Regex(r"^(?P<timestamp>\S+)\s+(?P<thread_id>\d+)\s+\[(?P<level>\w+)\]\s+\[(?P<error_code>[\w-]+)\]\s+\[(?P<subsystem>[\w.]+)\]\s+(?P<message>.*)$"),
            OpRecipe::Add("attributes.sourcetype", "mysql_error"),
        ],
    );
    assert(template_view(t6) =~= file_template_table()[6]);
    out.push(t6);
    let t7 = tpl(
        "postgresql",
        "PostgreSQL log",
        TemplateCategory::Database,
        "Postgres's common log_line_prefix default (%m [%p] ). log_line_prefix is configurable, so this covers the common default.",
        "file_log",
        "file_log/postgresql",
        vec![glob_param(Some("/var/log/postgresql/postgresql-*.log"), "PostgreSQL log file glob(s) -- e.g. /var/log/postgresql/postgresql-*.log.")],
        Shape::FileTail { default_glob: "/var/log/postgresql/postgresql-*.log" },
        vec![
            OpRecipe::Regex(r"^(?P<timestamp>\d{4}-\d{2}-\d{2} \d{2}:\d{2}:\d{2}\.\d+ \w+) \[(?P<pid>\d+)\] (?P<level>\w+):\s+(?P<message>.*)$"),
            OpRecipe::Add("attributes.sourcetype", "postgresql"),
        ],
    );
    assert(template_view(t7) =~= file_template_table()[7]);
    out.push(t7);
    let t8 = tpl(
        "sql_server",
        "SQL Server error log",
        TemplateCategory::Database,
        "SQL Server's error log format (date time.ms spid message) -- works for both Linux/container and Windows installs.",
        "file_log",
        "file_log/sql_server",
        vec![glob_param(
            Some("/var/opt/mssql/log/errorlog"),
            "SQL Server error log glob(s) -- e.g. /var/opt/mssql/log/errorlog (Linux/container default) or the ERRORLOG file under Windows's MSSQL log directory.",
        )],
        Shape::FileTail { default_glob: "/var/opt/mssql/log/errorlog" },
        vec![
            OpRecipe::Regex(r"^(?P<date>\d{4}-\d{2}-\d{2}) (?P<time>\d{2}:\d{2}:\d{2}\.\d+) (?P<spid>\S+)\s+(?P<message>.*)$"),
            OpRecipe::Add("attributes.sourcetype", "sql_server"),
        ],
    );
    assert(template_view(t8) =~= file_template_table()[8]);
    out.push(t8);
    let t9 = tpl(
        "kafka",
        "Kafka broker log",
        TemplateCategory::Messaging,
        "Kafka's default log4j pattern ([timestamp] level message (logger)).",
        "file_log",
        "file_log/kafka",
        vec![glob_param(Some("/var/log/kafka/server.log"), "Kafka broker log glob(s) -- e.g. /var/log/kafka/server.log.")],
        Shape::FileTail { default_glob: "/var/log/kafka/server.log" },
        vec![
            OpRecipe::Regex(r"^\[(?P<timestamp>[\d-]+ [\d:,]+)\]\s+(?P<level>\w+)\s+(?P<message>.*?)\s+\((?P<logger>[\w.$]+)\)$"),
            OpRecipe::Add("attributes.sourcetype", "kafka"),
        ],
    );
    assert(template_view(t9) =~= file_template_table()[9]);
    out.push(t9);
    let t10 = tpl(
        "hadoop",
        "Hadoop daemon log",
        TemplateCategory::Messaging,
        "Hadoop's default log4j pattern (timestamp level [thread] logger: message).",
        "file_log",
        "file_log/hadoop",
        vec![glob_param(Some("/var/log/hadoop/*.log"), "Hadoop daemon log glob(s) -- e.g. /var/log/hadoop/*.log.")],
        Shape::FileTail { default_glob: "/var/log/hadoop/*.log" },
        vec![
            OpRecipe::Regex(r"^(?P<timestamp>[\d-]+ [\d:,]+)\s+(?P<level>\w+)\s+\[(?P<thread>[^\]]+)\]\s+(?P<logger>\S+):\s+(?P<message>.*)$"),
            OpRecipe::Add("attributes.sourcetype", "hadoop"),
        ],
    );
    assert(template_view(t10) =~= file_template_table()[10]);
    out.push(t10);
}

/// The syslog templates as registered, in display order.
pub open spec fn syslog_template_table() -> Seq<TemplateView> {
    seq![
        TemplateView {
            key: "cisco_asa"@,
            title: "Cisco ASA (syslog)"@,
            category: TemplateCategory::NetworkSecurity,
            description: "Cisco ASA firewall, RFC 3164 syslog with the %ASA-severity-msgid: message grammar."@,
            receiver_type: "syslog"@,
            default_id: "syslog/cisco_asa"@,
            params: seq![("transport"@, FieldKind::Enum(EnumChoice::Transport), true, Some("udp"@), "udp or tcp, matching how the ASA is configured to send logs."@), ("listen_address"@, FieldKind::Str, true, Some("0.0.0.0:514"@), "Address to listen on -- e.g. 0.0.0.0:514. Just a suggested starting port; adjust if this collector already listens on it elsewhere."@)],
            shape: ShapeView::Syslog { protocol: "rfc3164"@, default_addr: "0.0.0.0:514"@ },
            ops: seq![
                OpView::Regex(r"^%ASA-(?P<severity>\d)-(?P<msgid>\d+):\s*(?P<message>.*)$"@),
                OpView::Severity,
                OpView::Add("attributes.datasource"@, "cisco_asa"@),
                OpView::Add("attributes.sourcetype"@, "cisco_asa_ts_parser"@),
                OpView::Move("attributes.message"@, "body"@),
            ],
        },
        TemplateView {
            key: "cisco_catalyst"@,
            title: "Cisco Catalyst / IOS (syslog)"@,
            category: TemplateCategory::NetworkSecurity,
            description: "Cisco IOS switches/routers, RFC 3164 syslog with the %FACILITY-severity-MNEMONIC: message grammar."@,
            receiver_type: "syslog"@,
            default_id: "syslog/cisco_catalyst"@,
            params: seq![("transport"@, FieldKind::Enum(EnumChoice::Transport), true, Some("udp"@), "udp or tcp, matching how the switch is configured to send logs."@), ("listen_address"@, FieldKind::Str, true, Some("0.0.0.0:515"@), "Address to listen on -- e.g. 0.0.0.0:515."@)],
            shape: ShapeView::Syslog { protocol: "rfc3164"@, default_addr: "0.0.0.0:515"@ },
            ops: seq![
                OpView::Regex(r"^%(?P<facility>[A-Z0-9_]+)-(?P<severity>\d)-(?P<mnemonic>[A-Z0-9_]+):\s*(?P<message>.*)$"@),
                OpView::Severity,
                OpView::Add("attributes.datasource"@, "cisco_ios"@),
                OpView::Add("attributes.sourcetype"@, "cisco_catalyst_ts_parser"@),
                OpView::Move("attributes.message"@, "body"@),
            ],
        },
        TemplateView {
            key: "cisco_meraki"@,
            title: "Cisco Meraki (syslog)"@,
            category: TemplateCategory::NetworkSecurity,
            description: "Meraki dashboard syslog export (flows/events/urls). Best-effort parsing -- Meraki's exact message shape varies by log type."@,
            receiver_type: "syslog"@,
            default_id: "syslog/cisco_meraki"@,
            params: seq![("transport"@, FieldKind::Enum(EnumChoice::Transport), true, Some("udp"@), "udp or tcp, matching the syslog server target configured in the Meraki dashboard."@), ("listen_address"@, FieldKind::Str, true, Some("0.0.0.0:516"@), "Address to listen on -- e.g. 0.0.0.0:516."@)],
            shape: ShapeView::Syslog { protocol: "none"@, default_addr: "0.0.0.0:516"@ },
            ops: seq![
                OpView::Regex(r"^(?P<timestamp>\S+\s+\S+)\s+(?P<device>\S+)\s+(?P<log_type>\S+)\s+(?P<message>.*)$"@),
                OpView::KeyValue("attributes.message"@),
                OpView::Add("attributes.datasource"@, "cisco_meraki"@),
                OpView::Add("attributes.sourcetype"@, "cisco_meraki_ts_parser"@),
                OpView::Move("attributes.message"@, "body"@),
            ],
        },
        TemplateView {
            key: "ubiquiti"@,
            title: "Ubiquiti / UniFi (syslog)"@,
            category: TemplateCategory::NetworkSecurity,
            description: "UniFi APs/switches/gateways, RFC 3164 syslog. No vendor-specific parsing -- message format varies by device type."@,
            receiver_type: "syslog"@,
            default_id: "syslog/ubiquiti"@,
            params: seq![("transport"@, FieldKind::Enum(EnumChoice::Transport), true, Some("udp"@), "udp or tcp, matching the UniFi controller/device's remote syslog config."@), ("listen_address"@, FieldKind::Str, true, Some("0.0.0.0:517"@), "Address to listen on -- e.g. 0.0.0.0:517."@)],
            shape: ShapeView::Syslog { protocol: "rfc3164"@, default_addr: "0.0.0.0:517"@ },
            ops: seq![
                OpView::Add("attributes.datasource"@, "ubiquiti"@),
                OpView::Add("attributes.sourcetype"@, "ubiquiti_ts_parser"@),
            ],
        },
        TemplateView {
            key: "haproxy"@,
            title: "HAProxy (syslog)"@,
            category: TemplateCategory::NetworkSecurity,
            description: "HAProxy's default httplog format. HAProxy's log format is configurable, so this covers the common default."@,
            receiver_type: "syslog"@,
            default_id: "syslog/haproxy"@,
            params: seq![("transport"@, FieldKind::Enum(EnumChoice::Transport), true, Some("udp"@), "udp or tcp, matching HAProxy's log target config."@), ("listen_address"@, FieldKind::Str, true, Some("0.0.0.0:518"@), "Address to listen on -- e.g. 0.0.0.0:518."@)],
            shape: ShapeView::Syslog { protocol: "rfc3164"@, default_addr: "0.0.0.0:518"@ },
            ops: seq![
                OpView::Regex(r#"^(?P<client_ip>[\d.:a-fA-F]+):(?P<client_port>\d+) \[(?P<accept_date>[^\]]+)\] (?P<frontend>\S+) (?P<backend>\S+)/(?P<server>\S+) \S+ (?P<status_code>\d+) (?P<bytes_read>\d+) \S+ \S+ \S+ \S+ \S+ "(?P<http_request>[^"]*)"$"#@),
                OpView::Add("attributes.datasource"@, "haproxy"@),
                OpView::Add("attributes.sourcetype"@, "haproxy_ts_parser"@),
            ],
        },
        TemplateView {
            key: "cef"@,
            title: "CEF -- Common Event Format (syslog)"@,
            category: TemplateCategory::NetworkSecurity,
            description: "Any device emitting CEF over syslog (ArcSight-style CEF:0|Vendor|Product|...|Extension)."@,
            receiver_type: "syslog"@,
            default_id: "syslog/cef"@,
            params: seq![("transport"@, FieldKind::Enum(EnumChoice::Transport), true, Some("udp"@), "udp or tcp, matching the CEF-emitting device's syslog config."@), ("listen_address"@, FieldKind::Str, true, Some("0.0.0.0:519"@), "Address to listen on -- e.g. 0.0.0.0:519."@)],
            shape: ShapeView::Syslog { protocol: "none"@, default_addr: "0.0.0.0:519"@ },
            ops: seq![
                OpView::Regex(r"^CEF:(?P<cef_version>\d)\|(?P<device_vendor>[^|]*)\|(?P<device_product>[^|]*)\|(?P<device_version>[^|]*)\|(?P<signature_id>[^|]*)\|(?P<name>[^|]*)\|(?P<cef_severity>[^|]*)\|(?P<extension>.*)$"@),
                OpView::KeyValue("attributes.extension"@),
                OpView::Add("attributes.datasource"@, "cef"@),
                OpView::Add("attributes.sourcetype"@, "cef_ts_parser"@),
            ],
        },
        TemplateView {
            key: "generic_syslog"@,
            title: "Generic syslog (RFC 5424)"@,
            category: TemplateCategory::Generic,
            description: "Modern Linux hosts / rsyslog's default remote-forwarding template -- structured envelope, no vendor-specific regex needed."@,
            receiver_type: "syslog"@,
            default_id: "syslog/generic"@,
            params: seq![("transport"@, FieldKind::Enum(EnumChoice::Transport), true, Some("udp"@), "udp or tcp, matching the sender's remote-syslog config."@), ("listen_address"@, FieldKind::Str, true, Some("0.0.0.0:1514"@), "Address to listen on -- e.g. 0.0.0.0:1514."@)],
            shape: ShapeView::Syslog { protocol: "rfc5424"@, default_addr: "0.0.0.0:1514"@ },
            ops: seq![
                OpView::Add("attributes.datasource"@, "generic_syslog"@),
                OpView::Add("attributes.sourcetype"@, "generic_rsyslog"@),
                OpView::Move("attributes.message"@, "body"@),
            ],
        }
    ]
}

/// The file templates as registered, in display order.
pub open spec fn file_template_table() -> Seq<TemplateView> {
    seq![
        TemplateView {
            key: "file_log"@,
            title: "Generic file tailing"@,
            category: TemplateCategory::Generic,
            description: "Tail any log file with no parsing beyond tagging a sourcetype -- a starting point for a format none of the other templates cover."@,
            receiver_type: "file_log"@,
            default_id: "file_log/app"@,
            params: seq![(glob_key(), FieldKind::StringList, true, None, "File glob(s) to tail -- e.g. /var/log/myapp/*.log."@), ("sourcetype"@, FieldKind::Str, true, None, "Sourcetype tag to add to every event from this file -- e.g. myapp."@)],
            shape: ShapeView::FileTail { default_glob: "/var/log/*.log"@ },
            ops: seq![
                OpView::AddParam("attributes.sourcetype"@, "sourcetype"@, "generic"@),
            ],
        },
        TemplateView {
            key: "json_logs"@,
            title: "JSON logs"@,
            category: TemplateCategory::Generic,
            description: "One JSON object per line -- parsed and merged into attributes."@,
            receiver_type: "file_log"@,
            default_id: "file_log/json"@,
            params: seq![(glob_key(), FieldKind::StringList, true, None, "File glob(s) to tail -- e.g. /var/log/myapp/*.jsonl."@), ("sourcetype"@, FieldKind::Str, false, Some("json"@), "Sourcetype tag to add to every event from this file."@)],
            shape: ShapeView::FileTail { default_glob: "/var/log/*.jsonl"@ },
            ops: seq![
                OpView::Json,
                OpView::AddParam("attributes.sourcetype"@, "sourcetype"@, "json"@),
            ],
        },
        TemplateView {
            key: "w3c_logs"@,
            title: "W3C / IIS extended log"@,
            category: TemplateCategory::Generic,
            description: "IIS's default W3C extended log field selection."@,
            receiver_type: "file_log"@,
            default_id: "file_log/iis"@,
            params: seq![(glob_key(), FieldKind::StringList, true, Some(r"C:\inetpub\logs\LogFiles\W3SVC1\*.log"@), r"IIS log file glob(s) -- e.g. C:\inetpub\logs\LogFiles\W3SVC1\*.log."@)],
            shape: ShapeView::FileTail { default_glob: r"C:\inetpub\logs\LogFiles\W3SVC1\*.log"@ },
            ops: seq![
                OpView::Regex(r"^(?P<date>\S+) (?P<time>\S+) (?P<s_ip>\S+) (?P<method>\S+) (?P<uri_stem>\S+) (?P<uri_query>\S+) (?P<port>\S+) (?P<username>\S+) (?P<client_ip>\S+) (?P<user_agent>\S+) (?P<referer>\S+) (?P<status>\d+) (?P<substatus>\d+) (?P<win32_status>\d+) (?P<time_taken>\d+)$"@),
                OpView::Add("attributes.sourcetype"@, "iis_w3c"@),
            ],
        },
        TemplateView {
            key: "nginx"@,
            title: "nginx access log"@,
            category: TemplateCategory::Generic,
            description: "nginx's default combined log_format."@,
            receiver_type: "file_log"@,
            default_id: "file_log/nginx"@,
            params: seq![(glob_key(), FieldKind::StringList, true, Some("/var/log/nginx/access.log"@), "nginx access log file glob(s) -- e.g. /var/log/nginx/access.log."@)],
            shape: ShapeView::FileTail { default_glob: "/var/log/nginx/access.log"@ },
            ops: seq![
                OpView::Regex(r#"^(?P<remote_addr>\S+) - (?P<remote_user>\S+) \[(?P<time_local>[^\]]+)\] "(?P<request>[^"]*)" (?P<status>\d+) (?P<bytes_sent>\d+) "(?P<referer>[^"]*)" "(?P<user_agent>[^"]*)"$"#@),
                OpView::Add("attributes.sourcetype"@, "nginx_access"@),
            ],
        },
        TemplateView {
            key: "windows_dhcp"@,
            title: "Windows DHCP server log"@,
            category: TemplateCategory::Windows,
            description: "Microsoft DHCP server audit log (flat CSV file, not the Event Log) -- captures the security-relevant lease/host fields."@,
            receiver_type: "file_log"@,
            default_id: "file_log/windows_dhcp"@,
            params: seq![(glob_key(), FieldKind::StringList, true, Some(r"C:\Windows\System32\dhcp\DhcpSrvLog-*.log"@), r"DHCP server audit log glob(s) -- e.g. C:\Windows\System32\dhcp\DhcpSrvLog-*.log."@)],
            shape: ShapeView::FileTail { default_glob: r"C:\Windows\System32\dhcp\DhcpSrvLog-*.log"@ },
            ops: seq![
                OpView::Regex(r"^(?P<event_id>\d+),(?P<date>[^,]*),(?P<time>[^,]*),(?P<description>[^,]*),(?P<ip_address>[^,]*),(?P<host_name>[^,]*),(?P<mac_address>[^,]*),(?P<rest>.*)$"@),
                OpView::Add("attributes.sourcetype"@, "windows_dhcp"@),
            ],
        },
        TemplateView {
            key: "active_directory"@,
            title: "Active Directory (Windows Event Log)"@,
            category: TemplateCategory::Windows,
            description: "Domain controller Security channel events (logon/account/AD activity). Windows-only at runtime, like any windows_event_log receiver."@,
            receiver_type: "windows_event_log"@,
            default_id: "windows_event_log/active_directory"@,
            params: seq![("channel"@, FieldKind::Str, true, Some("Security"@), "Windows Event Log channel to read -- Security covers logon/account/AD events; some environments also use Directory Service."@)],
            shape: ShapeView::EventLog { default_channel: "Security"@ },
            ops: seq![
                OpView::Add("attributes.sourcetype"@, "windows_security"@),
                OpView::Add("attributes.datasource"@, "active_directory"@),
            ],
        },
        TemplateView {
            key: "mysql"@,
            title: "MySQL error log"@,
            category: TemplateCategory::Database,
            description: "MySQL 8+'s default error log format ([level] [error_code] [subsystem] message)."@,
            receiver_type: "file_log"@,
            default_id: "file_log/mysql"@,
            params: seq![(glob_key(), FieldKind::StringList, true, Some("/var/log/mysql/error.log"@), "MySQL error log glob(s) -- e.g. /var/log/mysql/error.log."@)],
            shape: ShapeView::FileTail { default_glob: "/var/log/mysql/error.log"@ },
            ops: seq![
                OpView::Regex(r"^(?P<timestamp>\S+)\s+(?P<thread_id>\d+)\s+\[(?P<level>\w+)\]\s+\[(?P<error_code>[\w-]+)\]\s+\[(?P<subsystem>[\w.]+)\]\s+(?P<message>.*)$"@),
                OpView::Add("attributes.sourcetype"@, "mysql_error"@),
            ],
        },
        TemplateView {
            key: "postgresql"@,
            title: "PostgreSQL log"@,
            category: TemplateCategory::Database,
            description: "Postgres's common log_line_prefix default (%m [%p] ). log_line_prefix is configurable, so this covers the common default."@,
            receiver_type: "file_log"@,
            default_id: "file_log/postgresql"@,
            params: seq![(glob_key(), FieldKind::StringList, true, Some("/var/log/postgresql/postgresql-*.log"@), "PostgreSQL log file glob(s) -- e.g. /var/log/postgresql/postgresql-*.log."@)],
            shape: ShapeView::FileTail { default_glob: "/var/log/postgresql/postgresql-*.log"@ },
            ops: seq![
                OpView::Regex(r"^(?P<timestamp>\d{4}-\d{2}-\d{2} \d{2}:\d{2}:\d{2}\.\d+ \w+) \[(?P<pid>\d+)\] (?P<level>\w+):\s+(?P<message>.*)$"@),
                OpView::Add("attributes.sourcetype"@, "postgresql"@),
            ],
        },
        TemplateView {
            key: "sql_server"@,
            title: "SQL Server error log"@,
            category: TemplateCategory::Database,
            description: "SQL Server's error log format (date time.ms spid message) -- works for both Linux/container and Windows installs."@,
            receiver_type: "file_log"@,
            default_id: "file_log/sql_server"@,
            params: seq![(glob_key(), FieldKind::StringList, true, Some("/var/opt/mssql/log/errorlog"@), "SQL Server error log glob(s) -- e.g. /var/opt/mssql/log/errorlog (Linux/container default) or the ERRORLOG file under Windows's MSSQL log directory."@)],
            shape: ShapeView::FileTail { default_glob: "/var/opt/mssql/log/errorlog"@ },
            ops: seq![
                OpView::Regex(r"^(?P<date>\d{4}-\d{2}-\d{2}) (?P<time>\d{2}:\d{2}:\d{2}\.\d+) (?P<spid>\S+)\s+(?P<message>.*)$"@),
                OpView::Add("attributes.sourcetype"@, "sql_server"@),
            ],
        },
        TemplateView {
            key: "kafka"@,
            title: "Kafka broker log"@,
            category: TemplateCategory::Messaging,
            description: "Kafka's default log4j pattern ([timestamp] level message (logger))."@,
            receiver_type: "file_log"@,
            default_id: "file_log/kafka"@,
            params: seq![(glob_key(), FieldKind::StringList, true, Some("/var/log/kafka/server.log"@), "Kafka broker log glob(s) -- e.g. /var/log/kafka/server.log."@)],
            shape: ShapeView::FileTail { default_glob: "/var/log/kafka/server.log"@ },
            ops: seq![
                OpView::Regex(r"^\[(?P<timestamp>[\d-]+ [\d:,]+)\]\s+(?P<level>\w+)\s+(?P<message>.*?)\s+\((?P<logger>[\w.$]+)\)$"@),
                OpView::Add("attributes.sourcetype"@, "kafka"@),
            ],
        },
        TemplateView {
            key: "hadoop"@,
            title: "Hadoop daemon log"@,
            category: TemplateCategory::Messaging,
            description: "Hadoop's default log4j pattern (timestamp level [thread] logger: message)."@,
            receiver_type: "file_log"@,
            default_id: "file_log/hadoop"@,
            params: seq![(glob_key(), FieldKind::StringList, true, Some("/var/log/hadoop/*.log"@), "Hadoop daemon log glob(s) -- e.g. /var/log/hadoop/*.log."@)],
            shape: ShapeView::FileTail { default_glob: "/var/log/hadoop/*.log"@ },
            ops: seq![
                OpView::Regex(r"^(?P<timestamp>[\d-]+ [\d:,]+)\s+(?P<level>\w+)\s+\[(?P<thread>[^\]]+)\]\s+(?P<logger>\S+):\s+(?P<message>.*)$"@),
                OpView::Add("attributes.sourcetype"@, "hadoop"@),
            ],
        }
    ]
}

/// Every template as registered, in display order.
pub open spec fn all_template_table() -> Seq<TemplateView> {
    syslog_template_table() + file_template_table()
}

/// The template registered under a key (the first, where keys repeat).
pub open spec fn registered_template(key: Seq<char>) -> TemplateView {
    crate::editor_schema::named(all_template_keys(), all_template_table(), key, all_template_table()[0])
}

/// Every template, in display order.
pub fn source_templates() -> (r: Vec<SourceTemplate>)
    ensures
        template_keys(r@) == all_template_keys(),
        template_ids(r@) == all_template_ids(),
        template_views(r@) == all_template_table(),
{
    let mut out: Vec<SourceTemplate> = Vec::new();
    assert(template_keys(out@) =~= Seq::<Seq<char>>::empty());
    assert(template_ids(out@) =~= Seq::<Seq<char>>::empty());
    assert(template_views(out@) =~= Seq::<TemplateView>::empty());
    syslog_templates(&mut out);
    file_templates(&mut out);
    assert(template_keys(out@) =~= all_template_keys());
    assert(template_ids(out@) =~= all_template_ids());
    assert(template_views(out@) =~= all_template_table());
    out
}

/// The keys of the templates, in order.
pub open spec fn template_keys(v: Seq<SourceTemplate>) -> Seq<Seq<char>> {
    Seq::new(v.len(), |i: int| v[i].key@)
}

pub open spec fn syslog_template_keys() -> Seq<Seq<char>> {
    seq!["cisco_asa"@, "cisco_catalyst"@, "cisco_meraki"@, "ubiquiti"@, "haproxy"@, "cef"@, "generic_syslog"@]
}

pub open spec fn file_template_keys() -> Seq<Seq<char>> {
    seq![
        "file_log"@, "json_logs"@, "w3c_logs"@, "nginx"@, "windows_dhcp"@, "active_directory"@, "mysql"@, "postgresql"@,
        "sql_server"@, "kafka"@, "hadoop"@,
    ]
}

/// The suggested receiver ids of the templates, in order.
pub open spec fn template_ids(v: Seq<SourceTemplate>) -> Seq<Seq<char>> {
    Seq::new(v.len(), |i: int| v[i].default_id@)
}

pub open spec fn syslog_template_ids() -> Seq<Seq<char>> {
    seq![
        "syslog/cisco_asa"@, "syslog/cisco_catalyst"@, "syslog/cisco_meraki"@, "syslog/ubiquiti"@, "syslog/haproxy"@,
        "syslog/cef"@, "syslog/generic"@,
    ]
}

pub open spec fn file_template_ids() -> Seq<Seq<char>> {
    seq![
        "file_log/app"@, "file_log/json"@, "file_log/iis"@, "file_log/nginx"@, "file_log/windows_dhcp"@,
        "windows_event_log/active_directory"@, "file_log/mysql"@, "file_log/postgresql"@, "file_log/sql_server"@,
        "file_log/kafka"@, "file_log/hadoop"@,
    ]
}

/// The suggested ids of all templates, in display order.
pub open spec fn all_template_ids() -> Seq<Seq<char>> {
    syslog_template_ids() + file_template_ids()
}

/// The keys of all templates, in display order.
pub open spec fn all_template_keys() -> Seq<Seq<char>> {
    syslog_template_keys() + file_template_keys()
}

/// The template registered under a key.
pub fn find(key: &str) -> (r: Option<SourceTemplate>)
    ensures
        r is Some <==> all_template_keys().contains(key@),
        r matches Some(t) ==> t.key@ == key@ && template_view(t) == registered_template(key@),
{
    let mut all = source_templates();
    let mut i: usize = 0;
    while i < all.len()
        invariant
            i <= all@.len(),
            template_keys(all@) == all_template_keys(),
            template_views(all@) == all_template_table(),
            forall|j: int| 0 <= j < i ==> all_template_keys()[j] != key@,
        decreases all@.len() - i,
    {
        if str_eq(all[i].key, key) {
            assert(all_template_keys()[i as int] == key@);
            proof {
                crate::editor_schema::lemma_named(all_template_keys(), all_template_table(), key@, all_template_table()[0], i as int);
                assert(template_views(all@)[i as int] == template_view(all@[i as int]));
            }
            let t = all.swap_remove(i);
            return Some(t);
        }
        i = i + 1;
    }
    assert forall|j: int| 0 <= j < all_template_keys().len() implies all_template_keys()[j] != key@ by {}
    None
}


/// A key without dots.
pub open spec fn dot_free(k: Seq<char>) -> bool {
    forall|j: int| 0 <= j < k.len() ==> k[j] != '.'
}

proof fn lemma_pair_apart(p: Seq<FieldModel>)
    requires
        p.len() == 2,
        dot_free(p[0].0),
        dot_free(p[1].0),
        p[0].0 != p[1].0,
    ensures
        crate::editor_schema::fields_apart(p),
{
    crate::text::lemma_split_whole(p[0].0, '.');
    crate::text::lemma_split_whole(p[1].0, '.');
    let a = seq![p[0].0];
    let b = seq![p[1].0];
    assert(a.take(1) =~= a);
    assert(b.take(1) =~= b);
    assert(a != b) by {
        assert(a[0] != b[0]);
    }
}

proof fn lemma_template_keys_plain()
    ensures
        dot_free("transport"@),
        dot_free("listen_address"@),
        dot_free(glob_key()),
        dot_free("sourcetype"@),
        "transport"@ != "listen_address"@,
        glob_key() != "sourcetype"@,
{
    reveal_strlit("transport");
    reveal_strlit("listen_address");
    reveal_strlit("inc\x6cude");
    reveal_strlit("sourcetype");
    assert("transport"@.len() != "listen_address"@.len());
    assert(glob_key().len() != "sourcetype"@.len());
}

/// Law: no template has two parameters where one's path is the start of
/// the other's.
pub proof fn law_template_params_apart(key: Seq<char>)
    ensures
        crate::editor_schema::fields_apart(registered_template(key).params),
{
    lemma_template_keys_plain();
    let st = syslog_template_table();
    let ft = file_template_table();
    // One case per template, so that each entry of the tables is read.
    assert forall|i: int| 0 <= i < st.len() implies crate::editor_schema::fields_apart(#[trigger] st[i].params) by {
        if i == 0 {} else if i == 1 {} else if i == 2 {} else if i == 3 {} else if i == 4 {} else if i == 5 {} else {}
        lemma_pair_apart(st[i].params);
    }
    assert forall|i: int| 0 <= i < ft.len() implies crate::editor_schema::fields_apart(#[trigger] ft[i].params) by {
        if i == 0 || i == 1 {
            if i == 0 {} else {}
            lemma_pair_apart(ft[i].params);
        } else {
            if i == 2 {} else if i == 3 {} else if i == 4 {} else if i == 5 {} else if i == 6 {} else if i == 7 {} else if i == 8 {} else if i == 9 {} else {}
            assert(ft[i].params.len() == 1);
        }
    }
    let t = all_template_table();
    assert forall|i: int| 0 <= i < t.len() implies crate::editor_schema::fields_apart(#[trigger] t[i].params) by {
        if i < st.len() {
            assert(t[i] == st[i]);
        } else {
            assert(t[i] == ft[i - st.len()]);
        }
    }
    lemma_named_all(all_template_keys(), t, key, t[0]);
}

proof fn lemma_named_all(names: Seq<Seq<char>>, vals: Seq<TemplateView>, k: Seq<char>, d: TemplateView)
    requires
        crate::editor_schema::fields_apart(d.params),
        forall|i: int| 0 <= i < vals.len() ==> crate::editor_schema::fields_apart(#[trigger] vals[i].params),
    ensures
        crate::editor_schema::fields_apart(crate::editor_schema::named(names, vals, k, d).params),
    decreases names.len(),
{
    if names.len() > 0 && vals.len() > 0 && names[0] != k {
        assert forall|i: int| 0 <= i < vals.drop_first().len() implies crate::editor_schema::fields_apart(#[trigger] vals.drop_first()[i].params) by {
            assert(vals.drop_first()[i] == vals[i + 1]);
        }
        lemma_named_all(names.drop_first(), vals.drop_first(), k, d);
    } else if names.len() > 0 && vals.len() > 0 {
        assert(crate::editor_schema::fields_apart(vals[0].params));
    }
}

} // verus!
