//! The editor's advisory field schema: which form widget each field of
//! each component type gets, and its help text. It never decides
//! validity; the collector's own validator does, at save time.

use vstd::prelude::*;
use crate::json::{JsonValue, JsonMap, JVal, JObj, obj_model, lookup, map_get};
use crate::field_ref::{path_set, path_get, set_dotted};
use crate::text::{split_on, split_string, str_eq};

verus! {

#[derive(Clone, Copy, Debug, PartialEq, Eq, Structural)]
pub enum ComponentCategory {
    Receiver,
    Exporter,
    Extension,
}

/// The option sets of enum fields.
#[derive(Clone, Copy, Debug, PartialEq, Eq, Structural)]
pub enum EnumChoice {
    SyslogProtocol,
    StartAt,
    Verbosity,
    OnError,
    LayoutType,
    Transport,
}

/// The options of each set, in display order.
pub open spec fn choice_options(c: EnumChoice) -> Seq<Seq<char>> {
    match c {
        EnumChoice::SyslogProtocol => seq!["rfc3164"@, "rfc5424"@, "none"@],
        EnumChoice::StartAt => seq!["beginning"@, "end"@],
        EnumChoice::Verbosity => seq!["basic"@, "normal"@, "detailed"@],
        EnumChoice::OnError => seq!["send"@, "send_quiet"@, "drop"@, "drop_quiet"@],
        EnumChoice::LayoutType => seq!["strptime"@, "gotime"@, "epoch"@],
        EnumChoice::Transport => seq!["udp"@, "tcp"@],
    }
}

impl EnumChoice {
    pub fn options(self) -> (r: Vec<&'static str>)
        ensures
            r@.len() == choice_options(self).len(),
            r@.len() > 0,
            forall|i: int| 0 <= i < r@.len() ==> #[trigger] r@[i]@ == choice_options(self)[i],
    {
        match self {
            EnumChoice::SyslogProtocol => vec!["rfc3164", "rfc5424", "none"],
            EnumChoice::StartAt => vec!["beginning", "end"],
            EnumChoice::Verbosity => vec!["basic", "normal", "detailed"],
            EnumChoice::OnError => vec!["send", "send_quiet", "drop", "drop_quiet"],
            EnumChoice::LayoutType => vec!["strptime", "gotime", "epoch"],
            EnumChoice::Transport => vec!["udp", "tcp"],
        }
    }
}

#[derive(Clone, Copy, Debug, PartialEq, Eq, Structural)]
pub enum FieldKind {
    Str,
    Bool,
    Duration,
    Enum(EnumChoice),
    StringList,
    /// A receiver's inline `operators:` list, edited on its own screens.
    OperatorList,
}

/// One form field: a dotted path into the component's value.
#[derive(Clone, Copy, Debug)]
pub struct FieldSpec {
    pub key: &'static str,
    pub kind: FieldKind,
    pub required: bool,
    pub default: Option<&'static str>,
    /// A one-line explanation shown while editing the field.
    pub help: &'static str,
}

/// What a form is built from for one field: its key, kind, whether it is
/// required, and its default.
pub type FieldModel = (Seq<char>, FieldKind, bool, Option<Seq<char>>, Seq<char>);

pub open spec fn field_model(fs: FieldSpec) -> FieldModel {
    (fs.key@, fs.kind, fs.required, match fs.default {
        Some(d) => Some(d@),
        None => None,
    }, fs.help@)
}

pub open spec fn field_models(v: Seq<FieldSpec>) -> Seq<FieldModel> {
    Seq::new(v.len(), |i: int| field_model(v[i]))
}

/// The fields of `syslog`: key, kind, whether required, default.
pub open spec fn syslog_field_models() -> Seq<FieldModel> {
    seq![
        ("protocol"@, FieldKind::Enum(EnumChoice::SyslogProtocol), true, Some("rfc3164"@), r#"Which syslog message format to expect. "none" keeps the message body as-is (still decodes a leading <34>-style PRI header if present)."#@),
        ("udp.listen_address"@, FieldKind::Str, false, None, r#"Set this to listen over UDP, e.g. 0.0.0.0:514 -- leave blank if using tcp.listen_address instead. 0.0.0.0 means "every network interface on this machine"."#@),
        ("tcp.listen_address"@, FieldKind::Str, false, None, "Set this to listen over TCP, e.g. 0.0.0.0:601 -- leave blank if using udp.listen_address instead."@),
        ("enable_octet_counting"@, FieldKind::Bool, false, Some("false"@), "TCP only: enable RFC 6587 octet-counting framing (each message prefixed with its byte length). Most TCP senders don't need this."@),
        ("operators"@, FieldKind::OperatorList, false, None, "Inline parsing chain run on every event from this receiver, in order -- e.g. extract fields with a regex, then map severity, then add a sourcetype. Press Enter to manage the list."@)
    ]
}

/// The fields of `file_log`: key, kind, whether required, default.
pub open spec fn file_log_field_models() -> Seq<FieldModel> {
    seq![
        ("inc\x6cude"@, FieldKind::StringList, true, None, "Which files to watch, as glob patterns -- e.g. /var/log/myapp/*.log. Separate multiple patterns with commas."@),
        ("exclude"@, FieldKind::StringList, false, None, "Optional: file patterns to skip even if they match inc\x6cude -- e.g. /var/log/myapp/*.gz."@),
        ("start_at"@, FieldKind::Enum(EnumChoice::StartAt), false, Some("end"@), "Where to start reading a file the first time it's seen: end (only new lines from now on) or beginning (read the whole existing file too)."@),
        ("poll_interval"@, FieldKind::Duration, false, Some("200ms"@), "How often to check the file(s) for new lines -- e.g. 200ms, 2s."@),
        ("storage"@, FieldKind::Str, false, None, "Optional: id of a file_storage extension to persist read position across restarts -- e.g. file_storage. Leave blank to track position in memory only (lost on restart)."@),
        ("operators"@, FieldKind::OperatorList, false, None, "Inline parsing chain run on every event from this receiver, in order -- e.g. extract fields with a regex, then map severity, then add a sourcetype. Press Enter to manage the list."@)
    ]
}

/// The fields of `windows_event_log`: key, kind, whether required, default.
pub open spec fn windows_event_log_field_models() -> Seq<FieldModel> {
    seq![
        ("channel"@, FieldKind::Str, true, None, "Which Windows Event Log to read -- e.g. Security, System, Application."@),
        ("query"@, FieldKind::Str, false, Some("*"@), "XPath filter for which events to inc\x6cude. * means all events on this channel."@),
        ("start_at"@, FieldKind::Enum(EnumChoice::StartAt), false, Some("end"@), "Where to start the first time: end (only new events from now on) or beginning (replay everything currently in the log)."@),
        ("storage"@, FieldKind::Str, false, None, "Optional: id of a file_storage extension to persist read position across restarts -- e.g. file_storage. Leave blank to track position in memory only (lost on restart)."@),
        ("operators"@, FieldKind::OperatorList, false, None, "Inline parsing chain run on every event from this receiver, in order -- e.g. extract fields with a regex, then map severity, then add a sourcetype. Press Enter to manage the list."@)
    ]
}

/// The fields of `splunk_hec`: key, kind, whether required, default.
pub open spec fn splunk_hec_field_models() -> Seq<FieldModel> {
    seq![
        ("endpoint"@, FieldKind::Str, true, Some("https://example.invalid:8088/services/collector/event"@), "The full HEC ingest URL -- e.g. https://xdr.us1.sentinelone.net/services/collector/event."@),
        ("token"@, FieldKind::Str, true, None, "The HEC auth token for that endpoint. Use ${SOME_VAR} to read it from an environment variable instead of writing the real secret here."@),
        ("source"@, FieldKind::Str, false, None, r#"Optional Splunk "source" value. Leave blank unless otel_attrs_to_hec_metadata.source below is also blank -- see its help text."#@),
        ("sourcetype"@, FieldKind::Str, false, None, r#"Optional Splunk "sourcetype" value. Leave blank unless otel_attrs_to_hec_metadata.sourcetype below is also blank -- see its help text."#@),
        ("index"@, FieldKind::Str, false, None, "Optional: which Splunk/DataPipeline index to send events into."@),
        ("otel_attrs_to_hec_metadata.source"@, FieldKind::Str, false, Some(""@), "Leave blank (the default here) to keep 'source' out of the top-level HEC envelope -- any attribute named 'source' set by this receiver's operators then falls into the event's nested fields{} object instead, which is what SentinelOne DataPipeline expects."@),
        ("otel_attrs_to_hec_metadata.sourcetype"@, FieldKind::Str, false, Some(""@), "Leave blank (the default here) for the same reason as otel_attrs_to_hec_metadata.source -- keeps 'sourcetype' in fields{} rather than the top-level envelope."@),
        ("otel_attrs_to_hec_metadata.index"@, FieldKind::Str, false, Some(""@), "Leave blank (the default here) for the same reason as otel_attrs_to_hec_metadata.source -- keeps 'index' in fields{} rather than the top-level envelope."@),
        ("sending_queue.enabled"@, FieldKind::Bool, false, Some("true"@), "Buffer events in memory and retry sends in the background rather than blocking the pipeline on every request."@),
        ("retry_on_failure.enabled"@, FieldKind::Bool, false, Some("true"@), "Retry with backoff when a send fails, rather than dropping the batch immediately."@)
    ]
}

/// The fields of `debug`: key, kind, whether required, default.
pub open spec fn debug_field_models() -> Seq<FieldModel> {
    seq![
        ("verbosity"@, FieldKind::Enum(EnumChoice::Verbosity), false, Some("normal"@), "How much detail to print per event to the terminal -- detailed dumps every field, useful for testing a pipeline before wiring up a real destination."@)
    ]
}

/// The fields of `dataset`: key, kind, whether required, default.
pub open spec fn dataset_field_models() -> Seq<FieldModel> {
    seq![
        ("dataset_url"@, FieldKind::Str, true, None, "The Singularity Data Lake ingest URL for your account's region."@),
        ("api_key"@, FieldKind::Str, true, None, "The Log Write API key. Use ${SOME_VAR} to read it from an environment variable instead of writing the real secret here."@),
        ("server_host.server_host"@, FieldKind::Str, false, None, "Fallback serverHost for events that carry no serverHost attribute of their own (event, then resource serverHost/host.name are checked first). Required when server_host.use_hostname is false."@),
        ("server_host.use_hostname"@, FieldKind::Bool, false, Some("true"@), "Use this collector's own OS hostname as the last serverHost fallback. If false, server_host.server_host must be set or the exporter fails at startup."@)
    ]
}

/// The fields of `logbuffer`: key, kind, whether required, default.
pub open spec fn logbuffer_field_models() -> Seq<FieldModel> {
    seq![
        ("endpoint"@, FieldKind::Str, false, None, "Loopback address the log viewer's buffer is served from; keep it bound to 127.0.0.1, since /logs is not redacted."@)
    ]
}

/// The fields of `file_storage`: key, kind, whether required, default.
pub open spec fn file_storage_field_models() -> Seq<FieldModel> {
    seq![
        ("directory"@, FieldKind::Str, true, Some("/var/lib/sgcia/otelcol-storage"@), "Directory where receivers using this extension (via their storage field) persist read position across restarts."@),
        ("create_directory"@, FieldKind::Bool, false, Some("true"@), "Create the directory above automatically if it doesn't exist yet."@)
    ]
}

/// The fields of `health_check`: key, kind, whether required, default.
pub open spec fn health_check_field_models() -> Seq<FieldModel> {
    seq![
        ("endpoint"@, FieldKind::Str, false, Some("127.0.0.1:13133"@), "Address this extension's health-check HTTP endpoint listens on."@)
    ]
}

/// The fields of `statuscfg`: key, kind, whether required, default.
pub open spec fn statuscfg_field_models() -> Seq<FieldModel> {
    seq![
        ("endpoint"@, FieldKind::Str, false, Some("127.0.0.1:7801"@), "Address the dashboard/editor's /status + /config HTTP endpoint listens on -- 127.0.0.1:7801 matches sgcia dashboard's own default, so it works with no flags."@),
        ("config_path"@, FieldKind::Str, true, None, "The same file passed to this collector's own --config flag at startup -- this extension re-reads it to serve /config, since there's no API to read back the running config."@),
        ("metrics_url"@, FieldKind::Str, false, Some("http://localhost:8888/metrics"@), "Where this collector's own internal Prometheus telemetry is exposed (service.telemetry.metrics in this same file) -- scraped on every /status request."@)
    ]
}

/// The fields of `regex_parser`: key, kind, whether required, default.
pub open spec fn regex_parser_field_models() -> Seq<FieldModel> {
    seq![
        ("regex"@, FieldKind::Str, true, None, r#"Go regular expression, with (?P<name>...) capture groups for each field to extract -- e.g. ^%ASA-(?P<severity>\d)-(?P<msgid>\d+):\s*(?P<message>.*)$"#@),
        ("parse_from"@, FieldKind::Str, false, Some("body"@), "Which field to read the text from."@),
        ("parse_to"@, FieldKind::Str, false, Some("attributes"@), "Where to put the extracted fields."@),
        ("on_error"@, FieldKind::Enum(EnumChoice::OnError), false, Some("send"@), "What to do if this operator fails on an event: send (forward the event unparsed, log the error) or drop (discard it). The _quiet variants only log at debug level."@)
    ]
}

/// The fields of `json_parser`: key, kind, whether required, default.
pub open spec fn json_parser_field_models() -> Seq<FieldModel> {
    seq![
        ("parse_from"@, FieldKind::Str, false, Some("body"@), "Which field holds the JSON text to parse."@),
        ("parse_to"@, FieldKind::Str, false, Some("attributes"@), "Where to put the parsed result (merges keys in if attributes, replaces if body)."@),
        ("on_error"@, FieldKind::Enum(EnumChoice::OnError), false, Some("send"@), "What to do if this operator fails on an event: send (forward the event unparsed, log the error) or drop (discard it). The _quiet variants only log at debug level."@)
    ]
}

/// The fields of `key_value_parser`: key, kind, whether required, default.
pub open spec fn key_value_parser_field_models() -> Seq<FieldModel> {
    seq![
        ("parse_from"@, FieldKind::Str, false, Some("body"@), "Which field holds the key=value text."@),
        ("parse_to"@, FieldKind::Str, false, Some("attributes"@), "Where to put the extracted fields."@),
        ("delimiter"@, FieldKind::Str, false, Some("="@), "Character that separates a key from its value."@),
        ("pair_delimiter"@, FieldKind::Str, false, None, "Character that separates one key=value pair from the next. Leave blank for whitespace."@),
        ("on_error"@, FieldKind::Enum(EnumChoice::OnError), false, Some("send"@), "What to do if this operator fails on an event: send (forward the event unparsed, log the error) or drop (discard it). The _quiet variants only log at debug level."@)
    ]
}

/// The fields of `severity_parser`: key, kind, whether required, default.
pub open spec fn severity_parser_field_models() -> Seq<FieldModel> {
    seq![
        ("parse_from"@, FieldKind::Str, true, None, "Which field holds the severity value -- e.g. attributes.severity."@),
        ("preset"@, FieldKind::Str, false, Some("default"@), r#"Which numbering scheme to interpret the value with. "default" follows the OTel/syslog severity convention."#@),
        ("on_error"@, FieldKind::Enum(EnumChoice::OnError), false, Some("send"@), "What to do if this operator fails on an event: send (forward the event unparsed, log the error) or drop (discard it). The _quiet variants only log at debug level."@)
    ]
}

/// The fields of `time_parser`: key, kind, whether required, default.
pub open spec fn time_parser_field_models() -> Seq<FieldModel> {
    seq![
        ("parse_from"@, FieldKind::Str, true, None, "Which field holds the timestamp text -- e.g. attributes.ts."@),
        ("layout_type"@, FieldKind::Enum(EnumChoice::LayoutType), false, Some("strptime"@), "How to interpret the layout field below: strptime (%Y-%m-%d style), gotime (Go's reference-time style), or epoch (numeric seconds/ms since 1970)."@),
        ("layout"@, FieldKind::Str, true, None, "The timestamp format, in the style selected by layout_type -- e.g. %Y-%m-%dT%H:%M:%SZ for strptime."@),
        ("on_error"@, FieldKind::Enum(EnumChoice::OnError), false, Some("send"@), "What to do if this operator fails on an event: send (forward the event unparsed, log the error) or drop (discard it). The _quiet variants only log at debug level."@)
    ]
}

/// The fields of `add`: key, kind, whether required, default.
pub open spec fn add_field_models() -> Seq<FieldModel> {
    seq![
        ("field"@, FieldKind::Str, true, None, "Which field to set -- e.g. attributes.datasource."@),
        ("value"@, FieldKind::Str, true, None, "The fixed value to set it to -- e.g. cisco_asa."@)
    ]
}

/// The fields of `remove`: key, kind, whether required, default.
pub open spec fn remove_field_models() -> Seq<FieldModel> {
    seq![
        ("field"@, FieldKind::Str, true, None, "Which field to delete -- e.g. attributes.secret."@)
    ]
}

/// The fields of `from_to`: key, kind, whether required, default.
pub open spec fn from_to_field_models() -> Seq<FieldModel> {
    seq![
        ("from"@, FieldKind::Str, true, None, "Field to read the value from -- e.g. attributes.message."@),
        ("to"@, FieldKind::Str, true, None, "Field to write the value to -- e.g. body."@)
    ]
}

pub struct ComponentTypeSpec {
    pub name: &'static str,
    pub description: &'static str,
    pub fields: Vec<FieldSpec>,
}

/// A field specification.
pub fn f(key: &'static str, kind: FieldKind, required: bool, default: Option<&'static str>, help: &'static str) -> (r: FieldSpec)
    ensures
        r.key == key,
        r.kind == kind,
        r.required == required,
        r.default == default,
        r.help == help,
{
    FieldSpec { key, kind, required, default, help }
}

} // verus!

verus! {

fn operators_field() -> (r: FieldSpec)
    ensures
        r.key@ == "operators"@,
        r.kind == FieldKind::OperatorList,
        !r.required,
        r.default is None,
        r.help@ == "Inline parsing chain run on every event from this receiver, in order -- e.g. extract fields with a regex, then map severity, then add a sourcetype. Press Enter to manage the list."@,
{
    f("operators", FieldKind::OperatorList, false, None, "Inline parsing chain run on every event from this receiver, in order -- e.g. extract fields with a regex, then map severity, then add a sourcetype. Press Enter to manage the list.")
}

fn storage_field() -> (r: FieldSpec)
    ensures
        r.key@ == "storage"@,
        r.kind == FieldKind::Str,
        !r.required,
        r.default is None,
        r.help@ == "Optional: id of a file_storage extension to persist read position across restarts -- e.g. file_storage. Leave blank to track position in memory only (lost on restart)."@,
{
    f("storage", FieldKind::Str, false, None, "Optional: id of a file_storage extension to persist read position across restarts -- e.g. file_storage. Leave blank to track position in memory only (lost on restart).")
}

pub fn syslog_fields() -> (r: Vec<FieldSpec>)
    ensures
        r@.len() == 5,
        field_models(r@) == syslog_field_models(),
{
    vec![
        f("protocol", FieldKind::Enum(EnumChoice::SyslogProtocol), true, Some("rfc3164"), "Which syslog message format to expect. \"none\" keeps the message body as-is (still decodes a leading <34>-style PRI header if present)."),
        f("udp.listen_address", FieldKind::Str, false, None, "Set this to listen over UDP, e.g. 0.0.0.0:514 -- leave blank if using tcp.listen_address instead. 0.0.0.0 means \"every network interface on this machine\"."),
        f("tcp.listen_address", FieldKind::Str, false, None, "Set this to listen over TCP, e.g. 0.0.0.0:601 -- leave blank if using udp.listen_address instead."),
        f("enable_octet_counting", FieldKind::Bool, false, Some("false"), "TCP only: enable RFC 6587 octet-counting framing (each message prefixed with its byte length). Most TCP senders don't need this."),
        operators_field(),
    ]
}

pub fn file_log_fields() -> (r: Vec<FieldSpec>)
    ensures
        r@.len() == 6,
        field_models(r@) == file_log_field_models(),
{
    vec![
        f("inc\x6cude", FieldKind::StringList, true, None, "Which files to watch, as glob patterns -- e.g. /var/log/myapp/*.log. Separate multiple patterns with commas."),
        f("exclude", FieldKind::StringList, false, None, "Optional: file patterns to skip even if they match inc\x6cude -- e.g. /var/log/myapp/*.gz."),
        f("start_at", FieldKind::Enum(EnumChoice::StartAt), false, Some("end"), "Where to start reading a file the first time it's seen: end (only new lines from now on) or beginning (read the whole existing file too)."),
        f("poll_interval", FieldKind::Duration, false, Some("200ms"), "How often to check the file(s) for new lines -- e.g. 200ms, 2s."),
        storage_field(),
        operators_field(),
    ]
}

pub fn windows_event_log_fields() -> (r: Vec<FieldSpec>)
    ensures
        r@.len() == 5,
        field_models(r@) == windows_event_log_field_models(),
{
    vec![
        f("channel", FieldKind::Str, true, None, "Which Windows Event Log to read -- e.g. Security, System, Application."),
        f("query", FieldKind::Str, false, Some("*"), "XPath filter for which events to inc\x6cude. * means all events on this channel."),
        f("start_at", FieldKind::Enum(EnumChoice::StartAt), false, Some("end"), "Where to start the first time: end (only new events from now on) or beginning (replay everything currently in the log)."),
        storage_field(),
        operators_field(),
    ]
}

pub fn splunk_hec_fields() -> (r: Vec<FieldSpec>)
    ensures
        r@.len() == 10,
        field_models(r@) == splunk_hec_field_models(),
{
    vec![
        f("endpoint", FieldKind::Str, true, Some("https://example.invalid:8088/services/collector/event"), "The full HEC ingest URL -- e.g. https://xdr.us1.sentinelone.net/services/collector/event."),
        f("token", FieldKind::Str, true, None, "The HEC auth token for that endpoint. Use ${SOME_VAR} to read it from an environment variable instead of writing the real secret here."),
        f("source", FieldKind::Str, false, None, "Optional Splunk \"source\" value. Leave blank unless otel_attrs_to_hec_metadata.source below is also blank -- see its help text."),
        f("sourcetype", FieldKind::Str, false, None, "Optional Splunk \"sourcetype\" value. Leave blank unless otel_attrs_to_hec_metadata.sourcetype below is also blank -- see its help text."),
        f("index", FieldKind::Str, false, None, "Optional: which Splunk/DataPipeline index to send events into."),
        f("otel_attrs_to_hec_metadata.source", FieldKind::Str, false, Some(""), "Leave blank (the default here) to keep 'source' out of the top-level HEC envelope -- any attribute named 'source' set by this receiver's operators then falls into the event's nested fields{} object instead, which is what SentinelOne DataPipeline expects."),
        f("otel_attrs_to_hec_metadata.sourcetype", FieldKind::Str, false, Some(""), "Leave blank (the default here) for the same reason as otel_attrs_to_hec_metadata.source -- keeps 'sourcetype' in fields{} rather than the top-level envelope."),
        f("otel_attrs_to_hec_metadata.index", FieldKind::Str, false, Some(""), "Leave blank (the default here) for the same reason as otel_attrs_to_hec_metadata.source -- keeps 'index' in fields{} rather than the top-level envelope."),
        f("sending_queue.enabled", FieldKind::Bool, false, Some("true"), "Buffer events in memory and retry sends in the background rather than blocking the pipeline on every request."),
        f("retry_on_failure.enabled", FieldKind::Bool, false, Some("true"), "Retry with backoff when a send fails, rather than dropping the batch immediately."),
    ]
}

pub fn debug_fields() -> (r: Vec<FieldSpec>)
    ensures
        r@.len() == 1,
        field_models(r@) == debug_field_models(),
{
    vec![
        f("verbosity", FieldKind::Enum(EnumChoice::Verbosity), false, Some("normal"), "How much detail to print per event to the terminal -- detailed dumps every field, useful for testing a pipeline before wiring up a real destination."),
    ]
}

pub fn dataset_fields() -> (r: Vec<FieldSpec>)
    ensures
        r@.len() == 4,
        field_models(r@) == dataset_field_models(),
{
    vec![
        f("dataset_url", FieldKind::Str, true, None, "The Singularity Data Lake ingest URL for your account's region."),
        f("api_key", FieldKind::Str, true, None, "The Log Write API key. Use ${SOME_VAR} to read it from an environment variable instead of writing the real secret here."),
        f("server_host.server_host", FieldKind::Str, false, None, "Fallback serverHost for events that carry no serverHost attribute of their own (event, then resource serverHost/host.name are checked first). Required when server_host.use_hostname is false."),
        f("server_host.use_hostname", FieldKind::Bool, false, Some("true"), "Use this collector's own OS hostname as the last serverHost fallback. If false, server_host.server_host must be set or the exporter fails at startup."),
    ]
}

pub fn logbuffer_fields() -> (r: Vec<FieldSpec>)
    ensures
        r@.len() == 1,
        field_models(r@) == logbuffer_field_models(),
{
    vec![
        f("endpoint", FieldKind::Str, false, None, "Loopback address the log viewer's buffer is served from; keep it bound to 127.0.0.1, since /logs is not redacted."),
    ]
}

pub fn file_storage_fields() -> (r: Vec<FieldSpec>)
    ensures
        r@.len() == 2,
        field_models(r@) == file_storage_field_models(),
{
    vec![
        f("directory", FieldKind::Str, true, Some("/var/lib/sgcia/otelcol-storage"), "Directory where receivers using this extension (via their storage field) persist read position across restarts."),
        f("create_directory", FieldKind::Bool, false, Some("true"), "Create the directory above automatically if it doesn't exist yet."),
    ]
}

pub fn health_check_fields() -> (r: Vec<FieldSpec>)
    ensures
        r@.len() == 1,
        field_models(r@) == health_check_field_models(),
{
    vec![
        f("endpoint", FieldKind::Str, false, Some("127.0.0.1:13133"), "Address this extension's health-check HTTP endpoint listens on."),
    ]
}

pub fn statuscfg_fields() -> (r: Vec<FieldSpec>)
    ensures
        r@.len() == 3,
        field_models(r@) == statuscfg_field_models(),
{
    vec![
        f("endpoint", FieldKind::Str, false, Some("127.0.0.1:7801"), "Address the dashboard/editor's /status + /config HTTP endpoint listens on -- 127.0.0.1:7801 matches sgcia dashboard's own default, so it works with no flags."),
        f("config_path", FieldKind::Str, true, None, "The same file passed to this collector's own --config flag at startup -- this extension re-reads it to serve /config, since there's no API to read back the running config."),
        f("metrics_url", FieldKind::Str, false, Some("http://localhost:8888/metrics"), "Where this collector's own internal Prometheus telemetry is exposed (service.telemetry.metrics in this same file) -- scraped on every /status request."),
    ]
}

fn on_error_field() -> (r: FieldSpec)
    ensures
        field_model(r) == ("on_error"@, FieldKind::Enum(EnumChoice::OnError), false, Some("send"@), "What to do if this operator fails on an event: send (forward the event unparsed, log the error) or drop (discard it). The _quiet variants only log at debug level."@),
{
    f("on_error", FieldKind::Enum(EnumChoice::OnError), false, Some("send"), "What to do if this operator fails on an event: send (forward the event unparsed, log the error) or drop (discard it). The _quiet variants only log at debug level.")
}

pub fn regex_parser_fields() -> (r: Vec<FieldSpec>)
    ensures
        r@.len() == 4,
        field_models(r@) == regex_parser_field_models(),
{
    vec![
        f("regex", FieldKind::Str, true, None, r#"Go regular expression, with (?P<name>...) capture groups for each field to extract -- e.g. ^%ASA-(?P<severity>\d)-(?P<msgid>\d+):\s*(?P<message>.*)$"#),
        f("parse_from", FieldKind::Str, false, Some("body"), "Which field to read the text from."),
        f("parse_to", FieldKind::Str, false, Some("attributes"), "Where to put the extracted fields."),
        on_error_field(),
    ]
}

pub fn json_parser_fields() -> (r: Vec<FieldSpec>)
    ensures
        r@.len() == 3,
        field_models(r@) == json_parser_field_models(),
{
    vec![
        f("parse_from", FieldKind::Str, false, Some("body"), "Which field holds the JSON text to parse."),
        f("parse_to", FieldKind::Str, false, Some("attributes"), "Where to put the parsed result (merges keys in if attributes, replaces if body)."),
        on_error_field(),
    ]
}

pub fn key_value_parser_fields() -> (r: Vec<FieldSpec>)
    ensures
        r@.len() == 5,
        field_models(r@) == key_value_parser_field_models(),
{
    vec![
        f("parse_from", FieldKind::Str, false, Some("body"), "Which field holds the key=value text."),
        f("parse_to", FieldKind::Str, false, Some("attributes"), "Where to put the extracted fields."),
        f("delimiter", FieldKind::Str, false, Some("="), "Character that separates a key from its value."),
        f("pair_delimiter", FieldKind::Str, false, None, "Character that separates one key=value pair from the next. Leave blank for whitespace."),
        on_error_field(),
    ]
}

pub fn severity_parser_fields() -> (r: Vec<FieldSpec>)
    ensures
        r@.len() == 3,
        field_models(r@) == severity_parser_field_models(),
{
    vec![
        f("parse_from", FieldKind::Str, true, None, "Which field holds the severity value -- e.g. attributes.severity."),
        f("preset", FieldKind::Str, false, Some("default"), "Which numbering scheme to interpret the value with. \"default\" follows the OTel/syslog severity convention."),
        on_error_field(),
    ]
}

pub fn time_parser_fields() -> (r: Vec<FieldSpec>)
    ensures
        r@.len() == 4,
        field_models(r@) == time_parser_field_models(),
{
    vec![
        f("parse_from", FieldKind::Str, true, None, "Which field holds the timestamp text -- e.g. attributes.ts."),
        f("layout_type", FieldKind::Enum(EnumChoice::LayoutType), false, Some("strptime"), "How to interpret the layout field below: strptime (%Y-%m-%d style), gotime (Go's reference-time style), or epoch (numeric seconds/ms since 1970)."),
        f("layout", FieldKind::Str, true, None, "The timestamp format, in the style selected by layout_type -- e.g. %Y-%m-%dT%H:%M:%SZ for strptime."),
        on_error_field(),
    ]
}

pub fn add_fields() -> (r: Vec<FieldSpec>)
    ensures
        r@.len() == 2,
        field_models(r@) == add_field_models(),
{
    vec![
        f("field", FieldKind::Str, true, None, "Which field to set -- e.g. attributes.datasource."),
        f("value", FieldKind::Str, true, None, "The fixed value to set it to -- e.g. cisco_asa."),
    ]
}

pub fn remove_fields() -> (r: Vec<FieldSpec>)
    ensures
        r@.len() == 1,
        field_models(r@) == remove_field_models(),
{
    vec![
        f("field", FieldKind::Str, true, None, "Which field to delete -- e.g. attributes.secret."),
    ]
}

pub fn from_to_fields() -> (r: Vec<FieldSpec>)
    ensures
        r@.len() == 2,
        field_models(r@) == from_to_field_models(),
{
    vec![
        f("from", FieldKind::Str, true, None, "Field to read the value from -- e.g. attributes.message."),
        f("to", FieldKind::Str, true, None, "Field to write the value to -- e.g. body."),
    ]
}

pub fn receiver_types() -> (r: Vec<ComponentTypeSpec>)
    ensures
        field_table(r@) == category_type_fields(ComponentCategory::Receiver),
        description_table(r@) == category_type_descriptions(ComponentCategory::Receiver),
        r@.len() == 3,
        r@[0].name@ == "syslog"@,
        r@[1].name@ == "file_log"@,
        r@[2].name@ == "windows_event_log"@,
{
    let r = vec![
        ComponentTypeSpec { name: "syslog", description: "Listens for syslog messages over the network (UDP and/or TCP).", fields: syslog_fields() },
        ComponentTypeSpec { name: "file_log", description: "Tails one or more log files from disk, following new lines as they're written (like `tail -f`).", fields: file_log_fields() },
        ComponentTypeSpec { name: "windows_event_log", description: "Reads events from a Windows Event Log channel (Windows only).", fields: windows_event_log_fields() },
    ];
    r
}

pub fn exporter_types() -> (r: Vec<ComponentTypeSpec>)
    ensures
        field_table(r@) == category_type_fields(ComponentCategory::Exporter),
        description_table(r@) == category_type_descriptions(ComponentCategory::Exporter),
        r@.len() == 4,
        r@[0].name@ == "splunk_hec"@,
        r@[1].name@ == "dataset"@,
        r@[2].name@ == "debug"@,
        r@[3].name@ == "logbuffer"@,
{
    let r = vec![
        ComponentTypeSpec { name: "splunk_hec", description: "Sends collected logs to a Splunk-compatible HEC endpoint (including SentinelOne DataPipeline).", fields: splunk_hec_fields() },
        ComponentTypeSpec { name: "dataset", description: "Sends collected logs to SentinelOne Singularity Data Lake (formerly Scalyr/DataSet). Alpha stability upstream.", fields: dataset_fields() },
        ComponentTypeSpec { name: "debug", description: "Prints every event to the terminal instead of sending it anywhere -- useful for testing a pipeline before wiring up a real destination.", fields: debug_fields() },
        ComponentTypeSpec { name: "logbuffer", description: "Feeds the web UI's log viewer -- not a real destination, loopback-only, safe to add to every logs pipeline.", fields: logbuffer_fields() },
    ];
    r
}

pub fn extension_types() -> (r: Vec<ComponentTypeSpec>)
    ensures
        field_table(r@) == category_type_fields(ComponentCategory::Extension),
        description_table(r@) == category_type_descriptions(ComponentCategory::Extension),
        r@.len() == 3,
        r@[0].name@ == "file_storage"@,
        r@[1].name@ == "health_check"@,
        r@[2].name@ == "statuscfg"@,
{
    let r = vec![
        ComponentTypeSpec { name: "file_storage", description: "Persists receiver read-position/bookmarks to disk so a restart resumes correctly. Referenced by a receiver's storage field.", fields: file_storage_fields() },
        ComponentTypeSpec { name: "health_check", description: "Serves a simple HTTP health-check endpoint for this collector process.", fields: health_check_fields() },
        ComponentTypeSpec { name: "statuscfg", description: "Serves /status and /config for sgcia dashboard/edit to poll -- the local extension that replaces the old built-in status API.", fields: statuscfg_fields() },
    ];
    r
}

pub fn operator_types() -> (r: Vec<ComponentTypeSpec>)
    ensures
        field_table(r@) == operator_type_fields(),
        description_table(r@) == operator_type_descriptions(),
        r@.len() == 9,
        r@[0].name@ == "regex_parser"@,
        r@[1].name@ == "json_parser"@,
        r@[2].name@ == "key_value_parser"@,
        r@[3].name@ == "severity_parser"@,
        r@[4].name@ == "time_parser"@,
        r@[5].name@ == "add"@,
        r@[6].name@ == "remove"@,
        r@[7].name@ == "copy"@,
        r@[8].name@ == "move"@,
{
    let r = vec![
        ComponentTypeSpec { name: "regex_parser", description: "Extracts named fields out of the log text using a regular expression.", fields: regex_parser_fields() },
        ComponentTypeSpec { name: "json_parser", description: "Parses a field's text as JSON and merges the result in.", fields: json_parser_fields() },
        ComponentTypeSpec { name: "key_value_parser", description: "Parses key=value pairs out of a field's text -- e.g. user=neo action=login.", fields: key_value_parser_fields() },
        ComponentTypeSpec { name: "severity_parser", description: "Sets an event's severity by interpreting a value already in the event.", fields: severity_parser_fields() },
        ComponentTypeSpec { name: "time_parser", description: "Sets an event's official timestamp by parsing a value already in the event.", fields: time_parser_fields() },
        ComponentTypeSpec { name: "add", description: "Sets a field to a fixed value on every event.", fields: add_fields() },
        ComponentTypeSpec { name: "remove", description: "Deletes a field from every event.", fields: remove_fields() },
        ComponentTypeSpec { name: "copy", description: "Copies a field's value to a second location, keeping the original too.", fields: from_to_fields() },
        ComponentTypeSpec { name: "move", description: "Moves (or renames) a field's value to a new location, removing it from the original.", fields: from_to_fields() },
    ];
    r
}
} // verus!

verus! {

/// The type names registered for a category, in display order.
pub open spec fn category_type_names(c: ComponentCategory) -> Seq<Seq<char>> {
    match c {
        ComponentCategory::Receiver => seq!["syslog"@, "file_log"@, "windows_event_log"@],
        ComponentCategory::Exporter => seq!["splunk_hec"@, "dataset"@, "debug"@, "logbuffer"@],
        ComponentCategory::Extension => seq!["file_storage"@, "health_check"@, "statuscfg"@],
    }
}

/// The operator type names, in display order.
pub open spec fn operator_type_names() -> Seq<Seq<char>> {
    seq![
        "regex_parser"@, "json_parser"@, "key_value_parser"@, "severity_parser"@, "time_parser"@, "add"@, "remove"@,
        "copy"@, "move"@,
    ]
}

/// The fields of each type of a category, parallel to its names.
pub open spec fn category_type_fields(c: ComponentCategory) -> Seq<Seq<FieldModel>> {
    match c {
        ComponentCategory::Receiver => seq![syslog_field_models(), file_log_field_models(), windows_event_log_field_models()],
        ComponentCategory::Exporter => seq![
            splunk_hec_field_models(), dataset_field_models(), debug_field_models(), logbuffer_field_models(),
        ],
        ComponentCategory::Extension => seq![file_storage_field_models(), health_check_field_models(), statuscfg_field_models()],
    }
}

/// The fields of each operator type, parallel to its names.
pub open spec fn operator_type_fields() -> Seq<Seq<FieldModel>> {
    seq![
        regex_parser_field_models(), json_parser_field_models(), key_value_parser_field_models(),
        severity_parser_field_models(), time_parser_field_models(), add_field_models(), remove_field_models(),
        from_to_field_models(), from_to_field_models(),
    ]
}

/// The entry beside the first occurrence of a name, or `default`.
pub open spec fn named<T>(names: Seq<Seq<char>>, vals: Seq<T>, k: Seq<char>, default: T) -> T
    decreases names.len(),
{
    if names.len() == 0 || vals.len() == 0 {
        default
    } else if names[0] == k {
        vals[0]
    } else {
        named(names.drop_first(), vals.drop_first(), k, default)
    }
}

/// The fields of a category's type with this name.
pub open spec fn type_fields(c: ComponentCategory, k: Seq<char>) -> Seq<FieldModel> {
    named(category_type_names(c), category_type_fields(c), k, Seq::empty())
}

/// The fields of the operator type with this name.
pub open spec fn operator_fields(k: Seq<char>) -> Seq<FieldModel> {
    named(operator_type_names(), operator_type_fields(), k, Seq::empty())
}

/// The descriptions of the types of a category, parallel to its names.
pub open spec fn category_type_descriptions(c: ComponentCategory) -> Seq<Seq<char>> {
    match c {
        ComponentCategory::Receiver => seq![
            "Listens for syslog messages over the network (UDP and/or TCP)."@,
            "Tails one or more log files from disk, following new lines as they're written (like `tail -f`)."@,
            "Reads events from a Windows Event Log channel (Windows only)."@,
        ],
        ComponentCategory::Exporter => seq![
            "Sends collected logs to a Splunk-compatible HEC endpoint (including SentinelOne DataPipeline)."@,
            "Sends collected logs to SentinelOne Singularity Data Lake (formerly Scalyr/DataSet). Alpha stability upstream."@,
            "Prints every event to the terminal instead of sending it anywhere -- useful for testing a pipeline before wiring up a real destination."@,
            "Feeds the web UI's log viewer -- not a real destination, loopback-only, safe to add to every logs pipeline."@,
        ],
        ComponentCategory::Extension => seq![
            "Persists receiver read-position/bookmarks to disk so a restart resumes correctly. Referenced by a receiver's storage field."@,
            "Serves a simple HTTP health-check endpoint for this collector process."@,
            "Serves /status and /config for sgcia dashboard/edit to poll -- the local extension that replaces the old built-in status API."@,
        ],
    }
}

/// The descriptions of the operator types, parallel to their names.
pub open spec fn operator_type_descriptions() -> Seq<Seq<char>> {
    seq![
        "Extracts named fields out of the log text using a regular expression."@,
        "Parses a field's text as JSON and merges the result in."@,
        "Parses key=value pairs out of a field's text -- e.g. user=neo action=login."@,
        "Sets an event's severity by interpreting a value already in the event."@,
        "Sets an event's official timestamp by parsing a value already in the event."@,
        "Sets a field to a fixed value on every event."@,
        "Deletes a field from every event."@,
        "Copies a field's value to a second location, keeping the original too."@,
        "Moves (or renames) a field's value to a new location, removing it from the original."@,
    ]
}

/// The description of a category's type with this name, or empty.
pub open spec fn type_description(c: ComponentCategory, k: Seq<char>) -> Seq<char> {
    named(category_type_names(c), category_type_descriptions(c), k, Seq::empty())
}

/// The description of the operator type with this name, or empty.
pub open spec fn operator_description(k: Seq<char>) -> Seq<char> {
    named(operator_type_names(), operator_type_descriptions(), k, Seq::empty())
}

/// The descriptions of a list of types, in order.
pub open spec fn description_table(v: Seq<ComponentTypeSpec>) -> Seq<Seq<char>> {
    Seq::new(v.len(), |i: int| v[i].description@)
}

/// The field models of a list of types, in order.
pub open spec fn field_table(v: Seq<ComponentTypeSpec>) -> Seq<Seq<FieldModel>> {
    Seq::new(v.len(), |i: int| field_models(v[i].fields@))
}

pub proof fn lemma_named<T>(names: Seq<Seq<char>>, vals: Seq<T>, k: Seq<char>, default: T, i: int)
    requires
        names.len() == vals.len(),
        0 <= i < names.len(),
        names[i] == k,
        forall|j: int| 0 <= j < i ==> names[j] != k,
    ensures
        named(names, vals, k, default) == vals[i],
    decreases i,
{
    if i > 0 {
        lemma_named(names.drop_first(), vals.drop_first(), k, default, i - 1);
    }
}

proof fn lemma_named_absent<T>(names: Seq<Seq<char>>, vals: Seq<T>, k: Seq<char>, default: T)
    requires
        !names.contains(k),
    ensures
        named(names, vals, k, default) == default,
    decreases names.len(),
{
    if names.len() > 0 && vals.len() > 0 {
        assert(names[0] != k);
        assert forall|j: int| 0 <= j < names.drop_first().len() implies names.drop_first()[j] != k by {
            assert(names.drop_first()[j] == names[j + 1]);
        }
        lemma_named_absent(names.drop_first(), vals.drop_first(), k, default);
    }
}

pub open spec fn spec_names(v: Seq<ComponentTypeSpec>) -> Seq<Seq<char>> {
    Seq::new(v.len(), |i: int| v[i].name@)
}

/// The component types of a category.
pub fn types_for(category: ComponentCategory) -> (r: Vec<ComponentTypeSpec>)
    ensures
        spec_names(r@) == category_type_names(category),
        field_table(r@) == category_type_fields(category),
        description_table(r@) == category_type_descriptions(category),
{
    let r = match category {
        ComponentCategory::Receiver => receiver_types(),
        ComponentCategory::Exporter => exporter_types(),
        ComponentCategory::Extension => extension_types(),
    };
    assert(spec_names(r@) =~= category_type_names(category));
    r
}

/// The position of the first spec with this name.
pub fn position_of(specs: &Vec<ComponentTypeSpec>, name: &str) -> (r: Option<usize>)
    ensures
        r matches Some(i) ==> i < specs@.len() && specs@[i as int].name@ == name@
            && forall|j: int| 0 <= j < i ==> specs@[j].name@ != name@,
        r is None ==> forall|j: int| 0 <= j < specs@.len() ==> specs@[j].name@ != name@,
{
    let mut i: usize = 0;
    while i < specs.len()
        invariant
            i <= specs@.len(),
            forall|j: int| 0 <= j < i ==> specs@[j].name@ != name@,
        decreases specs@.len() - i,
    {
        if str_eq(specs[i].name, name) {
            return Some(i);
        }
        i = i + 1;
    }
    None
}

/// Takes the element at `i` out of a vector of specs.
pub fn take_spec(specs: Vec<ComponentTypeSpec>, i: usize) -> (r: ComponentTypeSpec)
    requires
        i < specs@.len(),
    ensures
        r == specs@[i as int],
{
    let mut specs = specs;
    specs.swap_remove(i)
}

/// The registered type of a category with this name.
pub fn find_type(category: ComponentCategory, name: &str) -> (r: Option<ComponentTypeSpec>)
    ensures
        r is Some <==> category_type_names(category).contains(name@),
        r matches Some(s) ==> s.name@ == name@ && field_models(s.fields@) == type_fields(category, name@)
            && s.description@ == type_description(category, name@),
{
    let specs = types_for(category);
    match position_of(&specs, name) {
        Some(i) => {
            assert(spec_names(specs@)[i as int] == name@);
            proof {
                assert forall|j: int| 0 <= j < i implies category_type_names(category)[j] != name@ by {
                    assert(spec_names(specs@)[j] == specs@[j].name@);
                }
                lemma_named(category_type_names(category), category_type_fields(category), name@, Seq::empty(), i as int);
                lemma_named(category_type_names(category), category_type_descriptions(category), name@, Seq::empty(), i as int);
                assert(field_table(specs@)[i as int] == field_models(specs@[i as int].fields@));
                assert(description_table(specs@)[i as int] == specs@[i as int].description@);
            }
            Some(take_spec(specs, i))
        },
        None => {
            assert forall|j: int| 0 <= j < category_type_names(category).len() implies category_type_names(category)[j] != name@ by {
                assert(spec_names(specs@)[j] == specs@[j].name@);
            }
            None
        },
    }
}

/// The operator type with this name.
pub fn operator_type(name: &str) -> (r: Option<ComponentTypeSpec>)
    ensures
        r is Some <==> operator_type_names().contains(name@),
        r matches Some(s) ==> s.name@ == name@ && field_models(s.fields@) == operator_fields(name@)
            && s.description@ == operator_description(name@),
{
    let specs = operator_types();
    assert(spec_names(specs@) =~= operator_type_names());
    match position_of(&specs, name) {
        Some(i) => {
            assert(spec_names(specs@)[i as int] == name@);
            proof {
                assert forall|j: int| 0 <= j < i implies operator_type_names()[j] != name@ by {
                    assert(spec_names(specs@)[j] == specs@[j].name@);
                }
                lemma_named(operator_type_names(), operator_type_fields(), name@, Seq::empty(), i as int);
                lemma_named(operator_type_names(), operator_type_descriptions(), name@, Seq::empty(), i as int);
                assert(field_table(specs@)[i as int] == field_models(specs@[i as int].fields@));
                assert(description_table(specs@)[i as int] == specs@[i as int].description@);
            }
            Some(take_spec(specs, i))
        },
        None => {
            assert forall|j: int| 0 <= j < operator_type_names().len() implies operator_type_names()[j] != name@ by {
                assert(spec_names(specs@)[j] == specs@[j].name@);
            }
            None
        },
    }
}

/// The description of a registered type, or empty.
pub fn describe_type(category: ComponentCategory, name: &str) -> (r: &'static str)
    ensures
        r@ == type_description(category, name@),
{
    match find_type(category, name) {
        Some(s) => s.description,
        None => {
            proof {
                reveal_strlit("");
                lemma_named_absent(category_type_names(category), category_type_descriptions(category), name@, Seq::empty());
            }
            ""
        },
    }
}

/// The description of an operator type, or empty.
pub fn describe_operator_type(name: &str) -> (r: &'static str)
    ensures
        r@ == operator_description(name@),
{
    match operator_type(name) {
        Some(s) => s.description,
        None => {
            proof {
                reveal_strlit("");
                lemma_named_absent(operator_type_names(), operator_type_descriptions(), name@, Seq::empty());
            }
            ""
        },
    }
}

/// The value at a dotted path, read through nested objects.
pub open spec fn value_path(v: JVal, segs: Seq<Seq<char>>) -> Option<JVal>
    decreases segs.len(),
{
    if segs.len() == 0 {
        Some(v)
    } else {
        match v {
            JVal::Obj(o) => match lookup(o, segs[0]) {
                Some(x) => value_path(x, segs.drop_first()),
                None => None,
            },
            _ => None,
        }
    }
}

/// Reads a dot-separated path out of a value, e.g. `udp.listen_address`.
pub fn get_path<'a>(value: &'a JsonValue, path: &str) -> (r: Option<&'a JsonValue>)
    ensures
        r.is_some() == value_path(value@, split_on(path@, '.')).is_some(),
        r matches Some(x) ==> value_path(value@, split_on(path@, '.')) == Some(x@),
{
    let segs = split_string(path, '.');
    let ghost sm = split_on(path@, '.');
    let mut cur: &'a JsonValue = value;
    let mut k: usize = 0;
    assert(sm.skip(0) =~= sm);
    while k < segs.len()
        invariant
            k <= segs@.len(),
            sm == split_on(path@, '.'),
            segs@.len() == sm.len(),
            forall|i: int| 0 <= i < segs@.len() ==> #[trigger] segs@[i]@ == sm[i],
            value_path(value@, sm) == value_path(cur@, sm.skip(k as int)),
        decreases segs@.len() - k,
    {
        let ghost rest = sm.skip(k as int);
        assert(rest[0] == segs@[k as int]@);
        assert(rest.drop_first() =~= sm.skip(k + 1));
        match cur.get(segs[k].as_str()) {
            Some(next) => {
                cur = next;
            },
            None => {
                assert(value_path(cur@, rest) is None);
                return None;
            },
        }
        k = k + 1;
    }
    assert(sm.skip(k as int).len() == 0);
    Some(cur)
}

/// Writes a dot-separated path into an object, making (or replacing
/// non-objects with) empty objects on the way.
pub fn set_path(map: &mut JsonMap, path: &str, value: JsonValue)
    ensures
        obj_model(final(map)@) == path_set(obj_model(old(map)@), split_on(path@, '.'), value@),
{
    set_dotted(map, path, value);
}

/// Law: a path just written reads back as the value written.
pub proof fn law_get_path_after_set_path(o: JObj, path: Seq<char>, v: JVal)
    ensures
        value_path(JVal::Obj(path_set(o, split_on(path, '.'), v)), split_on(path, '.')) == Some(v),
{
    crate::field_ref::lemma_split_nonempty_pub(path, '.');
    lemma_value_path_set(o, split_on(path, '.'), v);
}

proof fn lemma_value_path_set(o: JObj, segs: Seq<Seq<char>>, v: JVal)
    requires
        segs.len() >= 1,
    ensures
        value_path(JVal::Obj(path_set(o, segs, v)), segs) == Some(v),
    decreases segs.len(),
{
    if segs.len() == 1 {
        crate::field_ref::lemma_lookup_insert_same(o, segs[0], v);
        assert(segs.drop_first().len() == 0);
        assert(value_path(v, segs.drop_first()) == Some(v));
    } else {
        let child = match lookup(o, segs[0]) {
            Some(JVal::Obj(m)) => m,
            _ => Seq::empty(),
        };
        lemma_value_path_set(child, segs.drop_first(), v);
        crate::field_ref::lemma_lookup_insert_same(o, segs[0], JVal::Obj(path_set(child, segs.drop_first(), v)));
    }
}

/// Neither path is the start of the other.
pub open spec fn paths_apart(p: Seq<Seq<char>>, q: Seq<Seq<char>>) -> bool {
    &&& !(p.len() <= q.len() && q.take(p.len() as int) == p)
    &&& !(q.len() <= p.len() && p.take(q.len() as int) == q)
}

/// No field's dotted path is the start of another field's.
pub open spec fn fields_apart(fields: Seq<FieldModel>) -> bool {
    forall|i: int, j: int|
        0 <= i < fields.len() && 0 <= j < fields.len() && i != j ==> paths_apart(
            split_on(#[trigger] fields[i].0, '.'),
            split_on(#[trigger] fields[j].0, '.'),
        )
}

/// Writing at one path leaves what another path reads, where neither
/// path is the start of the other.
pub proof fn lemma_value_path_set_apart(o: JObj, p: Seq<Seq<char>>, q: Seq<Seq<char>>, v: JVal)
    requires
        p.len() >= 1,
        q.len() >= 1,
        paths_apart(p, q),
    ensures
        value_path(JVal::Obj(path_set(o, p, v)), q) == value_path(JVal::Obj(o), q),
    decreases p.len(),
{
    if p[0] != q[0] {
        crate::field_ref::law_set_keeps_other_keys(o, p, v, q[0]);
        assert(lookup(path_set(o, p, v), q[0]) == lookup(o, q[0]));
    } else {
        if p.len() == 1 {
            assert(q.take(1) =~= p);
        }
        if q.len() == 1 {
            assert(p.take(1) =~= q);
        }
        let child = match lookup(o, p[0]) {
            Some(JVal::Obj(m)) => m,
            _ => Seq::empty(),
        };
        let p1 = p.drop_first();
        let q1 = q.drop_first();
        if p1.len() <= q1.len() && q1.take(p1.len() as int) == p1 {
            assert forall|k: int| 0 <= k < p.len() implies q.take(p.len() as int)[k] == p[k] by {
                if k > 0 {
                    assert(q1.take(p1.len() as int)[k - 1] == p1[k - 1]);
                }
            }
            assert(q.take(p.len() as int) =~= p);
        }
        if q1.len() <= p1.len() && p1.take(q1.len() as int) == q1 {
            assert forall|k: int| 0 <= k < q.len() implies p.take(q.len() as int)[k] == q[k] by {
                if k > 0 {
                    assert(p1.take(q1.len() as int)[k - 1] == q1[k - 1]);
                }
            }
            assert(p.take(q.len() as int) =~= q);
        }
        lemma_value_path_set_apart(child, p1, q1, v);
        crate::field_ref::lemma_lookup_insert_same(o, p[0], JVal::Obj(path_set(child, p1, v)));
        assert(path_set(o, p, v) == crate::json::obj_insert(o, p[0], JVal::Obj(path_set(child, p1, v))));
        assert(lookup(path_set(o, p, v), q[0]) == Some(JVal::Obj(path_set(child, p1, v))));
        assert(value_path(JVal::Obj(path_set(o, p, v)), q) == value_path(JVal::Obj(path_set(child, p1, v)), q1));
        match lookup(o, q[0]) {
            Some(JVal::Obj(m)) => {
                assert(value_path(JVal::Obj(o), q) == value_path(JVal::Obj(m), q1));
            },
            _ => {
                assert(lookup(Seq::<(Seq<char>, JVal)>::empty(), q1[0]) is None);
                assert(value_path(JVal::Obj(child), q1) is None);
            },
        }
    }
}

/// The value a required field is seeded with: its default, else a
/// harmless placeholder of its kind.
pub open spec fn seed_value(fs: FieldModel) -> JVal {
    match fs.3 {
        Some(d) => JVal::Str(d),
        None => match fs.1 {
            FieldKind::StringList => JVal::Arr(seq![JVal::Str("placeholder"@)]),
            FieldKind::Bool => JVal::Bool(false),
            FieldKind::OperatorList => JVal::Arr(Seq::empty()),
            FieldKind::Enum(c) => JVal::Str(choice_options(c)[0]),
            _ => JVal::Str("placeholder"@),
        },
    }
}

/// The minimal value of a list of fields: every required field seeded,
/// in order, at its path.
pub open spec fn spec_minimal(fields: Seq<FieldModel>) -> JObj
    decreases fields.len(),
{
    if fields.len() == 0 {
        Seq::empty()
    } else {
        let prev = spec_minimal(fields.drop_last());
        let fs = fields.last();
        if fs.2 {
            path_set(prev, split_on(fs.0, '.'), seed_value(fs))
        } else {
            prev
        }
    }
}

fn seed_value_exec(fs: &FieldSpec) -> (r: JsonValue)
    ensures
        r@ == seed_value(field_model(*fs)),
{
    match fs.default {
        Some(d) => JsonValue::Str(d.to_owned()),
        None => match fs.kind {
            FieldKind::StringList => {
                let v = vec![JsonValue::Str("placeholder".to_owned())];
                proof {
                    crate::json::lemma_array_view(v);
                    assert(crate::json::arr_model(v@) =~= seq![JVal::Str("placeholder"@)]);
                }
                JsonValue::Array(v)
            },
            FieldKind::Bool => JsonValue::Bool(false),
            FieldKind::OperatorList => {
                let v: Vec<JsonValue> = Vec::new();
                proof {
                    crate::json::lemma_array_view(v);
                    assert(crate::json::arr_model(v@) =~= Seq::<JVal>::empty());
                }
                JsonValue::Array(v)
            },
            FieldKind::Enum(c) => {
                let opts = c.options();
                JsonValue::Str(opts[0].to_owned())
            },
            _ => JsonValue::Str("placeholder".to_owned()),
        },
    }
}

/// A new component's starting value: its required fields seeded at their
/// paths.
pub fn minimal_value(spec: &ComponentTypeSpec) -> (r: JsonValue)
    ensures
        r@ == JVal::Obj(spec_minimal(field_models(spec.fields@))),
{
    let mut map: JsonMap = Vec::new();
    let mut i: usize = 0;
    assert(spec.fields@.take(0) =~= Seq::<FieldSpec>::empty());
    assert(obj_model(map@) =~= Seq::<(Seq<char>, JVal)>::empty());
    while i < spec.fields.len()
        invariant
            i <= spec.fields@.len(),
            obj_model(map@) == spec_minimal(field_models(spec.fields@.take(i as int))),
        decreases spec.fields@.len() - i,
    {
        assert(spec.fields@.take(i + 1).drop_last() =~= spec.fields@.take(i as int));
        assert(field_models(spec.fields@.take(i + 1)).drop_last() =~= field_models(spec.fields@.take(i as int)));
        let fs = &spec.fields[i];
        if fs.required {
            let v = seed_value_exec(fs);
            set_path(&mut map, fs.key, v);
        }
        i = i + 1;
    }
    assert(spec.fields@.take(i as int) =~= spec.fields@);
    let ghost mm = map;
    proof {
        crate::json::lemma_object_view(mm);
    }
    JsonValue::Object(map)
}

/// Component ids follow `type[/name]`; the part before `/` is the type.
pub fn component_type(id: &str) -> (r: String)
    ensures
        r@ == crate::config::spec_component_type(id@),
{
    crate::config::component_type(id)
}

} // verus!

