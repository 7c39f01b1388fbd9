//! Which receiver or exporter implementation a configured component
//! names.

use vstd::prelude::*;
use crate::json::{JsonValue, JVal, lookup};
use crate::config::{component_type, spec_component_type};
use crate::text::{str_eq, append_str};

verus! {

#[derive(Clone, Copy, Debug, PartialEq, Eq, Structural)]
pub enum ExporterKind {
    S1Hec,
    SplunkHec,
    Stdout,
}

#[derive(Clone, Copy, Debug, PartialEq, Eq, Structural)]
pub enum ReceiverKind {
    Syslog,
    FileLog,
    WindowsEventLog,
}

/// An exporter's type: its `type` member when that is a string, else the
/// type its id names.
pub open spec fn exporter_type_text(id: Seq<char>, v: JVal) -> Seq<char> {
    match v {
        JVal::Obj(o) => match lookup(o, "type"@) {
            Some(JVal::Str(t)) => t,
            _ => spec_component_type(id),
        },
        _ => spec_component_type(id),
    }
}

pub open spec fn spec_exporter_kind(t: Seq<char>) -> Option<ExporterKind> {
    if t == "s1hec"@ {
        Some(ExporterKind::S1Hec)
    } else if t == "splunkhec"@ {
        Some(ExporterKind::SplunkHec)
    } else if t == "stdout"@ {
        Some(ExporterKind::Stdout)
    } else {
        None
    }
}

pub open spec fn spec_receiver_kind(t: Seq<char>) -> Option<ReceiverKind> {
    if t == "syslog"@ {
        Some(ReceiverKind::Syslog)
    } else if t == "filelog"@ {
        Some(ReceiverKind::FileLog)
    } else if t == "windows_eventlog"@ {
        Some(ReceiverKind::WindowsEventLog)
    } else {
        None
    }
}

/// The implementation an exporter's definition asks for, or why there is
/// none.
pub fn exporter_kind(id: &str, value: &JsonValue) -> (r: Result<ExporterKind, String>)
    ensures
        match spec_exporter_kind(exporter_type_text(id@, value@)) {
            Some(k) => r == Ok::<ExporterKind, String>(k),
            None => r matches Err(m) && m@ == "exporter '"@ + id@ + "': unknown exporter type '"@ + exporter_type_text(id@, value@)
                + "'"@,
        },
{
    let t: String = match value.get("type") {
        Some(v) => match v.as_str() {
            Some(s) => s.to_owned(),
            None => component_type(id),
        },
        None => component_type(id),
    };
    assert(t@ == exporter_type_text(id@, value@));
    if str_eq(t.as_str(), "s1hec") {
        Ok(ExporterKind::S1Hec)
    } else if str_eq(t.as_str(), "splunkhec") {
        Ok(ExporterKind::SplunkHec)
    } else if str_eq(t.as_str(), "stdout") {
        Ok(ExporterKind::Stdout)
    } else {
        let mut m = String::new();
        append_str(&mut m, "exporter '");
        append_str(&mut m, id);
        append_str(&mut m, "': unknown exporter type '");
        append_str(&mut m, t.as_str());
        append_str(&mut m, "'");
        assert(m@ =~= "exporter '"@ + id@ + "': unknown exporter type '"@ + t@ + "'"@);
        Err(m)
    }
}

/// The implementation a receiver's id asks for, or why there is none.
pub fn receiver_kind(id: &str) -> (r: Result<ReceiverKind, String>)
    ensures
        match spec_receiver_kind(spec_component_type(id@)) {
            Some(k) => r == Ok::<ReceiverKind, String>(k),
            None => r matches Err(m) && m@ == "receiver '"@ + id@ + "': unknown receiver type '"@ + spec_component_type(id@) + "'"@,
        },
{
    let t = component_type(id);
    if str_eq(t.as_str(), "syslog") {
        Ok(ReceiverKind::Syslog)
    } else if str_eq(t.as_str(), "filelog") {
        Ok(ReceiverKind::FileLog)
    } else if str_eq(t.as_str(), "windows_eventlog") {
        Ok(ReceiverKind::WindowsEventLog)
    } else {
        let mut m = String::new();
        append_str(&mut m, "receiver '");
        append_str(&mut m, id);
        append_str(&mut m, "': unknown receiver type '");
        append_str(&mut m, t.as_str());
        append_str(&mut m, "'");
        assert(m@ =~= "receiver '"@ + id@ + "': unknown receiver type '"@ + t@ + "'"@);
        Err(m)
    }
}

} // verus!
