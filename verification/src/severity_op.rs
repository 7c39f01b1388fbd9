//! The `severity` operator: reads a syslog severity number (0-7) and sets
//! the event's severity with its standard name.

use vstd::prelude::*;
use crate::json::{JsonValue, JVal};
use crate::event::{Event, EventModel, Severity};
use crate::field_ref::{FieldRef, FieldPath, spec_parse_field, model_get};
use crate::operator::OperatorError;
use crate::op_def::{def_object, req_str, prefixed, prefix_error, read_def_object, read_req_str};
use crate::text::{spec_parse_i64, parse_i64, str_eq, append_str};

verus! {

/// `Value::as_i64` for a number, or `str::parse::<i64>` for a string;
/// nothing for other values.
pub open spec fn value_as_i64(v: JVal) -> Option<i64> {
    match v {
        JVal::Num(n) => spec_parse_i64(n),
        JVal::Str(s) => spec_parse_i64(s),
        _ => None,
    }
}

/// The integer a JSON value holds, as a number or as decimal text.
pub fn as_i64(v: &JsonValue) -> (r: Option<i64>)
    ensures
        r == value_as_i64(v@),
{
    match v {
        JsonValue::Number(n) => parse_i64(n.as_str()),
        JsonValue::Str(s) => parse_i64(s.as_str()),
        _ => None,
    }
}

/// The syslog name of severities 0 through 7.
pub open spec fn syslog_severity_text(n: int) -> Seq<char> {
    if n == 0 {
        "emergency"@
    } else if n == 1 {
        "alert"@
    } else if n == 2 {
        "critical"@
    } else if n == 3 {
        "error"@
    } else if n == 4 {
        "warning"@
    } else if n == 5 {
        "notice"@
    } else if n == 6 {
        "informational"@
    } else {
        "debug"@
    }
}

/// Law: the severity names are the RFC 5424 names, in order: 0
/// emergency, 1 alert, 2 critical, 3 error, 4 warning, 5 notice,
/// 6 informational, 7 debug.
pub proof fn law_rfc5424_severity_names(n: int)
    requires
        0 <= n <= 7,
    ensures
        syslog_severity_text(n) == seq![
            "emergency"@,
            "alert"@,
            "critical"@,
            "error"@,
            "warning"@,
            "notice"@,
            "informational"@,
            "debug"@,
        ][n],
{
}

pub fn severity_text(n: i64) -> (r: &'static str)
    requires
        0 <= n <= 7,
    ensures
        r@ == syslog_severity_text(n as int),
{
    if n == 0 {
        "emergency"
    } else if n == 1 {
        "alert"
    } else if n == 2 {
        "critical"
    } else if n == 3 {
        "error"
    } else if n == 4 {
        "warning"
    } else if n == 5 {
        "notice"
    } else if n == 6 {
        "informational"
    } else {
        "debug"
    }
}

pub struct SeverityOperator {
    pub id: String,
    pub parse_from: FieldRef,
    pub preset: String,
}

/// What a `severity` definition describes: source and preset; only the
/// `syslog` preset exists.
pub open spec fn severity_def(v: JVal) -> Result<(FieldPath, Seq<char>), Seq<char>> {
    match def_object(v) {
        Err(e) => Err(e),
        Ok(o) => match req_str(o, "parse_from"@) {
            Err(e) => Err(e),
            Ok(f) => match req_str(o, "preset"@) {
                Err(e) => Err(e),
                Ok(p) => if p != "syslog"@ {
                    Err("unknown severity preset '"@ + p + "' (only 'syslog' is supported)"@)
                } else {
                    Ok((spec_parse_field(f), p))
                },
            },
        },
    }
}

/// The number read from the source field, when it is a syslog severity.
pub open spec fn severity_number(o: SeverityOperator, e: EventModel) -> Option<i64> {
    match model_get(o.parse_from@, e) {
        Some(v) => match value_as_i64(v) {
            Some(n) => if o.preset@ == "syslog"@ && 0 <= n <= 7 { Some(n) } else { None },
            None => None,
        },
        None => None,
    }
}

pub open spec fn severity_apply(o: SeverityOperator, e: EventModel) -> Result<EventModel, Seq<char>> {
    match severity_number(o, e) {
        None => Err("parse_from did not contain a valid syslog severity (0-7)"@),
        Some(n) => Ok(EventModel { severity: Some((n as i32, syslog_severity_text(n as int))), ..e }),
    }
}

fn unknown_preset(p: &str) -> (r: String)
    ensures
        r@ == "unknown severity preset '"@ + p@ + "' (only 'syslog' is supported)"@,
{
    let mut s = String::new();
    append_str(&mut s, "unknown severity preset '");
    append_str(&mut s, p);
    append_str(&mut s, "' (only 'syslog' is supported)");
    assert(s@ =~= "unknown severity preset '"@ + p@ + "' (only 'syslog' is supported)"@);
    s
}

fn read_severity_def(value: &JsonValue) -> (r: Result<(FieldRef, String), String>)
    ensures
        match severity_def(value@) {
            Ok((f, p)) => r matches Ok((x, y)) && x@ == f && y@ == p,
            Err(e) => r matches Err(x) && x@ == e,
        },
{
    let o = read_def_object(value)?;
    let f = read_req_str(o, "parse_from")?;
    let p = read_req_str(o, "preset")?;
    if !str_eq(p.as_str(), "syslog") {
        return Err(unknown_preset(p.as_str()));
    }
    Ok((FieldRef::parse(f.as_str()), p))
}

impl SeverityOperator {
    pub fn from_value(id: &str, value: &JsonValue) -> (r: Result<SeverityOperator, String>)
        ensures
            match severity_def(value@) {
                Ok((f, p)) => r matches Ok(op) && op.id@ == id@ && op.parse_from@ == f && op.preset@ == p,
                Err(e) => r matches Err(x) && x@ == prefixed(id@, e),
            },
    {
        match read_severity_def(value) {
            Ok((f, p)) => Ok(SeverityOperator { id: id.to_owned(), parse_from: f, preset: p }),
            Err(e) => Err(prefix_error(id, e.as_str())),
        }
    }

    pub fn id(&self) -> (r: &str)
        ensures
            r@ == self.id@,
    {
        self.id.as_str()
    }

    pub fn process(&self, event: Event) -> (r: Result<Event, (Event, OperatorError)>)
        ensures
            crate::operator::process_matches(self.id@, event@, r, severity_apply(*self, event@)),
    {
        let mut event = event;
        let number = match self.parse_from.get(&event) {
            Some(v) => as_i64(v),
            None => None,
        };
        let n = match number {
            Some(n) if str_eq(self.preset.as_str(), "syslog") && 0 <= n && n <= 7 => n,
            _ => {
                return Err((event, OperatorError {
                    operator_id: self.id.clone(),
                    message: "parse_from did not contain a valid syslog severity (0-7)".to_owned(),
                }));
            },
        };
        let ghost e0 = event@;
        event.severity = Some(Severity { number: n as i32, text: severity_text(n).to_owned() });
        assert(event@ == EventModel { severity: Some((n as i32, syslog_severity_text(n as int))), ..e0 });
        Ok(event)
    }
}

} // verus!
