//! The `timestamp` operator: parses a field with a layout and sets the
//! event's timestamp.

use vstd::prelude::*;
use crate::json::{JsonValue, JVal};
use crate::event::{Event, EventModel};
use crate::field_ref::{FieldRef, FieldPath, spec_parse_field, model_get};
use crate::operator::OperatorError;
use crate::op_def::{def_object, req_str, prefixed, prefix_error, read_def_object, read_req_str};
use crate::severity_op::{value_as_i64, as_i64};
use crate::text::{str_eq, append_str};
use crate::time::{
    Timestamp, spec_parse_rfc3339, spec_utc_timestamp, spec_utc_timestamp_millis, spec_parse_naive,
    parse_rfc3339, utc_timestamp, utc_timestamp_millis, parse_naive,
};

verus! {

pub struct TimestampOperator {
    pub id: String,
    pub parse_from: FieldRef,
    pub layout: String,
}

/// What a `timestamp` definition describes: source and layout.
pub open spec fn timestamp_def(v: JVal) -> Result<(FieldPath, Seq<char>), Seq<char>> {
    match def_object(v) {
        Err(e) => Err(e),
        Ok(o) => match req_str(o, "parse_from"@) {
            Err(e) => Err(e),
            Ok(f) => match req_str(o, "layout"@) {
                Err(e) => Err(e),
                Ok(l) => Ok((spec_parse_field(f), l)),
            },
        },
    }
}

/// The instant a value denotes under a layout: `rfc3339` text, `epoch`
/// seconds, `epoch_ms` milliseconds, or any other layout as a strftime
/// format for a UTC date and time.
pub open spec fn spec_parse_timestamp(layout: Seq<char>, v: JVal) -> Option<Timestamp> {
    if layout == "rfc3339"@ {
        match v {
            JVal::Str(s) => spec_parse_rfc3339(s),
            _ => None,
        }
    } else if layout == "epoch"@ {
        match value_as_i64(v) {
            Some(secs) => spec_utc_timestamp(secs, 0),
            None => None,
        }
    } else if layout == "epoch_ms"@ {
        match value_as_i64(v) {
            Some(ms) => spec_utc_timestamp_millis(ms),
            None => None,
        }
    } else {
        match v {
            JVal::Str(s) => spec_parse_naive(s, layout),
            _ => None,
        }
    }
}

pub open spec fn timestamp_apply(o: TimestampOperator, e: EventModel) -> Result<EventModel, Seq<char>> {
    match model_get(o.parse_from@, e) {
        None => Err("parse_from field not present"@),
        Some(v) => match spec_parse_timestamp(o.layout@, v) {
            Some(ts) => Ok(EventModel { timestamp: ts, ..e }),
            None => Err("could not parse timestamp with layout '"@ + o.layout@ + "'"@),
        },
    }
}

fn read_timestamp_def(value: &JsonValue) -> (r: Result<(FieldRef, String), String>)
    ensures
        match timestamp_def(value@) {
            Ok((f, l)) => r matches Ok((x, y)) && x@ == f && y@ == l,
            Err(e) => r matches Err(x) && x@ == e,
        },
{
    let o = read_def_object(value)?;
    let f = read_req_str(o, "parse_from")?;
    let l = read_req_str(o, "layout")?;
    Ok((FieldRef::parse(f.as_str()), l))
}

impl TimestampOperator {
    pub fn from_value(id: &str, value: &JsonValue) -> (r: Result<TimestampOperator, String>)
        ensures
            match timestamp_def(value@) {
                Ok((f, l)) => r matches Ok(op) && op.id@ == id@ && op.parse_from@ == f && op.layout@ == l,
                Err(e) => r matches Err(x) && x@ == prefixed(id@, e),
            },
    {
        match read_timestamp_def(value) {
            Ok((f, l)) => Ok(TimestampOperator { id: id.to_owned(), parse_from: f, layout: l }),
            Err(e) => Err(prefix_error(id, e.as_str())),
        }
    }

    pub fn id(&self) -> (r: &str)
        ensures
            r@ == self.id@,
    {
        self.id.as_str()
    }

    /// The instant `value` denotes under this operator's layout.
    pub fn parse(&self, value: &JsonValue) -> (r: Option<Timestamp>)
        ensures
            r == spec_parse_timestamp(self.layout@, value@),
            self.layout@ == "epoch"@ ==> (value_as_i64(value@) matches Some(secs) ==> (r matches Some(t) ==> t.secs == secs
                && t.nanos == 0)),
            self.layout@ == "epoch_ms"@ ==> (value_as_i64(value@) matches Some(ms) ==> (r matches Some(t) ==> t.secs == ms / 1000
                && t.nanos == (ms % 1000) * 1_000_000)),
    {
        proof {
            reveal_strlit("rfc3339");
            reveal_strlit("epoch");
            reveal_strlit("epoch_ms");
            assert("rfc3339"@ != "epoch"@ && "rfc3339"@ != "epoch_ms"@ && "epoch"@ != "epoch_ms"@) by {
                assert("rfc3339"@[0] != "epoch"@[0]);
                assert("rfc3339"@[0] != "epoch_ms"@[0]);
                assert("epoch"@.len() != "epoch_ms"@.len());
            }
        }
        let layout = self.layout.as_str();
        if str_eq(layout, "rfc3339") {
            match value.as_str() {
                Some(s) => parse_rfc3339(s),
                None => None,
            }
        } else if str_eq(layout, "epoch") {
            match as_i64(value) {
                Some(secs) => utc_timestamp(secs, 0),
                None => None,
            }
        } else if str_eq(layout, "epoch_ms") {
            match as_i64(value) {
                Some(ms) => utc_timestamp_millis(ms),
                None => None,
            }
        } else {
            match value.as_str() {
                Some(s) => parse_naive(s, layout),
                None => None,
            }
        }
    }

    pub fn process(&self, event: Event) -> (r: Result<Event, (Event, OperatorError)>)
        ensures
            crate::operator::process_matches(self.id@, event@, r, timestamp_apply(*self, event@)),
    {
        let mut event = event;
        let parsed = match self.parse_from.get(&event) {
            None => {
                return Err((event, OperatorError { operator_id: self.id.clone(), message: "parse_from field not present".to_owned() }));
            },
            Some(raw) => self.parse(raw),
        };
        match parsed {
            Some(ts) => {
                let ghost e0 = event@;
                event.timestamp = ts;
                assert(event@ == EventModel { timestamp: ts, ..e0 });
                Ok(event)
            },
            None => {
                let mut msg = String::new();
                append_str(&mut msg, "could not parse timestamp with layout '");
                append_str(&mut msg, self.layout.as_str());
                append_str(&mut msg, "'");
                assert(msg@ =~= "could not parse timestamp with layout '"@ + self.layout@ + "'"@);
                Err((event, OperatorError { operator_id: self.id.clone(), message: msg }))
            },
        }
    }
}

} // verus!
