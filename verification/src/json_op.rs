//! The `json` operator: parses a string field as JSON and merges the
//! result into a target field.

use vstd::prelude::*;
use crate::json::{JsonValue, JVal, spec_json_parse, json_parse};
use crate::event::{Event, EventModel};
use crate::field_ref::{FieldRef, FieldPath, spec_parse_field, model_get, model_set, lemma_view_with_parts};
use crate::operator::OperatorError;
use crate::op_def::{def_object, req_str, prefixed, prefix_error, read_def_object, read_req_str};
use crate::text::append_str;

verus! {

pub struct JsonOperator {
    pub id: String,
    pub parse_from: FieldRef,
    pub parse_to: FieldRef,
}

/// The `parse_from` and `parse_to` fields a definition names.
pub open spec fn from_to_def(v: JVal) -> Result<(FieldPath, FieldPath), Seq<char>> {
    match def_object(v) {
        Err(e) => Err(e),
        Ok(o) => match req_str(o, "parse_from"@) {
            Err(e) => Err(e),
            Ok(f) => match req_str(o, "parse_to"@) {
                Err(e) => Err(e),
                Ok(t) => Ok((spec_parse_field(f), spec_parse_field(t))),
            },
        },
    }
}

/// The text a string field holds.
pub open spec fn string_input(f: FieldPath, e: EventModel) -> Option<Seq<char>> {
    match model_get(f, e) {
        Some(JVal::Str(s)) => Some(s),
        _ => None,
    }
}

pub open spec fn json_apply(o: JsonOperator, e: EventModel) -> Result<EventModel, Seq<char>> {
    match string_input(o.parse_from@, e) {
        None => Err("parse_from field is not a string"@),
        Some(s) => match spec_json_parse(s) {
            Err(m) => Err("invalid JSON: "@ + m),
            Ok(v) => Ok(model_set(o.parse_to@, e, v)),
        },
    }
}

/// Reads `parse_from` and `parse_to`.
pub fn read_from_to(value: &JsonValue) -> (r: Result<(FieldRef, FieldRef), String>)
    ensures
        match from_to_def(value@) {
            Ok((f, t)) => r matches Ok((x, y)) && x@ == f && y@ == t,
            Err(e) => r matches Err(x) && x@ == e,
        },
{
    let o = read_def_object(value)?;
    let f = read_req_str(o, "parse_from")?;
    let t = read_req_str(o, "parse_to")?;
    Ok((FieldRef::parse(f.as_str()), FieldRef::parse(t.as_str())))
}

/// The string held by a field of the event.
pub fn read_string_input(f: &FieldRef, event: &Event) -> (r: Option<String>)
    ensures
        match string_input(f@, event@) {
            Some(s) => r matches Some(x) && x@ == s,
            None => r is None,
        },
{
    match f.get(event) {
        Some(v) => match v.as_str() {
            Some(s) => Some(s.to_owned()),
            None => None,
        },
        None => None,
    }
}

impl JsonOperator {
    pub fn from_value(id: &str, value: &JsonValue) -> (r: Result<JsonOperator, String>)
        ensures
            match from_to_def(value@) {
                Ok((f, t)) => r matches Ok(op) && op.id@ == id@ && op.parse_from@ == f && op.parse_to@ == t,
                Err(e) => r matches Err(x) && x@ == prefixed(id@, e),
            },
    {
        match read_from_to(value) {
            Ok((f, t)) => Ok(JsonOperator { id: id.to_owned(), parse_from: f, parse_to: t }),
            Err(e) => Err(prefix_error(id, e.as_str())),
        }
    }

    pub fn id(&self) -> (r: &str)
        ensures
            r@ == self.id@,
    {
        self.id.as_str()
    }

    pub fn process(&self, event: Event) -> (r: Result<Event, (Event, OperatorError)>)
        ensures
            crate::operator::process_matches(self.id@, event@, r, json_apply(*self, event@)),
    {
        let mut event = event;
        let ghost e0 = event;
        let input = match read_string_input(&self.parse_from, &event) {
            Some(s) => s,
            None => {
                return Err((event, OperatorError { operator_id: self.id.clone(), message: "parse_from field is not a string".to_owned() }));
            },
        };
        match json_parse(input.as_str()) {
            Err(m) => {
                let mut msg = String::new();
                append_str(&mut msg, "invalid JSON: ");
                append_str(&mut msg, m.as_str());
                assert(msg@ =~= "invalid JSON: "@ + m@);
                Err((event, OperatorError { operator_id: self.id.clone(), message: msg }))
            },
            Ok(parsed) => {
                self.parse_to.merge(&mut event, parsed);
                proof { lemma_view_with_parts(e0, event); }
                Ok(event)
            },
        }
    }
}

} // verus!
