//! A log record as it flows from receiver through operators to exporter.

use vstd::prelude::*;
use crate::json::{JsonValue, JsonMap, JVal, obj_model, spec_json_text, json_text};
use crate::time::{Timestamp, now};

verus! {

/// Structured metadata: extracted fields, or static per-source info.
pub type Attributes = JsonMap;

#[derive(Debug)]
pub struct Severity {
    pub number: i32,
    pub text: String,
}

#[derive(Debug)]
pub struct EventMeta {
    /// Non-fatal operator failures recorded while the event moved through
    /// a chain whose steps pass errors on.
    pub errors: Vec<String>,
    pub dead_letter: bool,
}

/// A single log record.
#[derive(Debug)]
pub struct Event {
    /// The original bytes as received; operators never change them.
    pub raw: Vec<u8>,
    /// The current best representation of the payload.
    pub body: JsonValue,
    /// When the event happened; starts as `observed_timestamp`.
    pub timestamp: Timestamp,
    /// When the receiver took the record in.
    pub observed_timestamp: Timestamp,
    pub attributes: Attributes,
    pub resource: Attributes,
    pub severity: Option<Severity>,
    pub meta: EventMeta,
}

/// What `String::from_utf8_lossy` makes of some bytes: invalid sequences
/// become U+FFFD.
pub uninterp spec fn spec_utf8_lossy(b: Seq<u8>) -> Seq<char>;

/// `String::from_utf8_lossy(b).into_owned()`.
#[verifier::external_body]
pub(crate) fn utf8_lossy(b: &[u8]) -> (r: String)
    ensures
        r@ == spec_utf8_lossy(b@),
{
    String::from_utf8_lossy(b).into_owned()
}

impl Event {
    /// A fresh event for `raw` received at `at`: the body is the lossy
    /// UTF-8 text of the bytes, both timestamps are `at`, and there are no
    /// attributes, resource entries, severity or errors.
    pub fn new_at(raw: Vec<u8>, at: Timestamp) -> (e: Event)
        ensures
            e.raw@ == raw@,
            e.body@ == JVal::Str(spec_utf8_lossy(raw@)),
            e.timestamp == at,
            e.observed_timestamp == at,
            e.attributes@.len() == 0,
            e.resource@.len() == 0,
            e.severity is None,
            e.meta.errors@.len() == 0,
            !e.meta.dead_letter,
    {
        let text = utf8_lossy(raw.as_slice());
        Event {
            raw,
            body: JsonValue::Str(text),
            timestamp: at,
            observed_timestamp: at,
            attributes: Vec::new(),
            resource: Vec::new(),
            severity: None,
            meta: EventMeta { errors: Vec::new(), dead_letter: false },
        }
    }

    /// A fresh event for `raw`, stamped with the current time.
    pub fn new(raw: Vec<u8>) -> (e: Event)
        ensures
            e.raw@ == raw@,
            e.body@ == JVal::Str(spec_utf8_lossy(raw@)),
            e.timestamp == e.observed_timestamp,
            e.attributes@.len() == 0,
            e.resource@.len() == 0,
            e.severity is None,
            e.meta.errors@.len() == 0,
            !e.meta.dead_letter,
    {
        Event::new_at(raw, now())
    }

    /// A copy of the event, field for field.
    pub fn duplicate(&self) -> (r: Event)
        ensures
            r@ == self@,
    {
        let mut errors: Vec<String> = Vec::new();
        let mut i: usize = 0;
        while i < self.meta.errors.len()
            invariant
                i <= self.meta.errors@.len(),
                errors@.len() == i,
                forall|j: int| 0 <= j < i ==> #[trigger] errors@[j]@ == self.meta.errors@[j]@,
            decreases self.meta.errors@.len() - i,
        {
            errors.push(self.meta.errors[i].clone());
            i = i + 1;
        }
        let r = Event {
            raw: self.raw.clone(),
            body: self.body.deep_copy(),
            timestamp: self.timestamp,
            observed_timestamp: self.observed_timestamp,
            attributes: crate::json::copy_map(&self.attributes),
            resource: crate::json::copy_map(&self.resource),
            severity: match &self.severity {
                Some(s) => Some(Severity { number: s.number, text: s.text.clone() }),
                None => None,
            },
            meta: EventMeta { errors, dead_letter: self.meta.dead_letter },
        };
        assert(r@.errors =~= self@.errors);
        r
    }

    /// The body as it appears in an HEC `event` field: a string as is,
    /// anything else as compact JSON.
    pub fn render_body(&self) -> (r: String)
        ensures
            r@ == spec_render_body(self.body@),
    {
        match &self.body {
            JsonValue::Str(s) => s.clone(),
            other => json_text(other),
        }
    }
}

/// Model of an event: every field by its view.
pub struct EventModel {
    pub raw: Seq<u8>,
    pub body: JVal,
    pub timestamp: Timestamp,
    pub observed_timestamp: Timestamp,
    pub attributes: crate::json::JObj,
    pub resource: crate::json::JObj,
    pub severity: Option<(i32, Seq<char>)>,
    pub errors: Seq<Seq<char>>,
    pub dead_letter: bool,
}

impl View for Event {
    type V = EventModel;

    open spec fn view(&self) -> EventModel {
        EventModel {
            raw: self.raw@,
            body: self.body@,
            timestamp: self.timestamp,
            observed_timestamp: self.observed_timestamp,
            attributes: obj_model(self.attributes@),
            resource: obj_model(self.resource@),
            severity: match self.severity {
                Some(s) => Some((s.number, s.text@)),
                None => None,
            },
            errors: Seq::new(self.meta.errors@.len(), |i: int| self.meta.errors@[i]@),
            dead_letter: self.meta.dead_letter,
        }
    }
}

pub open spec fn spec_render_body(body: JVal) -> Seq<char> {
    match body {
        JVal::Str(s) => s,
        other => spec_json_text(other),
    }
}

} // verus!
