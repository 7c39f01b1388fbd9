//! The debug exporter: one JSON line per event.

use vstd::prelude::*;
use crate::json::{JsonValue, JsonMap, JVal, obj_model, obj_insert, map_insert, spec_json_text, json_text, copy_map};
use crate::event::{Event, EventModel, spec_render_body};
use crate::text::{int_text, i64_to_text};

verus! {

pub struct StdoutExporter {
    pub name: String,
}

/// The object printed for an event: `time`, `body`, `attributes`,
/// `severity` (its name, or `null`).
pub open spec fn stdout_object(e: EventModel) -> JVal {
    let o1 = obj_insert(Seq::empty(), "time"@, JVal::Num(int_text(e.timestamp.secs as int)));
    let o2 = obj_insert(o1, "body"@, JVal::Str(spec_render_body(e.body)));
    let o3 = obj_insert(o2, "attributes"@, JVal::Obj(e.attributes));
    JVal::Obj(obj_insert(o3, "severity"@, match e.severity {
        Some((_, t)) => JVal::Str(t),
        None => JVal::Null,
    }))
}

impl StdoutExporter {
    pub fn new(name: &str) -> (r: StdoutExporter)
        ensures
            r.name@ == name@,
    {
        StdoutExporter { name: name.to_owned() }
    }

    pub fn name(&self) -> (r: &str)
        ensures
            r@ == self.name@,
    {
        self.name.as_str()
    }

    /// The line printed for an event, as compact JSON.
    pub fn line(&self, event: &Event) -> (r: String)
        ensures
            r@ == spec_json_text(stdout_object(event@)),
    {
        let mut obj: JsonMap = Vec::new();
        assert(obj_model(obj@) =~= Seq::<(Seq<char>, JVal)>::empty());
        map_insert(&mut obj, "time".to_owned(), JsonValue::Number(i64_to_text(event.timestamp.secs)));
        map_insert(&mut obj, "body".to_owned(), JsonValue::Str(event.render_body()));
        let attrs = copy_map(&event.attributes);
        let ghost am = attrs;
        proof {
            crate::json::lemma_object_view(am);
        }
        map_insert(&mut obj, "attributes".to_owned(), JsonValue::Object(attrs));
        let sev = match &event.severity {
            Some(s) => JsonValue::Str(s.text.clone()),
            None => JsonValue::Null,
        };
        map_insert(&mut obj, "severity".to_owned(), sev);
        let ghost om = obj;
        proof {
            crate::json::lemma_object_view(om);
        }
        json_text(&JsonValue::Object(obj))
    }
}

} // verus!
