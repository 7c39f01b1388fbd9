//! The `regex` operator: matches a field against a pattern and merges the
//! named captures into a target field.

use vstd::prelude::*;
use crate::json::{JsonValue, JsonMap, JVal, JObj, obj_model, map_insert, spec_json_text, json_text};
use crate::event::{Event, EventModel};
use crate::field_ref::{FieldRef, FieldPath, spec_parse_field, obj_extend, model_get, model_set, lemma_view_with_parts};
use crate::operator::OperatorError;
use crate::op_def::{def_object, req_str, prefixed, prefix_error, read_def_object, read_req_str};
use crate::text::append_str;

verus! {

/// What `regex::Regex::new` says of a pattern: `None` when it compiles,
/// else the error's message.
pub uninterp spec fn spec_regex_error(pattern: Seq<char>) -> Option<Seq<char>>;

/// What `Regex::captures` finds for a compiled pattern in a text: `None`
/// when there is no match, else for every group in order its name (if
/// named) and the text it matched (if it took part).
pub uninterp spec fn spec_regex_captures(pattern: Seq<char>, input: Seq<char>)
    -> Option<Seq<(Option<Seq<char>>, Option<Seq<char>>)>>;

/// Compiles `pattern` with `regex::Regex::new`; the result is the error's
/// message, if any, as `spec_regex_error` names it.
#[verifier::external_body]
fn regex_check(pattern: &str) -> (r: Option<String>)
    ensures
        match spec_regex_error(pattern@) {
            None => r is None,
            Some(m) => r matches Some(x) && x@ == m,
        },
{
    regex::Regex::new(pattern).err().map(|e| e.to_string())
}

/// Compiles `pattern` and runs `Regex::captures` on `input`, listing every
/// group (`Regex::capture_names`) with what it matched (`Captures::get`).
/// The contract claims only that the outcome is the one the two names give.
#[verifier::external_body]
fn regex_captures(pattern: &str, input: &str) -> (r: Result<Option<Vec<(Option<String>, Option<String>)>>, String>)
    ensures
        match spec_regex_error(pattern@) {
            Some(m) => r matches Err(x) && x@ == m,
            None => r matches Ok(c) && match spec_regex_captures(pattern@, input@) {
                None => c is None,
                Some(g) => c matches Some(v) && v@.len() == g.len() && forall|i: int| 0 <= i < g.len()
                    ==> opt_view((#[trigger] v@[i]).0) == g[i].0 && opt_view(v@[i].1) == g[i].1,
            },
        },
{
    let re = regex::Regex::new(pattern).map_err(|e| e.to_string())?;
    Ok(re.captures(input).map(|caps| {
        re.capture_names().enumerate().map(|(i, n)| (n.map(|x| x.to_string()), caps.get(i).map(|m| m.as_str().to_string()))).collect()
    }))
}

/// A text that may be absent, by its view.
pub open spec fn opt_view(o: Option<String>) -> Option<Seq<char>> {
    match o {
        Some(s) => Some(s@),
        None => None,
    }
}

/// The named groups that took part in a match, as string entries.
pub open spec fn capture_pairs(g: Seq<(Option<Seq<char>>, Option<Seq<char>>)>) -> JObj
    decreases g.len(),
{
    if g.len() == 0 {
        Seq::empty()
    } else {
        let head: JObj = match g[0] {
            (Some(n), Some(v)) => seq![(n, JVal::Str(v))],
            _ => Seq::empty(),
        };
        head + capture_pairs(g.drop_first())
    }
}

pub struct RegexOperator {
    pub id: String,
    pub pattern: String,
    pub parse_from: FieldRef,
    pub parse_to: FieldRef,
}

/// What a `regex` definition describes: pattern, source and target.
pub open spec fn regex_def(v: JVal) -> Result<(Seq<char>, FieldPath, FieldPath), Seq<char>> {
    match def_object(v) {
        Err(e) => Err(e),
        Ok(o) => match req_str(o, "pattern"@) {
            Err(e) => Err(e),
            Ok(p) => match req_str(o, "parse_from"@) {
                Err(e) => Err(e),
                Ok(f) => match req_str(o, "parse_to"@) {
                    Err(e) => Err(e),
                    Ok(t) => match spec_regex_error(p) {
                        Some(m) => Err("invalid regex pattern: "@ + m),
                        None => Ok((p, spec_parse_field(f), spec_parse_field(t))),
                    },
                },
            },
        },
    }
}

/// The text a regex runs on: a string as is, anything else as compact JSON.
pub open spec fn regex_input(f: FieldPath, e: EventModel) -> Option<Seq<char>> {
    match model_get(f, e) {
        Some(JVal::Str(s)) => Some(s),
        Some(other) => Some(spec_json_text(other)),
        None => None,
    }
}

pub open spec fn regex_apply(o: RegexOperator, e: EventModel) -> Result<EventModel, Seq<char>> {
    match regex_input(o.parse_from@, e) {
        None => Err("parse_from field not present"@),
        Some(s) => match spec_regex_error(o.pattern@) {
            Some(m) => Err("invalid regex pattern: "@ + m),
            None => match spec_regex_captures(o.pattern@, s) {
                None => Err("pattern did not match"@),
                Some(g) => Ok(model_set(o.parse_to@, e, JVal::Obj(obj_extend(Seq::empty(), capture_pairs(g))))),
            },
        },
    }
}

fn invalid_pattern(m: &str) -> (r: String)
    ensures
        r@ == "invalid regex pattern: "@ + m@,
{
    let mut s = String::new();
    append_str(&mut s, "invalid regex pattern: ");
    append_str(&mut s, m);
    assert(s@ =~= "invalid regex pattern: "@ + m@);
    s
}

proof fn lemma_capture_pairs_skip(g: Seq<(Option<Seq<char>>, Option<Seq<char>>)>, i: int)
    requires
        0 <= i < g.len(),
    ensures
        capture_pairs(g.skip(i)) == (match g[i] {
            (Some(n), Some(v)) => seq![(n, JVal::Str(v))],
            _ => Seq::<(Seq<char>, JVal)>::empty(),
        }) + capture_pairs(g.skip(i + 1)),
{
    assert(g.skip(i).drop_first() =~= g.skip(i + 1));
}

/// The named captures that took part, inserted in group order.
fn captures_map(c: &Vec<(Option<String>, Option<String>)>, Ghost(g): Ghost<Seq<(Option<Seq<char>>, Option<Seq<char>>)>>) -> (r: JsonMap)
    requires
        c@.len() == g.len(),
        forall|i: int| 0 <= i < g.len() ==> opt_view((#[trigger] c@[i]).0) == g[i].0 && opt_view(c@[i].1) == g[i].1,
    ensures
        obj_model(r@) == obj_extend(Seq::empty(), capture_pairs(g)),
{
    let mut out: JsonMap = Vec::new();
    let mut i: usize = 0;
    assert(g.skip(0) =~= g);
    assert(obj_model(out@) =~= Seq::<(Seq<char>, JVal)>::empty());
    while i < c.len()
        invariant
            i <= c@.len() == g.len(),
            forall|j: int| 0 <= j < g.len() ==> opt_view((#[trigger] c@[j]).0) == g[j].0 && opt_view(c@[j].1) == g[j].1,
            obj_extend(Seq::empty(), capture_pairs(g)) == obj_extend(obj_model(out@), capture_pairs(g.skip(i as int))),
        decreases c@.len() - i,
    {
        proof {
            lemma_capture_pairs_skip(g, i as int);
        }
        let ghost rest = capture_pairs(g.skip(i + 1));
        match (&c[i].0, &c[i].1) {
            (Some(n), Some(v)) => {
                let ghost head = seq![(n@, JVal::Str(v@))];
                assert((head + rest).drop_first() =~= rest);
                map_insert(&mut out, n.clone(), JsonValue::Str(v.clone()));
            },
            _ => {
                assert(Seq::<(Seq<char>, JVal)>::empty() + rest =~= rest);
            },
        }
        i = i + 1;
    }
    assert(capture_pairs(g.skip(i as int)) =~= Seq::<(Seq<char>, JVal)>::empty()) by {
        assert(g.skip(i as int).len() == 0);
    }
    out
}

fn read_regex_def(value: &JsonValue) -> (r: Result<(String, FieldRef, FieldRef), String>)
    ensures
        match regex_def(value@) {
            Ok((p, f, t)) => r matches Ok((x, y, z)) && x@ == p && y@ == f && z@ == t,
            Err(e) => r matches Err(x) && x@ == e,
        },
{
    let o = read_def_object(value)?;
    let p = read_req_str(o, "pattern")?;
    let f = read_req_str(o, "parse_from")?;
    let t = read_req_str(o, "parse_to")?;
    match regex_check(p.as_str()) {
        Some(m) => Err(invalid_pattern(m.as_str())),
        None => Ok((p, FieldRef::parse(f.as_str()), FieldRef::parse(t.as_str()))),
    }
}

impl RegexOperator {
    pub fn from_value(id: &str, value: &JsonValue) -> (r: Result<RegexOperator, String>)
        ensures
            match regex_def(value@) {
                Ok((p, f, t)) => r matches Ok(op) && op.id@ == id@ && op.pattern@ == p && op.parse_from@ == f
                    && op.parse_to@ == t,
                Err(e) => r matches Err(x) && x@ == prefixed(id@, e),
            },
    {
        match read_regex_def(value) {
            Ok((p, f, t)) => Ok(RegexOperator { id: id.to_owned(), pattern: p, parse_from: f, parse_to: t }),
            Err(e) => Err(prefix_error(id, e.as_str())),
        }
    }

    pub fn id(&self) -> (r: &str)
        ensures
            r@ == self.id@,
    {
        self.id.as_str()
    }

    pub fn process(&self, event: Event) -> (r: Result<Event, (Event, OperatorError)>)
        ensures
            crate::operator::process_matches(self.id@, event@, r, regex_apply(*self, event@)),
    {
        let mut event = event;
        let ghost e0 = event;
        let input = match self.parse_from.get(&event) {
            Some(JsonValue::Str(s)) => s.clone(),
            Some(other) => json_text(other),
            None => {
                return Err((event, OperatorError { operator_id: self.id.clone(), message: "parse_from field not present".to_owned() }));
            },
        };
        let found = match regex_captures(self.pattern.as_str(), input.as_str()) {
            Err(m) => {
                return Err((event, OperatorError { operator_id: self.id.clone(), message: invalid_pattern(m.as_str()) }));
            },
            Ok(f) => f,
        };
        let caps = match found {
            None => {
                return Err((event, OperatorError { operator_id: self.id.clone(), message: "pattern did not match".to_owned() }));
            },
            Some(c) => c,
        };
        let ghost g = spec_regex_captures(self.pattern@, input@).unwrap();
        let extracted = captures_map(&caps, Ghost(g));
        let ghost exv = extracted;
        proof {
            crate::json::lemma_object_view(exv);
        }
        self.parse_to.merge(&mut event, JsonValue::Object(extracted));
        proof { lemma_view_with_parts(e0, event); }
        Ok(event)
    }
}

} // verus!
