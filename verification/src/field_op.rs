//! Field operators: `add`, `remove`, `copy`, and `move` (also `rename`).

use vstd::prelude::*;
use crate::json::{JsonValue, JVal};
use crate::event::{Event, EventModel};
use crate::field_ref::{FieldRef, FieldPath, spec_parse_field, model_get, model_set, model_remove, lemma_view_with_parts};
use crate::operator::OperatorError;
use crate::op_def::{def_object, req_str, req_value, prefixed, prefix_error, read_def_object, read_req_str, read_req_value};
use crate::text::{str_eq, append_str};

verus! {

pub enum FieldOpKind {
    Add { field: FieldRef, value: JsonValue },
    Remove { field: FieldRef },
    Copy { from: FieldRef, to: FieldRef },
    /// Also `rename`: take the source value, clear the source, set it at
    /// the destination.
    Move { from: FieldRef, to: FieldRef },
}

pub enum FieldOpModel {
    Add(FieldPath, JVal),
    Remove(FieldPath),
    Copy(FieldPath, FieldPath),
    Move(FieldPath, FieldPath),
}

impl View for FieldOpKind {
    type V = FieldOpModel;

    open spec fn view(&self) -> FieldOpModel {
        match self {
            FieldOpKind::Add { field, value } => FieldOpModel::Add(field@, value@),
            FieldOpKind::Remove { field } => FieldOpModel::Remove(field@),
            FieldOpKind::Copy { from, to } => FieldOpModel::Copy(from@, to@),
            FieldOpKind::Move { from, to } => FieldOpModel::Move(from@, to@),
        }
    }
}

pub struct FieldOpOperator {
    pub id: String,
    pub kind: FieldOpKind,
}

/// The step a field operator definition describes, or why it describes none.
pub open spec fn field_op_def(type_str: Seq<char>, v: JVal) -> Result<FieldOpModel, Seq<char>> {
    match def_object(v) {
        Err(e) => if type_str == "add"@ || type_str == "remove"@ || type_str == "copy"@ || type_str == "move"@
            || type_str == "rename"@ {
            Err(e)
        } else {
            Err("unknown field op type '"@ + type_str + "'"@)
        },
        Ok(o) => if type_str == "add"@ {
            match req_str(o, "field"@) {
                Err(e) => Err(e),
                Ok(f) => match req_value(o, "value"@) {
                    Err(e) => Err(e),
                    Ok(x) => Ok(FieldOpModel::Add(spec_parse_field(f), x)),
                },
            }
        } else if type_str == "remove"@ {
            match req_str(o, "field"@) {
                Err(e) => Err(e),
                Ok(f) => Ok(FieldOpModel::Remove(spec_parse_field(f))),
            }
        } else if type_str == "copy"@ || type_str == "move"@ || type_str == "rename"@ {
            match req_str(o, "from"@) {
                Err(e) => Err(e),
                Ok(from) => match req_str(o, "to"@) {
                    Err(e) => Err(e),
                    Ok(to) => if type_str == "copy"@ {
                        Ok(FieldOpModel::Copy(spec_parse_field(from), spec_parse_field(to)))
                    } else {
                        Ok(FieldOpModel::Move(spec_parse_field(from), spec_parse_field(to)))
                    },
                },
            }
        } else {
            Err("unknown field op type '"@ + type_str + "'"@)
        },
    }
}

/// What a field operator makes of an event.
pub open spec fn field_op_apply(o: FieldOpOperator, e: EventModel) -> Result<EventModel, Seq<char>> {
    match o.kind@ {
        FieldOpModel::Add(f, v) => Ok(model_set(f, e, v)),
        FieldOpModel::Remove(f) => Ok(model_remove(f, e)),
        FieldOpModel::Copy(from, to) => match model_get(from, e) {
            Some(v) => Ok(model_set(to, e, v)),
            None => Err("copy source field not present"@),
        },
        FieldOpModel::Move(from, to) => match model_get(from, e) {
            Some(v) => Ok(model_set(to, model_remove(from, e), v)),
            None => Err("move source field not present"@),
        },
    }
}

fn unknown_type_error(t: &str) -> (r: String)
    ensures
        r@ == "unknown field op type '"@ + t@ + "'"@,
{
    let mut s = String::new();
    append_str(&mut s, "unknown field op type '");
    append_str(&mut s, t);
    append_str(&mut s, "'");
    assert(s@ =~= "unknown field op type '"@ + t@ + "'"@);
    s
}

fn read_kind(type_str: &str, value: &JsonValue) -> (r: Result<FieldOpKind, String>)
    ensures
        match field_op_def(type_str@, value@) {
            Ok(k) => r matches Ok(x) && x@ == k,
            Err(e) => r matches Err(x) && x@ == e,
        },
{
    let is_add = str_eq(type_str, "add");
    let is_remove = str_eq(type_str, "remove");
    let is_copy = str_eq(type_str, "copy");
    let is_move = str_eq(type_str, "move") || str_eq(type_str, "rename");
    if !(is_add || is_remove || is_copy || is_move) {
        return Err(unknown_type_error(type_str));
    }
    let o = read_def_object(value)?;
    if is_add {
        let f = read_req_str(o, "field")?;
        let x = read_req_value(o, "value")?;
        Ok(FieldOpKind::Add { field: FieldRef::parse(f.as_str()), value: x })
    } else if is_remove {
        let f = read_req_str(o, "field")?;
        Ok(FieldOpKind::Remove { field: FieldRef::parse(f.as_str()) })
    } else {
        let from = read_req_str(o, "from")?;
        let to = read_req_str(o, "to")?;
        if is_copy {
            Ok(FieldOpKind::Copy { from: FieldRef::parse(from.as_str()), to: FieldRef::parse(to.as_str()) })
        } else {
            Ok(FieldOpKind::Move { from: FieldRef::parse(from.as_str()), to: FieldRef::parse(to.as_str()) })
        }
    }
}

impl FieldOpOperator {
    /// Builds the operator of type `type_str` from its definition; errors
    /// are prefixed with the operator's id.
    pub fn from_value(id: &str, type_str: &str, value: &JsonValue) -> (r: Result<FieldOpOperator, String>)
        ensures
            match field_op_def(type_str@, value@) {
                Ok(k) => r matches Ok(op) && op.id@ == id@ && op.kind@ == k,
                Err(e) => r matches Err(x) && x@ == prefixed(id@, e),
            },
    {
        match read_kind(type_str, value) {
            Ok(kind) => Ok(FieldOpOperator { id: id.to_owned(), kind }),
            Err(e) => Err(prefix_error(id, e.as_str())),
        }
    }

    pub fn id(&self) -> (r: &str)
        ensures
            r@ == self.id@,
    {
        self.id.as_str()
    }

    fn fail(&self, event: Event, msg: &str) -> (r: Result<Event, (Event, OperatorError)>)
        ensures
            r matches Err((e, err)) && e == event && err.operator_id@ == self.id@ && err.message@ == msg@,
    {
        Err((event, OperatorError { operator_id: self.id.clone(), message: msg.to_owned() }))
    }

    pub fn process(&self, event: Event) -> (r: Result<Event, (Event, OperatorError)>)
        ensures
            crate::operator::process_matches(self.id@, event@, r, field_op_apply(*self, event@)),
    {
        let mut event = event;
        let ghost e0 = event;
        match &self.kind {
            FieldOpKind::Add { field, value } => {
                field.set(&mut event, value.deep_copy());
                proof { lemma_view_with_parts(e0, event); }
                Ok(event)
            },
            FieldOpKind::Remove { field } => {
                field.remove(&mut event);
                proof { lemma_view_with_parts(e0, event); }
                Ok(event)
            },
            FieldOpKind::Copy { from, to } => {
                let got = match from.get(&event) {
                    Some(v) => Some(v.deep_copy()),
                    None => None,
                };
                match got {
                    Some(v) => {
                        to.set(&mut event, v);
                        proof { lemma_view_with_parts(e0, event); }
                        Ok(event)
                    },
                    None => self.fail(event, "copy source field not present"),
                }
            },
            FieldOpKind::Move { from, to } => {
                let got = match from.get(&event) {
                    Some(v) => Some(v.deep_copy()),
                    None => None,
                };
                match got {
                    Some(v) => {
                        from.remove(&mut event);
                        let ghost e1 = event;
                        proof { lemma_view_with_parts(e0, e1); }
                        to.set(&mut event, v);
                        proof { lemma_view_with_parts(e1, event); }
                        Ok(event)
                    },
                    None => self.fail(event, "move source field not present"),
                }
            },
        }
    }
}

} // verus!
