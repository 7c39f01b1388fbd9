//! Building operators and chains from their config definitions.

use vstd::prelude::*;
use crate::json::{JsonValue, JsonMap, JVal, JObj, obj_model, lookup, map_get};
use crate::operator::{Operator, OnError, OperatorChain};
use crate::op_def::prefixed;
use crate::field_op::{FieldOpOperator, field_op_def};
use crate::json_op::{JsonOperator, from_to_def};
use crate::kv_op::{KvOperator, kv_def};
use crate::regex_op::{RegexOperator, regex_def};
use crate::severity_op::{SeverityOperator, severity_def};
use crate::timestamp_op::{TimestampOperator, timestamp_def};
use crate::text::{str_eq, append_str};

verus! {

/// Why an operator or chain could not be built.
#[derive(Debug)]
pub enum BuildError {
    /// The operator's definition has no string `type`.
    MissingType(String),
    /// The operator's `type` is not one this crate knows.
    UnknownType(String, String),
    /// The definition of the named operator is invalid.
    Invalid(String, String),
    /// A pipeline names an operator that has no definition.
    UnknownOperatorRef(String),
}

impl BuildError {
    /// The error's message.
    pub fn to_text(&self) -> (r: String)
        ensures
            r@ == build_error_text(*self),
    {
        let mut s = String::new();
        match self {
            BuildError::MissingType(n) => {
                append_str(&mut s, "operator '");
                append_str(&mut s, n.as_str());
                append_str(&mut s, "' has no 'type' field");
            },
            BuildError::UnknownType(n, t) => {
                append_str(&mut s, "operator '");
                append_str(&mut s, n.as_str());
                append_str(&mut s, "' has unknown type '");
                append_str(&mut s, t.as_str());
                append_str(&mut s, "'");
            },
            BuildError::Invalid(n, m) => {
                append_str(&mut s, "operator '");
                append_str(&mut s, n.as_str());
                append_str(&mut s, "': ");
                append_str(&mut s, m.as_str());
            },
            BuildError::UnknownOperatorRef(n) => {
                append_str(&mut s, "pipeline references unknown operator '");
                append_str(&mut s, n.as_str());
                append_str(&mut s, "'");
            },
        }
        assert(s@ =~= build_error_text(*self));
        s
    }
}

pub open spec fn build_error_text(e: BuildError) -> Seq<char> {
    match e {
        BuildError::MissingType(n) => "operator '"@ + n@ + "' has no 'type' field"@,
        BuildError::UnknownType(n, t) => "operator '"@ + n@ + "' has unknown type '"@ + t@ + "'"@,
        BuildError::Invalid(n, m) => "operator '"@ + n@ + "': "@ + m@,
        BuildError::UnknownOperatorRef(n) => "pipeline references unknown operator '"@ + n@ + "'"@,
    }
}

/// A string member of a definition (`Value::get` then `as_str`).
pub open spec fn def_str(v: JVal, key: Seq<char>) -> Option<Seq<char>> {
    match v {
        JVal::Obj(o) => match lookup(o, key) {
            Some(JVal::Str(s)) => Some(s),
            _ => None,
        },
        _ => None,
    }
}

/// The error policy a definition asks for: `drop`, `dead_letter`, or by
/// default `pass`.
pub open spec fn spec_on_error(v: JVal) -> OnError {
    match def_str(v, "on_error"@) {
        Some(s) => if s == "drop"@ {
            OnError::Drop
        } else if s == "dead_letter"@ {
            OnError::DeadLetter
        } else {
            OnError::Pass
        },
        None => OnError::Pass,
    }
}

pub open spec fn is_field_op_type(t: Seq<char>) -> bool {
    t == "add"@ || t == "remove"@ || t == "copy"@ || t == "move"@ || t == "rename"@
}

/// Why a definition builds no operator.
pub enum BuildFailure {
    MissingType,
    UnknownType(Seq<char>),
    Invalid(Seq<char>),
}

/// The error a known operator type reports for a definition, if any.
pub open spec fn def_error(t: Seq<char>, v: JVal) -> Option<Seq<char>> {
    if t == "regex"@ {
        match regex_def(v) { Err(e) => Some(e), Ok(_) => None }
    } else if t == "json"@ {
        match from_to_def(v) { Err(e) => Some(e), Ok(_) => None }
    } else if t == "kv"@ {
        match kv_def(v) { Err(e) => Some(e), Ok(_) => None }
    } else if t == "severity"@ {
        match severity_def(v) { Err(e) => Some(e), Ok(_) => None }
    } else if t == "timestamp"@ {
        match timestamp_def(v) { Err(e) => Some(e), Ok(_) => None }
    } else {
        match field_op_def(t, v) { Err(e) => Some(e), Ok(_) => None }
    }
}

/// Whether the named definition builds, and if not, why.
pub open spec fn spec_build_one(name: Seq<char>, v: JVal) -> Result<Seq<char>, BuildFailure> {
    match def_str(v, "type"@) {
        None => Err(BuildFailure::MissingType),
        Some(t) => if !(t == "regex"@ || t == "json"@ || t == "kv"@ || t == "severity"@ || t == "timestamp"@
            || is_field_op_type(t)) {
            Err(BuildFailure::UnknownType(t))
        } else {
            match def_error(t, v) {
                Some(e) => Err(BuildFailure::Invalid(prefixed(name, e))),
                None => Ok(t),
            }
        },
    }
}

/// The operator is the one the named definition of type `t` describes.
pub open spec fn op_from_def(op: Operator, name: Seq<char>, t: Seq<char>, v: JVal) -> bool {
    if t == "regex"@ {
        op matches Operator::Regex(o) && regex_def(v) matches Ok((p, f, to)) && o.id@ == name && o.pattern@ == p
            && o.parse_from@ == f && o.parse_to@ == to
    } else if t == "json"@ {
        op matches Operator::Json(o) && from_to_def(v) matches Ok((f, to)) && o.id@ == name && o.parse_from@ == f
            && o.parse_to@ == to
    } else if t == "kv"@ {
        op matches Operator::Kv(o) && kv_def(v) matches Ok((f, to, p, k)) && o.id@ == name && o.parse_from@ == f
            && o.parse_to@ == to && o.pair_delimiter == p && o.kv_delimiter == k
    } else if t == "severity"@ {
        op matches Operator::Severity(o) && severity_def(v) matches Ok((f, p)) && o.id@ == name && o.parse_from@ == f
            && o.preset@ == p
    } else if t == "timestamp"@ {
        op matches Operator::Timestamp(o) && timestamp_def(v) matches Ok((f, l)) && o.id@ == name
            && o.parse_from@ == f && o.layout@ == l
    } else {
        op matches Operator::FieldOp(o) && field_op_def(t, v) matches Ok(k) && o.id@ == name && o.kind@ == k
    }
}

/// The build error that reports a failure for the named definition.
pub open spec fn failure_error(name: Seq<char>, f: BuildFailure, e: BuildError) -> bool {
    match f {
        BuildFailure::MissingType => e matches BuildError::MissingType(n) && n@ == name,
        BuildFailure::UnknownType(t) => e matches BuildError::UnknownType(n, tt) && n@ == name && tt@ == t,
        BuildFailure::Invalid(m) => e matches BuildError::Invalid(n, mm) && n@ == name && mm@ == m,
    }
}

fn def_str_exec<'a>(v: &'a JsonValue, key: &str) -> (r: Option<&'a str>)
    ensures
        match def_str(v@, key@) {
            Some(s) => r matches Some(x) && x@ == s,
            None => r is None,
        },
{
    match v.get(key) {
        Some(x) => x.as_str(),
        None => None,
    }
}

/// The error policy of a definition.
pub fn parse_on_error(value: &JsonValue) -> (r: OnError)
    ensures
        r == spec_on_error(value@),
{
    match def_str_exec(value, "on_error") {
        Some(s) => if str_eq(s, "drop") {
            OnError::Drop
        } else if str_eq(s, "dead_letter") {
            OnError::DeadLetter
        } else {
            OnError::Pass
        },
        None => OnError::Pass,
    }
}

/// Builds one named operator from its definition, with its error policy.
pub fn build_one(name: &str, value: &JsonValue) -> (r: Result<(Operator, OnError), BuildError>)
    ensures
        r is Ok <==> spec_build_one(name@, value@) is Ok,
        r matches Ok((op, oe)) ==> spec_build_one(name@, value@) matches Ok(t) && op_from_def(op, name@, t, value@)
            && oe == spec_on_error(value@),
        r matches Err(e) ==> spec_build_one(name@, value@) matches Err(f) && failure_error(name@, f, e),
{
    let t = match def_str_exec(value, "type") {
        Some(t) => t,
        None => { return Err(BuildError::MissingType(name.to_owned())); },
    };
    let on_error = parse_on_error(value);
    let op = if str_eq(t, "regex") {
        match RegexOperator::from_value(name, value) {
            Ok(o) => Operator::Regex(o),
            Err(e) => { return Err(BuildError::Invalid(name.to_owned(), e)); },
        }
    } else if str_eq(t, "json") {
        match JsonOperator::from_value(name, value) {
            Ok(o) => Operator::Json(o),
            Err(e) => { return Err(BuildError::Invalid(name.to_owned(), e)); },
        }
    } else if str_eq(t, "kv") {
        match KvOperator::from_value(name, value) {
            Ok(o) => Operator::Kv(o),
            Err(e) => { return Err(BuildError::Invalid(name.to_owned(), e)); },
        }
    } else if str_eq(t, "severity") {
        match SeverityOperator::from_value(name, value) {
            Ok(o) => Operator::Severity(o),
            Err(e) => { return Err(BuildError::Invalid(name.to_owned(), e)); },
        }
    } else if str_eq(t, "timestamp") {
        match TimestampOperator::from_value(name, value) {
            Ok(o) => Operator::Timestamp(o),
            Err(e) => { return Err(BuildError::Invalid(name.to_owned(), e)); },
        }
    } else if str_eq(t, "add") || str_eq(t, "remove") || str_eq(t, "copy") || str_eq(t, "move") || str_eq(t, "rename") {
        match FieldOpOperator::from_value(name, t, value) {
            Ok(o) => Operator::FieldOp(o),
            Err(e) => { return Err(BuildError::Invalid(name.to_owned(), e)); },
        }
    } else {
        return Err(BuildError::UnknownType(name.to_owned(), t.to_owned()));
    };
    Ok((op, on_error))
}

/// The step is what the named definition describes.
pub open spec fn step_from_def(step: (Operator, OnError), defs: JObj, name: Seq<char>) -> bool {
    &&& lookup(defs, name) matches Some(v)
    &&& spec_build_one(name, v) matches Ok(t)
    &&& op_from_def(step.0, name, t, v)
    &&& step.1 == spec_on_error(v)
}

/// Every name has a definition that builds, and the steps are the
/// operators those definitions describe, in order.
pub open spec fn chain_from_defs(steps: Seq<(Operator, OnError)>, defs: JObj, names: Seq<Seq<char>>) -> bool {
    &&& steps.len() == names.len()
    &&& forall|i: int| 0 <= i < names.len() ==> step_from_def(#[trigger] steps[i], defs, names[i])
}

/// The name at `i` has a definition that builds.
pub open spec fn name_builds(defs: JObj, name: Seq<char>) -> bool {
    lookup(defs, name) matches Some(v) && spec_build_one(name, v) is Ok
}

/// The error reported for the first name that fails.
pub open spec fn name_error(defs: JObj, name: Seq<char>, e: BuildError) -> bool {
    match lookup(defs, name) {
        None => e matches BuildError::UnknownOperatorRef(n) && n@ == name,
        Some(v) => spec_build_one(name, v) matches Err(f) && failure_error(name, f, e),
    }
}

/// Builds the chain for a pipeline's ordered operator names, each
/// resolved in the config's operator definitions.
pub fn build_chain(operator_defs: &JsonMap, chain_names: &[String]) -> (r: Result<OperatorChain, BuildError>)
    ensures
        r is Ok <==> forall|i: int| 0 <= i < chain_names@.len() ==> name_builds(obj_model(operator_defs@), #[trigger] chain_names@[i]@),
        r matches Ok(c) ==> chain_from_defs(c@, obj_model(operator_defs@), Seq::new(chain_names@.len(), |i: int| chain_names@[i]@)),
        r matches Err(e) ==> exists|i: int| 0 <= i < chain_names@.len()
            && (forall|j: int| 0 <= j < i ==> name_builds(obj_model(operator_defs@), #[trigger] chain_names@[j]@))
            && name_error(obj_model(operator_defs@), #[trigger] chain_names@[i]@, e),
{
    let ghost defs = obj_model(operator_defs@);
    let ghost names = Seq::new(chain_names@.len(), |i: int| chain_names@[i]@);
    let mut steps: Vec<(Operator, OnError)> = Vec::new();
    let mut i: usize = 0;
    while i < chain_names.len()
        invariant
            i <= chain_names@.len(),
            defs == obj_model(operator_defs@),
            names == Seq::new(chain_names@.len(), |i: int| chain_names@[i]@),
            steps@.len() == i,
            forall|j: int| 0 <= j < i ==> name_builds(defs, #[trigger] chain_names@[j]@),
            forall|j: int| 0 <= j < i ==> step_from_def(#[trigger] steps@[j], defs, names[j]),
        decreases chain_names@.len() - i,
    {
        let name = &chain_names[i];
        assert(names[i as int] == name@);
        let def = match map_get(operator_defs, name.as_str()) {
            Some(d) => d,
            None => {
                return Err(BuildError::UnknownOperatorRef(name.clone()));
            },
        };
        match build_one(name.as_str(), def) {
            Ok(step) => {
                steps.push(step);
            },
            Err(e) => {
                return Err(e);
            },
        }
        i = i + 1;
    }
    Ok(OperatorChain::new(steps))
}

} // verus!
