//! What the local status endpoint serves of the resolved config: every
//! value under a secret-looking key is replaced by a marker, at any
//! depth.
//!
//! Keys are matched by name, not by whether the value came from a
//! `${VAR}` reference: by the time the config is served, expansion has
//! happened, and a token written literally is caught too.

use vstd::prelude::*;
use crate::json::{JsonValue, JVal, lemma_object_view, lemma_array_view, obj_model, arr_model};
use crate::text::str_eq;

verus! {

/// What `str::to_lowercase` gives for a text.
pub uninterp spec fn spec_to_lowercase(s: Seq<char>) -> Seq<char>;

/// A character lowered the ASCII way: `A`..`Z` become `a`..`z`.
pub open spec fn ascii_lower(c: char) -> char {
    if 'A' <= c && c <= 'Z' {
        ((c as u32) + 32) as char
    } else {
        c
    }
}

/// `str::to_lowercase`; the contract claims the result `spec_to_lowercase`
/// names for the text, and, for an ASCII text, what the documentation of
/// `char::to_lowercase` gives there: each ASCII capital becomes its small
/// letter, every other character stays.
#[verifier::external_body]
fn lowercase(s: &str) -> (r: String)
    ensures
        r@ == spec_to_lowercase(s@),
        (forall|i: int| 0 <= i < s@.len() ==> (s@[i] as u32) < 128) ==> r@ == Seq::new(s@.len(), |i: int| ascii_lower(s@[i])),
{
    s.to_lowercase()
}

/// Keys whose values are never served, compared lowercased.
pub open spec fn sensitive(k: Seq<char>) -> bool {
    let l = spec_to_lowercase(k);
    l == "token"@ || l == "password"@ || l == "secret"@ || l == "api_key"@ || l == "apikey"@
}

/// The marker a secret is replaced with.
pub open spec fn marker() -> JVal {
    JVal::Str("***redacted***"@)
}

/// A value with every member under a sensitive key replaced by the
/// marker, in objects at any depth, arrays included.
pub open spec fn redacted(v: JVal) -> JVal
    decreases v,
{
    match v {
        JVal::Obj(o) => JVal::Obj(
            Seq::new(
                o.len(),
                |i: int|
                    if 0 <= i < o.len() {
                        if sensitive(o[i].0) {
                            (o[i].0, marker())
                        } else {
                            (o[i].0, redacted(o[i].1))
                        }
                    } else {
                        (Seq::empty(), JVal::Null)
                    },
            ),
        ),
        JVal::Arr(a) => JVal::Arr(Seq::new(a.len(), |i: int| if 0 <= i < a.len() { redacted(a[i]) } else { JVal::Null })),
        other => other,
    }
}

/// No member under a sensitive key holds anything but the marker, at any
/// depth.
pub open spec fn no_secret(v: JVal) -> bool
    decreases v,
{
    match v {
        JVal::Obj(o) => forall|i: int|
            0 <= i < o.len() ==> if sensitive(#[trigger] o[i].0) {
                o[i].1 == marker()
            } else {
                no_secret(o[i].1)
            },
        JVal::Arr(a) => forall|i: int| 0 <= i < a.len() ==> no_secret(#[trigger] a[i]),
        _ => true,
    }
}

/// Whether a key is one whose value is never served.
fn is_sensitive(k: &str) -> (r: bool)
    ensures
        r == sensitive(k@),
{
    let l = lowercase(k);
    let t = l.as_str();
    str_eq(t, "token") || str_eq(t, "password") || str_eq(t, "secret") || str_eq(t, "api_key") || str_eq(t, "apikey")
}

/// The value with its secrets replaced by the marker.
#[verifier::loop_isolation(false)]
pub fn redacted_value(value: &JsonValue) -> (r: JsonValue)
    ensures
        r@ == redacted(value@),
    decreases value,
{
    match value {
        JsonValue::Object(m) => {
            let mut out: Vec<(String, JsonValue)> = Vec::new();
            let mut i: usize = 0;
            while i < m.len()
                invariant
                    i <= m@.len(),
                    out@.len() == i,
                    forall|j: int|
                        0 <= j < i ==> (#[trigger] out@[j]).0@ == m@[j].0@ && out@[j].1@ == (if sensitive(m@[j].0@) {
                            marker()
                        } else {
                            redacted(m@[j].1@)
                        }),
                decreases m@.len() - i,
            {
                proof {
                    assert(decreases_to!(*value => (*value)->Object_0));
                    assert(decreases_to!((*value)->Object_0 => (*value)->Object_0@));
                    assert(decreases_to!((*value)->Object_0@ => (*value)->Object_0@[i as int]));
                }
                let v = if is_sensitive(m[i].0.as_str()) {
                    JsonValue::Str("***redacted***".to_owned())
                } else {
                    redacted_value(&m[i].1)
                };
                out.push((m[i].0.clone(), v));
                i = i + 1;
            }
            let ghost ov = out;
            proof {
                lemma_object_view(*m);
                lemma_object_view(ov);
                assert(obj_model(out@) =~= redacted(value@)->Obj_0);
            }
            JsonValue::Object(out)
        },
        JsonValue::Array(a) => {
            let mut out: Vec<JsonValue> = Vec::new();
            let mut i: usize = 0;
            while i < a.len()
                invariant
                    i <= a@.len(),
                    out@.len() == i,
                    forall|j: int| 0 <= j < i ==> (#[trigger] out@[j])@ == redacted(a@[j]@),
                decreases a@.len() - i,
            {
                proof {
                    assert(decreases_to!(*value => (*value)->Array_0));
                    assert(decreases_to!((*value)->Array_0 => (*value)->Array_0@));
                    assert(decreases_to!((*value)->Array_0@ => (*value)->Array_0@[i as int]));
                }
                let c = redacted_value(&a[i]);
                out.push(c);
                i = i + 1;
            }
            let ghost ov = out;
            proof {
                lemma_array_view(*a);
                lemma_array_view(ov);
                assert(arr_model(out@) =~= redacted(value@)->Arr_0);
            }
            JsonValue::Array(out)
        },
        other => other.deep_copy(),
    }
}

/// Replaces every secret in a value by the marker.
pub fn redact(value: &mut JsonValue)
    ensures
        final(value)@ == redacted(old(value)@),
{
    let r = redacted_value(value);
    *value = r;
}

/// Law: after redaction no secret is left, at any depth.
pub proof fn law_redacted_has_no_secret(v: JVal)
    ensures
        no_secret(redacted(v)),
    decreases v,
{
    match v {
        JVal::Obj(o) => {
            let r = redacted(v)->Obj_0;
            assert forall|i: int| 0 <= i < r.len() implies if sensitive(#[trigger] r[i].0) {
                r[i].1 == marker()
            } else {
                no_secret(r[i].1)
            } by {
                if !sensitive(o[i].0) {
                    assert(decreases_to!(v => o[i].1));
                    law_redacted_has_no_secret(o[i].1);
                }
            }
        },
        JVal::Arr(a) => {
            let r = redacted(v)->Arr_0;
            assert forall|i: int| 0 <= i < r.len() implies no_secret(#[trigger] r[i]) by {
                assert(decreases_to!(v => a[i]));
                law_redacted_has_no_secret(a[i]);
            }
        },
        _ => {},
    }
}

/// Law: redacting twice is redacting once.
pub proof fn law_redact_idempotent(v: JVal)
    ensures
        redacted(redacted(v)) == redacted(v),
    decreases v,
{
    match v {
        JVal::Obj(o) => {
            let r = redacted(v)->Obj_0;
            let rr = redacted(redacted(v))->Obj_0;
            assert forall|i: int| 0 <= i < r.len() implies #[trigger] rr[i] == r[i] by {
                if !sensitive(o[i].0) {
                    assert(decreases_to!(v => o[i].1));
                    law_redact_idempotent(o[i].1);
                }
            }
            assert(rr =~= r);
        },
        JVal::Arr(a) => {
            let r = redacted(v)->Arr_0;
            let rr = redacted(redacted(v))->Arr_0;
            assert forall|i: int| 0 <= i < r.len() implies #[trigger] rr[i] == r[i] by {
                assert(decreases_to!(v => a[i]));
                law_redact_idempotent(a[i]);
            }
            assert(rr =~= r);
        },
        _ => {},
    }
}

} // verus!
