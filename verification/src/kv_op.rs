//! The `kv` operator: extracts `key=value key2="v v"` pairs from a string
//! field and merges them into a target field.

use vstd::prelude::*;
use crate::json::{JsonValue, JsonMap, JVal, JObj, obj_model, map_insert};
use crate::event::{Event, EventModel};
use crate::field_ref::{FieldRef, FieldPath, spec_parse_field, obj_extend, model_set, lemma_view_with_parts};
use crate::operator::OperatorError;
use crate::op_def::{def_object, req_str, opt_str, prefixed, prefix_error, read_def_object, read_req_str, read_opt_str};
use crate::json_op::{string_input, read_string_input};
use crate::text::{chars_of, push_char, append_str};

verus! {

/// The default separator between pairs.
pub fn default_pair_delimiter() -> (r: String)
    ensures
        r@ == " "@,
{
    " ".to_owned()
}

/// The default separator between a key and its value.
pub fn default_kv_delimiter() -> (r: String)
    ensures
        r@ == "="@,
{
    "=".to_owned()
}

/// First position at or after `i` holding `c`, or the end.
pub open spec fn scan_until(s: Seq<char>, i: int, c: char) -> int
    decreases s.len() - i,
{
    if i >= s.len() || s[i] == c {
        i
    } else {
        scan_until(s, i + 1, c)
    }
}

/// First position at or after `i` holding `a` or `b`, or the end.
pub open spec fn scan_until2(s: Seq<char>, i: int, a: char, b: char) -> int
    decreases s.len() - i,
{
    if i >= s.len() || s[i] == a || s[i] == b {
        i
    } else {
        scan_until2(s, i + 1, a, b)
    }
}

/// A quoted value read from just after its opening quote at `i`: a
/// backslash takes the next character verbatim; the value ends at the
/// closing quote (which is consumed) or at the end of the text. Gives the
/// value and the position after it.
pub open spec fn quoted_from(s: Seq<char>, i: int) -> (Seq<char>, int)
    decreases s.len() - i,
{
    if i >= s.len() {
        (Seq::empty(), i)
    } else if s[i] == '"' {
        (Seq::empty(), i + 1)
    } else if s[i] == '\\' && i + 1 < s.len() {
        let (v, e) = quoted_from(s, i + 2);
        (seq![s[i + 1]] + v, e)
    } else {
        let (v, e) = quoted_from(s, i + 1);
        (seq![s[i]] + v, e)
    }
}

pub proof fn lemma_scan_until(s: Seq<char>, i: int, c: char)
    ensures
        scan_until(s, i, c) >= i,
        i < s.len() && s[i] != c ==> scan_until(s, i, c) > i,
        i <= s.len() ==> scan_until(s, i, c) <= s.len(),
        i <= s.len() && scan_until(s, i, c) < s.len() ==> s[scan_until(s, i, c)] == c,
        forall|j: int| i <= j < scan_until(s, i, c) ==> s[j] != c,
    decreases s.len() - i,
{
    if !(i >= s.len() || s[i] == c) {
        lemma_scan_until(s, i + 1, c);
    }
}

pub proof fn lemma_scan_until2(s: Seq<char>, i: int, a: char, b: char)
    ensures
        scan_until2(s, i, a, b) >= i,
        i <= s.len() ==> scan_until2(s, i, a, b) <= s.len(),
        i <= s.len() && scan_until2(s, i, a, b) < s.len() ==> s[scan_until2(s, i, a, b)] == a || s[scan_until2(s, i, a, b)] == b,
        forall|j: int| i <= j < scan_until2(s, i, a, b) ==> s[j] != a && s[j] != b,
    decreases s.len() - i,
{
    if !(i >= s.len() || s[i] == a || s[i] == b) {
        lemma_scan_until2(s, i + 1, a, b);
    }
}

pub proof fn lemma_quoted_from(s: Seq<char>, i: int)
    ensures
        quoted_from(s, i).1 >= i,
        i <= s.len() ==> quoted_from(s, i).1 <= s.len(),
    decreases s.len() - i,
{
    if i >= s.len() {
    } else if s[i] == '"' {
    } else if s[i] == '\\' && i + 1 < s.len() {
        lemma_quoted_from(s, i + 2);
    } else {
        lemma_quoted_from(s, i + 1);
    }
}

/// The pairs found from position `i` on, in order. Runs of the pair
/// delimiter are skipped; a token whose key is empty or that has no key
/// delimiter before the next pair delimiter is skipped; a value is quoted
/// (see `quoted_from`) or runs to the next pair delimiter.
pub open spec fn kv_from(s: Seq<char>, i: int, pd: char, kd: char) -> Seq<(Seq<char>, Seq<char>)>
    decreases s.len() - i,
{
    if i >= s.len() || i < 0 {
        Seq::empty()
    } else if s[i] == pd {
        kv_from(s, i + 1, pd, kd)
    } else {
        let k = scan_until2(s, i, kd, pd);
        proof {
            lemma_scan_until2(s, i, kd, pd);
        }
        if k >= s.len() || s[k] != kd || k == i {
            let j = scan_until(s, k, pd);
            proof {
                lemma_scan_until(s, k, pd);
            }
            kv_from(s, j, pd, kd)
        } else if k + 1 < s.len() && s[k + 1] == '"' {
            let (v, e) = quoted_from(s, k + 2);
            proof {
                lemma_quoted_from(s, k + 2);
            }
            seq![(s.subrange(i, k), v)] + kv_from(s, e, pd, kd)
        } else {
            let e = scan_until(s, k + 1, pd);
            proof {
                lemma_scan_until(s, k + 1, pd);
            }
            seq![(s.subrange(i, k), s.subrange(k + 1, e))] + kv_from(s, e, pd, kd)
        }
    }
}

/// Pairs as object entries with string values.
pub open spec fn pairs_obj(p: Seq<(Seq<char>, Seq<char>)>) -> JObj {
    Seq::new(p.len(), |i: int| (p[i].0, JVal::Str(p[i].1)))
}

/// What the scanner extracts from a text: every pair inserted in order,
/// a later duplicate key replacing the earlier value in place.
pub open spec fn spec_scan_kv(s: Seq<char>, pd: char, kd: char) -> JObj {
    obj_extend(Seq::empty(), pairs_obj(kv_from(s, 0, pd, kd)))
}

proof fn lemma_extend_cons(o: JObj, k: Seq<char>, v: Seq<char>, rest: Seq<(Seq<char>, Seq<char>)>)
    ensures
        obj_extend(o, pairs_obj(seq![(k, v)] + rest)) == obj_extend(crate::json::obj_insert(o, k, JVal::Str(v)), pairs_obj(rest)),
{
    let p = pairs_obj(seq![(k, v)] + rest);
    assert(p.drop_first() =~= pairs_obj(rest));
}

/// `x` written with a backslash before every character.
pub open spec fn escape_all(x: Seq<char>) -> Seq<char>
    decreases x.len(),
{
    if x.len() == 0 {
        Seq::empty()
    } else {
        seq!['\\', x[0]] + escape_all(x.drop_first())
    }
}

proof fn lemma_escape_all_len(x: Seq<char>)
    ensures
        escape_all(x).len() == 2 * x.len(),
    decreases x.len(),
{
    if x.len() > 0 {
        lemma_escape_all_len(x.drop_first());
    }
}

/// A quoted value whose every character is escaped reads back as those
/// characters, up to and past the closing quote.
proof fn lemma_quoted_escaped(s: Seq<char>, i: int, x: Seq<char>)
    requires
        0 <= i,
        i + 2 * x.len() < s.len(),
        s.subrange(i, i + 2 * x.len()) == escape_all(x),
        s[i + 2 * x.len()] == '"',
    ensures
        quoted_from(s, i) == (x, i + 2 * x.len() + 1),
    decreases x.len(),
{
    lemma_escape_all_len(x);
    if x.len() == 0 {
        assert(x =~= Seq::<char>::empty());
    } else {
        let rest = x.drop_first();
        lemma_escape_all_len(rest);
        assert(s[i] == s.subrange(i, i + 2 * x.len())[0]);
        assert(s[i + 1] == s.subrange(i, i + 2 * x.len())[1]);
        assert(s.subrange(i + 2, i + 2 + 2 * rest.len()) =~= s.subrange(i, i + 2 * x.len()).skip(2));
        assert(escape_all(x).skip(2) =~= escape_all(rest));
        lemma_quoted_escaped(s, i + 2, rest);
        assert(seq![x[0]] + rest =~= x);
    }
}

/// Law: in a quoted value a backslash takes the next character as it is,
/// whatever it is (a quote, a delimiter, another backslash), and never
/// ends the value: `key="` followed by escaped characters and a closing
/// quote gives exactly the one pair of the key and those characters.
pub proof fn law_scan_escaped_value(key: Seq<char>, x: Seq<char>, pd: char, kd: char)
    requires
        key.len() > 0,
        forall|k: int| 0 <= k < key.len() ==> key[k] != pd && key[k] != kd,
    ensures
        spec_scan_kv(key + seq![kd, '"'] + escape_all(x) + seq!['"'], pd, kd) == seq![(key, JVal::Str(x))],
{
    let s = key + seq![kd, '"'] + escape_all(x) + seq!['"'];
    let n = key.len() as int;
    lemma_escape_all_len(x);
    lemma_scan_until2(s, 0, kd, pd);
    let k = scan_until2(s, 0, kd, pd);
    if k < n {
        assert(s[k] == key[k]);
    }
    assert(s[n] == kd);
    assert(k == n);
    assert(s[n + 1] == '"');
    assert(s.subrange(n + 2, n + 2 + 2 * x.len()) =~= escape_all(x));
    lemma_quoted_escaped(s, n + 2, x);
    assert(s.subrange(0, n) =~= key);
    assert(kv_from(s, s.len() as int, pd, kd) == Seq::<(Seq<char>, Seq<char>)>::empty());
    assert(kv_from(s, 0, pd, kd) =~= seq![(key, x)]);
    let p = pairs_obj(seq![(key, x)]);
    assert(p.drop_first().len() == 0);
    let e = Seq::<(Seq<char>, JVal)>::empty();
    assert(crate::json::find_key(e, key) is None);
    assert(obj_extend(crate::json::obj_insert(e, key, JVal::Str(x)), p.drop_first()) == crate::json::obj_insert(e, key, JVal::Str(x)));
    assert(crate::json::obj_insert(e, key, JVal::Str(x)) =~= seq![(key, JVal::Str(x))]);
}

/// Quote-aware scanner for `key=value key2="v v"` text.
#[verifier::loop_isolation(false)]
pub fn scan_kv(input: &str, pair_delimiter: char, kv_delimiter: char) -> (r: JsonMap)
    ensures
        obj_model(r@) == spec_scan_kv(input@, pair_delimiter, kv_delimiter),
{
    let chars = chars_of(input);
    let ghost s = input@;
    let pd = pair_delimiter;
    let kd = kv_delimiter;
    let mut result: JsonMap = Vec::new();
    let mut i: usize = 0;
    assert(obj_model(result@) =~= Seq::<(Seq<char>, JVal)>::empty());
    while i < chars.len()
        invariant
            chars@ == s,
            i <= chars@.len(),
            spec_scan_kv(s, pd, kd) == obj_extend(obj_model(result@), pairs_obj(kv_from(s, i as int, pd, kd))),
        decreases chars@.len() - i,
    {
        let ghost i_start = i;
        while i < chars.len() && chars[i] == pd
            invariant
                chars@ == s,
                i_start <= i <= chars@.len(),
                spec_scan_kv(s, pd, kd) == obj_extend(obj_model(result@), pairs_obj(kv_from(s, i as int, pd, kd))),
            decreases chars@.len() - i,
        {
            i = i + 1;
        }
        if i >= chars.len() {
            break;
        }
        let key_start = i;
        proof {
            lemma_scan_until2(s, key_start as int, kd, pd);
        }
        while i < chars.len() && chars[i] != kd && chars[i] != pd
            invariant
                chars@ == s,
                key_start <= i <= chars@.len(),
                scan_until2(s, key_start as int, kd, pd) == scan_until2(s, i as int, kd, pd),
            decreases chars@.len() - i,
        {
            i = i + 1;
        }
        let k = i;
        if i >= chars.len() || chars[i] != kd || i == key_start {
            proof {
                lemma_scan_until(s, k as int, pd);
            }
            while i < chars.len() && chars[i] != pd
                invariant
                    chars@ == s,
                    k <= i <= chars@.len(),
                    scan_until(s, k as int, pd) == scan_until(s, i as int, pd),
                decreases chars@.len() - i,
            {
                i = i + 1;
            }
            assert(kv_from(s, key_start as int, pd, kd) == kv_from(s, i as int, pd, kd));
            assert(i > i_start) by {
                if k == key_start {
                    assert(s[k as int] == kd);
                }
            }
            continue;
        }
        let key = crate::text::string_from_chars(crate::text::slice_to_vec(&chars, key_start, k).as_slice());
        i = i + 1;
        let mut v = String::new();
        if i < chars.len() && chars[i] == '"' {
            i = i + 1;
            let ghost vstart = i as int;
            while i < chars.len() && chars[i] != '"'
                invariant
                    chars@ == s,
                    vstart <= i <= chars@.len(),
                    quoted_from(s, vstart) == (v@ + quoted_from(s, i as int).0, quoted_from(s, i as int).1),
                decreases chars@.len() - i,
            {
                let ghost v0 = v@;
                if chars[i] == '\\' && i + 1 < chars.len() {
                    i = i + 1;
                }
                push_char(&mut v, chars[i]);
                i = i + 1;
                assert(v0 + seq![s[i - 1]] + quoted_from(s, i as int).0 =~= v@ + quoted_from(s, i as int).0);
            }
            if i < chars.len() {
                i = i + 1;
            }
            assert(v@ + Seq::<char>::empty() =~= v@);
            assert(quoted_from(s, vstart) == (v@, i as int));
            assert(kv_from(s, key_start as int, pd, kd) == seq![(key@, v@)] + kv_from(s, i as int, pd, kd));
        } else {
            let val_start = i;
            proof {
                lemma_scan_until(s, val_start as int, pd);
            }
            while i < chars.len() && chars[i] != pd
                invariant
                    chars@ == s,
                    val_start <= i <= chars@.len(),
                    scan_until(s, val_start as int, pd) == scan_until(s, i as int, pd),
                decreases chars@.len() - i,
            {
                i = i + 1;
            }
            let vv = crate::text::slice_to_vec(&chars, val_start, i);
            v = crate::text::string_from_chars(vv.as_slice());
            assert(kv_from(s, key_start as int, pd, kd) == seq![(key@, v@)] + kv_from(s, i as int, pd, kd));
        }
        proof {
            lemma_extend_cons(obj_model(result@), key@, v@, kv_from(s, i as int, pd, kd));
        }
        assert(i > i_start);
        map_insert(&mut result, key, JsonValue::Str(v));
    }
    assert(pairs_obj(kv_from(s, i as int, pd, kd)) =~= Seq::<(Seq<char>, JVal)>::empty());
    result
}

pub struct KvOperator {
    pub id: String,
    pub parse_from: FieldRef,
    pub parse_to: FieldRef,
    pub pair_delimiter: char,
    pub kv_delimiter: char,
}

/// What a `kv` definition describes: source, target, and the first
/// characters of the two delimiters.
pub open spec fn kv_def(v: JVal) -> Result<(FieldPath, FieldPath, char, char), Seq<char>> {
    match def_object(v) {
        Err(e) => Err(e),
        Ok(o) => match req_str(o, "parse_from"@) {
            Err(e) => Err(e),
            Ok(f) => match req_str(o, "parse_to"@) {
                Err(e) => Err(e),
                Ok(t) => match opt_str(o, "pair_delimiter"@, " "@) {
                    Err(e) => Err(e),
                    Ok(p) => match opt_str(o, "kv_delimiter"@, "="@) {
                        Err(e) => Err(e),
                        Ok(k) => if p.len() == 0 {
                            Err("pair_delimiter must be non-empty"@)
                        } else if k.len() == 0 {
                            Err("kv_delimiter must be non-empty"@)
                        } else {
                            Ok((spec_parse_field(f), spec_parse_field(t), p[0], k[0]))
                        },
                    },
                },
            },
        },
    }
}

pub open spec fn kv_apply(o: KvOperator, e: EventModel) -> Result<EventModel, Seq<char>> {
    match string_input(o.parse_from@, e) {
        None => Err("parse_from field is not a string"@),
        Some(s) => {
            let extracted = spec_scan_kv(s, o.pair_delimiter, o.kv_delimiter);
            if extracted.len() == 0 {
                Err("no key=value pairs found"@)
            } else {
                Ok(model_set(o.parse_to@, e, JVal::Obj(extracted)))
            }
        },
    }
}

fn first_char(s: &str) -> (r: Option<char>)
    ensures
        s@.len() == 0 ==> r is None,
        s@.len() > 0 ==> r == Some(s@[0]),
{
    let v = chars_of(s);
    if v.len() == 0 {
        None
    } else {
        Some(v[0])
    }
}

fn read_kv_def(value: &JsonValue) -> (r: Result<(FieldRef, FieldRef, char, char), String>)
    ensures
        match kv_def(value@) {
            Ok((f, t, p, k)) => r matches Ok((x, y, pp, kk)) && x@ == f && y@ == t && pp == p && kk == k,
            Err(e) => r matches Err(x) && x@ == e,
        },
{
    let o = read_def_object(value)?;
    let f = read_req_str(o, "parse_from")?;
    let t = read_req_str(o, "parse_to")?;
    let dp = default_pair_delimiter();
    let dk = default_kv_delimiter();
    let p = read_opt_str(o, "pair_delimiter", dp.as_str())?;
    let k = read_opt_str(o, "kv_delimiter", dk.as_str())?;
    let pc = match first_char(p.as_str()) {
        Some(c) => c,
        None => { return Err("pair_delimiter must be non-empty".to_owned()); },
    };
    let kc = match first_char(k.as_str()) {
        Some(c) => c,
        None => { return Err("kv_delimiter must be non-empty".to_owned()); },
    };
    Ok((FieldRef::parse(f.as_str()), FieldRef::parse(t.as_str()), pc, kc))
}

impl KvOperator {
    pub fn from_value(id: &str, value: &JsonValue) -> (r: Result<KvOperator, String>)
        ensures
            match kv_def(value@) {
                Ok((f, t, p, k)) => r matches Ok(op) && op.id@ == id@ && op.parse_from@ == f && op.parse_to@ == t
                    && op.pair_delimiter == p && op.kv_delimiter == k,
                Err(e) => r matches Err(x) && x@ == prefixed(id@, e),
            },
    {
        match read_kv_def(value) {
            Ok((f, t, p, k)) => Ok(KvOperator { id: id.to_owned(), parse_from: f, parse_to: t, pair_delimiter: p, kv_delimiter: k }),
            Err(e) => Err(prefix_error(id, e.as_str())),
        }
    }

    pub fn id(&self) -> (r: &str)
        ensures
            r@ == self.id@,
    {
        self.id.as_str()
    }

    pub fn process(&self, event: Event) -> (r: Result<Event, (Event, OperatorError)>)
        ensures
            crate::operator::process_matches(self.id@, event@, r, kv_apply(*self, event@)),
    {
        let mut event = event;
        let ghost e0 = event;
        let input = match read_string_input(&self.parse_from, &event) {
            Some(s) => s,
            None => {
                return Err((event, OperatorError { operator_id: self.id.clone(), message: "parse_from field is not a string".to_owned() }));
            },
        };
        let extracted = scan_kv(input.as_str(), self.pair_delimiter, self.kv_delimiter);
        if extracted.len() == 0 {
            return Err((event, OperatorError { operator_id: self.id.clone(), message: "no key=value pairs found".to_owned() }));
        }
        let ghost exv = extracted;
        let value = JsonValue::Object(extracted);
        proof {
            crate::json::lemma_object_view(exv);
        }
        self.parse_to.merge(&mut event, value);
        proof { lemma_view_with_parts(e0, event); }
        Ok(event)
    }
}

} // verus!
