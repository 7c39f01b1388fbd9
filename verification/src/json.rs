//! The JSON document model used throughout the crate.

use vstd::prelude::*;

verus! {

/// A JSON value. Objects keep their keys in insertion order.
#[derive(Debug)]
pub enum JsonValue {
    Null,
    Bool(bool),
    /// A number, held as its canonical JSON text.
    Number(String),
    Str(String),
    Array(Vec<JsonValue>),
    Object(Vec<(String, JsonValue)>),
}

/// Mathematical model of a JSON value.
pub enum JVal {
    Null,
    Bool(bool),
    Num(Seq<char>),
    Str(Seq<char>),
    Arr(Seq<JVal>),
    Obj(Seq<(Seq<char>, JVal)>),
}

pub open spec fn jv(v: JsonValue) -> JVal
    decreases v,
{
    match v {
        JsonValue::Null => JVal::Null,
        JsonValue::Bool(b) => JVal::Bool(b),
        JsonValue::Number(n) => JVal::Num(n@),
        JsonValue::Str(s) => JVal::Str(s@),
        JsonValue::Array(a) => JVal::Arr(
            Seq::new(
                a@.len(),
                |i: int|
                    if 0 <= i < a@.len() {
                        jv(a@[i])
                    } else {
                        JVal::Null
                    },
            ),
        ),
        JsonValue::Object(m) => JVal::Obj(
            Seq::new(
                m@.len(),
                |i: int|
                    if 0 <= i < m@.len() {
                        (m@[i].0@, jv(m@[i].1))
                    } else {
                        (Seq::empty(), JVal::Null)
                    },
            ),
        ),
    }
}

impl View for JsonValue {
    type V = JVal;

    open spec fn view(&self) -> JVal {
        jv(*self)
    }
}

} // verus!

verus! {

/// An object's entries, in insertion order.
pub type JsonMap = Vec<(String, JsonValue)>;

/// Model of an object's entries.
pub type JObj = Seq<(Seq<char>, JVal)>;

pub open spec fn obj_model(m: Seq<(String, JsonValue)>) -> JObj {
    Seq::new(m.len(), |i: int| (m[i].0@, jv(m[i].1)))
}

pub open spec fn arr_model(a: Seq<JsonValue>) -> Seq<JVal> {
    Seq::new(a.len(), |i: int| jv(a[i]))
}

pub proof fn lemma_object_view(m: Vec<(String, JsonValue)>)
    ensures
        jv(JsonValue::Object(m)) == JVal::Obj(obj_model(m@)),
{
    assert(jv(JsonValue::Object(m))->Obj_0 =~= obj_model(m@));
}

pub proof fn lemma_array_view(a: Vec<JsonValue>)
    ensures
        jv(JsonValue::Array(a)) == JVal::Arr(arr_model(a@)),
{
    assert(jv(JsonValue::Array(a))->Arr_0 =~= arr_model(a@));
}

/// An integer in canonical decimal form: one within `u64`, or a
/// negative one within `i64` written with a leading `-`.
pub open spec fn canonical_int(t: Seq<char>) -> bool {
    ||| match crate::text::spec_parse_u64(t) {
        Some(n) => crate::text::nat_text(n as nat) == t,
        None => false,
    }
    ||| t.len() > 1 && t[0] == '-' && match crate::text::spec_parse_u64(t.drop_first()) {
        Some(n) => 1 <= n <= 0x8000_0000_0000_0000 && crate::text::nat_text(n as nat) == t.drop_first(),
        None => false,
    }
}

/// A value that serde_json writes and reads back as it was: its numbers
/// are integers in canonical decimal form within `u64` or `i64`, no
/// object repeats a key, and arrays and objects nest at most `depth` deep.
pub open spec fn plain_json(v: JVal, depth: nat) -> bool
    decreases depth,
{
    match v {
        JVal::Num(t) => canonical_int(t),
        JVal::Arr(a) => depth > 0 && forall|i: int| 0 <= i < a.len() ==> plain_json(#[trigger] a[i], (depth - 1) as nat),
        JVal::Obj(o) => depth > 0 && keys_unique(o) && forall|i: int|
            0 <= i < o.len() ==> plain_json(#[trigger] o[i].1, (depth - 1) as nat),
        _ => true,
    }
}

/// Plain at some depth is plain at any greater depth.
pub proof fn lemma_plain_json_deeper(v: JVal, depth: nat)
    requires
        plain_json(v, depth),
    ensures
        plain_json(v, depth + 1),
    decreases depth,
{
    match v {
        JVal::Arr(a) => {
            assert forall|i: int| 0 <= i < a.len() implies plain_json(#[trigger] a[i], depth) by {
                lemma_plain_json_deeper(a[i], (depth - 1) as nat);
            }
        },
        JVal::Obj(o) => {
            assert forall|i: int| 0 <= i < o.len() implies plain_json(#[trigger] o[i].1, depth) by {
                lemma_plain_json_deeper(o[i].1, (depth - 1) as nat);
            }
        },
        _ => {},
    }
}

/// A parse that succeeded with this value.
pub open spec fn spec_ok_val(v: JVal) -> Result<JVal, Seq<char>> {
    Ok(v)
}

/// Index of the first entry whose key is `k`.
pub open spec fn find_key(s: JObj, k: Seq<char>) -> Option<int>
    decreases s.len(),
{
    if s.len() == 0 {
        None
    } else if s[0].0 == k {
        Some(0)
    } else {
        match find_key(s.drop_first(), k) {
            Some(i) => Some(i + 1),
            None => None,
        }
    }
}

/// What a key maps to in an object.
pub open spec fn lookup(s: JObj, k: Seq<char>) -> Option<JVal> {
    match find_key(s, k) {
        Some(i) => Some(s[i].1),
        None => None,
    }
}

/// `Map::insert`: replaces the value of an existing key in place, or
/// appends a new entry.
pub open spec fn obj_insert(s: JObj, k: Seq<char>, v: JVal) -> JObj {
    match find_key(s, k) {
        Some(i) => s.update(i, (k, v)),
        None => s.push((k, v)),
    }
}

/// `Map::remove` of an order-preserving map: the last entry takes the
/// removed entry's place.
pub open spec fn obj_remove(s: JObj, k: Seq<char>) -> JObj {
    match find_key(s, k) {
        Some(i) => s.update(i, s.last()).drop_last(),
        None => s,
    }
}

/// Every key appears at most once.
pub open spec fn keys_unique(s: JObj) -> bool {
    forall|i: int, j: int| 0 <= i < j < s.len() ==> s[i].0 != s[j].0
}

pub proof fn lemma_find_key(s: JObj, k: Seq<char>, i: int)
    requires
        0 <= i <= s.len(),
        forall|j: int| 0 <= j < i ==> s[j].0 != k,
    ensures
        i < s.len() && s[i].0 == k ==> find_key(s, k) == Some(i),
        i == s.len() ==> find_key(s, k) is None,
    decreases i,
{
    if i > 0 {
        lemma_find_key(s.drop_first(), k, i - 1);
    }
}

pub proof fn lemma_find_key_bounds(s: JObj, k: Seq<char>)
    ensures
        find_key(s, k) matches Some(i) ==> 0 <= i < s.len() && s[i].0 == k && forall|j: int|
            0 <= j < i ==> s[j].0 != k,
        find_key(s, k) is None ==> forall|j: int| 0 <= j < s.len() ==> s[j].0 != k,
    decreases s.len(),
{
    if s.len() > 0 {
        lemma_find_key_bounds(s.drop_first(), k);
        assert forall|j: int| 1 <= j < s.len() implies s[j].0 == s.drop_first()[j - 1].0 by {}
    }
}

/// Index of the entry for `key`.
pub fn map_find(m: &JsonMap, key: &str) -> (r: Option<usize>)
    ensures
        r matches Some(i) ==> i < m@.len() && find_key(obj_model(m@), key@) == Some(i as int),
        r is None ==> find_key(obj_model(m@), key@) is None,
{
    let mut i: usize = 0;
    while i < m.len()
        invariant
            i <= m.len(),
            forall|j: int| 0 <= j < i ==> obj_model(m@)[j].0 != key@,
        decreases m.len() - i,
    {
        if crate::text::str_eq(m[i].0.as_str(), key) {
            proof {
                lemma_find_key(obj_model(m@), key@, i as int);
            }
            return Some(i);
        }
        i = i + 1;
    }
    proof {
        lemma_find_key(obj_model(m@), key@, i as int);
    }
    None
}

/// The value stored under `key`.
pub fn map_get<'a>(m: &'a JsonMap, key: &str) -> (r: Option<&'a JsonValue>)
    ensures
        r.is_some() == lookup(obj_model(m@), key@).is_some(),
        r matches Some(v) ==> lookup(obj_model(m@), key@) == Some(v@),
{
    match map_find(m, key) {
        Some(i) => Some(&m[i].1),
        None => None,
    }
}

/// Whether `key` has an entry.
pub fn map_contains_key(m: &JsonMap, key: &str) -> (r: bool)
    ensures
        r == lookup(obj_model(m@), key@).is_some(),
{
    map_find(m, key).is_some()
}

/// Every object, at every depth, has distinct keys.
pub open spec fn deep_unique(v: JVal) -> bool
    decreases v,
{
    match v {
        JVal::Arr(a) => forall|i: int| 0 <= i < a.len() ==> deep_unique(#[trigger] a[i]),
        JVal::Obj(o) => keys_unique(o) && forall|i: int| 0 <= i < o.len() ==> deep_unique(#[trigger] o[i].1),
        _ => true,
    }
}

/// Inserting keeps keys distinct.
pub proof fn lemma_insert_unique(s: JObj, k: Seq<char>, v: JVal)
    requires
        keys_unique(s),
    ensures
        keys_unique(obj_insert(s, k, v)),
        keys_of_obj(obj_insert(s, k, v)).to_set() == keys_of_obj(s).to_set().insert(k),
{
    lemma_find_key_bounds(s, k);
    let u = obj_insert(s, k, v);
    assert forall|x: Seq<char>| keys_of_obj(u).to_set().contains(x) <==> keys_of_obj(s).to_set().insert(k).contains(x) by {
        if keys_of_obj(u).contains(x) {
            let j = choose|j: int| 0 <= j < keys_of_obj(u).len() && keys_of_obj(u)[j] == x;
            if x != k {
                assert(keys_of_obj(s)[j] == x);
            }
        }
        if keys_of_obj(s).contains(x) {
            let j = choose|j: int| 0 <= j < keys_of_obj(s).len() && keys_of_obj(s)[j] == x;
            assert(keys_of_obj(u)[j] == x || (find_key(s, k) == Some(j) && x == k));
        }
        if x == k {
            match find_key(s, k) {
                Some(i) => { assert(keys_of_obj(u)[i] == k); },
                None => { assert(keys_of_obj(u)[s.len() as int] == k); },
            }
        }
    }
    assert(keys_of_obj(u).to_set() =~= keys_of_obj(s).to_set().insert(k));
}

/// Removing keeps keys distinct.
pub proof fn lemma_remove_unique(s: JObj, k: Seq<char>)
    requires
        keys_unique(s),
    ensures
        keys_unique(obj_remove(s, k)),
{
    lemma_find_key_bounds(s, k);
}

/// The keys of an object, in order.
pub open spec fn keys_of_obj(s: JObj) -> Seq<Seq<char>> {
    Seq::new(s.len(), |i: int| s[i].0)
}

/// A member of an object with distinct keys at every depth has them too.
pub proof fn lemma_lookup_deep_unique(o: JObj, k: Seq<char>)
    requires
        deep_unique(JVal::Obj(o)),
    ensures
        lookup(o, k) matches Some(v) ==> deep_unique(v),
{
    lemma_find_key_bounds(o, k);
}

/// Sets `key` to `v`.
pub fn map_insert(m: &mut JsonMap, key: String, v: JsonValue)
    ensures
        obj_model(final(m)@) == obj_insert(obj_model(old(m)@), key@, v@),
        keys_unique(obj_model(old(m)@)) ==> keys_unique(obj_model(final(m)@)),
{
    proof {
        if keys_unique(obj_model(old(m)@)) {
            lemma_insert_unique(obj_model(old(m)@), key@, v@);
        }
    }
    let ghost k = key@;
    let ghost vv = v@;
    match map_find(m, key.as_str()) {
        Some(i) => {
            m.set(i, (key, v));
            assert(obj_model(m@) =~= obj_model(old(m)@).update(i as int, (k, vv)));
        },
        None => {
            m.push((key, v));
            assert(obj_model(m@) =~= obj_model(old(m)@).push((k, vv)));
        },
    }
}

/// Removes the entry for `key`, returning its value.
pub fn map_remove(m: &mut JsonMap, key: &str) -> (r: Option<JsonValue>)
    ensures
        obj_model(final(m)@) == obj_remove(obj_model(old(m)@), key@),
        r.is_some() == lookup(obj_model(old(m)@), key@).is_some(),
        r matches Some(v) ==> lookup(obj_model(old(m)@), key@) == Some(v@),
        keys_unique(obj_model(old(m)@)) ==> keys_unique(obj_model(final(m)@)),
{
    proof {
        if keys_unique(obj_model(old(m)@)) {
            lemma_remove_unique(obj_model(old(m)@), key@);
        }
    }
    match map_find(m, key) {
        Some(i) => {
            let (_k, v) = m.swap_remove(i);
            assert(obj_model(m@) =~= obj_model(old(m)@).update(
                i as int,
                obj_model(old(m)@).last(),
            ).drop_last());
            Some(v)
        },
        None => None,
    }
}

} // verus!

verus! {

impl JsonValue {
    /// A structurally identical copy.
    #[verifier::loop_isolation(false)]
    pub fn deep_copy(&self) -> (r: JsonValue)
        ensures
            r@ == self@,
        decreases self,
    {
        match self {
            JsonValue::Null => JsonValue::Null,
            JsonValue::Bool(b) => JsonValue::Bool(*b),
            JsonValue::Number(n) => JsonValue::Number(n.clone()),
            JsonValue::Str(s) => JsonValue::Str(s.clone()),
            JsonValue::Array(a) => {
                let mut out: Vec<JsonValue> = Vec::new();
                let mut i: usize = 0;
                while i < a.len()
                    invariant
                        i <= a.len(),
                        out@.len() == i,
                        forall|j: int| 0 <= j < i ==> #[trigger] out@[j]@ == a@[j]@,
                    decreases a.len() - i,
                {
                    proof {
                        assert(decreases_to!(*self => (*self)->Array_0));
                        assert(decreases_to!((*self)->Array_0 => (*self)->Array_0@));
                        assert(decreases_to!((*self)->Array_0@ => (*self)->Array_0@[i as int]));
                    }
                    let c = a[i].deep_copy();
                    out.push(c);
                    i = i + 1;
                }
                proof {
                    lemma_array_view(*a);
                    lemma_array_view(out);
                    assert forall|j: int| 0 <= j < a@.len() implies arr_model(out@)[j] == arr_model(a@)[j] by {
                        assert(out@[j]@ == a@[j]@);
                    }
                    assert(arr_model(out@) =~= arr_model(a@));
                }
                JsonValue::Array(out)
            },
            JsonValue::Object(m) => {
                let mut out: JsonMap = Vec::new();
                let mut i: usize = 0;
                while i < m.len()
                    invariant
                        i <= m.len(),
                        out@.len() == i,
                        forall|j: int| 0 <= j < i ==> #[trigger] out@[j].0@ == m@[j].0@ && out@[j].1@ == m@[j].1@,
                    decreases m.len() - i,
                {
                    proof {
                        assert(decreases_to!(*self => (*self)->Object_0));
                        assert(decreases_to!((*self)->Object_0 => (*self)->Object_0@));
                        assert(decreases_to!((*self)->Object_0@ => (*self)->Object_0@[i as int]));
                        assert(decreases_to!((*self)->Object_0@[i as int] => (*self)->Object_0@[i as int].1));
                    }
                    let c = m[i].1.deep_copy();
                    out.push((m[i].0.clone(), c));
                    i = i + 1;
                }
                proof {
                    lemma_object_view(*m);
                    lemma_object_view(out);
                    assert(obj_model(out@) =~= obj_model(m@));
                }
                JsonValue::Object(out)
            },
        }
    }

    /// A string value.
    pub fn from_str(s: &str) -> (r: JsonValue)
        ensures
            r@ == JVal::Str(s@),
    {
        JsonValue::Str(s.to_owned())
    }

    pub fn as_str(&self) -> (r: Option<&str>)
        ensures
            r.is_some() == (self@ is Str),
            r matches Some(s) ==> self@ == JVal::Str(s@),
    {
        match self {
            JsonValue::Str(s) => Some(s.as_str()),
            _ => None,
        }
    }

    pub fn as_object(&self) -> (r: Option<&JsonMap>)
        ensures
            r.is_some() == (self@ is Obj),
            r matches Some(m) ==> self@ == JVal::Obj(obj_model(m@)),
    {
        match self {
            JsonValue::Object(m) => {
                proof {
                    lemma_object_view(*m);
                }
                Some(m)
            },
            _ => None,
        }
    }

    pub fn as_array(&self) -> (r: Option<&Vec<JsonValue>>)
        ensures
            r.is_some() == (self@ is Arr),
            r matches Some(a) ==> self@ == JVal::Arr(arr_model(a@)),
    {
        match self {
            JsonValue::Array(a) => {
                proof {
                    lemma_array_view(*a);
                }
                Some(a)
            },
            _ => None,
        }
    }

    /// `Value::get` with a string key: the member of an object.
    pub fn get(&self, key: &str) -> (r: Option<&JsonValue>)
        ensures
            r.is_some() == (self@ matches JVal::Obj(o) && lookup(o, key@).is_some()),
            r matches Some(v) ==> self@ matches JVal::Obj(o) && lookup(o, key@) == Some(v@),
    {
        match self {
            JsonValue::Object(m) => {
                proof {
                    lemma_object_view(*m);
                }
                map_get(m, key)
            },
            _ => None,
        }
    }
}

/// The string a JSON value holds, if it is a string.
pub open spec fn jstr(v: JVal) -> Option<Seq<char>> {
    match v {
        JVal::Str(s) => Some(s),
        _ => None,
    }
}

} // verus!

verus! {

#[verifier::external_type_specification]
#[verifier::external_body]
pub struct ExSerdeJsonValue(serde_json::Value);

/// Rebuilds a `serde_json::Value` as a `JsonValue`, variant for variant;
/// a number keeps serde_json's own text for it.
#[verifier::external_body]
pub(crate) fn from_serde(v: serde_json::Value) -> JsonValue {
    match v {
        serde_json::Value::Null => JsonValue::Null,
        serde_json::Value::Bool(b) => JsonValue::Bool(b),
        serde_json::Value::Number(n) => JsonValue::Number(n.to_string()),
        serde_json::Value::String(s) => JsonValue::Str(s),
        serde_json::Value::Array(a) => JsonValue::Array(a.into_iter().map(from_serde).collect()),
        serde_json::Value::Object(m) => JsonValue::Object(m.into_iter().map(|(k, x)| (k, from_serde(x))).collect()),
    }
}

/// Rebuilds a `JsonValue` as a `serde_json::Value`, variant for variant;
/// a number text that serde_json does not accept becomes `null`.
#[verifier::external_body]
pub(crate) fn to_serde(v: &JsonValue) -> serde_json::Value {
    match v {
        JsonValue::Null => serde_json::Value::Null,
        JsonValue::Bool(b) => serde_json::Value::Bool(*b),
        JsonValue::Number(n) => n.parse::<serde_json::Number>().map_or(serde_json::Value::Null, serde_json::Value::Number),
        JsonValue::Str(s) => serde_json::Value::String(s.clone()),
        JsonValue::Array(a) => serde_json::Value::Array(a.iter().map(to_serde).collect()),
        JsonValue::Object(m) => serde_json::Value::Object(m.iter().map(|(k, x)| (k.clone(), to_serde(x))).collect()),
    }
}

/// What `serde_json::from_str::<serde_json::Value>` makes of a text:
/// the document, or the error's message.
pub uninterp spec fn spec_json_parse(text: Seq<char>) -> Result<JVal, Seq<char>>;

/// What `serde_json::to_string` writes for a value (compact JSON).
pub uninterp spec fn spec_json_text(v: JVal) -> Seq<char>;

/// What `serde_yaml_ng::from_str::<serde_json::Value>` makes of a text:
/// the document, or the error's message.
pub uninterp spec fn spec_yaml_parse(text: Seq<char>) -> Result<JVal, Seq<char>>;

/// What `serde_yaml_ng::to_string` writes for a value, or its error's
/// message.
pub uninterp spec fn spec_yaml_text(v: JVal) -> Result<Seq<char>, Seq<char>>;

/// Parses JSON text with `serde_json::from_str`. The contract claims
/// that the result is the one `spec_json_parse` names for this text, and
/// that its objects have distinct keys at every depth: serde_json reads
/// objects into its `Map`, where a repeated key replaces the earlier one.
#[verifier::external_body]
pub(crate) fn json_parse(text: &str) -> (r: Result<JsonValue, String>)
    ensures
        match spec_json_parse(text@) {
            Ok(v) => r matches Ok(x) && x@ == v,
            Err(e) => r matches Err(m) && m@ == e,
        },
        r matches Ok(x) ==> deep_unique(x@),
{
    match serde_json::from_str::<serde_json::Value>(text) {
        Ok(v) => Ok(from_serde(v)),
        Err(e) => Err(e.to_string()),
    }
}

/// Writes compact JSON text with `serde_json::to_string`, which cannot
/// fail on a `serde_json::Value`. The contract claims only that the text
/// is the one `spec_json_text` names for the value.
#[verifier::external_body]
pub(crate) fn json_text(v: &JsonValue) -> (r: String)
    ensures
        r@ == spec_json_text(v@),
{
    serde_json::to_string(&to_serde(v)).unwrap_or_default()
}

/// Parses YAML text into a JSON document with `serde_yaml_ng::from_str`.
/// The contract claims that the result is the one `spec_yaml_parse` names
/// for this text, and that its objects have distinct keys at every depth:
/// the document is read into serde_json's `Map`, whose keys are distinct.
#[verifier::external_body]
pub(crate) fn yaml_parse(text: &str) -> (r: Result<JsonValue, String>)
    ensures
        match spec_yaml_parse(text@) {
            Ok(v) => r matches Ok(x) && x@ == v,
            Err(e) => r matches Err(m) && m@ == e,
        },
        r matches Ok(x) ==> deep_unique(x@),
{
    match serde_yaml_ng::from_str::<serde_json::Value>(text) {
        Ok(v) => Ok(from_serde(v)),
        Err(e) => Err(e.to_string()),
    }
}

/// Writes a JSON document as YAML text with `serde_yaml_ng::to_string`.
/// The contract claims the outcome `spec_yaml_text` names for the value,
/// and that a plain value is written and `serde_yaml_ng::from_str` reads
/// it back as it was: the writer quotes every string that would read back
/// as another scalar (and writes multi-line strings as literal blocks),
/// an integer prints in canonical decimal (itoa) and reads back as the
/// same `u64` or negative `i64`, an object keeps its
/// key order (serde_json with `preserve_order`), and the reader's nesting
/// limit is 128.
#[verifier::external_body]
pub(crate) fn yaml_text(v: &JsonValue) -> (r: Result<String, String>)
    ensures
        match spec_yaml_text(v@) {
            Ok(t) => r matches Ok(x) && x@ == t,
            Err(e) => r matches Err(m) && m@ == e,
        },
        plain_json(v@, 100) ==> r is Ok,
        r matches Ok(x) ==> (plain_json(v@, 100) ==> spec_yaml_parse(x@) == spec_ok_val(v@)),
{
    match serde_yaml_ng::to_string(&to_serde(v)) {
        Ok(t) => Ok(t),
        Err(e) => Err(e.to_string()),
    }
}

} // verus!

verus! {

/// A structurally identical copy of an object's entries.
pub fn copy_map(m: &JsonMap) -> (r: JsonMap)
    ensures
        obj_model(r@) == obj_model(m@),
        r@.len() == m@.len(),
{
    let mut out: JsonMap = Vec::new();
    let mut i: usize = 0;
    while i < m.len()
        invariant
            i <= m.len(),
            out@.len() == i,
            forall|j: int| 0 <= j < i ==> #[trigger] out@[j].0@ == m@[j].0@ && out@[j].1@ == m@[j].1@,
        decreases m.len() - i,
    {
        let c = m[i].1.deep_copy();
        out.push((m[i].0.clone(), c));
        i = i + 1;
    }
    assert(obj_model(out@) =~= obj_model(m@));
    out
}

/// A structurally identical copy of an array's elements.
pub fn copy_array(a: &Vec<JsonValue>) -> (r: Vec<JsonValue>)
    ensures
        arr_model(r@) == arr_model(a@),
        r@.len() == a@.len(),
{
    let mut out: Vec<JsonValue> = Vec::new();
    let mut i: usize = 0;
    while i < a.len()
        invariant
            i <= a.len(),
            out@.len() == i,
            forall|j: int| 0 <= j < i ==> #[trigger] out@[j]@ == a@[j]@,
        decreases a.len() - i,
    {
        let c = a[i].deep_copy();
        out.push(c);
        i = i + 1;
    }
    assert forall|j: int| 0 <= j < a@.len() implies arr_model(out@)[j] == arr_model(a@)[j] by {
        assert(out@[j]@ == a@[j]@);
    }
    assert(arr_model(out@) =~= arr_model(a@));
    out
}

} // verus!
