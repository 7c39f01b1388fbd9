//! Addresses a field that an operator reads from or writes to: the body,
//! or a dotted path into the attributes or the resource.

use vstd::prelude::*;
use crate::json::{
    JsonValue, JsonMap, JVal, JObj, obj_model, find_key, lookup, obj_insert, obj_remove, keys_unique,
    map_find, map_get, map_insert, map_remove, copy_map, lemma_find_key, lemma_find_key_bounds,
    lemma_object_view,
};
use crate::text::{split_on, split_string, chars_of, string_from_chars, slice_to_vec, str_eq};
use crate::event::Event;

verus! {

/// Where a field lives.
pub enum FieldRef {
    Body,
    Attribute(String),
    Resource(String),
}

/// Model of a `FieldRef`.
pub enum FieldPath {
    Body,
    Attr(Seq<char>),
    Res(Seq<char>),
}

impl View for FieldRef {
    type V = FieldPath;

    open spec fn view(&self) -> FieldPath {
        match self {
            FieldRef::Body => FieldPath::Body,
            FieldRef::Attribute(p) => FieldPath::Attr(p@),
            FieldRef::Resource(p) => FieldPath::Res(p@),
        }
    }
}

/// `str::strip_prefix`.
pub open spec fn strip_prefix(s: Seq<char>, p: Seq<char>) -> Option<Seq<char>> {
    if p.len() <= s.len() && s.take(p.len() as int) == p {
        Some(s.skip(p.len() as int))
    } else {
        None
    }
}

/// How a field name is read: `body`; `attributes` or `attributes.<path>`;
/// `resource` or `resource.<path>`; any other name is an attribute path.
pub open spec fn spec_parse_field(s: Seq<char>) -> FieldPath {
    if s == "body"@ {
        FieldPath::Body
    } else if let Some(rest) = strip_prefix(s, "attributes."@) {
        FieldPath::Attr(rest)
    } else if s == "attributes"@ {
        FieldPath::Attr(Seq::empty())
    } else if let Some(rest) = strip_prefix(s, "resource."@) {
        FieldPath::Res(rest)
    } else if s == "resource"@ {
        FieldPath::Res(Seq::empty())
    } else {
        FieldPath::Attr(s)
    }
}

/// The value at a path of keys, descending through nested objects.
pub open spec fn path_get(o: JObj, segs: Seq<Seq<char>>) -> Option<JVal>
    decreases segs.len(),
{
    if segs.len() == 0 {
        None
    } else {
        match lookup(o, segs[0]) {
            None => None,
            Some(v) => if segs.len() == 1 {
                Some(v)
            } else {
                match v {
                    JVal::Obj(m) => path_get(m, segs.drop_first()),
                    _ => None,
                }
            },
        }
    }
}

/// Sets the value at a path of keys, making (or replacing non-objects
/// with) empty objects on the way down.
pub open spec fn path_set(o: JObj, segs: Seq<Seq<char>>, v: JVal) -> JObj
    decreases segs.len(),
{
    if segs.len() <= 1 {
        obj_insert(o, segs[0], v)
    } else {
        let child = match lookup(o, segs[0]) {
            Some(JVal::Obj(m)) => m,
            _ => Seq::empty(),
        };
        obj_insert(o, segs[0], JVal::Obj(path_set(child, segs.drop_first(), v)))
    }
}

/// Removes the value at a path of keys; a missing or non-object step
/// leaves everything as it was.
pub open spec fn path_remove(o: JObj, segs: Seq<Seq<char>>) -> JObj
    decreases segs.len(),
{
    if segs.len() <= 1 {
        obj_remove(o, segs[0])
    } else {
        match lookup(o, segs[0]) {
            Some(JVal::Obj(m)) => obj_insert(o, segs[0], JVal::Obj(path_remove(m, segs.drop_first()))),
            _ => o,
        }
    }
}

/// Inserts every entry of `m`, in order.
pub open spec fn obj_extend(o: JObj, m: JObj) -> JObj
    decreases m.len(),
{
    if m.len() == 0 {
        o
    } else {
        obj_extend(obj_insert(o, m[0].0, m[0].1), m.drop_first())
    }
}

/// The value at a dotted path; the empty path names no value.
pub open spec fn spec_get_path(o: JObj, path: Seq<char>) -> Option<JVal> {
    if path.len() == 0 {
        None
    } else {
        path_get(o, split_on(path, '.'))
    }
}

/// Setting a dotted path; at the empty path an object's entries are
/// merged in and anything else is ignored.
pub open spec fn spec_set_path(o: JObj, path: Seq<char>, v: JVal) -> JObj {
    if path.len() == 0 {
        match v {
            JVal::Obj(m) => obj_extend(o, m),
            _ => o,
        }
    } else {
        path_set(o, split_on(path, '.'), v)
    }
}

/// Removing a dotted path; the empty path clears everything.
pub open spec fn spec_remove_path(o: JObj, path: Seq<char>) -> JObj {
    if path.len() == 0 {
        Seq::empty()
    } else {
        path_remove(o, split_on(path, '.'))
    }
}

/// The value a field holds, given an event's body, attributes and resource.
pub open spec fn field_get(f: FieldPath, body: JVal, attrs: JObj, res: JObj) -> Option<JVal> {
    match f {
        FieldPath::Body => Some(body),
        FieldPath::Attr(p) => spec_get_path(attrs, p),
        FieldPath::Res(p) => spec_get_path(res, p),
    }
}

/// Body, attributes and resource after setting a field.
pub open spec fn field_set(f: FieldPath, body: JVal, attrs: JObj, res: JObj, v: JVal) -> (JVal, JObj, JObj) {
    match f {
        FieldPath::Body => (v, attrs, res),
        FieldPath::Attr(p) => (body, spec_set_path(attrs, p, v), res),
        FieldPath::Res(p) => (body, attrs, spec_set_path(res, p, v)),
    }
}

/// Body, attributes and resource after removing a field; the body
/// becomes `null`.
pub open spec fn field_remove(f: FieldPath, body: JVal, attrs: JObj, res: JObj) -> (JVal, JObj, JObj) {
    match f {
        FieldPath::Body => (JVal::Null, attrs, res),
        FieldPath::Attr(p) => (body, spec_remove_path(attrs, p), res),
        FieldPath::Res(p) => (body, attrs, spec_remove_path(res, p)),
    }
}

/// The three parts of an event that fields address.
pub open spec fn event_parts(e: Event) -> (JVal, JObj, JObj) {
    (e.body@, obj_model(e.attributes@), obj_model(e.resource@))
}

/// Everything but body, attributes and resource is as it was.
pub open spec fn same_outside_fields(a: Event, b: Event) -> bool {
    &&& a.raw == b.raw
    &&& a.timestamp == b.timestamp
    &&& a.observed_timestamp == b.observed_timestamp
    &&& a.severity == b.severity
    &&& a.meta == b.meta
}

} // verus!

verus! {

/// Looking up the key just inserted finds the inserted value.
pub proof fn lemma_lookup_insert_same(o: JObj, k: Seq<char>, v: JVal)
    ensures
        lookup(obj_insert(o, k, v), k) == Some(v),
{
    lemma_find_key_bounds(o, k);
    match find_key(o, k) {
        Some(i) => {
            let u = o.update(i, (k, v));
            assert forall|j: int| 0 <= j < i implies u[j].0 != k by {}
            lemma_find_key(u, k, i);
        },
        None => {
            let u = o.push((k, v));
            assert forall|j: int| 0 <= j < o.len() implies u[j].0 != k by {}
            lemma_find_key(u, k, o.len() as int);
        },
    }
}

/// Inserting one key leaves what every other key maps to.
pub proof fn lemma_lookup_insert_other(o: JObj, k: Seq<char>, v: JVal, k2: Seq<char>)
    requires
        k2 != k,
    ensures
        lookup(obj_insert(o, k, v), k2) == lookup(o, k2),
{
    lemma_find_key_bounds(o, k);
    lemma_find_key_bounds(o, k2);
    let u = obj_insert(o, k, v);
    match find_key(o, k2) {
        Some(j) => {
            assert forall|x: int| 0 <= x < j implies u[x].0 != k2 by {}
            lemma_find_key(u, k2, j);
        },
        None => {
            assert forall|x: int| 0 <= x < u.len() implies u[x].0 != k2 by {}
            lemma_find_key(u, k2, u.len() as int);
        },
    }
}

/// After removing a key from an object whose keys are unique, the key
/// maps to nothing.
pub proof fn lemma_lookup_remove_same(o: JObj, k: Seq<char>)
    requires
        keys_unique(o),
    ensures
        lookup(obj_remove(o, k), k) is None,
{
    lemma_find_key_bounds(o, k);
    let u = obj_remove(o, k);
    match find_key(o, k) {
        Some(i) => {
            assert forall|x: int| 0 <= x < u.len() implies u[x].0 != k by {
                if x == i {
                    assert(o[o.len() - 1].0 != o[i].0);
                }
            }
        },
        None => {},
    }
    lemma_find_key(u, k, u.len() as int);
}

/// Every key along `segs` has unique keys in the object it is looked up in.
pub open spec fn path_unique(o: JObj, segs: Seq<Seq<char>>) -> bool
    decreases segs.len(),
{
    &&& keys_unique(o)
    &&& (segs.len() > 1 ==> (lookup(o, segs[0]) matches Some(JVal::Obj(m)) ==> path_unique(m, segs.drop_first())))
}

/// Reading a path just written gives the value written.
pub proof fn lemma_path_get_set(o: JObj, segs: Seq<Seq<char>>, v: JVal)
    requires
        segs.len() >= 1,
    ensures
        path_get(path_set(o, segs, v), segs) == Some(v),
    decreases segs.len(),
{
    if segs.len() == 1 {
        lemma_lookup_insert_same(o, segs[0], v);
    } else {
        let child = match lookup(o, segs[0]) {
            Some(JVal::Obj(m)) => m,
            _ => Seq::empty(),
        };
        lemma_path_get_set(child, segs.drop_first(), v);
        lemma_lookup_insert_same(o, segs[0], JVal::Obj(path_set(child, segs.drop_first(), v)));
    }
}

/// Reading a path just removed gives nothing.
pub proof fn lemma_path_get_remove(o: JObj, segs: Seq<Seq<char>>)
    requires
        segs.len() >= 1,
        path_unique(o, segs),
    ensures
        path_get(path_remove(o, segs), segs) is None,
    decreases segs.len(),
{
    if segs.len() == 1 {
        lemma_lookup_remove_same(o, segs[0]);
    } else {
        match lookup(o, segs[0]) {
            Some(JVal::Obj(m)) => {
                lemma_path_get_remove(m, segs.drop_first());
                lemma_lookup_insert_same(o, segs[0], JVal::Obj(path_remove(m, segs.drop_first())));
            },
            _ => {},
        }
    }
}

/// Law: writing at a path leaves every other top-level key as it was.
pub proof fn law_set_keeps_other_keys(o: JObj, segs: Seq<Seq<char>>, v: JVal, k: Seq<char>)
    requires
        segs.len() >= 1,
        k != segs[0],
    ensures
        lookup(path_set(o, segs, v), k) == lookup(o, k),
{
    if segs.len() == 1 {
        lemma_lookup_insert_other(o, segs[0], v, k);
    } else {
        let child = match lookup(o, segs[0]) {
            Some(JVal::Obj(m)) => m,
            _ => Seq::empty(),
        };
        lemma_lookup_insert_other(o, segs[0], JVal::Obj(path_set(child, segs.drop_first(), v)), k);
    }
}

/// Splitting always gives at least one piece.
pub proof fn lemma_split_nonempty_pub(s: Seq<char>, d: char)
    ensures
        split_on(s, d).len() >= 1,
{
    lemma_split_nonempty(s, d);
}

proof fn lemma_split_nonempty(s: Seq<char>, d: char)
    ensures
        split_on(s, d).len() >= 1,
    decreases s.len(),
{
    crate::text::lemma_first_index_of_bounds(s, d);
    if let Some(i) = crate::text::first_index_of(s, d) {
        lemma_split_nonempty(s.skip(i + 1), d);
    }
}

/// Law: a field that was just set reads back as the value set, unless it
/// is the whole attributes or resource map (which no read returns).
pub proof fn law_get_after_set(f: FieldPath, body: JVal, attrs: JObj, res: JObj, v: JVal)
    requires
        !(f matches FieldPath::Attr(p) && p.len() == 0),
        !(f matches FieldPath::Res(p) && p.len() == 0),
    ensures
        ({
            let (b2, a2, r2) = field_set(f, body, attrs, res, v);
            field_get(f, b2, a2, r2) == Some(v)
        }),
{
    match f {
        FieldPath::Body => {},
        FieldPath::Attr(p) => {
            lemma_split_nonempty(p, '.');
            lemma_path_get_set(attrs, split_on(p, '.'), v);
        },
        FieldPath::Res(p) => {
            lemma_split_nonempty(p, '.');
            lemma_path_get_set(res, split_on(p, '.'), v);
        },
    }
}

/// Law: a field that was just removed reads back as nothing (a removed
/// body reads back as `null`), provided the objects along its path have
/// unique keys, as parsed JSON objects do.
pub proof fn law_get_after_remove(f: FieldPath, body: JVal, attrs: JObj, res: JObj)
    requires
        f matches FieldPath::Attr(p) ==> p.len() == 0 || path_unique(attrs, split_on(p, '.')),
        f matches FieldPath::Res(p) ==> p.len() == 0 || path_unique(res, split_on(p, '.')),
    ensures
        ({
            let (b2, a2, r2) = field_remove(f, body, attrs, res);
            field_get(f, b2, a2, r2) == if f is Body { Some(JVal::Null) } else { None::<JVal> }
        }),
{
    match f {
        FieldPath::Body => {},
        FieldPath::Attr(p) => {
            if p.len() > 0 {
                lemma_split_nonempty(p, '.');
                lemma_path_get_remove(attrs, split_on(p, '.'));
            }
        },
        FieldPath::Res(p) => {
            if p.len() > 0 {
                lemma_split_nonempty(p, '.');
                lemma_path_get_remove(res, split_on(p, '.'));
            }
        },
    }
}

} // verus!

verus! {

/// `s.strip_prefix(p)`.
pub fn strip_prefix_str(s: &str, p: &str) -> (r: Option<String>)
    ensures
        match strip_prefix(s@, p@) {
            Some(rest) => r matches Some(x) && x@ == rest,
            None => r is None,
        },
{
    let sv = chars_of(s);
    let pv = chars_of(p);
    if pv.len() > sv.len() {
        return None;
    }
    let mut i: usize = 0;
    while i < pv.len()
        invariant
            i <= pv.len() <= sv.len(),
            sv@ == s@,
            pv@ == p@,
            forall|j: int| 0 <= j < i ==> sv@[j] == pv@[j],
        decreases pv.len() - i,
    {
        if sv[i] != pv[i] {
            assert(s@.take(p@.len() as int)[i as int] != p@[i as int]);
            return None;
        }
        i = i + 1;
    }
    assert(s@.take(p@.len() as int) =~= p@);
    let rest = slice_to_vec(&sv, pv.len(), sv.len());
    assert(rest@ =~= s@.skip(p@.len() as int));
    Some(string_from_chars(&rest))
}

impl FieldRef {
    /// Reads a field name: `body`, `attributes[.path]`, `resource[.path]`;
    /// a bare name is an attribute path.
    pub fn parse(s: &str) -> (r: FieldRef)
        ensures
            r@ == spec_parse_field(s@),
    {
        if str_eq(s, "body") {
            FieldRef::Body
        } else if let Some(rest) = strip_prefix_str(s, "attributes.") {
            FieldRef::Attribute(rest)
        } else if str_eq(s, "attributes") {
            FieldRef::Attribute(String::new())
        } else if let Some(rest) = strip_prefix_str(s, "resource.") {
            FieldRef::Resource(rest)
        } else if str_eq(s, "resource") {
            FieldRef::Resource(String::new())
        } else {
            FieldRef::Attribute(s.to_owned())
        }
    }
}

/// The value at a dotted path.
#[verifier::loop_isolation(false)]
pub fn get_path<'a>(m: &'a JsonMap, path: &str) -> (r: Option<&'a JsonValue>)
    ensures
        r.is_some() == spec_get_path(obj_model(m@), path@).is_some(),
        r matches Some(v) ==> spec_get_path(obj_model(m@), path@) == Some(v@),
{
    if path.is_empty() {
        return None;
    }
    let segs = split_string(path, '.');
    let ghost sm = split_on(path@, '.');
    proof {
        lemma_split_nonempty(path@, '.');
        assert(sm.skip(0) =~= sm);
    }
    let mut cur: &'a JsonMap = m;
    let mut k: usize = 0;
    loop
        invariant
            0 <= k < segs@.len(),
            segs@.len() == sm.len(),
            path_get(obj_model(m@), sm) == path_get(obj_model(cur@), sm.skip(k as int)),
        decreases segs@.len() - k,
    {
        let ghost rest = sm.skip(k as int);
        assert(rest[0] == segs@[k as int]@);
        assert(rest.drop_first() =~= sm.skip(k + 1));
        match map_get(cur, segs[k].as_str()) {
            None => {
                return None;
            },
            Some(v) => {
                if k == segs.len() - 1 {
                    return Some(v);
                }
                match v.as_object() {
                    Some(next) => {
                        cur = next;
                        k = k + 1;
                    },
                    None => {
                        return None;
                    },
                }
            },
        }
    }
}

/// Sets `segs[k..]` below `m` to `v`.
fn set_in(m: &mut JsonMap, segs: &Vec<String>, k: usize, v: JsonValue)
    requires
        k < segs@.len(),
    ensures
        obj_model(final(m)@) == path_set(obj_model(old(m)@), Seq::new(segs@.len(), |i: int| segs@[i]@).skip(k as int), v@),
    decreases segs@.len() - k,
{
    let ghost sm = Seq::new(segs@.len(), |i: int| segs@[i]@);
    let ghost rest = sm.skip(k as int);
    assert(rest[0] == segs@[k as int]@);
    if k == segs.len() - 1 {
        map_insert(m, segs[k].clone(), v);
        return;
    }
    assert(rest.drop_first() =~= sm.skip(k + 1));
    let mut child: JsonMap = match map_get(m, segs[k].as_str()) {
        Some(c) => match c.as_object() {
            Some(o) => copy_map(o),
            None => Vec::new(),
        },
        None => Vec::new(),
    };
    assert(obj_model(child@) == match lookup(obj_model(old(m)@), rest[0]) {
        Some(JVal::Obj(x)) => x,
        _ => Seq::<(Seq<char>, JVal)>::empty(),
    });
    set_in(&mut child, segs, k + 1, v);
    let ghost cm = obj_model(child@);
    proof {
        lemma_object_view(child);
    }
    map_insert(m, segs[k].clone(), JsonValue::Object(child));
}

/// Removes `segs[k..]` below `m`.
fn remove_in(m: &mut JsonMap, segs: &Vec<String>, k: usize)
    requires
        k < segs@.len(),
    ensures
        obj_model(final(m)@) == path_remove(obj_model(old(m)@), Seq::new(segs@.len(), |i: int| segs@[i]@).skip(k as int)),
    decreases segs@.len() - k,
{
    let ghost sm = Seq::new(segs@.len(), |i: int| segs@[i]@);
    let ghost rest = sm.skip(k as int);
    assert(rest[0] == segs@[k as int]@);
    if k == segs.len() - 1 {
        let _ = map_remove(m, segs[k].as_str());
        return;
    }
    assert(rest.drop_first() =~= sm.skip(k + 1));
    let found: Option<JsonMap> = match map_get(m, segs[k].as_str()) {
        Some(c) => match c.as_object() {
            Some(o) => Some(copy_map(o)),
            None => None,
        },
        None => None,
    };
    match found {
        Some(mut child) => {
            remove_in(&mut child, segs, k + 1);
            proof {
                lemma_object_view(child);
            }
            map_insert(m, segs[k].clone(), JsonValue::Object(child));
        },
        None => {},
    }
}

/// Inserts every entry of `src`, in order.
pub fn extend_map(m: &mut JsonMap, src: &JsonMap)
    ensures
        obj_model(final(m)@) == obj_extend(obj_model(old(m)@), obj_model(src@)),
{
    let mut i: usize = 0;
    assert(obj_model(src@).skip(0) =~= obj_model(src@));
    while i < src.len()
        invariant
            i <= src.len(),
            obj_extend(obj_model(old(m)@), obj_model(src@))
                == obj_extend(obj_model(m@), obj_model(src@).skip(i as int)),
        decreases src.len() - i,
    {
        let ghost rest = obj_model(src@).skip(i as int);
        assert(rest.drop_first() =~= obj_model(src@).skip(i + 1));
        let c = src[i].1.deep_copy();
        map_insert(m, src[i].0.clone(), c);
        i = i + 1;
    }
    assert(obj_model(src@).skip(i as int) =~= Seq::<(Seq<char>, JVal)>::empty());
}

/// Sets a dotted path.
pub fn set_path(m: &mut JsonMap, path: &str, v: JsonValue)
    ensures
        obj_model(final(m)@) == spec_set_path(obj_model(old(m)@), path@, v@),
{
    if path.is_empty() {
        match &v {
            JsonValue::Object(o) => {
                proof {
                    lemma_object_view(*o);
                }
                extend_map(m, o);
            },
            _ => {},
        }
        return;
    }
    let segs = split_string(path, '.');
    proof {
        lemma_split_nonempty(path@, '.');
        assert(Seq::new(segs@.len(), |i: int| segs@[i]@).skip(0) =~= split_on(path@, '.'));
    }
    set_in(m, &segs, 0, v);
}

/// Removes a dotted path.
pub fn remove_path(m: &mut JsonMap, path: &str)
    ensures
        obj_model(final(m)@) == spec_remove_path(obj_model(old(m)@), path@),
{
    if path.is_empty() {
        m.clear();
        assert(obj_model(m@) =~= Seq::<(Seq<char>, JVal)>::empty());
        return;
    }
    let segs = split_string(path, '.');
    proof {
        lemma_split_nonempty(path@, '.');
        assert(Seq::new(segs@.len(), |i: int| segs@[i]@).skip(0) =~= split_on(path@, '.'));
    }
    remove_in(m, &segs, 0);
}

} // verus!

verus! {

impl FieldRef {
    /// The value the field holds in `event`.
    pub fn get<'a>(&self, event: &'a Event) -> (r: Option<&'a JsonValue>)
        ensures
            r.is_some() == field_get(self@, event.body@, obj_model(event.attributes@), obj_model(event.resource@)).is_some(),
            r matches Some(v) ==> field_get(self@, event.body@, obj_model(event.attributes@), obj_model(event.resource@)) == Some(v@),
    {
        match self {
            FieldRef::Body => Some(&event.body),
            FieldRef::Attribute(path) => get_path(&event.attributes, path.as_str()),
            FieldRef::Resource(path) => get_path(&event.resource, path.as_str()),
        }
    }

    /// Writes `value` to the field.
    pub fn set(&self, event: &mut Event, value: JsonValue)
        ensures
            event_parts(*final(event)) == field_set(self@, old(event).body@, obj_model(old(event).attributes@), obj_model(old(event).resource@), value@),
            same_outside_fields(*old(event), *final(event)),
    {
        match self {
            FieldRef::Body => {
                event.body = value;
            },
            FieldRef::Attribute(path) => set_path(&mut event.attributes, path.as_str(), value),
            FieldRef::Resource(path) => set_path(&mut event.resource, path.as_str(), value),
        }
    }

    /// Merges `value` into the field: an object merged into the whole
    /// attributes (or resource) map adds its entries; anything else is a
    /// `set`, which is what the merge amounts to.
    pub fn merge(&self, event: &mut Event, value: JsonValue)
        ensures
            event_parts(*final(event)) == field_set(self@, old(event).body@, obj_model(old(event).attributes@), obj_model(old(event).resource@), value@),
            same_outside_fields(*old(event), *final(event)),
    {
        match (self, &value) {
            (FieldRef::Attribute(path), JsonValue::Object(map)) if path.as_str().is_empty() => {
                proof {
                    lemma_object_view(*map);
                }
                extend_map(&mut event.attributes, map);
            },
            (FieldRef::Resource(path), JsonValue::Object(map)) if path.as_str().is_empty() => {
                proof {
                    lemma_object_view(*map);
                }
                extend_map(&mut event.resource, map);
            },
            _ => self.set(event, value),
        }
    }

    /// Clears the field: the body becomes `null`; a path is removed; the
    /// whole attributes (or resource) map is emptied.
    pub fn remove(&self, event: &mut Event)
        ensures
            event_parts(*final(event)) == field_remove(self@, old(event).body@, obj_model(old(event).attributes@), obj_model(old(event).resource@)),
            same_outside_fields(*old(event), *final(event)),
    {
        match self {
            FieldRef::Body => {
                event.body = JsonValue::Null;
            },
            FieldRef::Attribute(path) => remove_path(&mut event.attributes, path.as_str()),
            FieldRef::Resource(path) => remove_path(&mut event.resource, path.as_str()),
        }
    }
}

} // verus!

verus! {

/// An event model with its body, attributes and resource replaced.
pub open spec fn with_parts(m: crate::event::EventModel, p: (JVal, JObj, JObj)) -> crate::event::EventModel {
    crate::event::EventModel {
        raw: m.raw,
        body: p.0,
        timestamp: m.timestamp,
        observed_timestamp: m.observed_timestamp,
        attributes: p.1,
        resource: p.2,
        severity: m.severity,
        errors: m.errors,
        dead_letter: m.dead_letter,
    }
}

/// An event that differs from another only in body, attributes and
/// resource is that event with those parts replaced.
pub proof fn lemma_view_with_parts(a: Event, b: Event)
    requires
        same_outside_fields(a, b),
    ensures
        b@ == with_parts(a@, event_parts(b)),
{
}

/// The model of setting a field of an event.
pub open spec fn model_set(f: FieldPath, m: crate::event::EventModel, v: JVal) -> crate::event::EventModel {
    with_parts(m, field_set(f, m.body, m.attributes, m.resource, v))
}

/// The model of removing a field of an event.
pub open spec fn model_remove(f: FieldPath, m: crate::event::EventModel) -> crate::event::EventModel {
    with_parts(m, field_remove(f, m.body, m.attributes, m.resource))
}

/// The model of reading a field of an event.
pub open spec fn model_get(f: FieldPath, m: crate::event::EventModel) -> Option<JVal> {
    field_get(f, m.body, m.attributes, m.resource)
}

} // verus!

verus! {

/// Sets a dotted path, splitting it on every `.`: each segment is a key,
/// the empty path included.
pub fn set_dotted(m: &mut JsonMap, path: &str, v: JsonValue)
    ensures
        obj_model(final(m)@) == path_set(obj_model(old(m)@), split_on(path@, '.'), v@),
{
    let segs = split_string(path, '.');
    proof {
        lemma_split_nonempty(path@, '.');
        assert(Seq::new(segs@.len(), |i: int| segs@[i]@).skip(0) =~= split_on(path@, '.'));
    }
    set_in(m, &segs, 0, v);
}

} // verus!
