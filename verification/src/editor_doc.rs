//! The editor's in-memory config document: id-keyed maps of receivers,
//! exporters, extensions and pipelines, kept as JSON so that unknown
//! fields and `${VAR}` tokens survive a load, edit and save untouched.

use vstd::prelude::*;
use crate::json::{
    JsonValue, JsonMap, JVal, JObj, obj_model, arr_model, lookup, obj_insert, map_get, map_insert, copy_map,
    spec_yaml_parse, spec_yaml_text, yaml_parse, yaml_text, lemma_object_view, lemma_array_view,
    plain_json, keys_unique, spec_ok_val, deep_unique,
};
use crate::editor_schema::ComponentCategory;
use crate::text::{lex_sorted, views, sort_strings, str_eq, append_str};

verus! {

#[derive(Debug)]
pub enum EditorError {
    Io(String, String),
    Parse(String),
    Serialize(String),
    Invalid(String),
}

pub open spec fn editor_error_text(e: EditorError) -> Seq<char> {
    match e {
        EditorError::Io(p, m) => "failed to read "@ + p@ + ": "@ + m@,
        EditorError::Parse(m) => "failed to parse YAML: "@ + m@,
        EditorError::Serialize(m) => "failed to serialize YAML: "@ + m@,
        EditorError::Invalid(m) => "invalid config: "@ + m@,
    }
}

impl EditorError {
    /// The error's message.
    pub fn to_text(&self) -> (r: String)
        ensures
            r@ == editor_error_text(*self),
    {
        let mut s = String::new();
        match self {
            EditorError::Io(p, m) => {
                append_str(&mut s, "failed to read ");
                append_str(&mut s, p.as_str());
                append_str(&mut s, ": ");
                append_str(&mut s, m.as_str());
            },
            EditorError::Parse(m) => {
                append_str(&mut s, "failed to parse YAML: ");
                append_str(&mut s, m.as_str());
            },
            EditorError::Serialize(m) => {
                append_str(&mut s, "failed to serialize YAML: ");
                append_str(&mut s, m.as_str());
            },
            EditorError::Invalid(m) => {
                append_str(&mut s, "invalid config: ");
                append_str(&mut s, m.as_str());
            },
        }
        assert(s@ =~= editor_error_text(*self));
        s
    }
}

/// The document: each map keyed by component (or pipeline) id; a
/// pipeline is an object with `receivers` and `exporters` lists.
pub struct EditorDoc {
    pub receivers: JsonMap,
    pub exporters: JsonMap,
    pub extensions: JsonMap,
    pub pipelines: JsonMap,
}

/// An object member that is itself an object, else empty.
pub open spec fn member_obj(o: JObj, key: Seq<char>) -> JObj {
    match lookup(o, key) {
        Some(JVal::Obj(m)) => m,
        _ => Seq::empty(),
    }
}

/// The parts a parsed document gives: receivers, exporters, extensions,
/// pipelines (each empty when missing or not a map).
pub open spec fn doc_parts(doc: JVal) -> (JObj, JObj, JObj, JObj) {
    let top = match doc {
        JVal::Obj(o) => o,
        _ => Seq::empty(),
    };
    let svc = member_obj(top, "service"@);
    (member_obj(top, "receivers"@), member_obj(top, "exporters"@), member_obj(top, "extensions"@), member_obj(svc, "pipelines"@))
}

pub open spec fn keys_of(o: JObj) -> Seq<Seq<char>> {
    Seq::new(o.len(), |i: int| o[i].0)
}

/// The document's value: the three component maps, then `service` with
/// the extension ids sorted and the pipelines.
pub open spec fn doc_value(receivers: JObj, exporters: JObj, extensions: JObj, ext_ids: Seq<Seq<char>>, pipelines: JObj) -> JVal {
    let svc = obj_insert(
        obj_insert(Seq::empty(), "extensions"@, JVal::Arr(Seq::new(ext_ids.len(), |i: int| JVal::Str(ext_ids[i])))),
        "pipelines"@,
        JVal::Obj(pipelines),
    );
    JVal::Obj(obj_insert(
        obj_insert(obj_insert(obj_insert(Seq::empty(), "receivers"@, JVal::Obj(receivers)), "exporters"@, JVal::Obj(exporters)), "extensions"@, JVal::Obj(extensions)),
        "service"@,
        JVal::Obj(svc),
    ))
}

/// A map whose keys are distinct and whose values are plain JSON
/// nesting at most `depth` deep.
pub open spec fn plain_map(o: JObj, depth: nat) -> bool {
    &&& keys_unique(o)
    &&& forall|i: int| 0 <= i < o.len() ==> plain_json(#[trigger] o[i].1, depth)
}

proof fn lemma_plain_map_deeper(o: JObj, depth: nat)
    requires
        plain_map(o, depth),
    ensures
        plain_map(o, depth + 1),
{
    assert forall|i: int| 0 <= i < o.len() implies plain_json(#[trigger] o[i].1, depth + 1) by {
        crate::json::lemma_plain_json_deeper(o[i].1, depth);
    }
}

/// The value of a document whose maps are plain is plain, and it reads
/// back as those maps.
proof fn lemma_doc_value_reads_back(r: JObj, e: JObj, x: JObj, ids: Seq<Seq<char>>, p: JObj)
    requires
        plain_map(r, 97),
        plain_map(e, 97),
        plain_map(x, 97),
        plain_map(p, 97),
    ensures
        plain_json(doc_value(r, e, x, ids, p), 100),
        doc_parts(doc_value(r, e, x, ids, p)) == (r, e, x, p),
{
    reveal_strlit("receivers");
    reveal_strlit("exporters");
    reveal_strlit("extensions");
    reveal_strlit("service");
    reveal_strlit("pipelines");
    let e0: JObj = Seq::empty();
    let arr = JVal::Arr(Seq::new(ids.len(), |i: int| JVal::Str(ids[i])));
    crate::json::lemma_find_key(e0, "extensions"@, 0);
    let v1 = obj_insert(e0, "extensions"@, arr);
    assert(v1 == e0.push(("extensions"@, arr)));
    assert(v1[0].0.len() != "pipelines"@.len());
    crate::json::lemma_find_key(v1, "pipelines"@, 1);
    let svc = obj_insert(v1, "pipelines"@, JVal::Obj(p));
    assert(svc == v1.push(("pipelines"@, JVal::Obj(p))));
    crate::json::lemma_find_key(svc, "pipelines"@, 1);
    crate::json::lemma_find_key(e0, "receivers"@, 0);
    let t1 = obj_insert(e0, "receivers"@, JVal::Obj(r));
    assert(t1 == e0.push(("receivers"@, JVal::Obj(r))));
    assert(t1[0].0[0] != "exporters"@[0]);
    crate::json::lemma_find_key(t1, "exporters"@, 1);
    let t2 = obj_insert(t1, "exporters"@, JVal::Obj(e));
    assert(t2 == t1.push(("exporters"@, JVal::Obj(e))));
    assert(t2[0].0[0] != "extensions"@[0]);
    assert(t2[1].0.len() != "extensions"@.len());
    crate::json::lemma_find_key(t2, "extensions"@, 2);
    let t3 = obj_insert(t2, "extensions"@, JVal::Obj(x));
    assert(t3 == t2.push(("extensions"@, JVal::Obj(x))));
    assert(t3[0].0[0] != "service"@[0] && t3[1].0[0] != "service"@[0] && t3[2].0[0] != "service"@[0]);
    crate::json::lemma_find_key(t3, "service"@, 3);
    let top = obj_insert(t3, "service"@, JVal::Obj(svc));
    assert(top == t3.push(("service"@, JVal::Obj(svc))));
    crate::json::lemma_find_key(top, "receivers"@, 0);
    crate::json::lemma_find_key(top, "exporters"@, 1);
    crate::json::lemma_find_key(top, "extensions"@, 2);
    crate::json::lemma_find_key(top, "service"@, 3);
    assert(doc_value(r, e, x, ids, p) == JVal::Obj(top));
    // Plainness, from the inside out.
    lemma_plain_map_deeper(r, 97);
    lemma_plain_map_deeper(e, 97);
    lemma_plain_map_deeper(x, 97);
    assert(plain_json(JVal::Obj(p), 98));
    assert forall|i: int| 0 <= i < ids.len() implies plain_json(#[trigger] arr->Arr_0[i], 97) by {
        assert(arr->Arr_0[i] == JVal::Str(ids[i]));
    }
    assert(plain_json(arr, 98));
    assert(keys_unique(svc)) by {
        assert forall|i: int, j: int| 0 <= i < j < svc.len() implies svc[i].0 != svc[j].0 by {
            assert(svc[i].0.len() != svc[j].0.len());
        }
    }
    assert forall|i: int| 0 <= i < svc.len() implies plain_json(#[trigger] svc[i].1, 98) by {
        if i == 0 {
            assert(svc[0].1 == arr);
        } else {
            assert(svc[1].1 == JVal::Obj(p));
        }
    }
    assert(plain_json(JVal::Obj(r), 99));
    assert(plain_json(JVal::Obj(e), 99));
    assert(plain_json(JVal::Obj(x), 99));
    assert(plain_json(JVal::Obj(svc), 99));
    assert(keys_unique(top)) by {
        assert forall|i: int, j: int| 0 <= i < j < top.len() implies top[i].0 != top[j].0 by {
            assert(top[i].0.len() != top[j].0.len() || top[i].0[0] != top[j].0[0]);
        }
    }
    assert forall|i: int| 0 <= i < top.len() implies plain_json(#[trigger] top[i].1, 99) by {
        if i == 0 {
            assert(top[0].1 == JVal::Obj(r));
        } else if i == 1 {
            assert(top[1].1 == JVal::Obj(e));
        } else if i == 2 {
            assert(top[2].1 == JVal::Obj(x));
        } else {
            assert(top[3].1 == JVal::Obj(svc));
        }
    }
}

/// The parts of a document with distinct keys at every depth have
/// distinct keys.
proof fn lemma_doc_parts_unique(doc: JVal)
    requires
        deep_unique(doc),
    ensures
        keys_unique(doc_parts(doc).0),
        keys_unique(doc_parts(doc).1),
        keys_unique(doc_parts(doc).2),
        keys_unique(doc_parts(doc).3),
{
    if let JVal::Obj(top) = doc {
        crate::json::lemma_lookup_deep_unique(top, "receivers"@);
        crate::json::lemma_lookup_deep_unique(top, "exporters"@);
        crate::json::lemma_lookup_deep_unique(top, "extensions"@);
        crate::json::lemma_lookup_deep_unique(top, "service"@);
        if let Some(JVal::Obj(svc)) = lookup(top, "service"@) {
            crate::json::lemma_lookup_deep_unique(svc, "pipelines"@);
        }
    }
}

/// The list a pipeline keeps for a category: receivers or exporters;
/// extensions are never listed per pipeline.
pub open spec fn spec_category_key(c: ComponentCategory) -> Option<Seq<char>> {
    match c {
        ComponentCategory::Receiver => Some("receivers"@),
        ComponentCategory::Exporter => Some("exporters"@),
        ComponentCategory::Extension => None,
    }
}

pub fn category_key(category: ComponentCategory) -> (r: Option<&'static str>)
    ensures
        match spec_category_key(category) {
            Some(k) => r matches Some(x) && x@ == k,
            None => r is None,
        },
{
    match category {
        ComponentCategory::Receiver => Some("receivers"),
        ComponentCategory::Exporter => Some("exporters"),
        ComponentCategory::Extension => None,
    }
}

/// Whether a pipeline definition lists `id` under `key`.
pub open spec fn def_references(def: JVal, key: Seq<char>, id: Seq<char>) -> bool {
    match def {
        JVal::Obj(o) => match lookup(o, key) {
            Some(JVal::Arr(a)) => exists|i: int| 0 <= i < a.len() && a[i] == JVal::Str(id),
            _ => false,
        },
        _ => false,
    }
}

/// The names of the pipelines that list `id` under `key`, in document
/// order.
pub open spec fn referencing(pipes: JObj, key: Seq<char>, id: Seq<char>) -> Seq<Seq<char>>
    decreases pipes.len(),
{
    if pipes.len() == 0 {
        Seq::empty()
    } else {
        let prev = referencing(pipes.drop_last(), key, id);
        if def_references(pipes.last().1, key, id) { prev.push(pipes.last().0) } else { prev }
    }
}

/// An array without the string `id`.
pub open spec fn without_str(a: Seq<JVal>, id: Seq<char>) -> Seq<JVal>
    decreases a.len(),
{
    if a.len() == 0 {
        Seq::empty()
    } else {
        let prev = without_str(a.drop_last(), id);
        if a.last() == JVal::Str(id) { prev } else { prev.push(a.last()) }
    }
}

/// A pipeline definition with `id` taken out of its `key` list.
pub open spec fn strip_def(def: JVal, key: Seq<char>, id: Seq<char>) -> JVal {
    match def {
        JVal::Obj(o) => match lookup(o, key) {
            Some(JVal::Arr(a)) => JVal::Obj(obj_insert(o, key, JVal::Arr(without_str(a, id)))),
            _ => def,
        },
        _ => def,
    }
}

/// A value with every string holding `${` replaced by a placeholder.
pub open spec fn placeholder_model(v: JVal) -> JVal
    decreases v,
{
    match v {
        JVal::Str(s) => if crate::text::contains_sub(s, "${"@) { JVal::Str("placeholder-value"@) } else { v },
        JVal::Obj(o) => JVal::Obj(Seq::new(o.len(), |i: int| if 0 <= i < o.len() { (o[i].0, placeholder_model(o[i].1)) } else { (Seq::empty(), JVal::Null) })),
        JVal::Arr(a) => JVal::Arr(Seq::new(a.len(), |i: int| if 0 <= i < a.len() { placeholder_model(a[i]) } else { JVal::Null })),
        _ => v,
    }
}

} // verus!

verus! {

fn member_obj_exec(o: &JsonMap, key: &str) -> (r: JsonMap)
    ensures
        obj_model(r@) == member_obj(obj_model(o@), key@),
{
    match map_get(o, key) {
        Some(v) => match v.as_object() {
            Some(m) => copy_map(m),
            None => {
                let e: JsonMap = Vec::new();
                assert(obj_model(e@) =~= Seq::<(Seq<char>, JVal)>::empty());
                e
            },
        },
        None => {
            let e: JsonMap = Vec::new();
            assert(obj_model(e@) =~= Seq::<(Seq<char>, JVal)>::empty());
            e
        },
    }
}

fn empty_map() -> (r: JsonMap)
    ensures
        obj_model(r@) == Seq::<(Seq<char>, JVal)>::empty(),
        r@.len() == 0,
{
    let e: JsonMap = Vec::new();
    assert(obj_model(e@) =~= Seq::<(Seq<char>, JVal)>::empty());
    e
}

/// The ids of a map, in order.
pub fn keys_exec(m: &JsonMap) -> (r: Vec<String>)
    ensures
        views(r@) == keys_of(obj_model(m@)),
{
    let mut out: Vec<String> = Vec::new();
    let mut i: usize = 0;
    while i < m.len()
        invariant
            i <= m@.len(),
            views(out@) == keys_of(obj_model(m@)).take(i as int),
        decreases m@.len() - i,
    {
        let ghost before = out@;
        out.push(m[i].0.clone());
        assert(views(out@) =~= views(before).push(m@[i as int].0@));
        assert(keys_of(obj_model(m@)).take(i + 1) =~= keys_of(obj_model(m@)).take(i as int).push(m@[i as int].0@));
        i = i + 1;
    }
    assert(keys_of(obj_model(m@)).take(i as int) =~= keys_of(obj_model(m@)));
    out
}

fn strings_array(v: &Vec<String>) -> (r: JsonValue)
    ensures
        r@ == JVal::Arr(Seq::new(v@.len(), |i: int| JVal::Str(views(v@)[i]))),
{
    let mut out: Vec<JsonValue> = Vec::new();
    let mut i: usize = 0;
    while i < v.len()
        invariant
            i <= v@.len(),
            out@.len() == i,
            forall|j: int| 0 <= j < i ==> (#[trigger] out@[j])@ == JVal::Str(v@[j]@),
        decreases v@.len() - i,
    {
        out.push(JsonValue::Str(v[i].clone()));
        i = i + 1;
    }
    let ghost ov = out;
    proof {
        lemma_array_view(ov);
        assert(arr_model(out@) =~= Seq::new(v@.len(), |i: int| JVal::Str(views(v@)[i])));
    }
    JsonValue::Array(out)
}

/// Whether an array holds the string `id`.
fn array_has_str(a: &Vec<JsonValue>, id: &str) -> (r: bool)
    ensures
        r == exists|i: int| 0 <= i < arr_model(a@).len() && arr_model(a@)[i] == JVal::Str(id@),
{
    let mut i: usize = 0;
    while i < a.len()
        invariant
            i <= a@.len(),
            forall|j: int| 0 <= j < i ==> arr_model(a@)[j] != JVal::Str(id@),
        decreases a@.len() - i,
    {
        match a[i].as_str() {
            Some(s) => {
                if str_eq(s, id) {
                    assert(arr_model(a@)[i as int] == JVal::Str(id@));
                    return true;
                }
            },
            None => {},
        }
        i = i + 1;
    }
    false
}

fn def_references_exec(def: &JsonValue, key: &str, id: &str) -> (r: bool)
    ensures
        r == def_references(def@, key@, id@),
{
    match def.get(key) {
        Some(v) => match v.as_array() {
            Some(a) => array_has_str(a, id),
            None => false,
        },
        None => false,
    }
}

fn without_str_exec(a: &Vec<JsonValue>, id: &str) -> (r: Vec<JsonValue>)
    ensures
        arr_model(r@) == without_str(arr_model(a@), id@),
{
    let mut out: Vec<JsonValue> = Vec::new();
    let mut i: usize = 0;
    let ghost am = arr_model(a@);
    assert(arr_model(out@) =~= Seq::<JVal>::empty());
    while i < a.len()
        invariant
            i <= a@.len(),
            am == arr_model(a@),
            arr_model(out@) == without_str(am.take(i as int), id@),
        decreases a@.len() - i,
    {
        assert(am.take(i + 1).drop_last() =~= am.take(i as int));
        let is_id = match a[i].as_str() {
            Some(s) => str_eq(s, id),
            None => false,
        };
        if !is_id {
            let ghost before = out@;
            out.push(a[i].deep_copy());
            assert(arr_model(out@) =~= arr_model(before).push(am[i as int]));
        }
        i = i + 1;
    }
    assert(am.take(i as int) =~= am);
    out
}

/// A value with every string holding `${` replaced by a placeholder, so
/// that validating a document needs none of its secrets.
#[verifier::loop_isolation(false)]
pub fn placeholder_for_validation(value: &JsonValue) -> (r: JsonValue)
    ensures
        r@ == placeholder_model(value@),
    decreases value,
{
    match value {
        JsonValue::Str(s) => {
            if crate::text::str_contains(s.as_str(), "${") {
                JsonValue::Str("placeholder-value".to_owned())
            } else {
                JsonValue::Str(s.clone())
            }
        },
        JsonValue::Object(m) => {
            let mut out: JsonMap = Vec::new();
            let mut i: usize = 0;
            while i < m.len()
                invariant
                    i <= m@.len(),
                    out@.len() == i,
                    forall|j: int| 0 <= j < i ==> #[trigger] out@[j].0@ == m@[j].0@ && out@[j].1@ == placeholder_model(m@[j].1@),
                decreases m@.len() - i,
            {
                proof {
                    assert(decreases_to!(*value => (*value)->Object_0));
                    assert(decreases_to!((*value)->Object_0 => (*value)->Object_0@));
                    assert(decreases_to!((*value)->Object_0@ => (*value)->Object_0@[i as int]));
                    assert(decreases_to!((*value)->Object_0@[i as int] => (*value)->Object_0@[i as int].1));
                }
                let c = placeholder_for_validation(&m[i].1);
                out.push((m[i].0.clone(), c));
                i = i + 1;
            }
            let ghost ov = out;
            proof {
                lemma_object_view(*m);
                lemma_object_view(ov);
                assert(obj_model(out@) =~= placeholder_model(value@)->Obj_0);
            }
            JsonValue::Object(out)
        },
        JsonValue::Array(a) => {
            let mut out: Vec<JsonValue> = Vec::new();
            let mut i: usize = 0;
            while i < a.len()
                invariant
                    i <= a@.len(),
                    out@.len() == i,
                    forall|j: int| 0 <= j < i ==> (#[trigger] out@[j])@ == placeholder_model(a@[j]@),
                decreases a@.len() - i,
            {
                proof {
                    assert(decreases_to!(*value => (*value)->Array_0));
                    assert(decreases_to!((*value)->Array_0 => (*value)->Array_0@));
                    assert(decreases_to!((*value)->Array_0@ => (*value)->Array_0@[i as int]));
                }
                let c = placeholder_for_validation(&a[i]);
                out.push(c);
                i = i + 1;
            }
            let ghost ov = out;
            proof {
                lemma_array_view(*a);
                lemma_array_view(ov);
                assert(arr_model(out@) =~= placeholder_model(value@)->Arr_0);
            }
            JsonValue::Array(out)
        },
        other => other.deep_copy(),
    }
}

impl EditorDoc {
    /// Every map has distinct keys and plain values, nested at most 97
    /// deep (the document adds three levels above them).
    pub open spec fn plain(&self) -> bool {
        &&& plain_map(obj_model(self.receivers@), 97)
        &&& plain_map(obj_model(self.exporters@), 97)
        &&& plain_map(obj_model(self.extensions@), 97)
        &&& plain_map(obj_model(self.pipelines@), 97)
    }

    /// No map of the document repeats an id.
    pub open spec fn unique_keys(&self) -> bool {
        &&& keys_unique(obj_model(self.receivers@))
        &&& keys_unique(obj_model(self.exporters@))
        &&& keys_unique(obj_model(self.extensions@))
        &&& keys_unique(obj_model(self.pipelines@))
    }

    pub open spec fn parts(&self) -> (JObj, JObj, JObj, JObj) {
        (obj_model(self.receivers@), obj_model(self.exporters@), obj_model(self.extensions@), obj_model(self.pipelines@))
    }

    pub fn new() -> (r: EditorDoc)
        ensures
            r.unique_keys(),
            r.receivers@.len() == 0,
            r.exporters@.len() == 0,
            r.extensions@.len() == 0,
            r.pipelines@.len() == 0,
    {
        EditorDoc { receivers: Vec::new(), exporters: Vec::new(), extensions: Vec::new(), pipelines: Vec::new() }
    }

    /// Reads a document from YAML text, `${VAR}` tokens left literal; any
    /// missing or non-map section is empty.
    pub fn parse(text: &str) -> (r: Result<EditorDoc, EditorError>)
        ensures
            match spec_yaml_parse(text@) {
                Err(m) => r matches Err(EditorError::Parse(x)) && x@ == m,
                Ok(doc) => r matches Ok(d) && d.parts() == doc_parts(doc),
            },
            r matches Ok(d) ==> d.unique_keys(),
    {
        let doc = match yaml_parse(text) {
            Ok(d) => d,
            Err(m) => { return Err(EditorError::Parse(m)); },
        };
        proof {
            lemma_doc_parts_unique(doc@);
        }
        let top = match doc.as_object() {
            Some(o) => copy_map(o),
            None => empty_map(),
        };
        let svc = member_obj_exec(&top, "service");
        Ok(EditorDoc {
            receivers: member_obj_exec(&top, "receivers"),
            exporters: member_obj_exec(&top, "exporters"),
            extensions: member_obj_exec(&top, "extensions"),
            pipelines: member_obj_exec(&svc, "pipelines"),
        })
    }

    /// The document as a config value, with `service.extensions` listing
    /// every defined extension, sorted.
    pub fn to_value(&self) -> (r: JsonValue)
        ensures
            exists|ids: Seq<Seq<char>>| lex_sorted(ids) && ids.to_multiset() == keys_of(obj_model(self.extensions@)).to_multiset()
                && r@ == doc_value(obj_model(self.receivers@), obj_model(self.exporters@), obj_model(self.extensions@), ids, obj_model(self.pipelines@)),
    {
        let ids = sort_strings(keys_exec(&self.extensions));
        let ids_value = strings_array(&ids);
        let mut svc: JsonMap = empty_map();
        map_insert(&mut svc, "extensions".to_owned(), ids_value);
        let pipes = copy_map(&self.pipelines);
        let ghost pv = pipes;
        proof { lemma_object_view(pv); }
        map_insert(&mut svc, "pipelines".to_owned(), JsonValue::Object(pipes));
        let mut top: JsonMap = empty_map();
        let rs = copy_map(&self.receivers);
        let es = copy_map(&self.exporters);
        let xs = copy_map(&self.extensions);
        let ghost (rv, ev, xv) = (rs, es, xs);
        proof {
            lemma_object_view(rv);
            lemma_object_view(ev);
            lemma_object_view(xv);
        }
        map_insert(&mut top, "receivers".to_owned(), JsonValue::Object(rs));
        map_insert(&mut top, "exporters".to_owned(), JsonValue::Object(es));
        map_insert(&mut top, "extensions".to_owned(), JsonValue::Object(xs));
        let ghost sv = svc;
        proof { lemma_object_view(sv); }
        map_insert(&mut top, "service".to_owned(), JsonValue::Object(svc));
        let ghost tv = top;
        proof { lemma_object_view(tv); }
        JsonValue::Object(top)
    }

    /// Names of the pipelines that still list `id` for this category, in
    /// sorted order; always empty for extensions.
    pub fn pipelines_referencing(&self, category: ComponentCategory, id: &str) -> (r: Vec<String>)
        ensures
            lex_sorted(views(r@)),
            match spec_category_key(category) {
                None => r@.len() == 0,
                Some(k) => views(r@).to_multiset() == referencing(obj_model(self.pipelines@), k, id@).to_multiset(),
            },
    {
        let key = match category_key(category) {
            None => {
                let v: Vec<String> = Vec::new();
                assert(lex_sorted(views(v@)));
                return v;
            },
            Some(k) => k,
        };
        let ghost pm = obj_model(self.pipelines@);
        let mut names: Vec<String> = Vec::new();
        let mut i: usize = 0;
        assert(views(names@) =~= Seq::<Seq<char>>::empty());
        while i < self.pipelines.len()
            invariant
                i <= self.pipelines@.len(),
                pm == obj_model(self.pipelines@),
                views(names@) == referencing(pm.take(i as int), key@, id@),
            decreases self.pipelines@.len() - i,
        {
            assert(pm.take(i + 1).drop_last() =~= pm.take(i as int));
            if def_references_exec(&self.pipelines[i].1, key, id) {
                let ghost before = names@;
                names.push(self.pipelines[i].0.clone());
                assert(views(names@) =~= views(before).push(pm[i as int].0));
            }
            i = i + 1;
        }
        assert(pm.take(i as int) =~= pm);
        sort_strings(names)
    }

    /// Removes `id` from every pipeline's list for this category; nothing
    /// happens for extensions.
    pub fn strip_from_pipelines(&mut self, category: ComponentCategory, id: &str)
        ensures
            final(self).receivers == old(self).receivers,
            final(self).exporters == old(self).exporters,
            final(self).extensions == old(self).extensions,
            match spec_category_key(category) {
                None => final(self).pipelines == old(self).pipelines,
                Some(k) => obj_model(final(self).pipelines@) == Seq::new(old(self).pipelines@.len(), |i: int|
                    (obj_model(old(self).pipelines@)[i].0, strip_def(obj_model(old(self).pipelines@)[i].1, k, id@))),
            },
            spec_category_key(category) matches Some(k) ==> referencing(obj_model(final(self).pipelines@), k, id@).len() == 0,
            old(self).unique_keys() ==> final(self).unique_keys(),
    {
        let key = match category_key(category) {
            None => { return; },
            Some(k) => k,
        };
        let ghost pm = obj_model(self.pipelines@);
        let mut out: JsonMap = Vec::new();
        let mut i: usize = 0;
        while i < self.pipelines.len()
            invariant
                i <= self.pipelines@.len(),
                pm == obj_model(self.pipelines@),
                out@.len() == i,
                forall|j: int| 0 <= j < i ==> #[trigger] out@[j].0@ == pm[j].0 && out@[j].1@ == strip_def(pm[j].1, key@, id@),
            decreases self.pipelines@.len() - i,
        {
            let def = &self.pipelines[i].1;
            assert(pm[i as int] == (self.pipelines@[i as int].0@, self.pipelines@[i as int].1@));
            let stripped = match def.as_object() {
                Some(o) => match map_get(o, key) {
                    Some(v) => match v.as_array() {
                        Some(a) => {
                            let kept = without_str_exec(a, id);
                            let ghost kv = kept;
                            proof { lemma_array_view(kv); }
                            let mut o2 = copy_map(o);
                            map_insert(&mut o2, key.to_owned(), JsonValue::Array(kept));
                            let ghost o2v = o2;
                            proof { lemma_object_view(o2v); }
                            JsonValue::Object(o2)
                        },
                        None => def.deep_copy(),
                    },
                    None => def.deep_copy(),
                },
                None => def.deep_copy(),
            };
            out.push((self.pipelines[i].0.clone(), stripped));
            i = i + 1;
        }
        self.pipelines = out;
        assert(obj_model(self.pipelines@) =~= Seq::new(old(self).pipelines@.len(), |i: int| (pm[i].0, strip_def(pm[i].1, key@, id@))));
        proof {
            law_strip_leaves_no_reference(pm, key@, id@);
        }
    }

    /// The YAML text checked by the collector's validator: the document
    /// with every `${VAR}` string replaced by a placeholder.
    pub fn validation_yaml(&self) -> (r: Result<String, EditorError>)
        ensures
            exists|v: JVal| #![trigger spec_yaml_text(placeholder_model(v))] (exists|ids: Seq<Seq<char>>| lex_sorted(ids) && ids.to_multiset() == keys_of(obj_model(self.extensions@)).to_multiset()
                && v == doc_value(obj_model(self.receivers@), obj_model(self.exporters@), obj_model(self.extensions@), ids, obj_model(self.pipelines@)))
                && match spec_yaml_text(placeholder_model(v)) {
                    Ok(t) => r matches Ok(x) && x@ == t,
                    Err(m) => r matches Err(EditorError::Serialize(x)) && x@ == m,
                },
    {
        let v = self.to_value();
        let p = placeholder_for_validation(&v);
        match yaml_text(&p) {
            Ok(t) => Ok(t),
            Err(m) => Err(EditorError::Serialize(m)),
        }
    }

    /// The YAML text written to disk.
    pub fn save_yaml(&self) -> (r: Result<String, EditorError>)
        ensures
            exists|v: JVal| #![trigger spec_yaml_text(v)] (exists|ids: Seq<Seq<char>>| lex_sorted(ids) && ids.to_multiset() == keys_of(obj_model(self.extensions@)).to_multiset()
                && v == doc_value(obj_model(self.receivers@), obj_model(self.exporters@), obj_model(self.extensions@), ids, obj_model(self.pipelines@)))
                && match spec_yaml_text(v) {
                    Ok(t) => r matches Ok(x) && x@ == t,
                    Err(m) => r matches Err(EditorError::Serialize(x)) && x@ == m,
                },
            self.plain() ==> (r matches Ok(x) && match spec_yaml_parse(x@) {
                Ok(doc) => doc_parts(doc) == self.parts(),
                Err(_) => false,
            }),
    {
        let v = self.to_value();
        proof {
            if self.plain() {
                let ids = choose|ids: Seq<Seq<char>>| lex_sorted(ids) && ids.to_multiset() == keys_of(obj_model(self.extensions@)).to_multiset()
                    && v@ == doc_value(obj_model(self.receivers@), obj_model(self.exporters@), obj_model(self.extensions@), ids, obj_model(self.pipelines@));
                lemma_doc_value_reads_back(obj_model(self.receivers@), obj_model(self.exporters@), obj_model(self.extensions@), ids, obj_model(self.pipelines@));
            }
        }
        match yaml_text(&v) {
            Ok(t) => Ok(t),
            Err(m) => Err(EditorError::Serialize(m)),
        }
    }
}

/// The error a failed validation reports: the validator's trimmed
/// standard error, or, when that is empty, which program exited how.
pub fn validation_failure(stderr: &str, program: &str, status: &str) -> (r: EditorError)
    ensures
        r matches EditorError::Invalid(m) && m@ == if crate::text::trim(stderr@).len() > 0 {
            crate::text::trim(stderr@)
        } else {
            program@ + " validate exited with "@ + status@
        },
{
    let t = crate::text::trim_chars(&crate::text::chars_of(stderr));
    if t.len() > 0 {
        EditorError::Invalid(crate::text::string_from_chars(&t))
    } else {
        let mut m = String::new();
        append_str(&mut m, program);
        append_str(&mut m, " validate exited with ");
        append_str(&mut m, status);
        assert(m@ =~= program@ + " validate exited with "@ + status@);
        EditorError::Invalid(m)
    }
}

/// The error when the validator could not be run at all.
pub fn validator_unavailable(program: &str, cause: &str) -> (r: EditorError)
    ensures
        r matches EditorError::Invalid(m) && m@ == "couldn't run '"@ + program@
            + "' validate' (set SGCIA_OTELCOL_BIN if it's not on PATH): "@ + cause@,
{
    let mut m = String::new();
    append_str(&mut m, "couldn't run '");
    append_str(&mut m, program);
    append_str(&mut m, "' validate' (set SGCIA_OTELCOL_BIN if it's not on PATH): ");
    append_str(&mut m, cause);
    assert(m@ =~= "couldn't run '"@ + program@ + "' validate' (set SGCIA_OTELCOL_BIN if it's not on PATH): "@ + cause@);
    EditorError::Invalid(m)
}

} // verus!

verus! {

proof fn lemma_without_str(a: Seq<JVal>, id: Seq<char>)
    ensures
        forall|i: int| 0 <= i < without_str(a, id).len() ==> without_str(a, id)[i] != JVal::Str(id),
    decreases a.len(),
{
    if a.len() > 0 {
        lemma_without_str(a.drop_last(), id);
    }
}

proof fn lemma_strip_def(def: JVal, key: Seq<char>, id: Seq<char>)
    ensures
        !def_references(strip_def(def, key, id), key, id),
{
    match def {
        JVal::Obj(o) => match lookup(o, key) {
            Some(JVal::Arr(a)) => {
                crate::field_ref::lemma_lookup_insert_same(o, key, JVal::Arr(without_str(a, id)));
                lemma_without_str(a, id);
            },
            _ => {},
        },
        _ => {},
    }
}

proof fn lemma_referencing_none(pipes: JObj, key: Seq<char>, id: Seq<char>)
    requires
        forall|i: int| 0 <= i < pipes.len() ==> !def_references(#[trigger] pipes[i].1, key, id),
    ensures
        referencing(pipes, key, id).len() == 0,
    decreases pipes.len(),
{
    if pipes.len() > 0 {
        lemma_referencing_none(pipes.drop_last(), key, id);
        assert(!def_references(pipes[pipes.len() - 1].1, key, id));
    }
}

/// Law: once `id` is stripped from every pipeline's list, no pipeline
/// references it any more.
pub proof fn law_strip_leaves_no_reference(pipes: JObj, key: Seq<char>, id: Seq<char>)
    ensures
        referencing(Seq::new(pipes.len(), |i: int| (pipes[i].0, strip_def(pipes[i].1, key, id))), key, id).len() == 0,
{
    let s = Seq::new(pipes.len(), |i: int| (pipes[i].0, strip_def(pipes[i].1, key, id)));
    assert forall|i: int| 0 <= i < s.len() implies !def_references(#[trigger] s[i].1, key, id) by {
        lemma_strip_def(pipes[i].1, key, id);
    }
    lemma_referencing_none(s, key, id);
}

} // verus!
