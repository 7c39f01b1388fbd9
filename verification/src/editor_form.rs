//! The form that edits one component, pipeline, operator or template:
//! one widget per schema field, seeded from the current value.

use vstd::prelude::*;
use crate::json::{JsonValue, JsonMap, JVal, JObj, obj_model, arr_model, obj_insert, map_insert, lemma_object_view,
    lemma_array_view, copy_array, spec_json_text, json_text};
use crate::editor_schema::{FieldSpec, FieldKind, EnumChoice, choice_options, value_path, get_path, set_path};
use crate::editor_input::{TextInput, KeyPress, Key, spec_input_key};
use crate::field_ref::path_set;
use crate::text::{split_on, split_string, trim, trim_chars, chars_of, string_from_chars, str_eq, append_str, views};

verus! {

/// The widget state of one field.
pub enum FieldEditState {
    Text(TextInput),
    Bool(bool),
    Enum { choice: EnumChoice, selected: usize },
    StringList(TextInput),
    /// A receiver's inline `operators:` list, edited on its own screens;
    /// this holds the staged list between them.
    OperatorList(Vec<JsonValue>),
}

/// Whether a widget state is the widget of a field kind, with its
/// selection in range and its cursor within its text.
pub open spec fn state_fits(kind: FieldKind, st: FieldEditState) -> bool {
    match st {
        FieldEditState::Text(i) => (kind == FieldKind::Str || kind == FieldKind::Duration) && i.wf(),
        FieldEditState::Bool(_) => kind == FieldKind::Bool,
        FieldEditState::Enum { choice, selected } => kind == FieldKind::Enum(choice) && selected < choice_options(choice).len(),
        FieldEditState::StringList(i) => kind == FieldKind::StringList && i.wf(),
        FieldEditState::OperatorList(_) => kind == FieldKind::OperatorList,
    }
}

/// The trimmed, non-empty parts of a list of texts.
pub open spec fn nonempty_trimmed(parts: Seq<Seq<char>>) -> Seq<Seq<char>>
    decreases parts.len(),
{
    if parts.len() == 0 {
        Seq::empty()
    } else {
        let prev = nonempty_trimmed(parts.drop_last());
        let t = trim(parts.last());
        if t.len() == 0 {
            prev
        } else {
            prev.push(t)
        }
    }
}

/// The items of a comma-separated list: each part trimmed, empty ones
/// dropped.
pub open spec fn list_items(text: Seq<char>) -> Seq<Seq<char>> {
    nonempty_trimmed(split_on(text, ','))
}

/// An array of strings.
pub open spec fn str_arr(items: Seq<Seq<char>>) -> JVal {
    JVal::Arr(Seq::new(items.len(), |i: int| JVal::Str(items[i])))
}

/// What a widget writes into the form's value, if anything: empty text
/// and empty lists write nothing.
pub open spec fn field_contribution(st: FieldEditState) -> Option<JVal> {
    match st {
        FieldEditState::Text(i) => if i.value@.len() == 0 {
            None
        } else {
            Some(JVal::Str(i.value@))
        },
        FieldEditState::Bool(b) => Some(JVal::Bool(b)),
        FieldEditState::Enum { choice, selected } => Some(JVal::Str(choice_options(choice)[selected as int])),
        FieldEditState::StringList(i) => if list_items(i.value@).len() == 0 {
            None
        } else {
            Some(str_arr(list_items(i.value@)))
        },
        FieldEditState::OperatorList(ops) => if ops@.len() == 0 {
            None
        } else {
            Some(JVal::Arr(arr_model(ops@)))
        },
    }
}

/// The object the first `n` widgets write, each at its field's dotted
/// path, in order.
pub open spec fn form_obj(specs: Seq<FieldSpec>, states: Seq<FieldEditState>, n: nat) -> JObj
    decreases n,
{
    if n == 0 {
        Seq::empty()
    } else {
        let prev = form_obj(specs, states, (n - 1) as nat);
        match field_contribution(states[n - 1]) {
            Some(v) => path_set(prev, split_on(specs[n - 1].key@, '.'), v),
            None => prev,
        }
    }
}

/// The first operator-list field at or after `i`.
pub open spec fn first_op_from(specs: Seq<FieldSpec>, i: int) -> Option<int>
    decreases specs.len() - i,
{
    if i < 0 || i >= specs.len() {
        None
    } else if specs[i].kind == FieldKind::OperatorList {
        Some(i)
    } else {
        first_op_from(specs, i + 1)
    }
}

proof fn lemma_first_op_bounds(specs: Seq<FieldSpec>, i: int)
    ensures
        first_op_from(specs, i) matches Some(k) ==> i <= k < specs.len() && specs[k].kind == FieldKind::OperatorList,
    decreases specs.len() - i,
{
    if 0 <= i < specs.len() && specs[i].kind != FieldKind::OperatorList {
        lemma_first_op_bounds(specs, i + 1);
    }
}

/// A form with a non-empty operator list has an operator-list field.
pub proof fn lemma_operators_some(f: FormState)
    ensures
        f.operators_model().len() > 0 ==> f.operator_index() is Some,
{
}

/// How a form ends a key.
#[derive(Clone, Copy, Debug, PartialEq, Eq, Structural)]
pub enum FormOutcome {
    Continue,
    Submit,
    Cancel,
}

/// A form: the fields of a type and a widget for each.
pub struct FormState {
    /// The type shown with the form; `None` for a pipeline, which has no
    /// type of its own.
    pub kind_name: Option<&'static str>,
    /// Components take their type from their id, so their forms write no
    /// `type` key; operators have no id, so theirs do.
    pub write_type_key: bool,
    pub fields_spec: Vec<FieldSpec>,
    pub fields: Vec<FieldEditState>,
    pub focused: usize,
}

/// The next field, wrapping around.
pub open spec fn next_focus(focused: nat, len: nat) -> nat {
    if len == 0 {
        0
    } else {
        (focused + 1) % len
    }
}

/// The previous field, wrapping around.
pub open spec fn prev_focus(focused: nat, len: nat) -> nat {
    if focused == 0 {
        if len == 0 {
            0
        } else {
            (len - 1) as nat
        }
    } else {
        (focused - 1) as nat
    }
}

/// What a key does to the focused widget.
pub open spec fn field_after_key(st: FieldEditState, key: KeyPress, r: FieldEditState) -> bool {
    match st {
        FieldEditState::Enum { choice, selected } => {
            let n = choice_options(choice).len();
            r == match key.code {
                Key::Left => FieldEditState::Enum { choice, selected: if selected == 0 { (n - 1) as usize } else { (selected - 1) as usize } },
                Key::Right => FieldEditState::Enum { choice, selected: ((selected + 1) % (n as int)) as usize },
                _ => st,
            }
        },
        FieldEditState::Bool(b) => r == match key.code {
            Key::Left | Key::Right | Key::Char(' ') => FieldEditState::Bool(!b),
            _ => st,
        },
        FieldEditState::Text(i) => r matches FieldEditState::Text(j) && (j.value@, j.cursor as nat) == spec_input_key(i.value@, i.cursor as nat, key),
        FieldEditState::StringList(i) => r matches FieldEditState::StringList(j) && (j.value@, j.cursor as nat) == spec_input_key(i.value@, i.cursor as nat, key),
        FieldEditState::OperatorList(_) => r == st,
    }
}

/// What a key other than Enter and Esc does to a form: Tab and BackTab
/// move the focus, any other key goes to the focused widget.
pub open spec fn form_after_key(f: FormState, key: KeyPress, g: FormState) -> bool {
    &&& g.fields_spec == f.fields_spec
    &&& g.kind_name == f.kind_name
    &&& g.write_type_key == f.write_type_key
    &&& match key.code {
        Key::Tab => g.fields == f.fields && g.focused == next_focus(f.focused as nat, f.fields@.len()),
        Key::BackTab => g.fields == f.fields && g.focused == prev_focus(f.focused as nat, f.fields@.len()),
        _ => {
            &&& g.focused == f.focused
            &&& g.fields@.len() == f.fields@.len()
            &&& forall|j: int| 0 <= j < f.fields@.len() && j != f.focused ==> g.fields@[j] == f.fields@[j]
            &&& f.focused < f.fields@.len() ==> field_after_key(f.fields@[f.focused as int], key, g.fields@[f.focused as int])
        },
    }
}

impl FormState {
    pub open spec fn wf(&self) -> bool {
        &&& self.fields@.len() == self.fields_spec@.len()
        &&& (self.focused < self.fields@.len() || (self.fields@.len() == 0 && self.focused == 0))
        &&& forall|i: int| 0 <= i < self.fields@.len() ==> state_fits(self.fields_spec@[i].kind, #[trigger] self.fields@[i])
    }

    /// The value the form writes.
    pub open spec fn value_model(&self) -> JVal {
        let o = form_obj(self.fields_spec@, self.fields@, self.fields@.len());
        JVal::Obj(
            match self.kind_name {
                Some(t) => if self.write_type_key {
                    obj_insert(o, "type"@, JVal::Str(t@))
                } else {
                    o
                },
                None => o,
            },
        )
    }

    /// Position of the operator-list field, if the form has one.
    pub open spec fn operator_index(&self) -> Option<int> {
        first_op_from(self.fields_spec@, 0)
    }

    /// The staged operator list.
    pub open spec fn operators_model(&self) -> Seq<JVal> {
        match self.operator_index() {
            Some(i) => match self.fields@[i] {
                FieldEditState::OperatorList(ops) => arr_model(ops@),
                _ => Seq::empty(),
            },
            None => Seq::empty(),
        }
    }

    /// A form over `fields_spec`, each widget seeded from `value`.
    pub fn new(kind_name: Option<&'static str>, write_type_key: bool, fields_spec: Vec<FieldSpec>, value: &JsonValue) -> (r: FormState)
        ensures
            r.wf(),
            r.kind_name == kind_name,
            r.write_type_key == write_type_key,
            r.fields_spec@ == fields_spec@,
            r.focused == 0,
            forall|i: int| 0 <= i < r.fields@.len() ==> seeded_from(fields_spec@[i], value@, #[trigger] r.fields@[i]),
    {
        let mut fields: Vec<FieldEditState> = Vec::new();
        let mut i: usize = 0;
        while i < fields_spec.len()
            invariant
                i <= fields_spec@.len(),
                fields@.len() == i,
                forall|j: int| 0 <= j < i ==> seeded_from(fields_spec@[j], value@, #[trigger] fields@[j]),
            decreases fields_spec@.len() - i,
        {
            let st = field_edit_state_from(&fields_spec[i], value);
            fields.push(st);
            i = i + 1;
        }
        let r = FormState { kind_name, write_type_key, fields_spec, fields, focused: 0 };
        assert forall|j: int| 0 <= j < r.fields@.len() implies state_fits(r.fields_spec@[j].kind, #[trigger] r.fields@[j]) by {
            lemma_seeded_fits(r.fields_spec@[j], value@, r.fields@[j]);
        }
        r
    }

    /// The value the form writes: each widget's value at its field's
    /// dotted path, and `type` where the form writes one.
    pub fn to_value(&self) -> (r: JsonValue)
        requires
            self.wf(),
        ensures
            r@ == self.value_model(),
    {
        let mut map: JsonMap = Vec::new();
        let mut i: usize = 0;
        assert(obj_model(map@) =~= Seq::<(Seq<char>, JVal)>::empty());
        while i < self.fields.len()
            invariant
                self.wf(),
                i <= self.fields@.len(),
                obj_model(map@) == form_obj(self.fields_spec@, self.fields@, i as nat),
            decreases self.fields@.len() - i,
        {
            assert(state_fits(self.fields_spec@[i as int].kind, self.fields@[i as int]));
            let c = contribution(&self.fields[i]);
            match c {
                Some(v) => {
                    set_path(&mut map, self.fields_spec[i].key, v);
                },
                None => {},
            }
            i = i + 1;
        }
        if self.write_type_key {
            match self.kind_name {
                Some(t) => {
                    map_insert(&mut map, "type".to_owned(), JsonValue::Str(t.to_owned()));
                },
                None => {},
            }
        }
        let ghost mm = map;
        proof {
            lemma_object_view(mm);
        }
        JsonValue::Object(map)
    }

    /// The kind of the focused field.
    pub fn focused_kind(&self) -> (r: Option<FieldKind>)
        ensures
            self.focused < self.fields_spec@.len() ==> r == Some(self.fields_spec@[self.focused as int].kind),
            self.focused >= self.fields_spec@.len() ==> r is None,
    {
        if self.focused < self.fields_spec.len() {
            Some(self.fields_spec[self.focused].kind)
        } else {
            None
        }
    }

    /// Moves the focus to the next field, wrapping around.
    pub fn advance_focus(&mut self)
        requires
            old(self).wf(),
        ensures
            final(self).wf(),
            final(self).focused == next_focus(old(self).focused as nat, old(self).fields@.len()),
            final(self).fields == old(self).fields,
            final(self).fields_spec == old(self).fields_spec,
            final(self).kind_name == old(self).kind_name,
            final(self).write_type_key == old(self).write_type_key,
    {
        let n = self.fields.len();
        if n == 0 {
            self.focused = 0;
        } else {
            self.focused = (self.focused + 1) % n;
        }
    }

    /// Position of the operator-list field, if the form has one.
    pub fn operator_list_index(&self) -> (r: Option<usize>)
        ensures
            r matches Some(i) ==> i < self.fields_spec@.len() && self.fields_spec@[i as int].kind == FieldKind::OperatorList,
            match self.operator_index() {
                Some(i) => r == Some(i as usize),
                None => r is None,
            },
    {
        let mut i: usize = 0;
        while i < self.fields_spec.len()
            invariant
                i <= self.fields_spec@.len(),
                first_op_from(self.fields_spec@, 0) == first_op_from(self.fields_spec@, i as int),
            decreases self.fields_spec@.len() - i,
        {
            if matches!(self.fields_spec[i].kind, FieldKind::OperatorList) {
                return Some(i);
            }
            i = i + 1;
        }
        None
    }

    /// A copy of the staged operator list.
    pub fn operators(&self) -> (r: Vec<JsonValue>)
        requires
            self.wf(),
        ensures
            arr_model(r@) == self.operators_model(),
    {
        proof {
            lemma_first_op_bounds(self.fields_spec@, 0);
            assert(self.fields_spec@.len() == self.fields_spec.len());
        }
        match self.operator_list_index() {
            Some(i) => match &self.fields[i] {
                FieldEditState::OperatorList(ops) => {
                    assert(self.operator_index() == Some(i as int));
                    assert(self.fields@[i as int] == FieldEditState::OperatorList(*ops));
                    copy_array(ops)
                },
                _ => {
                    let v: Vec<JsonValue> = Vec::new();
                    assert(arr_model(v@) =~= Seq::<JVal>::empty());
                    v
                },
            },
            None => {
                let v: Vec<JsonValue> = Vec::new();
                assert(arr_model(v@) =~= Seq::<JVal>::empty());
                v
            },
        }
    }

    /// Replaces the staged operator list, where the form has one.
    pub fn set_operators(&mut self, ops: Vec<JsonValue>)
        requires
            old(self).wf(),
        ensures
            final(self).wf(),
            final(self).fields_spec == old(self).fields_spec,
            final(self).focused == old(self).focused,
            final(self).kind_name == old(self).kind_name,
            final(self).write_type_key == old(self).write_type_key,
            match old(self).operator_index() {
                Some(i) => final(self).fields@ == old(self).fields@.update(i, FieldEditState::OperatorList(ops)),
                None => final(self).fields@ == old(self).fields@,
            },
            old(self).operator_index() is Some ==> final(self).operators_model() == arr_model(ops@),
    {
        proof {
            lemma_first_op_bounds(self.fields_spec@, 0);
            assert(self.fields_spec@.len() == self.fields_spec.len());
        }
        match self.operator_list_index() {
            Some(i) => {
                assert(state_fits(self.fields_spec@[i as int].kind, self.fields@[i as int]));
                self.fields.set(i, FieldEditState::OperatorList(ops));
                assert forall|j: int| 0 <= j < self.fields@.len() implies state_fits(self.fields_spec@[j].kind, #[trigger] self.fields@[j]) by {
                    if j != i {
                        assert(self.fields@[j] == old(self).fields@[j]);
                    }
                }
            },
            None => {},
        }
    }

    /// Handles a key: Enter submits, Esc cancels, Tab and BackTab move the
    /// focus, any other key goes to the focused widget.
    pub fn on_key(&mut self, key: KeyPress) -> (r: FormOutcome)
        requires
            old(self).wf(),
        ensures
            final(self).wf(),
            final(self).fields_spec == old(self).fields_spec,
            final(self).kind_name == old(self).kind_name,
            final(self).write_type_key == old(self).write_type_key,
            key.code == Key::Enter ==> r == FormOutcome::Submit && *final(self) == *old(self),
            key.code == Key::Esc ==> r == FormOutcome::Cancel && *final(self) == *old(self),
            !(key.code == Key::Enter || key.code == Key::Esc) ==> r == FormOutcome::Continue && form_after_key(*old(self), key, *final(self)),
    {
        let n = self.fields.len();
        match key.code {
            Key::Enter => {
                return FormOutcome::Submit;
            },
            Key::Esc => {
                return FormOutcome::Cancel;
            },
            Key::Tab => {
                self.focused = if n == 0 { 0 } else { (self.focused + 1) % n };
                return FormOutcome::Continue;
            },
            Key::BackTab => {
                self.focused = if self.focused == 0 {
                    if n == 0 { 0 } else { n - 1 }
                } else {
                    self.focused - 1
                };
                return FormOutcome::Continue;
            },
            _ => {},
        }
        let f = self.focused;
        if f < n {
            assert(state_fits(self.fields_spec@[f as int].kind, self.fields@[f as int]));
            let st = self.fields.remove(f);
            assert(state_fits(self.fields_spec@[f as int].kind, st));
            let next = field_with_key(st, key);
            self.fields.insert(f, next);
            assert(self.fields@ =~= old(self).fields@.update(f as int, next));
            assert forall|j: int| 0 <= j < self.fields@.len() implies state_fits(self.fields_spec@[j].kind, #[trigger] self.fields@[j]) by {
                if j != f {
                    assert(self.fields@[j] == old(self).fields@[j]);
                }
            }
        }
        FormOutcome::Continue
    }
}

/// The widget a key leaves behind.
fn field_with_key(st: FieldEditState, key: KeyPress) -> (r: FieldEditState)
    requires
        exists|k: FieldKind| state_fits(k, st),
    ensures
        field_after_key(st, key, r),
        forall|k: FieldKind| state_fits(k, st) ==> state_fits(k, r),
{
    match st {
        FieldEditState::Enum { choice, selected } => {
            let n = choice.options().len();
            match key.code {
                Key::Left => FieldEditState::Enum { choice, selected: if selected == 0 { n - 1 } else { selected - 1 } },
                Key::Right => FieldEditState::Enum { choice, selected: (selected + 1) % n },
                _ => FieldEditState::Enum { choice, selected },
            }
        },
        FieldEditState::Bool(b) => match key.code {
            Key::Left | Key::Right | Key::Char(' ') => FieldEditState::Bool(!b),
            _ => FieldEditState::Bool(b),
        },
        FieldEditState::Text(i) => FieldEditState::Text(i.with_key(key)),
        FieldEditState::StringList(i) => FieldEditState::StringList(i.with_key(key)),
        FieldEditState::OperatorList(ops) => FieldEditState::OperatorList(ops),
    }
}

/// What one widget writes.
fn contribution(st: &FieldEditState) -> (r: Option<JsonValue>)
    requires
        exists|k: FieldKind| state_fits(k, *st),
    ensures
        match field_contribution(*st) {
            Some(v) => r matches Some(x) && x@ == v,
            None => r is None,
        },
{
    match st {
        FieldEditState::Text(i) => {
            if i.value.as_str().is_empty() {
                None
            } else {
                Some(JsonValue::Str(i.value.as_str().to_owned()))
            }
        },
        FieldEditState::Bool(b) => Some(JsonValue::Bool(*b)),
        FieldEditState::Enum { choice, selected } => {
            let opts = choice.options();
            Some(JsonValue::Str(opts[*selected].to_owned()))
        },
        FieldEditState::StringList(i) => {
            let items = list_items_exec(i.value.as_str());
            if items.len() == 0 {
                None
            } else {
                Some(strings_value(&items))
            }
        },
        FieldEditState::OperatorList(ops) => {
            if ops.len() == 0 {
                None
            } else {
                let c = copy_array(ops);
                let ghost cv = c;
                proof {
                    lemma_array_view(cv);
                }
                Some(JsonValue::Array(c))
            }
        },
    }
}

/// The items of a comma-separated list.
pub fn list_items_exec(text: &str) -> (r: Vec<String>)
    ensures
        views(r@) == list_items(text@),
{
    let parts = split_string(text, ',');
    let ghost sp = split_on(text@, ',');
    let mut out: Vec<String> = Vec::new();
    let mut i: usize = 0;
    assert(sp.take(0) =~= Seq::<Seq<char>>::empty());
    while i < parts.len()
        invariant
            i <= parts@.len(),
            parts@.len() == sp.len(),
            sp == split_on(text@, ','),
            forall|j: int| 0 <= j < parts@.len() ==> #[trigger] parts@[j]@ == sp[j],
            out@.len() == nonempty_trimmed(sp.take(i as int)).len(),
            forall|j: int| 0 <= j < out@.len() ==> #[trigger] out@[j]@ == nonempty_trimmed(sp.take(i as int))[j],
        decreases parts@.len() - i,
    {
        assert(sp.take(i + 1).drop_last() =~= sp.take(i as int));
        assert(sp.take(i + 1).last() == parts@[i as int]@);
        let cs = chars_of(parts[i].as_str());
        let t = trim_chars(&cs);
        if t.len() > 0 {
            let ts = string_from_chars(t.as_slice());
            out.push(ts);
        }
        i = i + 1;
    }
    assert(sp.take(i as int) =~= sp);
    assert(views(out@) =~= list_items(text@));
    out
}

/// An array of strings.
fn strings_value(items: &Vec<String>) -> (r: JsonValue)
    ensures
        r@ == str_arr(views(items@)),
{
    let mut a: Vec<JsonValue> = Vec::new();
    let mut i: usize = 0;
    while i < items.len()
        invariant
            i <= items@.len(),
            a@.len() == i,
            forall|j: int| 0 <= j < i ==> #[trigger] a@[j]@ == JVal::Str(items@[j]@),
        decreases items@.len() - i,
    {
        a.push(JsonValue::Str(items[i].as_str().to_owned()));
        i = i + 1;
    }
    let ghost av = a;
    proof {
        lemma_array_view(av);
        assert forall|j: int| 0 <= j < items@.len() implies arr_model(a@)[j] == JVal::Str(views(items@)[j]) by {
            assert(a@[j]@ == JVal::Str(items@[j]@));
        }
        assert(arr_model(a@) =~= Seq::new(items@.len(), |j: int| JVal::Str(views(items@)[j])));
    }
    JsonValue::Array(a)
}

/// The strings of an array, others skipped.
pub open spec fn str_items(a: Seq<JVal>) -> Seq<Seq<char>>
    decreases a.len(),
{
    if a.len() == 0 {
        Seq::empty()
    } else {
        let p = str_items(a.drop_last());
        match a.last() {
            JVal::Str(s) => p.push(s),
            _ => p,
        }
    }
}

/// Texts joined with `", "`.
pub open spec fn join_comma(items: Seq<Seq<char>>) -> Seq<char>
    decreases items.len(),
{
    if items.len() == 0 {
        Seq::empty()
    } else if items.len() == 1 {
        items[0]
    } else {
        join_comma(items.drop_last()) + ", "@ + items.last()
    }
}

/// The value at a field's path.
pub open spec fn field_current(fs: FieldSpec, v: JVal) -> Option<JVal> {
    value_path(v, split_on(fs.key@, '.'))
}

/// The option an enum field starts on: the current string, else the
/// default, else the first option.
pub open spec fn enum_start(fs: FieldSpec, v: JVal, choice: EnumChoice) -> Seq<char> {
    match field_current(fs, v) {
        Some(JVal::Str(s)) => s,
        _ => match fs.default {
            Some(d) => d@,
            None => choice_options(choice)[0],
        },
    }
}

/// The state a checkbox starts in: the current boolean, else the default
/// read as a boolean, else off.
pub open spec fn bool_start(fs: FieldSpec, v: JVal) -> bool {
    match field_current(fs, v) {
        Some(JVal::Bool(b)) => b,
        _ => match fs.default {
            Some(d) => d@ == "true"@,
            None => false,
        },
    }
}

/// The text a list field starts with: the current array's strings joined.
pub open spec fn list_start(fs: FieldSpec, v: JVal) -> Seq<char> {
    match field_current(fs, v) {
        Some(JVal::Arr(a)) => join_comma(str_items(a)),
        _ => Seq::empty(),
    }
}

/// The operators an operator list starts with.
pub open spec fn ops_start(fs: FieldSpec, v: JVal) -> Seq<JVal> {
    match field_current(fs, v) {
        Some(JVal::Arr(a)) => a,
        _ => Seq::empty(),
    }
}

/// How a value shows in a text field: a string as itself, anything else
/// as its JSON text.
pub open spec fn display_text(v: JVal) -> Seq<char> {
    match v {
        JVal::Str(s) => s,
        other => spec_json_text(other),
    }
}

/// The text a text field starts with: the current value shown, else the
/// default, else empty.
pub open spec fn text_start(fs: FieldSpec, v: JVal) -> Seq<char> {
    match field_current(fs, v) {
        Some(x) => display_text(x),
        None => match fs.default {
            Some(d) => d@,
            None => Seq::empty(),
        },
    }
}

/// The widget a field starts as for a value.
pub open spec fn seeded_from(fs: FieldSpec, v: JVal, st: FieldEditState) -> bool {
    match fs.kind {
        FieldKind::Enum(choice) => {
            let opts = choice_options(choice);
            let cur = enum_start(fs, v, choice);
            st matches FieldEditState::Enum { choice: c, selected } && c == choice && selected < opts.len() && if opts.contains(cur) {
                opts[selected as int] == cur && forall|j: int| 0 <= j < selected ==> opts[j] != cur
            } else {
                selected == 0
            }
        },
        FieldKind::Bool => st == FieldEditState::Bool(bool_start(fs, v)),
        FieldKind::StringList => st matches FieldEditState::StringList(i) && i.value@ == list_start(fs, v) && i.cursor == i.value@.len(),
        FieldKind::OperatorList => st matches FieldEditState::OperatorList(ops) && arr_model(ops@) == ops_start(fs, v),
        _ => st matches FieldEditState::Text(i) && i.value@ == text_start(fs, v) && i.cursor == i.value@.len(),
    }
}

proof fn lemma_seeded_fits(fs: FieldSpec, v: JVal, st: FieldEditState)
    requires
        seeded_from(fs, v, st),
    ensures
        state_fits(fs.kind, st),
{
}

/// The widget a field starts as, seeded from the current value.
pub fn field_edit_state_from(spec: &FieldSpec, value: &JsonValue) -> (r: FieldEditState)
    ensures
        seeded_from(*spec, value@, r),
{
    let current = get_path(value, spec.key);
    match spec.kind {
        FieldKind::Enum(choice) => {
            let opts = choice.options();
            let cur: &str = match current {
                Some(v) => match v.as_str() {
                    Some(s) => s,
                    None => match spec.default {
                        Some(d) => d,
                        None => opts[0],
                    },
                },
                None => match spec.default {
                    Some(d) => d,
                    None => opts[0],
                },
            };
            assert(cur@ == enum_start(*spec, value@, choice));
            let mut k: usize = 0;
            while k < opts.len()
                invariant
                    k <= opts@.len(),
                    opts@.len() == choice_options(choice).len(),
                    forall|i: int| 0 <= i < opts@.len() ==> #[trigger] opts@[i]@ == choice_options(choice)[i],
                    forall|j: int| 0 <= j < k ==> choice_options(choice)[j] != cur@,
                    cur@ == enum_start(*spec, value@, choice),
                    spec.kind == FieldKind::Enum(choice),
                decreases opts@.len() - k,
            {
                if str_eq(opts[k], cur) {
                    assert(choice_options(choice)[k as int] == cur@);
                    assert(choice_options(choice).contains(cur@));
                    return FieldEditState::Enum { choice, selected: k };
                }
                k = k + 1;
            }
            assert(!choice_options(choice).contains(cur@));
            FieldEditState::Enum { choice, selected: 0 }
        },
        FieldKind::Bool => {
            let b = match current {
                Some(JsonValue::Bool(b)) => *b,
                _ => match spec.default {
                    Some(d) => str_eq(d, "true"),
                    None => false,
                },
            };
            FieldEditState::Bool(b)
        },
        FieldKind::StringList => {
            let joined = match current {
                Some(v) => match v.as_array() {
                    Some(a) => join_strings(a),
                    None => String::new(),
                },
                None => String::new(),
            };
            FieldEditState::StringList(TextInput::new(joined))
        },
        FieldKind::OperatorList => {
            let ops = match current {
                Some(v) => match v.as_array() {
                    Some(a) => copy_array(a),
                    None => {
                        let e: Vec<JsonValue> = Vec::new();
                        assert(arr_model(e@) =~= Seq::<JVal>::empty());
                        e
                    },
                },
                None => {
                    let e: Vec<JsonValue> = Vec::new();
                    assert(arr_model(e@) =~= Seq::<JVal>::empty());
                    e
                },
            };
            FieldEditState::OperatorList(ops)
        },
        _ => {
            let text = match current {
                Some(v) => value_to_display_string(v),
                None => match spec.default {
                    Some(d) => d.to_owned(),
                    None => String::new(),
                },
            };
            FieldEditState::Text(TextInput::new(text))
        },
    }
}

/// The strings of an array joined with `", "`, other elements skipped.
fn join_strings(a: &Vec<JsonValue>) -> (r: String)
    ensures
        r@ == join_comma(str_items(arr_model(a@))),
{
    let ghost m = arr_model(a@);
    let mut out = String::new();
    let mut count: usize = 0;
    let mut i: usize = 0;
    assert(m.take(0) =~= Seq::<JVal>::empty());
    while i < a.len()
        invariant
            i <= a@.len(),
            m == arr_model(a@),
            count <= i,
            count == str_items(m.take(i as int)).len(),
            out@ == join_comma(str_items(m.take(i as int))),
        decreases a@.len() - i,
    {
        assert(m.take(i + 1).drop_last() =~= m.take(i as int));
        assert(m.take(i + 1).last() == a@[i as int]@);
        match a[i].as_str() {
            Some(s) => {
                let ghost items = str_items(m.take(i as int));
                if count > 0 {
                    append_str(&mut out, ", ");
                }
                append_str(&mut out, s);
                proof {
                    let ni = items.push(s@);
                    assert(ni.drop_last() =~= items);
                    if items.len() == 0 {
                        assert(out@ =~= ni[0]);
                    } else {
                        assert(out@ =~= join_comma(items) + ", "@ + ni.last());
                    }
                }
                count = count + 1;
            },
            None => {},
        }
        i = i + 1;
    }
    assert(m.take(i as int) =~= m);
    out
}

/// How a value shows in a text field.
pub fn value_to_display_string(value: &JsonValue) -> (r: String)
    ensures
        r@ == display_text(value@),
{
    match value {
        JsonValue::Str(s) => s.as_str().to_owned(),
        other => json_text(other),
    }
}


/// An item of a list: non-empty, trimmed, and without `d`.
pub open spec fn clean_item(x: Seq<char>, d: char) -> bool {
    &&& x.len() > 0
    &&& trim(x) == x
    &&& forall|j: int| 0 <= j < x.len() ==> x[j] != d
}

proof fn lemma_nonempty_trimmed_clean(parts: Seq<Seq<char>>, d: char)
    requires
        forall|k: int, j: int| 0 <= k < parts.len() && 0 <= j < parts[k].len() ==> #[trigger] parts[k][j] != d,
    ensures
        forall|i: int| 0 <= i < nonempty_trimmed(parts).len() ==> clean_item(#[trigger] nonempty_trimmed(parts)[i], d),
    decreases parts.len(),
{
    if parts.len() > 0 {
        let init = parts.drop_last();
        assert forall|k: int, j: int| 0 <= k < init.len() && 0 <= j < init[k].len() implies #[trigger] init[k][j] != d by {
            assert(init[k] == parts[k]);
            assert(parts[k][j] != d);
        }
        lemma_nonempty_trimmed_clean(init, d);
        let last = parts.last();
        assert forall|j: int| 0 <= j < last.len() implies last[j] != d by {
            assert(parts[parts.len() - 1][j] != d);
        }
        crate::text::lemma_trim_clean(last, d);
        let prev = nonempty_trimmed(init);
        let t = trim(last);
        assert forall|i: int| 0 <= i < nonempty_trimmed(parts).len() implies clean_item(#[trigger] nonempty_trimmed(parts)[i], d) by {
            if i < prev.len() {
                assert(nonempty_trimmed(parts)[i] == prev[i]);
                assert(clean_item(prev[i], d));
            } else {
                assert(nonempty_trimmed(parts)[i] == t);
            }
        }
    }
}

proof fn lemma_nonempty_trimmed_concat(a: Seq<Seq<char>>, b: Seq<Seq<char>>)
    ensures
        nonempty_trimmed(a + b) == nonempty_trimmed(a) + nonempty_trimmed(b),
    decreases b.len(),
{
    if b.len() == 0 {
        assert(a + b =~= a);
        assert(nonempty_trimmed(a) + nonempty_trimmed(b) =~= nonempty_trimmed(a));
    } else {
        lemma_nonempty_trimmed_concat(a, b.drop_last());
        assert((a + b).drop_last() =~= a + b.drop_last());
        assert((a + b).last() == b.last());
        let t = trim(b.last());
        if t.len() != 0 {
            assert(nonempty_trimmed(a) + nonempty_trimmed(b.drop_last()).push(t) =~= (nonempty_trimmed(a)
                + nonempty_trimmed(b.drop_last())).push(t));
        }
    }
}

proof fn lemma_single_piece(x: Seq<char>)
    requires
        clean_item(x, ','),
    ensures
        nonempty_trimmed(seq![x]) == seq![x],
{
    let e = Seq::<Seq<char>>::empty();
    assert(seq![x].drop_last() =~= e);
    assert(nonempty_trimmed(e) == e);
    assert(e.push(x) =~= seq![x]);
}

/// Joining clean items with `", "` and reading the list back gives the
/// items.
proof fn lemma_join_list_items(items: Seq<Seq<char>>)
    requires
        items.len() > 0,
        forall|i: int| 0 <= i < items.len() ==> clean_item(#[trigger] items[i], ','),
    ensures
        list_items(join_comma(items)) == items,
    decreases items.len(),
{
    if items.len() == 1 {
        assert(clean_item(items[0], ','));
        crate::text::lemma_split_whole(items[0], ',');
        lemma_single_piece(items[0]);
        assert(seq![items[0]] =~= items);
    } else {
        let init = items.drop_last();
        let last = items.last();
        assert forall|i: int| 0 <= i < init.len() implies clean_item(#[trigger] init[i], ',') by {
            assert(init[i] == items[i]);
        }
        lemma_join_list_items(init);
        assert(clean_item(items[items.len() - 1], ','));
        reveal_strlit(", ");
        let sp = seq![' '] + last;
        assert(join_comma(items) =~= join_comma(init) + seq![','] + sp);
        crate::text::lemma_split_concat(join_comma(init), sp, ',');
        assert forall|j: int| 0 <= j < sp.len() implies sp[j] != ',' by {
            if j > 0 {
                assert(sp[j] == last[j - 1]);
            }
        }
        crate::text::lemma_split_whole(sp, ',');
        lemma_nonempty_trimmed_concat(split_on(join_comma(init), ','), seq![sp]);
        crate::text::lemma_trim_space_before(last);
        let e = Seq::<Seq<char>>::empty();
        assert(seq![sp].drop_last() =~= e);
        assert(nonempty_trimmed(e) == e);
        assert(nonempty_trimmed(seq![sp]) =~= seq![last]);
        assert(init + seq![last] =~= items);
    }
}

proof fn lemma_str_items_arr(items: Seq<Seq<char>>)
    ensures
        str_items(Seq::new(items.len(), |i: int| JVal::Str(items[i]))) == items,
    decreases items.len(),
{
    let a = Seq::new(items.len(), |i: int| JVal::Str(items[i]));
    if items.len() > 0 {
        let init = items.drop_last();
        lemma_str_items_arr(init);
        assert(a.drop_last() =~= Seq::new(init.len(), |i: int| JVal::Str(init[i])));
        assert(a.last() == JVal::Str(items.last()));
        assert(init.push(items.last()) =~= items);
    } else {
        assert(items =~= Seq::<Seq<char>>::empty());
    }
}

/// A widget that wrote a value, seeded again from that value, writes it
/// again.
proof fn lemma_field_reseed(fs: FieldSpec, st: FieldEditState, v: JVal, fs2: FieldSpec, st2: FieldEditState)
    requires
        state_fits(fs.kind, st),
        field_contribution(st) is Some,
        field_current(fs, v) == field_contribution(st),
        fs2.key@ == fs.key@,
        fs2.kind == fs.kind,
        seeded_from(fs2, v, st2),
    ensures
        field_contribution(st2) == field_contribution(st),
{
    assert(field_current(fs2, v) == field_current(fs, v));
    match st {
        FieldEditState::Enum { choice, selected } => {
            let opts = choice_options(choice);
            assert(opts[selected as int] == enum_start(fs2, v, choice));
            assert(opts.contains(enum_start(fs2, v, choice)));
        },
        FieldEditState::StringList(i) => {
            let items = list_items(i.value@);
            crate::text::lemma_split_pieces_free(i.value@, ',');
            lemma_nonempty_trimmed_clean(split_on(i.value@, ','), ',');
            lemma_str_items_arr(items);
            assert(list_start(fs2, v) == join_comma(items));
            lemma_join_list_items(items);
        },
        FieldEditState::OperatorList(ops) => {
            if let FieldEditState::OperatorList(ops2) = st2 {
                assert(arr_model(ops2@).len() == ops2@.len());
            }
        },
        _ => {},
    }
}

/// What the first `n` widgets write is read back, at each widget's path,
/// as that widget's value, where no two paths overlap.
proof fn lemma_form_obj_at(specs: Seq<FieldSpec>, states: Seq<FieldEditState>, n: nat, i: int)
    requires
        0 <= i < n,
        n <= states.len(),
        n <= specs.len(),
        crate::editor_schema::fields_apart(crate::editor_schema::field_models(specs)),
        field_contribution(states[i]) is Some,
    ensures
        value_path(JVal::Obj(form_obj(specs, states, n)), split_on(specs[i].key@, '.')) == field_contribution(states[i]),
    decreases n,
{
    let prev = form_obj(specs, states, (n - 1) as nat);
    let path_i = split_on(specs[i].key@, '.');
    if i == n - 1 {
        if let Some(c) = field_contribution(states[i]) {
            crate::editor_schema::law_get_path_after_set_path(prev, specs[i].key@, c);
        }
    } else {
        lemma_form_obj_at(specs, states, (n - 1) as nat, i);
        if let Some(w) = field_contribution(states[n - 1]) {
            let ms = crate::editor_schema::field_models(specs);
            assert(ms[i].0 == specs[i].key@);
            assert(ms[n - 1].0 == specs[n - 1].key@);
            assert(crate::editor_schema::paths_apart(split_on(ms[n - 1].0, '.'), split_on(ms[i].0, '.')));
            crate::field_ref::lemma_split_nonempty_pub(specs[n - 1].key@, '.');
            crate::field_ref::lemma_split_nonempty_pub(specs[i].key@, '.');
            crate::editor_schema::lemma_value_path_set_apart(prev, split_on(specs[n - 1].key@, '.'), path_i, w);
        }
    }
}

/// Law: a form opened again on the value it wrote shows what was typed:
/// every field that wrote a value writes that same value again, at its
/// path, where no field's path is the start of another's.
pub proof fn law_reopen_keeps_typed(f: FormState, g: FormState)
    requires
        f.wf(),
        f.kind_name is None || !f.write_type_key,
        g.kind_name is None || !g.write_type_key,
        crate::editor_schema::fields_apart(crate::editor_schema::field_models(f.fields_spec@)),
        crate::editor_schema::field_models(g.fields_spec@) == crate::editor_schema::field_models(f.fields_spec@),
        g.fields@.len() == g.fields_spec@.len(),
        forall|j: int| 0 <= j < g.fields@.len() ==> seeded_from(g.fields_spec@[j], f.value_model(), #[trigger] g.fields@[j]),
    ensures
        forall|j: int|
            0 <= j < f.fields@.len() && (#[trigger] field_contribution(f.fields@[j])) is Some ==> {
                &&& value_path(f.value_model(), split_on(f.fields_spec@[j].key@, '.')) == field_contribution(f.fields@[j])
                &&& value_path(g.value_model(), split_on(f.fields_spec@[j].key@, '.')) == field_contribution(f.fields@[j])
            },
{
    let ms = crate::editor_schema::field_models(f.fields_spec@);
    assert(crate::editor_schema::field_models(g.fields_spec@).len() == ms.len());
    assert forall|j: int|
        0 <= j < f.fields@.len() && (#[trigger] field_contribution(f.fields@[j])) is Some implies {
            &&& value_path(f.value_model(), split_on(f.fields_spec@[j].key@, '.')) == field_contribution(f.fields@[j])
            &&& value_path(g.value_model(), split_on(f.fields_spec@[j].key@, '.')) == field_contribution(f.fields@[j])
        } by {
        lemma_form_obj_at(f.fields_spec@, f.fields@, f.fields@.len(), j);
        assert(state_fits(f.fields_spec@[j].kind, f.fields@[j]));
        assert(crate::editor_schema::field_models(g.fields_spec@)[j] == ms[j]);
        lemma_field_reseed(f.fields_spec@[j], f.fields@[j], f.value_model(), g.fields_spec@[j], g.fields@[j]);
        lemma_form_obj_at(g.fields_spec@, g.fields@, g.fields@.len(), j);
    }
}


/// How a widget's value shows in the form: its text, `true` or `false`,
/// the chosen option, or how many operators it holds.
pub open spec fn spec_field_text(st: FieldEditState) -> Seq<char> {
    match st {
        FieldEditState::Text(i) => i.value@,
        FieldEditState::StringList(i) => i.value@,
        FieldEditState::Bool(b) => if b {
            "true"@
        } else {
            "false"@
        },
        FieldEditState::Enum { choice, selected } => if selected < choice_options(choice).len() {
            choice_options(choice)[selected as int]
        } else {
            Seq::empty()
        },
        FieldEditState::OperatorList(ops) => crate::text::nat_text(ops@.len()) + " operator(s) -- press Enter to manage"@,
    }
}

pub fn field_text(st: &FieldEditState) -> (r: String)
    ensures
        r@ == spec_field_text(*st),
{
    match st {
        FieldEditState::Text(i) => i.value.clone(),
        FieldEditState::StringList(i) => i.value.clone(),
        FieldEditState::Bool(b) => if *b {
            "true".to_owned()
        } else {
            "false".to_owned()
        },
        FieldEditState::Enum { choice, selected } => {
            let options = choice.options();
            if *selected < options.len() {
                options[*selected].to_owned()
            } else {
                String::new()
            }
        },
        FieldEditState::OperatorList(ops) => {
            let mut out = crate::text::u64_to_text(ops.len() as u64);
            append_str(&mut out, " operator(s) -- press Enter to manage");
            out
        },
    }
}

} // verus!
