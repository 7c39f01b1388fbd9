//! The configuration editor's state machine: which screen is showing,
//! what a key does on it, and what the document becomes.
//!
//! Saving is the one outside step: a key asks for it (`save_requested`),
//! the terminal runner writes the file, and hands the outcome back to
//! `finish_save`.

use vstd::prelude::*;
use crate::json::{JsonValue, JsonMap, JVal, JObj, obj_model, arr_model, obj_insert, obj_remove, lookup, map_insert,
    map_remove, map_contains_key, map_get, lemma_array_view};
use crate::editor_schema::{ComponentCategory, FieldSpec, FieldKind, f, types_for, find_type, operator_type, operator_types,
    minimal_value, component_type, category_type_names, operator_type_names, spec_names, take_spec, ComponentTypeSpec,
    FieldModel, field_models, field_table, type_fields, operator_fields, operator_type_fields, spec_minimal};
use crate::editor_doc::{EditorDoc, keys_of, keys_exec, referencing, strip_def, spec_category_key};
use crate::editor_form::{FormState, FormOutcome, FieldEditState, seeded_from};
use crate::editor_input::{TextInput, KeyPress, Key};
use crate::editor_templates::{SourceTemplate, source_templates, find, build, all_template_keys, template_keys, build_model,
    registered_template};
use crate::text::{trim, chars_of, trim_chars, string_from_chars, append_str, str_contains, contains_sub, sort_strings,
    lex_sorted, views};
use crate::config::spec_component_type;

verus! {

/// The top-level tabs.
#[derive(Clone, Copy, Debug, PartialEq, Eq, Structural)]
pub enum TopTab {
    Receivers,
    Exporters,
    Extensions,
    Pipelines,
}

pub open spec fn tab_category(tab: TopTab) -> Option<ComponentCategory> {
    match tab {
        TopTab::Receivers => Some(ComponentCategory::Receiver),
        TopTab::Exporters => Some(ComponentCategory::Exporter),
        TopTab::Extensions => Some(ComponentCategory::Extension),
        TopTab::Pipelines => None,
    }
}

pub open spec fn tab_next(tab: TopTab) -> TopTab {
    match tab {
        TopTab::Receivers => TopTab::Exporters,
        TopTab::Exporters => TopTab::Extensions,
        TopTab::Extensions => TopTab::Pipelines,
        TopTab::Pipelines => TopTab::Receivers,
    }
}

pub open spec fn tab_prev(tab: TopTab) -> TopTab {
    match tab {
        TopTab::Receivers => TopTab::Pipelines,
        TopTab::Exporters => TopTab::Receivers,
        TopTab::Extensions => TopTab::Exporters,
        TopTab::Pipelines => TopTab::Extensions,
    }
}

/// The tab that lists a category.
pub open spec fn spec_tab_for(category: ComponentCategory) -> TopTab {
    match category {
        ComponentCategory::Receiver => TopTab::Receivers,
        ComponentCategory::Exporter => TopTab::Exporters,
        ComponentCategory::Extension => TopTab::Extensions,
    }
}

impl TopTab {
    pub fn category(self) -> (r: Option<ComponentCategory>)
        ensures
            r == tab_category(self),
    {
        match self {
            TopTab::Receivers => Some(ComponentCategory::Receiver),
            TopTab::Exporters => Some(ComponentCategory::Exporter),
            TopTab::Extensions => Some(ComponentCategory::Extension),
            TopTab::Pipelines => None,
        }
    }

    pub fn next(self) -> (r: TopTab)
        ensures
            r == tab_next(self),
    {
        match self {
            TopTab::Receivers => TopTab::Exporters,
            TopTab::Exporters => TopTab::Extensions,
            TopTab::Extensions => TopTab::Pipelines,
            TopTab::Pipelines => TopTab::Receivers,
        }
    }

    pub fn prev(self) -> (r: TopTab)
        ensures
            r == tab_prev(self),
    {
        match self {
            TopTab::Receivers => TopTab::Pipelines,
            TopTab::Exporters => TopTab::Receivers,
            TopTab::Extensions => TopTab::Exporters,
            TopTab::Pipelines => TopTab::Extensions,
        }
    }

    pub fn label(self) -> (r: &'static str)
        ensures
            r@ == match self {
                TopTab::Receivers => "Receivers"@,
                TopTab::Exporters => "Exporters"@,
                TopTab::Extensions => "Extensions"@,
                TopTab::Pipelines => "Pipelines"@,
            },
    {
        match self {
            TopTab::Receivers => "Receivers",
            TopTab::Exporters => "Exporters",
            TopTab::Extensions => "Extensions",
            TopTab::Pipelines => "Pipelines",
        }
    }
}

/// Law: Tab then BackTab (or BackTab then Tab) returns to the same tab,
/// and four Tabs go all the way round.
pub proof fn law_tab_cycle(tab: TopTab)
    ensures
        tab_prev(tab_next(tab)) == tab,
        tab_next(tab_prev(tab)) == tab,
        tab_next(tab_next(tab_next(tab_next(tab)))) == tab,
{
}

/// The tab that lists a category.
pub fn tab_for(category: ComponentCategory) -> (r: TopTab)
    ensures
        r == spec_tab_for(category),
{
    match category {
        ComponentCategory::Receiver => TopTab::Receivers,
        ComponentCategory::Exporter => TopTab::Exporters,
        ComponentCategory::Extension => TopTab::Extensions,
    }
}

/// The text appended to a failed save's message when the failure is the
/// Windows-only event log receiver.
pub open spec fn save_hint_text() -> Seq<char> {
    " -- windows_event_log only works if sgcia-otelcol runs on Windows; remove it and its pipeline to test elsewhere"@
}

/// A hint for a failed save: the validator refuses a Windows event log
/// receiver on other systems, which is easy to miss in its own words.
pub fn save_error_hint(message: &str) -> (r: Option<&'static str>)
    ensures
        contains_sub(message@, "windows_event_log"@) ==> (r matches Some(h) && h@ == save_hint_text()),
        !contains_sub(message@, "windows_event_log"@) ==> r is None,
{
    if str_contains(message, "windows_event_log") {
        Some(" -- windows_event_log only works if sgcia-otelcol runs on Windows; remove it and its pipeline to test elsewhere")
    } else {
        None
    }
}

/// The fields of a pipeline: key, kind, whether required, default.
pub open spec fn pipeline_field_models() -> Seq<FieldModel> {
    seq![
        (
            "receivers"@,
            FieldKind::StringList,
            false,
            None,
            "Which receivers feed this pipeline, by id -- e.g. syslog/udp, file_log/app. Comma-separate multiple."@,
        ),
        (
            "exporters"@,
            FieldKind::StringList,
            false,
            None,
            "Where processed events get sent, by exporter id -- e.g. splunk_hec/sentinelone. Comma-separate multiple to fan out to more than one."@,
        ),
    ]
}

/// The two fields of a pipeline.
pub fn pipeline_fields() -> (r: Vec<FieldSpec>)
    ensures
        r@.len() == 2,
        field_models(r@) == pipeline_field_models(),
{
    vec![
        f(
            "receivers",
            FieldKind::StringList,
            false,
            None,
            "Which receivers feed this pipeline, by id -- e.g. syslog/udp, file_log/app. Comma-separate multiple.",
        ),
        f(
            "exporters",
            FieldKind::StringList,
            false,
            None,
            "Where processed events get sent, by exporter id -- e.g. splunk_hec/sentinelone. Comma-separate multiple to fan out to more than one.",
        ),
    ]
}

/// What the editor shows.
pub enum Screen {
    TopLevel { tab: TopTab, selected: usize },
    PickType { category: ComponentCategory, selected: usize },
    NameNewComponent { category: ComponentCategory, kind_name: &'static str, input: TextInput },
    NameNewPipeline { input: TextInput },
    EditComponent { category: ComponentCategory, id: String, form: FormState },
    EditPipeline { id: String, form: FormState },
    ConfirmRemove { category: ComponentCategory, id: String, blocking: Vec<String> },
    /// The component form being edited is `form`; `selected` indexes its
    /// operator list.
    OperatorList { category: ComponentCategory, id: String, form: FormState, selected: usize },
    OperatorPickType { category: ComponentCategory, id: String, form: FormState, selected: usize },
    /// `index` is `None` for a new operator to append, `Some` for one
    /// edited in place.
    OperatorEdit { category: ComponentCategory, id: String, form: FormState, index: Option<usize>, op_form: FormState },
    TemplateBrowse { selected: usize },
    NameTemplateReceiver { template_key: &'static str, input: TextInput },
    EditTemplateParams { template_key: &'static str, id: String, form: FormState },
    /// The parameters are kept so that going back shows what was typed.
    ReviewTemplateReceiver { template_key: &'static str, id: String, params: JsonValue, receiver: JsonValue },
}

/// Whether a screen's widgets are in shape: forms well formed, cursors
/// within their text, type and template names registered.
pub open spec fn screen_wf(s: Screen) -> bool {
    match s {
        Screen::NameNewComponent { category, kind_name, input } => input.wf() && category_type_names(category).contains(kind_name@),
        Screen::NameNewPipeline { input } => input.wf(),
        Screen::EditComponent { form, .. } => form.wf(),
        Screen::EditPipeline { form, .. } => form.wf(),
        Screen::OperatorList { form, .. } => form.wf(),
        Screen::OperatorPickType { form, .. } => form.wf(),
        Screen::OperatorEdit { form, op_form, .. } => form.wf() && op_form.wf(),
        Screen::NameTemplateReceiver { template_key, input } => input.wf() && all_template_keys().contains(template_key@),
        Screen::EditTemplateParams { template_key, form, .. } => form.wf() && all_template_keys().contains(template_key@)
            && form.kind_name is None && field_models(form.fields_spec@) == registered_template(template_key@).params,
        Screen::ReviewTemplateReceiver { template_key, .. } => all_template_keys().contains(template_key@),
        _ => true,
    }
}

/// Screens that list things, where `?` opens the help overlay; on form
/// screens it is typed like any other character.
pub open spec fn accepts_help(s: Screen) -> bool {
    match s {
        Screen::TopLevel { .. } | Screen::PickType { .. } | Screen::ConfirmRemove { .. } | Screen::OperatorList { .. }
        | Screen::OperatorPickType { .. } | Screen::TemplateBrowse { .. } => true,
        _ => false,
    }
}

/// The editor.
pub struct App {
    pub config_path: String,
    pub doc: EditorDoc,
    pub screen: Screen,
    pub status_message: Option<String>,
    pub dirty: bool,
    pub should_quit: bool,
    /// The keybinding reference, drawn over the screen, which stays as it
    /// was underneath; any key dismisses it.
    pub show_help: bool,
    /// A save was asked for and is waiting for the runner.
    pub save_requested: bool,
}

/// The map of a category's components.
pub open spec fn doc_map(doc: EditorDoc, category: ComponentCategory) -> JObj {
    match category {
        ComponentCategory::Receiver => obj_model(doc.receivers@),
        ComponentCategory::Exporter => obj_model(doc.exporters@),
        ComponentCategory::Extension => obj_model(doc.extensions@),
    }
}

/// The map a tab lists.
pub open spec fn tab_map(doc: EditorDoc, tab: TopTab) -> JObj {
    match tab_category(tab) {
        Some(c) => doc_map(doc, c),
        None => obj_model(doc.pipelines@),
    }
}

/// The ids a tab lists, sorted.
pub open spec fn tab_ids(doc: EditorDoc, tab: TopTab, ids: Seq<Seq<char>>) -> bool {
    lex_sorted(ids) && ids.to_multiset() == keys_of(tab_map(doc, tab)).to_multiset()
}

/// The status shown when a new id is refused.
pub open spec fn taken_msg(id: Seq<char>) -> Seq<char> {
    "'"@ + id + "' is empty or already exists"@
}

pub open spec fn updated_msg(id: Seq<char>) -> Seq<char> {
    id + " updated (press 's' to save to disk)"@
}

pub open spec fn removed_msg(id: Seq<char>) -> Seq<char> {
    "removed "@ + id
}

pub open spec fn created_msg(id: Seq<char>) -> Seq<char> {
    id + " created from template (press 's' to save to disk)"@
}

pub open spec fn saved_msg(path: Seq<char>) -> Seq<char> {
    "saved "@ + path
}

/// The status after a failed save: the error, and the hint where one
/// applies.
pub open spec fn save_failed_msg(err: Seq<char>) -> Seq<char> {
    let m = "save failed: "@ + err;
    if contains_sub(m, "windows_event_log"@) {
        m + save_hint_text()
    } else {
        m
    }
}

fn cat(a: &str, b: &str, c: &str) -> (r: String)
    ensures
        r@ == a@ + b@ + c@,
{
    let mut s = String::new();
    append_str(&mut s, a);
    append_str(&mut s, b);
    append_str(&mut s, c);
    proof {
        assert(s@ =~= a@ + b@ + c@);
    }
    s
}

fn cat2(a: &str, b: &str) -> (r: String)
    ensures
        r@ == a@ + b@,
{
    let mut s = String::new();
    append_str(&mut s, a);
    append_str(&mut s, b);
    proof {
        assert(s@ =~= a@ + b@);
    }
    s
}

/// The id typed into a name prompt.
fn typed_id(input: &TextInput) -> (r: String)
    ensures
        r@ == trim(input.value@),
{
    let cs = chars_of(input.value.as_str());
    let t = trim_chars(&cs);
    string_from_chars(t.as_slice())
}

} // verus!

verus! {

/// Everything but the screen and the help overlay stays as it was.
pub open spec fn keeps(a: App, b: App) -> bool {
    &&& b.doc == a.doc
    &&& b.status_message == a.status_message
    &&& b.dirty == a.dirty
    &&& b.should_quit == a.should_quit
    &&& b.save_requested == a.save_requested
    &&& b.config_path == a.config_path
}

/// One category's map became `m`, the rest of the document stayed.
pub open spec fn doc_changed(a: EditorDoc, b: EditorDoc, category: ComponentCategory, m: JObj) -> bool {
    &&& doc_map(b, category) == m
    &&& forall|c: ComponentCategory| c != category ==> #[trigger] doc_map(b, c) == doc_map(a, c)
    &&& obj_model(b.pipelines@) == obj_model(a.pipelines@)
}

/// The pipelines became `m`, the components stayed.
pub open spec fn pipelines_changed(a: EditorDoc, b: EditorDoc, m: JObj) -> bool {
    &&& obj_model(b.pipelines@) == m
    &&& forall|c: ComponentCategory| #[trigger] doc_map(b, c) == doc_map(a, c)
}

/// A document was edited: it is marked dirty with this status, the rest
/// of the flags stay.
pub open spec fn edited(a: App, b: App, msg: Seq<char>) -> bool {
    &&& b.dirty
    &&& b.status_message matches Some(m) && m@ == msg
    &&& b.should_quit == a.should_quit
    &&& b.save_requested == a.save_requested
    &&& b.config_path == a.config_path
}

/// A new id was refused: only the status changed.
pub open spec fn refused(a: App, b: App, id: Seq<char>) -> bool {
    &&& b.doc == a.doc
    &&& b.status_message matches Some(m) && m@ == taken_msg(id)
    &&& b.dirty == a.dirty
    &&& b.should_quit == a.should_quit
    &&& b.save_requested == a.save_requested
    &&& b.config_path == a.config_path
}

/// A fresh form over the fields `fields`, focused on the first, with every
/// widget seeded from `v`.
pub open spec fn fresh_form(form: FormState, kind_name: Option<Seq<char>>, write_type_key: bool, fields: Seq<FieldModel>, v: JVal) -> bool {
    &&& field_models(form.fields_spec@) == fields
    &&& form.fields@.len() == form.fields_spec@.len()
    &&& form.focused == 0
    &&& form.write_type_key == write_type_key
    &&& match kind_name {
        Some(k) => form.kind_name matches Some(t) && t@ == k,
        None => form.kind_name is None,
    }
    &&& forall|j: int| 0 <= j < form.fields@.len() ==> seeded_from(form.fields_spec@[j], v, #[trigger] form.fields@[j])
}

/// One past a selection in a list of `n`, stopping at the last.
pub open spec fn down(selected: usize, n: nat) -> usize {
    if n == 0 {
        0
    } else if selected + 1 < n {
        (selected + 1) as usize
    } else {
        (n - 1) as usize
    }
}

/// One before a selection, stopping at the first.
pub open spec fn up(selected: usize) -> usize {
    if selected == 0 {
        0
    } else {
        (selected - 1) as usize
    }
}

/// The type a component's form uses: the one its id names, else the
/// category's first.
pub open spec fn form_type(category: ComponentCategory, id: Seq<char>) -> Seq<char> {
    if category_type_names(category).contains(spec_component_type(id)) {
        spec_component_type(id)
    } else {
        category_type_names(category)[0]
    }
}

/// The screen Enter opens on a listed id.
pub open spec fn opens(doc: EditorDoc, tab: TopTab, id: Seq<char>, s: Screen) -> bool {
    match tab_category(tab) {
        Some(c) => match s {
            Screen::EditComponent { category, id: i, form } => category == c && i@ == id && match lookup(doc_map(doc, c), id) {
                Some(v) => fresh_form(form, Some(form_type(c, id)), false, type_fields(c, form_type(c, id)), v),
                None => false,
            },
            _ => false,
        },
        None => match s {
            Screen::EditPipeline { id: i, form } => i@ == id && match lookup(obj_model(doc.pipelines@), id) {
                Some(v) => fresh_form(form, None, false, pipeline_field_models(), v),
                None => false,
            },
            _ => false,
        },
    }
}

/// The pipelines that hold up removing `id` from a category.
pub open spec fn blockers(doc: EditorDoc, category: ComponentCategory, id: Seq<char>) -> Seq<Seq<char>> {
    match spec_category_key(category) {
        Some(k) => referencing(obj_model(doc.pipelines@), k, id),
        None => Seq::empty(),
    }
}

/// The pipelines with `id` taken out of a category's lists.
pub open spec fn stripped(doc: EditorDoc, category: ComponentCategory, id: Seq<char>) -> JObj {
    let p = obj_model(doc.pipelines@);
    match spec_category_key(category) {
        Some(k) => Seq::new(p.len(), |i: int| (p[i].0, strip_def(p[i].1, k, id))),
        None => p,
    }
}

/// What `d` (or Delete) does to a listed id: a component some pipeline
/// lists asks for confirmation, anything else goes at once.
pub open spec fn removes(a: App, tab: TopTab, id: Seq<char>, b: App, s: Screen) -> bool {
    match tab_category(tab) {
        Some(c) => if blockers(a.doc, c, id).len() > 0 {
            keeps(a, b) && match s {
                Screen::ConfirmRemove { category, id: i, blocking } => category == c && i@ == id && lex_sorted(views(blocking@))
                    && views(blocking@).to_multiset() == blockers(a.doc, c, id).to_multiset(),
                _ => false,
            }
        } else {
            doc_changed(a.doc, b.doc, c, obj_remove(doc_map(a.doc, c), id)) && edited(a, b, removed_msg(id))
                && s == Screen::TopLevel { tab, selected: 0 }
        },
        None => pipelines_changed(a.doc, b.doc, obj_remove(obj_model(a.doc.pipelines@), id)) && edited(a, b, removed_msg(id))
            && s == Screen::TopLevel { tab, selected: 0 },
    }
}

/// A key on the top level.
pub open spec fn top_level_post(a: App, tab: TopTab, selected: usize, key: KeyPress, b: App, s: Screen) -> bool {
    let n = tab_map(a.doc, tab).len();
    let stay = Screen::TopLevel { tab, selected };
    match key.code {
        Key::Char('q') | Key::Esc => b.should_quit && s == stay && b.doc == a.doc && b.status_message == a.status_message
            && b.dirty == a.dirty && b.save_requested == a.save_requested && b.config_path == a.config_path,
        Key::Tab => keeps(a, b) && s == Screen::TopLevel { tab: tab_next(tab), selected: 0 },
        Key::BackTab => keeps(a, b) && s == Screen::TopLevel { tab: tab_prev(tab), selected: 0 },
        Key::Down => keeps(a, b) && s == Screen::TopLevel { tab, selected: down(selected, n) },
        Key::Up => keeps(a, b) && s == Screen::TopLevel { tab, selected: up(selected) },
        Key::Char('a') => keeps(a, b) && match tab_category(tab) {
            Some(c) => s == Screen::PickType { category: c, selected: 0 },
            None => s matches Screen::NameNewPipeline { input } && input.value@.len() == 0,
        },
        Key::Char('T') => keeps(a, b) && s == if tab == TopTab::Receivers {
            Screen::TemplateBrowse { selected: 0 }
        } else {
            stay
        },
        Key::Enter => keeps(a, b) && if selected < n {
            exists|ids: Seq<Seq<char>>| tab_ids(a.doc, tab, ids) && opens(a.doc, tab, ids[selected as int], s)
        } else {
            s == stay
        },
        Key::Char('d') | Key::Delete => if selected < n {
            exists|ids: Seq<Seq<char>>| tab_ids(a.doc, tab, ids) && removes(a, tab, ids[selected as int], b, s)
        } else {
            keeps(a, b) && s == stay
        },
        Key::Char('s') => b.save_requested && s == stay && b.doc == a.doc && b.status_message == a.status_message
            && b.dirty == a.dirty && b.should_quit == a.should_quit && b.config_path == a.config_path,
        _ => keeps(a, b) && s == stay,
    }
}

impl App {
    pub open spec fn wf(&self) -> bool {
        screen_wf(self.screen)
    }

    /// The editor on a document, on the Receivers tab.
    pub fn new(config_path: String, doc: EditorDoc) -> (r: App)
        ensures
            r.wf(),
            r.config_path == config_path,
            r.doc == doc,
            r.screen == (Screen::TopLevel { tab: TopTab::Receivers, selected: 0 }),
            r.status_message is None,
            !r.dirty,
            !r.should_quit,
            !r.show_help,
            !r.save_requested,
    {
        App {
            config_path,
            doc,
            screen: Screen::TopLevel { tab: TopTab::Receivers, selected: 0 },
            status_message: None,
            dirty: false,
            should_quit: false,
            show_help: false,
            save_requested: false,
        }
    }

    fn map_for(&self, category: ComponentCategory) -> (r: &JsonMap)
        ensures
            obj_model(r@) == doc_map(self.doc, category),
    {
        match category {
            ComponentCategory::Receiver => &self.doc.receivers,
            ComponentCategory::Exporter => &self.doc.exporters,
            ComponentCategory::Extension => &self.doc.extensions,
        }
    }

    fn tab_map_ref(&self, tab: TopTab) -> (r: &JsonMap)
        ensures
            obj_model(r@) == tab_map(self.doc, tab),
    {
        match tab.category() {
            Some(c) => self.map_for(c),
            None => &self.doc.pipelines,
        }
    }

    /// Sets a component in a category's map.
    fn put_component(&mut self, category: ComponentCategory, id: String, value: JsonValue)
        ensures
            old(self).doc.unique_keys() ==> final(self).doc.unique_keys(),
            doc_changed(old(self).doc, final(self).doc, category, obj_insert(doc_map(old(self).doc, category), id@, value@)),
            final(self).screen == old(self).screen,
            final(self).status_message == old(self).status_message,
            final(self).dirty == old(self).dirty,
            final(self).should_quit == old(self).should_quit,
            final(self).save_requested == old(self).save_requested,
            final(self).config_path == old(self).config_path,
            final(self).show_help == old(self).show_help,
    {
        match category {
            ComponentCategory::Receiver => map_insert(&mut self.doc.receivers, id, value),
            ComponentCategory::Exporter => map_insert(&mut self.doc.exporters, id, value),
            ComponentCategory::Extension => map_insert(&mut self.doc.extensions, id, value),
        }
    }

    /// Takes a component out of a category's map.
    fn drop_component(&mut self, category: ComponentCategory, id: &str)
        ensures
            old(self).doc.unique_keys() ==> final(self).doc.unique_keys(),
            doc_changed(old(self).doc, final(self).doc, category, obj_remove(doc_map(old(self).doc, category), id@)),
            final(self).screen == old(self).screen,
            final(self).status_message == old(self).status_message,
            final(self).dirty == old(self).dirty,
            final(self).should_quit == old(self).should_quit,
            final(self).save_requested == old(self).save_requested,
            final(self).config_path == old(self).config_path,
            final(self).show_help == old(self).show_help,
    {
        match category {
            ComponentCategory::Receiver => { map_remove(&mut self.doc.receivers, id); },
            ComponentCategory::Exporter => { map_remove(&mut self.doc.exporters, id); },
            ComponentCategory::Extension => { map_remove(&mut self.doc.extensions, id); },
        }
    }

    /// The ids a tab lists, sorted.
    pub fn ids_for_tab(&self, tab: TopTab) -> (r: Vec<String>)
        ensures
            tab_ids(self.doc, tab, views(r@)),
    {
        let m = self.tab_map_ref(tab);
        let ids = keys_exec(m);
        sort_strings(ids)
    }

    /// The form Enter opens on a listed id.
    fn open_component(&self, tab: TopTab, id: String) -> (r: Screen)
        requires
            keys_of(tab_map(self.doc, tab)).contains(id@),
        ensures
            opens(self.doc, tab, id@, r),
            screen_wf(r),
    {
        let ghost keys = keys_of(tab_map(self.doc, tab));
        let ghost k = choose|k: int| 0 <= k < keys.len() && keys[k] == id@;
        match tab.category() {
            Some(category) => {
                let m = self.map_for(category);
                proof {
                    crate::json::lemma_find_key_bounds(obj_model(m@), id@);
                    assert(obj_model(m@)[k].0 == id@);
                }
                let value = map_get(m, id.as_str()).unwrap();
                let kind = component_type(id.as_str());
                let spec = match find_type(category, kind.as_str()) {
                    Some(s) => s,
                    None => take_spec(types_for(category), 0),
                };
                let form = FormState::new(Some(spec.name), false, spec.fields, value);
                Screen::EditComponent { category, id, form }
            },
            None => {
                proof {
                    crate::json::lemma_find_key_bounds(obj_model(self.doc.pipelines@), id@);
                    assert(obj_model(self.doc.pipelines@)[k].0 == id@);
                }
                let value = map_get(&self.doc.pipelines, id.as_str()).unwrap();
                let form = FormState::new(None, false, pipeline_fields(), value);
                Screen::EditPipeline { id, form }
            },
        }
    }

    /// What `d` does to a listed id.
    fn remove_listed(&mut self, tab: TopTab, id: String) -> (r: Screen)
        ensures
            old(self).doc.unique_keys() ==> final(self).doc.unique_keys(),
            removes(*old(self), tab, id@, *final(self), r),
            screen_wf(r),
            final(self).show_help == old(self).show_help,
    {
        match tab.category() {
            Some(category) => {
                let blocking = self.doc.pipelines_referencing(category, id.as_str());
                proof {
                    views(blocking@).to_multiset_ensures();
                    blockers(self.doc, category, id@).to_multiset_ensures();
                }
                if blocking.len() == 0 {
                    self.drop_component(category, id.as_str());
                    self.dirty = true;
                    self.status_message = Some(cat2("removed ", id.as_str()));
                    Screen::TopLevel { tab, selected: 0 }
                } else {
                    Screen::ConfirmRemove { category, id, blocking }
                }
            },
            None => {
                map_remove(&mut self.doc.pipelines, id.as_str());
                self.dirty = true;
                self.status_message = Some(cat2("removed ", id.as_str()));
                Screen::TopLevel { tab, selected: 0 }
            },
        }
    }

    /// The top level: move between tabs and ids, add, open, remove, save,
    /// quit.
    fn handle_top_level(&mut self, tab: TopTab, selected: usize, key: KeyPress) -> (r: Screen)
        ensures
            old(self).doc.unique_keys() ==> final(self).doc.unique_keys(),
            top_level_post(*old(self), tab, selected, key, *final(self), r),
            screen_wf(r),
            final(self).show_help == old(self).show_help,
    {
        let ids = self.ids_for_tab(tab);
        let ghost gids = views(ids@);
        proof {
            gids.to_multiset_ensures();
            keys_of(tab_map(self.doc, tab)).to_multiset_ensures();
            assert(gids.len() == keys_of(tab_map(self.doc, tab)).len());
        }
        let n = ids.len();
        match key.code {
            Key::Char('q') | Key::Esc => {
                self.should_quit = true;
                Screen::TopLevel { tab, selected }
            },
            Key::Tab => Screen::TopLevel { tab: tab.next(), selected: 0 },
            Key::BackTab => Screen::TopLevel { tab: tab.prev(), selected: 0 },
            Key::Down => {
                let next = if n == 0 { 0 } else if selected < n - 1 { selected + 1 } else { n - 1 };
                Screen::TopLevel { tab, selected: next }
            },
            Key::Up => Screen::TopLevel { tab, selected: if selected == 0 { 0 } else { selected - 1 } },
            Key::Char('a') => match tab.category() {
                Some(category) => Screen::PickType { category, selected: 0 },
                None => Screen::NameNewPipeline { input: TextInput::empty() },
            },
            Key::Char('T') => {
                if tab == TopTab::Receivers {
                    Screen::TemplateBrowse { selected: 0 }
                } else {
                    Screen::TopLevel { tab, selected }
                }
            },
            Key::Enter => {
                if selected >= n {
                    return Screen::TopLevel { tab, selected };
                }
                let id = ids[selected].clone();
                proof {
                    assert(gids[selected as int] == id@);
                    assert(gids.to_multiset().count(id@) > 0);
                    assert(keys_of(tab_map(self.doc, tab)).to_multiset().count(id@) > 0);
                }
                let r = self.open_component(tab, id);
                assert(tab_ids(old(self).doc, tab, gids));
                r
            },
            Key::Char('d') | Key::Delete => {
                if selected >= n {
                    return Screen::TopLevel { tab, selected };
                }
                let id = ids[selected].clone();
                assert(tab_ids(old(self).doc, tab, gids));
                assert(gids[selected as int] == id@);
                self.remove_listed(tab, id)
            },
            Key::Char('s') => {
                self.save_requested = true;
                Screen::TopLevel { tab, selected }
            },
            _ => Screen::TopLevel { tab, selected },
        }
    }
}

} // verus!

verus! {

pub open spec fn pick_type_post(a: App, category: ComponentCategory, selected: usize, key: KeyPress, b: App, s: Screen) -> bool {
    let names = category_type_names(category);
    let stay = Screen::PickType { category, selected };
    keeps(a, b) && match key.code {
        Key::Esc => s == Screen::TopLevel { tab: spec_tab_for(category), selected: 0 },
        Key::Down => s == Screen::PickType { category, selected: down(selected, names.len()) },
        Key::Up => s == Screen::PickType { category, selected: up(selected) },
        Key::Enter => if selected < names.len() {
            match s {
                Screen::NameNewComponent { category: c, kind_name, input } => c == category && kind_name@ == names[selected as int]
                    && input.value@.len() == 0,
                _ => false,
            }
        } else {
            s == stay
        },
        _ => s == stay,
    }
}

/// A key typed into a name prompt's input.
pub open spec fn typed_into(input: TextInput, key: KeyPress, next: TextInput) -> bool {
    (next.value@, next.cursor as nat) == crate::editor_input::spec_input_key(input.value@, input.cursor as nat, key)
}

/// A new id is accepted when it is not empty and not already in `m`.
pub open spec fn id_free(id: Seq<char>, m: JObj) -> bool {
    id.len() > 0 && lookup(m, id) is None
}

pub open spec fn name_component_post(a: App, category: ComponentCategory, kind_name: &'static str, input: TextInput, key: KeyPress, b: App, s: Screen) -> bool {
    let id = trim(input.value@);
    match key.code {
        Key::Esc => keeps(a, b) && s == Screen::TopLevel { tab: spec_tab_for(category), selected: 0 },
        Key::Enter => if id_free(id, doc_map(a.doc, category)) {
            keeps(a, b) && match s {
                Screen::EditComponent { category: c, id: i, form } => c == category && i@ == id && form.kind_name == Some(kind_name)
                    && fresh_form(form, Some(kind_name@), false, type_fields(category, kind_name@),
                        JVal::Obj(spec_minimal(type_fields(category, kind_name@)))),
                _ => false,
            }
        } else {
            refused(a, b, id) && s == Screen::NameNewComponent { category, kind_name, input }
        },
        _ => keeps(a, b) && match s {
            Screen::NameNewComponent { category: c, kind_name: k, input: next } => c == category && k == kind_name && typed_into(input, key, next),
            _ => false,
        },
    }
}

pub open spec fn name_pipeline_post(a: App, input: TextInput, key: KeyPress, b: App, s: Screen) -> bool {
    let id = trim(input.value@);
    match key.code {
        Key::Esc => keeps(a, b) && s == Screen::TopLevel { tab: TopTab::Pipelines, selected: 0 },
        Key::Enter => if id_free(id, obj_model(a.doc.pipelines@)) {
            keeps(a, b) && match s {
                Screen::EditPipeline { id: i, form } => i@ == id && fresh_form(form, None, false, pipeline_field_models(), JVal::Obj(Seq::empty())),
                _ => false,
            }
        } else {
            refused(a, b, id) && s == Screen::NameNewPipeline { input }
        },
        _ => keeps(a, b) && match s {
            Screen::NameNewPipeline { input: next } => typed_into(input, key, next),
            _ => false,
        },
    }
}

/// Whether Enter on a form drills into its focused operator list.
pub open spec fn drills_in(form: FormState, key: KeyPress) -> bool {
    key.code == Key::Enter && form.focused < form.fields_spec@.len() && form.fields_spec@[form.focused as int].kind == FieldKind::OperatorList
}

pub open spec fn edit_component_post(a: App, category: ComponentCategory, id: String, form: FormState, key: KeyPress, b: App, s: Screen) -> bool {
    if drills_in(form, key) {
        keeps(a, b) && s == Screen::OperatorList { category, id, form, selected: 0 }
    } else {
        match key.code {
            Key::Enter => doc_changed(a.doc, b.doc, category, obj_insert(doc_map(a.doc, category), id@, form.value_model()))
                && edited(a, b, updated_msg(id@)) && s == Screen::TopLevel { tab: spec_tab_for(category), selected: 0 },
            Key::Esc => keeps(a, b) && s == Screen::TopLevel { tab: spec_tab_for(category), selected: 0 },
            _ => keeps(a, b) && match s {
                Screen::EditComponent { category: c, id: i, form: g } => c == category && i == id && crate::editor_form::form_after_key(form, key, g),
                _ => false,
            },
        }
    }
}

pub open spec fn edit_pipeline_post(a: App, id: String, form: FormState, key: KeyPress, b: App, s: Screen) -> bool {
    match key.code {
        Key::Enter => pipelines_changed(a.doc, b.doc, obj_insert(obj_model(a.doc.pipelines@), id@, form.value_model()))
            && edited(a, b, updated_msg(id@)) && s == Screen::TopLevel { tab: TopTab::Pipelines, selected: 0 },
        Key::Esc => keeps(a, b) && s == Screen::TopLevel { tab: TopTab::Pipelines, selected: 0 },
        _ => keeps(a, b) && match s {
            Screen::EditPipeline { id: i, form: g } => i == id && crate::editor_form::form_after_key(form, key, g),
            _ => false,
        },
    }
}

pub open spec fn confirm_post(a: App, category: ComponentCategory, id: String, key: KeyPress, b: App, s: Screen) -> bool {
    s == Screen::TopLevel { tab: spec_tab_for(category), selected: 0 } && if key.code == Key::Char('y') {
        &&& obj_model(b.doc.pipelines@) == stripped(a.doc, category, id@)
        &&& doc_map(b.doc, category) == obj_remove(doc_map(a.doc, category), id@)
        &&& forall|c: ComponentCategory| c != category ==> #[trigger] doc_map(b.doc, c) == doc_map(a.doc, c)
        &&& edited(a, b, removed_msg(id@))
    } else {
        keeps(a, b)
    }
}

} // verus!

verus! {

impl App {
    fn handle_pick_type(&mut self, category: ComponentCategory, selected: usize, key: KeyPress) -> (r: Screen)
        ensures
            old(self).doc.unique_keys() ==> final(self).doc.unique_keys(),
            pick_type_post(*old(self), category, selected, key, *final(self), r),
            screen_wf(r),
            final(self).show_help == old(self).show_help,
    {
        let types = types_for(category);
        let n = types.len();
        proof {
            assert(crate::editor_schema::spec_names(types@).len() == types@.len());
        }
        match key.code {
            Key::Esc => Screen::TopLevel { tab: tab_for(category), selected: 0 },
            Key::Down => Screen::PickType {
                category,
                selected: if n == 0 { 0 } else if selected < n - 1 { selected + 1 } else { n - 1 },
            },
            Key::Up => Screen::PickType { category, selected: if selected == 0 { 0 } else { selected - 1 } },
            Key::Enter => {
                if selected < n {
                    let kind_name = types[selected].name;
                    proof {
                        assert(crate::editor_schema::spec_names(types@)[selected as int] == kind_name@);
                        assert(category_type_names(category)[selected as int] == kind_name@);
                    }
                    Screen::NameNewComponent { category, kind_name, input: TextInput::empty() }
                } else {
                    Screen::PickType { category, selected }
                }
            },
            _ => Screen::PickType { category, selected },
        }
    }

    fn handle_name_component(&mut self, category: ComponentCategory, kind_name: &'static str, input: TextInput, key: KeyPress) -> (r: Screen)
        requires
            input.wf(),
            category_type_names(category).contains(kind_name@),
        ensures
            old(self).doc.unique_keys() ==> final(self).doc.unique_keys(),
            name_component_post(*old(self), category, kind_name, input, key, *final(self), r),
            screen_wf(r),
            final(self).show_help == old(self).show_help,
    {
        match key.code {
            Key::Esc => Screen::TopLevel { tab: tab_for(category), selected: 0 },
            Key::Enter => {
                let id = typed_id(&input);
                let taken = map_contains_key(self.map_for(category), id.as_str());
                if id.as_str().is_empty() || taken {
                    self.status_message = Some(cat("'", id.as_str(), "' is empty or already exists"));
                    Screen::NameNewComponent { category, kind_name, input }
                } else {
                    let spec = find_type(category, kind_name).unwrap();
                    let seed = minimal_value(&spec);
                    let form = FormState::new(Some(kind_name), false, spec.fields, &seed);
                    Screen::EditComponent { category, id, form }
                }
            },
            _ => Screen::NameNewComponent { category, kind_name, input: input.with_key(key) },
        }
    }

    fn handle_name_pipeline(&mut self, input: TextInput, key: KeyPress) -> (r: Screen)
        requires
            input.wf(),
        ensures
            old(self).doc.unique_keys() ==> final(self).doc.unique_keys(),
            name_pipeline_post(*old(self), input, key, *final(self), r),
            screen_wf(r),
            final(self).show_help == old(self).show_help,
    {
        match key.code {
            Key::Esc => Screen::TopLevel { tab: TopTab::Pipelines, selected: 0 },
            Key::Enter => {
                let id = typed_id(&input);
                let taken = map_contains_key(&self.doc.pipelines, id.as_str());
                if id.as_str().is_empty() || taken {
                    self.status_message = Some(cat("'", id.as_str(), "' is empty or already exists"));
                    Screen::NameNewPipeline { input }
                } else {
                    let empty: JsonMap = Vec::new();
                    let ghost ev = empty;
                    proof {
                        crate::json::lemma_object_view(ev);
                        assert(obj_model(empty@) =~= Seq::<(Seq<char>, JVal)>::empty());
                    }
                    let form = FormState::new(None, false, pipeline_fields(), &JsonValue::Object(empty));
                    Screen::EditPipeline { id, form }
                }
            },
            _ => Screen::NameNewPipeline { input: input.with_key(key) },
        }
    }

    fn handle_edit_component(&mut self, category: ComponentCategory, id: String, form: FormState, key: KeyPress) -> (r: Screen)
        requires
            form.wf(),
        ensures
            old(self).doc.unique_keys() ==> final(self).doc.unique_keys(),
            edit_component_post(*old(self), category, id, form, key, *final(self), r),
            screen_wf(r),
            final(self).show_help == old(self).show_help,
    {
        let mut form = form;
        let ghost f0 = form;
        if key.code == Key::Enter && form.focused_kind() == Some(FieldKind::OperatorList) {
            return Screen::OperatorList { category, id, form, selected: 0 };
        }
        match form.on_key(key) {
            FormOutcome::Continue => Screen::EditComponent { category, id, form },
            FormOutcome::Cancel => Screen::TopLevel { tab: tab_for(category), selected: 0 },
            FormOutcome::Submit => {
                let value = form.to_value();
                let msg = cat2(id.as_str(), " updated (press 's' to save to disk)");
                self.put_component(category, id, value);
                self.dirty = true;
                self.status_message = Some(msg);
                Screen::TopLevel { tab: tab_for(category), selected: 0 }
            },
        }
    }

    fn handle_edit_pipeline(&mut self, id: String, form: FormState, key: KeyPress) -> (r: Screen)
        requires
            form.wf(),
        ensures
            old(self).doc.unique_keys() ==> final(self).doc.unique_keys(),
            edit_pipeline_post(*old(self), id, form, key, *final(self), r),
            screen_wf(r),
            final(self).show_help == old(self).show_help,
    {
        let mut form = form;
        match form.on_key(key) {
            FormOutcome::Continue => Screen::EditPipeline { id, form },
            FormOutcome::Cancel => Screen::TopLevel { tab: TopTab::Pipelines, selected: 0 },
            FormOutcome::Submit => {
                let value = form.to_value();
                let msg = cat2(id.as_str(), " updated (press 's' to save to disk)");
                map_insert(&mut self.doc.pipelines, id, value);
                self.dirty = true;
                self.status_message = Some(msg);
                Screen::TopLevel { tab: TopTab::Pipelines, selected: 0 }
            },
        }
    }

    fn handle_confirm_remove(&mut self, category: ComponentCategory, id: String, key: KeyPress) -> (r: Screen)
        ensures
            old(self).doc.unique_keys() ==> final(self).doc.unique_keys(),
            confirm_post(*old(self), category, id, key, *final(self), r),
            screen_wf(r),
            final(self).show_help == old(self).show_help,
    {
        if key.code == Key::Char('y') {
            self.doc.strip_from_pipelines(category, id.as_str());
            self.drop_component(category, id.as_str());
            self.dirty = true;
            self.status_message = Some(cat2("removed ", id.as_str()));
        }
        Screen::TopLevel { tab: tab_for(category), selected: 0 }
    }
}

} // verus!

verus! {

/// The `type` an operator names, or empty.
pub open spec fn op_type_of(v: JVal) -> Seq<char> {
    match v {
        JVal::Obj(o) => match lookup(o, "type"@) {
            Some(JVal::Str(t)) => t,
            _ => Seq::empty(),
        },
        _ => Seq::empty(),
    }
}

/// The component form with its focus moved past the operator list.
pub open spec fn left_operators(form: FormState, g: FormState) -> bool {
    &&& g.fields == form.fields
    &&& g.fields_spec == form.fields_spec
    &&& g.kind_name == form.kind_name
    &&& g.write_type_key == form.write_type_key
    &&& g.focused == crate::editor_form::next_focus(form.focused as nat, form.fields@.len())
}

/// The component form with a new operator list and nothing else changed.
pub open spec fn with_operators(form: FormState, g: FormState, ops: Seq<JVal>) -> bool {
    &&& g.fields_spec == form.fields_spec
    &&& g.kind_name == form.kind_name
    &&& g.write_type_key == form.write_type_key
    &&& g.focused == form.focused
    &&& form.operator_index() is Some ==> g.operators_model() == ops
}

pub open spec fn operator_list_post(a: App, category: ComponentCategory, id: String, form: FormState, selected: usize, key: KeyPress, b: App, s: Screen) -> bool {
    let ops = form.operators_model();
    let stay = Screen::OperatorList { category, id, form, selected };
    keeps(a, b) && match key.code {
        Key::Esc => match s {
            Screen::EditComponent { category: c, id: i, form: g } => c == category && i == id && left_operators(form, g),
            _ => false,
        },
        Key::Down => s == Screen::OperatorList { category, id, form, selected: down(selected, ops.len()) },
        Key::Up => s == Screen::OperatorList { category, id, form, selected: up(selected) },
        Key::Char('a') => s == Screen::OperatorPickType { category, id, form, selected: 0 },
        Key::Enter => if selected < ops.len() && operator_type_names().contains(op_type_of(ops[selected as int])) {
            match s {
                Screen::OperatorEdit { category: c, id: i, form: f2, index, op_form } => c == category && i == id && f2 == form
                    && index == Some(selected) && fresh_form(op_form, Some(op_type_of(ops[selected as int])), true,
                        operator_fields(op_type_of(ops[selected as int])), ops[selected as int]),
                _ => false,
            }
        } else {
            s == stay
        },
        Key::Char('d') | Key::Delete => if selected < ops.len() {
            match s {
                Screen::OperatorList { category: c, id: i, form: g, selected: k } => c == category && i == id && k == 0
                    && with_operators(form, g, ops.remove(selected as int)),
                _ => false,
            }
        } else {
            s == Screen::OperatorList { category, id, form, selected: 0 }
        },
        _ => s == stay,
    }
}

pub open spec fn operator_pick_post(a: App, category: ComponentCategory, id: String, form: FormState, selected: usize, key: KeyPress, b: App, s: Screen) -> bool {
    let names = operator_type_names();
    let stay = Screen::OperatorPickType { category, id, form, selected };
    keeps(a, b) && match key.code {
        Key::Esc => s == Screen::OperatorList { category, id, form, selected: 0 },
        Key::Down => s == Screen::OperatorPickType { category, id, form, selected: down(selected, names.len()) },
        Key::Up => s == Screen::OperatorPickType { category, id, form, selected: up(selected) },
        Key::Enter => if selected < names.len() {
            match s {
                Screen::OperatorEdit { category: c, id: i, form: f2, index, op_form } => c == category && i == id && f2 == form
                    && index is None && fresh_form(op_form, Some(names[selected as int]), true, operator_type_fields()[selected as int],
                        JVal::Obj(spec_minimal(operator_type_fields()[selected as int]))),
                _ => false,
            }
        } else {
            s == stay
        },
        _ => s == stay,
    }
}

/// The operator list after an operator form is submitted, and the
/// position of the operator: in place where `index` names one, else
/// appended.
pub open spec fn ops_after_submit(ops: Seq<JVal>, index: Option<usize>, v: JVal) -> (Seq<JVal>, usize) {
    match index {
        Some(i) => if i < ops.len() {
            (ops.update(i as int, v), i)
        } else {
            (ops.push(v), ops.len() as usize)
        },
        None => (ops.push(v), ops.len() as usize),
    }
}

pub open spec fn operator_edit_post(a: App, category: ComponentCategory, id: String, form: FormState, index: Option<usize>, op_form: FormState, key: KeyPress, b: App, s: Screen) -> bool {
    keeps(a, b) && match key.code {
        Key::Enter => {
            let (ops, sel) = ops_after_submit(form.operators_model(), index, op_form.value_model());
            match s {
                Screen::OperatorList { category: c, id: i, form: g, selected } => c == category && i == id && selected == sel
                    && with_operators(form, g, ops),
                _ => false,
            }
        },
        Key::Esc => s == Screen::OperatorList {
            category,
            id,
            form,
            selected: match index {
                Some(i) => i,
                None => 0,
            },
        },
        _ => match s {
            Screen::OperatorEdit { category: c, id: i, form: f2, index: x, op_form: g } => c == category && i == id && f2 == form && x == index
                && crate::editor_form::form_after_key(op_form, key, g),
            _ => false,
        },
    }
}

} // verus!

verus! {

/// The `type` an operator names, or empty.
fn op_type_name(v: &JsonValue) -> (r: String)
    ensures
        r@ == op_type_of(v@),
{
    match v.get("type") {
        Some(t) => match t.as_str() {
            Some(x) => x.to_owned(),
            None => String::new(),
        },
        None => String::new(),
    }
}

impl App {
    fn handle_operator_list(&mut self, category: ComponentCategory, id: String, form: FormState, selected: usize, key: KeyPress) -> (r: Screen)
        requires
            form.wf(),
        ensures
            old(self).doc.unique_keys() ==> final(self).doc.unique_keys(),
            operator_list_post(*old(self), category, id, form, selected, key, *final(self), r),
            screen_wf(r),
            final(self).show_help == old(self).show_help,
    {
        let ops = form.operators();
        let n = ops.len();
        let ghost model = form.operators_model();
        proof {
            assert(arr_model(ops@).len() == ops@.len());
        }
        match key.code {
            Key::Esc => {
                let mut form = form;
                form.advance_focus();
                Screen::EditComponent { category, id, form }
            },
            Key::Down => {
                let next = if n == 0 { 0 } else if selected < n - 1 { selected + 1 } else { n - 1 };
                Screen::OperatorList { category, id, form, selected: next }
            },
            Key::Up => Screen::OperatorList { category, id, form, selected: if selected == 0 { 0 } else { selected - 1 } },
            Key::Char('a') => Screen::OperatorPickType { category, id, form, selected: 0 },
            Key::Enter => {
                if selected >= n {
                    return Screen::OperatorList { category, id, form, selected };
                }
                let t = op_type_name(&ops[selected]);
                proof {
                    assert(arr_model(ops@)[selected as int] == ops@[selected as int]@);
                }
                match operator_type(t.as_str()) {
                    Some(spec) => {
                        let op_form = FormState::new(Some(spec.name), true, spec.fields, &ops[selected]);
                        Screen::OperatorEdit { category, id, form, index: Some(selected), op_form }
                    },
                    None => Screen::OperatorList { category, id, form, selected },
                }
            },
            Key::Char('d') | Key::Delete => {
                let mut form = form;
                if selected < n {
                    let mut ops = ops;
                    let ghost before = ops@;
                    ops.remove(selected);
                    proof {
                        assert(arr_model(ops@) =~= arr_model(before).remove(selected as int));
                        crate::editor_form::lemma_operators_some(form);
                    }
                    form.set_operators(ops);
                }
                Screen::OperatorList { category, id, form, selected: 0 }
            },
            _ => Screen::OperatorList { category, id, form, selected },
        }
    }

    fn handle_operator_pick_type(&mut self, category: ComponentCategory, id: String, form: FormState, selected: usize, key: KeyPress) -> (r: Screen)
        requires
            form.wf(),
        ensures
            old(self).doc.unique_keys() ==> final(self).doc.unique_keys(),
            operator_pick_post(*old(self), category, id, form, selected, key, *final(self), r),
            screen_wf(r),
            final(self).show_help == old(self).show_help,
    {
        let types = operator_types();
        let n = types.len();
        proof {
            assert(spec_names(types@) =~= operator_type_names());
        }
        match key.code {
            Key::Esc => Screen::OperatorList { category, id, form, selected: 0 },
            Key::Down => {
                let next = if n == 0 { 0 } else if selected < n - 1 { selected + 1 } else { n - 1 };
                Screen::OperatorPickType { category, id, form, selected: next }
            },
            Key::Up => Screen::OperatorPickType { category, id, form, selected: if selected == 0 { 0 } else { selected - 1 } },
            Key::Enter => {
                if selected >= n {
                    return Screen::OperatorPickType { category, id, form, selected };
                }
                let spec = take_spec(types, selected);
                proof {
                    assert(spec_names(types@)[selected as int] == spec.name@);
                    assert(field_table(types@)[selected as int] == field_models(spec.fields@));
                }
                let seed = minimal_value(&spec);
                let op_form = FormState::new(Some(spec.name), true, spec.fields, &seed);
                Screen::OperatorEdit { category, id, form, index: None, op_form }
            },
            _ => Screen::OperatorPickType { category, id, form, selected },
        }
    }

    fn handle_operator_edit(
        &mut self,
        category: ComponentCategory,
        id: String,
        form: FormState,
        index: Option<usize>,
        op_form: FormState,
        key: KeyPress,
    ) -> (r: Screen)
        requires
            form.wf(),
            op_form.wf(),
        ensures
            old(self).doc.unique_keys() ==> final(self).doc.unique_keys(),
            operator_edit_post(*old(self), category, id, form, index, op_form, key, *final(self), r),
            screen_wf(r),
            final(self).show_help == old(self).show_help,
    {
        let mut op_form = op_form;
        match op_form.on_key(key) {
            FormOutcome::Continue => Screen::OperatorEdit { category, id, form, index, op_form },
            FormOutcome::Cancel => Screen::OperatorList {
                category,
                id,
                form,
                selected: match index {
                    Some(i) => i,
                    None => 0,
                },
            },
            FormOutcome::Submit => {
                let value = op_form.to_value();
                let mut ops = form.operators();
                let ghost before = ops@;
                let ghost v = value@;
                let sel = match index {
                    Some(i) => {
                        if i < ops.len() {
                            ops.set(i, value);
                            proof {
                                assert(arr_model(ops@) =~= arr_model(before).update(i as int, v));
                            }
                            i
                        } else {
                            ops.push(value);
                            proof {
                                assert(arr_model(ops@) =~= arr_model(before).push(v));
                            }
                            ops.len() - 1
                        }
                    },
                    None => {
                        ops.push(value);
                        proof {
                            assert(arr_model(ops@) =~= arr_model(before).push(v));
                        }
                        ops.len() - 1
                    },
                };
                let mut form = form;
                form.set_operators(ops);
                Screen::OperatorList { category, id, form, selected: sel }
            },
        }
    }
}

} // verus!

verus! {

pub open spec fn template_browse_post(a: App, selected: usize, key: KeyPress, b: App, s: Screen) -> bool {
    let n = all_template_keys().len();
    let stay = Screen::TemplateBrowse { selected };
    keeps(a, b) && match key.code {
        Key::Esc => s == Screen::TopLevel { tab: TopTab::Receivers, selected: 0 },
        Key::Down => s == Screen::TemplateBrowse { selected: down(selected, n) },
        Key::Up => s == Screen::TemplateBrowse { selected: up(selected) },
        Key::Enter => if selected < n {
            match s {
                Screen::NameTemplateReceiver { template_key, input } => template_key@ == all_template_keys()[selected as int]
                    && input.value@ == crate::editor_templates::all_template_ids()[selected as int] && input.cursor == input.value@.len(),
                _ => false,
            }
        } else {
            s == stay
        },
        _ => s == stay,
    }
}

pub open spec fn name_template_post(a: App, template_key: &'static str, input: TextInput, key: KeyPress, b: App, s: Screen) -> bool {
    let id = trim(input.value@);
    match key.code {
        Key::Esc => keeps(a, b) && s == Screen::TopLevel { tab: TopTab::Receivers, selected: 0 },
        Key::Enter => if id_free(id, obj_model(a.doc.receivers@)) {
            keeps(a, b) && match s {
                Screen::EditTemplateParams { template_key: k, id: i, form } => k == template_key && i@ == id
                    && fresh_form(form, None, false, registered_template(template_key@).params, JVal::Obj(Seq::empty())),
                _ => false,
            }
        } else {
            refused(a, b, id) && s == Screen::NameTemplateReceiver { template_key, input }
        },
        _ => keeps(a, b) && match s {
            Screen::NameTemplateReceiver { template_key: k, input: next } => k == template_key && typed_into(input, key, next),
            _ => false,
        },
    }
}

pub open spec fn edit_template_post(a: App, template_key: &'static str, id: String, form: FormState, key: KeyPress, b: App, s: Screen) -> bool {
    keeps(a, b) && match key.code {
        Key::Enter => match s {
            Screen::ReviewTemplateReceiver { template_key: k, id: i, params, receiver } => k == template_key && i == id
                && params@ == form.value_model()
                && receiver@ == build_model(registered_template(template_key@), params@),
            _ => false,
        },
        Key::Esc => s == Screen::TopLevel { tab: TopTab::Receivers, selected: 0 },
        _ => match s {
            Screen::EditTemplateParams { template_key: k, id: i, form: g } => k == template_key && i == id
                && crate::editor_form::form_after_key(form, key, g),
            _ => false,
        },
    }
}

pub open spec fn review_post(a: App, template_key: &'static str, id: String, params: JsonValue, receiver: JsonValue, key: KeyPress, b: App, s: Screen) -> bool {
    match key.code {
        Key::Enter => doc_changed(a.doc, b.doc, ComponentCategory::Receiver, obj_insert(obj_model(a.doc.receivers@), id@, receiver@))
            && edited(a, b, created_msg(id@)) && s == Screen::TopLevel { tab: TopTab::Receivers, selected: 0 },
        Key::Esc => keeps(a, b) && match s {
            Screen::EditTemplateParams { template_key: k, id: i, form } => k == template_key && i == id
                && fresh_form(form, None, false, registered_template(template_key@).params, params@),
            _ => false,
        },
        _ => keeps(a, b) && s == Screen::ReviewTemplateReceiver { template_key, id, params, receiver },
    }
}

/// Law: going back from a template's review to its parameters shows each
/// parameter as it was typed, and leaves the document as it was.
pub proof fn law_review_back_keeps_params(
    a: App,
    template_key: &'static str,
    id: String,
    form: FormState,
    enter: KeyPress,
    b: App,
    params: JsonValue,
    receiver: JsonValue,
    esc: KeyPress,
    c: App,
    s: Screen,
)
    requires
        screen_wf(Screen::EditTemplateParams { template_key, id, form }),
        enter.code == Key::Enter,
        esc.code == Key::Esc,
        edit_template_post(a, template_key, id, form, enter, b, Screen::ReviewTemplateReceiver { template_key, id, params, receiver }),
        review_post(b, template_key, id, params, receiver, esc, c, s),
    ensures
        c.doc == a.doc,
        c.dirty == a.dirty,
        s matches Screen::EditTemplateParams { template_key: k, id: i, form: g } && k == template_key && i == id
            && forall|j: int|
            0 <= j < form.fields@.len() && (#[trigger] crate::editor_form::field_contribution(form.fields@[j])) is Some
                ==> crate::editor_schema::value_path(g.value_model(), crate::text::split_on(form.fields_spec@[j].key@, '.'))
                == crate::editor_schema::value_path(params@, crate::text::split_on(form.fields_spec@[j].key@, '.')),
{
    crate::editor_templates::law_template_params_apart(template_key@);
    if let Screen::EditTemplateParams { template_key: k, id: i, form: g } = s {
        crate::editor_form::law_reopen_keeps_typed(form, g);
    }
}

impl App {
    fn handle_template_browse(&mut self, selected: usize, key: KeyPress) -> (r: Screen)
        ensures
            old(self).doc.unique_keys() ==> final(self).doc.unique_keys(),
            template_browse_post(*old(self), selected, key, *final(self), r),
            screen_wf(r),
            final(self).show_help == old(self).show_help,
    {
        let list = source_templates();
        let n = list.len();
        proof {
            assert(template_keys(list@).len() == list@.len());
        }
        match key.code {
            Key::Esc => Screen::TopLevel { tab: TopTab::Receivers, selected: 0 },
            Key::Down => Screen::TemplateBrowse {
                selected: if n == 0 { 0 } else if selected < n - 1 { selected + 1 } else { n - 1 },
            },
            Key::Up => Screen::TemplateBrowse { selected: if selected == 0 { 0 } else { selected - 1 } },
            Key::Enter => {
                if selected >= n {
                    return Screen::TemplateBrowse { selected };
                }
                let template_key = list[selected].key;
                let default_id = list[selected].default_id;
                proof {
                    assert(template_keys(list@)[selected as int] == template_key@);
                    assert(crate::editor_templates::template_ids(list@)[selected as int] == default_id@);
                    assert(all_template_keys().contains(template_key@));
                }
                Screen::NameTemplateReceiver { template_key, input: TextInput::new(default_id.to_owned()) }
            },
            _ => Screen::TemplateBrowse { selected },
        }
    }

    fn handle_name_template(&mut self, template_key: &'static str, input: TextInput, key: KeyPress) -> (r: Screen)
        requires
            input.wf(),
            all_template_keys().contains(template_key@),
        ensures
            old(self).doc.unique_keys() ==> final(self).doc.unique_keys(),
            name_template_post(*old(self), template_key, input, key, *final(self), r),
            screen_wf(r),
            final(self).show_help == old(self).show_help,
    {
        match key.code {
            Key::Esc => Screen::TopLevel { tab: TopTab::Receivers, selected: 0 },
            Key::Enter => {
                let id = typed_id(&input);
                let taken = map_contains_key(&self.doc.receivers, id.as_str());
                if id.as_str().is_empty() || taken {
                    self.status_message = Some(cat("'", id.as_str(), "' is empty or already exists"));
                    Screen::NameTemplateReceiver { template_key, input }
                } else {
                    let template = find(template_key).unwrap();
                    let form = FormState::new(None, false, template.params, &empty_object());
                    Screen::EditTemplateParams { template_key, id, form }
                }
            },
            _ => Screen::NameTemplateReceiver { template_key, input: input.with_key(key) },
        }
    }

    fn handle_edit_template(&mut self, template_key: &'static str, id: String, form: FormState, key: KeyPress) -> (r: Screen)
        requires
            form.wf(),
            all_template_keys().contains(template_key@),
            form.kind_name is None,
            field_models(form.fields_spec@) == registered_template(template_key@).params,
        ensures
            old(self).doc.unique_keys() ==> final(self).doc.unique_keys(),
            edit_template_post(*old(self), template_key, id, form, key, *final(self), r),
            screen_wf(r),
            final(self).show_help == old(self).show_help,
    {
        let mut form = form;
        match form.on_key(key) {
            FormOutcome::Continue => Screen::EditTemplateParams { template_key, id, form },
            FormOutcome::Cancel => Screen::TopLevel { tab: TopTab::Receivers, selected: 0 },
            FormOutcome::Submit => {
                let template = find(template_key).unwrap();
                let params = form.to_value();
                let receiver = build(&template, &params);
                Screen::ReviewTemplateReceiver { template_key, id, params, receiver }
            },
        }
    }

    fn handle_review(&mut self, template_key: &'static str, id: String, params: JsonValue, receiver: JsonValue, key: KeyPress) -> (r: Screen)
        requires
            all_template_keys().contains(template_key@),
        ensures
            old(self).doc.unique_keys() ==> final(self).doc.unique_keys(),
            review_post(*old(self), template_key, id, params, receiver, key, *final(self), r),
            screen_wf(r),
            final(self).show_help == old(self).show_help,
    {
        match key.code {
            Key::Enter => {
                let msg = cat2(id.as_str(), " created from template (press 's' to save to disk)");
                self.put_component(ComponentCategory::Receiver, id, receiver);
                self.dirty = true;
                self.status_message = Some(msg);
                Screen::TopLevel { tab: TopTab::Receivers, selected: 0 }
            },
            Key::Esc => {
                let template = find(template_key).unwrap();
                let form = FormState::new(None, false, template.params, &params);
                Screen::EditTemplateParams { template_key, id, form }
            },
            _ => Screen::ReviewTemplateReceiver { template_key, id, params, receiver },
        }
    }
}

/// `{}`.
fn empty_object() -> (r: JsonValue)
    ensures
        r@ == JVal::Obj(Seq::empty()),
{
    let e: JsonMap = Vec::new();
    let ghost ev = e;
    proof {
        crate::json::lemma_object_view(ev);
        assert(obj_model(e@) =~= Seq::<(Seq<char>, JVal)>::empty());
    }
    JsonValue::Object(e)
}

} // verus!

verus! {

/// What a key does on the current screen, when the help overlay is not
/// involved: the new state `b`, whose screen is `b.screen`.
pub open spec fn step_post(a: App, key: KeyPress, b: App) -> bool {
    let s = b.screen;
    match a.screen {
        Screen::TopLevel { tab, selected } => top_level_post(a, tab, selected, key, b, s),
        Screen::PickType { category, selected } => pick_type_post(a, category, selected, key, b, s),
        Screen::NameNewComponent { category, kind_name, input } => name_component_post(a, category, kind_name, input, key, b, s),
        Screen::NameNewPipeline { input } => name_pipeline_post(a, input, key, b, s),
        Screen::EditComponent { category, id, form } => edit_component_post(a, category, id, form, key, b, s),
        Screen::EditPipeline { id, form } => edit_pipeline_post(a, id, form, key, b, s),
        Screen::ConfirmRemove { category, id, .. } => confirm_post(a, category, id, key, b, s),
        Screen::OperatorList { category, id, form, selected } => operator_list_post(a, category, id, form, selected, key, b, s),
        Screen::OperatorPickType { category, id, form, selected } => operator_pick_post(a, category, id, form, selected, key, b, s),
        Screen::OperatorEdit { category, id, form, index, op_form } => operator_edit_post(a, category, id, form, index, op_form, key, b, s),
        Screen::TemplateBrowse { selected } => template_browse_post(a, selected, key, b, s),
        Screen::NameTemplateReceiver { template_key, input } => name_template_post(a, template_key, input, key, b, s),
        Screen::EditTemplateParams { template_key, id, form } => edit_template_post(a, template_key, id, form, key, b, s),
        Screen::ReviewTemplateReceiver { template_key, id, params, receiver } => review_post(a, template_key, id, params, receiver, key, b, s),
    }
}

impl App {
    /// Whether `?` opens the help overlay on the current screen.
    pub fn screen_accepts_help_hotkey(&self) -> (r: bool)
        ensures
            r == accepts_help(self.screen),
    {
        match self.screen {
            Screen::TopLevel { .. } | Screen::PickType { .. } | Screen::ConfirmRemove { .. } | Screen::OperatorList { .. }
            | Screen::OperatorPickType { .. } | Screen::TemplateBrowse { .. } => true,
            _ => false,
        }
    }

    /// Handles a key. While the help overlay shows, any key closes it and
    /// does nothing else; `?` on a list screen opens it; any other key goes
    /// to the screen.
    pub fn on_key(&mut self, key: KeyPress)
        requires
            old(self).wf(),
        ensures
            old(self).doc.unique_keys() ==> final(self).doc.unique_keys(),
            final(self).wf(),
            old(self).show_help ==> !final(self).show_help && final(self).screen == old(self).screen && keeps(*old(self), *final(self)),
            !old(self).show_help && key.code == Key::Char('?') && accepts_help(old(self).screen) ==> final(self).show_help
                && final(self).screen == old(self).screen && keeps(*old(self), *final(self)),
            !old(self).show_help && !(key.code == Key::Char('?') && accepts_help(old(self).screen)) ==> !final(self).show_help
                && step_post(*old(self), key, *final(self)),
    {
        if self.show_help {
            self.show_help = false;
            return;
        }
        if key.code == Key::Char('?') && self.screen_accepts_help_hotkey() {
            self.show_help = true;
            return;
        }
        let mut screen = Screen::TopLevel { tab: TopTab::Receivers, selected: 0 };
        std::mem::swap(&mut screen, &mut self.screen);
        let next = self.handle_key(screen, key);
        self.screen = next;
    }

    fn handle_key(&mut self, screen: Screen, key: KeyPress) -> (r: Screen)
        requires
            screen_wf(screen),
        ensures
            old(self).doc.unique_keys() ==> final(self).doc.unique_keys(),
            screen_wf(r),
            final(self).show_help == old(self).show_help,
            step_post(App { screen, ..*old(self) }, key, App { screen: r, ..*final(self) }),
    {
        match screen {
            Screen::TopLevel { tab, selected } => self.handle_top_level(tab, selected, key),
            Screen::PickType { category, selected } => self.handle_pick_type(category, selected, key),
            Screen::NameNewComponent { category, kind_name, input } => self.handle_name_component(category, kind_name, input, key),
            Screen::NameNewPipeline { input } => self.handle_name_pipeline(input, key),
            Screen::EditComponent { category, id, form } => self.handle_edit_component(category, id, form, key),
            Screen::EditPipeline { id, form } => self.handle_edit_pipeline(id, form, key),
            Screen::ConfirmRemove { category, id, .. } => self.handle_confirm_remove(category, id, key),
            Screen::OperatorList { category, id, form, selected } => self.handle_operator_list(category, id, form, selected, key),
            Screen::OperatorPickType { category, id, form, selected } => self.handle_operator_pick_type(category, id, form, selected, key),
            Screen::OperatorEdit { category, id, form, index, op_form } => self.handle_operator_edit(category, id, form, index, op_form, key),
            Screen::TemplateBrowse { selected } => self.handle_template_browse(selected, key),
            Screen::NameTemplateReceiver { template_key, input } => self.handle_name_template(template_key, input, key),
            Screen::EditTemplateParams { template_key, id, form } => self.handle_edit_template(template_key, id, form, key),
            Screen::ReviewTemplateReceiver { template_key, id, params, receiver } => self.handle_review(template_key, id, params, receiver, key),
        }
    }

    /// Takes the outcome of a requested save: on success the document is
    /// clean and the status names the file; on failure the status carries
    /// the error, with a hint where one applies.
    pub fn finish_save(&mut self, result: Result<(), crate::editor_doc::EditorError>)
        ensures
            old(self).doc.unique_keys() ==> final(self).doc.unique_keys(),
            !final(self).save_requested,
            final(self).doc == old(self).doc,
            final(self).screen == old(self).screen,
            final(self).config_path == old(self).config_path,
            final(self).should_quit == old(self).should_quit,
            final(self).show_help == old(self).show_help,
            match result {
                Ok(()) => !final(self).dirty && (final(self).status_message matches Some(m) && m@ == saved_msg(old(self).config_path@)),
                Err(e) => final(self).dirty == old(self).dirty && (final(self).status_message matches Some(m)
                    && m@ == save_failed_msg(crate::editor_doc::editor_error_text(e))),
            },
    {
        self.save_requested = false;
        match result {
            Ok(()) => {
                self.dirty = false;
                self.status_message = Some(cat2("saved ", self.config_path.as_str()));
            },
            Err(e) => {
                let text = e.to_text();
                let mut message = cat2("save failed: ", text.as_str());
                match save_error_hint(message.as_str()) {
                    Some(hint) => append_str(&mut message, hint),
                    None => {},
                }
                self.status_message = Some(message);
            },
        }
    }
}

} // verus!
