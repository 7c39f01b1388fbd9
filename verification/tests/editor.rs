use sgcia::editor_app::{save_error_hint, App, Screen, TopTab};
use sgcia::editor_doc::{EditorDoc, EditorError};
use sgcia::editor_form::{field_text, FieldEditState};
use sgcia::editor_input::{Key, KeyPress};
use sgcia::editor_schema::{component_type, describe_operator_type, describe_type, get_path, minimal_value, operator_types, set_path, types_for, ComponentCategory, EnumChoice};
use sgcia::editor_templates::{build, find, source_templates};
use sgcia::json::{map_contains_key, map_get, JsonMap, JsonValue};

fn key(code: Key) -> KeyPress {
    KeyPress::from_code(code)
}

fn app_sample_yaml() -> String {
    [
        "receivers:",
        "  file_log/app:",
        "    inc\x6cude: [\"/var/log/app/*.log\"]",
        "    operators:",
        "      - type: add",
        "        field: attributes.sourcetype",
        "        value: myapp",
        "exporters:",
        "  splunk_hec/sentinelone:",
        "    endpoint: \"https://example.invalid/services/collector/event\"",
        "    token: \"tok\"",
        "extensions:",
        "  file_storage:",
        "    directory: /var/lib/sgcia/otelcol-storage",
        "service:",
        "  extensions: [file_storage]",
        "  pipelines:",
        "    logs/app:",
        "      receivers: [file_log/app]",
        "      exporters: [splunk_hec/sentinelone]",
        "",
    ]
    .join("\n")
}

fn sample_doc() -> EditorDoc {
    match EditorDoc::parse(&app_sample_yaml()) {
        Ok(d) => d,
        Err(_) => panic!("sample document parses"),
    }
}

fn new_app() -> App {
    App::new("x.yaml".to_string(), sample_doc())
}

/// The form fields of file_log are the glob list, exclude, start_at,
/// poll_interval, storage, operators: five Tabs land on the operators.
fn tab_to_operators_field(app: &mut App) {
    for _ in 0..5 {
        app.on_key(key(Key::Tab));
    }
}

fn model_sample_yaml() -> String {
    [
        "receivers:",
        "  file_log/app:",
        "    inc\x6cude: [\"/var/log/app/*.log\"]",
        "exporters:",
        "  splunk_hec/sentinelone:",
        "    endpoint: \"https://xdr.us1.sentinelone.net/services/collector/event\"",
        "    token: ${S1_HEC_TOKEN}",
        "extensions:",
        "  file_storage:",
        "    directory: /var/lib/sgcia/otelcol-storage",
        "    create_directory: true",
        "service:",
        "  extensions: [file_storage]",
        "  pipelines:",
        "    logs/app:",
        "      receivers: [file_log/app]",
        "      exporters: [splunk_hec/sentinelone]",
        "",
    ]
    .join("\n")
}

fn str_at<'a>(v: &'a JsonValue, k: &str) -> Option<&'a str> {
    v.get(k).and_then(|x| x.as_str())
}

#[test]
fn save_error_hint_flags_the_windows_event_log_pipeline_build_failure() {
    let message = "save failed: invalid config: Error: failed to build pipelines: \
        failed to create \"windows_event_log/security\" receiver for data type \"logs\": \
        windows eventlog receiver is only supported on Windows";
    let hint = save_error_hint(message).expect("should recognize this failure");
    assert!(hint.contains("Windows"));
}

#[test]
fn save_error_hint_is_none_for_unrelated_failures() {
    assert!(save_error_hint("save failed: invalid config: Error: requires a non-empty \"token\"").is_none());
}

#[test]
fn q_requests_quit_from_top_level() {
    let mut app = new_app();
    app.on_key(key(Key::Char('q')));
    assert!(app.should_quit);
}

#[test]
fn question_mark_opens_help_from_top_level_and_any_key_dismisses_it() {
    let mut app = new_app();
    app.on_key(key(Key::Char('?')));
    assert!(app.show_help);
    assert!(matches!(app.screen, Screen::TopLevel { .. }));

    app.on_key(key(Key::Char('z')));
    assert!(!app.show_help);
    assert!(matches!(app.screen, Screen::TopLevel { .. }));
}

#[test]
fn question_mark_types_literally_into_a_focused_text_field() {
    let mut app = new_app();
    app.on_key(key(Key::Char('a')));
    app.on_key(key(Key::Enter));
    app.on_key(key(Key::Char('?')));
    assert!(!app.show_help);
    match &app.screen {
        Screen::NameNewComponent { input, .. } => assert_eq!(input.value(), "?"),
        _ => panic!("expected NameNewComponent"),
    }
}

#[test]
fn tab_cycles_through_top_tabs() {
    let mut app = new_app();
    app.on_key(key(Key::Tab));
    assert!(matches!(app.screen, Screen::TopLevel { tab: TopTab::Exporters, .. }));
    app.on_key(key(Key::Tab));
    assert!(matches!(app.screen, Screen::TopLevel { tab: TopTab::Extensions, .. }));
}

#[test]
fn enter_opens_edit_component_for_selected_receiver() {
    let mut app = new_app();
    app.on_key(key(Key::Enter));
    assert!(matches!(app.screen, Screen::EditComponent { category: ComponentCategory::Receiver, .. }));
}

#[test]
fn editing_and_submitting_a_component_marks_doc_dirty() {
    let mut app = new_app();
    app.on_key(key(Key::Enter));
    app.on_key(key(Key::Enter));
    assert!(app.dirty);
    assert!(matches!(app.screen, Screen::TopLevel { .. }));
}

#[test]
fn removing_a_referenced_receiver_requires_confirmation() {
    let mut app = new_app();
    app.on_key(key(Key::Char('d')));
    match &app.screen {
        Screen::ConfirmRemove { id, blocking, .. } => {
            assert_eq!(id, "file_log/app");
            assert_eq!(blocking, &vec!["logs/app".to_string()]);
        }
        _ => panic!("expected ConfirmRemove"),
    }
    assert!(map_contains_key(&app.doc.receivers, "file_log/app"), "not removed yet");

    app.on_key(key(Key::Char('y')));
    assert!(!map_contains_key(&app.doc.receivers, "file_log/app"));
    let pipeline = map_get(&app.doc.pipelines, "logs/app").unwrap();
    let receivers = pipeline.get("receivers").unwrap().as_array().unwrap();
    assert!(
        !receivers.iter().any(|v| v.as_str() == Some("file_log/app")),
        "dangling reference must be stripped from the pipeline too"
    );
}

#[test]
fn removing_an_extension_never_requires_confirmation() {
    let mut app = new_app();
    app.on_key(key(Key::Tab));
    app.on_key(key(Key::Tab));
    app.on_key(key(Key::Char('d')));
    assert!(!map_contains_key(&app.doc.extensions, "file_storage"));
    assert!(matches!(app.screen, Screen::TopLevel { tab: TopTab::Extensions, .. }));
}

#[test]
fn add_component_flow_creates_a_new_receiver_without_a_type_key() {
    let mut app = new_app();
    app.on_key(key(Key::Char('a')));
    assert!(matches!(app.screen, Screen::PickType { category: ComponentCategory::Receiver, .. }));

    app.on_key(key(Key::Enter));
    assert!(matches!(app.screen, Screen::NameNewComponent { .. }));

    for c in "syslog/new".chars() {
        app.on_key(key(Key::Char(c)));
    }
    app.on_key(key(Key::Enter));

    assert!(matches!(app.screen, Screen::EditComponent { .. }));
    app.on_key(key(Key::Enter));

    let value = map_get(&app.doc.receivers, "syslog/new").expect("receiver created");
    assert!(value.get("type").is_none(), "the type comes from the id, not a type: key");
}

#[test]
fn entering_operator_list_field_opens_operator_list_screen() {
    let mut app = new_app();
    app.on_key(key(Key::Enter));
    tab_to_operators_field(&mut app);
    app.on_key(key(Key::Enter));
    assert!(matches!(app.screen, Screen::OperatorList { .. }));
}

#[test]
fn operator_list_shows_the_existing_add_operator() {
    let mut app = new_app();
    app.on_key(key(Key::Enter));
    tab_to_operators_field(&mut app);
    app.on_key(key(Key::Enter));
    match &app.screen {
        Screen::OperatorList { form, .. } => {
            let ops = form.operators();
            assert_eq!(ops.len(), 1);
            assert_eq!(str_at(&ops[0], "type"), Some("add"));
        }
        _ => panic!("expected OperatorList"),
    }
}

#[test]
fn adding_a_new_operator_persists_through_to_the_component() {
    let mut app = new_app();
    app.on_key(key(Key::Enter));
    tab_to_operators_field(&mut app);
    app.on_key(key(Key::Enter));
    app.on_key(key(Key::Char('a')));
    assert!(matches!(app.screen, Screen::OperatorPickType { .. }));

    app.on_key(key(Key::Down));
    app.on_key(key(Key::Up));
    app.on_key(key(Key::Enter));
    assert!(matches!(app.screen, Screen::OperatorEdit { index: None, .. }));

    app.on_key(key(Key::Enter));
    match &app.screen {
        Screen::OperatorList { form, .. } => assert_eq!(form.operators().len(), 2),
        _ => panic!("expected OperatorList"),
    }

    app.on_key(key(Key::Esc));
    app.on_key(key(Key::Enter));

    let value = map_get(&app.doc.receivers, "file_log/app").unwrap();
    assert_eq!(value.get("operators").unwrap().as_array().unwrap().len(), 2);
}

#[test]
fn removing_an_operator_from_the_list() {
    let mut app = new_app();
    app.on_key(key(Key::Enter));
    tab_to_operators_field(&mut app);
    app.on_key(key(Key::Enter));
    app.on_key(key(Key::Char('d')));
    match &app.screen {
        Screen::OperatorList { form, .. } => assert!(form.operators().is_empty()),
        _ => panic!("expected OperatorList"),
    }
}

#[test]
fn template_flow_creates_a_new_receiver_from_the_first_template() {
    let mut app = new_app();
    app.on_key(key(Key::Char('T')));
    assert!(matches!(app.screen, Screen::TemplateBrowse { .. }));

    app.on_key(key(Key::Enter));
    assert!(matches!(app.screen, Screen::NameTemplateReceiver { .. }));

    app.on_key(key(Key::Enter));
    assert!(matches!(app.screen, Screen::EditTemplateParams { .. }));

    app.on_key(key(Key::Enter));
    assert!(matches!(app.screen, Screen::ReviewTemplateReceiver { .. }));

    app.on_key(key(Key::Enter));
    assert!(matches!(app.screen, Screen::TopLevel { tab: TopTab::Receivers, .. }));

    let value = map_get(&app.doc.receivers, "syslog/cisco_asa").expect("receiver created from template");
    assert_eq!(str_at(value, "protocol"), Some("rfc3164"));
    assert!(value.get("operators").unwrap().as_array().unwrap().len() >= 3);
}

#[test]
fn esc_on_review_returns_to_params_with_previous_edits_preserved() {
    let mut app = new_app();
    app.on_key(key(Key::Char('T')));
    app.on_key(key(Key::Enter));
    app.on_key(key(Key::Enter));
    app.on_key(key(Key::Right));
    app.on_key(key(Key::Enter));
    match &app.screen {
        Screen::ReviewTemplateReceiver { receiver, .. } => {
            assert!(receiver.get("tcp").is_some(), "tcp transport should be reflected in the built receiver");
        }
        _ => panic!("expected ReviewTemplateReceiver"),
    }

    app.on_key(key(Key::Esc));
    match &app.screen {
        Screen::EditTemplateParams { form, .. } => match &form.fields[0] {
            FieldEditState::Enum { choice, selected } => assert_eq!(choice.options()[*selected], "tcp"),
            _ => panic!("expected Enum field"),
        },
        _ => panic!("expected EditTemplateParams"),
    }
}

#[test]
fn capital_t_only_opens_template_browse_on_receivers_tab() {
    let mut app = new_app();
    app.on_key(key(Key::Tab));
    app.on_key(key(Key::Char('T')));
    assert!(
        matches!(app.screen, Screen::TopLevel { tab: TopTab::Exporters, .. }),
        "T should be a no-op outside the Receivers tab"
    );
}

#[test]
fn s_asks_for_a_save_and_the_outcome_sets_the_status() {
    let mut app = new_app();
    app.on_key(key(Key::Enter));
    app.on_key(key(Key::Enter));
    assert!(app.dirty);
    app.on_key(key(Key::Char('s')));
    assert!(app.save_requested);
    app.finish_save(Ok(()));
    assert!(!app.save_requested);
    assert!(!app.dirty);
    assert_eq!(app.status_message.as_deref(), Some("saved x.yaml"));

    app.on_key(key(Key::Char('s')));
    app.finish_save(Err(EditorError::Invalid("windows_event_log/security failed".to_string())));
    let status = app.status_message.clone().unwrap();
    assert!(status.starts_with("save failed: "));
    assert!(status.ends_with("remove it and its pipeline to test elsewhere"));
}

#[test]
fn a_taken_name_is_refused_with_a_status() {
    let mut app = new_app();
    app.on_key(key(Key::Char('a')));
    app.on_key(key(Key::Down));
    app.on_key(key(Key::Enter));
    for c in " file_log/app ".chars() {
        app.on_key(key(Key::Char(c)));
    }
    app.on_key(key(Key::Enter));
    assert!(matches!(app.screen, Screen::NameNewComponent { .. }));
    assert_eq!(app.status_message.as_deref(), Some("'file_log/app' is empty or already exists"));
}

#[test]
fn missing_config_sections_parse_as_empty() {
    let doc = EditorDoc::parse("receivers:\n").unwrap();
    assert!(doc.receivers.is_empty());
    assert!(doc.pipelines.is_empty());
}

#[test]
fn load_preserves_var_reference_literally() {
    let doc = EditorDoc::parse(&model_sample_yaml()).unwrap();
    let exporter = map_get(&doc.exporters, "splunk_hec/sentinelone").unwrap();
    assert_eq!(str_at(exporter, "token"), Some("${S1_HEC_TOKEN}"));
}

#[test]
fn to_value_derives_service_extensions_from_defined_extensions() {
    let doc = EditorDoc::parse(&model_sample_yaml()).unwrap();
    let value = doc.to_value();
    let exts = value.get("service").unwrap().get("extensions").unwrap().as_array().unwrap();
    assert_eq!(exts.len(), 1);
    assert_eq!(exts[0].as_str(), Some("file_storage"));
}

#[test]
fn pipelines_referencing_finds_and_strip_removes() {
    let mut doc = EditorDoc::parse(&model_sample_yaml()).unwrap();
    let refs = doc.pipelines_referencing(ComponentCategory::Receiver, "file_log/app");
    assert_eq!(refs, vec!["logs/app".to_string()]);

    doc.strip_from_pipelines(ComponentCategory::Receiver, "file_log/app");
    let refs_after = doc.pipelines_referencing(ComponentCategory::Receiver, "file_log/app");
    assert!(refs_after.is_empty());
}

#[test]
fn pipelines_referencing_is_always_empty_for_extensions() {
    let doc = EditorDoc::parse(&model_sample_yaml()).unwrap();
    assert!(doc.pipelines_referencing(ComponentCategory::Extension, "file_storage").is_empty());
}

#[test]
fn validation_text_replaces_var_references() {
    let doc = EditorDoc::parse(&model_sample_yaml()).unwrap();
    let text = doc.validation_yaml().unwrap();
    assert!(!text.contains("${S1_HEC_TOKEN}"));
    let saved = doc.save_yaml().unwrap();
    assert!(saved.contains("${S1_HEC_TOKEN}"));
}

#[test]
fn every_field_and_type_has_help_text() {
    for category in [ComponentCategory::Receiver, ComponentCategory::Exporter, ComponentCategory::Extension] {
        for spec in types_for(category) {
            assert!(!spec.description.is_empty(), "{} has no description", spec.name);
            for field in spec.fields {
                assert!(!field.help.is_empty(), "{}.{} has no help text", spec.name, field.key);
            }
        }
    }
    for spec in operator_types() {
        assert!(!spec.description.is_empty(), "{} has no description", spec.name);
        for field in spec.fields {
            assert!(!field.help.is_empty(), "{}.{} has no help text", spec.name, field.key);
        }
    }
}

#[test]
fn set_path_and_get_path_round_trip_nested_keys() {
    let mut map: JsonMap = Vec::new();
    set_path(&mut map, "udp.listen_address", JsonValue::Str("0.0.0.0:514".to_string()));
    set_path(&mut map, "tcp.listen_address", JsonValue::Str("0.0.0.0:601".to_string()));
    let value = JsonValue::Object(map);
    assert_eq!(get_path(&value, "udp.listen_address").unwrap().as_str(), Some("0.0.0.0:514"));
    assert_eq!(get_path(&value, "tcp.listen_address").unwrap().as_str(), Some("0.0.0.0:601"));
    assert!(get_path(&value, "udp.missing").is_none());
}

#[test]
fn component_type_takes_the_prefix_before_slash() {
    assert_eq!(component_type("syslog/udp"), "syslog");
    assert_eq!(component_type("file_log/app"), "file_log");
    assert_eq!(component_type("standalone"), "standalone");
}

#[test]
fn minimal_value_nests_required_fields_by_path() {
    let spec = types_for(ComponentCategory::Extension).into_iter().find(|s| s.name == "file_storage").unwrap();
    let value = minimal_value(&spec);
    assert!(value.get("directory").is_some());
}

#[test]
fn every_template_has_a_description_and_matches_a_registered_receiver_type() {
    for template in source_templates() {
        assert!(!template.description.is_empty(), "{} has no description", template.key);
        assert!(
            ["syslog", "file_log", "windows_event_log"].contains(&template.receiver_type),
            "{} has an unrecognized receiver_type {}",
            template.key,
            template.receiver_type
        );
        for p in &template.params {
            assert!(
                !matches!(p.kind, sgcia::editor_schema::FieldKind::OperatorList),
                "{}'s param {} must not be an OperatorList",
                template.key,
                p.key
            );
            assert!(!p.help.is_empty(), "{}.{} has no help text", template.key, p.key);
        }
    }
}

#[test]
fn keys_and_default_ids_are_unique() {
    let templates = source_templates();
    let mut keys: Vec<&str> = templates.iter().map(|t| t.key).collect();
    keys.sort_unstable();
    keys.dedup();
    assert_eq!(keys.len(), templates.len(), "duplicate template key");

    let mut ids: Vec<&str> = templates.iter().map(|t| t.default_id).collect();
    ids.sort_unstable();
    ids.dedup();
    assert_eq!(ids.len(), templates.len(), "duplicate default_id");
}

#[test]
fn find_looks_up_by_key() {
    assert!(find("cisco_asa").is_some());
    assert!(find("not-a-real-template").is_none());
}

#[test]
fn syslog_template_listens_on_the_chosen_transport() {
    let t = find("cisco_asa").unwrap();
    let udp = build(&t, &JsonValue::Object(Vec::new()));
    assert_eq!(get_path(&udp, "udp.listen_address").and_then(|v| v.as_str()), Some("0.0.0.0:514"));
    assert!(udp.get("tcp").is_none());

    let params = JsonValue::Object(vec![
        ("transport".to_string(), JsonValue::Str("tcp".to_string())),
        ("listen_address".to_string(), JsonValue::Str("127.0.0.1:6000".to_string())),
    ]);
    let tcp = build(&t, &params);
    assert_eq!(get_path(&tcp, "tcp.listen_address").and_then(|v| v.as_str()), Some("127.0.0.1:6000"));
    assert!(matches!(tcp.get("enable_octet_counting"), Some(JsonValue::Bool(true))));
    let ops = tcp.get("operators").unwrap().as_array().unwrap();
    assert_eq!(ops.len(), 5);
    assert_eq!(str_at(&ops[0], "type"), Some("regex_parser"));
    assert_eq!(str_at(&ops[4], "type"), Some("move"));
}

#[test]
fn file_template_tags_the_typed_sourcetype() {
    let t = find("file_log").unwrap();
    let params = JsonValue::Object(vec![("sourcetype".to_string(), JsonValue::Str("myapp".to_string()))]);
    let r = build(&t, &params);
    assert_eq!(str_at(&r, "start_at"), Some("end"));
    let globs = r.get("inc\x6cude").unwrap().as_array().unwrap();
    assert_eq!(globs[0].as_str(), Some("/var/log/*.log"));
    let ops = r.get("operators").unwrap().as_array().unwrap();
    assert_eq!(str_at(&ops[0], "value"), Some("myapp"));
}

#[test]
fn enum_options_are_in_display_order() {
    assert_eq!(EnumChoice::Transport.options(), vec!["udp", "tcp"]);
}

#[test]
fn describes_registered_types_and_nothing_else() {
    assert_eq!(describe_type(ComponentCategory::Exporter, "debug"), "Prints every event to the terminal instead of sending it anywhere -- useful for testing a pipeline before wiring up a real destination.");
    assert_eq!(describe_type(ComponentCategory::Receiver, "splunk_hec"), "");
    assert_eq!(describe_operator_type("remove"), "Deletes a field from every event.");
    assert_eq!(describe_operator_type("nope"), "");
}

#[test]
fn save_and_reload_round_trips_including_var_reference() {
    let mut doc = match EditorDoc::parse(&model_sample_yaml()) {
        Ok(d) => d,
        Err(_) => panic!("sample document parses"),
    };
    for (id, value) in doc.exporters.iter_mut() {
        if id == "splunk_hec/sentinelone" {
            if let JsonValue::Object(m) = value {
                sgcia::json::map_insert(m, "index".to_string(), JsonValue::Str("main".to_string()));
            }
        }
    }
    let yaml_text = match doc.save_yaml() {
        Ok(t) => t,
        Err(_) => panic!("document serializes"),
    };
    let reloaded = match EditorDoc::parse(&yaml_text) {
        Ok(d) => d,
        Err(_) => panic!("saved text parses"),
    };
    let exporter = map_get(&reloaded.exporters, "splunk_hec/sentinelone").expect("exporter kept");
    assert_eq!(exporter.get("token").and_then(|v| v.as_str()), Some("${S1_HEC_TOKEN}"));
    assert_eq!(exporter.get("index").and_then(|v| v.as_str()), Some("main"));
}

#[test]
fn exporter_types_include_dataset_and_logbuffer() {
    let names: Vec<&str> = types_for(ComponentCategory::Exporter).iter().map(|t| t.name).collect();
    assert_eq!(names, vec!["splunk_hec", "dataset", "debug", "logbuffer"]);
    let dataset = types_for(ComponentCategory::Exporter).into_iter().find(|t| t.name == "dataset").unwrap();
    let keys: Vec<&str> = dataset.fields.iter().map(|f| f.key).collect();
    assert_eq!(keys, vec!["dataset_url", "api_key", "server_host.server_host", "server_host.use_hostname"]);
    assert_eq!(describe_type(ComponentCategory::Exporter, "logbuffer"), "Feeds the web UI's log viewer -- not a real destination, loopback-only, safe to add to every logs pipeline.");
}

#[test]
fn ctrl_u_clears_the_whole_field() {
    let input = sgcia::editor_input::TextInput::new("placeholder".to_string());
    let cleared = input.with_key(KeyPress { code: Key::Char('u'), modifiers: sgcia::editor_input::CONTROL, kind: sgcia::editor_input::KeyKind::Press });
    assert_eq!(cleared.value, "");
    assert_eq!(cleared.cursor, 0);
}

#[test]
fn form_rows_show_each_widget() {
    assert_eq!(field_text(&FieldEditState::Bool(true)), "true");
    assert_eq!(field_text(&FieldEditState::Bool(false)), "false");
    assert_eq!(field_text(&FieldEditState::Enum { choice: EnumChoice::SyslogProtocol, selected: 1 }), "rfc5424");
    let ops = vec![JsonValue::Object(JsonMap::new()), JsonValue::Object(JsonMap::new())];
    assert_eq!(field_text(&FieldEditState::OperatorList(ops)), "2 operator(s) -- press Enter to manage");
}

#[test]
fn negative_and_large_integers_survive_save_and_reload() {
    let yaml = "receivers:\n  syslog/a:\n    offset: -42\n    low: -9223372036854775808\n    high: 18446744073709551615\n";
    let doc = EditorDoc::parse(yaml).unwrap();
    let saved = doc.save_yaml().unwrap();
    let again = EditorDoc::parse(&saved).unwrap();
    let receiver = map_get(&again.receivers, "syslog/a").unwrap();
    assert!(matches!(get_path(receiver, "offset"), Some(JsonValue::Number(n)) if n == "-42"));
    assert!(matches!(get_path(receiver, "low"), Some(JsonValue::Number(n)) if n == "-9223372036854775808"));
    assert!(matches!(get_path(receiver, "high"), Some(JsonValue::Number(n)) if n == "18446744073709551615"));
}
