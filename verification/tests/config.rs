use sgcia::config::{component_type, expand_env, load_str, parse_duration, ConfigError};

#[test]
fn parses_common_duration_suffixes() {
    assert_eq!(parse_duration("500ms").unwrap(), 500);
    assert_eq!(parse_duration("2s").unwrap(), 2_000);
    assert_eq!(parse_duration("1m").unwrap(), 60_000);
    assert_eq!(parse_duration("1h").unwrap(), 3_600_000);
    assert_eq!(parse_duration("5").unwrap(), 5_000);
}

#[test]
fn rejects_unknown_unit() {
    assert!(parse_duration("5x").is_err());
}

#[test]
fn rejects_a_duration_without_digits() {
    assert!(parse_duration("ms").is_err());
    assert!(parse_duration("").is_err());
}

#[test]
fn expands_defined_var() {
    let env = vec![("SG_TEST_VAR".to_string(), "secret-token".to_string())];
    let out = expand_env("token: ${SG_TEST_VAR}", &env).unwrap();
    assert_eq!(out, "token: secret-token");
}

#[test]
fn errors_on_undefined_var() {
    let env: Vec<(String, String)> = Vec::new();
    let err = expand_env("token: ${SG_TEST_VAR_UNDEFINED}", &env).unwrap_err();
    assert!(matches!(err, ConfigError::UndefinedEnvVar(ref n) if n == "SG_TEST_VAR_UNDEFINED"));
}

#[test]
fn leaves_plain_text_untouched() {
    let env: Vec<(String, String)> = Vec::new();
    let out = expand_env("plain: value, no interpolation here", &env).unwrap();
    assert_eq!(out, "plain: value, no interpolation here");
}

fn example() -> String {
    [
        "receivers:",
        "  syslog/udp:",
        "    protocol: udp",
        "    listen_address: \"0.0.0.0:514\"",
        "exporters:",
        "  sentinelone_hec:",
        "    type: s1hec",
        "    endpoint: \"https://example.invalid/services/collector/event\"",
        "    token: \"test-token\"",
        "service:",
        "  pipelines:",
        "    logs/syslog:",
        "      receivers: [syslog/udp]",
        "      exporters: [sentinelone_hec]",
        "",
    ]
    .join("\n")
}

#[test]
fn parses_and_validates_minimal_config() {
    let env: Vec<(String, String)> = Vec::new();
    let cfg = match load_str(&example(), &env) {
        Ok(c) => c,
        Err(_) => panic!("example config loads"),
    };
    assert!(cfg.validate().is_ok());
    assert_eq!(component_type("syslog/udp"), "syslog");
    assert_eq!(component_type("sentinelone_hec"), "sentinelone_hec");
}

#[test]
fn rejects_unknown_receiver_reference() {
    let bad_cfg = [
        "receivers:",
        "  syslog/udp:",
        "    protocol: udp",
        "exporters:",
        "  sentinelone_hec:",
        "    type: s1hec",
        "service:",
        "  pipelines:",
        "    logs/syslog:",
        "      receivers: [syslog/does_not_exist]",
        "      exporters: [sentinelone_hec]",
        "",
    ]
    .join("\n");
    let env: Vec<(String, String)> = Vec::new();
    assert!(matches!(load_str(&bad_cfg, &env), Err(ConfigError::UnknownComponent { .. })));
}

#[test]
fn env_references_are_expanded_before_parsing() {
    let env = vec![("TOKEN".to_string(), "abc".to_string())];
    let text = example().replace("\"test-token\"", "${TOKEN}");
    assert!(load_str(&text, &env).is_ok());
    let none: Vec<(String, String)> = Vec::new();
    assert!(matches!(load_str(&text, &none), Err(ConfigError::UndefinedEnvVar(_))));
}
