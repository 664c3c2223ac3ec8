use bench_checklist::config::{
    config_from_root, migrate_v1_to_v2, CheckConfig, CheckType, Config, ConfigError, ConfigRoot,
    ConfigV1,
};
use bench_checklist::json::{config_from_json, decode_check, decode_scenario_export, encode_check, encode_config, encode_scenario_export, Json};
use bench_checklist::text::{parse_u32, u32_to_string, u64_to_string};

fn legacy_check() -> CheckConfig {
    CheckConfig {
        id: "game_mode".to_string(),
        name: "Game Mode".to_string(),
        check_type: CheckType::RegistryDword,
        enabled: true,
        registry_path: Some("HKCU\\Software\\Microsoft\\GameBar".to_string()),
        registry_key: Some("AutoGameModeEnabled".to_string()),
        process_name: None,
        expected_value: Some("1".to_string()),
    }
}

#[test]
fn migration_is_lossless() {
    let v1 = ConfigV1 {
        poll_interval_seconds: 10,
        notify_on_drift: true,
        checks: vec![legacy_check()],
    };
    let v2 = migrate_v1_to_v2(v1);
    assert_eq!(v2.version, 2);
    assert_eq!(v2.default_scenario, "default");
    assert_eq!(v2.scenarios.len(), 1);
    let entry = &v2.scenarios[0];
    assert_eq!(entry.id, "default");
    assert_eq!(entry.scenario.name, "Default");
    assert_eq!(entry.scenario.poll_interval_seconds, 10);
    assert!(entry.scenario.notify_on_drift);
    assert_eq!(entry.scenario.checks, vec![legacy_check()]);
}

fn legacy_doc() -> Json {
    let check_obj = encode_check(&legacy_check());
    Json::Obj(vec![
        ("poll_interval_seconds".to_string(), Json::UInt(10)),
        ("notify_on_drift".to_string(), Json::Bool(true)),
        ("checks".to_string(), Json::Arr(vec![check_obj])),
    ])
}

#[test]
fn legacy_document_loads_as_migrated_default_scenario() {
    let config = config_from_json(&legacy_doc()).unwrap();
    assert_eq!(config.active_scenario, "default");
    assert_eq!(config.root.default_scenario, "default");
    assert_eq!(config.root.scenarios.len(), 1);
    let sc = &config.root.scenarios[0].scenario;
    assert_eq!(sc.poll_interval_seconds, 10);
    assert!(sc.notify_on_drift);
    assert_eq!(sc.checks, vec![legacy_check()]);
}

#[test]
fn check_encoding_round_trips() {
    let c = legacy_check();
    let j = encode_check(&c);
    let back = decode_check(&j).unwrap();
    assert_eq!(back, c);
    match &j {
        Json::Obj(fields) => {
            // four required fields plus the three optional ones that are set
            assert_eq!(fields.len(), 7);
        }
        other => panic!("not an object: {:?}", other),
    }
}

#[test]
fn check_decoding_defaults_enabled_to_false() {
    let j = Json::Obj(vec![
        ("id".to_string(), Json::Str("x".to_string())),
        ("name".to_string(), Json::Str("X".to_string())),
        ("check_type".to_string(), Json::Str("process_absent".to_string())),
        ("process_name".to_string(), Json::Str("a.exe".to_string())),
    ]);
    let c = decode_check(&j).unwrap();
    assert!(!c.enabled);
    assert_eq!(c.check_type, CheckType::ProcessAbsent);
    assert_eq!(c.process_name.as_deref(), Some("a.exe"));
    assert_eq!(c.registry_path, None);
}

#[test]
fn unknown_check_type_is_a_parse_error() {
    let j = Json::Obj(vec![
        ("id".to_string(), Json::Str("x".to_string())),
        ("name".to_string(), Json::Str("X".to_string())),
        ("check_type".to_string(), Json::Str("mystery".to_string())),
    ]);
    match decode_check(&j) {
        Err(ConfigError::Parse(_)) => {}
        other => panic!("expected a parse error: {:?}", other),
    }
}

#[test]
fn save_then_load_round_trips() {
    let config = Config::default();
    let doc = encode_config(&config);
    let loaded = config_from_json(&doc).unwrap();
    assert_eq!(loaded.active_scenario, config.active_scenario);
    assert_eq!(loaded.root.default_scenario, config.active_scenario);
    assert_eq!(loaded.root.version, config.root.version);
    assert_eq!(loaded.root.scenarios.len(), config.root.scenarios.len());
    for (a, b) in loaded.root.scenarios.iter().zip(config.root.scenarios.iter()) {
        assert_eq!(a.id, b.id);
        assert_eq!(a.scenario, b.scenario);
    }
}

#[test]
fn save_records_the_active_scenario_as_default() {
    let mut config = Config::default();
    config.active_scenario = "productivity".to_string();
    let doc = encode_config(&config);
    let loaded = config_from_json(&doc).unwrap();
    assert_eq!(loaded.active_scenario, "productivity");
}

#[test]
fn unresolvable_default_scenario_is_a_validation_error() {
    let mut config = Config::default();
    config.active_scenario = "missing".to_string();
    let doc = encode_config(&config);
    match config_from_json(&doc) {
        Err(ConfigError::Validation(m)) => {
            assert_eq!(m, "Default scenario 'missing' not found in config");
        }
        other => panic!("expected a validation error: {:?}", other),
    }
}

#[test]
fn malformed_document_is_a_parse_error() {
    match config_from_json(&Json::Str("nonsense".to_string())) {
        Err(ConfigError::Parse(m)) => {
            assert_eq!(m, "Failed to parse config JSON");
        }
        other => panic!("expected a parse error: {:?}", other),
    }
    let half = Json::Obj(vec![("version".to_string(), Json::UInt(2))]);
    assert!(matches!(config_from_json(&half), Err(ConfigError::Parse(_))));
}

#[test]
fn config_from_root_validates_default() {
    let v1 = ConfigV1 { poll_interval_seconds: 7, notify_on_drift: false, checks: vec![] };
    let config = config_from_root(ConfigRoot::V1(v1)).unwrap();
    assert_eq!(config.active_scenario, "default");
    assert_eq!(config.get_poll_interval(), 7);
    assert!(!config.get_notify_on_drift());
}

#[test]
fn default_config_has_four_scenarios() {
    let config = Config::default();
    assert_eq!(config.active_scenario, "gaming");
    let ids = config.get_scenario_ids();
    assert_eq!(ids, vec!["gaming", "cpu_benchmark", "gpu_benchmark", "productivity"]);
    let gaming = config.get_active_scenario_data().unwrap();
    assert_eq!(gaming.name, "Gaming Benchmarks");
    assert_eq!(gaming.poll_interval_seconds, 5);
    assert_eq!(gaming.checks.len(), 6);
    assert_eq!(gaming.checks[0].id, "power_plan");
    assert_eq!(gaming.checks[4].process_name.as_deref(), Some("Discord.exe"));
}

#[test]
fn enabled_checks_filters_disabled() {
    let mut config = Config::default();
    {
        let entry = &mut config.root.scenarios[0];
        entry.scenario.checks[1].enabled = false;
    }
    let enabled = config.enabled_checks();
    assert_eq!(enabled.len(), 5);
    assert!(enabled.iter().all(|c| c.id != "power_mode"));
}

#[test]
fn number_rendering_matches_decimal() {
    assert_eq!(u64_to_string(0), "0");
    assert_eq!(u64_to_string(144), "144");
    assert_eq!(u64_to_string(u64::MAX), u64::MAX.to_string());
    assert_eq!(u32_to_string(4294967295), "4294967295");
}

#[test]
fn number_parsing_matches_std() {
    assert_eq!(parse_u32("0"), Some(0));
    assert_eq!(parse_u32("+12"), Some(12));
    assert_eq!(parse_u32("4294967295"), Some(4294967295));
    assert_eq!(parse_u32("4294967296"), None);
    assert_eq!(parse_u32("12a"), None);
    assert_eq!(parse_u32(""), None);
    assert_eq!(parse_u32("+"), None);
    for probe in ["007", "97", "4294967296", "-1", " 3"] {
        assert_eq!(parse_u32(probe), probe.parse::<u32>().ok(), "case {}", probe);
    }
}

#[test]
fn scenario_export_round_trips() {
    let config = Config::default();
    let gaming = config.get_active_scenario_data().unwrap();
    let doc = encode_scenario_export(gaming, "2024-05-01T12:00:00Z");
    match &doc {
        Json::Obj(fields) => {
            assert_eq!(fields.len(), 3);
            assert_eq!(fields[0].0, "export_version");
            assert_eq!(fields[1].1, Json::Str("2024-05-01T12:00:00Z".to_string()));
        }
        other => panic!("not an object: {:?}", other),
    }
    let back = decode_scenario_export(&doc).unwrap();
    assert_eq!(&back, gaming);
}

#[test]
fn import_without_scenario_field_fails() {
    let doc = Json::Obj(vec![("export_version".to_string(), Json::UInt(1))]);
    match decode_scenario_export(&doc) {
        Err(ConfigError::Parse(m)) => assert_eq!(m, "Invalid export file: missing scenario"),
        other => panic!("expected a parse error: {:?}", other),
    }
}
