use bench_checklist::checkers::{CheckResult, OverallStatus};
use bench_checklist::config::{CheckConfig, CheckType};
use bench_checklist::dispatch::{probe_request, run_all_checks, run_check, ProbeReply, ProbeRequest};
use bench_checklist::display::{check_hdr, check_refresh_rate, check_resolution, DisplayMode};
use bench_checklist::power_plan::{
    check, check_power_mode, power_mode_key, power_mode_name, scheme_key, scheme_name,
    GUID_BALANCED, GUID_HIGH_PERFORMANCE, GUID_MODE_BALANCED, GUID_MODE_BEST_PERFORMANCE,
    GUID_MODE_BETTER_PERFORMANCE, GUID_POWER_SAVER, GUID_ULTIMATE_PERFORMANCE,
};
use bench_checklist::processes::{check_absent, check_present, is_process_running};
use bench_checklist::display::get_display_info;
use bench_checklist::registry::{
    check_dword, check_string, parse_root_key, requires_admin, to_wide, RegistryRoot,
};

fn base_check(id: &str, kind: CheckType) -> CheckConfig {
    CheckConfig {
        id: id.to_string(),
        name: format!("Check {}", id),
        check_type: kind,
        enabled: true,
        registry_path: None,
        registry_key: None,
        process_name: None,
        expected_value: None,
    }
}

#[test]
fn test_scheme_name() {
    assert_eq!(scheme_name(GUID_HIGH_PERFORMANCE), "High Performance");
    assert_eq!(scheme_name(GUID_BALANCED), "Balanced");
}

#[test]
fn scheme_keys_cover_known_guids() {
    assert_eq!(scheme_key(GUID_HIGH_PERFORMANCE), "high_performance");
    assert_eq!(scheme_key(GUID_POWER_SAVER), "power_saver");
    assert_eq!(scheme_key(GUID_ULTIMATE_PERFORMANCE), "ultimate_performance");
    assert_eq!(scheme_key(12345), "custom");
    assert_eq!(scheme_name(12345), "Custom/Unknown");
}

#[test]
fn power_scheme_accepts_ultimate_for_high() {
    let mut c = base_check("power_plan", CheckType::PowerScheme);
    c.expected_value = Some("high_performance".to_string());
    let r = check(&c, &Ok(GUID_ULTIMATE_PERFORMANCE));
    assert!(r.passed);
    assert_eq!(r.current_value, "Ultimate Performance");
    assert_eq!(r.message, "Check power_plan is correctly set");
}

#[test]
fn power_scheme_rejects_balanced_for_high() {
    let mut c = base_check("power_plan", CheckType::PowerScheme);
    c.expected_value = Some("high_performance".to_string());
    let r = check(&c, &Ok(GUID_BALANCED));
    assert!(!r.passed);
    assert_eq!(
        r.message,
        "Check power_plan: expected 'high_performance', got 'Balanced'"
    );
}

#[test]
fn power_scheme_expected_is_case_insensitive() {
    let mut c = base_check("power_plan", CheckType::PowerScheme);
    c.expected_value = Some("HIGH_Performance".to_string());
    let r = check(&c, &Ok(GUID_HIGH_PERFORMANCE));
    assert!(r.passed);
}

#[test]
fn power_scheme_probe_error_is_error_result() {
    let c = base_check("power_plan", CheckType::PowerScheme);
    let r = check(&c, &Err("Failed to get active power scheme".to_string()));
    assert!(!r.passed);
    assert_eq!(r.current_value, "ERROR");
    assert_eq!(r.expected_value, "");
    assert_eq!(r.message, "Check power_plan: Failed to get active power scheme");
}

#[test]
fn power_mode_better_accepts_best() {
    let mut c = base_check("power_mode", CheckType::PowerMode);
    c.expected_value = Some("better_performance".to_string());
    let r = check_power_mode(&c, &Ok(GUID_MODE_BEST_PERFORMANCE));
    assert!(r.passed);
    let r2 = check_power_mode(&c, &Ok(GUID_MODE_BETTER_PERFORMANCE));
    assert!(r2.passed);
    let r3 = check_power_mode(&c, &Ok(GUID_MODE_BALANCED));
    assert!(!r3.passed);
}

#[test]
fn power_mode_names() {
    assert_eq!(power_mode_name(GUID_MODE_BEST_PERFORMANCE), "Best Performance");
    assert_eq!(power_mode_key(GUID_MODE_BALANCED), "balanced");
}

#[test]
fn registry_roots_parse() {
    let (root, sub) = parse_root_key("HKCU\\Software\\Microsoft\\GameBar").unwrap();
    assert_eq!(root, RegistryRoot::CurrentUser);
    assert_eq!(sub, "Software\\Microsoft\\GameBar");
    let (root2, sub2) = parse_root_key("HKEY_LOCAL_MACHINE\\SYSTEM").unwrap();
    assert_eq!(root2, RegistryRoot::LocalMachine);
    assert_eq!(sub2, "SYSTEM");
    assert!(parse_root_key("Software\\NoHive").is_none());
}

#[test]
fn registry_admin_classification() {
    assert!(requires_admin("HKLM\\SYSTEM"));
    assert!(requires_admin("HKEY_LOCAL_MACHINE\\SYSTEM"));
    assert!(!requires_admin("HKCU\\Software"));
}

#[test]
fn registry_dword_compares_decimal_text() {
    let mut c = base_check("game_mode", CheckType::RegistryDword);
    c.registry_path = Some("HKCU\\Software\\Microsoft\\GameBar".to_string());
    c.registry_key = Some("AutoGameModeEnabled".to_string());
    c.expected_value = Some("1".to_string());
    let pass = check_dword(&c, &Ok(1));
    assert!(pass.passed);
    assert_eq!(pass.current_value, "1");
    let fail = check_dword(&c, &Ok(0));
    assert!(!fail.passed);
    assert_eq!(fail.message, "Check game_mode: expected '1', got '0'");
    let err = check_dword(&c, &Err("Key not found".to_string()));
    assert!(!err.passed);
    assert_eq!(err.message, "Check game_mode: Key not found");
}

#[test]
fn registry_dword_missing_parameters() {
    let c = base_check("broken", CheckType::RegistryDword);
    let r = check_dword(&c, &Ok(1));
    assert_eq!(r.message, "Check broken: Missing registry_path in config");
    let mut c2 = base_check("broken", CheckType::RegistryDword);
    c2.registry_path = Some("HKCU\\X".to_string());
    let r2 = check_dword(&c2, &Ok(1));
    assert_eq!(r2.message, "Check broken: Missing registry_key in config");
    let mut c3 = base_check("broken", CheckType::RegistryDword);
    c3.registry_path = Some("NoHive\\X".to_string());
    c3.registry_key = Some("K".to_string());
    let r3 = check_dword(&c3, &Ok(1));
    assert_eq!(r3.message, "Check broken: Invalid registry path: NoHive\\X");
}

#[test]
fn registry_string_exact_match() {
    let mut c = base_check("rs", CheckType::RegistryString);
    c.registry_path = Some("HKCU\\Software\\X".to_string());
    c.registry_key = Some("Value".to_string());
    c.expected_value = Some("fast".to_string());
    assert!(check_string(&c, &Ok("fast".to_string())).passed);
    assert!(!check_string(&c, &Ok("Fast".to_string())).passed);
}

#[test]
fn process_match_is_case_insensitive() {
    let names = vec!["Explorer.EXE".to_string(), "DISCORD.exe".to_string()];
    assert!(is_process_running(&names, "discord.EXE"));
    assert!(!is_process_running(&names, "chrome.exe"));
}

#[test]
fn process_absent_and_present() {
    let mut c = base_check("no_discord", CheckType::ProcessAbsent);
    c.process_name = Some("Discord.exe".to_string());
    let running = Ok(vec!["discord.exe".to_string()]);
    let idle: Result<Vec<String>, String> = Ok(vec![]);
    let r = check_absent(&c, &running);
    assert!(!r.passed);
    assert_eq!(r.current_value, "Running");
    assert_eq!(r.expected_value, "Not Running");
    assert!(check_absent(&c, &idle).passed);

    let mut p = base_check("has_obs", CheckType::ProcessPresent);
    p.process_name = Some("obs64.exe".to_string());
    assert!(!check_present(&p, &idle).passed);
    assert!(check_present(&p, &Ok(vec!["OBS64.exe".to_string()])).passed);
}

#[test]
fn process_missing_name_is_error() {
    let c = base_check("no_name", CheckType::ProcessAbsent);
    let r = check_absent(&c, &Ok(vec![]));
    assert_eq!(r.message, "Check no_name: Missing process_name in config");
}

#[test]
fn display_resolution_and_refresh() {
    let mode = DisplayMode { width: 2560, height: 1440, refresh_hz: 144 };
    let mut c = base_check("res", CheckType::DisplayResolution);
    c.expected_value = Some("2560x1440".to_string());
    let r = check_resolution(&c, &Ok(mode));
    assert!(r.passed);
    assert_eq!(r.current_value, "2560x1440");

    let mut hz = base_check("hz", CheckType::DisplayRefreshRate);
    hz.expected_value = Some("144".to_string());
    let r2 = check_refresh_rate(&hz, &Ok(mode));
    assert!(r2.passed);
    assert_eq!(r2.current_value, "144Hz");
    assert_eq!(r2.expected_value, "144Hz+");
    let slow = DisplayMode { width: 2560, height: 1440, refresh_hz: 120 };
    assert!(!check_refresh_rate(&hz, &Ok(slow)).passed);
}

#[test]
fn hdr_primary_then_fallback() {
    let mut c = base_check("hdr", CheckType::HdrEnabled);
    c.expected_value = Some("1".to_string());
    let r = check_hdr(&c, &Ok(1), &Err("Value not found".to_string()));
    assert!(r.passed);
    assert_eq!(r.current_value, "Enabled");
    let r2 = check_hdr(&c, &Err("Value not found".to_string()), &Ok(1));
    assert!(r2.passed);
    let r3 = check_hdr(&c, &Err("x".to_string()), &Err("y".to_string()));
    assert!(!r3.passed);
    assert_eq!(r3.current_value, "Disabled");
    let mut off = base_check("hdr_off", CheckType::HdrEnabled);
    off.expected_value = Some("0".to_string());
    assert!(check_hdr(&off, &Err("x".to_string()), &Err("y".to_string())).passed);
}

#[test]
fn probe_requests_follow_kind() {
    let mut c = base_check("game_mode", CheckType::RegistryDword);
    c.registry_path = Some("HKCU\\Software\\Microsoft\\GameBar".to_string());
    c.registry_key = Some("AutoGameModeEnabled".to_string());
    match probe_request(&c) {
        ProbeRequest::ReadDword { path, key } => {
            assert_eq!(path, "HKCU\\Software\\Microsoft\\GameBar");
            assert_eq!(key, "AutoGameModeEnabled");
        }
        other => panic!("unexpected request: {:?}", other),
    }
    let broken = base_check("broken", CheckType::RegistryDword);
    assert_eq!(probe_request(&broken), ProbeRequest::NoProbe);
    assert_eq!(
        probe_request(&base_check("ps", CheckType::PowerScheme)),
        ProbeRequest::ActiveScheme
    );
    match probe_request(&base_check("hdr", CheckType::HdrEnabled)) {
        ProbeRequest::ReadHdrState { path, primary_key, alt_key } => {
            assert_eq!(
                path,
                "HKCU\\Software\\Microsoft\\Windows\\CurrentVersion\\VideoSettings"
            );
            assert_eq!(primary_key, "GlobalHDRState");
            assert_eq!(alt_key, "EnableHDRForDisplay");
        }
        other => panic!("unexpected request: {:?}", other),
    }
}

#[test]
fn run_all_checks_skips_disabled_and_keeps_order() {
    let mut first = base_check("power_plan", CheckType::PowerScheme);
    first.expected_value = Some("high_performance".to_string());
    let mut skipped = base_check("disabled", CheckType::PowerScheme);
    skipped.enabled = false;
    let mut last = base_check("no_discord", CheckType::ProcessAbsent);
    last.process_name = Some("Discord.exe".to_string());
    let checks = vec![first, skipped, last];
    let replies = vec![
        ProbeReply::Guid(Ok(GUID_HIGH_PERFORMANCE)),
        ProbeReply::Processes(Ok(vec![])),
    ];
    let results = run_all_checks(&checks, &replies);
    assert_eq!(results.len(), 2);
    assert_eq!(results[0].id, "power_plan");
    assert_eq!(results[1].id, "no_discord");
    assert!(results[0].passed && results[1].passed);
}

#[test]
fn run_check_dispatches_by_kind() {
    let mut c = base_check("power_plan", CheckType::PowerScheme);
    c.expected_value = Some("balanced".to_string());
    let r = run_check(&c, &ProbeReply::Guid(Ok(GUID_BALANCED)));
    assert!(r.passed);
    let mismatched = run_check(&c, &ProbeReply::Dword(Ok(1)));
    assert!(!mismatched.passed);
    assert_eq!(mismatched.current_value, "ERROR");
}

#[test]
fn overall_status_from_results() {
    let empty: Vec<CheckResult> = vec![];
    assert_eq!(OverallStatus::from_results(&empty), OverallStatus::AllPassed);
    let pass = CheckResult::pass("a", "A", "x", "x");
    let fail = CheckResult::fail("b", "B", "y", "x");
    assert_eq!(
        OverallStatus::from_results(&[pass.clone(), pass.clone()]),
        OverallStatus::AllPassed
    );
    assert_eq!(
        OverallStatus::from_results(&[fail.clone(), fail.clone()]),
        OverallStatus::AllFailed
    );
    assert_eq!(
        OverallStatus::from_results(&[pass, fail]),
        OverallStatus::SomeFailed
    );
}

#[test]
fn wide_encoding_is_utf16_with_terminator() {
    assert_eq!(to_wide("A"), vec![0x41, 0]);
    assert_eq!(to_wide(""), vec![0]);
    // U+1D11E (musical G clef) needs a surrogate pair
    assert_eq!(to_wide("\u{1D11E}"), vec![0xD834, 0xDD1E, 0]);
    let reference: Vec<u16> = "Hö\u{1D11E}".encode_utf16().chain(std::iter::once(0)).collect();
    assert_eq!(to_wide("Hö\u{1D11E}"), reference);
}

#[test]
fn display_info_formats_mode() {
    let mode = DisplayMode { width: 3840, height: 2160, refresh_hz: 120 };
    assert_eq!(get_display_info(&Ok(mode)), "3840x2160 @ 120Hz");
    assert_eq!(get_display_info(&Err("no display".to_string())), "Unknown");
}
