use bench_checklist::checkers::{CheckResult, OverallStatus};
use bench_checklist::config::{CheckConfig, CheckType};
use bench_checklist::fixer::{
    any_require_admin, fix_all, fix_check, fix_targets, get_fix_capability, get_fix_counts,
    plan_fix, FixAction, FixCapability,
};
use bench_checklist::notify::{drift_notification, status_summary};
use bench_checklist::power_plan::{GUID_HIGH_PERFORMANCE, GUID_MODE_BEST_PERFORMANCE};

fn check(id: &str, kind: CheckType) -> CheckConfig {
    CheckConfig {
        id: id.to_string(),
        name: format!("Check {}", id),
        check_type: kind,
        enabled: true,
        registry_path: None,
        registry_key: None,
        process_name: None,
        expected_value: None,
    }
}

#[test]
fn classification_by_kind_and_hive() {
    let mut user_reg = check("user", CheckType::RegistryDword);
    user_reg.registry_path = Some("HKCU\\Software\\X".to_string());
    assert_eq!(get_fix_capability(&user_reg), FixCapability::Direct);

    let mut machine_reg = check("machine", CheckType::RegistryDword);
    machine_reg.registry_path = Some("HKLM\\SYSTEM\\X".to_string());
    assert_eq!(get_fix_capability(&machine_reg), FixCapability::RequiresAdmin);

    match get_fix_capability(&check("present", CheckType::ProcessPresent)) {
        FixCapability::Manual { reason } => {
            assert!(!reason.is_empty());
            assert_eq!(reason, "Cannot auto-start applications");
        }
        other => panic!("expected manual: {:?}", other),
    }
    assert_eq!(get_fix_capability(&check("ps", CheckType::PowerScheme)), FixCapability::Direct);
    assert_eq!(get_fix_capability(&check("pa", CheckType::ProcessAbsent)), FixCapability::Direct);
    match get_fix_capability(&check("res", CheckType::DisplayResolution)) {
        FixCapability::Manual { reason } => {
            assert_eq!(reason, "Display settings must be changed in Windows Settings");
        }
        other => panic!("expected manual: {:?}", other),
    }
    let pathless = check("pathless", CheckType::RegistryString);
    match get_fix_capability(&pathless) {
        FixCapability::Manual { reason } => assert_eq!(reason, "No registry path configured"),
        other => panic!("expected manual: {:?}", other),
    }
}

#[test]
fn plans_resolve_power_guids() {
    let mut ps = check("ps", CheckType::PowerScheme);
    ps.expected_value = Some("high_performance".to_string());
    match plan_fix(&ps).unwrap() {
        FixAction::SetScheme { key, guid } => {
            assert_eq!(key, "high_performance");
            assert_eq!(guid, GUID_HIGH_PERFORMANCE);
        }
        other => panic!("unexpected plan: {:?}", other),
    }
    let pm = check("pm", CheckType::PowerMode);
    match plan_fix(&pm).unwrap() {
        FixAction::SetMode { key, guid } => {
            assert_eq!(key, "best_performance");
            assert_eq!(guid, GUID_MODE_BEST_PERFORMANCE);
        }
        other => panic!("unexpected plan: {:?}", other),
    }
    let mut bad = check("bad", CheckType::PowerScheme);
    bad.expected_value = Some("warp_speed".to_string());
    assert_eq!(plan_fix(&bad).unwrap_err(), "Unknown power scheme: warp_speed");
}

#[test]
fn plans_validate_registry_parameters() {
    let mut reg = check("reg", CheckType::RegistryDword);
    reg.registry_path = Some("HKCU\\Software\\X".to_string());
    reg.registry_key = Some("K".to_string());
    reg.expected_value = Some("2".to_string());
    match plan_fix(&reg).unwrap() {
        FixAction::WriteDword { path, key, value } => {
            assert_eq!(path, "HKCU\\Software\\X");
            assert_eq!(key, "K");
            assert_eq!(value, 2);
        }
        other => panic!("unexpected plan: {:?}", other),
    }
    let mut nonnum = check("nonnum", CheckType::RegistryDword);
    nonnum.registry_path = Some("HKCU\\Software\\X".to_string());
    nonnum.registry_key = Some("K".to_string());
    nonnum.expected_value = Some("fast".to_string());
    assert_eq!(plan_fix(&nonnum).unwrap_err(), "Invalid DWORD value: fast");

    let mut s = check("s", CheckType::RegistryString);
    s.registry_path = Some("HKCU\\Software\\X".to_string());
    s.registry_key = Some("K".to_string());
    match plan_fix(&s).unwrap() {
        FixAction::WriteString { value, .. } => assert_eq!(value, ""),
        other => panic!("unexpected plan: {:?}", other),
    }
}

#[test]
fn fix_check_reports_each_outcome() {
    let manual = check("present", CheckType::ProcessPresent);
    let r = fix_check(&manual, &Ok(0));
    assert!(!r.success);
    assert_eq!(r.message, "Cannot auto-fix: Cannot auto-start applications");

    let mut ps = check("ps", CheckType::PowerScheme);
    ps.expected_value = Some("balanced".to_string());
    let ok = fix_check(&ps, &Ok(0));
    assert!(ok.success);
    assert_eq!(ok.message, "Set power plan to balanced");
    let denied = fix_check(&ps, &Err("Access denied - admin required".to_string()));
    assert!(!denied.success);
    assert_eq!(denied.message, "Access denied - admin required");

    let mut reg = check("reg", CheckType::RegistryDword);
    reg.registry_path = Some("HKCU\\Software\\X".to_string());
    reg.registry_key = Some("HwSchMode".to_string());
    reg.expected_value = Some("2".to_string());
    let wrote = fix_check(&reg, &Ok(0));
    assert!(wrote.success);
    assert_eq!(wrote.message, "Set HwSchMode to 2");

    let mut term = check("no_discord", CheckType::ProcessAbsent);
    term.process_name = Some("Discord.exe".to_string());
    let killed = fix_check(&term, &Ok(2));
    assert!(killed.success);
    assert_eq!(killed.message, "Terminated 2 instance(s) of Discord.exe");
    let idle = fix_check(&term, &Ok(0));
    assert!(idle.success, "nothing to terminate still counts as fixed");
    assert_eq!(idle.message, "Discord.exe is not running");
}

#[test]
fn fix_targets_and_counts() {
    let mut a = check("a", CheckType::PowerScheme);
    a.expected_value = Some("balanced".to_string());
    let mut b = check("b", CheckType::RegistryDword);
    b.registry_path = Some("HKLM\\SYSTEM\\X".to_string());
    b.registry_key = Some("K".to_string());
    b.expected_value = Some("1".to_string());
    let c = check("c", CheckType::ProcessPresent);
    let mut d = check("d", CheckType::PowerMode);
    d.enabled = false;
    let checks = vec![a, b, c, d];
    let failing: Vec<String> =
        vec!["a".to_string(), "b".to_string(), "c".to_string(), "d".to_string()];

    let targets = fix_targets(&checks, &failing);
    let ids: Vec<&str> = targets.iter().map(|t| t.id.as_str()).collect();
    assert_eq!(ids, vec!["a", "b", "c"], "disabled checks are never fixed");

    assert_eq!(get_fix_counts(&checks, &failing), (1, 1, 1));
    assert!(any_require_admin(&checks, &failing));

    let only_a: Vec<String> = vec!["a".to_string()];
    assert!(!any_require_admin(&checks, &only_a));

    let outcomes = vec![Ok(0), Err("Access denied - admin required".to_string()), Ok(0)];
    let results = fix_all(&checks, &failing, &outcomes);
    assert_eq!(results.len(), 3);
    assert!(results[0].success);
    assert!(!results[1].success);
    assert_eq!(results[1].message, "Access denied - admin required");
    assert!(!results[2].success, "manual checks fail without blocking the rest");
}

#[test]
fn drift_notification_caps_at_three() {
    let mk = |i: usize| CheckResult::fail(&format!("c{}", i), &format!("N{}", i), "bad", "good");
    assert!(drift_notification(&vec![]).is_none());

    let (title, body) = drift_notification(&vec![mk(1)]).unwrap();
    assert_eq!(title, "\u{26a0} Setting Changed");
    assert_eq!(body, "\u{2022} N1: good \u{2192} bad");

    let five: Vec<CheckResult> = (1..=5).map(mk).collect();
    let (title5, body5) = drift_notification(&five).unwrap();
    assert_eq!(title5, "\u{26a0} 5 Settings Changed");
    let expected = "\u{2022} N1: good \u{2192} bad\n\u{2022} N2: good \u{2192} bad\n\u{2022} N3: good \u{2192} bad\n... and 2 more";
    assert_eq!(body5, expected);
}

#[test]
fn status_summary_texts() {
    let (t, b) = status_summary(OverallStatus::AllPassed, 6, 6);
    assert_eq!(t, "All Checks Passed");
    assert_eq!(b, "6/6 checks passed");
    let (t2, b2) = status_summary(OverallStatus::SomeFailed, 4, 6);
    assert_eq!(t2, "Some Checks Failed");
    assert_eq!(b2, "4/6 checks passed");
    let (t3, b3) = status_summary(OverallStatus::AllFailed, 0, 6);
    assert_eq!(t3, "All Checks Failed");
    assert_eq!(b3, "0/6 checks passed - review your settings");
}
