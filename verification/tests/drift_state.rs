use bench_checklist::checkers::{CheckResult, OverallStatus};
use bench_checklist::config::{Config, Scenario};
use bench_checklist::dispatch::ProbeReply;
use bench_checklist::drift::DriftBaseline;
use bench_checklist::power_plan::{
    GUID_BALANCED, GUID_HIGH_PERFORMANCE, GUID_MODE_BEST_PERFORMANCE, GUID_POWER_SAVER,
};
use bench_checklist::state::AppState;

fn passing(id: &str) -> CheckResult {
    CheckResult::pass(id, id, "x", "x")
}

fn failing(id: &str) -> CheckResult {
    CheckResult::fail(id, id, "y", "x")
}

#[test]
fn drift_reports_passing_to_failing_transition_once() {
    let mut baseline = DriftBaseline::new();
    let first = baseline.record_results(&vec![passing("power_plan")]);
    assert!(first.is_empty());
    let second = baseline.record_results(&vec![failing("power_plan")]);
    assert_eq!(second.len(), 1);
    assert_eq!(second[0].id, "power_plan");
    let third = baseline.record_results(&vec![failing("power_plan")]);
    assert!(third.is_empty());
}

#[test]
fn drift_detection_is_idempotent_per_result_set() {
    let mut baseline = DriftBaseline::new();
    let results = vec![failing("a"), passing("b"), failing("c")];
    let first = baseline.record_results(&results);
    assert_eq!(first.len(), 2);
    let second = baseline.record_results(&results);
    assert!(second.is_empty());
}

#[test]
fn first_ever_failure_counts_as_drift() {
    let mut baseline = DriftBaseline::new();
    let drifted = baseline.record_results(&vec![failing("never_seen")]);
    assert_eq!(drifted.len(), 1);
}

#[test]
fn recovery_then_failure_drifts_again() {
    let mut baseline = DriftBaseline::new();
    baseline.record_results(&vec![failing("a")]);
    let recovered = baseline.record_results(&vec![passing("a")]);
    assert!(recovered.is_empty());
    let again = baseline.record_results(&vec![failing("a")]);
    assert_eq!(again.len(), 1);
}

fn gaming_replies_all_good() -> Vec<ProbeReply> {
    vec![
        ProbeReply::Guid(Ok(GUID_HIGH_PERFORMANCE)),
        ProbeReply::Guid(Ok(GUID_MODE_BEST_PERFORMANCE)),
        ProbeReply::Dword(Ok(1)),
        ProbeReply::Dword(Ok(2)),
        ProbeReply::Processes(Ok(vec![])),
        ProbeReply::Processes(Ok(vec![])),
    ]
}

fn gaming_replies_game_mode_off() -> Vec<ProbeReply> {
    vec![
        ProbeReply::Guid(Ok(GUID_HIGH_PERFORMANCE)),
        ProbeReply::Guid(Ok(GUID_MODE_BEST_PERFORMANCE)),
        ProbeReply::Dword(Ok(0)),
        ProbeReply::Dword(Ok(2)),
        ProbeReply::Processes(Ok(vec![])),
        ProbeReply::Processes(Ok(vec![])),
    ]
}

#[test]
fn run_checks_updates_state_and_notifies_on_drift() {
    let mut state = AppState::new(Config::default());
    let (results, status, notify) = state.run_checks(&gaming_replies_all_good());
    assert_eq!(results.len(), 6);
    assert_eq!(status, OverallStatus::AllPassed);
    assert!(notify.is_none());
    assert_eq!(state.get_status(), OverallStatus::AllPassed);
    assert_eq!(state.get_last_results().len(), 6);

    let (_, status2, notify2) = state.run_checks(&gaming_replies_game_mode_off());
    assert_eq!(status2, OverallStatus::SomeFailed);
    let drifted = notify2.expect("drift should be reported");
    assert_eq!(drifted.len(), 1);
    assert_eq!(drifted[0].id, "game_mode");

    let (_, _, notify3) = state.run_checks(&gaming_replies_game_mode_off());
    assert!(notify3.is_none(), "a check that stays failing drifts only once");
}

#[test]
fn scenario_switch_resets_drift_baseline() {
    let mut state = AppState::new(Config::default());
    let (_, _, _) = state.run_checks(&gaming_replies_game_mode_off());
    state.set_active_scenario("productivity").unwrap();
    assert_eq!(state.get_active_scenario(), "productivity");
    assert_eq!(state.get_active_scenario_name(), "Productivity Workloads");
    assert!(!state.get_notify_on_drift());
    // productivity has one check: power plan expected balanced
    let (results, _, notify) = state.run_checks(&vec![ProbeReply::Guid(Ok(GUID_POWER_SAVER))]);
    assert_eq!(results.len(), 1);
    assert!(!results[0].passed);
    // its notify flag is off, so nothing is handed to the notifier even
    // though the fresh baseline treats the check as previously passing
    assert!(notify.is_none());
    state.set_notify_on_drift(true);
    let (_, _, notify2) = state.run_checks(&vec![ProbeReply::Guid(Ok(GUID_POWER_SAVER))]);
    assert!(notify2.is_none(), "still failing, no new transition");
    let (_, _, _) = state.run_checks(&vec![ProbeReply::Guid(Ok(GUID_BALANCED))]);
    let (_, _, notify3) = state.run_checks(&vec![ProbeReply::Guid(Ok(GUID_POWER_SAVER))]);
    let drifted = notify3.expect("transition after recovery drifts again");
    assert_eq!(drifted[0].id, "power_plan");
}

#[test]
fn switching_to_unknown_scenario_fails() {
    let mut state = AppState::new(Config::default());
    let err = state.set_active_scenario("nope").unwrap_err();
    assert_eq!(err, "Scenario 'nope' not found");
    assert_eq!(state.get_active_scenario(), "gaming");
}

#[test]
fn exit_latch_is_one_way() {
    let mut state = AppState::new(Config::default());
    assert!(!state.should_exit());
    state.signal_exit();
    assert!(state.should_exit());
}

#[test]
fn poll_interval_and_notify_follow_active_scenario() {
    let mut state = AppState::new(Config::default());
    assert_eq!(state.get_poll_interval(), 5);
    assert!(state.get_notify_on_drift());
    state.set_poll_interval(30);
    assert_eq!(state.get_poll_interval(), 30);
    state.set_active_scenario("productivity").unwrap();
    assert_eq!(state.get_poll_interval(), 15);
    assert!(!state.get_notify_on_drift());
}

#[test]
fn check_crud_in_active_scenario() {
    let mut state = AppState::new(Config::default());
    let mut extra = bench_checklist::config::CheckConfig {
        id: "no_slack".to_string(),
        name: "Slack Not Running".to_string(),
        check_type: bench_checklist::config::CheckType::ProcessAbsent,
        enabled: true,
        registry_path: None,
        registry_key: None,
        process_name: Some("slack.exe".to_string()),
        expected_value: None,
    };
    state.add_check(extra.clone());
    let config = state.get_config();
    let checks = config.get_scenario_checks().unwrap();
    assert_eq!(checks.len(), 7);
    assert_eq!(checks[6].id, "no_slack");

    state.toggle_check("no_slack");
    let config = state.get_config();
    assert!(!config.get_scenario_checks().unwrap()[6].enabled);

    extra.name = "Slack Must Be Closed".to_string();
    state.update_check(extra);
    let config = state.get_config();
    assert_eq!(config.get_scenario_checks().unwrap()[6].name, "Slack Must Be Closed");

    state.remove_check("no_slack");
    let config = state.get_config();
    assert_eq!(config.get_scenario_checks().unwrap().len(), 6);
}

#[test]
fn add_scenario_rejects_duplicates() {
    let mut state = AppState::new(Config::default());
    let fresh = Scenario {
        name: "Streaming".to_string(),
        description: "While broadcasting".to_string(),
        poll_interval_seconds: 20,
        notify_on_drift: false,
        checks: vec![],
    };
    state.add_scenario("streaming", fresh).unwrap();
    assert!(state.set_active_scenario("streaming").is_ok());
    let again = Scenario {
        name: "Streaming".to_string(),
        description: String::new(),
        poll_interval_seconds: 1,
        notify_on_drift: false,
        checks: vec![],
    };
    let err = state.add_scenario("streaming", again).unwrap_err();
    assert_eq!(err, "Scenario 'streaming' already exists");
}

#[test]
fn scenario_listing_is_sorted_by_id() {
    let state = AppState::new(Config::default());
    let listed = state.get_scenarios();
    let ids: Vec<&str> = listed.iter().map(|t| t.0.as_str()).collect();
    assert_eq!(ids, vec!["cpu_benchmark", "gaming", "gpu_benchmark", "productivity"]);
    assert_eq!(listed[1].1, "Gaming Benchmarks");
    assert_eq!(listed[1].2, "Optimized for gaming performance testing");
}

#[test]
fn tooltip_reflects_state() {
    let mut state = AppState::new(Config::default());
    assert_eq!(state.get_tooltip(), "Bench Checklist\nGaming Benchmarks\nNo checks run yet");
    let (_, _, _) = state.run_checks(&gaming_replies_all_good());
    assert_eq!(state.get_tooltip(), "Bench Checklist\nGaming Benchmarks\nAll OK (6/6)");
    let (_, _, _) = state.run_checks(&gaming_replies_game_mode_off());
    assert_eq!(state.get_tooltip(), "Bench Checklist\nGaming Benchmarks\nSome Issues (5/6)");
}

#[test]
fn install_config_keeps_results_and_follows_notify() {
    let mut state = AppState::new(Config::default());
    let (_, _, _) = state.run_checks(&gaming_replies_all_good());
    let mut other = Config::default();
    other.active_scenario = "productivity".to_string();
    state.install_config(other);
    assert_eq!(state.get_active_scenario(), "productivity");
    assert!(!state.get_notify_on_drift());
    assert_eq!(state.get_last_results().len(), 6);
}
