//! The built-in scenarios synthesized when no configuration file exists.

use vstd::prelude::*;

use crate::config::{
    CheckConfig, CheckConfigV, CheckType, Config, ConfigM, ConfigV2, ConfigV2V, Scenario,
    ScenarioEntry, ScenarioEntryV, ScenarioV,
};

verus! {

/// Build one check from plain parts.
fn mk_check(
    id: &str,
    name: &str,
    check_type: CheckType,
    registry_path: Option<&str>,
    registry_key: Option<&str>,
    process_name: Option<&str>,
    expected_value: Option<&str>,
) -> (r: CheckConfig)
    ensures
        r.deep_view() == (CheckConfigV {
            id: id@,
            name: name@,
            check_type,
            enabled: true,
            registry_path: spec_opt_view(registry_path),
            registry_key: spec_opt_view(registry_key),
            process_name: spec_opt_view(process_name),
            expected_value: spec_opt_view(expected_value),
        }),
{
    CheckConfig {
        id: id.to_owned(),
        name: name.to_owned(),
        check_type,
        enabled: true,
        registry_path: opt_owned(registry_path),
        registry_key: opt_owned(registry_key),
        process_name: opt_owned(process_name),
        expected_value: opt_owned(expected_value),
    }
}

/// The view of an optional string slice.
pub open spec fn spec_opt_view(o: Option<&str>) -> Option<Seq<char>> {
    match o {
        Some(s) => Some(s@),
        None => None,
    }
}

fn opt_owned(o: Option<&str>) -> (r: Option<String>)
    ensures
        r.deep_view() == spec_opt_view(o),
{
    match o {
        Some(s) => Some(s.to_owned()),
        None => None,
    }
}

/// The built-in gaming scenario.
pub open spec fn spec_gaming_scenario() -> ScenarioV {
    ScenarioV {
        name: "Gaming Benchmarks"@,
        description: "Optimized for gaming performance testing"@,
        poll_interval_seconds: 5,
        notify_on_drift: true,
        checks: seq![
            CheckConfigV {
                id: "power_plan"@,
                name: "Power Plan (High Performance)"@,
                check_type: CheckType::PowerScheme,
                enabled: true,
                registry_path: None,
                registry_key: None,
                process_name: None,
                expected_value: Some("high_performance"@),
            },
            CheckConfigV {
                id: "power_mode"@,
                name: "Power Mode (Best Performance)"@,
                check_type: CheckType::PowerMode,
                enabled: true,
                registry_path: None,
                registry_key: None,
                process_name: None,
                expected_value: Some("best_performance"@),
            },
            CheckConfigV {
                id: "game_mode"@,
                name: "Game Mode Enabled"@,
                check_type: CheckType::RegistryDword,
                enabled: true,
                registry_path: Some("HKCU\\Software\\Microsoft\\GameBar"@),
                registry_key: Some("AutoGameModeEnabled"@),
                process_name: None,
                expected_value: Some("1"@),
            },
            CheckConfigV {
                id: "hardware_gpu_scheduling"@,
                name: "Hardware GPU Scheduling"@,
                check_type: CheckType::RegistryDword,
                enabled: true,
                registry_path: Some("HKLM\\SYSTEM\\CurrentControlSet\\Control\\GraphicsDrivers"@),
                registry_key: Some("HwSchMode"@),
                process_name: None,
                expected_value: Some("2"@),
            },
            CheckConfigV {
                id: "no_discord"@,
                name: "Discord Not Running"@,
                check_type: CheckType::ProcessAbsent,
                enabled: true,
                registry_path: None,
                registry_key: None,
                process_name: Some("Discord.exe"@),
                expected_value: None,
            },
            CheckConfigV {
                id: "no_chrome"@,
                name: "Chrome Not Running"@,
                check_type: CheckType::ProcessAbsent,
                enabled: true,
                registry_path: None,
                registry_key: None,
                process_name: Some("chrome.exe"@),
                expected_value: None,
            },
        ],
    }
}

/// Build the built-in gaming scenario.
pub fn create_gaming_scenario() -> (r: Scenario)
    ensures
        r.deep_view() == spec_gaming_scenario(),
{
    let mut checks: Vec<CheckConfig> = Vec::new();
    checks.push(
        mk_check(
            "power_plan",
            "Power Plan (High Performance)",
            CheckType::PowerScheme,
            None,
            None,
            None,
            Some("high_performance"),
        ),
    );
    checks.push(
        mk_check(
            "power_mode",
            "Power Mode (Best Performance)",
            CheckType::PowerMode,
            None,
            None,
            None,
            Some("best_performance"),
        ),
    );
    checks.push(
        mk_check(
            "game_mode",
            "Game Mode Enabled",
            CheckType::RegistryDword,
            Some("HKCU\\Software\\Microsoft\\GameBar"),
            Some("AutoGameModeEnabled"),
            None,
            Some("1"),
        ),
    );
    checks.push(
        mk_check(
            "hardware_gpu_scheduling",
            "Hardware GPU Scheduling",
            CheckType::RegistryDword,
            Some("HKLM\\SYSTEM\\CurrentControlSet\\Control\\GraphicsDrivers"),
            Some("HwSchMode"),
            None,
            Some("2"),
        ),
    );
    checks.push(
        mk_check(
            "no_discord",
            "Discord Not Running",
            CheckType::ProcessAbsent,
            None,
            None,
            Some("Discord.exe"),
            None,
        ),
    );
    checks.push(
        mk_check(
            "no_chrome",
            "Chrome Not Running",
            CheckType::ProcessAbsent,
            None,
            None,
            Some("chrome.exe"),
            None,
        ),
    );
    let r = Scenario {
        name: "Gaming Benchmarks".to_owned(),
        description: "Optimized for gaming performance testing".to_owned(),
        poll_interval_seconds: 5,
        notify_on_drift: true,
        checks,
    };
    proof {
        assert(r.deep_view().checks =~= spec_gaming_scenario().checks);
    }
    r
}

/// The built-in CPU benchmark scenario.
pub open spec fn spec_cpu_scenario() -> ScenarioV {
    ScenarioV {
        name: "CPU Benchmarks"@,
        description: "Focused on CPU-intensive workloads"@,
        poll_interval_seconds: 10,
        notify_on_drift: true,
        checks: seq![
            CheckConfigV {
                id: "power_plan"@,
                name: "Power Plan (High Performance)"@,
                check_type: CheckType::PowerScheme,
                enabled: true,
                registry_path: None,
                registry_key: None,
                process_name: None,
                expected_value: Some("high_performance"@),
            },
            CheckConfigV {
                id: "power_mode"@,
                name: "Power Mode (Best Performance)"@,
                check_type: CheckType::PowerMode,
                enabled: true,
                registry_path: None,
                registry_key: None,
                process_name: None,
                expected_value: Some("best_performance"@),
            },
            CheckConfigV {
                id: "background_apps"@,
                name: "Background Apps Disabled"@,
                check_type: CheckType::RegistryDword,
                enabled: true,
                registry_path: Some(
                    "HKCU\\Software\\Microsoft\\Windows\\CurrentVersion\\BackgroundAccessApplications"@,
                ),
                registry_key: Some("GlobalUserDisabled"@),
                process_name: None,
                expected_value: Some("1"@),
            },
            CheckConfigV {
                id: "no_chrome"@,
                name: "Chrome Not Running"@,
                check_type: CheckType::ProcessAbsent,
                enabled: true,
                registry_path: None,
                registry_key: None,
                process_name: Some("chrome.exe"@),
                expected_value: None,
            },
        ],
    }
}

/// Build the built-in CPU benchmark scenario.
pub fn create_cpu_scenario() -> (r: Scenario)
    ensures
        r.deep_view() == spec_cpu_scenario(),
{
    let mut checks: Vec<CheckConfig> = Vec::new();
    checks.push(
        mk_check(
            "power_plan",
            "Power Plan (High Performance)",
            CheckType::PowerScheme,
            None,
            None,
            None,
            Some("high_performance"),
        ),
    );
    checks.push(
        mk_check(
            "power_mode",
            "Power Mode (Best Performance)",
            CheckType::PowerMode,
            None,
            None,
            None,
            Some("best_performance"),
        ),
    );
    checks.push(
        mk_check(
            "background_apps",
            "Background Apps Disabled",
            CheckType::RegistryDword,
            Some("HKCU\\Software\\Microsoft\\Windows\\CurrentVersion\\BackgroundAccessApplications"),
            Some("GlobalUserDisabled"),
            None,
            Some("1"),
        ),
    );
    checks.push(
        mk_check(
            "no_chrome",
            "Chrome Not Running",
            CheckType::ProcessAbsent,
            None,
            None,
            Some("chrome.exe"),
            None,
        ),
    );
    let r = Scenario {
        name: "CPU Benchmarks".to_owned(),
        description: "Focused on CPU-intensive workloads".to_owned(),
        poll_interval_seconds: 10,
        notify_on_drift: true,
        checks,
    };
    proof {
        assert(r.deep_view().checks =~= spec_cpu_scenario().checks);
    }
    r
}

/// The built-in GPU benchmark scenario.
pub open spec fn spec_gpu_scenario() -> ScenarioV {
    ScenarioV {
        name: "GPU Benchmarks"@,
        description: "Optimized for GPU testing"@,
        poll_interval_seconds: 5,
        notify_on_drift: true,
        checks: seq![
            CheckConfigV {
                id: "power_plan"@,
                name: "Power Plan (High Performance)"@,
                check_type: CheckType::PowerScheme,
                enabled: true,
                registry_path: None,
                registry_key: None,
                process_name: None,
                expected_value: Some("high_performance"@),
            },
            CheckConfigV {
                id: "power_mode"@,
                name: "Power Mode (Best Performance)"@,
                check_type: CheckType::PowerMode,
                enabled: true,
                registry_path: None,
                registry_key: None,
                process_name: None,
                expected_value: Some("best_performance"@),
            },
            CheckConfigV {
                id: "hardware_gpu_scheduling"@,
                name: "Hardware GPU Scheduling"@,
                check_type: CheckType::RegistryDword,
                enabled: true,
                registry_path: Some("HKLM\\SYSTEM\\CurrentControlSet\\Control\\GraphicsDrivers"@),
                registry_key: Some("HwSchMode"@),
                process_name: None,
                expected_value: Some("2"@),
            },
            CheckConfigV {
                id: "visual_effects"@,
                name: "Visual Effects (Best Performance)"@,
                check_type: CheckType::RegistryDword,
                enabled: true,
                registry_path: Some(
                    "HKCU\\Software\\Microsoft\\Windows\\CurrentVersion\\Explorer\\VisualEffects"@,
                ),
                registry_key: Some("VisualFXSetting"@),
                process_name: None,
                expected_value: Some("2"@),
            },
        ],
    }
}

/// Build the built-in GPU benchmark scenario.
pub fn create_gpu_scenario() -> (r: Scenario)
    ensures
        r.deep_view() == spec_gpu_scenario(),
{
    let mut checks: Vec<CheckConfig> = Vec::new();
    checks.push(
        mk_check(
            "power_plan",
            "Power Plan (High Performance)",
            CheckType::PowerScheme,
            None,
            None,
            None,
            Some("high_performance"),
        ),
    );
    checks.push(
        mk_check(
            "power_mode",
            "Power Mode (Best Performance)",
            CheckType::PowerMode,
            None,
            None,
            None,
            Some("best_performance"),
        ),
    );
    checks.push(
        mk_check(
            "hardware_gpu_scheduling",
            "Hardware GPU Scheduling",
            CheckType::RegistryDword,
            Some("HKLM\\SYSTEM\\CurrentControlSet\\Control\\GraphicsDrivers"),
            Some("HwSchMode"),
            None,
            Some("2"),
        ),
    );
    checks.push(
        mk_check(
            "visual_effects",
            "Visual Effects (Best Performance)",
            CheckType::RegistryDword,
            Some("HKCU\\Software\\Microsoft\\Windows\\CurrentVersion\\Explorer\\VisualEffects"),
            Some("VisualFXSetting"),
            None,
            Some("2"),
        ),
    );
    let r = Scenario {
        name: "GPU Benchmarks".to_owned(),
        description: "Optimized for GPU testing".to_owned(),
        poll_interval_seconds: 5,
        notify_on_drift: true,
        checks,
    };
    proof {
        assert(r.deep_view().checks =~= spec_gpu_scenario().checks);
    }
    r
}

/// The built-in productivity scenario.
pub open spec fn spec_productivity_scenario() -> ScenarioV {
    ScenarioV {
        name: "Productivity Workloads"@,
        description: "For office and productivity testing"@,
        poll_interval_seconds: 15,
        notify_on_drift: false,
        checks: seq![
            CheckConfigV {
                id: "power_plan"@,
                name: "Power Plan (Balanced)"@,
                check_type: CheckType::PowerScheme,
                enabled: true,
                registry_path: None,
                registry_key: None,
                process_name: None,
                expected_value: Some("balanced"@),
            },
        ],
    }
}

/// Build the built-in productivity scenario.
pub fn create_productivity_scenario() -> (r: Scenario)
    ensures
        r.deep_view() == spec_productivity_scenario(),
{
    let mut checks: Vec<CheckConfig> = Vec::new();
    checks.push(
        mk_check(
            "power_plan",
            "Power Plan (Balanced)",
            CheckType::PowerScheme,
            None,
            None,
            None,
            Some("balanced"),
        ),
    );
    let r = Scenario {
        name: "Productivity Workloads".to_owned(),
        description: "For office and productivity testing".to_owned(),
        poll_interval_seconds: 15,
        notify_on_drift: false,
        checks,
    };
    proof {
        assert(r.deep_view().checks =~= spec_productivity_scenario().checks);
    }
    r
}

/// The full set of built-in scenarios, with gaming active by default.
pub open spec fn spec_default_config() -> ConfigM {
    ConfigM {
        root: ConfigV2V {
            version: 2,
            default_scenario: "gaming"@,
            scenarios: seq![
                ScenarioEntryV { id: "gaming"@, scenario: spec_gaming_scenario() },
                ScenarioEntryV { id: "cpu_benchmark"@, scenario: spec_cpu_scenario() },
                ScenarioEntryV { id: "gpu_benchmark"@, scenario: spec_gpu_scenario() },
                ScenarioEntryV { id: "productivity"@, scenario: spec_productivity_scenario() },
            ],
        },
        active_scenario: "gaming"@,
    }
}

impl Default for Config {
    /// The configuration synthesized when no file exists: the four
    /// built-in scenarios, with the gaming scenario active.
    fn default() -> (r: Config)
        ensures
            r.deep_view() == spec_default_config(),
            r.wf(),
    {
        let mut scenarios: Vec<ScenarioEntry> = Vec::new();
        scenarios.push(ScenarioEntry { id: "gaming".to_owned(), scenario: create_gaming_scenario() });
        scenarios.push(
            ScenarioEntry { id: "cpu_benchmark".to_owned(), scenario: create_cpu_scenario() },
        );
        scenarios.push(
            ScenarioEntry { id: "gpu_benchmark".to_owned(), scenario: create_gpu_scenario() },
        );
        scenarios.push(
            ScenarioEntry { id: "productivity".to_owned(), scenario: create_productivity_scenario() },
        );
        let root = ConfigV2 { version: 2, default_scenario: "gaming".to_owned(), scenarios };
        let r = Config { root, active_scenario: "gaming".to_owned() };
        proof {
            assert(r.deep_view().root.scenarios =~= spec_default_config().root.scenarios);
            assert(r.deep_view() == spec_default_config());
            assert(r.deep_view().root.scenarios[0].id == r.deep_view().active_scenario);
        }
        r
    }
}

} // verus!
