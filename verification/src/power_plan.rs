//! Power scheme and power mode checks.
//!
//! The operating system reports the active scheme or mode as a GUID; the
//! probe hands it to the library as the GUID's 128-bit value, and every
//! decision about it is made here.

use vstd::prelude::*;

use crate::checkers::{
    spec_error_result, spec_fail_result, spec_pass_result, CheckResult, CheckResultV,
};
use crate::config::{CheckConfig, CheckConfigV};
use crate::text::{contains_str, lower_of, lowercased, str_eq};

verus! {

/// The well-known High Performance power scheme.
pub const GUID_HIGH_PERFORMANCE: u128 = 0x8c5e7fda_e8bf_4a96_9a85_a6e23a8c635c;

/// The well-known Balanced power scheme.
pub const GUID_BALANCED: u128 = 0x381b4222_f694_41f0_9685_ff5bb260df2e;

/// The well-known Power Saver power scheme.
pub const GUID_POWER_SAVER: u128 = 0xa1841308_3541_4fab_bc81_f71556f20b4a;

/// The Ultimate Performance power scheme, absent on some machines.
pub const GUID_ULTIMATE_PERFORMANCE: u128 = 0xe9a42b02_d5df_448d_aa00_03f14749eb61;

/// Human-readable name of a power scheme.
pub open spec fn spec_scheme_name(g: u128) -> Seq<char> {
    if g == GUID_HIGH_PERFORMANCE {
        "High Performance"@
    } else if g == GUID_BALANCED {
        "Balanced"@
    } else if g == GUID_POWER_SAVER {
        "Power Saver"@
    } else if g == GUID_ULTIMATE_PERFORMANCE {
        "Ultimate Performance"@
    } else {
        "Custom/Unknown"@
    }
}

/// Human-readable name of a power scheme.
pub fn scheme_name(g: u128) -> (r: &'static str)
    ensures
        r@ == spec_scheme_name(g),
{
    if g == GUID_HIGH_PERFORMANCE {
        "High Performance"
    } else if g == GUID_BALANCED {
        "Balanced"
    } else if g == GUID_POWER_SAVER {
        "Power Saver"
    } else if g == GUID_ULTIMATE_PERFORMANCE {
        "Ultimate Performance"
    } else {
        "Custom/Unknown"
    }
}

/// Canonical comparison key of a power scheme.
pub open spec fn spec_scheme_key(g: u128) -> Seq<char> {
    if g == GUID_HIGH_PERFORMANCE {
        "high_performance"@
    } else if g == GUID_BALANCED {
        "balanced"@
    } else if g == GUID_POWER_SAVER {
        "power_saver"@
    } else if g == GUID_ULTIMATE_PERFORMANCE {
        "ultimate_performance"@
    } else {
        "custom"@
    }
}

/// Canonical comparison key of a power scheme.
pub fn scheme_key(g: u128) -> (r: &'static str)
    ensures
        r@ == spec_scheme_key(g),
{
    if g == GUID_HIGH_PERFORMANCE {
        "high_performance"
    } else if g == GUID_BALANCED {
        "balanced"
    } else if g == GUID_POWER_SAVER {
        "power_saver"
    } else if g == GUID_ULTIMATE_PERFORMANCE {
        "ultimate_performance"
    } else {
        "custom"
    }
}

/// The scheme keys that satisfy a requested category, on the lowercased
/// request: asking for high performance also accepts ultimate
/// performance.
pub open spec fn spec_accepted_schemes(e: Seq<char>) -> Seq<Seq<char>> {
    if e == "high_performance"@ || e == "high"@ {
        seq!["high_performance"@, "ultimate_performance"@]
    } else if e == "ultimate_performance"@ || e == "ultimate"@ {
        seq!["ultimate_performance"@]
    } else if e == "balanced"@ {
        seq!["balanced"@]
    } else if e == "power_saver"@ || e == "saver"@ {
        seq!["power_saver"@]
    } else {
        seq!["custom"@]
    }
}

/// The scheme keys accepted for an expected-value string.
pub fn parse_expected(expected: &str) -> (r: Vec<&'static str>)
    ensures
        r.deep_view() =~= spec_accepted_schemes(lower_of(expected@)),
{
    let e = lowercased(expected);
    let es = e.as_str();
    let mut r: Vec<&'static str> = Vec::new();
    if str_eq(es, "high_performance") || str_eq(es, "high") {
        r.push("high_performance");
        r.push("ultimate_performance");
    } else if str_eq(es, "ultimate_performance") || str_eq(es, "ultimate") {
        r.push("ultimate_performance");
    } else if str_eq(es, "balanced") {
        r.push("balanced");
    } else if str_eq(es, "power_saver") || str_eq(es, "saver") {
        r.push("power_saver");
    } else {
        r.push("custom");
    }
    r
}

/// The expected value of a check, or a kind-specific default.
pub open spec fn spec_opt_or(o: Option<Seq<char>>, d: Seq<char>) -> Seq<char> {
    match o {
        Some(s) => s,
        None => d,
    }
}

/// The result of a power scheme check for a probed active-scheme GUID:
/// an error result when the probe failed, otherwise pass exactly when
/// the scheme's key is accepted for the expected category.
pub open spec fn spec_check_power_scheme(c: CheckConfigV, probe: Result<u128, Seq<char>>) -> CheckResultV {
    let expected = spec_opt_or(c.expected_value, "high_performance"@);
    match probe {
        Result::Err(e) => spec_error_result(c.id, c.name, e),
        Result::Ok(g) => if spec_accepted_schemes(lower_of(expected)).contains(spec_scheme_key(g)) {
            spec_pass_result(c.id, c.name, spec_scheme_name(g), expected)
        } else {
            spec_fail_result(c.id, c.name, spec_scheme_name(g), expected)
        },
    }
}

/// Evaluate a power scheme check against the probed active scheme.
pub fn check(config: &CheckConfig, probe: &Result<u128, String>) -> (r: CheckResult)
    ensures
        r.deep_view() == spec_check_power_scheme(
            config.deep_view(),
            crate::checkers::view_res_guid(*probe),
        ),
{
    let expected: &str = match &config.expected_value {
        Some(s) => s.as_str(),
        None => "high_performance",
    };
    match probe {
        Err(e) => CheckResult::error(config.id.as_str(), config.name.as_str(), e.as_str()),
        Ok(g) => {
            let current_key = scheme_key(*g);
            let current_name = scheme_name(*g);
            let acceptable = parse_expected(expected);
            if contains_str(&acceptable, current_key) {
                CheckResult::pass(config.id.as_str(), config.name.as_str(), current_name, expected)
            } else {
                CheckResult::fail(config.id.as_str(), config.name.as_str(), current_name, expected)
            }
        },
    }
}

/// The GUID that a power scheme key selects, or the message for an
/// unknown key.
pub open spec fn spec_scheme_guid_for_key(key: Seq<char>) -> Result<u128, Seq<char>> {
    let k = lower_of(key);
    if k == "high_performance"@ || k == "high"@ {
        Result::Ok(GUID_HIGH_PERFORMANCE)
    } else if k == "ultimate_performance"@ || k == "ultimate"@ {
        Result::Ok(GUID_ULTIMATE_PERFORMANCE)
    } else if k == "balanced"@ {
        Result::Ok(GUID_BALANCED)
    } else if k == "power_saver"@ || k == "saver"@ {
        Result::Ok(GUID_POWER_SAVER)
    } else {
        Result::Err("Unknown power scheme: "@ + key)
    }
}

/// Resolve a power scheme key to the GUID that remediation must set.
pub fn scheme_guid_for_key(key: &str) -> (r: Result<u128, String>)
    ensures
        match r {
            Result::Ok(g) => spec_scheme_guid_for_key(key@) == Result::<u128, Seq<char>>::Ok(g),
            Result::Err(m) => spec_scheme_guid_for_key(key@) == Result::<u128, Seq<char>>::Err(
                m.deep_view(),
            ),
        },
{
    let k = lowercased(key);
    let ks = k.as_str();
    if str_eq(ks, "high_performance") || str_eq(ks, "high") {
        Ok(GUID_HIGH_PERFORMANCE)
    } else if str_eq(ks, "ultimate_performance") || str_eq(ks, "ultimate") {
        Ok(GUID_ULTIMATE_PERFORMANCE)
    } else if str_eq(ks, "balanced") {
        Ok(GUID_BALANCED)
    } else if str_eq(ks, "power_saver") || str_eq(ks, "saver") {
        Ok(GUID_POWER_SAVER)
    } else {
        let mut m = "Unknown power scheme: ".to_owned();
        m.append(key);
        Err(m)
    }
}

/// The Better Battery power mode overlay.
pub const GUID_MODE_BETTER_BATTERY: u128 = 0x961cc777_2547_4f9d_8174_7d86181b8a7a;

/// The default (balanced) power mode overlay, reported as the zero GUID.
pub const GUID_MODE_BALANCED: u128 = 0;

/// The Better Performance power mode overlay.
pub const GUID_MODE_BETTER_PERFORMANCE: u128 = 0x3af9b8d9_7c97_431d_ad78_34a8bfea439f;

/// The Best Performance power mode overlay.
pub const GUID_MODE_BEST_PERFORMANCE: u128 = 0xded574b5_45a0_4f42_8737_46345c09c238;

/// Human-readable name of a power mode overlay.
pub open spec fn spec_power_mode_name(g: u128) -> Seq<char> {
    if g == GUID_MODE_BEST_PERFORMANCE {
        "Best Performance"@
    } else if g == GUID_MODE_BETTER_PERFORMANCE {
        "Better Performance"@
    } else if g == GUID_MODE_BALANCED {
        "Balanced"@
    } else if g == GUID_MODE_BETTER_BATTERY {
        "Better Battery"@
    } else {
        "Unknown"@
    }
}

/// Human-readable name of a power mode overlay.
pub fn power_mode_name(g: u128) -> (r: &'static str)
    ensures
        r@ == spec_power_mode_name(g),
{
    if g == GUID_MODE_BEST_PERFORMANCE {
        "Best Performance"
    } else if g == GUID_MODE_BETTER_PERFORMANCE {
        "Better Performance"
    } else if g == GUID_MODE_BALANCED {
        "Balanced"
    } else if g == GUID_MODE_BETTER_BATTERY {
        "Better Battery"
    } else {
        "Unknown"
    }
}

/// Canonical comparison key of a power mode overlay.
pub open spec fn spec_power_mode_key(g: u128) -> Seq<char> {
    if g == GUID_MODE_BEST_PERFORMANCE {
        "best_performance"@
    } else if g == GUID_MODE_BETTER_PERFORMANCE {
        "better_performance"@
    } else if g == GUID_MODE_BALANCED {
        "balanced"@
    } else if g == GUID_MODE_BETTER_BATTERY {
        "better_battery"@
    } else {
        "unknown"@
    }
}

/// Canonical comparison key of a power mode overlay.
pub fn power_mode_key(g: u128) -> (r: &'static str)
    ensures
        r@ == spec_power_mode_key(g),
{
    if g == GUID_MODE_BEST_PERFORMANCE {
        "best_performance"
    } else if g == GUID_MODE_BETTER_PERFORMANCE {
        "better_performance"
    } else if g == GUID_MODE_BALANCED {
        "balanced"
    } else if g == GUID_MODE_BETTER_BATTERY {
        "better_battery"
    } else {
        "unknown"
    }
}

/// The mode keys that satisfy a requested category, on the lowercased
/// request: asking for better performance also accepts best performance.
pub open spec fn spec_accepted_modes(e: Seq<char>) -> Seq<Seq<char>> {
    if e == "best_performance"@ || e == "best"@ || e == "max"@ {
        seq!["best_performance"@]
    } else if e == "better_performance"@ || e == "better"@ || e == "high"@ {
        seq!["better_performance"@, "best_performance"@]
    } else if e == "balanced"@ || e == "default"@ {
        seq!["balanced"@]
    } else if e == "better_battery"@ || e == "battery"@ || e == "saver"@ {
        seq!["better_battery"@]
    } else {
        seq!["unknown"@]
    }
}

/// The mode keys accepted for an expected-value string.
pub fn parse_expected_mode(expected: &str) -> (r: Vec<&'static str>)
    ensures
        r.deep_view() =~= spec_accepted_modes(lower_of(expected@)),
{
    let e = lowercased(expected);
    let es = e.as_str();
    let mut r: Vec<&'static str> = Vec::new();
    if str_eq(es, "best_performance") || str_eq(es, "best") || str_eq(es, "max") {
        r.push("best_performance");
    } else if str_eq(es, "better_performance") || str_eq(es, "better") || str_eq(es, "high") {
        r.push("better_performance");
        r.push("best_performance");
    } else if str_eq(es, "balanced") || str_eq(es, "default") {
        r.push("balanced");
    } else if str_eq(es, "better_battery") || str_eq(es, "battery") || str_eq(es, "saver") {
        r.push("better_battery");
    } else {
        r.push("unknown");
    }
    r
}

/// The result of a power mode check for a probed overlay GUID.
pub open spec fn spec_check_power_mode(c: CheckConfigV, probe: Result<u128, Seq<char>>) -> CheckResultV {
    let expected = spec_opt_or(c.expected_value, "best_performance"@);
    match probe {
        Result::Err(e) => spec_error_result(c.id, c.name, e),
        Result::Ok(g) => if spec_accepted_modes(lower_of(expected)).contains(spec_power_mode_key(g)) {
            spec_pass_result(c.id, c.name, spec_power_mode_name(g), expected)
        } else {
            spec_fail_result(c.id, c.name, spec_power_mode_name(g), expected)
        },
    }
}

/// Evaluate a power mode check against the probed overlay scheme.
pub fn check_power_mode(config: &CheckConfig, probe: &Result<u128, String>) -> (r: CheckResult)
    ensures
        r.deep_view() == spec_check_power_mode(
            config.deep_view(),
            crate::checkers::view_res_guid(*probe),
        ),
{
    let expected: &str = match &config.expected_value {
        Some(s) => s.as_str(),
        None => "best_performance",
    };
    match probe {
        Err(e) => CheckResult::error(config.id.as_str(), config.name.as_str(), e.as_str()),
        Ok(g) => {
            let current_key = power_mode_key(*g);
            let current_name = power_mode_name(*g);
            let acceptable = parse_expected_mode(expected);
            if contains_str(&acceptable, current_key) {
                CheckResult::pass(config.id.as_str(), config.name.as_str(), current_name, expected)
            } else {
                CheckResult::fail(config.id.as_str(), config.name.as_str(), current_name, expected)
            }
        },
    }
}

/// The GUID that a power mode key selects, or the message for an
/// unknown key.
pub open spec fn spec_mode_guid_for_key(key: Seq<char>) -> Result<u128, Seq<char>> {
    let k = lower_of(key);
    if k == "best_performance"@ || k == "best"@ || k == "max"@ {
        Result::Ok(GUID_MODE_BEST_PERFORMANCE)
    } else if k == "better_performance"@ || k == "better"@ || k == "high"@ {
        Result::Ok(GUID_MODE_BETTER_PERFORMANCE)
    } else if k == "balanced"@ || k == "default"@ {
        Result::Ok(GUID_MODE_BALANCED)
    } else if k == "better_battery"@ || k == "battery"@ || k == "saver"@ {
        Result::Ok(GUID_MODE_BETTER_BATTERY)
    } else {
        Result::Err("Unknown power mode: "@ + key)
    }
}

/// Resolve a power mode key to the GUID that remediation must set.
pub fn mode_guid_for_key(key: &str) -> (r: Result<u128, String>)
    ensures
        match r {
            Result::Ok(g) => spec_mode_guid_for_key(key@) == Result::<u128, Seq<char>>::Ok(g),
            Result::Err(m) => spec_mode_guid_for_key(key@) == Result::<u128, Seq<char>>::Err(
                m.deep_view(),
            ),
        },
{
    let k = lowercased(key);
    let ks = k.as_str();
    if str_eq(ks, "best_performance") || str_eq(ks, "best") || str_eq(ks, "max") {
        Ok(GUID_MODE_BEST_PERFORMANCE)
    } else if str_eq(ks, "better_performance") || str_eq(ks, "better") || str_eq(ks, "high") {
        Ok(GUID_MODE_BETTER_PERFORMANCE)
    } else if str_eq(ks, "balanced") || str_eq(ks, "default") {
        Ok(GUID_MODE_BALANCED)
    } else if str_eq(ks, "better_battery") || str_eq(ks, "battery") || str_eq(ks, "saver") {
        Ok(GUID_MODE_BETTER_BATTERY)
    } else {
        let mut m = "Unknown power mode: ".to_owned();
        m.append(key);
        Err(m)
    }
}

} // verus!
