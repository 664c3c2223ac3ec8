//! Display checks: resolution, refresh rate floor, and HDR state.
//!
//! The probe reports the active display mode, or the two registry
//! values that record the HDR state; the comparisons are made here.

use vstd::prelude::*;
use vstd::string::*;

use crate::checkers::{
    spec_error_result, spec_fail_result, spec_pass_result, CheckResult, CheckResultV,
};
use crate::config::{CheckConfig, CheckConfigV};
use crate::power_plan::spec_opt_or;
use crate::text::{dec_str, parse_u32, parse_u32_spec, str_eq, u32_to_string};

verus! {

/// The active display mode, as the probe reports it.
#[derive(Clone, Copy, Debug, PartialEq, Eq, Structural)]
pub struct DisplayMode {
    pub width: u32,
    pub height: u32,
    pub refresh_hz: u32,
}

/// The view of a probed display-mode outcome.
pub open spec fn view_res_display(r: Result<DisplayMode, String>) -> Result<
    DisplayMode,
    Seq<char>,
> {
    match r {
        Result::Ok(v) => Result::Ok(v),
        Result::Err(e) => Result::Err(e.deep_view()),
    }
}

/// The canonical "{width}x{height}" display string of a mode.
pub open spec fn spec_resolution_str(m: DisplayMode) -> Seq<char> {
    dec_str(m.width as nat) + "x"@ + dec_str(m.height as nat)
}

/// The result of a resolution check for a probed display mode: pass
/// exactly when "{width}x{height}" equals the expected string.
pub open spec fn spec_check_resolution(c: CheckConfigV, probe: Result<DisplayMode, Seq<char>>) -> CheckResultV {
    let expected = spec_opt_or(c.expected_value, "1920x1080"@);
    match probe {
        Result::Err(e) => spec_error_result(c.id, c.name, e),
        Result::Ok(m) => if spec_resolution_str(m) == expected {
            spec_pass_result(c.id, c.name, spec_resolution_str(m), expected)
        } else {
            spec_fail_result(c.id, c.name, spec_resolution_str(m), expected)
        },
    }
}

/// Evaluate a resolution check against the probed display mode.
pub fn check_resolution(config: &CheckConfig, probe: &Result<DisplayMode, String>) -> (r: CheckResult)
    ensures
        r.deep_view() == spec_check_resolution(config.deep_view(), view_res_display(*probe)),
{
    let expected: &str = match &config.expected_value {
        Some(s) => s.as_str(),
        None => "1920x1080",
    };
    match probe {
        Err(e) => CheckResult::error(config.id.as_str(), config.name.as_str(), e.as_str()),
        Ok(m) => {
            let mut current = u32_to_string(m.width);
            current.append("x");
            let h = u32_to_string(m.height);
            current.append(h.as_str());
            if str_eq(current.as_str(), expected) {
                CheckResult::pass(config.id.as_str(), config.name.as_str(), current.as_str(), expected)
            } else {
                CheckResult::fail(config.id.as_str(), config.name.as_str(), current.as_str(), expected)
            }
        },
    }
}

/// The refresh-rate floor a check demands: its expected value parsed as
/// a number, or sixty when absent or unparsable.
pub open spec fn spec_expected_hz(c: CheckConfigV) -> u32 {
    let expected = spec_opt_or(c.expected_value, "60"@);
    match parse_u32_spec(expected) {
        Some(v) => v,
        None => 60,
    }
}

/// The result of a refresh-rate check for a probed display mode: pass
/// exactly when the probed rate is at least the expected floor.
pub open spec fn spec_check_refresh_rate(c: CheckConfigV, probe: Result<DisplayMode, Seq<char>>) -> CheckResultV {
    let hz_floor = spec_expected_hz(c);
    match probe {
        Result::Err(e) => spec_error_result(c.id, c.name, e),
        Result::Ok(m) => {
            let current = dec_str(m.refresh_hz as nat) + "Hz"@;
            let shown = dec_str(hz_floor as nat) + "Hz+"@;
            if m.refresh_hz >= hz_floor {
                spec_pass_result(c.id, c.name, current, shown)
            } else {
                spec_fail_result(c.id, c.name, current, shown)
            }
        },
    }
}

/// Evaluate a refresh-rate check against the probed display mode.
pub fn check_refresh_rate(config: &CheckConfig, probe: &Result<DisplayMode, String>) -> (r: CheckResult)
    ensures
        r.deep_view() == spec_check_refresh_rate(config.deep_view(), view_res_display(*probe)),
{
    let expected_str: &str = match &config.expected_value {
        Some(s) => s.as_str(),
        None => "60",
    };
    let expected_hz: u32 = match parse_u32(expected_str) {
        Some(v) => v,
        None => 60,
    };
    match probe {
        Err(e) => CheckResult::error(config.id.as_str(), config.name.as_str(), e.as_str()),
        Ok(m) => {
            let mut current = u32_to_string(m.refresh_hz);
            current.append("Hz");
            let mut shown = u32_to_string(expected_hz);
            shown.append("Hz+");
            if m.refresh_hz >= expected_hz {
                CheckResult::pass(
                    config.id.as_str(),
                    config.name.as_str(),
                    current.as_str(),
                    shown.as_str(),
                )
            } else {
                CheckResult::fail(
                    config.id.as_str(),
                    config.name.as_str(),
                    current.as_str(),
                    shown.as_str(),
                )
            }
        },
    }
}

/// The HDR state read from the two registry locations that record it:
/// the primary value decides when readable, else the alternative, else
/// HDR counts as disabled.
pub open spec fn spec_hdr_state(primary: Result<u32, Seq<char>>, alt: Result<u32, Seq<char>>) -> bool {
    match primary {
        Result::Ok(v) => v == 1,
        Result::Err(_) => match alt {
            Result::Ok(v) => v == 1,
            Result::Err(_) => false,
        },
    }
}

/// The HDR state read from the two registry locations that record it.
pub fn check_hdr_registry(primary: &Result<u32, String>, alt: &Result<u32, String>) -> (r: bool)
    ensures
        r == spec_hdr_state(
            crate::checkers::view_res_u32(*primary),
            crate::checkers::view_res_u32(*alt),
        ),
{
    match primary {
        Ok(v) => *v == 1,
        Err(_) => match alt {
            Ok(v) => *v == 1,
            Err(_) => false,
        },
    }
}

/// The result of an HDR check for the two probed registry values: pass
/// exactly when the read state matches the expected "1" or "0".
pub open spec fn spec_check_hdr(
    c: CheckConfigV,
    primary: Result<u32, Seq<char>>,
    alt: Result<u32, Seq<char>>,
) -> CheckResultV {
    let expected = spec_opt_or(c.expected_value, "1"@);
    let hdr = spec_hdr_state(primary, alt);
    let current = if hdr {
        "Enabled"@
    } else {
        "Disabled"@
    };
    let shown = if expected == "1"@ {
        "Enabled"@
    } else {
        "Disabled"@
    };
    if (expected == "1"@ && hdr) || (expected == "0"@ && !hdr) {
        spec_pass_result(c.id, c.name, current, shown)
    } else {
        spec_fail_result(c.id, c.name, current, shown)
    }
}

/// Evaluate an HDR check against the two probed registry values.
pub fn check_hdr(
    config: &CheckConfig,
    primary: &Result<u32, String>,
    alt: &Result<u32, String>,
) -> (r: CheckResult)
    ensures
        r.deep_view() == spec_check_hdr(
            config.deep_view(),
            crate::checkers::view_res_u32(*primary),
            crate::checkers::view_res_u32(*alt),
        ),
{
    let expected: &str = match &config.expected_value {
        Some(s) => s.as_str(),
        None => "1",
    };
    let hdr = check_hdr_registry(primary, alt);
    let current: &str = if hdr {
        "Enabled"
    } else {
        "Disabled"
    };
    let shown: &str = if str_eq(expected, "1") {
        "Enabled"
    } else {
        "Disabled"
    };
    if (str_eq(expected, "1") && hdr) || (str_eq(expected, "0") && !hdr) {
        CheckResult::pass(config.id.as_str(), config.name.as_str(), current, shown)
    } else {
        CheckResult::fail(config.id.as_str(), config.name.as_str(), current, shown)
    }
}

/// The display summary the interface shows: the mode as
/// "{width}x{height} @ {hz}Hz", or "Unknown" when the probe failed.
pub open spec fn spec_display_info(probe: Result<DisplayMode, Seq<char>>) -> Seq<char> {
    match probe {
        Result::Ok(m) => dec_str(m.width as nat) + "x"@ + dec_str(m.height as nat) + " @ "@ + dec_str(
            m.refresh_hz as nat,
        ) + "Hz"@,
        Result::Err(_) => "Unknown"@,
    }
}

/// Render the display summary for a probed display mode.
pub fn get_display_info(probe: &Result<DisplayMode, String>) -> (r: String)
    ensures
        r@ == spec_display_info(view_res_display(*probe)),
{
    match probe {
        Ok(m) => {
            let mut s = u32_to_string(m.width);
            s.append("x");
            let h = u32_to_string(m.height);
            s.append(h.as_str());
            s.append(" @ ");
            let hz = u32_to_string(m.refresh_hz);
            s.append(hz.as_str());
            s.append("Hz");
            s
        },
        Err(_) => "Unknown".to_owned(),
    }
}

} // verus!
