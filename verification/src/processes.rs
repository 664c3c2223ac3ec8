//! Process presence checks.
//!
//! The probe enumerates the running processes and hands their image
//! names to the library; the case-insensitive search and the verdict
//! are made here.

use vstd::prelude::*;

use crate::checkers::{
    spec_error_result, spec_fail_result, spec_pass_result, CheckResult, CheckResultV,
};
use crate::config::{CheckConfig, CheckConfigV};
use crate::text::{eq_ignore_case, lower_of};

verus! {

/// Whether a process with the target name is among the running ones,
/// compared case-insensitively.
pub open spec fn spec_proc_running(names: Seq<Seq<char>>, target: Seq<char>) -> bool {
    exists|i: int| 0 <= i < names.len() && lower_of(#[trigger] names[i]) == lower_of(target)
}

/// Whether a process with the target name is among the running ones.
pub fn is_process_running(names: &Vec<String>, target: &str) -> (r: bool)
    ensures
        r == spec_proc_running(names.deep_view(), target@),
{
    let n = names.len();
    let mut i: usize = 0;
    while i < n
        invariant
            0 <= i <= n,
            n == names@.len(),
            names.deep_view().len() == n,
            forall|j: int|
                0 <= j < i ==> lower_of(#[trigger] names.deep_view()[j]) != lower_of(target@),
        decreases n - i,
    {
        if eq_ignore_case(names[i].as_str(), target) {
            proof {
                assert(lower_of(names.deep_view()[i as int]) == lower_of(target@));
            }
            return true;
        }
        i += 1;
    }
    false
}

/// The result of a process-absent check for a probed process list: the
/// check passes exactly when no process carries the configured name.
pub open spec fn spec_check_absent(
    c: CheckConfigV,
    probe: Result<Seq<Seq<char>>, Seq<char>>,
) -> CheckResultV {
    match c.process_name {
        None => spec_error_result(c.id, c.name, "Missing process_name in config"@),
        Some(target) => match probe {
            Result::Err(e) => spec_error_result(c.id, c.name, e),
            Result::Ok(names) => if spec_proc_running(names, target) {
                spec_fail_result(c.id, c.name, "Running"@, "Not Running"@)
            } else {
                spec_pass_result(c.id, c.name, "Not Running"@, "Not Running"@)
            },
        },
    }
}

/// Evaluate a process-absent check against the probed process list.
pub fn check_absent(config: &CheckConfig, probe: &Result<Vec<String>, String>) -> (r: CheckResult)
    ensures
        r.deep_view() == spec_check_absent(
            config.deep_view(),
            crate::checkers::view_res_names(*probe),
        ),
{
    let target = match &config.process_name {
        Some(name) => name,
        None => {
            return CheckResult::error(
                config.id.as_str(),
                config.name.as_str(),
                "Missing process_name in config",
            );
        },
    };
    match probe {
        Err(e) => CheckResult::error(config.id.as_str(), config.name.as_str(), e.as_str()),
        Ok(names) => {
            if is_process_running(names, target.as_str()) {
                CheckResult::fail(config.id.as_str(), config.name.as_str(), "Running", "Not Running")
            } else {
                CheckResult::pass(
                    config.id.as_str(),
                    config.name.as_str(),
                    "Not Running",
                    "Not Running",
                )
            }
        },
    }
}

/// The result of a process-present check for a probed process list: the
/// check passes exactly when some process carries the configured name.
pub open spec fn spec_check_present(
    c: CheckConfigV,
    probe: Result<Seq<Seq<char>>, Seq<char>>,
) -> CheckResultV {
    match c.process_name {
        None => spec_error_result(c.id, c.name, "Missing process_name in config"@),
        Some(target) => match probe {
            Result::Err(e) => spec_error_result(c.id, c.name, e),
            Result::Ok(names) => if spec_proc_running(names, target) {
                spec_pass_result(c.id, c.name, "Running"@, "Running"@)
            } else {
                spec_fail_result(c.id, c.name, "Not Running"@, "Running"@)
            },
        },
    }
}

/// Evaluate a process-present check against the probed process list.
pub fn check_present(config: &CheckConfig, probe: &Result<Vec<String>, String>) -> (r: CheckResult)
    ensures
        r.deep_view() == spec_check_present(
            config.deep_view(),
            crate::checkers::view_res_names(*probe),
        ),
{
    let target = match &config.process_name {
        Some(name) => name,
        None => {
            return CheckResult::error(
                config.id.as_str(),
                config.name.as_str(),
                "Missing process_name in config",
            );
        },
    };
    match probe {
        Err(e) => CheckResult::error(config.id.as_str(), config.name.as_str(), e.as_str()),
        Ok(names) => {
            if is_process_running(names, target.as_str()) {
                CheckResult::pass(config.id.as_str(), config.name.as_str(), "Running", "Running")
            } else {
                CheckResult::fail(config.id.as_str(), config.name.as_str(), "Not Running", "Running")
            }
        },
    }
}

} // verus!
