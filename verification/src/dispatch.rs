//! The dispatcher: which probe a check needs, and how a check and its
//! probe's outcome combine into a result.
//!
//! A caller first asks `probe_request` what to read, performs the read,
//! and hands the outcome back as a `ProbeReply`; everything else is
//! decided here.

use vstd::prelude::*;

use crate::checkers::{
    view_res_guid, view_res_names, view_res_text, view_res_u32, CheckResult, CheckResultV,
};
use crate::config::{CheckConfig, CheckConfigV, CheckType};
use crate::display::{view_res_display, DisplayMode};

verus! {

/// The read a check needs before it can be evaluated.
#[derive(Debug, PartialEq)]
pub enum ProbeRequest {
    /// Read the active power scheme GUID.
    ActiveScheme,
    /// Read the active power mode overlay GUID.
    ActiveMode,
    /// Read one registry DWORD value.
    ReadDword { path: String, key: String },
    /// Read one registry string value.
    ReadString { path: String, key: String },
    /// Enumerate the running processes' image names.
    ListProcesses,
    /// Read the active display mode.
    ReadDisplayMode,
    /// Read the two registry DWORD values that record the HDR state.
    ReadHdrState { path: String, primary_key: String, alt_key: String },
    /// The check is missing a parameter; no read can help it.
    NoProbe,
}

/// Mathematical model of a `ProbeRequest`.
pub enum ProbeRequestV {
    ActiveScheme,
    ActiveMode,
    ReadDword { path: Seq<char>, key: Seq<char> },
    ReadString { path: Seq<char>, key: Seq<char> },
    ListProcesses,
    ReadDisplayMode,
    ReadHdrState { path: Seq<char>, primary_key: Seq<char>, alt_key: Seq<char> },
    NoProbe,
}

impl DeepView for ProbeRequest {
    type V = ProbeRequestV;

    open spec fn deep_view(&self) -> ProbeRequestV {
        match self {
            ProbeRequest::ActiveScheme => ProbeRequestV::ActiveScheme,
            ProbeRequest::ActiveMode => ProbeRequestV::ActiveMode,
            ProbeRequest::ReadDword { path, key } => ProbeRequestV::ReadDword {
                path: path.deep_view(),
                key: key.deep_view(),
            },
            ProbeRequest::ReadString { path, key } => ProbeRequestV::ReadString {
                path: path.deep_view(),
                key: key.deep_view(),
            },
            ProbeRequest::ListProcesses => ProbeRequestV::ListProcesses,
            ProbeRequest::ReadDisplayMode => ProbeRequestV::ReadDisplayMode,
            ProbeRequest::ReadHdrState { path, primary_key, alt_key } => ProbeRequestV::ReadHdrState {
                path: path.deep_view(),
                primary_key: primary_key.deep_view(),
                alt_key: alt_key.deep_view(),
            },
            ProbeRequest::NoProbe => ProbeRequestV::NoProbe,
        }
    }
}

/// The outcome of the read a check asked for.
#[derive(Debug, PartialEq)]
pub enum ProbeReply {
    /// The active power scheme or mode GUID, as its 128-bit value.
    Guid(Result<u128, String>),
    /// A registry DWORD value.
    Dword(Result<u32, String>),
    /// A registry string value.
    Text(Result<String, String>),
    /// The running processes' image names.
    Processes(Result<Vec<String>, String>),
    /// The active display mode.
    Display(Result<DisplayMode, String>),
    /// The two registry values that record the HDR state.
    HdrReads(Result<u32, String>, Result<u32, String>),
    /// No read was performed.
    Nothing,
}

/// The registry path that records the HDR state.
pub open spec fn spec_hdr_settings_path() -> Seq<char> {
    "HKCU\\Software\\Microsoft\\Windows\\CurrentVersion\\VideoSettings"@
}

/// The read a check needs: its kind's probe, with the check's own
/// parameters filled in; `NoProbe` when a parameter is missing or a
/// registry path names no recognized hive, since evaluation then fails
/// before any read.
pub open spec fn spec_probe_request(c: CheckConfigV) -> ProbeRequestV {
    match c.check_type {
        CheckType::PowerScheme => ProbeRequestV::ActiveScheme,
        CheckType::PowerMode => ProbeRequestV::ActiveMode,
        CheckType::RegistryDword => match (c.registry_path, c.registry_key) {
            (Some(p), Some(k)) => if crate::registry::spec_parse_root_key(p) is Some {
                ProbeRequestV::ReadDword { path: p, key: k }
            } else {
                ProbeRequestV::NoProbe
            },
            _ => ProbeRequestV::NoProbe,
        },
        CheckType::RegistryString => match (c.registry_path, c.registry_key) {
            (Some(p), Some(k)) => if crate::registry::spec_parse_root_key(p) is Some {
                ProbeRequestV::ReadString { path: p, key: k }
            } else {
                ProbeRequestV::NoProbe
            },
            _ => ProbeRequestV::NoProbe,
        },
        CheckType::ProcessAbsent => match c.process_name {
            Some(_) => ProbeRequestV::ListProcesses,
            None => ProbeRequestV::NoProbe,
        },
        CheckType::ProcessPresent => match c.process_name {
            Some(_) => ProbeRequestV::ListProcesses,
            None => ProbeRequestV::NoProbe,
        },
        CheckType::DisplayResolution => ProbeRequestV::ReadDisplayMode,
        CheckType::DisplayRefreshRate => ProbeRequestV::ReadDisplayMode,
        CheckType::HdrEnabled => ProbeRequestV::ReadHdrState {
            path: spec_hdr_settings_path(),
            primary_key: "GlobalHDRState"@,
            alt_key: "EnableHDRForDisplay"@,
        },
    }
}

/// The read a check needs before it can be evaluated.
pub fn probe_request(config: &CheckConfig) -> (r: ProbeRequest)
    ensures
        r.deep_view() == spec_probe_request(config.deep_view()),
{
    match config.check_type {
        CheckType::PowerScheme => ProbeRequest::ActiveScheme,
        CheckType::PowerMode => ProbeRequest::ActiveMode,
        CheckType::RegistryDword => match (&config.registry_path, &config.registry_key) {
            (Some(p), Some(k)) => {
                if crate::registry::parse_root_key(p.as_str()).is_some() {
                    ProbeRequest::ReadDword { path: p.clone(), key: k.clone() }
                } else {
                    ProbeRequest::NoProbe
                }
            },
            _ => ProbeRequest::NoProbe,
        },
        CheckType::RegistryString => match (&config.registry_path, &config.registry_key) {
            (Some(p), Some(k)) => {
                if crate::registry::parse_root_key(p.as_str()).is_some() {
                    ProbeRequest::ReadString { path: p.clone(), key: k.clone() }
                } else {
                    ProbeRequest::NoProbe
                }
            },
            _ => ProbeRequest::NoProbe,
        },
        CheckType::ProcessAbsent => match &config.process_name {
            Some(_) => ProbeRequest::ListProcesses,
            None => ProbeRequest::NoProbe,
        },
        CheckType::ProcessPresent => match &config.process_name {
            Some(_) => ProbeRequest::ListProcesses,
            None => ProbeRequest::NoProbe,
        },
        CheckType::DisplayResolution => ProbeRequest::ReadDisplayMode,
        CheckType::DisplayRefreshRate => ProbeRequest::ReadDisplayMode,
        CheckType::HdrEnabled => ProbeRequest::ReadHdrState {
            path: "HKCU\\Software\\Microsoft\\Windows\\CurrentVersion\\VideoSettings".to_owned(),
            primary_key: "GlobalHDRState".to_owned(),
            alt_key: "EnableHDRForDisplay".to_owned(),
        },
    }
}

/// The message of a result whose reply does not fit its check's kind.
pub open spec fn spec_mismatch_msg() -> Seq<char> {
    "probe reply does not match check kind"@
}

/// The result of one check for one probe reply: the check's kind picks
/// its evaluator; a reply of the wrong shape is treated as a failed
/// probe.
pub open spec fn spec_run_check(c: CheckConfigV, reply: ProbeReply) -> CheckResultV {
    match c.check_type {
        CheckType::PowerScheme => match reply {
            ProbeReply::Guid(res) => crate::power_plan::spec_check_power_scheme(
                c,
                view_res_guid(res),
            ),
            _ => crate::power_plan::spec_check_power_scheme(c, Result::Err(spec_mismatch_msg())),
        },
        CheckType::PowerMode => match reply {
            ProbeReply::Guid(res) => crate::power_plan::spec_check_power_mode(c, view_res_guid(res)),
            _ => crate::power_plan::spec_check_power_mode(c, Result::Err(spec_mismatch_msg())),
        },
        CheckType::RegistryDword => match reply {
            ProbeReply::Dword(res) => crate::registry::spec_check_dword(c, view_res_u32(res)),
            _ => crate::registry::spec_check_dword(c, Result::Err(spec_mismatch_msg())),
        },
        CheckType::RegistryString => match reply {
            ProbeReply::Text(res) => crate::registry::spec_check_string(c, view_res_text(res)),
            _ => crate::registry::spec_check_string(c, Result::Err(spec_mismatch_msg())),
        },
        CheckType::ProcessAbsent => match reply {
            ProbeReply::Processes(res) => crate::processes::spec_check_absent(
                c,
                view_res_names(res),
            ),
            _ => crate::processes::spec_check_absent(c, Result::Err(spec_mismatch_msg())),
        },
        CheckType::ProcessPresent => match reply {
            ProbeReply::Processes(res) => crate::processes::spec_check_present(
                c,
                view_res_names(res),
            ),
            _ => crate::processes::spec_check_present(c, Result::Err(spec_mismatch_msg())),
        },
        CheckType::DisplayResolution => match reply {
            ProbeReply::Display(res) => crate::display::spec_check_resolution(
                c,
                view_res_display(res),
            ),
            _ => crate::display::spec_check_resolution(c, Result::Err(spec_mismatch_msg())),
        },
        CheckType::DisplayRefreshRate => match reply {
            ProbeReply::Display(res) => crate::display::spec_check_refresh_rate(
                c,
                view_res_display(res),
            ),
            _ => crate::display::spec_check_refresh_rate(c, Result::Err(spec_mismatch_msg())),
        },
        CheckType::HdrEnabled => match reply {
            ProbeReply::HdrReads(primary, alt) => crate::display::spec_check_hdr(
                c,
                view_res_u32(primary),
                view_res_u32(alt),
            ),
            _ => crate::display::spec_check_hdr(
                c,
                Result::Err(spec_mismatch_msg()),
                Result::Err(spec_mismatch_msg()),
            ),
        },
    }
}

fn mismatch_probe<T>() -> (r: Result<T, String>)
    ensures
        r matches Result::Err(m) && m.deep_view() == spec_mismatch_msg(),
{
    Err("probe reply does not match check kind".to_owned())
}

/// Evaluate one check against the outcome of its probe.
pub fn run_check(config: &CheckConfig, reply: &ProbeReply) -> (r: CheckResult)
    ensures
        r.deep_view() == spec_run_check(config.deep_view(), *reply),
{
    match config.check_type {
        CheckType::PowerScheme => match reply {
            ProbeReply::Guid(res) => crate::power_plan::check(config, res),
            _ => crate::power_plan::check(config, &mismatch_probe()),
        },
        CheckType::PowerMode => match reply {
            ProbeReply::Guid(res) => crate::power_plan::check_power_mode(config, res),
            _ => crate::power_plan::check_power_mode(config, &mismatch_probe()),
        },
        CheckType::RegistryDword => match reply {
            ProbeReply::Dword(res) => crate::registry::check_dword(config, res),
            _ => crate::registry::check_dword(config, &mismatch_probe()),
        },
        CheckType::RegistryString => match reply {
            ProbeReply::Text(res) => crate::registry::check_string(config, res),
            _ => crate::registry::check_string(config, &mismatch_probe()),
        },
        CheckType::ProcessAbsent => match reply {
            ProbeReply::Processes(res) => crate::processes::check_absent(config, res),
            _ => crate::processes::check_absent(config, &mismatch_probe()),
        },
        CheckType::ProcessPresent => match reply {
            ProbeReply::Processes(res) => crate::processes::check_present(config, res),
            _ => crate::processes::check_present(config, &mismatch_probe()),
        },
        CheckType::DisplayResolution => match reply {
            ProbeReply::Display(res) => crate::display::check_resolution(config, res),
            _ => crate::display::check_resolution(config, &mismatch_probe()),
        },
        CheckType::DisplayRefreshRate => match reply {
            ProbeReply::Display(res) => crate::display::check_refresh_rate(config, res),
            _ => crate::display::check_refresh_rate(config, &mismatch_probe()),
        },
        CheckType::HdrEnabled => match reply {
            ProbeReply::HdrReads(primary, alt) => crate::display::check_hdr(config, primary, alt),
            _ => crate::display::check_hdr(config, &mismatch_probe(), &mismatch_probe()),
        },
    }
}

/// How many checks of `checks` are enabled.
pub open spec fn enabled_count(checks: Seq<CheckConfigV>) -> nat {
    checks.filter(|c: CheckConfigV| c.enabled).len()
}

/// The results of evaluating a check list against a reply list: one
/// result per enabled check, in declared order; the k-th enabled check
/// consumes the k-th reply; disabled checks consume nothing.
pub open spec fn spec_run_all(checks: Seq<CheckConfigV>, replies: Seq<ProbeReply>) -> Seq<
    CheckResultV,
>
    decreases checks.len(),
{
    if checks.len() == 0 {
        Seq::empty()
    } else {
        let prefix = spec_run_all(checks.drop_last(), replies);
        if checks.last().enabled {
            prefix.push(
                spec_run_check(checks.last(), replies[enabled_count(checks.drop_last()) as int]),
            )
        } else {
            prefix
        }
    }
}

proof fn lemma_enabled_count_step(checks: Seq<CheckConfigV>, i: int)
    requires
        0 <= i < checks.len(),
    ensures
        enabled_count(checks.take(i + 1)) == enabled_count(checks.take(i)) + (if checks[i].enabled {
            1int
        } else {
            0int
        }),
{
    reveal(Seq::filter);
    assert(checks.take(i + 1).drop_last() =~= checks.take(i));
    assert(checks.take(i + 1).last() == checks[i]);
}

proof fn lemma_enabled_count_take_le(checks: Seq<CheckConfigV>, i: int)
    requires
        0 <= i <= checks.len(),
    ensures
        enabled_count(checks.take(i)) <= enabled_count(checks),
    decreases checks.len() - i,
{
    if i == checks.len() {
        assert(checks.take(i) =~= checks);
    } else {
        lemma_enabled_count_step(checks, i);
        lemma_enabled_count_take_le(checks, i + 1);
    }
}

/// Evaluate the enabled checks of a list, pairing the k-th enabled
/// check with the k-th reply.
pub fn run_all_checks(checks: &[CheckConfig], replies: &Vec<ProbeReply>) -> (r: Vec<CheckResult>)
    requires
        replies@.len() == enabled_count(checks.deep_view()),
    ensures
        r.deep_view() == spec_run_all(checks.deep_view(), replies@),
{
    let n = checks.len();
    let mut out: Vec<CheckResult> = Vec::new();
    let mut i: usize = 0;
    let mut j: usize = 0;
    proof {
        reveal(Seq::filter);
        assert(checks.deep_view().take(0) =~= Seq::<CheckConfigV>::empty());
        assert(spec_run_all(checks.deep_view().take(0), replies@) =~= Seq::<CheckResultV>::empty());
    }
    while i < n
        invariant
            0 <= i <= n,
            n == checks@.len(),
            checks.deep_view().len() == n,
            replies@.len() == enabled_count(checks.deep_view()),
            j == enabled_count(checks.deep_view().take(i as int)),
            out.deep_view() =~= spec_run_all(checks.deep_view().take(i as int), replies@),
        decreases n - i,
    {
        proof {
            lemma_enabled_count_step(checks.deep_view(), i as int);
            lemma_enabled_count_take_le(checks.deep_view(), i + 1);
            assert(checks.deep_view().take(i + 1).drop_last() =~= checks.deep_view().take(i as int));
            assert(checks.deep_view().take(i + 1).last() == checks.deep_view()[i as int]);
        }
        if checks[i].enabled {
            let result = run_check(&checks[i], &replies[j]);
            out.push(result);
            j += 1;
        }
        proof {
            assert(out.deep_view() =~= spec_run_all(checks.deep_view().take(i + 1), replies@));
        }
        i += 1;
    }
    proof {
        assert(checks.deep_view().take(n as int) =~= checks.deep_view());
    }
    out
}

/// One result per enabled check, in declared order: the evaluation of a
/// check list yields exactly as many results as there are enabled
/// checks, the k-th result being the k-th enabled check evaluated
/// against the k-th reply, and nothing for disabled checks.
pub proof fn lemma_run_all_per_enabled(checks: Seq<CheckConfigV>, replies: Seq<ProbeReply>)
    ensures
        spec_run_all(checks, replies).len() == enabled_count(checks),
        forall|k: int|
            0 <= k < enabled_count(checks) ==> spec_run_all(checks, replies)[k] == spec_run_check(
                checks.filter(|c: CheckConfigV| c.enabled)[k],
                replies[k],
            ),
    decreases checks.len(),
{
    reveal(Seq::filter);
    if checks.len() > 0 {
        lemma_run_all_per_enabled(checks.drop_last(), replies);
    }
}

} // verus!
