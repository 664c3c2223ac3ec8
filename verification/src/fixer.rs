//! Remediation: what can be fixed, with or without elevation, the write
//! each fix needs, and the outcome reported per attempt.
//!
//! The library classifies and plans; the write itself is the probe's
//! job, and its outcome comes back as a plain value.

use vstd::prelude::*;
use vstd::string::*;

use crate::checkers::view_res_u32;
use crate::config::{CheckConfig, CheckConfigV, CheckType};
use crate::power_plan::{
    mode_guid_for_key, scheme_guid_for_key, spec_mode_guid_for_key, spec_opt_or,
    spec_scheme_guid_for_key,
};
use crate::registry::{spec_parse_root_key, spec_requires_admin};
use crate::text::{contains_string, dec_str, parse_u32, parse_u32_spec, u32_to_string};

verus! {

/// Whether and how a failing check can be remediated.
#[derive(Debug, PartialEq)]
pub enum FixCapability {
    /// Fixable under current privileges.
    Direct,
    /// Fixable, but the write needs elevation.
    RequiresAdmin,
    /// Not automatically fixable, for the stated reason.
    Manual { reason: String },
}

/// Mathematical model of a `FixCapability`.
pub enum FixCapabilityV {
    Direct,
    RequiresAdmin,
    Manual { reason: Seq<char> },
}

impl DeepView for FixCapability {
    type V = FixCapabilityV;

    open spec fn deep_view(&self) -> FixCapabilityV {
        match self {
            FixCapability::Direct => FixCapabilityV::Direct,
            FixCapability::RequiresAdmin => FixCapabilityV::RequiresAdmin,
            FixCapability::Manual { reason } => FixCapabilityV::Manual {
                reason: reason.deep_view(),
            },
        }
    }
}

impl Clone for FixCapability {
    fn clone(&self) -> (r: Self)
        ensures
            r.deep_view() == self.deep_view(),
    {
        match self {
            FixCapability::Direct => FixCapability::Direct,
            FixCapability::RequiresAdmin => FixCapability::RequiresAdmin,
            FixCapability::Manual { reason } => FixCapability::Manual { reason: reason.clone() },
        }
    }
}

impl Default for FixCapability {
    /// The conservative default: not supported.
    fn default() -> (r: FixCapability)
        ensures
            r.deep_view() == (FixCapabilityV::Manual { reason: "Not supported"@ }),
    {
        FixCapability::Manual { reason: "Not supported".to_owned() }
    }
}

/// The capability of a check: power settings are directly fixable,
/// registry writes are direct under user hives and need elevation under
/// machine hives, a process can be terminated but not started, and
/// display settings are manual.
pub open spec fn spec_fix_capability(c: CheckConfigV) -> FixCapabilityV {
    match c.check_type {
        CheckType::PowerScheme => FixCapabilityV::Direct,
        CheckType::PowerMode => FixCapabilityV::Direct,
        CheckType::RegistryDword | CheckType::RegistryString => match c.registry_path {
            Some(p) => if spec_requires_admin(p) {
                FixCapabilityV::RequiresAdmin
            } else {
                FixCapabilityV::Direct
            },
            None => FixCapabilityV::Manual { reason: "No registry path configured"@ },
        },
        CheckType::ProcessAbsent => FixCapabilityV::Direct,
        CheckType::ProcessPresent => FixCapabilityV::Manual {
            reason: "Cannot auto-start applications"@,
        },
        CheckType::DisplayResolution | CheckType::DisplayRefreshRate | CheckType::HdrEnabled => FixCapabilityV::Manual {
            reason: "Display settings must be changed in Windows Settings"@,
        },
    }
}

/// Classify how a check can be remediated.
pub fn get_fix_capability(config: &CheckConfig) -> (r: FixCapability)
    ensures
        r.deep_view() == spec_fix_capability(config.deep_view()),
{
    match config.check_type {
        CheckType::PowerScheme => FixCapability::Direct,
        CheckType::PowerMode => FixCapability::Direct,
        CheckType::RegistryDword | CheckType::RegistryString => match &config.registry_path {
            Some(p) => {
                if crate::registry::requires_admin(p.as_str()) {
                    FixCapability::RequiresAdmin
                } else {
                    FixCapability::Direct
                }
            },
            None => FixCapability::Manual { reason: "No registry path configured".to_owned() },
        },
        CheckType::ProcessAbsent => FixCapability::Direct,
        CheckType::ProcessPresent => FixCapability::Manual {
            reason: "Cannot auto-start applications".to_owned(),
        },
        CheckType::DisplayResolution | CheckType::DisplayRefreshRate | CheckType::HdrEnabled => FixCapability::Manual {
            reason: "Display settings must be changed in Windows Settings".to_owned(),
        },
    }
}

/// The outcome of one fix attempt.
#[derive(Debug, PartialEq)]
pub struct FixResult {
    pub check_id: String,
    pub check_name: String,
    pub success: bool,
    pub message: String,
}

/// Mathematical model of a `FixResult`.
pub struct FixResultV {
    pub check_id: Seq<char>,
    pub check_name: Seq<char>,
    pub success: bool,
    pub message: Seq<char>,
}

impl DeepView for FixResult {
    type V = FixResultV;

    open spec fn deep_view(&self) -> FixResultV {
        FixResultV {
            check_id: self.check_id.deep_view(),
            check_name: self.check_name.deep_view(),
            success: self.success,
            message: self.message.deep_view(),
        }
    }
}

impl Clone for FixResult {
    fn clone(&self) -> (r: Self)
        ensures
            r == *self,
    {
        FixResult {
            check_id: self.check_id.clone(),
            check_name: self.check_name.clone(),
            success: self.success,
            message: self.message.clone(),
        }
    }
}

/// The write a fix needs.
#[derive(Debug, PartialEq)]
#[allow(inconsistent_fields)]
pub enum FixAction {
    /// Make this power scheme active.
    SetScheme { key: String, guid: u128 },
    /// Make this power mode overlay active.
    SetMode { key: String, guid: u128 },
    /// Write this registry DWORD value.
    WriteDword { path: String, key: String, value: u32 },
    /// Write this registry string value.
    WriteString { path: String, key: String, value: String },
    /// Terminate every process with this image name, case-insensitively.
    TerminateProcess { name: String },
}

/// Mathematical model of a `FixAction`.
#[allow(inconsistent_fields)]
pub enum FixActionV {
    SetScheme { key: Seq<char>, guid: u128 },
    SetMode { key: Seq<char>, guid: u128 },
    WriteDword { path: Seq<char>, key: Seq<char>, value: u32 },
    WriteString { path: Seq<char>, key: Seq<char>, value: Seq<char> },
    TerminateProcess { name: Seq<char> },
}

impl DeepView for FixAction {
    type V = FixActionV;

    open spec fn deep_view(&self) -> FixActionV {
        match self {
            FixAction::SetScheme { key, guid } => FixActionV::SetScheme {
                key: key.deep_view(),
                guid: *guid,
            },
            FixAction::SetMode { key, guid } => FixActionV::SetMode {
                key: key.deep_view(),
                guid: *guid,
            },
            FixAction::WriteDword { path, key, value } => FixActionV::WriteDword {
                path: path.deep_view(),
                key: key.deep_view(),
                value: *value,
            },
            FixAction::WriteString { path, key, value } => FixActionV::WriteString {
                path: path.deep_view(),
                key: key.deep_view(),
                value: value.deep_view(),
            },
            FixAction::TerminateProcess { name } => FixActionV::TerminateProcess {
                name: name.deep_view(),
            },
        }
    }
}

/// The write that fixes a check, or the message explaining why none
/// can: the power GUID its expected category selects, the registry
/// value its expected string denotes, or the process to terminate.
pub open spec fn spec_plan_fix(c: CheckConfigV) -> Result<FixActionV, Seq<char>> {
    match c.check_type {
        CheckType::PowerScheme => {
            let key = spec_opt_or(c.expected_value, "high_performance"@);
            match spec_scheme_guid_for_key(key) {
                Result::Ok(g) => Result::Ok(FixActionV::SetScheme { key, guid: g }),
                Result::Err(m) => Result::Err(m),
            }
        },
        CheckType::PowerMode => {
            let key = spec_opt_or(c.expected_value, "best_performance"@);
            match spec_mode_guid_for_key(key) {
                Result::Ok(g) => Result::Ok(FixActionV::SetMode { key, guid: g }),
                Result::Err(m) => Result::Err(m),
            }
        },
        CheckType::RegistryDword => match c.registry_path {
            None => Result::Err("No registry path configured"@),
            Some(p) => match c.registry_key {
                None => Result::Err("No registry key configured"@),
                Some(k) => {
                    let es = spec_opt_or(c.expected_value, "0"@);
                    match parse_u32_spec(es) {
                        None => Result::Err("Invalid DWORD value: "@ + es),
                        Some(v) => match spec_parse_root_key(p) {
                            None => Result::Err("Invalid registry path: "@ + p),
                            Some(_) => Result::Ok(
                                FixActionV::WriteDword { path: p, key: k, value: v },
                            ),
                        },
                    }
                },
            },
        },
        CheckType::RegistryString => match c.registry_path {
            None => Result::Err("No registry path configured"@),
            Some(p) => match c.registry_key {
                None => Result::Err("No registry key configured"@),
                Some(k) => {
                    let value = spec_opt_or(c.expected_value, Seq::<char>::empty());
                    match spec_parse_root_key(p) {
                        None => Result::Err("Invalid registry path: "@ + p),
                        Some(_) => Result::Ok(FixActionV::WriteString { path: p, key: k, value }),
                    }
                },
            },
        },
        CheckType::ProcessAbsent => match c.process_name {
            None => Result::Err("No process name configured"@),
            Some(n) => Result::Ok(FixActionV::TerminateProcess { name: n }),
        },
        CheckType::ProcessPresent => Result::Err("Cannot auto-start applications"@),
        CheckType::DisplayResolution | CheckType::DisplayRefreshRate | CheckType::HdrEnabled => Result::Err(
            "Display settings cannot be auto-fixed"@,
        ),
    }
}

/// Plan the write that fixes a check.
pub fn plan_fix(config: &CheckConfig) -> (r: Result<FixAction, String>)
    ensures
        match r {
            Result::Ok(a) => spec_plan_fix(config.deep_view()) matches Result::Ok(av) && a.deep_view()
                == av,
            Result::Err(m) => spec_plan_fix(config.deep_view()) matches Result::Err(mv)
                && m.deep_view() == mv,
        },
{
    match config.check_type {
        CheckType::PowerScheme => {
            let key: &str = match &config.expected_value {
                Some(s) => s.as_str(),
                None => "high_performance",
            };
            match scheme_guid_for_key(key) {
                Ok(g) => Ok(FixAction::SetScheme { key: key.to_owned(), guid: g }),
                Err(m) => Err(m),
            }
        },
        CheckType::PowerMode => {
            let key: &str = match &config.expected_value {
                Some(s) => s.as_str(),
                None => "best_performance",
            };
            match mode_guid_for_key(key) {
                Ok(g) => Ok(FixAction::SetMode { key: key.to_owned(), guid: g }),
                Err(m) => Err(m),
            }
        },
        CheckType::RegistryDword => {
            let path = match &config.registry_path {
                Some(p) => p,
                None => {
                    return Err("No registry path configured".to_owned());
                },
            };
            let key = match &config.registry_key {
                Some(k) => k,
                None => {
                    return Err("No registry key configured".to_owned());
                },
            };
            let es: &str = match &config.expected_value {
                Some(s) => s.as_str(),
                None => "0",
            };
            let value = match parse_u32(es) {
                Some(v) => v,
                None => {
                    let mut m = "Invalid DWORD value: ".to_owned();
                    m.append(es);
                    return Err(m);
                },
            };
            if crate::registry::parse_root_key(path.as_str()).is_none() {
                let mut m = "Invalid registry path: ".to_owned();
                m.append(path.as_str());
                return Err(m);
            }
            Ok(FixAction::WriteDword { path: path.clone(), key: key.clone(), value })
        },
        CheckType::RegistryString => {
            let path = match &config.registry_path {
                Some(p) => p,
                None => {
                    return Err("No registry path configured".to_owned());
                },
            };
            let key = match &config.registry_key {
                Some(k) => k,
                None => {
                    return Err("No registry key configured".to_owned());
                },
            };
            let value: String = match &config.expected_value {
                Some(s) => s.clone(),
                None => String::new(),
            };
            if crate::registry::parse_root_key(path.as_str()).is_none() {
                let mut m = "Invalid registry path: ".to_owned();
                m.append(path.as_str());
                return Err(m);
            }
            Ok(FixAction::WriteString { path: path.clone(), key: key.clone(), value })
        },
        CheckType::ProcessAbsent => match &config.process_name {
            Some(n) => Ok(FixAction::TerminateProcess { name: n.clone() }),
            None => Err("No process name configured".to_owned()),
        },
        CheckType::ProcessPresent => Err("Cannot auto-start applications".to_owned()),
        CheckType::DisplayResolution | CheckType::DisplayRefreshRate | CheckType::HdrEnabled => Err(
            "Display settings cannot be auto-fixed".to_owned(),
        ),
    }
}

/// The message of a successful fix: what was set, or how many process
/// instances were terminated — zero terminated is still success,
/// reported as nothing to fix.
pub open spec fn spec_success_message(a: FixActionV, count: u32) -> Seq<char> {
    match a {
        FixActionV::SetScheme { key, .. } => "Set power plan to "@ + key,
        FixActionV::SetMode { key, .. } => "Set power mode to "@ + key,
        FixActionV::WriteDword { key, value, .. } => "Set "@ + key + " to "@ + dec_str(value as nat),
        FixActionV::WriteString { key, value, .. } => "Set "@ + key + " to '"@ + value + "'"@,
        FixActionV::TerminateProcess { name } => if count > 0 {
            "Terminated "@ + dec_str(count as nat) + " instance(s) of "@ + name
        } else {
            name + " is not running"@
        },
    }
}

/// Render the message of a successful fix.
pub fn success_message(a: &FixAction, count: u32) -> (r: String)
    ensures
        r@ == spec_success_message(a.deep_view(), count),
{
    match a {
        FixAction::SetScheme { key, .. } => {
            let mut m = "Set power plan to ".to_owned();
            m.append(key.as_str());
            m
        },
        FixAction::SetMode { key, .. } => {
            let mut m = "Set power mode to ".to_owned();
            m.append(key.as_str());
            m
        },
        FixAction::WriteDword { key, value, .. } => {
            let mut m = "Set ".to_owned();
            m.append(key.as_str());
            m.append(" to ");
            let v = u32_to_string(*value);
            m.append(v.as_str());
            m
        },
        FixAction::WriteString { key, value, .. } => {
            let mut m = "Set ".to_owned();
            m.append(key.as_str());
            m.append(" to '");
            m.append(value.as_str());
            m.append("'");
            m
        },
        FixAction::TerminateProcess { name } => {
            if count > 0 {
                let mut m = "Terminated ".to_owned();
                let c = u32_to_string(count);
                m.append(c.as_str());
                m.append(" instance(s) of ");
                m.append(name.as_str());
                m
            } else {
                let mut m = name.clone();
                m.append(" is not running");
                m
            }
        },
    }
}

/// An unsuccessful fix outcome for a check, with its message.
pub open spec fn spec_fix_failure(c: CheckConfigV, message: Seq<char>) -> FixResultV {
    FixResultV { check_id: c.id, check_name: c.name, success: false, message }
}

/// A successful fix outcome for a check, with its message.
pub open spec fn spec_fix_success(c: CheckConfigV, message: Seq<char>) -> FixResultV {
    FixResultV { check_id: c.id, check_name: c.name, success: true, message }
}

/// The outcome of one fix attempt: a manual capability short-circuits
/// to failure with its reason; a plan that cannot be formed fails with
/// its message; otherwise the applied write's outcome decides, with
/// `applied` carrying the terminated-instance count for process fixes
/// and ignored by the message otherwise.
pub open spec fn spec_fix_check(c: CheckConfigV, applied: Result<u32, Seq<char>>) -> FixResultV {
    match spec_fix_capability(c) {
        FixCapabilityV::Manual { reason } => spec_fix_failure(c, "Cannot auto-fix: "@ + reason),
        _ => match spec_plan_fix(c) {
            Result::Err(m) => spec_fix_failure(c, m),
            Result::Ok(a) => match applied {
                Result::Ok(n) => spec_fix_success(c, spec_success_message(a, n)),
                Result::Err(m) => spec_fix_failure(c, m),
            },
        },
    }
}

/// Report one fix attempt: `applied` is the outcome of the planned
/// write, and is only consulted when the check's capability is not
/// manual and its plan could be formed.
pub fn fix_check(config: &CheckConfig, applied: &Result<u32, String>) -> (r: FixResult)
    ensures
        r.deep_view() == spec_fix_check(config.deep_view(), view_res_u32(*applied)),
{
    match get_fix_capability(config) {
        FixCapability::Manual { reason } => {
            let mut m = "Cannot auto-fix: ".to_owned();
            m.append(reason.as_str());
            FixResult {
                check_id: config.id.clone(),
                check_name: config.name.clone(),
                success: false,
                message: m,
            }
        },
        _ => match plan_fix(config) {
            Err(m) => FixResult {
                check_id: config.id.clone(),
                check_name: config.name.clone(),
                success: false,
                message: m,
            },
            Ok(action) => match applied {
                Ok(n) => FixResult {
                    check_id: config.id.clone(),
                    check_name: config.name.clone(),
                    success: true,
                    message: success_message(&action, *n),
                },
                Err(m) => FixResult {
                    check_id: config.id.clone(),
                    check_name: config.name.clone(),
                    success: false,
                    message: m.clone(),
                },
            },
        },
    }
}

/// Whether `id` occurs in a list of identifiers.
pub open spec fn spec_contains_id(ids: Seq<Seq<char>>, id: Seq<char>) -> bool {
    exists|i: int| 0 <= i < ids.len() && ids[i] == id
}

/// Whether a check is a fix target: enabled and among the failing
/// identifiers.
pub open spec fn spec_is_target(c: CheckConfigV, failing: Seq<Seq<char>>) -> bool {
    c.enabled && spec_contains_id(failing, c.id)
}

/// The fix targets of a list: its enabled checks whose identifiers are
/// failing, in declared order.
pub open spec fn spec_fix_targets(cs: Seq<CheckConfigV>, failing: Seq<Seq<char>>) -> Seq<
    CheckConfigV,
> {
    cs.filter(|c: CheckConfigV| spec_is_target(c, failing))
}

/// The outcomes of fixing every target of a list: one `FixResult` per
/// target, in declared order, the k-th target consuming the k-th
/// applied-write outcome.
pub open spec fn spec_fix_all(
    cs: Seq<CheckConfigV>,
    failing: Seq<Seq<char>>,
    outcomes: Seq<Result<u32, String>>,
) -> Seq<FixResultV>
    decreases cs.len(),
{
    if cs.len() == 0 {
        Seq::empty()
    } else {
        let prefix = spec_fix_all(cs.drop_last(), failing, outcomes);
        if spec_is_target(cs.last(), failing) {
            prefix.push(
                spec_fix_check(
                    cs.last(),
                    view_res_u32(outcomes[spec_fix_targets(cs.drop_last(), failing).len() as int]),
                ),
            )
        } else {
            prefix
        }
    }
}

proof fn lemma_targets_step(cs: Seq<CheckConfigV>, failing: Seq<Seq<char>>, i: int)
    requires
        0 <= i < cs.len(),
    ensures
        spec_fix_targets(cs.take(i + 1), failing) == if spec_is_target(cs[i], failing) {
            spec_fix_targets(cs.take(i), failing).push(cs[i])
        } else {
            spec_fix_targets(cs.take(i), failing)
        },
{
    reveal(Seq::filter);
    assert(cs.take(i + 1).drop_last() =~= cs.take(i));
    assert(cs.take(i + 1).last() == cs[i]);
}

proof fn lemma_targets_take_le(cs: Seq<CheckConfigV>, failing: Seq<Seq<char>>, i: int)
    requires
        0 <= i <= cs.len(),
    ensures
        spec_fix_targets(cs.take(i), failing).len() <= spec_fix_targets(cs, failing).len(),
    decreases cs.len() - i,
{
    if i == cs.len() {
        assert(cs.take(i) =~= cs);
    } else {
        lemma_targets_step(cs, failing, i);
        lemma_targets_take_le(cs, failing, i + 1);
    }
}

/// The fix targets of a list: its enabled checks whose identifiers are
/// failing, in declared order.
pub fn fix_targets(configs: &[CheckConfig], failing_ids: &[String]) -> (r: Vec<CheckConfig>)
    ensures
        r.deep_view() == spec_fix_targets(configs.deep_view(), failing_ids.deep_view()),
{
    let n = configs.len();
    let mut out: Vec<CheckConfig> = Vec::new();
    let mut i: usize = 0;
    proof {
        reveal(Seq::filter);
        assert(configs.deep_view().take(0) =~= Seq::<CheckConfigV>::empty());
    }
    while i < n
        invariant
            0 <= i <= n,
            n == configs@.len(),
            configs.deep_view().len() == n,
            out.deep_view() =~= spec_fix_targets(
                configs.deep_view().take(i as int),
                failing_ids.deep_view(),
            ),
        decreases n - i,
    {
        proof {
            lemma_targets_step(configs.deep_view(), failing_ids.deep_view(), i as int);
        }
        if configs[i].enabled && contains_string(failing_ids, configs[i].id.as_str()) {
            out.push(configs[i].clone());
            proof {
                assert(spec_is_target(configs.deep_view()[i as int], failing_ids.deep_view()));
            }
        } else {
            proof {
                assert(!spec_is_target(configs.deep_view()[i as int], failing_ids.deep_view()));
            }
        }
        proof {
            assert(out.deep_view() =~= spec_fix_targets(
                configs.deep_view().take(i + 1),
                failing_ids.deep_view(),
            ));
        }
        i += 1;
    }
    proof {
        assert(configs.deep_view().take(n as int) =~= configs.deep_view());
    }
    out
}

/// Fix every enabled check whose identifier is failing, independently:
/// one outcome per target, a single failure never blocking the rest.
/// The k-th element of `outcomes` is the applied-write outcome for the
/// k-th target.
pub fn fix_all(
    configs: &[CheckConfig],
    failing_ids: &[String],
    outcomes: &Vec<Result<u32, String>>,
) -> (r: Vec<FixResult>)
    requires
        outcomes@.len() == spec_fix_targets(configs.deep_view(), failing_ids.deep_view()).len(),
    ensures
        r.deep_view() == spec_fix_all(configs.deep_view(), failing_ids.deep_view(), outcomes@),
{
    let n = configs.len();
    let mut out: Vec<FixResult> = Vec::new();
    let mut i: usize = 0;
    let mut j: usize = 0;
    proof {
        reveal(Seq::filter);
        assert(configs.deep_view().take(0) =~= Seq::<CheckConfigV>::empty());
        assert(spec_fix_all(configs.deep_view().take(0), failing_ids.deep_view(), outcomes@)
            =~= Seq::<FixResultV>::empty());
    }
    while i < n
        invariant
            0 <= i <= n,
            n == configs@.len(),
            configs.deep_view().len() == n,
            outcomes@.len() == spec_fix_targets(configs.deep_view(), failing_ids.deep_view()).len(),
            j == spec_fix_targets(configs.deep_view().take(i as int), failing_ids.deep_view()).len(),
            out.deep_view() =~= spec_fix_all(
                configs.deep_view().take(i as int),
                failing_ids.deep_view(),
                outcomes@,
            ),
        decreases n - i,
    {
        proof {
            lemma_targets_step(configs.deep_view(), failing_ids.deep_view(), i as int);
            lemma_targets_take_le(configs.deep_view(), failing_ids.deep_view(), i + 1);
            assert(configs.deep_view().take(i + 1).drop_last() =~= configs.deep_view().take(
                i as int,
            ));
            assert(configs.deep_view().take(i + 1).last() == configs.deep_view()[i as int]);
        }
        if configs[i].enabled && contains_string(failing_ids, configs[i].id.as_str()) {
            proof {
                assert(spec_is_target(configs.deep_view()[i as int], failing_ids.deep_view()));
            }
            let result = fix_check(&configs[i], &outcomes[j]);
            out.push(result);
            j += 1;
        } else {
            proof {
                assert(!spec_is_target(configs.deep_view()[i as int], failing_ids.deep_view()));
            }
        }
        proof {
            assert(out.deep_view() =~= spec_fix_all(
                configs.deep_view().take(i + 1),
                failing_ids.deep_view(),
                outcomes@,
            ));
        }
        i += 1;
    }
    proof {
        assert(configs.deep_view().take(n as int) =~= configs.deep_view());
    }
    out
}

/// Whether any fix target needs elevation.
pub fn any_require_admin(configs: &[CheckConfig], failing_ids: &[String]) -> (r: bool)
    ensures
        r == exists|i: int|
            0 <= i < configs.deep_view().len() && spec_is_target(
                #[trigger] configs.deep_view()[i],
                failing_ids.deep_view(),
            ) && spec_fix_capability(configs.deep_view()[i]) is RequiresAdmin,
{
    let n = configs.len();
    let mut i: usize = 0;
    while i < n
        invariant
            0 <= i <= n,
            n == configs@.len(),
            configs.deep_view().len() == n,
            forall|k: int|
                0 <= k < i ==> !(spec_is_target(
                    #[trigger] configs.deep_view()[k],
                    failing_ids.deep_view(),
                ) && spec_fix_capability(configs.deep_view()[k]) is RequiresAdmin),
        decreases n - i,
    {
        if contains_string(failing_ids, configs[i].id.as_str()) && configs[i].enabled {
            let cap = get_fix_capability(&configs[i]);
            if let FixCapability::RequiresAdmin = cap {
                proof {
                    assert(spec_is_target(configs.deep_view()[i as int], failing_ids.deep_view())
                        && spec_fix_capability(configs.deep_view()[i as int]) is RequiresAdmin);
                }
                return true;
            }
        }
        i += 1;
    }
    false
}

/// The fixable counts of a failing set, by capability: how many
/// targets are direct, need elevation, or are manual.
pub open spec fn spec_fix_counts(cs: Seq<CheckConfigV>, failing: Seq<Seq<char>>) -> (int, int, int)
    decreases cs.len(),
{
    if cs.len() == 0 {
        (0, 0, 0)
    } else {
        let prefix = spec_fix_counts(cs.drop_last(), failing);
        if spec_is_target(cs.last(), failing) {
            match spec_fix_capability(cs.last()) {
                FixCapabilityV::Direct => (prefix.0 + 1, prefix.1, prefix.2),
                FixCapabilityV::RequiresAdmin => (prefix.0, prefix.1 + 1, prefix.2),
                FixCapabilityV::Manual { .. } => (prefix.0, prefix.1, prefix.2 + 1),
            }
        } else {
            prefix
        }
    }
}

/// Count the fix targets by capability, without running anything:
/// (direct, requires-elevation, manual).
pub fn get_fix_counts(configs: &[CheckConfig], failing_ids: &[String]) -> (r: (usize, usize, usize))
    ensures
        ({
            let c = spec_fix_counts(configs.deep_view(), failing_ids.deep_view());
            r.0 == c.0 && r.1 == c.1 && r.2 == c.2
        }),
{
    let n = configs.len();
    let mut direct: usize = 0;
    let mut admin: usize = 0;
    let mut manual: usize = 0;
    let mut i: usize = 0;
    proof {
        assert(configs.deep_view().take(0) =~= Seq::<CheckConfigV>::empty());
    }
    while i < n
        invariant
            0 <= i <= n,
            n == configs@.len(),
            configs.deep_view().len() == n,
            direct + admin + manual <= i,
            ({
                let c = spec_fix_counts(configs.deep_view().take(i as int), failing_ids.deep_view());
                direct == c.0 && admin == c.1 && manual == c.2
            }),
        decreases n - i,
    {
        proof {
            assert(configs.deep_view().take(i + 1).drop_last() =~= configs.deep_view().take(
                i as int,
            ));
            assert(configs.deep_view().take(i + 1).last() == configs.deep_view()[i as int]);
        }
        if contains_string(failing_ids, configs[i].id.as_str()) && configs[i].enabled {
            proof {
                assert(spec_is_target(configs.deep_view()[i as int], failing_ids.deep_view()));
            }
            match get_fix_capability(&configs[i]) {
                FixCapability::Direct => {
                    direct += 1;
                },
                FixCapability::RequiresAdmin => {
                    admin += 1;
                },
                FixCapability::Manual { .. } => {
                    manual += 1;
                },
            }
        } else {
            proof {
                assert(!spec_is_target(configs.deep_view()[i as int], failing_ids.deep_view()));
            }
        }
        i += 1;
    }
    proof {
        assert(configs.deep_view().take(n as int) =~= configs.deep_view());
    }
    (direct, admin, manual)
}

} // verus!
