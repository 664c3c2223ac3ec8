//! Registry checks: path parsing, privilege classification, and the
//! comparison of probed values against expectations.
//!
//! Reading and writing the registry itself is the probe's job; the
//! library receives the outcome as a plain value.

use vstd::prelude::*;

use crate::checkers::{
    spec_error_result, spec_fail_result, spec_pass_result, CheckResult, CheckResultV,
};
use crate::config::{CheckConfig, CheckConfigV};
use crate::power_plan::spec_opt_or;
use crate::text::{dec_str, is_prefix_of, str_eq, strip_prefix, u32_to_string};

verus! {

/// The registry hive a path lives under.
#[derive(Clone, Copy, Debug, PartialEq, Eq, Structural)]
pub enum RegistryRoot {
    CurrentUser,
    LocalMachine,
}

/// Split a registry path into its hive and the subkey below it, when
/// the path starts with a recognized hive prefix.
pub open spec fn spec_parse_root_key(p: Seq<char>) -> Option<(RegistryRoot, Seq<char>)> {
    if is_prefix_of("HKCU\\"@, p) {
        Some((RegistryRoot::CurrentUser, p.skip("HKCU\\"@.len() as int)))
    } else if is_prefix_of("HKEY_CURRENT_USER\\"@, p) {
        Some((RegistryRoot::CurrentUser, p.skip("HKEY_CURRENT_USER\\"@.len() as int)))
    } else if is_prefix_of("HKLM\\"@, p) {
        Some((RegistryRoot::LocalMachine, p.skip("HKLM\\"@.len() as int)))
    } else if is_prefix_of("HKEY_LOCAL_MACHINE\\"@, p) {
        Some((RegistryRoot::LocalMachine, p.skip("HKEY_LOCAL_MACHINE\\"@.len() as int)))
    } else {
        None
    }
}

/// Split a registry path into its hive and the subkey below it.
pub fn parse_root_key(path: &str) -> (r: Option<(RegistryRoot, String)>)
    ensures
        match r {
            Some(p) => spec_parse_root_key(path@) == Some((p.0, p.1.deep_view())),
            None => spec_parse_root_key(path@) is None,
        },
{
    if let Some(rest) = strip_prefix(path, "HKCU\\") {
        return Some((RegistryRoot::CurrentUser, rest));
    }
    if let Some(rest) = strip_prefix(path, "HKEY_CURRENT_USER\\") {
        return Some((RegistryRoot::CurrentUser, rest));
    }
    if let Some(rest) = strip_prefix(path, "HKLM\\") {
        return Some((RegistryRoot::LocalMachine, rest));
    }
    if let Some(rest) = strip_prefix(path, "HKEY_LOCAL_MACHINE\\") {
        return Some((RegistryRoot::LocalMachine, rest));
    }
    None
}

/// Whether writes under this path need elevated privileges: machine-wide
/// hives do, user hives do not.
pub open spec fn spec_requires_admin(p: Seq<char>) -> bool {
    is_prefix_of("HKLM\\"@, p) || is_prefix_of("HKEY_LOCAL_MACHINE\\"@, p)
}

/// Whether writes under this path need elevated privileges.
pub fn requires_admin(path: &str) -> (r: bool)
    ensures
        r == spec_requires_admin(path@),
{
    crate::text::has_prefix(path, "HKLM\\") || crate::text::has_prefix(path, "HKEY_LOCAL_MACHINE\\")
}

/// The result of a DWORD registry check for a probed value: an error
/// result when the check is missing its parameters, names an
/// unrecognized hive, or the probe failed; otherwise pass exactly when
/// the value's decimal form equals the expected string.
pub open spec fn spec_check_dword(c: CheckConfigV, probe: Result<u32, Seq<char>>) -> CheckResultV {
    match c.registry_path {
        None => spec_error_result(c.id, c.name, "Missing registry_path in config"@),
        Some(path) => match c.registry_key {
            None => spec_error_result(c.id, c.name, "Missing registry_key in config"@),
            Some(_) => {
                let expected = spec_opt_or(c.expected_value, "0"@);
                match spec_parse_root_key(path) {
                    None => spec_error_result(c.id, c.name, "Invalid registry path: "@ + path),
                    Some(_) => match probe {
                        Result::Err(e) => spec_error_result(c.id, c.name, e),
                        Result::Ok(v) => if dec_str(v as nat) == expected {
                            spec_pass_result(c.id, c.name, dec_str(v as nat), expected)
                        } else {
                            spec_fail_result(c.id, c.name, dec_str(v as nat), expected)
                        },
                    },
                }
            },
        },
    }
}

/// Evaluate a DWORD registry check against the probed value.
pub fn check_dword(config: &CheckConfig, probe: &Result<u32, String>) -> (r: CheckResult)
    ensures
        r.deep_view() == spec_check_dword(
            config.deep_view(),
            crate::checkers::view_res_u32(*probe),
        ),
{
    let path = match &config.registry_path {
        Some(p) => p,
        None => {
            return CheckResult::error(
                config.id.as_str(),
                config.name.as_str(),
                "Missing registry_path in config",
            );
        },
    };
    let _key = match &config.registry_key {
        Some(k) => k,
        None => {
            return CheckResult::error(
                config.id.as_str(),
                config.name.as_str(),
                "Missing registry_key in config",
            );
        },
    };
    let expected: &str = match &config.expected_value {
        Some(s) => s.as_str(),
        None => "0",
    };
    if parse_root_key(path.as_str()).is_none() {
        let mut m = "Invalid registry path: ".to_owned();
        m.append(path.as_str());
        return CheckResult::error(config.id.as_str(), config.name.as_str(), m.as_str());
    }
    match probe {
        Err(e) => CheckResult::error(config.id.as_str(), config.name.as_str(), e.as_str()),
        Ok(v) => {
            let current = u32_to_string(*v);
            if str_eq(current.as_str(), expected) {
                CheckResult::pass(config.id.as_str(), config.name.as_str(), current.as_str(), expected)
            } else {
                CheckResult::fail(config.id.as_str(), config.name.as_str(), current.as_str(), expected)
            }
        },
    }
}

/// The result of a string registry check for a probed value: as the
/// DWORD form, with exact string comparison and an empty-string default.
pub open spec fn spec_check_string(c: CheckConfigV, probe: Result<Seq<char>, Seq<char>>) -> CheckResultV {
    match c.registry_path {
        None => spec_error_result(c.id, c.name, "Missing registry_path in config"@),
        Some(path) => match c.registry_key {
            None => spec_error_result(c.id, c.name, "Missing registry_key in config"@),
            Some(_) => {
                let expected = spec_opt_or(c.expected_value, Seq::<char>::empty());
                match spec_parse_root_key(path) {
                    None => spec_error_result(c.id, c.name, "Invalid registry path: "@ + path),
                    Some(_) => match probe {
                        Result::Err(e) => spec_error_result(c.id, c.name, e),
                        Result::Ok(v) => if v == expected {
                            spec_pass_result(c.id, c.name, v, expected)
                        } else {
                            spec_fail_result(c.id, c.name, v, expected)
                        },
                    },
                }
            },
        },
    }
}

/// Evaluate a string registry check against the probed value.
pub fn check_string(config: &CheckConfig, probe: &Result<String, String>) -> (r: CheckResult)
    ensures
        r.deep_view() == spec_check_string(
            config.deep_view(),
            crate::checkers::view_res_text(*probe),
        ),
{
    let path = match &config.registry_path {
        Some(p) => p,
        None => {
            return CheckResult::error(
                config.id.as_str(),
                config.name.as_str(),
                "Missing registry_path in config",
            );
        },
    };
    let _key = match &config.registry_key {
        Some(k) => k,
        None => {
            return CheckResult::error(
                config.id.as_str(),
                config.name.as_str(),
                "Missing registry_key in config",
            );
        },
    };
    let expected: &str = match &config.expected_value {
        Some(s) => s.as_str(),
        None => "",
    };
    proof {
        reveal_strlit("");
        assert(""@ =~= Seq::<char>::empty());
    }
    if parse_root_key(path.as_str()).is_none() {
        let mut m = "Invalid registry path: ".to_owned();
        m.append(path.as_str());
        return CheckResult::error(config.id.as_str(), config.name.as_str(), m.as_str());
    }
    match probe {
        Err(e) => CheckResult::error(config.id.as_str(), config.name.as_str(), e.as_str()),
        Ok(v) => {
            if str_eq(v.as_str(), expected) {
                CheckResult::pass(config.id.as_str(), config.name.as_str(), v.as_str(), expected)
            } else {
                CheckResult::fail(config.id.as_str(), config.name.as_str(), v.as_str(), expected)
            }
        },
    }
}

/// The UTF-16 code units of one character.
pub open spec fn utf16_units(c: char) -> Seq<u16> {
    let v = c as u32;
    if v < 0x10000 {
        seq![v as u16]
    } else {
        seq![
            (0xD800 + (v - 0x10000) / 0x400) as u16,
            (0xDC00 + (v - 0x10000) % 0x400) as u16,
        ]
    }
}

/// The UTF-16 encoding of a string.
pub open spec fn spec_utf16(s: Seq<char>) -> Seq<u16>
    decreases s.len(),
{
    if s.len() == 0 {
        Seq::empty()
    } else {
        spec_utf16(s.drop_last()) + utf16_units(s.last())
    }
}

/// Encode a string as the nul-terminated wide form the platform API
/// takes.
pub fn to_wide(s: &str) -> (r: Vec<u16>)
    ensures
        r@ == spec_utf16(s@).push(0u16),
{
    let n = s.unicode_len();
    let mut out: Vec<u16> = Vec::new();
    let mut i: usize = 0;
    proof {
        assert(s@.take(0) =~= Seq::<char>::empty());
        assert(out@ =~= spec_utf16(s@.take(0)));
    }
    while i < n
        invariant
            0 <= i <= n,
            n == s@.len(),
            out@ == spec_utf16(s@.take(i as int)),
        decreases n - i,
    {
        proof {
            assert(s@.take(i + 1).drop_last() =~= s@.take(i as int));
            assert(s@.take(i + 1).last() == s@[i as int]);
        }
        let c = s.get_char(i);
        let v = c as u32;
        if v < 0x10000 {
            out.push(v as u16);
            proof {
                assert(out@ =~= spec_utf16(s@.take(i as int)) + utf16_units(s@[i as int]));
            }
        } else {
            let off = v - 0x10000;
            proof {
                assert(off <= 0xFFFFF);
                assert(off / 0x400 <= 0x3FF) by (nonlinear_arith)
                    requires
                        off <= 0xFFFFF,
                ;
                assert(off % 0x400 <= 0x3FF) by (nonlinear_arith);
            }
            out.push((0xD800 + off / 0x400) as u16);
            out.push((0xDC00 + off % 0x400) as u16);
            proof {
                assert(out@ =~= spec_utf16(s@.take(i as int)) + utf16_units(s@[i as int]));
            }
        }
        i += 1;
    }
    proof {
        assert(s@.take(n as int) =~= s@);
    }
    out.push(0);
    out
}

} // verus!
