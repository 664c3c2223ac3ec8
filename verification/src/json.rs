//! The configuration file format: a JSON document model, the decoding
//! of either schema out of it, and the encoding of the current schema
//! into it.
//!
//! Reading and writing text is the caller's job; the library defines
//! what the document means.

use vstd::prelude::*;
use vstd::string::*;

use crate::config::{
    has_scenario_id, scenario_ids_unique, CheckConfig, CheckConfigV, CheckType, Config, ConfigError,
    ConfigM, ConfigRoot, ConfigRootV, ConfigV1, ConfigV1V, ConfigV2, ConfigV2V, Scenario,
    ScenarioEntry, ScenarioEntryV, ScenarioV, spec_root_v2,
};

verus! {

/// A JSON document.  Configuration documents hold only unsigned
/// integers, so numbers are modelled as such.
#[derive(Debug, PartialEq)]
pub enum Json {
    Null,
    Bool(bool),
    UInt(u64),
    Str(String),
    Arr(Vec<Json>),
    Obj(Vec<(String, Json)>),
}

/// The value under `key` in an object's field list: the first field
/// with that name.
pub open spec fn obj_get(fields: Seq<(String, Json)>, key: Seq<char>) -> Option<Json>
    decreases fields.len(),
{
    if fields.len() == 0 {
        None
    } else if fields[0].0.deep_view() == key {
        Some(fields[0].1)
    } else {
        obj_get(fields.drop_first(), key)
    }
}

/// The value under `key`, when `j` is an object that has it.
pub open spec fn json_get(j: Json, key: Seq<char>) -> Option<Json> {
    match j {
        Json::Obj(fields) => obj_get(fields@, key),
        _ => None,
    }
}

/// The string content of a looked-up value, when it is a string.
pub open spec fn as_str(o: Option<Json>) -> Option<Seq<char>> {
    match o {
        Some(Json::Str(s)) => Some(s.deep_view()),
        _ => None,
    }
}

/// The number of a looked-up value, when it is a number.
pub open spec fn as_u64(o: Option<Json>) -> Option<u64> {
    match o {
        Some(Json::UInt(n)) => Some(n),
        _ => None,
    }
}

/// The truth value of a looked-up value, when it is a boolean.
pub open spec fn as_bool(o: Option<Json>) -> Option<bool> {
    match o {
        Some(Json::Bool(b)) => Some(b),
        _ => None,
    }
}

/// The elements of a looked-up value, when it is an array.
pub open spec fn as_arr(o: Option<Json>) -> Option<Seq<Json>> {
    match o {
        Some(Json::Arr(items)) => Some(items@),
        _ => None,
    }
}

/// The fields of a looked-up value, when it is an object.
pub open spec fn as_obj(o: Option<Json>) -> Option<Seq<(String, Json)>> {
    match o {
        Some(Json::Obj(fields)) => Some(fields@),
        _ => None,
    }
}

/// An optional string field: absent is a valid `None`, a string is a
/// valid `Some`, any other shape is invalid.
pub open spec fn parse_opt_str(o: Option<Json>) -> Option<Option<Seq<char>>> {
    match o {
        None => Some(None),
        Some(Json::Str(s)) => Some(Some(s.deep_view())),
        Some(_) => None,
    }
}

/// Look up a key in an object's field list.
fn obj_lookup<'a>(fields: &'a Vec<(String, Json)>, key: &str) -> (r: Option<&'a Json>)
    ensures
        match r {
            Some(v) => obj_get(fields@, key@) == Some(*v),
            None => obj_get(fields@, key@) is None,
        },
{
    let n = fields.len();
    let mut i: usize = 0;
    proof {
        assert(fields@.skip(0) =~= fields@);
    }
    while i < n
        invariant
            0 <= i <= n,
            n == fields@.len(),
            obj_get(fields@.skip(i as int), key@) == obj_get(fields@, key@),
        decreases n - i,
    {
        proof {
            assert(fields@.skip(i as int)[0] == fields@[i as int]);
            assert(fields@.skip(i as int).drop_first() =~= fields@.skip(i + 1));
        }
        if crate::text::str_eq(fields[i].0.as_str(), key) {
            return Some(&fields[i].1);
        }
        i += 1;
    }
    proof {
        assert(fields@.skip(n as int) =~= Seq::<(String, Json)>::empty());
    }
    None
}

/// The serialized name of a check kind.
pub open spec fn spec_kind_name(t: CheckType) -> Seq<char> {
    match t {
        CheckType::PowerScheme => "power_scheme"@,
        CheckType::PowerMode => "power_mode"@,
        CheckType::RegistryDword => "registry_dword"@,
        CheckType::RegistryString => "registry_string"@,
        CheckType::ProcessAbsent => "process_absent"@,
        CheckType::ProcessPresent => "process_present"@,
        CheckType::DisplayResolution => "display_resolution"@,
        CheckType::DisplayRefreshRate => "display_refresh_rate"@,
        CheckType::HdrEnabled => "hdr_enabled"@,
    }
}

/// The serialized name of a check kind.
pub fn kind_name(t: CheckType) -> (r: &'static str)
    ensures
        r@ == spec_kind_name(t),
{
    match t {
        CheckType::PowerScheme => "power_scheme",
        CheckType::PowerMode => "power_mode",
        CheckType::RegistryDword => "registry_dword",
        CheckType::RegistryString => "registry_string",
        CheckType::ProcessAbsent => "process_absent",
        CheckType::ProcessPresent => "process_present",
        CheckType::DisplayResolution => "display_resolution",
        CheckType::DisplayRefreshRate => "display_refresh_rate",
        CheckType::HdrEnabled => "hdr_enabled",
    }
}

/// The check kind a serialized name denotes, if any.
pub open spec fn spec_kind_of_name(s: Seq<char>) -> Option<CheckType> {
    if s == "power_scheme"@ {
        Some(CheckType::PowerScheme)
    } else if s == "power_mode"@ {
        Some(CheckType::PowerMode)
    } else if s == "registry_dword"@ {
        Some(CheckType::RegistryDword)
    } else if s == "registry_string"@ {
        Some(CheckType::RegistryString)
    } else if s == "process_absent"@ {
        Some(CheckType::ProcessAbsent)
    } else if s == "process_present"@ {
        Some(CheckType::ProcessPresent)
    } else if s == "display_resolution"@ {
        Some(CheckType::DisplayResolution)
    } else if s == "display_refresh_rate"@ {
        Some(CheckType::DisplayRefreshRate)
    } else if s == "hdr_enabled"@ {
        Some(CheckType::HdrEnabled)
    } else {
        None
    }
}

/// The check kind a serialized name denotes, if any.
pub fn kind_of_name(s: &str) -> (r: Option<CheckType>)
    ensures
        r == spec_kind_of_name(s@),
{
    if crate::text::str_eq(s, "power_scheme") {
        Some(CheckType::PowerScheme)
    } else if crate::text::str_eq(s, "power_mode") {
        Some(CheckType::PowerMode)
    } else if crate::text::str_eq(s, "registry_dword") {
        Some(CheckType::RegistryDword)
    } else if crate::text::str_eq(s, "registry_string") {
        Some(CheckType::RegistryString)
    } else if crate::text::str_eq(s, "process_absent") {
        Some(CheckType::ProcessAbsent)
    } else if crate::text::str_eq(s, "process_present") {
        Some(CheckType::ProcessPresent)
    } else if crate::text::str_eq(s, "display_resolution") {
        Some(CheckType::DisplayResolution)
    } else if crate::text::str_eq(s, "display_refresh_rate") {
        Some(CheckType::DisplayRefreshRate)
    } else if crate::text::str_eq(s, "hdr_enabled") {
        Some(CheckType::HdrEnabled)
    } else {
        None
    }
}

/// Serialized kind names decode back to their kind.
pub proof fn lemma_kind_name_round_trip(t: CheckType)
    ensures
        spec_kind_of_name(spec_kind_name(t)) == Some(t),
{
    reveal_strlit("power_scheme");
    reveal_strlit("power_mode");
    reveal_strlit("registry_dword");
    reveal_strlit("registry_string");
    reveal_strlit("process_absent");
    reveal_strlit("process_present");
    reveal_strlit("display_resolution");
    reveal_strlit("display_refresh_rate");
    reveal_strlit("hdr_enabled");
    assert("power_scheme"@.len() == 12);
    assert("power_mode"@.len() == 10);
    assert("registry_dword"@.len() == 14);
    assert("registry_string"@.len() == 15);
    assert("process_absent"@.len() == 14);
    assert("process_present"@.len() == 15);
    assert("display_resolution"@.len() == 18);
    assert("display_refresh_rate"@.len() == 20);
    assert("hdr_enabled"@.len() == 11);
    assert("process_absent"@[0] == 'p' && "registry_dword"@[0] == 'r');
    assert("process_present"@[0] == 'p' && "registry_string"@[0] == 'r');
    match t {
        CheckType::PowerScheme => {
            assert(spec_kind_of_name("power_scheme"@) == Some(CheckType::PowerScheme));
        },
        CheckType::PowerMode => {
            assert(spec_kind_of_name("power_mode"@) == Some(CheckType::PowerMode));
        },
        CheckType::RegistryDword => {
            assert(spec_kind_of_name("registry_dword"@) == Some(CheckType::RegistryDword));
        },
        CheckType::RegistryString => {
            assert(spec_kind_of_name("registry_string"@) == Some(CheckType::RegistryString));
        },
        CheckType::ProcessAbsent => {
            assert(spec_kind_of_name("process_absent"@) == Some(CheckType::ProcessAbsent));
        },
        CheckType::ProcessPresent => {
            assert(spec_kind_of_name("process_present"@) == Some(CheckType::ProcessPresent));
        },
        CheckType::DisplayResolution => {
            assert(spec_kind_of_name("display_resolution"@) == Some(CheckType::DisplayResolution));
        },
        CheckType::DisplayRefreshRate => {
            assert(spec_kind_of_name("display_refresh_rate"@) == Some(
                CheckType::DisplayRefreshRate,
            ));
        },
        CheckType::HdrEnabled => {
            assert(spec_kind_of_name("hdr_enabled"@) == Some(CheckType::HdrEnabled));
        },
    }
}

/// The check a JSON value describes, if it is a well-formed check
/// object: `id`, `name` and a known `check_type` are required,
/// `enabled` defaults to false when absent, and the remaining fields
/// are optional strings.
pub open spec fn parse_check(j: Json) -> Option<CheckConfigV> {
    if !(j matches Json::Obj(_)) {
        None
    } else {
        let id = as_str(json_get(j, "id"@));
        let name = as_str(json_get(j, "name"@));
        let kind_s = as_str(json_get(j, "check_type"@));
        let enabled = match json_get(j, "enabled"@) {
            None => Some(false),
            Some(Json::Bool(b)) => Some(b),
            Some(_) => None,
        };
        let rp = parse_opt_str(json_get(j, "registry_path"@));
        let rk = parse_opt_str(json_get(j, "registry_key"@));
        let pn = parse_opt_str(json_get(j, "process_name"@));
        let ev = parse_opt_str(json_get(j, "expected_value"@));
        if id is Some && name is Some && kind_s is Some && spec_kind_of_name(kind_s->0) is Some
            && enabled is Some && rp is Some && rk is Some && pn is Some && ev is Some {
            Some(
                CheckConfigV {
                    id: id->0,
                    name: name->0,
                    check_type: spec_kind_of_name(kind_s->0)->0,
                    enabled: enabled->0,
                    registry_path: rp->0,
                    registry_key: rk->0,
                    process_name: pn->0,
                    expected_value: ev->0,
                },
            )
        } else {
            None
        }
    }
}

/// The parse failure reported when a document does not fit either
/// schema.
fn parse_error() -> (r: ConfigError)
    ensures
        r matches ConfigError::Parse(_),
{
    ConfigError::Parse("Failed to parse config JSON".to_owned())
}

/// Decode one check object.
pub fn decode_check(j: &Json) -> (r: Result<CheckConfig, ConfigError>)
    ensures
        match r {
            Ok(c) => parse_check(*j) == Some(c.deep_view()),
            Err(e) => parse_check(*j) is None && e matches ConfigError::Parse(_),
        },
{
    let fields = match j {
        Json::Obj(fields) => fields,
        _ => {
            return Err(parse_error());
        },
    };
    let id = match obj_lookup(fields, "id") {
        Some(Json::Str(s)) => s.clone(),
        _ => {
            return Err(parse_error());
        },
    };
    let name = match obj_lookup(fields, "name") {
        Some(Json::Str(s)) => s.clone(),
        _ => {
            return Err(parse_error());
        },
    };
    let check_type = match obj_lookup(fields, "check_type") {
        Some(Json::Str(s)) => match kind_of_name(s.as_str()) {
            Some(t) => t,
            None => {
                return Err(parse_error());
            },
        },
        _ => {
            return Err(parse_error());
        },
    };
    let enabled = match obj_lookup(fields, "enabled") {
        None => false,
        Some(Json::Bool(b)) => *b,
        Some(_) => {
            return Err(parse_error());
        },
    };
    let registry_path = match obj_lookup(fields, "registry_path") {
        None => None,
        Some(Json::Str(s)) => Some(s.clone()),
        Some(_) => {
            return Err(parse_error());
        },
    };
    let registry_key = match obj_lookup(fields, "registry_key") {
        None => None,
        Some(Json::Str(s)) => Some(s.clone()),
        Some(_) => {
            return Err(parse_error());
        },
    };
    let process_name = match obj_lookup(fields, "process_name") {
        None => None,
        Some(Json::Str(s)) => Some(s.clone()),
        Some(_) => {
            return Err(parse_error());
        },
    };
    let expected_value = match obj_lookup(fields, "expected_value") {
        None => None,
        Some(Json::Str(s)) => Some(s.clone()),
        Some(_) => {
            return Err(parse_error());
        },
    };
    Ok(
        CheckConfig {
            id,
            name,
            check_type,
            enabled,
            registry_path,
            registry_key,
            process_name,
            expected_value,
        },
    )
}

/// The checks an array describes, when every element is a well-formed
/// check object.
pub open spec fn parse_checks(items: Seq<Json>) -> Option<Seq<CheckConfigV>>
    decreases items.len(),
{
    if items.len() == 0 {
        Some(Seq::empty())
    } else {
        match parse_checks(items.drop_last()) {
            None => None,
            Some(prefix) => match parse_check(items.last()) {
                None => None,
                Some(c) => Some(prefix.push(c)),
            },
        }
    }
}

proof fn lemma_parse_checks_prefix_none(items: Seq<Json>, k: int)
    requires
        0 <= k <= items.len(),
        parse_checks(items.take(k)) is None,
    ensures
        parse_checks(items) is None,
    decreases items.len() - k,
{
    if k == items.len() {
        assert(items.take(k) =~= items);
    } else {
        assert(items.take(k + 1).drop_last() =~= items.take(k));
        lemma_parse_checks_prefix_none(items, k + 1);
    }
}

/// Decode an array of check objects.
pub fn decode_checks(items: &Vec<Json>) -> (r: Result<Vec<CheckConfig>, ConfigError>)
    ensures
        match r {
            Ok(cs) => parse_checks(items@) == Some(cs.deep_view()),
            Err(e) => parse_checks(items@) is None && e matches ConfigError::Parse(_),
        },
{
    let n = items.len();
    let mut out: Vec<CheckConfig> = Vec::new();
    let mut i: usize = 0;
    proof {
        assert(items@.take(0) =~= Seq::<Json>::empty());
        assert(out.deep_view() =~= Seq::<CheckConfigV>::empty());
    }
    while i < n
        invariant
            0 <= i <= n,
            n == items@.len(),
            parse_checks(items@.take(i as int)) == Some(out.deep_view()),
        decreases n - i,
    {
        proof {
            assert(items@.take(i + 1).drop_last() =~= items@.take(i as int));
            assert(items@.take(i + 1).last() == items@[i as int]);
        }
        match decode_check(&items[i]) {
            Ok(c) => {
                out.push(c);
                proof {
                    assert(parse_checks(items@.take(i + 1)) == Some(out.deep_view()));
                }
            },
            Err(e) => {
                proof {
                    lemma_parse_checks_prefix_none(items@, i + 1);
                }
                return Err(e);
            },
        }
        i += 1;
    }
    proof {
        assert(items@.take(n as int) =~= items@);
    }
    Ok(out)
}

/// The scenario a JSON value describes, if it is a well-formed scenario
/// object: every field is required.
pub open spec fn parse_scenario(j: Json) -> Option<ScenarioV> {
    if !(j matches Json::Obj(_)) {
        None
    } else {
        let name = as_str(json_get(j, "name"@));
        let description = as_str(json_get(j, "description"@));
        let poll = as_u64(json_get(j, "poll_interval_seconds"@));
        let notify = as_bool(json_get(j, "notify_on_drift"@));
        let checks = match as_arr(json_get(j, "checks"@)) {
            Some(items) => parse_checks(items),
            None => None,
        };
        if name is Some && description is Some && poll is Some && notify is Some && checks is Some {
            Some(
                ScenarioV {
                    name: name->0,
                    description: description->0,
                    poll_interval_seconds: poll->0,
                    notify_on_drift: notify->0,
                    checks: checks->0,
                },
            )
        } else {
            None
        }
    }
}

/// Decode one scenario object.
pub fn decode_scenario(j: &Json) -> (r: Result<Scenario, ConfigError>)
    ensures
        match r {
            Ok(sc) => parse_scenario(*j) == Some(sc.deep_view()),
            Err(e) => parse_scenario(*j) is None && e matches ConfigError::Parse(_),
        },
{
    let fields = match j {
        Json::Obj(fields) => fields,
        _ => {
            return Err(parse_error());
        },
    };
    let name = match obj_lookup(fields, "name") {
        Some(Json::Str(s)) => s.clone(),
        _ => {
            return Err(parse_error());
        },
    };
    let description = match obj_lookup(fields, "description") {
        Some(Json::Str(s)) => s.clone(),
        _ => {
            return Err(parse_error());
        },
    };
    let poll_interval_seconds = match obj_lookup(fields, "poll_interval_seconds") {
        Some(Json::UInt(n)) => *n,
        _ => {
            return Err(parse_error());
        },
    };
    let notify_on_drift = match obj_lookup(fields, "notify_on_drift") {
        Some(Json::Bool(b)) => *b,
        _ => {
            return Err(parse_error());
        },
    };
    let checks = match obj_lookup(fields, "checks") {
        Some(Json::Arr(items)) => match decode_checks(items) {
            Ok(cs) => cs,
            Err(e) => {
                return Err(e);
            },
        },
        _ => {
            return Err(parse_error());
        },
    };
    Ok(Scenario { name, description, poll_interval_seconds, notify_on_drift, checks })
}

/// The scenario entries an object's fields describe: one entry per
/// field, in order, each value a well-formed scenario object; a
/// repeated identifier is invalid.
pub open spec fn parse_scenarios(fields: Seq<(String, Json)>) -> Option<Seq<ScenarioEntryV>>
    decreases fields.len(),
{
    if fields.len() == 0 {
        Some(Seq::empty())
    } else {
        match parse_scenarios(fields.drop_last()) {
            None => None,
            Some(prefix) => match parse_scenario(fields.last().1) {
                None => None,
                Some(sc) => if has_scenario_id(prefix, fields.last().0.deep_view()) {
                    None
                } else {
                    Some(
                        prefix.push(
                            ScenarioEntryV { id: fields.last().0.deep_view(), scenario: sc },
                        ),
                    )
                },
            },
        }
    }
}

proof fn lemma_parse_scenarios_prefix_none(fields: Seq<(String, Json)>, k: int)
    requires
        0 <= k <= fields.len(),
        parse_scenarios(fields.take(k)) is None,
    ensures
        parse_scenarios(fields) is None,
    decreases fields.len() - k,
{
    if k == fields.len() {
        assert(fields.take(k) =~= fields);
    } else {
        assert(fields.take(k + 1).drop_last() =~= fields.take(k));
        lemma_parse_scenarios_prefix_none(fields, k + 1);
    }
}

/// A decoded scenario mapping never repeats an identifier.
pub proof fn lemma_parse_scenarios_unique(fields: Seq<(String, Json)>)
    requires
        parse_scenarios(fields) is Some,
    ensures
        scenario_ids_unique(parse_scenarios(fields)->0),
    decreases fields.len(),
{
    if fields.len() > 0 {
        lemma_parse_scenarios_unique(fields.drop_last());
        let prefix = parse_scenarios(fields.drop_last())->0;
        let all = parse_scenarios(fields)->0;
        assert(!has_scenario_id(prefix, fields.last().0.deep_view()));
        assert(forall|i: int| 0 <= i < prefix.len() ==> all[i] == prefix[i]);
        assert(forall|i: int|
            0 <= i < prefix.len() ==> (#[trigger] prefix[i]).id != fields.last().0.deep_view());
    }
}

/// Decode a scenario mapping object.
pub fn decode_scenarios(fields: &Vec<(String, Json)>) -> (r: Result<Vec<ScenarioEntry>, ConfigError>)
    ensures
        match r {
            Ok(es) => parse_scenarios(fields@) == Some(es.deep_view()),
            Err(e) => parse_scenarios(fields@) is None && e matches ConfigError::Parse(_),
        },
{
    let n = fields.len();
    let mut out: Vec<ScenarioEntry> = Vec::new();
    let mut i: usize = 0;
    proof {
        assert(fields@.take(0) =~= Seq::<(String, Json)>::empty());
        assert(out.deep_view() =~= Seq::<ScenarioEntryV>::empty());
    }
    while i < n
        invariant
            0 <= i <= n,
            n == fields@.len(),
            parse_scenarios(fields@.take(i as int)) == Some(out.deep_view()),
        decreases n - i,
    {
        proof {
            assert(fields@.take(i + 1).drop_last() =~= fields@.take(i as int));
            assert(fields@.take(i + 1).last() == fields@[i as int]);
        }
        match decode_scenario(&fields[i].1) {
            Ok(sc) => {
                if crate::config::find_scenario_idx(&out, fields[i].0.as_str()).is_some() {
                    proof {
                        lemma_parse_scenarios_prefix_none(fields@, i + 1);
                    }
                    return Err(parse_error());
                }
                out.push(ScenarioEntry { id: fields[i].0.clone(), scenario: sc });
                proof {
                    assert(parse_scenarios(fields@.take(i + 1)) == Some(out.deep_view()));
                }
            },
            Err(e) => {
                proof {
                    lemma_parse_scenarios_prefix_none(fields@, i + 1);
                }
                return Err(e);
            },
        }
        i += 1;
    }
    proof {
        assert(fields@.take(n as int) =~= fields@);
    }
    Ok(out)
}

/// The current-schema configuration a JSON value describes, if any:
/// a version that fits, a default scenario identifier, and a scenario
/// mapping.
pub open spec fn parse_v2(j: Json) -> Option<ConfigV2V> {
    if !(j matches Json::Obj(_)) {
        None
    } else {
        let version = as_u64(json_get(j, "version"@));
        let ds = as_str(json_get(j, "default_scenario"@));
        let scenarios = match as_obj(json_get(j, "scenarios"@)) {
            Some(fs) => parse_scenarios(fs),
            None => None,
        };
        if version is Some && version->0 <= u32::MAX && ds is Some && scenarios is Some {
            Some(
                ConfigV2V {
                    version: (version->0) as u32,
                    default_scenario: ds->0,
                    scenarios: scenarios->0,
                },
            )
        } else {
            None
        }
    }
}

/// The legacy flat configuration a JSON value describes, if any.
pub open spec fn parse_v1(j: Json) -> Option<ConfigV1V> {
    if !(j matches Json::Obj(_)) {
        None
    } else {
        let poll = as_u64(json_get(j, "poll_interval_seconds"@));
        let notify = as_bool(json_get(j, "notify_on_drift"@));
        let checks = match as_arr(json_get(j, "checks"@)) {
            Some(items) => parse_checks(items),
            None => None,
        };
        if poll is Some && notify is Some && checks is Some {
            Some(
                ConfigV1V {
                    poll_interval_seconds: poll->0,
                    notify_on_drift: notify->0,
                    checks: checks->0,
                },
            )
        } else {
            None
        }
    }
}

/// The parsed document: the current schema when the value fits it,
/// else the legacy schema when it fits that, else nothing.
pub open spec fn spec_parse_root(j: Json) -> Option<ConfigRootV> {
    if parse_v2(j) is Some {
        Some(ConfigRootV::V2(parse_v2(j)->0))
    } else if parse_v1(j) is Some {
        Some(ConfigRootV::V1(parse_v1(j)->0))
    } else {
        None
    }
}

/// Decode a configuration document in either schema: the current shape
/// is tried first, then the legacy one.
pub fn decode_config_root(j: &Json) -> (r: Result<ConfigRoot, ConfigError>)
    ensures
        match r {
            Ok(root) => spec_parse_root(*j) == Some(root.deep_view()),
            Err(e) => spec_parse_root(*j) is None && e matches ConfigError::Parse(_),
        },
{
    match decode_v2(j) {
        Ok(v2) => Ok(ConfigRoot::V2(v2)),
        Err(_) => match decode_v1(j) {
            Ok(v1) => Ok(ConfigRoot::V1(v1)),
            Err(e) => Err(e),
        },
    }
}

fn decode_v2(j: &Json) -> (r: Result<ConfigV2, ConfigError>)
    ensures
        match r {
            Ok(v2) => parse_v2(*j) == Some(v2.deep_view()),
            Err(e) => parse_v2(*j) is None && e matches ConfigError::Parse(_),
        },
{
    let fields = match j {
        Json::Obj(fields) => fields,
        _ => {
            return Err(parse_error());
        },
    };
    let version64 = match obj_lookup(fields, "version") {
        Some(Json::UInt(n)) => *n,
        _ => {
            return Err(parse_error());
        },
    };
    if version64 > u32::MAX as u64 {
        return Err(parse_error());
    }
    let default_scenario = match obj_lookup(fields, "default_scenario") {
        Some(Json::Str(s)) => s.clone(),
        _ => {
            return Err(parse_error());
        },
    };
    let scenarios = match obj_lookup(fields, "scenarios") {
        Some(Json::Obj(fs)) => match decode_scenarios(fs) {
            Ok(es) => es,
            Err(e) => {
                return Err(e);
            },
        },
        _ => {
            return Err(parse_error());
        },
    };
    Ok(ConfigV2 { version: version64 as u32, default_scenario, scenarios })
}

fn decode_v1(j: &Json) -> (r: Result<ConfigV1, ConfigError>)
    ensures
        match r {
            Ok(v1) => parse_v1(*j) == Some(v1.deep_view()),
            Err(e) => parse_v1(*j) is None && e matches ConfigError::Parse(_),
        },
{
    let fields = match j {
        Json::Obj(fields) => fields,
        _ => {
            return Err(parse_error());
        },
    };
    let poll_interval_seconds = match obj_lookup(fields, "poll_interval_seconds") {
        Some(Json::UInt(n)) => *n,
        _ => {
            return Err(parse_error());
        },
    };
    let notify_on_drift = match obj_lookup(fields, "notify_on_drift") {
        Some(Json::Bool(b)) => *b,
        _ => {
            return Err(parse_error());
        },
    };
    let checks = match obj_lookup(fields, "checks") {
        Some(Json::Arr(items)) => match decode_checks(items) {
            Ok(cs) => cs,
            Err(e) => {
                return Err(e);
            },
        },
        _ => {
            return Err(parse_error());
        },
    };
    Ok(ConfigV1 { poll_interval_seconds, notify_on_drift, checks })
}

/// Load a configuration from a parsed document: decode either schema,
/// migrate the legacy one, and check that the designated default
/// scenario resolves.
pub fn config_from_json(j: &Json) -> (r: Result<Config, ConfigError>)
    ensures
        match r {
            Ok(c) => {
                &&& spec_parse_root(*j) matches Some(root) && c.deep_view().root == spec_root_v2(
                    root,
                ) && c.deep_view().active_scenario == spec_root_v2(root).default_scenario
                &&& c.wf()
                &&& scenario_ids_unique(c.deep_view().root.scenarios)
            },
            Err(e) => match e {
                ConfigError::Parse(_) => spec_parse_root(*j) is None,
                ConfigError::Validation(_) => spec_parse_root(*j) matches Some(root)
                    && !has_scenario_id(
                    spec_root_v2(root).scenarios,
                    spec_root_v2(root).default_scenario,
                ),
                ConfigError::Io(_) => false,
            },
        },
{
    proof {
        match json_get(*j, "scenarios"@) {
            Some(Json::Obj(sf)) => {
                if parse_scenarios(sf@) is Some {
                    lemma_parse_scenarios_unique(sf@);
                }
            },
            _ => {},
        }
    }
    match decode_config_root(j) {
        Ok(root) => crate::config::config_from_root(root),
        Err(e) => Err(e),
    }
}

proof fn lemma_obj_get_push_key(fields: Seq<(String, Json)>, f: (String, Json), key: Seq<char>)
    ensures
        obj_get(fields.push(f), key) == (if obj_get(fields, key) is Some {
            obj_get(fields, key)
        } else if f.0.deep_view() == key {
            Some(f.1)
        } else {
            None
        }),
    decreases fields.len(),
{
    if fields.len() == 0 {
        assert(fields.push(f).len() == 1);
        assert(fields.push(f)[0] == f);
        let rest = fields.push(f).drop_first();
        assert(rest =~= Seq::<(String, Json)>::empty());
        assert(obj_get(rest, key) is None);
    } else {
        assert(fields.push(f)[0] == fields[0]);
        assert(fields.push(f).drop_first() =~= fields.drop_first().push(f));
        lemma_obj_get_push_key(fields.drop_first(), f, key);
    }
}

proof fn lemma_obj_get_push(fields: Seq<(String, Json)>, f: (String, Json))
    ensures
        forall|key: Seq<char>|
            #[trigger] obj_get(fields.push(f), key) == (if obj_get(fields, key) is Some {
                obj_get(fields, key)
            } else if f.0.deep_view() == key {
                Some(f.1)
            } else {
                None
            }),
{
    assert forall|key: Seq<char>|
        #[trigger] obj_get(fields.push(f), key) == (if obj_get(fields, key) is Some {
            obj_get(fields, key)
        } else if f.0.deep_view() == key {
            Some(f.1)
        } else {
            None
        }) by {
        lemma_obj_get_push_key(fields, f, key);
    }
}

/// The names of an object's fields, in order.
pub open spec fn obj_keys(fields: Seq<(String, Json)>) -> Seq<Seq<char>> {
    fields.map_values(|f: (String, Json)| f.0.deep_view())
}

/// The field names a check object carries, in schema order: the four
/// required fields, then each optional field that is set.
pub open spec fn spec_check_keys(c: CheckConfigV) -> Seq<Seq<char>> {
    seq!["id"@, "name"@, "check_type"@, "enabled"@] + (if c.registry_path is Some {
        seq!["registry_path"@]
    } else {
        Seq::empty()
    }) + (if c.registry_key is Some {
        seq!["registry_key"@]
    } else {
        Seq::empty()
    }) + (if c.process_name is Some {
        seq!["process_name"@]
    } else {
        Seq::empty()
    }) + (if c.expected_value is Some {
        seq!["expected_value"@]
    } else {
        Seq::empty()
    })
}

/// How many of a check's optional fields are present.
pub open spec fn spec_opt_count(c: CheckConfigV) -> int {
    (if c.registry_path is Some {
        1int
    } else {
        0int
    }) + (if c.registry_key is Some {
        1int
    } else {
        0int
    }) + (if c.process_name is Some {
        1int
    } else {
        0int
    }) + (if c.expected_value is Some {
        1int
    } else {
        0int
    })
}

/// Encode one check as the object its schema prescribes: identifier,
/// name, kind and enabled flag always, the optional fields only when
/// set.
pub fn encode_check(c: &CheckConfig) -> (r: Json)
    ensures
        parse_check(r) == Some(c.deep_view()),
        r matches Json::Obj(fs) && obj_keys(fs@) =~= spec_check_keys(c.deep_view()),
{
    let ghost cv = c.deep_view();
    let mut fields: Vec<(String, Json)> = Vec::new();
    let ghost g0 = fields@;
    fields.push(("id".to_owned(), Json::Str(c.id.clone())));
    proof {
        lemma_obj_get_push(g0, fields@.last());
    }
    let ghost g1 = fields@;
    fields.push(("name".to_owned(), Json::Str(c.name.clone())));
    proof {
        lemma_obj_get_push(g1, fields@.last());
    }
    let ghost g2 = fields@;
    fields.push(("check_type".to_owned(), Json::Str(kind_name(c.check_type).to_owned())));
    proof {
        lemma_obj_get_push(g2, fields@.last());
    }
    let ghost g3 = fields@;
    fields.push(("enabled".to_owned(), Json::Bool(c.enabled)));
    proof {
        lemma_obj_get_push(g3, fields@.last());
    }
    let ghost g4 = fields@;
    if let Some(p) = &c.registry_path {
        fields.push(("registry_path".to_owned(), Json::Str(p.clone())));
        proof {
            lemma_obj_get_push(g4, fields@.last());
        }
    }
    let ghost g5 = fields@;
    if let Some(k) = &c.registry_key {
        fields.push(("registry_key".to_owned(), Json::Str(k.clone())));
        proof {
            lemma_obj_get_push(g5, fields@.last());
        }
    }
    let ghost g6 = fields@;
    if let Some(n) = &c.process_name {
        fields.push(("process_name".to_owned(), Json::Str(n.clone())));
        proof {
            lemma_obj_get_push(g6, fields@.last());
        }
    }
    let ghost g7 = fields@;
    if let Some(v) = &c.expected_value {
        fields.push(("expected_value".to_owned(), Json::Str(v.clone())));
        proof {
            lemma_obj_get_push(g7, fields@.last());
        }
    }
    let r = Json::Obj(fields);
    proof {
        reveal_strlit("id");
        reveal_strlit("name");
        reveal_strlit("check_type");
        reveal_strlit("enabled");
        reveal_strlit("registry_path");
        reveal_strlit("registry_key");
        reveal_strlit("process_name");
        reveal_strlit("expected_value");
        assert("id"@.len() == 2);
        assert("name"@.len() == 4);
        assert("check_type"@.len() == 10);
        assert("enabled"@.len() == 7);
        assert("registry_path"@.len() == 13);
        assert("registry_key"@.len() == 12);
        assert("process_name"@.len() == 12);
        assert("expected_value"@.len() == 14);
        assert("registry_key"@[0] == 'r' && "process_name"@[0] == 'p');
        assert(as_str(json_get(r, "id"@)) == Some(cv.id));
        assert(as_str(json_get(r, "name"@)) == Some(cv.name));
        assert(as_str(json_get(r, "check_type"@)) == Some(spec_kind_name(cv.check_type)));
        lemma_kind_name_round_trip(cv.check_type);
        assert(json_get(r, "enabled"@) == Some(Json::Bool(cv.enabled)));
        assert(parse_opt_str(json_get(r, "registry_path"@)) == Some(cv.registry_path));
        assert(parse_opt_str(json_get(r, "registry_key"@)) == Some(cv.registry_key));
        assert(parse_opt_str(json_get(r, "process_name"@)) == Some(cv.process_name));
        assert(parse_opt_str(json_get(r, "expected_value"@)) == Some(cv.expected_value));
        assert(parse_check(r) == Some(cv));
        assert(obj_keys(fields@) =~= spec_check_keys(cv));
    }
    r
}

/// Encode a check list as an array of check objects.
pub fn encode_checks(checks: &Vec<CheckConfig>) -> (r: Vec<Json>)
    ensures
        parse_checks(r@) == Some(checks.deep_view()),
{
    let n = checks.len();
    let mut out: Vec<Json> = Vec::new();
    let mut i: usize = 0;
    proof {
        assert(out@.take(0) =~= Seq::<Json>::empty());
        assert(checks.deep_view().take(0) =~= Seq::<CheckConfigV>::empty());
        assert(parse_checks(out@) == Some(checks.deep_view().take(0)));
    }
    while i < n
        invariant
            0 <= i <= n,
            n == checks@.len(),
            checks.deep_view().len() == n,
            out@.len() == i,
            parse_checks(out@) == Some(checks.deep_view().take(i as int)),
        decreases n - i,
    {
        let ghost pre = out@;
        out.push(encode_check(&checks[i]));
        proof {
            assert(out@.drop_last() =~= pre);
            assert(checks.deep_view().take(i + 1).drop_last() =~= checks.deep_view().take(i as int));
            assert(checks.deep_view().take(i + 1) =~= checks.deep_view().take(i as int).push(
                checks.deep_view()[i as int],
            ));
        }
        i += 1;
    }
    proof {
        assert(checks.deep_view().take(n as int) =~= checks.deep_view());
    }
    out
}

/// Encode a scenario as the object its schema prescribes.
pub fn encode_scenario(sc: &Scenario) -> (r: Json)
    ensures
        parse_scenario(r) == Some(sc.deep_view()),
        r matches Json::Obj(fs) && obj_keys(fs@) =~= seq![
            "name"@,
            "description"@,
            "poll_interval_seconds"@,
            "notify_on_drift"@,
            "checks"@,
        ],
{
    let ghost sv = sc.deep_view();
    let mut fields: Vec<(String, Json)> = Vec::new();
    let ghost g0 = fields@;
    fields.push(("name".to_owned(), Json::Str(sc.name.clone())));
    proof {
        lemma_obj_get_push(g0, fields@.last());
    }
    let ghost g1 = fields@;
    fields.push(("description".to_owned(), Json::Str(sc.description.clone())));
    proof {
        lemma_obj_get_push(g1, fields@.last());
    }
    let ghost g2 = fields@;
    fields.push(("poll_interval_seconds".to_owned(), Json::UInt(sc.poll_interval_seconds)));
    proof {
        lemma_obj_get_push(g2, fields@.last());
    }
    let ghost g3 = fields@;
    fields.push(("notify_on_drift".to_owned(), Json::Bool(sc.notify_on_drift)));
    proof {
        lemma_obj_get_push(g3, fields@.last());
    }
    let ghost g4 = fields@;
    fields.push(("checks".to_owned(), Json::Arr(encode_checks(&sc.checks))));
    proof {
        lemma_obj_get_push(g4, fields@.last());
    }
    let r = Json::Obj(fields);
    proof {
        reveal_strlit("name");
        reveal_strlit("description");
        reveal_strlit("poll_interval_seconds");
        reveal_strlit("notify_on_drift");
        reveal_strlit("checks");
        assert("name"@.len() == 4);
        assert("description"@.len() == 11);
        assert("poll_interval_seconds"@.len() == 21);
        assert("notify_on_drift"@.len() == 15);
        assert("checks"@.len() == 6);
        assert(as_str(json_get(r, "name"@)) == Some(sv.name));
        assert(as_str(json_get(r, "description"@)) == Some(sv.description));
        assert(as_u64(json_get(r, "poll_interval_seconds"@)) == Some(sv.poll_interval_seconds));
        assert(as_bool(json_get(r, "notify_on_drift"@)) == Some(sv.notify_on_drift));
        assert(as_arr(json_get(r, "checks"@)) is Some);
        assert(parse_scenario(r) == Some(sv));
    }
    proof {
        assert(obj_keys(fields@) =~= seq![
            "name"@,
            "description"@,
            "poll_interval_seconds"@,
            "notify_on_drift"@,
            "checks"@,
        ]);
    }
    r
}

/// The scenario an export document carries under its "scenario" field.
pub open spec fn spec_import_scenario(j: Json) -> Option<ScenarioV> {
    match json_get(j, "scenario"@) {
        Some(sj) => parse_scenario(sj),
        None => None,
    }
}

/// Encode one scenario as an export document: a version tag, the
/// caller's timestamp, and the scenario object.
pub fn encode_scenario_export(scenario: &Scenario, exported_at: &str) -> (r: Json)
    ensures
        as_u64(json_get(r, "export_version"@)) == Some(1u64),
        as_str(json_get(r, "exported_at"@)) == Some(exported_at@),
        spec_import_scenario(r) == Some(scenario.deep_view()),
        r matches Json::Obj(fs) && obj_keys(fs@) =~= seq![
            "export_version"@,
            "exported_at"@,
            "scenario"@,
        ],
{
    let mut fields: Vec<(String, Json)> = Vec::new();
    let ghost g0 = fields@;
    fields.push(("export_version".to_owned(), Json::UInt(1)));
    proof {
        lemma_obj_get_push(g0, fields@.last());
    }
    let ghost g1 = fields@;
    fields.push(("exported_at".to_owned(), Json::Str(exported_at.to_owned())));
    proof {
        lemma_obj_get_push(g1, fields@.last());
    }
    let ghost g2 = fields@;
    fields.push(("scenario".to_owned(), encode_scenario(scenario)));
    proof {
        lemma_obj_get_push(g2, fields@.last());
    }
    let r = Json::Obj(fields);
    proof {
        reveal_strlit("export_version");
        reveal_strlit("exported_at");
        reveal_strlit("scenario");
        assert("export_version"@.len() == 14);
        assert("exported_at"@.len() == 11);
        assert("scenario"@.len() == 8);
        assert(obj_keys(fields@) =~= seq!["export_version"@, "exported_at"@, "scenario"@]);
    }
    r
}

/// Decode the scenario out of an export document; everything else in
/// it, the version tag included, is ignored.
pub fn decode_scenario_export(j: &Json) -> (r: Result<Scenario, ConfigError>)
    ensures
        match r {
            Ok(sc) => spec_import_scenario(*j) == Some(sc.deep_view()),
            Err(e) => spec_import_scenario(*j) is None && e matches ConfigError::Parse(_),
        },
{
    match j {
        Json::Obj(fields) => match obj_lookup(fields, "scenario") {
            Some(sj) => decode_scenario(sj),
            None => Err(ConfigError::Parse("Invalid export file: missing scenario".to_owned())),
        },
        _ => Err(ConfigError::Parse("Invalid export file: missing scenario".to_owned())),
    }
}

/// The current-schema root a saved configuration denotes: its version
/// and scenarios, with the active scenario recorded as the default.
pub open spec fn spec_saved_root(c: ConfigM) -> ConfigV2V {
    ConfigV2V {
        version: c.root.version,
        default_scenario: c.active_scenario,
        scenarios: c.root.scenarios,
    }
}

/// Encode a working configuration as a current-schema document, with
/// the active scenario recorded as the default to activate next time.
pub fn encode_config(c: &Config) -> (r: Json)
    requires
        scenario_ids_unique(c.deep_view().root.scenarios),
    ensures
        parse_v2(r) == Some(spec_saved_root(c.deep_view())),
        spec_parse_root(r) == Some(ConfigRootV::V2(spec_saved_root(c.deep_view()))),
        r matches Json::Obj(fs) && obj_keys(fs@) =~= seq![
            "version"@,
            "default_scenario"@,
            "scenarios"@,
        ],
        json_get(r, "scenarios"@) matches Some(Json::Obj(sf)) && obj_keys(sf@)
            =~= c.deep_view().root.scenarios.map_values(|e: ScenarioEntryV| e.id),
{
    let ghost cv = c.deep_view();
    let n = c.root.scenarios.len();
    let mut sfields: Vec<(String, Json)> = Vec::new();
    let mut i: usize = 0;
    proof {
        assert(sfields@.take(0) =~= Seq::<(String, Json)>::empty());
        assert(cv.root.scenarios.take(0) =~= Seq::<ScenarioEntryV>::empty());
        assert(parse_scenarios(sfields@) == Some(cv.root.scenarios.take(0)));
    }
    while i < n
        invariant
            0 <= i <= n,
            n == c.root.scenarios@.len(),
            cv == c.deep_view(),
            cv.root.scenarios.len() == n,
            scenario_ids_unique(cv.root.scenarios),
            sfields@.len() == i,
            obj_keys(sfields@) =~= cv.root.scenarios.map_values(
                |e: ScenarioEntryV| e.id,
            ).take(i as int),
            parse_scenarios(sfields@) == Some(cv.root.scenarios.take(i as int)),
        decreases n - i,
    {
        let ghost pre = sfields@;
        let entry = &c.root.scenarios[i];
        sfields.push((entry.id.clone(), encode_scenario(&entry.scenario)));
        proof {
            assert(sfields@.drop_last() =~= pre);
            assert(sfields@.last().0.deep_view() == cv.root.scenarios[i as int].id);
            assert(!has_scenario_id(cv.root.scenarios.take(i as int), cv.root.scenarios[i as int].id))
                by {
                assert(forall|k: int|
                    0 <= k < i ==> (#[trigger] cv.root.scenarios[k]).id != cv.root.scenarios[
                        i as int
                    ].id);
            }
            assert(cv.root.scenarios.take(i + 1).drop_last() =~= cv.root.scenarios.take(i as int));
            assert(cv.root.scenarios.take(i + 1) =~= cv.root.scenarios.take(i as int).push(
                cv.root.scenarios[i as int],
            ));
            assert(parse_scenarios(sfields@) == Some(cv.root.scenarios.take(i + 1)));
            assert(obj_keys(sfields@) =~= cv.root.scenarios.map_values(
                |e: ScenarioEntryV| e.id,
            ).take(i + 1));
        }
        i += 1;
    }
    proof {
        assert(cv.root.scenarios.take(n as int) =~= cv.root.scenarios);
        assert(cv.root.scenarios.map_values(|e: ScenarioEntryV| e.id).take(n as int)
            =~= cv.root.scenarios.map_values(|e: ScenarioEntryV| e.id));
    }
    let mut fields: Vec<(String, Json)> = Vec::new();
    let ghost g0 = fields@;
    fields.push(("version".to_owned(), Json::UInt(c.root.version as u64)));
    proof {
        lemma_obj_get_push(g0, fields@.last());
    }
    let ghost g1 = fields@;
    fields.push(("default_scenario".to_owned(), Json::Str(c.active_scenario.clone())));
    proof {
        lemma_obj_get_push(g1, fields@.last());
    }
    let ghost g2 = fields@;
    fields.push(("scenarios".to_owned(), Json::Obj(sfields)));
    proof {
        lemma_obj_get_push(g2, fields@.last());
    }
    let r = Json::Obj(fields);
    proof {
        reveal_strlit("version");
        reveal_strlit("default_scenario");
        reveal_strlit("scenarios");
        assert("version"@.len() == 7);
        assert("default_scenario"@.len() == 16);
        assert("scenarios"@.len() == 9);
        assert(as_u64(json_get(r, "version"@)) == Some(cv.root.version as u64));
        assert(as_str(json_get(r, "default_scenario"@)) == Some(cv.active_scenario));
        assert(as_obj(json_get(r, "scenarios"@)) is Some);
        assert(parse_v2(r) == Some(spec_saved_root(cv)));
        assert(obj_keys(fields@) =~= seq!["version"@, "default_scenario"@, "scenarios"@]);
    }
    r
}

/// Saving then loading is lossless: a document that encodes a
/// configuration — as `encode_config` promises of its result — loads
/// back to the same scenario mapping and version, with the saved
/// active scenario as both the default and the active one.
pub proof fn lemma_save_load_round_trip(c: ConfigM, j: Json)
    requires
        parse_v2(j) == Some(spec_saved_root(c)),
        has_scenario_id(c.root.scenarios, c.active_scenario),
    ensures
        spec_parse_root(j) == Some(ConfigRootV::V2(spec_saved_root(c))),
        spec_root_v2(spec_parse_root(j)->0) == spec_saved_root(c),
        spec_root_v2(spec_parse_root(j)->0).scenarios == c.root.scenarios,
        spec_root_v2(spec_parse_root(j)->0).default_scenario == c.active_scenario,
        has_scenario_id(
            spec_root_v2(spec_parse_root(j)->0).scenarios,
            spec_root_v2(spec_parse_root(j)->0).default_scenario,
        ),
{
}

} // verus!
