//! Configuration model: scenarios, checks, the versioned root, and the
//! migration of the legacy flat schema into the current one.

use vstd::prelude::*;

verus! {

/// The kind of one check; each kind is evaluated by its own probe.
#[derive(Clone, Copy, Debug, PartialEq, Eq, Structural)]
pub enum CheckType {
    PowerScheme,
    PowerMode,
    RegistryDword,
    RegistryString,
    ProcessAbsent,
    ProcessPresent,
    DisplayResolution,
    DisplayRefreshRate,
    HdrEnabled,
}

/// One declarative check: an expected value for one machine setting.
#[derive(Debug, PartialEq)]
pub struct CheckConfig {
    pub id: String,
    pub name: String,
    pub check_type: CheckType,
    pub enabled: bool,
    pub registry_path: Option<String>,
    pub registry_key: Option<String>,
    pub process_name: Option<String>,
    pub expected_value: Option<String>,
}

/// Mathematical model of a `CheckConfig`.
pub struct CheckConfigV {
    pub id: Seq<char>,
    pub name: Seq<char>,
    pub check_type: CheckType,
    pub enabled: bool,
    pub registry_path: Option<Seq<char>>,
    pub registry_key: Option<Seq<char>>,
    pub process_name: Option<Seq<char>>,
    pub expected_value: Option<Seq<char>>,
}

impl DeepView for CheckConfig {
    type V = CheckConfigV;

    open spec fn deep_view(&self) -> CheckConfigV {
        CheckConfigV {
            id: self.id.deep_view(),
            name: self.name.deep_view(),
            check_type: self.check_type,
            enabled: self.enabled,
            registry_path: self.registry_path.deep_view(),
            registry_key: self.registry_key.deep_view(),
            process_name: self.process_name.deep_view(),
            expected_value: self.expected_value.deep_view(),
        }
    }
}

impl Clone for CheckConfig {
    fn clone(&self) -> (r: Self)
        ensures
            r == *self,
    {
        CheckConfig {
            id: self.id.clone(),
            name: self.name.clone(),
            check_type: self.check_type,
            enabled: self.enabled,
            registry_path: self.registry_path.clone(),
            registry_key: self.registry_key.clone(),
            process_name: self.process_name.clone(),
            expected_value: self.expected_value.clone(),
        }
    }
}

/// A named bundle of checks with its own polling cadence and
/// notification policy.
#[derive(Debug, PartialEq)]
pub struct Scenario {
    pub name: String,
    pub description: String,
    pub poll_interval_seconds: u64,
    pub notify_on_drift: bool,
    pub checks: Vec<CheckConfig>,
}

/// Mathematical model of a `Scenario`.
pub struct ScenarioV {
    pub name: Seq<char>,
    pub description: Seq<char>,
    pub poll_interval_seconds: u64,
    pub notify_on_drift: bool,
    pub checks: Seq<CheckConfigV>,
}

impl DeepView for Scenario {
    type V = ScenarioV;

    open spec fn deep_view(&self) -> ScenarioV {
        ScenarioV {
            name: self.name.deep_view(),
            description: self.description.deep_view(),
            poll_interval_seconds: self.poll_interval_seconds,
            notify_on_drift: self.notify_on_drift,
            checks: self.checks.deep_view(),
        }
    }
}

impl Clone for Scenario {
    fn clone(&self) -> (r: Self)
        ensures
            r.deep_view() == self.deep_view(),
    {
        let r = Scenario {
            name: self.name.clone(),
            description: self.description.clone(),
            poll_interval_seconds: self.poll_interval_seconds,
            notify_on_drift: self.notify_on_drift,
            checks: self.checks.clone(),
        };
        proof {
            assert(r.checks.deep_view() =~= self.checks.deep_view());
        }
        r
    }
}

/// One scenario together with the identifier it is registered under.
#[derive(Debug, PartialEq)]
pub struct ScenarioEntry {
    pub id: String,
    pub scenario: Scenario,
}

/// Mathematical model of a `ScenarioEntry`.
pub struct ScenarioEntryV {
    pub id: Seq<char>,
    pub scenario: ScenarioV,
}

impl DeepView for ScenarioEntry {
    type V = ScenarioEntryV;

    open spec fn deep_view(&self) -> ScenarioEntryV {
        ScenarioEntryV { id: self.id.deep_view(), scenario: self.scenario.deep_view() }
    }
}

impl Clone for ScenarioEntry {
    fn clone(&self) -> (r: Self)
        ensures
            r.deep_view() == self.deep_view(),
    {
        ScenarioEntry { id: self.id.clone(), scenario: self.scenario.clone() }
    }
}

/// The legacy flat configuration: one implicit scenario.
#[derive(Debug, PartialEq)]
pub struct ConfigV1 {
    pub poll_interval_seconds: u64,
    pub notify_on_drift: bool,
    pub checks: Vec<CheckConfig>,
}

/// Mathematical model of a `ConfigV1`.
pub struct ConfigV1V {
    pub poll_interval_seconds: u64,
    pub notify_on_drift: bool,
    pub checks: Seq<CheckConfigV>,
}

impl DeepView for ConfigV1 {
    type V = ConfigV1V;

    open spec fn deep_view(&self) -> ConfigV1V {
        ConfigV1V {
            poll_interval_seconds: self.poll_interval_seconds,
            notify_on_drift: self.notify_on_drift,
            checks: self.checks.deep_view(),
        }
    }
}

/// The current configuration schema: named scenarios plus the identifier
/// of the scenario that is active by default.
#[derive(Debug, PartialEq)]
pub struct ConfigV2 {
    pub version: u32,
    pub default_scenario: String,
    pub scenarios: Vec<ScenarioEntry>,
}

/// Mathematical model of a `ConfigV2`.
pub struct ConfigV2V {
    pub version: u32,
    pub default_scenario: Seq<char>,
    pub scenarios: Seq<ScenarioEntryV>,
}

impl DeepView for ConfigV2 {
    type V = ConfigV2V;

    open spec fn deep_view(&self) -> ConfigV2V {
        ConfigV2V {
            version: self.version,
            default_scenario: self.default_scenario.deep_view(),
            scenarios: self.scenarios.deep_view(),
        }
    }
}

impl Clone for ConfigV2 {
    fn clone(&self) -> (r: Self)
        ensures
            r.deep_view() == self.deep_view(),
    {
        let r = ConfigV2 {
            version: self.version,
            default_scenario: self.default_scenario.clone(),
            scenarios: self.scenarios.clone(),
        };
        proof {
            assert(r.scenarios.deep_view() =~= self.scenarios.deep_view());
        }
        r
    }
}

/// A parsed configuration document: either schema.
#[derive(Debug, PartialEq)]
pub enum ConfigRoot {
    V2(ConfigV2),
    V1(ConfigV1),
}

/// The working configuration: the current-schema root plus the
/// identifier of the scenario that is active right now.
#[derive(Debug, PartialEq)]
pub struct Config {
    pub root: ConfigV2,
    pub active_scenario: String,
}

/// Mathematical model of a `Config`.
pub struct ConfigM {
    pub root: ConfigV2V,
    pub active_scenario: Seq<char>,
}

impl DeepView for Config {
    type V = ConfigM;

    open spec fn deep_view(&self) -> ConfigM {
        ConfigM { root: self.root.deep_view(), active_scenario: self.active_scenario.deep_view() }
    }
}

impl Clone for Config {
    fn clone(&self) -> (r: Self)
        ensures
            r.deep_view() == self.deep_view(),
    {
        Config { root: self.root.clone(), active_scenario: self.active_scenario.clone() }
    }
}

/// A failure while loading, validating or saving a configuration.
#[derive(Debug, PartialEq)]
pub enum ConfigError {
    /// The file could not be read or written.
    Io(String),
    /// The document is not a configuration in either schema.
    Parse(String),
    /// The document parsed, but its designated scenario does not resolve.
    Validation(String),
}

impl ConfigError {
    /// The human-readable cause carried by the error.
    pub open spec fn spec_message(&self) -> Seq<char> {
        match self {
            ConfigError::Io(m) => m.deep_view(),
            ConfigError::Parse(m) => m.deep_view(),
            ConfigError::Validation(m) => m.deep_view(),
        }
    }

    /// The human-readable cause carried by the error.
    pub fn message(&self) -> (r: &String)
        ensures
            r.deep_view() == self.spec_message(),
    {
        match self {
            ConfigError::Io(m) => m,
            ConfigError::Parse(m) => m,
            ConfigError::Validation(m) => m,
        }
    }
}

/// Whether some scenario in `s` is registered under `id`.
pub open spec fn has_scenario_id(s: Seq<ScenarioEntryV>, id: Seq<char>) -> bool {
    exists|i: int| 0 <= i < s.len() && s[i].id == id
}

/// The scenario registered under `id`, taken from the first entry that
/// carries it.
pub open spec fn scenario_with_id(s: Seq<ScenarioEntryV>, id: Seq<char>) -> ScenarioV {
    s[first_index_of_id(s, id)].scenario
}

/// Index of the first entry registered under `id`.
pub open spec fn first_index_of_id(s: Seq<ScenarioEntryV>, id: Seq<char>) -> int {
    choose|i: int|
        0 <= i < s.len() && s[i].id == id && (forall|j: int| 0 <= j < i ==> s[j].id != id)
}

/// Scenario identifiers are pairwise distinct.
pub open spec fn scenario_ids_unique(s: Seq<ScenarioEntryV>) -> bool {
    forall|i: int, j: int| 0 <= i < j < s.len() ==> s[i].id != s[j].id
}

impl ConfigV2 {
    /// Well-formedness: the designated default scenario resolves.
    pub open spec fn default_resolves(&self) -> bool {
        has_scenario_id(self.deep_view().scenarios, self.deep_view().default_scenario)
    }
}

impl Config {
    /// Well-formedness: the active scenario resolves in the root.
    pub open spec fn wf(&self) -> bool {
        has_scenario_id(self.deep_view().root.scenarios, self.deep_view().active_scenario)
    }
}

/// A first match pins down `first_index_of_id` and `scenario_with_id`.
pub proof fn lemma_first_index(s: Seq<ScenarioEntryV>, id: Seq<char>, i: int)
    requires
        0 <= i < s.len(),
        s[i].id == id,
        forall|j: int| 0 <= j < i ==> s[j].id != id,
    ensures
        first_index_of_id(s, id) == i,
        scenario_with_id(s, id) == s[i].scenario,
{
    let w = first_index_of_id(s, id);
    assert(0 <= w < s.len() && s[w].id == id && (forall|j: int| 0 <= j < w ==> s[j].id != id));
}

/// Find the first scenario entry registered under `id`.
pub fn find_scenario_idx(scenarios: &Vec<ScenarioEntry>, id: &str) -> (r: Option<usize>)
    ensures
        match r {
            Some(i) => i < scenarios@.len() && scenarios.deep_view()[i as int].id == id@ && (forall|
                j: int,
            |
                0 <= j < i ==> scenarios.deep_view()[j].id != id@),
            None => !has_scenario_id(scenarios.deep_view(), id@),
        },
{
    let n = scenarios.len();
    let mut i: usize = 0;
    while i < n
        invariant
            0 <= i <= n,
            n == scenarios@.len(),
            scenarios.deep_view().len() == n,
            forall|j: int| 0 <= j < i ==> scenarios.deep_view()[j].id != id@,
        decreases n - i,
    {
        if crate::text::str_eq(scenarios[i].id.as_str(), id) {
            return Some(i);
        }
        i += 1;
    }
    None
}

/// Whether the entries' identifiers are pairwise distinct.
pub fn scenario_ids_are_unique(scenarios: &Vec<ScenarioEntry>) -> (r: bool)
    ensures
        r == scenario_ids_unique(scenarios.deep_view()),
{
    let n = scenarios.len();
    let mut i: usize = 0;
    while i < n
        invariant
            0 <= i <= n,
            n == scenarios@.len(),
            scenarios.deep_view().len() == n,
            forall|a: int, b: int|
                0 <= a < b < scenarios.deep_view().len() && a < i
                    ==> (#[trigger] scenarios.deep_view()[a]).id != (#[trigger] scenarios.deep_view()[b]).id,
        decreases n - i,
    {
        let mut j: usize = i + 1;
        while j < n
            invariant
                0 <= i < j <= n,
                n == scenarios@.len(),
                scenarios.deep_view().len() == n,
                forall|b: int|
                    i < b < j ==> scenarios.deep_view()[i as int].id
                        != (#[trigger] scenarios.deep_view()[b]).id,
            decreases n - j,
        {
            if crate::text::str_eq(scenarios[i].id.as_str(), scenarios[j].id.as_str()) {
                proof {
                    assert(scenarios.deep_view()[i as int].id == scenarios.deep_view()[j as int].id);
                }
                return false;
            }
            j += 1;
        }
        i += 1;
    }
    true
}

/// Migrate a legacy flat configuration into the current schema: one
/// scenario named "Default", registered under "default", carrying the
/// legacy poll interval, notify flag and check list verbatim.
pub open spec fn spec_migrate_v1_to_v2(v1: ConfigV1V) -> ConfigV2V {
    ConfigV2V {
        version: 2,
        default_scenario: "default"@,
        scenarios: seq![
            ScenarioEntryV {
                id: "default"@,
                scenario: ScenarioV {
                    name: "Default"@,
                    description: "Migrated from legacy config"@,
                    poll_interval_seconds: v1.poll_interval_seconds,
                    notify_on_drift: v1.notify_on_drift,
                    checks: v1.checks,
                },
            },
        ],
    }
}

/// Migrate a legacy flat configuration into the current schema.
pub fn migrate_v1_to_v2(v1: ConfigV1) -> (r: ConfigV2)
    ensures
        r.deep_view() == spec_migrate_v1_to_v2(v1.deep_view()),
        r.default_resolves(),
{
    let scenario = Scenario {
        name: "Default".to_owned(),
        description: "Migrated from legacy config".to_owned(),
        poll_interval_seconds: v1.poll_interval_seconds,
        notify_on_drift: v1.notify_on_drift,
        checks: v1.checks,
    };
    let mut scenarios: Vec<ScenarioEntry> = Vec::new();
    scenarios.push(ScenarioEntry { id: "default".to_owned(), scenario });
    let r = ConfigV2 { version: 2, default_scenario: "default".to_owned(), scenarios };
    proof {
        assert(r.deep_view().scenarios =~= spec_migrate_v1_to_v2(v1.deep_view()).scenarios);
        assert(r.deep_view() == spec_migrate_v1_to_v2(v1.deep_view()));
        assert(r.deep_view().scenarios[0].id == r.deep_view().default_scenario);
    }
    r
}

/// Build the working configuration from a parsed document: migrate the
/// legacy schema if needed, then check that the designated default
/// scenario resolves.
pub fn config_from_root(root: ConfigRoot) -> (r: Result<Config, ConfigError>)
    ensures
        match r {
            Ok(c) => {
                &&& c.wf()
                &&& c.deep_view().root == spec_root_v2(root.deep_view())
                &&& c.deep_view().active_scenario == spec_root_v2(root.deep_view()).default_scenario
            },
            Err(e) => {
                &&& !has_scenario_id(
                    spec_root_v2(root.deep_view()).scenarios,
                    spec_root_v2(root.deep_view()).default_scenario,
                )
                &&& e matches ConfigError::Validation(_)
            },
        },
{
    let v2 = match root {
        ConfigRoot::V1(v1) => migrate_v1_to_v2(v1),
        ConfigRoot::V2(v2) => v2,
    };
    let active = v2.default_scenario.clone();
    match find_scenario_idx(&v2.scenarios, active.as_str()) {
        Some(_) => Ok(Config { root: v2, active_scenario: active }),
        None => {
            let mut m = "Default scenario '".to_owned();
            m.append(active.as_str());
            m.append("' not found in config");
            Err(ConfigError::Validation(m))
        },
    }
}

/// The current-schema form of a parsed document: the contained current
/// schema, or the migration of the legacy one.
pub open spec fn spec_root_v2(root: ConfigRootV) -> ConfigV2V {
    match root {
        ConfigRootV::V2(v2) => v2,
        ConfigRootV::V1(v1) => spec_migrate_v1_to_v2(v1),
    }
}

/// Mathematical model of a `ConfigRoot`.
pub enum ConfigRootV {
    V2(ConfigV2V),
    V1(ConfigV1V),
}

impl DeepView for ConfigRoot {
    type V = ConfigRootV;

    open spec fn deep_view(&self) -> ConfigRootV {
        match self {
            ConfigRoot::V2(v2) => ConfigRootV::V2(v2.deep_view()),
            ConfigRoot::V1(v1) => ConfigRootV::V1(v1.deep_view()),
        }
    }
}

impl Config {
    /// The scenario that is currently active.
    pub fn get_active_scenario_data(&self) -> (r: Result<&Scenario, ConfigError>)
        ensures
            match r {
                Ok(sc) => self.wf() && sc.deep_view() == scenario_with_id(
                    self.deep_view().root.scenarios,
                    self.deep_view().active_scenario,
                ),
                Err(e) => !self.wf() && e matches ConfigError::Validation(_),
            },
    {
        match find_scenario_idx(&self.root.scenarios, self.active_scenario.as_str()) {
            Some(i) => {
                proof {
                    let s = self.deep_view().root.scenarios;
                    let id = self.deep_view().active_scenario;
                    assert(0 <= i < s.len() && s[i as int].id == id && (forall|j: int|
                        0 <= j < i ==> s[j].id != id));
                    assert(first_index_of_id(s, id) == i as int) by {
                        let w = first_index_of_id(s, id);
                        assert(0 <= w < s.len() && s[w].id == id && (forall|j: int|
                            0 <= j < w ==> s[j].id != id));
                    }
                }
                Ok(&self.root.scenarios[i].scenario)
            },
            None => {
                let mut m = "Active scenario '".to_owned();
                m.append(self.active_scenario.as_str());
                m.append("' not found");
                Err(ConfigError::Validation(m))
            },
        }
    }

    /// The checks of the active scenario.
    pub fn get_scenario_checks(&self) -> (r: Result<&Vec<CheckConfig>, ConfigError>)
        ensures
            match r {
                Ok(cs) => self.wf() && cs.deep_view() == scenario_with_id(
                    self.deep_view().root.scenarios,
                    self.deep_view().active_scenario,
                ).checks,
                Err(e) => !self.wf() && e matches ConfigError::Validation(_),
            },
    {
        match self.get_active_scenario_data() {
            Ok(sc) => Ok(&sc.checks),
            Err(e) => Err(e),
        }
    }

    /// The identifiers of all registered scenarios, in registration order.
    pub fn get_scenario_ids(&self) -> (r: Vec<String>)
        ensures
            r.deep_view() =~= self.deep_view().root.scenarios.map_values(
                |e: ScenarioEntryV| e.id,
            ),
    {
        let mut ids: Vec<String> = Vec::new();
        let n = self.root.scenarios.len();
        let mut i: usize = 0;
        while i < n
            invariant
                0 <= i <= n,
                n == self.root.scenarios@.len(),
                self.deep_view().root.scenarios.len() == n,
                ids.deep_view() =~= self.deep_view().root.scenarios.map_values(
                    |e: ScenarioEntryV| e.id,
                ).take(i as int),
            decreases n - i,
        {
            let ghost pre = ids.deep_view();
            ids.push(self.root.scenarios[i].id.clone());
            proof {
                let target = self.deep_view().root.scenarios.map_values(|e: ScenarioEntryV| e.id);
                assert(ids.deep_view() =~= pre.push(self.deep_view().root.scenarios[i as int].id));
                assert(ids.deep_view() =~= target.take(i + 1));
            }
            i += 1;
        }
        ids
    }

    /// The enabled checks of the active scenario, in declared order;
    /// empty when the active scenario does not resolve.
    pub fn enabled_checks(&self) -> (r: Vec<CheckConfig>)
        ensures
            self.wf() ==> r.deep_view() == scenario_with_id(
                self.deep_view().root.scenarios,
                self.deep_view().active_scenario,
            ).checks.filter(|c: CheckConfigV| c.enabled),
            !self.wf() ==> r.deep_view() =~= Seq::<CheckConfigV>::empty(),
    {
        match self.get_scenario_checks() {
            Ok(checks) => {
                let n = checks.len();
                let mut out: Vec<CheckConfig> = Vec::new();
                let mut i: usize = 0;
                proof {
                    assert(checks.deep_view().take(0).filter(|c: CheckConfigV| c.enabled)
                        =~= Seq::<CheckConfigV>::empty()) by {
                        reveal(Seq::filter);
                    }
                }
                while i < n
                    invariant
                        0 <= i <= n,
                        n == checks@.len(),
                        checks.deep_view().len() == n,
                        out.deep_view() =~= checks.deep_view().take(i as int).filter(
                            |c: CheckConfigV| c.enabled,
                        ),
                    decreases n - i,
                {
                    proof {
                        reveal(Seq::filter);
                        assert(checks.deep_view().take(i + 1).drop_last() =~= checks.deep_view()
                            .take(i as int));
                        assert(checks.deep_view().take(i + 1).last() == checks.deep_view()[i as int]);
                    }
                    if checks[i].enabled {
                        out.push(checks[i].clone());
                    }
                    i += 1;
                }
                proof {
                    assert(checks.deep_view().take(n as int) =~= checks.deep_view());
                }
                out
            },
            Err(_) => Vec::new(),
        }
    }

    /// The poll interval of the active scenario, falling back to ten
    /// seconds when the scenario does not resolve.
    pub fn get_poll_interval(&self) -> (r: u64)
        ensures
            self.wf() ==> r == scenario_with_id(
                self.deep_view().root.scenarios,
                self.deep_view().active_scenario,
            ).poll_interval_seconds,
            !self.wf() ==> r == 10u64,
    {
        match self.get_active_scenario_data() {
            Ok(sc) => sc.poll_interval_seconds,
            Err(_) => 10,
        }
    }

    /// The notify-on-drift flag of the active scenario, falling back
    /// to `true` when the scenario does not resolve.
    pub fn get_notify_on_drift(&self) -> (r: bool)
        ensures
            self.wf() ==> r == scenario_with_id(
                self.deep_view().root.scenarios,
                self.deep_view().active_scenario,
            ).notify_on_drift,
            !self.wf() ==> r == true,
    {
        match self.get_active_scenario_data() {
            Ok(sc) => sc.notify_on_drift,
            Err(_) => true,
        }
    }
}

} // verus!
