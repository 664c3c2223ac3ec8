//! The shared-state coordinator: the live configuration, the last
//! results, the drift baseline and the exit latch, behind a command
//! surface.
//!
//! Callers serialize access with one lock around a value of this type;
//! every command here is a plain, total state transition.

use vstd::prelude::*;
use vstd::string::*;

use crate::checkers::{CheckResult, CheckResultV, OverallStatus};
use crate::config::{
    find_scenario_idx, has_scenario_id, lemma_first_index, scenario_ids_unique, scenario_with_id,
    CheckConfig, CheckConfigV, Config, ConfigM, ConfigV2V, Scenario, ScenarioEntry, ScenarioEntryV,
    ScenarioV, first_index_of_id,
};
use crate::dispatch::{enabled_count, run_all_checks, spec_run_all, ProbeReply};
use crate::drift::{spec_drift_after, spec_drifted, DriftBaseline};
use crate::text::{dec_str, u64_to_string};

verus! {

/// The state every command works on.
pub struct AppState {
    config: Config,
    last_results: Vec<CheckResult>,
    baseline: DriftBaseline,
    notify_on_drift: bool,
    exit_requested: bool,
}

/// The checks of the configuration's active scenario.
pub open spec fn spec_active_checks(cfg: ConfigM) -> Seq<CheckConfigV> {
    scenario_with_id(cfg.root.scenarios, cfg.active_scenario).checks
}

/// The active scenario of the configuration.
pub open spec fn spec_active_scenario(cfg: ConfigM) -> ScenarioV {
    scenario_with_id(cfg.root.scenarios, cfg.active_scenario)
}

/// The configuration after replacing the active scenario's data.
pub open spec fn spec_update_active(cfg: ConfigM, sc: ScenarioV) -> ConfigM {
    ConfigM {
        root: ConfigV2V {
            version: cfg.root.version,
            default_scenario: cfg.root.default_scenario,
            scenarios: cfg.root.scenarios.update(
                first_index_of_id(cfg.root.scenarios, cfg.active_scenario),
                ScenarioEntryV { id: cfg.active_scenario, scenario: sc },
            ),
        },
        active_scenario: cfg.active_scenario,
    }
}

fn clone_checks(v: &Vec<CheckConfig>) -> (r: Vec<CheckConfig>)
    ensures
        r@ =~= v@,
{
    let r = v.clone();
    proof {
        assert forall|k: int| 0 <= k < v@.len() implies r@[k] == v@[k] by {
            assert(vstd::pervasive::cloned::<CheckConfig>(v@[k], r@[k]));
        }
    }
    r
}

fn clone_results(v: &Vec<CheckResult>) -> (r: Vec<CheckResult>)
    ensures
        r@ =~= v@,
{
    let r = v.clone();
    proof {
        assert forall|k: int| 0 <= k < v@.len() implies r@[k] == v@[k] by {
            assert(vstd::pervasive::cloned::<CheckResult>(v@[k], r@[k]));
        }
    }
    r
}

impl AppState {
    /// The configuration the coordinator holds.
    pub closed spec fn cfg(&self) -> ConfigM {
        self.config.deep_view()
    }

    /// The most recent cycle's results.
    pub closed spec fn results(&self) -> Seq<CheckResultV> {
        self.last_results.deep_view()
    }

    /// The drift baseline's recorded states.
    pub closed spec fn baseline_map(&self) -> Map<Seq<char>, bool> {
        self.baseline.view()
    }

    /// The cached notify-on-drift flag of the active scenario.
    pub closed spec fn notify_flag(&self) -> bool {
        self.notify_on_drift
    }

    /// Whether the exit latch has been set.
    pub closed spec fn exiting(&self) -> bool {
        self.exit_requested
    }

    /// Well-formedness: the baseline never repeats a key, scenario
    /// identifiers are distinct, and the active scenario resolves.
    pub closed spec fn wf(&self) -> bool {
        &&& self.baseline.wf()
        &&& scenario_ids_unique(self.cfg().root.scenarios)
        &&& has_scenario_id(self.cfg().root.scenarios, self.cfg().active_scenario)
    }

    /// Start coordinating a loaded configuration: no results yet, an
    /// empty drift baseline, the active scenario's notify flag cached,
    /// and the exit latch unset.
    pub fn new(config: Config) -> (r: AppState)
        requires
            config.wf(),
            scenario_ids_unique(config.deep_view().root.scenarios),
        ensures
            r.wf(),
            r.cfg() == config.deep_view(),
            r.results() =~= Seq::<CheckResultV>::empty(),
            r.baseline_map() =~= Map::<Seq<char>, bool>::empty(),
            r.notify_flag() == spec_active_scenario(config.deep_view()).notify_on_drift,
            !r.exiting(),
    {
        let notify_on_drift = config.get_notify_on_drift();
        AppState {
            config,
            last_results: Vec::new(),
            baseline: DriftBaseline::new(),
            notify_on_drift,
            exit_requested: false,
        }
    }

    /// Set the one-way exit latch.
    pub fn signal_exit(&mut self)
        ensures
            final(self).exiting(),
            final(self).cfg() == old(self).cfg(),
            final(self).results() == old(self).results(),
            final(self).baseline_map() == old(self).baseline_map(),
            final(self).notify_flag() == old(self).notify_flag(),
            old(self).wf() ==> final(self).wf(),
    {
        self.exit_requested = true;
    }

    /// Whether the exit latch has been set.
    pub fn should_exit(&self) -> (r: bool)
        ensures
            r == self.exiting(),
    {
        self.exit_requested
    }

    /// One full cycle: evaluate the active scenario's enabled checks
    /// against the probe replies, derive the overall status, record the
    /// results in the drift baseline, and keep the results as the most
    /// recent ones.  The third component is the drifted subset to hand
    /// to the notification collaborator: present exactly when the
    /// cached notify flag is set and something drifted.
    pub fn run_checks(&mut self, replies: &Vec<ProbeReply>) -> (r: (
        Vec<CheckResult>,
        OverallStatus,
        Option<Vec<CheckResult>>,
    ))
        requires
            old(self).wf(),
            replies@.len() == enabled_count(spec_active_checks(old(self).cfg())),
        ensures
            final(self).wf(),
            final(self).cfg() == old(self).cfg(),
            final(self).notify_flag() == old(self).notify_flag(),
            final(self).exiting() == old(self).exiting(),
            r.0.deep_view() == spec_run_all(spec_active_checks(old(self).cfg()), replies@),
            final(self).results() == r.0.deep_view(),
            r.1 == crate::checkers::spec_status(r.0.deep_view()),
            final(self).baseline_map() =~= spec_drift_after(
                old(self).baseline_map(),
                r.0.deep_view(),
            ),
            match r.2 {
                Some(d) => old(self).notify_flag() && d.deep_view() =~= spec_drifted(
                    old(self).baseline_map(),
                    r.0.deep_view(),
                ) && d@.len() > 0,
                None => !old(self).notify_flag() || spec_drifted(
                    old(self).baseline_map(),
                    r.0.deep_view(),
                ).len() == 0,
            },
    {
        let results = match self.config.get_scenario_checks() {
            Ok(checks) => run_all_checks(checks.as_slice(), replies),
            Err(_) => {
                proof {
                    assert(false);
                }
                Vec::new()
            },
        };
        let status = OverallStatus::from_results(results.as_slice());
        let drifted = self.baseline.record_results(&results);
        let to_notify = if self.notify_on_drift && drifted.len() > 0 {
            Some(drifted)
        } else {
            None
        };
        self.last_results = clone_results(&results);
        proof {
            assert(self.last_results.deep_view() =~= results.deep_view());
        }
        (results, status, to_notify)
    }

    /// The most recent cycle's results.
    pub fn get_last_results(&self) -> (r: Vec<CheckResult>)
        ensures
            r.deep_view() == self.results(),
    {
        let r = clone_results(&self.last_results);
        proof {
            assert(r.deep_view() =~= self.last_results.deep_view());
        }
        r
    }

    /// The coarse status of the most recent cycle.
    pub fn get_status(&self) -> (r: OverallStatus)
        ensures
            r == crate::checkers::spec_status(self.results()),
    {
        OverallStatus::from_results(self.last_results.as_slice())
    }

    /// The active scenario's poll interval, ten seconds when it does
    /// not resolve.
    pub fn get_poll_interval(&self) -> (r: u64)
        ensures
            has_scenario_id(self.cfg().root.scenarios, self.cfg().active_scenario) ==> r
                == spec_active_scenario(self.cfg()).poll_interval_seconds,
            !has_scenario_id(self.cfg().root.scenarios, self.cfg().active_scenario) ==> r == 10u64,
    {
        self.config.get_poll_interval()
    }

    /// The cached notify-on-drift flag.
    pub fn get_notify_on_drift(&self) -> (r: bool)
        ensures
            r == self.notify_flag(),
    {
        self.notify_on_drift
    }

    /// A copy of the configuration.
    pub fn get_config(&self) -> (r: Config)
        ensures
            r.deep_view() == self.cfg(),
    {
        self.config.clone()
    }

    /// Replace the configuration, as a reload does: the cached notify
    /// flag follows the new active scenario; results and baseline are
    /// kept.
    pub fn install_config(&mut self, config: Config)
        requires
            old(self).wf(),
            config.wf(),
            scenario_ids_unique(config.deep_view().root.scenarios),
        ensures
            final(self).wf(),
            final(self).cfg() == config.deep_view(),
            final(self).notify_flag() == spec_active_scenario(config.deep_view()).notify_on_drift,
            final(self).results() == old(self).results(),
            final(self).baseline_map() == old(self).baseline_map(),
            final(self).exiting() == old(self).exiting(),
    {
        self.notify_on_drift = config.get_notify_on_drift();
        self.config = config;
    }

    /// The identifier of the active scenario.
    pub fn get_active_scenario(&self) -> (r: String)
        ensures
            r@ == self.cfg().active_scenario,
    {
        self.config.active_scenario.clone()
    }

    /// The display name of the active scenario, "Unknown" when it does
    /// not resolve.
    pub fn get_active_scenario_name(&self) -> (r: String)
        ensures
            has_scenario_id(self.cfg().root.scenarios, self.cfg().active_scenario) ==> r@
                == spec_active_scenario(self.cfg()).name,
            !has_scenario_id(self.cfg().root.scenarios, self.cfg().active_scenario) ==> r@
                == "Unknown"@,
    {
        match self.config.get_active_scenario_data() {
            Ok(sc) => sc.name.clone(),
            Err(_) => "Unknown".to_owned(),
        }
    }

    /// Switch the active scenario.  Switching validates the identifier,
    /// clears the drift baseline — drift is scenario-relative, never
    /// compared across scenarios — and re-caches the notify flag.
    pub fn set_active_scenario(&mut self, scenario_id: &str) -> (r: Result<(), String>)
        requires
            old(self).wf(),
        ensures
            final(self).wf(),
            final(self).exiting() == old(self).exiting(),
            match r {
                Ok(_) => {
                    &&& has_scenario_id(old(self).cfg().root.scenarios, scenario_id@)
                    &&& final(self).cfg().root == old(self).cfg().root
                    &&& final(self).cfg().active_scenario == scenario_id@
                    &&& final(self).baseline_map() =~= Map::<Seq<char>, bool>::empty()
                    &&& final(self).notify_flag() == scenario_with_id(
                        old(self).cfg().root.scenarios,
                        scenario_id@,
                    ).notify_on_drift
                    &&& final(self).results() == old(self).results()
                },
                Err(_) => {
                    &&& !has_scenario_id(old(self).cfg().root.scenarios, scenario_id@)
                    &&& final(self).cfg() == old(self).cfg()
                    &&& final(self).baseline_map() == old(self).baseline_map()
                    &&& final(self).notify_flag() == old(self).notify_flag()
                    &&& final(self).results() == old(self).results()
                },
            },
    {
        match find_scenario_idx(&self.config.root.scenarios, scenario_id) {
            Some(i) => {
                proof {
                    lemma_first_index(self.cfg().root.scenarios, scenario_id@, i as int);
                }
                self.config.active_scenario = scenario_id.to_owned();
                self.baseline.clear();
                self.notify_on_drift = self.config.root.scenarios[i].scenario.notify_on_drift;
                proof {
                    lemma_first_index(self.cfg().root.scenarios, scenario_id@, i as int);
                }
                Ok(())
            },
            None => {
                let mut m = "Scenario '".to_owned();
                m.append(scenario_id);
                m.append("' not found");
                Err(m)
            },
        }
    }

    /// Replace the active scenario's data in place; `i` must be the
    /// first index carrying the active identifier.
    fn replace_active_scenario(&mut self, i: usize, scenario: Scenario)
        requires
            old(self).wf(),
            i < old(self).cfg().root.scenarios.len(),
            old(self).cfg().root.scenarios[i as int].id == old(self).cfg().active_scenario,
            forall|j: int|
                0 <= j < i ==> old(self).cfg().root.scenarios[j].id != old(self).cfg().active_scenario,
        ensures
            final(self).wf(),
            final(self).cfg() == spec_update_active(old(self).cfg(), scenario.deep_view()),
            final(self).results() == old(self).results(),
            final(self).baseline_map() == old(self).baseline_map(),
            final(self).notify_flag() == old(self).notify_flag(),
            final(self).exiting() == old(self).exiting(),
    {
        proof {
            lemma_first_index(
                self.cfg().root.scenarios,
                self.cfg().active_scenario,
                i as int,
            );
        }
        let id = self.config.root.scenarios[i].id.clone();
        let ghost pre = self.cfg();
        self.config.root.scenarios.set(i, ScenarioEntry { id, scenario });
        proof {
            assert(self.cfg().root.scenarios =~= pre.root.scenarios.update(
                i as int,
                ScenarioEntryV {
                    id: pre.active_scenario,
                    scenario: self.config.root.scenarios@[i as int].scenario.deep_view(),
                },
            ));
            assert(forall|k: int|
                0 <= k < pre.root.scenarios.len() ==> (#[trigger] self.cfg().root.scenarios[k]).id
                    == pre.root.scenarios[k].id);
            assert(self.cfg().active_scenario == pre.active_scenario);
            assert(self.cfg().root.scenarios[i as int].id == pre.active_scenario);
            assert(has_scenario_id(self.cfg().root.scenarios, self.cfg().active_scenario));
            assert(scenario_ids_unique(self.cfg().root.scenarios));
            assert(self.baseline.wf());
        }
    }

    /// Update the active scenario's poll interval.
    pub fn set_poll_interval(&mut self, seconds: u64)
        requires
            old(self).wf(),
        ensures
            final(self).wf(),
            final(self).cfg() == spec_update_active(
                old(self).cfg(),
                (ScenarioV {
                    name: spec_active_scenario(old(self).cfg()).name,
                    description: spec_active_scenario(old(self).cfg()).description,
                    poll_interval_seconds: seconds,
                    notify_on_drift: spec_active_scenario(old(self).cfg()).notify_on_drift,
                    checks: spec_active_scenario(old(self).cfg()).checks,
                }),
            ),
            final(self).results() == old(self).results(),
            final(self).baseline_map() == old(self).baseline_map(),
            final(self).notify_flag() == old(self).notify_flag(),
            final(self).exiting() == old(self).exiting(),
    {
        match find_scenario_idx(&self.config.root.scenarios, self.config.active_scenario.as_str()) {
            Some(i) => {
                proof {
                    lemma_first_index(
                        self.cfg().root.scenarios,
                        self.cfg().active_scenario,
                        i as int,
                    );
                }
                let new_scenario = {
                    let sc = &self.config.root.scenarios[i].scenario;
                    Scenario {
                        name: sc.name.clone(),
                        description: sc.description.clone(),
                        poll_interval_seconds: seconds,
                        notify_on_drift: sc.notify_on_drift,
                        checks: clone_checks(&sc.checks),
                    }
                };
                proof {
                    assert(new_scenario.deep_view().checks =~= spec_active_scenario(
                        self.cfg(),
                    ).checks);
                }
                self.replace_active_scenario(i, new_scenario);
            },
            None => {
                proof {
                    assert(false);
                }
            },
        }
    }

    /// Update the active scenario's notify-on-drift flag, and the
    /// cached copy of it.
    pub fn set_notify_on_drift(&mut self, enabled: bool)
        requires
            old(self).wf(),
        ensures
            final(self).wf(),
            final(self).notify_flag() == enabled,
            final(self).cfg() == spec_update_active(
                old(self).cfg(),
                (ScenarioV {
                    name: spec_active_scenario(old(self).cfg()).name,
                    description: spec_active_scenario(old(self).cfg()).description,
                    poll_interval_seconds: spec_active_scenario(
                        old(self).cfg(),
                    ).poll_interval_seconds,
                    notify_on_drift: enabled,
                    checks: spec_active_scenario(old(self).cfg()).checks,
                }),
            ),
            final(self).results() == old(self).results(),
            final(self).baseline_map() == old(self).baseline_map(),
            final(self).exiting() == old(self).exiting(),
    {
        self.notify_on_drift = enabled;
        match find_scenario_idx(&self.config.root.scenarios, self.config.active_scenario.as_str()) {
            Some(i) => {
                proof {
                    lemma_first_index(
                        self.cfg().root.scenarios,
                        self.cfg().active_scenario,
                        i as int,
                    );
                }
                let new_scenario = {
                    let sc = &self.config.root.scenarios[i].scenario;
                    Scenario {
                        name: sc.name.clone(),
                        description: sc.description.clone(),
                        poll_interval_seconds: sc.poll_interval_seconds,
                        notify_on_drift: enabled,
                        checks: clone_checks(&sc.checks),
                    }
                };
                proof {
                    assert(new_scenario.deep_view().checks =~= spec_active_scenario(
                        self.cfg(),
                    ).checks);
                }
                self.replace_active_scenario(i, new_scenario);
            },
            None => {
                proof {
                    assert(false);
                }
            },
        }
    }

    /// Append a check to the active scenario.
    pub fn add_check(&mut self, check: CheckConfig)
        requires
            old(self).wf(),
        ensures
            final(self).wf(),
            final(self).cfg() == spec_update_active(
                old(self).cfg(),
                (ScenarioV {
                    name: spec_active_scenario(old(self).cfg()).name,
                    description: spec_active_scenario(old(self).cfg()).description,
                    poll_interval_seconds: spec_active_scenario(
                        old(self).cfg(),
                    ).poll_interval_seconds,
                    notify_on_drift: spec_active_scenario(old(self).cfg()).notify_on_drift,
                    checks: spec_active_scenario(old(self).cfg()).checks.push(check.deep_view()),
                }),
            ),
            final(self).results() == old(self).results(),
            final(self).baseline_map() == old(self).baseline_map(),
            final(self).notify_flag() == old(self).notify_flag(),
            final(self).exiting() == old(self).exiting(),
    {
        match find_scenario_idx(&self.config.root.scenarios, self.config.active_scenario.as_str()) {
            Some(i) => {
                proof {
                    lemma_first_index(
                        self.cfg().root.scenarios,
                        self.cfg().active_scenario,
                        i as int,
                    );
                }
                let new_scenario = {
                    let sc = &self.config.root.scenarios[i].scenario;
                    let mut checks = clone_checks(&sc.checks);
                    checks.push(check);
                    Scenario {
                        name: sc.name.clone(),
                        description: sc.description.clone(),
                        poll_interval_seconds: sc.poll_interval_seconds,
                        notify_on_drift: sc.notify_on_drift,
                        checks,
                    }
                };
                proof {
                    assert(new_scenario.deep_view().checks =~= spec_active_scenario(
                        self.cfg(),
                    ).checks.push(new_scenario.checks@.last().deep_view()));
                }
                self.replace_active_scenario(i, new_scenario);
            },
            None => {
                proof {
                    assert(false);
                }
            },
        }
    }

    /// Remove every check with this identifier from the active
    /// scenario.
    pub fn remove_check(&mut self, check_id: &str)
        requires
            old(self).wf(),
        ensures
            final(self).wf(),
            final(self).cfg() == spec_update_active(
                old(self).cfg(),
                (ScenarioV {
                    name: spec_active_scenario(old(self).cfg()).name,
                    description: spec_active_scenario(old(self).cfg()).description,
                    poll_interval_seconds: spec_active_scenario(
                        old(self).cfg(),
                    ).poll_interval_seconds,
                    notify_on_drift: spec_active_scenario(old(self).cfg()).notify_on_drift,
                    checks: spec_active_scenario(old(self).cfg()).checks.filter(
                        |c: CheckConfigV| c.id != check_id@,
                    ),
                }),
            ),
            final(self).results() == old(self).results(),
            final(self).baseline_map() == old(self).baseline_map(),
            final(self).notify_flag() == old(self).notify_flag(),
            final(self).exiting() == old(self).exiting(),
    {
        match find_scenario_idx(&self.config.root.scenarios, self.config.active_scenario.as_str()) {
            Some(i) => {
                proof {
                    lemma_first_index(
                        self.cfg().root.scenarios,
                        self.cfg().active_scenario,
                        i as int,
                    );
                }
                let new_scenario = {
                    let sc = &self.config.root.scenarios[i].scenario;
                    let n = sc.checks.len();
                    let mut kept: Vec<CheckConfig> = Vec::new();
                    let mut k: usize = 0;
                    proof {
                        reveal(Seq::filter);
                        assert(sc.checks.deep_view().take(0).filter(
                            |c: CheckConfigV| c.id != check_id@,
                        ) =~= Seq::<CheckConfigV>::empty());
                    }
                    while k < n
                        invariant
                            0 <= k <= n,
                            n == sc.checks@.len(),
                            sc.checks.deep_view().len() == n,
                            kept.deep_view() =~= sc.checks.deep_view().take(k as int).filter(
                                |c: CheckConfigV| c.id != check_id@,
                            ),
                        decreases n - k,
                    {
                        proof {
                            reveal(Seq::filter);
                            assert(sc.checks.deep_view().take(k + 1).drop_last() =~= sc.checks
                                .deep_view().take(k as int));
                            assert(sc.checks.deep_view().take(k + 1).last() == sc.checks.deep_view()[k as int]);
                        }
                        if !crate::text::str_eq(sc.checks[k].id.as_str(), check_id) {
                            kept.push(sc.checks[k].clone());
                        }
                        k += 1;
                    }
                    proof {
                        assert(sc.checks.deep_view().take(n as int) =~= sc.checks.deep_view());
                    }
                    Scenario {
                        name: sc.name.clone(),
                        description: sc.description.clone(),
                        poll_interval_seconds: sc.poll_interval_seconds,
                        notify_on_drift: sc.notify_on_drift,
                        checks: kept,
                    }
                };
                self.replace_active_scenario(i, new_scenario);
            },
            None => {
                proof {
                    assert(false);
                }
            },
        }
    }
}

/// Whether some check in `checks` carries `id`.
pub open spec fn has_check_id(checks: Seq<CheckConfigV>, id: Seq<char>) -> bool {
    exists|i: int| 0 <= i < checks.len() && checks[i].id == id
}

/// Index of the first check carrying `id`.
pub open spec fn first_check_index(checks: Seq<CheckConfigV>, id: Seq<char>) -> int {
    choose|i: int|
        0 <= i < checks.len() && checks[i].id == id && (forall|j: int|
            0 <= j < i ==> checks[j].id != id)
}

/// A first match pins down `first_check_index`.
pub proof fn lemma_first_check_index(checks: Seq<CheckConfigV>, id: Seq<char>, i: int)
    requires
        0 <= i < checks.len(),
        checks[i].id == id,
        forall|j: int| 0 <= j < i ==> checks[j].id != id,
    ensures
        first_check_index(checks, id) == i,
{
    let w = first_check_index(checks, id);
    assert(0 <= w < checks.len() && checks[w].id == id && (forall|j: int|
        0 <= j < w ==> checks[j].id != id));
}

/// Find the first check carrying `id`.
fn find_check_idx(checks: &Vec<CheckConfig>, id: &str) -> (r: Option<usize>)
    ensures
        match r {
            Some(i) => i < checks@.len() && checks.deep_view()[i as int].id == id@ && (forall|
                j: int,
            |
                0 <= j < i ==> checks.deep_view()[j].id != id@),
            None => !has_check_id(checks.deep_view(), id@),
        },
{
    let n = checks.len();
    let mut i: usize = 0;
    while i < n
        invariant
            0 <= i <= n,
            n == checks@.len(),
            checks.deep_view().len() == n,
            forall|j: int| 0 <= j < i ==> checks.deep_view()[j].id != id@,
        decreases n - i,
    {
        if crate::text::str_eq(checks[i].id.as_str(), id) {
            return Some(i);
        }
        i += 1;
    }
    None
}

/// A check with its enabled flag flipped.
pub open spec fn spec_toggled(c: CheckConfigV) -> CheckConfigV {
    CheckConfigV {
        id: c.id,
        name: c.name,
        check_type: c.check_type,
        enabled: !c.enabled,
        registry_path: c.registry_path,
        registry_key: c.registry_key,
        process_name: c.process_name,
        expected_value: c.expected_value,
    }
}

impl AppState {
    /// Flip the enabled flag of the first check with this identifier
    /// in the active scenario; without a match nothing changes.
    pub fn toggle_check(&mut self, id: &str)
        requires
            old(self).wf(),
        ensures
            final(self).wf(),
            has_check_id(spec_active_checks(old(self).cfg()), id@) ==> final(self).cfg()
                == spec_update_active(
                old(self).cfg(),
                (ScenarioV {
                    name: spec_active_scenario(old(self).cfg()).name,
                    description: spec_active_scenario(old(self).cfg()).description,
                    poll_interval_seconds: spec_active_scenario(
                        old(self).cfg(),
                    ).poll_interval_seconds,
                    notify_on_drift: spec_active_scenario(old(self).cfg()).notify_on_drift,
                    checks: spec_active_checks(old(self).cfg()).update(
                        first_check_index(spec_active_checks(old(self).cfg()), id@),
                        spec_toggled(
                            spec_active_checks(old(self).cfg())[first_check_index(
                                spec_active_checks(old(self).cfg()),
                                id@,
                            )],
                        ),
                    ),
                }),
            ),
            !has_check_id(spec_active_checks(old(self).cfg()), id@) ==> final(self).cfg() == old(self).cfg(),
            final(self).results() == old(self).results(),
            final(self).baseline_map() == old(self).baseline_map(),
            final(self).notify_flag() == old(self).notify_flag(),
            final(self).exiting() == old(self).exiting(),
    {
        match find_scenario_idx(&self.config.root.scenarios, self.config.active_scenario.as_str()) {
            Some(i) => {
                proof {
                    lemma_first_index(
                        self.cfg().root.scenarios,
                        self.cfg().active_scenario,
                        i as int,
                    );
                }
                let maybe_scenario = {
                    let sc = &self.config.root.scenarios[i].scenario;
                    match find_check_idx(&sc.checks, id) {
                        None => None,
                        Some(j) => {
                            proof {
                                lemma_first_check_index(sc.checks.deep_view(), id@, j as int);
                            }
                            let mut checks = clone_checks(&sc.checks);
                            let flipped = {
                                let c = &sc.checks[j];
                                CheckConfig {
                                    id: c.id.clone(),
                                    name: c.name.clone(),
                                    check_type: c.check_type,
                                    enabled: !c.enabled,
                                    registry_path: c.registry_path.clone(),
                                    registry_key: c.registry_key.clone(),
                                    process_name: c.process_name.clone(),
                                    expected_value: c.expected_value.clone(),
                                }
                            };
                            checks.set(j, flipped);
                            proof {
                                assert(checks.deep_view() =~= sc.checks.deep_view().update(
                                    j as int,
                                    spec_toggled(sc.checks.deep_view()[j as int]),
                                ));
                            }
                            Some(
                                Scenario {
                                    name: sc.name.clone(),
                                    description: sc.description.clone(),
                                    poll_interval_seconds: sc.poll_interval_seconds,
                                    notify_on_drift: sc.notify_on_drift,
                                    checks,
                                },
                            )
                        },
                    }
                };
                match maybe_scenario {
                    Some(new_scenario) => {
                        self.replace_active_scenario(i, new_scenario);
                    },
                    None => {},
                }
            },
            None => {
                proof {
                    assert(false);
                }
            },
        }
    }

    /// Replace the first check with the given check's identifier in
    /// the active scenario; without a match nothing changes.
    pub fn update_check(&mut self, check: CheckConfig)
        requires
            old(self).wf(),
        ensures
            final(self).wf(),
            has_check_id(spec_active_checks(old(self).cfg()), check.deep_view().id) ==> final(self).cfg() == spec_update_active(
                old(self).cfg(),
                (ScenarioV {
                    name: spec_active_scenario(old(self).cfg()).name,
                    description: spec_active_scenario(old(self).cfg()).description,
                    poll_interval_seconds: spec_active_scenario(
                        old(self).cfg(),
                    ).poll_interval_seconds,
                    notify_on_drift: spec_active_scenario(old(self).cfg()).notify_on_drift,
                    checks: spec_active_checks(old(self).cfg()).update(
                        first_check_index(
                            spec_active_checks(old(self).cfg()),
                            check.deep_view().id,
                        ),
                        check.deep_view(),
                    ),
                }),
            ),
            !has_check_id(spec_active_checks(old(self).cfg()), check.deep_view().id) ==> final(self).cfg() == old(self).cfg(),
            final(self).results() == old(self).results(),
            final(self).baseline_map() == old(self).baseline_map(),
            final(self).notify_flag() == old(self).notify_flag(),
            final(self).exiting() == old(self).exiting(),
    {
        match find_scenario_idx(&self.config.root.scenarios, self.config.active_scenario.as_str()) {
            Some(i) => {
                proof {
                    lemma_first_index(
                        self.cfg().root.scenarios,
                        self.cfg().active_scenario,
                        i as int,
                    );
                }
                let maybe_scenario = {
                    let sc = &self.config.root.scenarios[i].scenario;
                    match find_check_idx(&sc.checks, check.id.as_str()) {
                        None => None,
                        Some(j) => {
                            proof {
                                lemma_first_check_index(
                                    sc.checks.deep_view(),
                                    check.deep_view().id,
                                    j as int,
                                );
                            }
                            let mut checks = clone_checks(&sc.checks);
                            checks.set(j, check);
                            proof {
                                assert(checks.deep_view() =~= sc.checks.deep_view().update(
                                    j as int,
                                    checks@[j as int].deep_view(),
                                ));
                            }
                            Some(
                                Scenario {
                                    name: sc.name.clone(),
                                    description: sc.description.clone(),
                                    poll_interval_seconds: sc.poll_interval_seconds,
                                    notify_on_drift: sc.notify_on_drift,
                                    checks,
                                },
                            )
                        },
                    }
                };
                match maybe_scenario {
                    Some(new_scenario) => {
                        self.replace_active_scenario(i, new_scenario);
                    },
                    None => {},
                }
            },
            None => {
                proof {
                    assert(false);
                }
            },
        }
    }

    /// Register a new scenario under a fresh identifier.
    pub fn add_scenario(&mut self, id: &str, scenario: Scenario) -> (r: Result<(), String>)
        requires
            old(self).wf(),
        ensures
            final(self).wf(),
            match r {
                Ok(_) => {
                    &&& !has_scenario_id(old(self).cfg().root.scenarios, id@)
                    &&& final(self).cfg().root.scenarios =~= old(self).cfg().root.scenarios.push(
                        (ScenarioEntryV { id: id@, scenario: scenario.deep_view() }),
                    )
                    &&& final(self).cfg().root.version == old(self).cfg().root.version
                    &&& final(self).cfg().root.default_scenario == old(self).cfg().root.default_scenario
                    &&& final(self).cfg().active_scenario == old(self).cfg().active_scenario
                },
                Err(_) => has_scenario_id(old(self).cfg().root.scenarios, id@) && final(self).cfg()
                    == old(self).cfg(),
            },
            final(self).results() == old(self).results(),
            final(self).baseline_map() == old(self).baseline_map(),
            final(self).notify_flag() == old(self).notify_flag(),
            final(self).exiting() == old(self).exiting(),
    {
        match find_scenario_idx(&self.config.root.scenarios, id) {
            Some(_) => {
                let mut m = "Scenario '".to_owned();
                m.append(id);
                m.append("' already exists");
                Err(m)
            },
            None => {
                let ghost pre = self.cfg().root.scenarios;
                self.config.root.scenarios.push(ScenarioEntry { id: id.to_owned(), scenario });
                proof {
                    assert(self.cfg().root.scenarios.drop_last() =~= pre);
                    assert(forall|j: int|
                        0 <= j < pre.len() ==> (#[trigger] self.cfg().root.scenarios[j]).id == pre[j].id);
                    assert(self.cfg().root.scenarios.last().id == id@);
                }
                Ok(())
            },
        }
    }
}

/// The listing triple of a scenario entry: identifier, display name,
/// description.
pub open spec fn spec_scenario_triples(s: Seq<ScenarioEntryV>) -> Seq<
    (Seq<char>, Seq<char>, Seq<char>),
> {
    s.map_values(|e: ScenarioEntryV| (e.id, e.scenario.name, e.scenario.description))
}

/// Insert a triple before the first entry whose identifier does not
/// precede it.
pub open spec fn spec_insert_by_id(
    x: (Seq<char>, Seq<char>, Seq<char>),
    s: Seq<(Seq<char>, Seq<char>, Seq<char>)>,
) -> Seq<(Seq<char>, Seq<char>, Seq<char>)>
    decreases s.len(),
{
    if s.len() == 0 {
        seq![x]
    } else if crate::text::lex_le(x.0, s[0].0) {
        seq![x] + s
    } else {
        seq![s[0]] + spec_insert_by_id(x, s.drop_first())
    }
}

/// Insertion sort of the listing triples by identifier, from the left.
pub open spec fn spec_sort_by_id_from(
    acc: Seq<(Seq<char>, Seq<char>, Seq<char>)>,
    rest: Seq<(Seq<char>, Seq<char>, Seq<char>)>,
) -> Seq<(Seq<char>, Seq<char>, Seq<char>)>
    decreases rest.len(),
{
    if rest.len() == 0 {
        acc
    } else {
        spec_sort_by_id_from(spec_insert_by_id(rest[0], acc), rest.drop_first())
    }
}

/// The scenario listing: one triple per entry, sorted by identifier
/// for a consistent order.
pub open spec fn spec_sorted_scenarios(s: Seq<ScenarioEntryV>) -> Seq<
    (Seq<char>, Seq<char>, Seq<char>),
> {
    spec_sort_by_id_from(Seq::empty(), spec_scenario_triples(s))
}

proof fn lemma_insert_by_id_at(
    x: (Seq<char>, Seq<char>, Seq<char>),
    s: Seq<(Seq<char>, Seq<char>, Seq<char>)>,
    k: int,
)
    requires
        0 <= k <= s.len(),
        forall|j: int| 0 <= j < k ==> !crate::text::lex_le(x.0, (#[trigger] s[j]).0),
        k < s.len() ==> crate::text::lex_le(x.0, s[k].0),
    ensures
        spec_insert_by_id(x, s) =~= s.insert(k, x),
    decreases s.len(),
{
    if s.len() == 0 {
        assert(spec_insert_by_id(x, s) =~= s.insert(0, x));
    } else if k == 0 {
        assert(seq![x] + s =~= s.insert(0, x));
    } else {
        assert(!crate::text::lex_le(x.0, s[0].0));
        assert(forall|j: int|
            0 <= j < k - 1 ==> !crate::text::lex_le(x.0, (#[trigger] s.drop_first()[j]).0));
        lemma_insert_by_id_at(x, s.drop_first(), k - 1);
        assert(seq![s[0]] + s.drop_first().insert(k - 1, x) =~= s.insert(k, x));
    }
}

fn insert_triple(v: &mut Vec<(String, String, String)>, x: (String, String, String))
    ensures
        final(v).deep_view() =~= spec_insert_by_id(x.deep_view(), old(v).deep_view()),
{
    let n = v.len();
    let mut k: usize = 0;
    while k < n && !crate::text::str_le(x.0.as_str(), v[k].0.as_str())
        invariant
            0 <= k <= n,
            n == v@.len(),
            v.deep_view().len() == n,
            v@ == old(v)@,
            forall|j: int|
                0 <= j < k ==> !crate::text::lex_le(
                    x.deep_view().0,
                    (#[trigger] v.deep_view()[j]).0,
                ),
        decreases n - k,
    {
        k += 1;
    }
    proof {
        lemma_insert_by_id_at(x.deep_view(), v.deep_view(), k as int);
    }
    let ghost pre = v.deep_view();
    let ghost pre_shallow = v@;
    let ghost xv = x.deep_view();
    v.insert(k, x);
    proof {
        assert(v@ =~= pre_shallow.insert(k as int, v@[k as int]));
        assert(v@[k as int].deep_view() == xv);
        assert(v.deep_view() =~= pre.insert(k as int, xv)) by {
            assert(forall|j: int| 0 <= j < k ==> v@[j] == pre_shallow[j]);
            assert(forall|j: int|
                k < j < v@.len() ==> v@[j] == pre_shallow[j - 1]);
            assert(forall|j: int| 0 <= j < pre.len() ==> pre[j] == pre_shallow[j].deep_view());
        }
    }
}

impl AppState {
    /// The registered scenarios as (identifier, name, description)
    /// triples, sorted by identifier for a consistent order.
    pub fn get_scenarios(&self) -> (r: Vec<(String, String, String)>)
        ensures
            r.deep_view() =~= spec_sorted_scenarios(self.cfg().root.scenarios),
    {
        let entries = &self.config.root.scenarios;
        let n = entries.len();
        let ghost triples = spec_scenario_triples(self.cfg().root.scenarios);
        let mut out: Vec<(String, String, String)> = Vec::new();
        let mut i: usize = 0;
        proof {
            assert(triples.skip(0) =~= triples);
            assert(out.deep_view() =~= Seq::<(Seq<char>, Seq<char>, Seq<char>)>::empty());
        }
        while i < n
            invariant
                0 <= i <= n,
                n == entries@.len(),
                triples == spec_scenario_triples(self.cfg().root.scenarios),
                triples.len() == n,
                entries@ == self.config.root.scenarios@,
                spec_sort_by_id_from(out.deep_view(), triples.skip(i as int))
                    == spec_sort_by_id_from(Seq::empty(), triples),
            decreases n - i,
        {
            let entry = &entries[i];
            let t = (entry.id.clone(), entry.scenario.name.clone(), entry.scenario.description.clone());
            proof {
                assert(t.deep_view() == triples[i as int]);
                assert(triples.skip(i as int)[0] == triples[i as int]);
                assert(triples.skip(i as int).drop_first() =~= triples.skip(i + 1));
            }
            insert_triple(&mut out, t);
            i += 1;
        }
        proof {
            assert(triples.skip(n as int) =~= Seq::<(Seq<char>, Seq<char>, Seq<char>)>::empty());
        }
        out
    }
}

/// How many results passed.
pub open spec fn spec_count_passed(s: Seq<CheckResultV>) -> nat
    decreases s.len(),
{
    if s.len() == 0 {
        0
    } else {
        spec_count_passed(s.drop_last()) + (if s.last().passed {
            1nat
        } else {
            0nat
        })
    }
}

/// The status word the tray tooltip shows.
pub open spec fn spec_status_text(st: OverallStatus) -> Seq<char> {
    match st {
        OverallStatus::AllPassed => "All OK"@,
        OverallStatus::SomeFailed => "Some Issues"@,
        OverallStatus::AllFailed => "Action Needed"@,
    }
}

/// The active scenario's display name, "Unknown" when it does not
/// resolve.
pub open spec fn spec_scenario_name_or_unknown(cfg: ConfigM) -> Seq<char> {
    if has_scenario_id(cfg.root.scenarios, cfg.active_scenario) {
        spec_active_scenario(cfg).name
    } else {
        "Unknown"@
    }
}

/// The tray tooltip: the product line, the active scenario's name, and
/// either a no-results note or the status with its counts.
pub open spec fn spec_tooltip(cfg: ConfigM, results: Seq<CheckResultV>) -> Seq<char> {
    let name = spec_scenario_name_or_unknown(cfg);
    if results.len() == 0 {
        "Bench Checklist\n"@ + name + "\nNo checks run yet"@
    } else {
        "Bench Checklist\n"@ + name + "\n"@ + spec_status_text(crate::checkers::spec_status(results))
            + " ("@ + dec_str(spec_count_passed(results)) + "/"@ + dec_str(results.len()) + ")"@
    }
}

impl AppState {
    /// The tray tooltip for the current state.
    pub fn get_tooltip(&self) -> (r: String)
        ensures
            r@ == spec_tooltip(self.cfg(), self.results()),
    {
        let name = self.get_active_scenario_name();
        let mut out = "Bench Checklist\n".to_owned();
        out.append(name.as_str());
        if self.last_results.len() == 0 {
            out.append("\nNo checks run yet");
            return out;
        }
        let n = self.last_results.len();
        let mut passed: usize = 0;
        let mut i: usize = 0;
        proof {
            assert(self.results().take(0) =~= Seq::<CheckResultV>::empty());
        }
        while i < n
            invariant
                0 <= i <= n,
                n == self.last_results@.len(),
                self.results().len() == n,
                passed <= i,
                passed == spec_count_passed(self.results().take(i as int)),
            decreases n - i,
        {
            proof {
                assert(self.results().take(i + 1).drop_last() =~= self.results().take(i as int));
                assert(self.results().take(i + 1).last() == self.results()[i as int]);
            }
            if self.last_results[i].passed {
                passed += 1;
            }
            i += 1;
        }
        proof {
            assert(self.results().take(n as int) =~= self.results());
        }
        let status = OverallStatus::from_results(self.last_results.as_slice());
        out.append("\n");
        match status {
            OverallStatus::AllPassed => out.append("All OK"),
            OverallStatus::SomeFailed => out.append("Some Issues"),
            OverallStatus::AllFailed => out.append("Action Needed"),
        }
        out.append(" (");
        let p = u64_to_string(passed as u64);
        out.append(p.as_str());
        out.append("/");
        let t = u64_to_string(n as u64);
        out.append(t.as_str());
        out.append(")");
        out
    }
}

} // verus!
