//! The drift detector: which checks newly went from passing to failing,
//! against a baseline that remembers each check's last observed state.

use vstd::prelude::*;
use vstd::seq_lib::*;

use crate::checkers::{CheckResult, CheckResultV};

verus! {

/// The last observed pass/fail state per check identifier.  A check
/// absent from the baseline counts as previously passing, so its first
/// failure is still drift.
#[derive(Debug, PartialEq)]
pub struct DriftBaseline {
    entries: Vec<(String, bool)>,
}

/// The map a baseline's entries denote; later entries would win, though
/// a well-formed baseline never repeats a key.
pub open spec fn spec_baseline_map(entries: Seq<(String, bool)>) -> Map<Seq<char>, bool>
    decreases entries.len(),
{
    if entries.len() == 0 {
        Map::empty()
    } else {
        spec_baseline_map(entries.drop_last()).insert(
            entries.last().0.deep_view(),
            entries.last().1,
        )
    }
}

/// What the baseline says about one identifier: its recorded state, or
/// passing when it was never recorded.
pub open spec fn spec_was_passing(m: Map<Seq<char>, bool>, id: Seq<char>) -> bool {
    if m.contains_key(id) {
        m[id]
    } else {
        true
    }
}

/// The baseline after recording a result list, in order: each result's
/// pass/fail state overwrites its identifier's entry.
pub open spec fn spec_drift_after(m: Map<Seq<char>, bool>, rs: Seq<CheckResultV>) -> Map<
    Seq<char>,
    bool,
>
    decreases rs.len(),
{
    if rs.len() == 0 {
        m
    } else {
        spec_drift_after(m, rs.drop_last()).insert(rs.last().id, rs.last().passed)
    }
}

/// The results that drifted: those that fail now although the baseline,
/// updated by the results before them, said they were passing.
pub open spec fn spec_drifted(m: Map<Seq<char>, bool>, rs: Seq<CheckResultV>) -> Seq<CheckResultV>
    decreases rs.len(),
{
    if rs.len() == 0 {
        Seq::empty()
    } else {
        let prefix = spec_drifted(m, rs.drop_last());
        let before = spec_drift_after(m, rs.drop_last());
        if spec_was_passing(before, rs.last().id) && !rs.last().passed {
            prefix.push(rs.last())
        } else {
            prefix
        }
    }
}

impl DriftBaseline {
    /// Keys are recorded at most once.
    pub closed spec fn wf(&self) -> bool {
        forall|i: int, j: int|
            0 <= i < j < self.entries@.len() ==> self.entries@[i].0.deep_view()
                != self.entries@[j].0.deep_view()
    }

    /// The map this baseline denotes.
    pub closed spec fn view(&self) -> Map<Seq<char>, bool> {
        spec_baseline_map(self.entries@)
    }

    /// An empty baseline: every check counts as previously passing.
    pub fn new() -> (r: DriftBaseline)
        ensures
            r.view() =~= Map::<Seq<char>, bool>::empty(),
            r.wf(),
    {
        DriftBaseline { entries: Vec::new() }
    }

    /// Forget everything: every check counts as previously passing again.
    pub fn clear(&mut self)
        ensures
            final(self).view() =~= Map::<Seq<char>, bool>::empty(),
            final(self).wf(),
    {
        self.entries = Vec::new();
    }

    /// What the baseline says about one identifier.
    pub fn was_passing(&self, id: &str) -> (r: bool)
        requires
            self.wf(),
        ensures
            r == spec_was_passing(self.view(), id@),
    {
        let n = self.entries.len();
        let mut i: usize = 0;
        while i < n
            invariant
                0 <= i <= n,
                n == self.entries@.len(),
                self.wf(),
                forall|j: int| 0 <= j < i ==> self.entries@[j].0.deep_view() != id@,
            decreases n - i,
        {
            if crate::text::str_eq(self.entries[i].0.as_str(), id) {
                proof {
                    lemma_baseline_map_found(self.entries@, i as int);
                }
                return self.entries[i].1;
            }
            i += 1;
        }
        proof {
            lemma_baseline_map_absent(self.entries@, id@);
        }
        true
    }

    /// Record one identifier's state, overwriting any earlier record.
    pub fn set_state(&mut self, id: &str, passed: bool)
        requires
            old(self).wf(),
        ensures
            final(self).view() =~= old(self).view().insert(id@, passed),
            final(self).wf(),
    {
        let n = self.entries.len();
        let mut i: usize = 0;
        while i < n
            invariant
                0 <= i <= n,
                n == self.entries@.len(),
                self.entries@ == old(self).entries@,
                self.wf(),
                forall|j: int| 0 <= j < i ==> self.entries@[j].0.deep_view() != id@,
            decreases n - i,
        {
            if crate::text::str_eq(self.entries[i].0.as_str(), id) {
                let ghost pre = self.entries@;
                self.entries.set(i, (id.to_owned(), passed));
                proof {
                    assert(pre[i as int].0.deep_view() == id@);
                    lemma_baseline_map_update(pre, i as int, self.entries@);
                    assert(forall|a: int|
                        0 <= a < pre.len() ==> self.entries@[a].0.deep_view()
                            == pre[a].0.deep_view());
                    assert(self.wf());
                    assert(self.view() =~= spec_baseline_map(pre).insert(id@, passed));
                }
                return ;
            }
            i += 1;
        }
        let ghost pre = self.entries@;
        self.entries.push((id.to_owned(), passed));
        proof {
            assert(self.entries@.drop_last() =~= pre);
            assert(self.entries@.last().0.deep_view() == id@);
            assert(forall|j: int| 0 <= j < pre.len() ==> pre[j].0.deep_view() != id@);
            assert(self.view() =~= spec_baseline_map(pre).insert(id@, passed));
            assert(self.wf());
        }
    }

    /// Record a whole cycle's results in order and return the drifted
    /// subset: the results that fail now although the baseline said
    /// they were passing.  A check that stays failing across cycles is
    /// reported only once, on the transition.
    pub fn record_results(&mut self, results: &Vec<CheckResult>) -> (drifted: Vec<CheckResult>)
        requires
            old(self).wf(),
        ensures
            final(self).view() =~= spec_drift_after(old(self).view(), results.deep_view()),
            drifted.deep_view() =~= spec_drifted(old(self).view(), results.deep_view()),
            final(self).wf(),
    {
        let ghost m0 = self.view();
        let n = results.len();
        let mut out: Vec<CheckResult> = Vec::new();
        let mut i: usize = 0;
        while i < n
            invariant
                0 <= i <= n,
                n == results@.len(),
                results.deep_view().len() == n,
                self.wf(),
                self.view() =~= spec_drift_after(m0, results.deep_view().take(i as int)),
                out.deep_view() =~= spec_drifted(m0, results.deep_view().take(i as int)),
            decreases n - i,
        {
            proof {
                assert(results.deep_view().take(i + 1).drop_last() =~= results.deep_view().take(
                    i as int,
                ));
                assert(results.deep_view().take(i + 1).last() == results.deep_view()[i as int]);
            }
            let result = &results[i];
            let was = self.was_passing(result.id.as_str());
            if was && !result.passed {
                out.push(result.clone());
            }
            self.set_state(result.id.as_str(), result.passed);
            proof {
                assert(out.deep_view() =~= spec_drifted(m0, results.deep_view().take(i + 1)));
            }
            i += 1;
        }
        proof {
            assert(results.deep_view().take(n as int) =~= results.deep_view());
        }
        out
    }
}

proof fn lemma_baseline_map_found(entries: Seq<(String, bool)>, i: int)
    requires
        0 <= i < entries.len(),
        forall|a: int, b: int|
            0 <= a < b < entries.len() ==> entries[a].0.deep_view() != entries[b].0.deep_view(),
    ensures
        spec_baseline_map(entries).contains_key(entries[i].0.deep_view()),
        spec_baseline_map(entries)[entries[i].0.deep_view()] == entries[i].1,
    decreases entries.len(),
{
    if i == entries.len() - 1 {
    } else {
        lemma_baseline_map_found(entries.drop_last(), i);
    }
}

proof fn lemma_baseline_map_absent(entries: Seq<(String, bool)>, id: Seq<char>)
    requires
        forall|j: int| 0 <= j < entries.len() ==> entries[j].0.deep_view() != id,
    ensures
        !spec_baseline_map(entries).contains_key(id),
    decreases entries.len(),
{
    if entries.len() > 0 {
        lemma_baseline_map_absent(entries.drop_last(), id);
    }
}

proof fn lemma_baseline_map_update(pre: Seq<(String, bool)>, i: int, post: Seq<(String, bool)>)
    requires
        0 <= i < pre.len(),
        post.len() == pre.len(),
        forall|j: int| 0 <= j < pre.len() && j != i ==> post[j] == pre[j],
        post[i].0.deep_view() == pre[i].0.deep_view(),
        forall|a: int, b: int|
            0 <= a < b < pre.len() ==> pre[a].0.deep_view() != pre[b].0.deep_view(),
    ensures
        spec_baseline_map(post) =~= spec_baseline_map(pre).insert(pre[i].0.deep_view(), post[i].1),
    decreases pre.len(),
{
    if i == pre.len() - 1 {
        assert(post.drop_last() =~= pre.drop_last());
    } else {
        lemma_baseline_map_update(pre.drop_last(), i, post.drop_last());
        assert(post.last() == pre.last());
    }
}

proof fn lemma_drift_after_untouched(m: Map<Seq<char>, bool>, rs: Seq<CheckResultV>, id: Seq<char>)
    requires
        forall|i: int| 0 <= i < rs.len() ==> (#[trigger] rs[i]).id != id,
    ensures
        spec_drift_after(m, rs).contains_key(id) == m.contains_key(id),
        m.contains_key(id) ==> spec_drift_after(m, rs)[id] == m[id],
    decreases rs.len(),
{
    if rs.len() > 0 {
        lemma_drift_after_untouched(m, rs.drop_last(), id);
    }
}

proof fn lemma_drift_after_records(m: Map<Seq<char>, bool>, rs: Seq<CheckResultV>, i: int)
    requires
        0 <= i < rs.len(),
        forall|a: int, b: int| 0 <= a < b < rs.len() ==> rs[a].id != rs[b].id,
    ensures
        spec_drift_after(m, rs).contains_key(rs[i].id),
        spec_drift_after(m, rs)[rs[i].id] == rs[i].passed,
    decreases rs.len(),
{
    if i == rs.len() - 1 {
    } else {
        lemma_drift_after_records(m, rs.drop_last(), i);
    }
}

proof fn lemma_drifted_empty_when_settled(m1: Map<Seq<char>, bool>, rs: Seq<CheckResultV>)
    requires
        forall|i: int|
            0 <= i < rs.len() ==> m1.contains_key((#[trigger] rs[i]).id) && m1[rs[i].id]
                == rs[i].passed,
        forall|a: int, b: int| 0 <= a < b < rs.len() ==> rs[a].id != rs[b].id,
    ensures
        spec_drifted(m1, rs) =~= Seq::<CheckResultV>::empty(),
    decreases rs.len(),
{
    if rs.len() > 0 {
        lemma_drifted_empty_when_settled(m1, rs.drop_last());
        let last = rs.last();
        assert(forall|i: int| 0 <= i < rs.len() - 1 ==> (#[trigger] rs.drop_last()[i]).id != last.id);
        lemma_drift_after_untouched(m1, rs.drop_last(), last.id);
        assert(spec_was_passing(spec_drift_after(m1, rs.drop_last()), last.id) == last.passed);
    }
}

/// Drift detection is idempotent: after one run has updated the
/// baseline, running it again on the same results, with no
/// re-evaluation in between, drifts nothing — provided the results
/// carry distinct identifiers, as one scenario's checks do.
pub proof fn lemma_drift_idempotent(m: Map<Seq<char>, bool>, rs: Seq<CheckResultV>)
    requires
        forall|a: int, b: int| 0 <= a < b < rs.len() ==> rs[a].id != rs[b].id,
    ensures
        spec_drifted(spec_drift_after(m, rs), rs) =~= Seq::<CheckResultV>::empty(),
{
    let m1 = spec_drift_after(m, rs);
    assert forall|i: int| 0 <= i < rs.len() implies m1.contains_key((#[trigger] rs[i]).id)
        && m1[rs[i].id] == rs[i].passed by {
        lemma_drift_after_records(m, rs, i);
    }
    lemma_drifted_empty_when_settled(m1, rs);
}

/// Against an empty baseline every check counts as previously passing,
/// so exactly the failing results drift — provided the results carry
/// distinct identifiers, as one scenario's checks do.
pub proof fn lemma_drift_fresh_baseline(rs: Seq<CheckResultV>)
    requires
        forall|a: int, b: int| 0 <= a < b < rs.len() ==> rs[a].id != rs[b].id,
    ensures
        spec_drifted(Map::empty(), rs) =~= rs.filter(|r: CheckResultV| !r.passed),
    decreases rs.len(),
{
    reveal(Seq::filter);
    if rs.len() > 0 {
        lemma_drift_fresh_baseline(rs.drop_last());
        let last = rs.last();
        assert(forall|i: int| 0 <= i < rs.len() - 1 ==> (#[trigger] rs.drop_last()[i]).id != last.id);
        lemma_drift_after_untouched(Map::empty(), rs.drop_last(), last.id);
        assert(spec_was_passing(spec_drift_after(Map::empty(), rs.drop_last()), last.id));
    }
}

} // verus!
