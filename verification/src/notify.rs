//! Notification texts: what the toast collaborator shows when checks
//! drift, composed here so the collaborator only delivers it.

use vstd::prelude::*;
use vstd::string::*;

use crate::checkers::{CheckResult, CheckResultV, OverallStatus};
use crate::text::{dec_str, u64_to_string};

verus! {

/// One drifted check's line: its name and the change that was seen.
pub open spec fn spec_drift_line(r: CheckResultV) -> Seq<char> {
    "\u{2022} "@ + r.name + ": "@ + r.expected_value + " \u{2192} "@ + r.current_value
}

/// The shown lines, joined with newlines.
pub open spec fn spec_drift_lines(s: Seq<CheckResultV>) -> Seq<char>
    decreases s.len(),
{
    if s.len() == 0 {
        Seq::empty()
    } else if s.len() == 1 {
        spec_drift_line(s[0])
    } else {
        spec_drift_lines(s.drop_last()) + "\n"@ + spec_drift_line(s.last())
    }
}

/// The notification title: how many settings changed.
pub open spec fn spec_drift_title(n: nat) -> Seq<char> {
    if n == 1 {
        "\u{26a0} Setting Changed"@
    } else {
        "\u{26a0} "@ + dec_str(n) + " Settings Changed"@
    }
}

/// The notification body: the first three drifted checks, and a
/// trailing count of any further ones.
pub open spec fn spec_drift_body(s: Seq<CheckResultV>) -> Seq<char> {
    let shown = if s.len() <= 3 {
        s
    } else {
        s.take(3)
    };
    if s.len() > 3 {
        spec_drift_lines(shown) + "\n... and "@ + dec_str((s.len() - 3) as nat) + " more"@
    } else {
        spec_drift_lines(shown)
    }
}

fn drift_line(r: &CheckResult) -> (out: String)
    ensures
        out@ == spec_drift_line(r.deep_view()),
{
    let mut line = "\u{2022} ".to_owned();
    line.append(r.name.as_str());
    line.append(": ");
    line.append(r.expected_value.as_str());
    line.append(" \u{2192} ");
    line.append(r.current_value.as_str());
    line
}

/// The toast for a drifted subset: its title and body, or nothing when
/// no check drifted.  At most three checks are named; the rest are
/// summarized as a count.
pub fn drift_notification(failed: &Vec<CheckResult>) -> (r: Option<(String, String)>)
    ensures
        match r {
            None => failed@.len() == 0,
            Some(t) => failed@.len() > 0 && t.0@ == spec_drift_title(failed.deep_view().len())
                && t.1@ == spec_drift_body(failed.deep_view()),
        },
{
    let n = failed.len();
    if n == 0 {
        return None;
    }
    let title = if n == 1 {
        "\u{26a0} Setting Changed".to_owned()
    } else {
        let mut t = "\u{26a0} ".to_owned();
        let c = u64_to_string(n as u64);
        t.append(c.as_str());
        t.append(" Settings Changed");
        t
    };
    let shown: usize = if n <= 3 {
        n
    } else {
        3
    };
    let mut body = drift_line(&failed[0]);
    let mut i: usize = 1;
    proof {
        let target = if failed.deep_view().len() <= 3 {
            failed.deep_view()
        } else {
            failed.deep_view().take(3)
        };
        assert(target.take(1) =~= seq![failed.deep_view()[0]]);
        assert(spec_drift_lines(target.take(1)) == spec_drift_line(failed.deep_view()[0]));
    }
    while i < shown
        invariant
            1 <= i <= shown,
            shown == if n <= 3 {
                n
            } else {
                3
            },
            n == failed@.len(),
            failed.deep_view().len() == n,
            body@ == spec_drift_lines(
                (if failed.deep_view().len() <= 3 {
                    failed.deep_view()
                } else {
                    failed.deep_view().take(3)
                }).take(i as int),
            ),
        decreases shown - i,
    {
        let ghost target = if failed.deep_view().len() <= 3 {
            failed.deep_view()
        } else {
            failed.deep_view().take(3)
        };
        proof {
            assert(target.take(i + 1).drop_last() =~= target.take(i as int));
            assert(target.take(i + 1).last() == failed.deep_view()[i as int]);
            assert(target.take(i + 1).len() == i + 1 >= 2);
        }
        body.append("\n");
        let line = drift_line(&failed[i]);
        body.append(line.as_str());
        i += 1;
    }
    proof {
        let target = if failed.deep_view().len() <= 3 {
            failed.deep_view()
        } else {
            failed.deep_view().take(3)
        };
        assert(target.take(shown as int) =~= target);
    }
    if n > 3 {
        body.append("\n... and ");
        let c = u64_to_string((n - 3) as u64);
        body.append(c.as_str());
        body.append(" more");
    }
    Some((title, body))
}

/// The toast title and body for an overall status with its counts.
pub open spec fn spec_status_summary(status: OverallStatus, passed: nat, total: nat) -> (
    Seq<char>,
    Seq<char>,
) {
    match status {
        OverallStatus::AllPassed => (
            "All Checks Passed"@,
            dec_str(passed) + "/"@ + dec_str(total) + " checks passed"@,
        ),
        OverallStatus::SomeFailed => (
            "Some Checks Failed"@,
            dec_str(passed) + "/"@ + dec_str(total) + " checks passed"@,
        ),
        OverallStatus::AllFailed => (
            "All Checks Failed"@,
            "0/"@ + dec_str(total) + " checks passed - review your settings"@,
        ),
    }
}

/// Render the toast title and body for an overall status.
pub fn status_summary(status: OverallStatus, passed: usize, total: usize) -> (r: (String, String))
    ensures
        r.0@ == spec_status_summary(status, passed as nat, total as nat).0,
        r.1@ == spec_status_summary(status, passed as nat, total as nat).1,
{
    match status {
        OverallStatus::AllPassed => {
            let mut body = u64_to_string(passed as u64);
            body.append("/");
            let t = u64_to_string(total as u64);
            body.append(t.as_str());
            body.append(" checks passed");
            ("All Checks Passed".to_owned(), body)
        },
        OverallStatus::SomeFailed => {
            let mut body = u64_to_string(passed as u64);
            body.append("/");
            let t = u64_to_string(total as u64);
            body.append(t.as_str());
            body.append(" checks passed");
            ("Some Checks Failed".to_owned(), body)
        },
        OverallStatus::AllFailed => {
            let mut body = "0/".to_owned();
            let t = u64_to_string(total as u64);
            body.append(t.as_str());
            body.append(" checks passed - review your settings");
            ("All Checks Failed".to_owned(), body)
        },
    }
}

} // verus!
