//! Check results, the overall status, and the dispatcher that routes a
//! check to the probe outcome that evaluates it.

use vstd::prelude::*;
use vstd::string::*;

verus! {

/// The outcome of evaluating one check.
#[derive(Debug, PartialEq)]
pub struct CheckResult {
    pub id: String,
    pub name: String,
    pub passed: bool,
    pub current_value: String,
    pub expected_value: String,
    pub message: String,
}

/// Mathematical model of a `CheckResult`.
pub struct CheckResultV {
    pub id: Seq<char>,
    pub name: Seq<char>,
    pub passed: bool,
    pub current_value: Seq<char>,
    pub expected_value: Seq<char>,
    pub message: Seq<char>,
}

impl DeepView for CheckResult {
    type V = CheckResultV;

    open spec fn deep_view(&self) -> CheckResultV {
        CheckResultV {
            id: self.id.deep_view(),
            name: self.name.deep_view(),
            passed: self.passed,
            current_value: self.current_value.deep_view(),
            expected_value: self.expected_value.deep_view(),
            message: self.message.deep_view(),
        }
    }
}

impl Clone for CheckResult {
    fn clone(&self) -> (r: Self)
        ensures
            r == *self,
    {
        CheckResult {
            id: self.id.clone(),
            name: self.name.clone(),
            passed: self.passed,
            current_value: self.current_value.clone(),
            expected_value: self.expected_value.clone(),
            message: self.message.clone(),
        }
    }
}

/// A passing result: the setting holds its expected value.
pub open spec fn spec_pass_result(
    id: Seq<char>,
    name: Seq<char>,
    current: Seq<char>,
    expected: Seq<char>,
) -> CheckResultV {
    CheckResultV {
        id,
        name,
        passed: true,
        current_value: current,
        expected_value: expected,
        message: name + " is correctly set"@,
    }
}

/// A failing result: the setting holds some other value.
pub open spec fn spec_fail_result(
    id: Seq<char>,
    name: Seq<char>,
    current: Seq<char>,
    expected: Seq<char>,
) -> CheckResultV {
    CheckResultV {
        id,
        name,
        passed: false,
        current_value: current,
        expected_value: expected,
        message: name + ": expected '"@ + expected + "', got '"@ + current + "'"@,
    }
}

/// An error result: the probe itself could not be completed.
pub open spec fn spec_error_result(id: Seq<char>, name: Seq<char>, error: Seq<char>) -> CheckResultV {
    CheckResultV {
        id,
        name,
        passed: false,
        current_value: "ERROR"@,
        expected_value: Seq::<char>::empty(),
        message: name + ": "@ + error,
    }
}

impl CheckResult {
    /// Build a passing result.
    pub fn pass(id: &str, name: &str, current: &str, expected: &str) -> (r: CheckResult)
        ensures
            r.deep_view() == spec_pass_result(id@, name@, current@, expected@),
    {
        let mut message = name.to_owned();
        message.append(" is correctly set");
        CheckResult {
            id: id.to_owned(),
            name: name.to_owned(),
            passed: true,
            current_value: current.to_owned(),
            expected_value: expected.to_owned(),
            message,
        }
    }

    /// Build a failing result.
    pub fn fail(id: &str, name: &str, current: &str, expected: &str) -> (r: CheckResult)
        ensures
            r.deep_view() == spec_fail_result(id@, name@, current@, expected@),
    {
        let mut message = name.to_owned();
        message.append(": expected '");
        message.append(expected);
        message.append("', got '");
        message.append(current);
        message.append("'");
        CheckResult {
            id: id.to_owned(),
            name: name.to_owned(),
            passed: false,
            current_value: current.to_owned(),
            expected_value: expected.to_owned(),
            message,
        }
    }

    /// Build an error result.
    pub fn error(id: &str, name: &str, error: &str) -> (r: CheckResult)
        ensures
            r.deep_view() == spec_error_result(id@, name@, error@),
    {
        let mut message = name.to_owned();
        message.append(": ");
        message.append(error);
        let expected = String::new();
        CheckResult {
            id: id.to_owned(),
            name: name.to_owned(),
            passed: false,
            current_value: "ERROR".to_owned(),
            expected_value: expected,
            message,
        }
    }
}

/// The view of a probed GUID outcome.
pub open spec fn view_res_guid(r: Result<u128, String>) -> Result<u128, Seq<char>> {
    match r {
        Result::Ok(v) => Result::Ok(v),
        Result::Err(e) => Result::Err(e.deep_view()),
    }
}

/// The view of a probed DWORD outcome.
pub open spec fn view_res_u32(r: Result<u32, String>) -> Result<u32, Seq<char>> {
    match r {
        Result::Ok(v) => Result::Ok(v),
        Result::Err(e) => Result::Err(e.deep_view()),
    }
}

/// The view of a probed string outcome.
pub open spec fn view_res_text(r: Result<String, String>) -> Result<Seq<char>, Seq<char>> {
    match r {
        Result::Ok(v) => Result::Ok(v.deep_view()),
        Result::Err(e) => Result::Err(e.deep_view()),
    }
}

/// The view of a probed process-list outcome.
pub open spec fn view_res_names(r: Result<Vec<String>, String>) -> Result<
    Seq<Seq<char>>,
    Seq<char>,
> {
    match r {
        Result::Ok(v) => Result::Ok(v.deep_view()),
        Result::Err(e) => Result::Err(e.deep_view()),
    }
}

/// A probe failure, by subsystem.
#[derive(Debug, PartialEq)]
pub enum CheckError {
    WindowsApi(String),
    Registry(String),
    Config(String),
}

/// The coarse status of a whole result set.
#[derive(Clone, Copy, Debug, PartialEq, Eq, Structural)]
pub enum OverallStatus {
    AllPassed,
    SomeFailed,
    AllFailed,
}

/// Whether every result in `s` passed.
pub open spec fn all_passed(s: Seq<CheckResultV>) -> bool {
    forall|i: int| 0 <= i < s.len() ==> (#[trigger] s[i]).passed
}

/// Whether no result in `s` passed.
pub open spec fn none_passed(s: Seq<CheckResultV>) -> bool {
    forall|i: int| 0 <= i < s.len() ==> !(#[trigger] s[i]).passed
}

/// The status derived from a result set: all-passed when the set is
/// empty or every result passed, all-failed when none passed, and
/// some-failed otherwise.
pub open spec fn spec_status(s: Seq<CheckResultV>) -> OverallStatus {
    if all_passed(s) {
        OverallStatus::AllPassed
    } else if none_passed(s) {
        OverallStatus::AllFailed
    } else {
        OverallStatus::SomeFailed
    }
}

impl OverallStatus {
    /// Reduce a result set to its coarse status.
    pub fn from_results(results: &[CheckResult]) -> (r: OverallStatus)
        ensures
            r == spec_status(results.deep_view()),
    {
        let n = results.len();
        let mut i: usize = 0;
        let mut seen_pass: bool = false;
        let mut seen_fail: bool = false;
        while i < n
            invariant
                0 <= i <= n,
                n == results@.len(),
                results.deep_view().len() == n,
                seen_pass == !none_passed(results.deep_view().take(i as int)),
                seen_fail == !all_passed(results.deep_view().take(i as int)),
            decreases n - i,
        {
            let ghost pre = results.deep_view().take(i as int);
            let ghost post = results.deep_view().take(i + 1);
            proof {
                assert(post.drop_last() =~= pre);
                assert(post.last() == results.deep_view()[i as int]);
                assert(forall|j: int| 0 <= j < i ==> post[j] == pre[j]);
            }
            if results[i].passed {
                seen_pass = true;
            } else {
                seen_fail = true;
            }
            proof {
                if !results.deep_view()[i as int].passed {
                    assert(!all_passed(post));
                } else {
                    assert(!none_passed(post));
                }
                if seen_pass && none_passed(post) {
                    assert(false);
                }
                if !seen_pass {
                    assert(forall|j: int| 0 <= j < post.len() ==> !(#[trigger] post[j]).passed);
                }
                if !seen_fail {
                    assert(forall|j: int| 0 <= j < post.len() ==> (#[trigger] post[j]).passed);
                }
            }
            i += 1;
        }
        proof {
            assert(results.deep_view().take(n as int) =~= results.deep_view());
        }
        if !seen_fail {
            OverallStatus::AllPassed
        } else if !seen_pass {
            OverallStatus::AllFailed
        } else {
            OverallStatus::SomeFailed
        }
    }
}

} // verus!
