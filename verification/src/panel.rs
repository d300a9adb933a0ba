use vstd::prelude::*;
use crate::report::{Failure, Reason, Report, TestCase, TestResult, TestSuite};

verus! {

/// A collapsible entry for a test case: its title and one label per failure.
#[derive(Clone, Debug)]
pub struct CaseView {
    pub title: String,
    pub failures: Vec<String>,
}

/// A collapsible entry for a test suite: its title and one entry per test case.
#[derive(Clone, Debug)]
pub struct SuiteView {
    pub title: String,
    pub testcases: Vec<CaseView>,
}

/// What the result panel draws, top to bottom.
#[derive(Clone, Debug)]
pub enum Widget {
    Label(String),
    Suite(SuiteView),
}

/// The mark put before a name: a check mark when it passed, a cross when not.
pub open spec fn status_mark(ok: bool) -> char {
    if ok { '\u{2714}' } else { '\u{2716}' }
}

/// A title: the status mark, a space, and the name.
pub open spec fn titled(ok: bool, name: Seq<char>) -> Seq<char> {
    seq![status_mark(ok), ' '] + name
}

/// A suite passed when it counted no failure, or counted none at all.
pub open spec fn suite_ok(s: TestSuite) -> bool {
    match s.failures {
        Some(n) => n == 0,
        None => true,
    }
}

/// A test case passed when it has no failure.
pub open spec fn case_ok(c: TestCase) -> bool {
    c.failures@.len() == 0
}

pub open spec fn case_view_of(v: CaseView, c: TestCase) -> bool {
    &&& v.title@ == titled(case_ok(c), c.name@)
    &&& v.failures@.len() == c.failures@.len()
    &&& forall|i: int| 0 <= i < v.failures@.len() ==> #[trigger] v.failures@[i]@ == c.failures@[i].message@
}

pub open spec fn suite_view_of(v: SuiteView, s: TestSuite) -> bool {
    &&& v.title@ == titled(suite_ok(s), s.name@)
    &&& v.testcases@.len() == s.testcases@.len()
    &&& forall|i: int| 0 <= i < v.testcases@.len() ==> case_view_of(#[trigger] v.testcases@[i], s.testcases@[i])
}

/// The widgets for a report: one suite entry per test suite, in order.
pub open spec fn report_widgets(ws: Seq<Widget>, r: Report) -> bool {
    &&& ws.len() == r.testsuites@.len()
    &&& forall|i: int| 0 <= i < ws.len() ==> match #[trigger] ws[i] {
        Widget::Suite(v) => suite_view_of(v, r.testsuites@[i]),
        Widget::Label(_) => false,
    }
}

/// The widgets for a reason: those of its report, and nothing for the others.
pub open spec fn reason_widgets(ws: Seq<Widget>, reason: Reason) -> bool {
    match reason {
        Reason::Report(r) => report_widgets(ws, r),
        _ => ws.len() == 0,
    }
}

/// The text shown when there is no result yet.
pub open spec fn no_result_text() -> Seq<char> {
    seq!['N', 'o', ' ', 'r', 'e', 's', 'u', 'l', 't', 's']
}

/// The widgets for the panel: a "No results" label without a result, else
/// those of the result's reason, passed or failed alike.
pub open spec fn panel_widgets(ws: Seq<Widget>, result: Option<TestResult>) -> bool {
    match result {
        None => ws.len() == 1 && match ws[0] {
            Widget::Label(l) => l@ == no_result_text(),
            Widget::Suite(_) => false,
        },
        Some(r) => reason_widgets(ws, r.reason()),
    }
}

fn title(ok: bool, name: &String) -> (t: String)
    ensures
        t@ == titled(ok, name@),
{
    let mark = if ok { "\u{2714} " } else { "\u{2716} " };
    proof {
        reveal_strlit("\u{2714} ");
        reveal_strlit("\u{2716} ");
        assert(mark@ =~= seq![status_mark(ok), ' ']);
    }
    mark.to_owned().concat(name.as_str())
}

/// The entry for a test case: its marked name and one label per failure message.
pub fn show_testcase(testcase: &TestCase) -> (v: CaseView)
    ensures
        case_view_of(v, *testcase),
        v.title@.len() == testcase.name@.len() + 2,
        (v.title@[0] == '\u{2714}') <==> testcase.failures@.len() == 0,
        (v.title@[0] == '\u{2716}') <==> testcase.failures@.len() > 0,
{
    let ok = testcase.failures.len() == 0;
    let mut failures: Vec<String> = Vec::new();
    let n = testcase.failures.len();
    for i in 0..n
        invariant
            n == testcase.failures@.len(),
            failures@.len() == i,
            forall|j: int| 0 <= j < i ==> #[trigger] failures@[j]@ == testcase.failures@[j].message@,
    {
        let failure: &Failure = &testcase.failures[i];
        failures.push(failure.message.clone());
    }
    CaseView { title: title(ok, &testcase.name), failures }
}

/// The entry for a test suite: its marked name and one entry per test case.
pub fn show_testsuite(testsuite: &TestSuite) -> (v: SuiteView)
    ensures
        suite_view_of(v, *testsuite),
        v.title@.len() == testsuite.name@.len() + 2,
        (v.title@[0] == '\u{2714}') <==> (testsuite.failures is None || testsuite.failures == Some(0u64)),
        (v.title@[0] == '\u{2716}') <==> (testsuite.failures matches Some(n) && n > 0),
{
    let ok = match testsuite.failures {
        Some(n) => n == 0,
        None => true,
    };
    let mut testcases: Vec<CaseView> = Vec::new();
    let n = testsuite.testcases.len();
    for i in 0..n
        invariant
            n == testsuite.testcases@.len(),
            testcases@.len() == i,
            forall|j: int| 0 <= j < i ==> case_view_of(#[trigger] testcases@[j], testsuite.testcases@[j]),
    {
        testcases.push(show_testcase(&testsuite.testcases[i]));
    }
    SuiteView { title: title(ok, &testsuite.name), testcases }
}

/// The widgets for a report: one entry per test suite.
pub fn show_reason_report(report: &Report) -> (ws: Vec<Widget>)
    ensures
        report_widgets(ws@, *report),
{
    let mut ws: Vec<Widget> = Vec::new();
    let n = report.testsuites.len();
    for i in 0..n
        invariant
            n == report.testsuites@.len(),
            ws@.len() == i,
            forall|j: int| 0 <= j < i ==> match #[trigger] ws@[j] {
                Widget::Suite(v) => suite_view_of(v, report.testsuites@[j]),
                Widget::Label(_) => false,
            },
    {
        ws.push(Widget::Suite(show_testsuite(&report.testsuites[i])));
    }
    ws
}

/// The widgets for a reason: a report shows its suites, other reasons show nothing.
pub fn show_reason(reason: &Reason) -> (ws: Vec<Widget>)
    ensures
        reason_widgets(ws@, *reason),
{
    match reason {
        Reason::Report(report) => show_reason_report(report),
        _ => Vec::new(),
    }
}

/// The widgets for a result: those of its reason.
pub fn show_result(test_result: &TestResult) -> (ws: Vec<Widget>)
    ensures
        reason_widgets(ws@, test_result.reason()),
{
    match test_result {
        TestResult::Pass(reason) => show_reason(reason),
        TestResult::Fail(reason) => show_reason(reason),
    }
}

/// The widgets of the result panel.
pub fn show(test_result: &Option<TestResult>) -> (ws: Vec<Widget>)
    ensures
        panel_widgets(ws@, *test_result),
        test_result is None ==> ws@.len() == 1 && (ws@[0] matches Widget::Label(l)
            && l@ == seq!['N', 'o', ' ', 'r', 'e', 's', 'u', 'l', 't', 's']),
        test_result matches Some(r) ==> (r.reason() matches Reason::Report(rep)
            ==> ws@.len() == rep.testsuites@.len()),
        test_result matches Some(r) ==> (!(r.reason() is Report) ==> ws@.len() == 0),
{
    match test_result {
        Some(r) => show_result(r),
        None => {
            let text = "No results";
            proof {
                reveal_strlit("No results");
                assert(text@ =~= no_result_text());
            }
            let mut ws: Vec<Widget> = Vec::new();
            ws.push(Widget::Label(text.to_owned()));
            ws
        },
    }
}

/// A test case's entry is titled with its name after a mark and a space; the
/// mark is a check mark exactly when the case has no failure, and a cross
/// exactly when it has at least one; it lists every failure message in order.
pub proof fn lemma_case_mark(v: CaseView, c: TestCase)
    requires
        case_view_of(v, c),
    ensures
        v.title@.len() == c.name@.len() + 2,
        v.title@[1] == ' ',
        v.title@.subrange(2, v.title@.len() as int) == c.name@,
        (v.title@[0] == '\u{2714}') <==> c.failures@.len() == 0,
        (v.title@[0] == '\u{2716}') <==> c.failures@.len() > 0,
        v.failures@.len() == c.failures@.len(),
        forall|i: int| 0 <= i < c.failures@.len() ==> #[trigger] v.failures@[i]@ == c.failures@[i].message@,
{
    assert(v.title@.subrange(2, v.title@.len() as int) =~= c.name@);
}

/// A test suite's entry is titled with its name after a mark and a space; the
/// mark is a check mark exactly when the suite counted no failure or did not
/// count them, and a cross exactly when it counted one or more.
pub proof fn lemma_suite_mark(v: SuiteView, s: TestSuite)
    requires
        suite_view_of(v, s),
    ensures
        v.title@.len() == s.name@.len() + 2,
        v.title@[1] == ' ',
        v.title@.subrange(2, v.title@.len() as int) == s.name@,
        (v.title@[0] == '\u{2714}') <==> (s.failures is None || s.failures == Some(0u64)),
        (v.title@[0] == '\u{2716}') <==> (s.failures matches Some(n) && n > 0),
        v.testcases@.len() == s.testcases@.len(),
{
    assert(v.title@.subrange(2, v.title@.len() as int) =~= s.name@);
}

} // verus!
