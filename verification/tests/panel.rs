use provola::{
    show, show_reason, show_result, show_testcase, show_testsuite, Failure, Reason, Report,
    TestCase, TestResult, TestSuite, Widget,
};

fn case(name: &str, failures: &[&str]) -> TestCase {
    TestCase {
        name: name.to_string(),
        failures: failures.iter().map(|m| Failure { message: m.to_string() }).collect(),
    }
}

fn sample_report() -> Report {
    Report {
        name: Some("all".to_string()),
        testsuites: vec![
            TestSuite {
                name: "math".to_string(),
                failures: Some(0),
                testcases: vec![case("adds", &[]), case("subtracts", &[])],
            },
            TestSuite {
                name: "io".to_string(),
                failures: Some(2),
                testcases: vec![case("reads", &["eof", "short read"])],
            },
            TestSuite { name: "misc".to_string(), failures: None, testcases: vec![] },
        ],
    }
}

#[test]
fn no_result_shows_label() {
    let ws = show(&None);
    assert_eq!(ws.len(), 1);
    match &ws[0] {
        Widget::Label(l) => assert_eq!(l, "No results"),
        _ => panic!("expected a label"),
    }
}

#[test]
fn testcase_titles_and_failures() {
    let v = show_testcase(&case("adds", &[]));
    assert_eq!(v.title, "\u{2714} adds");
    assert!(v.failures.is_empty());
    let v = show_testcase(&case("reads", &["eof", "short read"]));
    assert_eq!(v.title, "\u{2716} reads");
    assert_eq!(v.failures, vec!["eof".to_string(), "short read".to_string()]);
}

#[test]
fn testsuite_mark_follows_failure_count() {
    let r = sample_report();
    let v = show_testsuite(&r.testsuites[0]);
    assert_eq!(v.title, "\u{2714} math");
    assert_eq!(v.testcases.len(), 2);
    assert_eq!(v.testcases[1].title, "\u{2714} subtracts");
    let v = show_testsuite(&r.testsuites[1]);
    assert_eq!(v.title, "\u{2716} io");
    let v = show_testsuite(&r.testsuites[2]);
    assert_eq!(v.title, "\u{2714} misc");
    assert!(v.testcases.is_empty());
}

#[test]
fn report_shows_one_entry_per_suite() {
    let ws = show(&Some(TestResult::Fail(Reason::Report(sample_report()))));
    let titles: Vec<String> = ws
        .iter()
        .map(|w| match w {
            Widget::Suite(s) => s.title.clone(),
            Widget::Label(_) => panic!("expected a suite"),
        })
        .collect();
    assert_eq!(titles, vec!["\u{2714} math", "\u{2716} io", "\u{2714} misc"]);
    let passed = show(&Some(TestResult::Pass(Reason::Report(sample_report()))));
    assert_eq!(passed.len(), 3);
}

#[test]
fn other_reasons_show_nothing() {
    assert!(show_reason(&Reason::Unknown).is_empty());
    assert!(show_reason(&Reason::Generic("boom".to_string())).is_empty());
    assert!(show_reason(&Reason::NotExpected {
        actual: "1".to_string(),
        expected: "2".to_string()
    })
    .is_empty());
    assert!(show_result(&TestResult::Pass(Reason::Unknown)).is_empty());
    let empty = Report { name: None, testsuites: vec![] };
    assert!(show(&Some(TestResult::Pass(Reason::Report(empty)))).is_empty());
}
