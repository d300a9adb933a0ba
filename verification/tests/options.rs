use provola::{Action, Actions, Language, Opt, TestRunnerType};

fn opts() -> Opt {
    Opt {
        debug: false,
        watch: None,
        input: None,
        output: None,
        lang: None,
        source: None,
        test_runner: None,
        test_runner_type: None,
    }
}

#[test]
fn lang_given_wins_over_guess() {
    let o = Opt { lang: Some(Language::C), source: Some("main.rs".to_string()), ..opts() };
    assert_eq!(o.lang_or_guess(), Some(Language::C));
}

#[test]
fn lang_guessed_from_source() {
    let o = Opt { source: Some("main.rs".to_string()), ..opts() };
    assert_eq!(o.lang_or_guess(), Some(Language::Rust));
    assert_eq!(opts().lang_or_guess(), None);
}

#[test]
fn infer_fills_language_once() {
    let mut o = Opt { source: Some("prog.cpp".to_string()), ..opts() };
    o.infer_options();
    assert_eq!(o.lang, Some(Language::Cpp));
    o.infer_options();
    assert_eq!(o.lang, Some(Language::Cpp));
    assert_eq!(o.source.as_deref(), Some("prog.cpp"));
}

#[test]
fn build_and_test_takes_precedence() {
    let o = Opt {
        lang: Some(Language::Rust),
        source: Some("a.rs".to_string()),
        input: Some("in.txt".to_string()),
        output: Some("out.txt".to_string()),
        test_runner: Some("./runner".to_string()),
        test_runner_type: Some(TestRunnerType::Catch2),
        ..opts()
    };
    match Action::from_options(&o) {
        Action::BuildTestInputOutput(l, s, i, out) => {
            assert_eq!(l, Language::Rust);
            assert_eq!(s.0, "a.rs");
            assert_eq!(i.0, "in.txt");
            assert_eq!(out.0, "out.txt");
        }
        other => panic!("unexpected {:?}", other),
    }
}

#[test]
fn test_runner_action() {
    let o = Opt {
        source: Some("a.rs".to_string()),
        test_runner: Some("./runner".to_string()),
        test_runner_type: Some(TestRunnerType::GoogleTest),
        ..opts()
    };
    match Action::from_options(&o) {
        Action::TestRunner(info) => {
            assert_eq!(info.executable, "./runner");
            assert_eq!(info.trt, TestRunnerType::GoogleTest);
        }
        other => panic!("unexpected {:?}", other),
    }
}

#[test]
fn nothing_asked() {
    assert!(matches!(Action::from_options(&opts()), Action::Nothing));
    let o = Opt { test_runner: Some("./runner".to_string()), ..opts() };
    assert!(matches!(Action::from_options(&o), Action::Nothing));
    // Without a language given, the command-line action does not guess one.
    let o = Opt {
        source: Some("a.rs".to_string()),
        input: Some("in".to_string()),
        output: Some("out".to_string()),
        ..opts()
    };
    assert!(matches!(Action::from_options(&o), Action::Nothing));
}

#[test]
fn actions_build_then_test() {
    let o = Opt {
        source: Some("a.rs".to_string()),
        input: Some("in".to_string()),
        output: Some("out".to_string()),
        ..opts()
    };
    let Actions(v) = Actions::from_options(&o);
    assert_eq!(v.len(), 2);
    match &v[0] {
        Action::Build(l, s) => {
            assert_eq!(*l, Language::Rust);
            assert_eq!(s.0, "a.rs");
        }
        other => panic!("unexpected {:?}", other),
    }
    match &v[1] {
        Action::TestInputOutput(i, out) => {
            assert_eq!(i.0, "in");
            assert_eq!(out.0, "out");
        }
        other => panic!("unexpected {:?}", other),
    }
}

#[test]
fn actions_partial() {
    let o = Opt { source: Some("README".to_string()), ..opts() };
    assert!(Actions::from_options(&o).0.is_empty());
    let o = Opt { input: Some("in".to_string()), output: Some("out".to_string()), ..opts() };
    let Actions(v) = Actions::from_options(&o);
    assert_eq!(v.len(), 1);
    assert!(matches!(v[0], Action::TestInputOutput(_, _)));
    let o = Opt { lang: Some(Language::C), source: Some("x".to_string()), ..opts() };
    let Actions(v) = Actions::from_options(&o);
    assert_eq!(v.len(), 1);
    assert!(matches!(v[0], Action::Build(Language::C, _)));
}

#[test]
fn inference_does_not_change_actions() {
    let mut o = Opt {
        source: Some("x.cc".to_string()),
        input: Some("in".to_string()),
        output: Some("out".to_string()),
        ..opts()
    };
    let before = Actions::from_options(&o).0.len();
    o.infer_options();
    assert_eq!(Actions::from_options(&o).0.len(), before);
    assert!(matches!(Action::from_options(&o), Action::BuildTestInputOutput(Language::Cpp, _, _, _)));
}
