use vstd::prelude::*;
use crate::lang::{Language, TestRunnerType, language_of_source};

verus! {

/// The source file to build.
#[derive(Clone, Debug)]
pub struct Source(pub String);

/// The file whose content is given to the program as input.
#[derive(Clone, Debug)]
pub struct TestDataIn(pub String);

/// The file holding the output that the program is expected to print.
#[derive(Clone, Debug)]
pub struct TestDataOut(pub String);

impl Source {
    pub fn new(path: String) -> (s: Source)
        ensures
            s.0 == path,
    {
        Source(path)
    }
}

impl TestDataIn {
    pub fn new(path: String) -> (d: TestDataIn)
        ensures
            d.0 == path,
    {
        TestDataIn(path)
    }
}

impl TestDataOut {
    pub fn new(path: String) -> (d: TestDataOut)
        ensures
            d.0 == path,
    {
        TestDataOut(path)
    }
}

/// A test runner to execute: the path of its executable and its kind.
#[derive(Clone, Debug)]
pub struct TestRunnerInfo {
    pub executable: String,
    pub trt: TestRunnerType,
}

/// What provola is asked to do.
#[derive(Clone, Debug)]
pub enum Action {
    /// Build the source in the given language.
    Build(Language, Source),
    /// Run the built program on the input and compare with the expected output.
    TestInputOutput(TestDataIn, TestDataOut),
    /// Build the source, then run it on the input and compare with the expected output.
    BuildTestInputOutput(Language, Source, TestDataIn, TestDataOut),
    /// Execute a test runner and read its report.
    TestRunner(TestRunnerInfo),
    /// Nothing was asked.
    Nothing,
}

/// The actions to perform, in order.
#[derive(Clone, Debug)]
pub struct Actions(pub Vec<Action>);

/// The options given on the command line; paths are kept as text.
#[derive(Clone, Debug)]
pub struct Opt {
    pub debug: bool,
    pub watch: Option<String>,
    pub input: Option<String>,
    pub output: Option<String>,
    pub lang: Option<Language>,
    pub source: Option<String>,
    pub test_runner: Option<String>,
    pub test_runner_type: Option<TestRunnerType>,
}

/// The language given, or else the one guessed from the source file.
pub open spec fn spec_lang_or_guess(opt: Opt) -> Option<Language> {
    match opt.lang {
        Some(l) => Some(l),
        None => match opt.source {
            Some(s) => language_of_source(s@),
            None => None,
        },
    }
}

/// The options with the language filled in from the guess.
pub open spec fn inferred(opt: Opt) -> Opt {
    Opt { lang: spec_lang_or_guess(opt), ..opt }
}

/// The action a set of options asks for: with a language, a source, an input
/// and an expected output, building and testing them; else, with a test
/// runner and its kind, running it; else nothing.
pub open spec fn action_of(opt: Opt) -> Action {
    match (opt.lang, opt.source, opt.input, opt.output) {
        (Some(l), Some(s), Some(i), Some(o)) =>
            Action::BuildTestInputOutput(l, Source(s), TestDataIn(i), TestDataOut(o)),
        _ => match (opt.test_runner, opt.test_runner_type) {
            (Some(e), Some(t)) => Action::TestRunner(TestRunnerInfo { executable: e, trt: t }),
            _ => Action::Nothing,
        },
    }
}

/// The actions a set of options asks for: a build when a language is given or
/// guessed and a source is given, then a test when an input and an expected
/// output are given.
pub open spec fn actions_of(opt: Opt) -> Seq<Action> {
    let build = match (spec_lang_or_guess(opt), opt.source) {
        (Some(l), Some(s)) => seq![Action::Build(l, Source(s))],
        _ => Seq::<Action>::empty(),
    };
    let test = match (opt.input, opt.output) {
        (Some(i), Some(o)) => seq![Action::TestInputOutput(TestDataIn(i), TestDataOut(o))],
        _ => Seq::<Action>::empty(),
    };
    build + test
}

fn clone_text(s: &String) -> (c: String)
    ensures
        c == *s,
{
    s.clone()
}

impl Opt {
    /// The language given, or else the one guessed from the source file.
    pub fn lang_or_guess(&self) -> (lang: Option<Language>)
        ensures
            lang == spec_lang_or_guess(*self),
    {
        match self.lang {
            Some(l) => Some(l),
            None => match &self.source {
                Some(s) => Language::from_source(s.as_str()),
                None => None,
            },
        }
    }

    /// Fills in the language from the guess when none was given.
    pub fn infer_options(&mut self)
        ensures
            *final(self) == inferred(*old(self)),
    {
        self.lang = self.lang_or_guess();
    }
}

impl Action {
    /// The action the options ask for. Building and testing the source takes
    /// precedence over running a test runner.
    pub fn from_options(opt: &Opt) -> (action: Action)
        ensures
            action == action_of(*opt),
            action matches Action::TestRunner(info) ==> opt.test_runner == Some(info.executable)
                && opt.test_runner_type == Some(info.trt),
            action matches Action::BuildTestInputOutput(l, s, i, o) ==> opt.lang == Some(l)
                && opt.source == Some(s.0) && opt.input == Some(i.0) && opt.output == Some(o.0),
    {
        if let (Some(lang), Some(source), Some(input), Some(output)) = (opt.lang, &opt.source, &opt.input, &opt.output) {
            let source = Source::new(clone_text(source));
            let input = TestDataIn::new(clone_text(input));
            let output = TestDataOut::new(clone_text(output));
            return Action::BuildTestInputOutput(lang, source, input, output);
        }
        if let (Some(exec), Some(trt)) = (&opt.test_runner, opt.test_runner_type) {
            let info = TestRunnerInfo { executable: clone_text(exec), trt };
            return Action::TestRunner(info);
        }
        Action::Nothing
    }
}

impl Actions {
    /// The actions the options ask for, the build before the test.
    pub fn from_options(opt: &Opt) -> (actions: Actions)
        ensures
            actions.0@ == actions_of(*opt),
            (opt.lang is Some && opt.source is Some) ==> actions.0@.len() >= 1
                && actions.0@[0] == Action::Build(opt.lang.unwrap(), Source(opt.source.unwrap())),
            forall|i: int| 0 <= i < actions.0@.len() ==> (#[trigger] actions.0@[i] matches Action::Build(l, _)
                ==> opt.lang is Some ==> opt.lang == Some(l)),
    {
        let mut actions: Vec<Action> = Vec::new();
        let lang = match opt.lang {
            Some(l) => Some(l),
            None => match &opt.source {
                Some(x) => Language::from_source(x.as_str()),
                None => None,
            },
        };
        if let (Some(lang), Some(source)) = (lang, &opt.source) {
            let source = Source::new(clone_text(source));
            actions.push(Action::Build(lang, source));
        }
        if let (Some(input), Some(output)) = (&opt.input, &opt.output) {
            let input = TestDataIn::new(clone_text(input));
            let output = TestDataOut::new(clone_text(output));
            actions.push(Action::TestInputOutput(input, output));
        }
        proof {
            assert(actions@ =~= actions_of(*opt));
            lemma_build_uses_given_language(*opt);
        }
        Actions(actions)
    }
}

/// A language given in the options is the one the build uses; only without
/// one is the language guessed from the source, and only with a source is
/// there a build at all, which then comes first.
pub proof fn lemma_build_uses_given_language(opt: Opt)
    ensures
        (opt.lang is Some && opt.source is Some) ==> actions_of(opt).len() >= 1
            && actions_of(opt)[0] == Action::Build(opt.lang.unwrap(), Source(opt.source.unwrap())),
        (opt.lang is None && opt.source is Some && language_of_source(opt.source.unwrap()@) is Some)
            ==> actions_of(opt)[0] == Action::Build(
                language_of_source(opt.source.unwrap()@).unwrap(),
                Source(opt.source.unwrap()),
            ),
        forall|i: int| 0 <= i < actions_of(opt).len() ==> (#[trigger] actions_of(opt)[i] matches Action::Build(l, src)
            ==> opt.source == Some(src.0) && (opt.lang is Some ==> opt.lang == Some(l))),
        opt.source is None ==> forall|i: int| 0 <= i < actions_of(opt).len() ==> !(#[trigger] actions_of(opt)[i] is Build),
{
    let test = match (opt.input, opt.output) {
        (Some(i), Some(o)) => seq![Action::TestInputOutput(TestDataIn(i), TestDataOut(o))],
        _ => Seq::<Action>::empty(),
    };
    match (spec_lang_or_guess(opt), opt.source) {
        (Some(l), Some(src)) => {
            let build = seq![Action::Build(l, Source(src))];
            assert(actions_of(opt) == build + test);
            assert((build + test)[0] == build[0]);
        },
        _ => {
            assert(actions_of(opt) =~= test);
        },
    }
}

/// The test runner action runs exactly the executable given, as the kind
/// given; the build-and-test action uses exactly the language, source, input
/// and expected output given.
pub proof fn lemma_action_uses_given_options(opt: Opt)
    ensures
        action_of(opt) matches Action::TestRunner(info) ==> opt.test_runner == Some(info.executable)
            && opt.test_runner_type == Some(info.trt),
        action_of(opt) matches Action::BuildTestInputOutput(l, s, i, o) ==> opt.lang == Some(l)
            && opt.source == Some(s.0) && opt.input == Some(i.0) && opt.output == Some(o.0),
        (opt.test_runner is Some && opt.test_runner_type is Some && !(opt.lang is Some
            && opt.source is Some && opt.input is Some && opt.output is Some))
            ==> action_of(opt) == Action::TestRunner(
                (TestRunnerInfo { executable: opt.test_runner.unwrap(), trt: opt.test_runner_type.unwrap() }),
            ),
{
}

/// Inferring the options twice is inferring them once.
pub proof fn lemma_infer_idempotent(opt: Opt)
    ensures
        inferred(inferred(opt)) == inferred(opt),
{
}

/// Inferring the options first does not change the actions they ask for: the
/// planned actions already use the guessed language.
pub proof fn lemma_actions_ignore_inference(opt: Opt)
    ensures
        actions_of(inferred(opt)) == actions_of(opt),
{
}

/// Once the options are inferred, a source whose language can be guessed, with
/// an input and an expected output, is built and tested, whatever test runner
/// is also given.
pub proof fn lemma_build_and_test_takes_precedence(opt: Opt)
    requires
        opt.source is Some,
        opt.input is Some,
        opt.output is Some,
        spec_lang_or_guess(opt) is Some,
    ensures
        action_of(inferred(opt)) is BuildTestInputOutput,
{
}

/// Without a source, an input and an expected output, and without a test
/// runner and its kind, nothing is asked.
pub proof fn lemma_nothing_without_options(opt: Opt)
    requires
        opt.source is None || opt.input is None || opt.output is None || opt.lang is None,
        opt.test_runner is None || opt.test_runner_type is None,
    ensures
        action_of(opt) is Nothing,
{
}

} // verus!
