use vstd::prelude::*;

verus! {

/// What can go wrong while building and testing. An error that comes from
/// elsewhere (input/output, running a process, the reporter, a report parser)
/// keeps the text of that error.
#[derive(Clone, Debug)]
pub enum Error {
    NoResult,
    NoExecutable,
    BuildFailed(String),
    IoError(String),
    LangNotSupported(String),
    ExecError(String),
    InvalidInputData(String),
    InvalidOutputData(String),
    NothingToDo,
    NotImplemented,
    CannotWatch(String),
    TestRunnerNotSupported(String),
    ReporterError(String),
    ReportUnavailable,
    TestRunnerFeatureNotAvailable(String),
    ReportParseError(String),
}

/// The text each error is shown with.
pub open spec fn error_message(e: Error) -> Seq<char> {
    match e {
        Error::NoResult => "no test result available"@,
        Error::NoExecutable => "executable not available"@,
        Error::BuildFailed(s) => "cannot build: "@ + s@,
        Error::IoError(_) => "i/o error"@,
        Error::LangNotSupported(s) => "language not supported: "@ + s@,
        Error::ExecError(_) => "cannot execute"@,
        Error::InvalidInputData(s) => s@,
        Error::InvalidOutputData(s) => s@,
        Error::NothingToDo => "nothing to do"@,
        Error::NotImplemented => "not implemented"@,
        Error::CannotWatch(s) => "cannot watch file: "@ + s@,
        Error::TestRunnerNotSupported(s) => "test runner not supported: "@ + s@,
        Error::ReporterError(_) => "reporter error"@,
        Error::ReportUnavailable => "report unavailable"@,
        Error::TestRunnerFeatureNotAvailable(s) => "feature not available: "@ + s@,
        Error::ReportParseError(s) => "cannot parse report: "@ + s@,
    }
}

fn prefixed(prefix: &str, detail: &String) -> (m: String)
    ensures
        m@ == prefix@ + detail@,
{
    prefix.to_owned().concat(detail.as_str())
}

impl Error {
    /// The text this error is shown with.
    pub fn message(&self) -> (m: String)
        ensures
            m@ == error_message(*self),
    {
        match self {
            Error::NoResult => "no test result available".to_owned(),
            Error::NoExecutable => "executable not available".to_owned(),
            Error::BuildFailed(s) => prefixed("cannot build: ", s),
            Error::IoError(_) => "i/o error".to_owned(),
            Error::LangNotSupported(s) => prefixed("language not supported: ", s),
            Error::ExecError(_) => "cannot execute".to_owned(),
            Error::InvalidInputData(s) => s.clone(),
            Error::InvalidOutputData(s) => s.clone(),
            Error::NothingToDo => "nothing to do".to_owned(),
            Error::NotImplemented => "not implemented".to_owned(),
            Error::CannotWatch(s) => prefixed("cannot watch file: ", s),
            Error::TestRunnerNotSupported(s) => prefixed("test runner not supported: ", s),
            Error::ReporterError(_) => "reporter error".to_owned(),
            Error::ReportUnavailable => "report unavailable".to_owned(),
            Error::TestRunnerFeatureNotAvailable(s) => prefixed("feature not available: ", s),
            Error::ReportParseError(s) => prefixed("cannot parse report: ", s),
        }
    }
}

/// An error that carries a detail shows it: at the end of a longer message
/// for the errors that name what failed, and as the whole message for the
/// errors that pass an input or output error through.
pub proof fn lemma_error_message_shows_detail(e: Error)
    ensures
        match e {
            Error::BuildFailed(d) => error_message(e).len() > d@.len()
                && error_message(e).subrange(error_message(e).len() - d@.len(), error_message(e).len() as int) == d@,
            Error::LangNotSupported(d) => error_message(e).len() > d@.len()
                && error_message(e).subrange(error_message(e).len() - d@.len(), error_message(e).len() as int) == d@,
            Error::CannotWatch(d) => error_message(e).len() > d@.len()
                && error_message(e).subrange(error_message(e).len() - d@.len(), error_message(e).len() as int) == d@,
            Error::TestRunnerNotSupported(d) => error_message(e).len() > d@.len()
                && error_message(e).subrange(error_message(e).len() - d@.len(), error_message(e).len() as int) == d@,
            Error::TestRunnerFeatureNotAvailable(d) => error_message(e).len() > d@.len()
                && error_message(e).subrange(error_message(e).len() - d@.len(), error_message(e).len() as int) == d@,
            Error::ReportParseError(d) => error_message(e).len() > d@.len()
                && error_message(e).subrange(error_message(e).len() - d@.len(), error_message(e).len() as int) == d@,
            Error::InvalidInputData(d) => error_message(e) == d@,
            Error::InvalidOutputData(d) => error_message(e) == d@,
            _ => true,
        },
{
    reveal_strlit("cannot build: ");
    reveal_strlit("language not supported: ");
    reveal_strlit("cannot watch file: ");
    reveal_strlit("test runner not supported: ");
    reveal_strlit("feature not available: ");
    reveal_strlit("cannot parse report: ");
    let m = error_message(e);
    match e {
        Error::BuildFailed(d) => assert(m.subrange(m.len() - d@.len(), m.len() as int) =~= d@),
        Error::LangNotSupported(d) => assert(m.subrange(m.len() - d@.len(), m.len() as int) =~= d@),
        Error::CannotWatch(d) => assert(m.subrange(m.len() - d@.len(), m.len() as int) =~= d@),
        Error::TestRunnerNotSupported(d) => assert(m.subrange(m.len() - d@.len(), m.len() as int) =~= d@),
        Error::TestRunnerFeatureNotAvailable(d) => assert(m.subrange(m.len() - d@.len(), m.len() as int) =~= d@),
        Error::ReportParseError(d) => assert(m.subrange(m.len() - d@.len(), m.len() as int) =~= d@),
        _ => {},
    }
}

/// The errors that stand for an outside failure (input/output, running a
/// process, the reporter) are shown the same whatever that failure said.
pub proof fn lemma_error_message_hides_outside_detail(a: String, b: String)
    ensures
        error_message(Error::IoError(a)) == error_message(Error::IoError(b)),
        error_message(Error::ExecError(a)) == error_message(Error::ExecError(b)),
        error_message(Error::ReporterError(a)) == error_message(Error::ReporterError(b)),
{
}

} // verus!
