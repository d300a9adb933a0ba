//! Provola, the quick tester: the decisions behind its command line and its GUI.
//!
//! The library holds what the program decides: which language a source file
//! is written in, which action a set of options asks for, how the GUI state
//! follows the messages it receives, what the result panel shows for a test
//! result, and the text of each error. Reading files, watching directories,
//! drawing windows and running processes are left to the program around it.

pub mod errors;
pub mod gui;
pub mod lang;
pub mod options;
pub mod panel;
pub mod report;

pub use lang::{Language, TestRunnerType};
pub use report::{Failure, Reason, Report, TestCase, TestResult, TestSuite};
pub use panel::{CaseView, SuiteView, Widget, show, show_result, show_reason, show_reason_report, show_testsuite, show_testcase};
pub use gui::{Config, Event, Frame, Message, State};
pub use options::{Action, Actions, Opt, Source, TestDataIn, TestDataOut, TestRunnerInfo};
pub use errors::Error;
