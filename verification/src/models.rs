//! The data model of the reporter: what is sent to, and what comes back from,
//! the ingestion service.

use vstd::prelude::*;
use vstd::string::StringExecFns;
use crate::errors::{ErrorView, ReporterError};
use crate::text::{join3, same};

verus! {

/// The outcome of a test case.
#[derive(Debug, Clone, Copy, PartialEq, Eq, Structural)]
pub enum TestcaseStatus {
    Pass,
    Fail,
    Error,
    Skip,
}

impl TestcaseStatus {
    /// The name of the status on the wire and on the command line.
    pub open spec fn wire_name(self) -> Seq<char> {
        match self {
            TestcaseStatus::Pass => "pass"@,
            TestcaseStatus::Fail => "fail"@,
            TestcaseStatus::Error => "error"@,
            TestcaseStatus::Skip => "skip"@,
        }
    }

    /// The status that a text names, if it names one.
    pub open spec fn named(text: Seq<char>) -> Option<TestcaseStatus> {
        if text == "pass"@ {
            Some(TestcaseStatus::Pass)
        } else if text == "fail"@ {
            Some(TestcaseStatus::Fail)
        } else if text == "error"@ {
            Some(TestcaseStatus::Error)
        } else if text == "skip"@ {
            Some(TestcaseStatus::Skip)
        } else {
            None
        }
    }

    /// The message of the error for a text that names no status.
    pub open spec fn invalid_text(text: Seq<char>) -> Seq<char> {
        "Invalid status: "@ + text + ". Valid values: pass, fail, error, skip"@
    }

    /// The name of the status: one of `pass`, `fail`, `error`, `skip`.
    pub fn as_str(&self) -> (name: &'static str)
        ensures
            name@ == self.wire_name(),
    {
        match self {
            TestcaseStatus::Pass => "pass",
            TestcaseStatus::Fail => "fail",
            TestcaseStatus::Error => "error",
            TestcaseStatus::Skip => "skip",
        }
    }

    /// The name of the status as an owned text.
    pub fn to_text(&self) -> (name: String)
        ensures
            name@ == self.wire_name(),
    {
        String::from_str(self.as_str())
    }

    /// Reads a status from its name. Any text but the four names, in lower
    /// case, is an invalid argument.
    pub fn from_str(s: &str) -> (r: Result<TestcaseStatus, ReporterError>)
        ensures
            match TestcaseStatus::named(s@) {
                Some(status) => r == Ok::<TestcaseStatus, ReporterError>(status),
                None => r matches Err(e) && e@ == ErrorView::InvalidArgument(
                    TestcaseStatus::invalid_text(s@),
                ),
            },
    {
        if same(s, "pass") {
            Ok(TestcaseStatus::Pass)
        } else if same(s, "fail") {
            Ok(TestcaseStatus::Fail)
        } else if same(s, "error") {
            Ok(TestcaseStatus::Error)
        } else if same(s, "skip") {
            Ok(TestcaseStatus::Skip)
        } else {
            Err(
                ReporterError::InvalidArgument(
                    join3("Invalid status: ", s, ". Valid values: pass, fail, error, skip"),
                ),
            )
        }
    }

    /// Reading the name of a status gives the status back.
    pub proof fn lemma_name_round_trip(self)
        ensures
            TestcaseStatus::named(self.wire_name()) == Some(self),
    {
        reveal_strlit("pass");
        reveal_strlit("fail");
        reveal_strlit("error");
        reveal_strlit("skip");
        assert("fail"@[0] != "pass"@[0]);
        assert("error"@.len() != "pass"@.len());
        assert("error"@.len() != "fail"@.len());
        assert("skip"@[0] != "pass"@[0]);
        assert("skip"@[0] != "fail"@[0]);
        assert("skip"@.len() != "error"@.len());
    }
}

/// A label of a session: a key, and possibly a value.
#[derive(Debug, Clone)]
pub struct Label {
    pub key: String,
    pub value: Option<String>,
}

/// A `Label` with its texts as sequences of characters.
pub struct LabelView {
    pub key: Seq<char>,
    pub value: Option<Seq<char>>,
}

impl View for Label {
    type V = LabelView;

    open spec fn view(&self) -> LabelView {
        LabelView {
            key: self.key@,
            value: match self.value {
                Some(text) => Some(text@),
                None => None,
            },
        }
    }
}

/// The request that creates a session.
#[derive(Debug, Clone)]
pub struct SessionRequest {
    pub id: Option<String>,
    pub description: Option<String>,
    pub baggage: Option<serde_json::Value>,
    pub labels: Option<Vec<Label>>,
}

/// The answer to a successful session request.
#[derive(Debug, Clone)]
pub struct SessionResponse {
    pub id: String,
}

/// The structured body of a failed request.
#[derive(Debug, Clone)]
pub struct ErrorResponse {
    pub message: String,
}

/// One reported test result.
#[derive(Debug, Clone)]
pub struct TestcaseRequest {
    pub session_id: String,
    pub testcase_name: String,
    pub testcase_classname: Option<String>,
    pub testcase_file: Option<String>,
    pub testsuite: Option<String>,
    pub status: TestcaseStatus,
    pub output: Option<String>,
    pub baggage: Option<serde_json::Value>,
}

/// The envelope in which a batch of test results is sent.
#[derive(Debug, Clone)]
pub struct TestcasesRequest {
    pub testcases: Vec<TestcaseRequest>,
}

} // verus!
