//! The ways in which a question can fail to be built or graded.

use vstd::prelude::*;
use vstd::string::*;

verus! {

/// Which kind of test or submission lacks a key that it needs.
#[derive(Debug, Clone, Copy, PartialEq, Eq, Structural)]
pub enum MissingKeys {
    Exec,
    UnitTest,
    Sources,
    CompiledTogether,
    SubExec,
    SubSources,
}

impl MissingKeys {
    /// The message that names the keys that are needed.
    pub open spec fn message(self) -> Seq<char> {
        match self {
            MissingKeys::Exec => "'executable' type question must contain the following keys:\n- binary\n- args"@,
            MissingKeys::UnitTest => "'unit-test' type question must contain the following keys:\n- sources\n- compiler"@,
            MissingKeys::Sources => "'sources' type question must contain the following keys:\n- sources\n- compiler"@,
            MissingKeys::CompiledTogether => "'expected-output' type question must contain the following keys:\n- sources\n- compiler\n- expected_stdout\n- expected_stderr\n- args"@,
            MissingKeys::SubExec => "'executable' type submission must contain the following key:\n- binary"@,
            MissingKeys::SubSources => "'sources' type submission must contain the following keys:\n- sources\n- compiler (if none is specified in test)"@,
        }
    }

    pub fn to_string(&self) -> (text: String)
        ensures
            text@ == self.message(),
    {
        match self {
            MissingKeys::Exec => String::from_str(
                "'executable' type question must contain the following keys:\n- binary\n- args",
            ),
            MissingKeys::UnitTest => String::from_str(
                "'unit-test' type question must contain the following keys:\n- sources\n- compiler",
            ),
            MissingKeys::Sources => String::from_str(
                "'sources' type question must contain the following keys:\n- sources\n- compiler",
            ),
            MissingKeys::CompiledTogether => String::from_str(
                "'expected-output' type question must contain the following keys:\n- sources\n- compiler\n- expected_stdout\n- expected_stderr\n- args",
            ),
            MissingKeys::SubExec => String::from_str(
                "'executable' type submission must contain the following key:\n- binary",
            ),
            MissingKeys::SubSources => String::from_str(
                "'sources' type submission must contain the following keys:\n- sources\n- compiler (if none is specified in test)",
            ),
        }
    }
}

/// The mathematical value of a [`QuestionError`].
pub enum QuestionErrorView {
    InvalidTestType(Seq<char>),
    InvalidSubmissionType(Seq<char>),
    InvalidTestFile(Seq<char>),
    MismatchedQuestion(Seq<char>, Seq<char>),
    NoSubject,
    NoStdout,
    NoStderr,
    MissingKey(MissingKeys),
    MultipleConfigs,
    NoConfig,
    DuplicateQuestion(Seq<char>),
    InvalidFramework(Seq<char>),
    IO(Seq<char>),
}

/// An error met while a question is read, built or graded. `InvalidTestFile`
/// holds the parser's message and `IO` the message of the failed operation.
#[derive(Debug)]
pub enum QuestionError {
    InvalidTestType(String),
    InvalidSubmissionType(String),
    InvalidTestFile(String),
    MismatchedQuestion(String, String),
    NoSubject,
    NoStdout,
    NoStderr,
    MissingKey(MissingKeys),
    MultipleConfigs,
    NoConfig,
    DuplicateQuestion(String),
    InvalidFramework(String),
    IO(String),
}

impl View for QuestionError {
    type V = QuestionErrorView;

    open spec fn view(&self) -> QuestionErrorView {
        match self {
            QuestionError::InvalidTestType(s) => QuestionErrorView::InvalidTestType(s@),
            QuestionError::InvalidSubmissionType(s) => QuestionErrorView::InvalidSubmissionType(
                s@,
            ),
            QuestionError::InvalidTestFile(s) => QuestionErrorView::InvalidTestFile(s@),
            QuestionError::MismatchedQuestion(a, b) => QuestionErrorView::MismatchedQuestion(
                a@,
                b@,
            ),
            QuestionError::NoSubject => QuestionErrorView::NoSubject,
            QuestionError::NoStdout => QuestionErrorView::NoStdout,
            QuestionError::NoStderr => QuestionErrorView::NoStderr,
            QuestionError::MissingKey(k) => QuestionErrorView::MissingKey(*k),
            QuestionError::MultipleConfigs => QuestionErrorView::MultipleConfigs,
            QuestionError::NoConfig => QuestionErrorView::NoConfig,
            QuestionError::DuplicateQuestion(s) => QuestionErrorView::DuplicateQuestion(s@),
            QuestionError::InvalidFramework(s) => QuestionErrorView::InvalidFramework(s@),
            QuestionError::IO(s) => QuestionErrorView::IO(s@),
        }
    }
}

impl QuestionErrorView {
    /// The message that a reader is shown for this error.
    pub open spec fn message(self) -> Seq<char> {
        match self {
            QuestionErrorView::InvalidTestType(i) => "Invalid test type: "@ + i,
            QuestionErrorView::InvalidSubmissionType(s) => "Invalid submission type: "@ + s,
            QuestionErrorView::InvalidTestFile(e) => "Error parsing question: "@ + e,
            QuestionErrorView::MismatchedQuestion(sub, test) => "Submission type "@ + sub
                + " cannot be used together with Question type "@ + test,
            QuestionErrorView::NoSubject => "Subject directory not found in Question"@,
            QuestionErrorView::NoStdout => "Expected Stdout file does not exist"@,
            QuestionErrorView::NoStderr => "Expected Stderr file does not exist"@,
            QuestionErrorView::MissingKey(k) => "Missing key: "@ + k.message(),
            QuestionErrorView::MultipleConfigs => "Multiple .toml files were found in Question directory"@,
            QuestionErrorView::NoConfig => "No config file found in Question directory"@,
            QuestionErrorView::DuplicateQuestion(name) => "The question "@ + name
                + " appeared twice, second instance ignored"@,
            QuestionErrorView::InvalidFramework(name) => "Invalid framework: "@ + name,
            QuestionErrorView::IO(e) => "IO Error: "@ + e,
        }
    }
}

impl QuestionError {
    pub fn to_string(&self) -> (text: String)
        ensures
            text@ == self@.message(),
    {
        match self {
            QuestionError::InvalidTestType(i) => String::from_str("Invalid test type: ").concat(
                i.as_str(),
            ),
            QuestionError::InvalidSubmissionType(s) => String::from_str(
                "Invalid submission type: ",
            ).concat(s.as_str()),
            QuestionError::InvalidTestFile(e) => String::from_str(
                "Error parsing question: ",
            ).concat(e.as_str()),
            QuestionError::MismatchedQuestion(sub, test) => String::from_str(
                "Submission type ",
            ).concat(sub.as_str()).concat(" cannot be used together with Question type ").concat(
                test.as_str(),
            ),
            QuestionError::NoSubject => String::from_str(
                "Subject directory not found in Question",
            ),
            QuestionError::NoStdout => String::from_str("Expected Stdout file does not exist"),
            QuestionError::NoStderr => String::from_str("Expected Stderr file does not exist"),
            QuestionError::MissingKey(k) => {
                let keys = k.to_string();
                String::from_str("Missing key: ").concat(keys.as_str())
            },
            QuestionError::MultipleConfigs => String::from_str(
                "Multiple .toml files were found in Question directory",
            ),
            QuestionError::NoConfig => String::from_str(
                "No config file found in Question directory",
            ),
            QuestionError::DuplicateQuestion(name) => String::from_str("The question ").concat(
                name.as_str(),
            ).concat(" appeared twice, second instance ignored"),
            QuestionError::InvalidFramework(name) => String::from_str(
                "Invalid framework: ",
            ).concat(name.as_str()),
            QuestionError::IO(e) => String::from_str("IO Error: ").concat(e.as_str()),
        }
    }
}

impl From<MissingKeys> for QuestionError {
    fn from(input: MissingKeys) -> (error: Self) {
        QuestionError::MissingKey(input)
    }
}

impl vstd::std_specs::convert::FromSpecImpl<MissingKeys> for QuestionError {
    open spec fn obeys_from_spec() -> bool {
        true
    }

    open spec fn from_spec(input: MissingKeys) -> Self {
        QuestionError::MissingKey(input)
    }
}

} // verus!
