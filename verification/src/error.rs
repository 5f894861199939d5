//! The errors of the trainer as a whole.

use crate::config::error::{ConfigError, ConfigErrorView};
use crate::exam::error::{ExamError, ExamErrorView};
use crate::question::error::{QuestionError, QuestionErrorView};
use vstd::prelude::*;
use vstd::string::*;

verus! {

/// The mathematical value of an [`Error`].
pub enum ErrorView {
    Config(ConfigErrorView),
    IO(Seq<char>),
    Question(QuestionErrorView),
    General(Seq<char>),
    Exam(ExamErrorView),
    ConcurrencyError,
}

/// Any error of the trainer. `IO` holds the message of an operation of the
/// system that failed.
#[derive(Debug)]
pub enum Error {
    Config(ConfigError),
    IO(String),
    Question(QuestionError),
    General(String),
    Exam(ExamError),
    ConcurrencyError,
}

impl View for Error {
    type V = ErrorView;

    open spec fn view(&self) -> ErrorView {
        match self {
            Error::Config(e) => ErrorView::Config(e@),
            Error::IO(e) => ErrorView::IO(e@),
            Error::Question(e) => ErrorView::Question(e@),
            Error::General(e) => ErrorView::General(e@),
            Error::Exam(e) => ErrorView::Exam(e@),
            Error::ConcurrencyError => ErrorView::ConcurrencyError,
        }
    }
}

impl ErrorView {
    /// The message that a reader is shown for this error.
    pub open spec fn message(self) -> Seq<char> {
        match self {
            ErrorView::Config(e) => "Config Error: "@ + e.message(),
            ErrorView::IO(e) => "IO Error: "@ + e,
            ErrorView::Question(e) => "Question Error: "@ + e.message(),
            ErrorView::General(e) => "Error: "@ + e,
            ErrorView::Exam(e) => "Exam Error: "@ + e.message(),
            ErrorView::ConcurrencyError => "Threading Error"@,
        }
    }

    /// An error of the configuration as an error of the trainer: a failed
    /// operation of the system stays one, anything else is kept as it is.
    pub open spec fn of_config(error: ConfigErrorView) -> ErrorView {
        match error {
            ConfigErrorView::IO(e) => ErrorView::IO(e),
            _ => ErrorView::Config(error),
        }
    }

    /// An error of a question as an error of the trainer.
    pub open spec fn of_question(error: QuestionErrorView) -> ErrorView {
        match error {
            QuestionErrorView::IO(e) => ErrorView::IO(e),
            _ => ErrorView::Question(error),
        }
    }

    /// An error of an exam as an error of the trainer.
    pub open spec fn of_exam(error: ExamErrorView) -> ErrorView {
        match error {
            ExamErrorView::IO(e) => ErrorView::IO(e),
            _ => ErrorView::Exam(error),
        }
    }
}

impl Error {
    pub fn to_string(&self) -> (text: String)
        ensures
            text@ == self@.message(),
    {
        match self {
            Error::Config(e) => {
                let inner = e.to_string();
                String::from_str("Config Error: ").concat(inner.as_str())
            },
            Error::IO(e) => String::from_str("IO Error: ").concat(e.as_str()),
            Error::Question(e) => {
                let inner = e.to_string();
                String::from_str("Question Error: ").concat(inner.as_str())
            },
            Error::General(e) => String::from_str("Error: ").concat(e.as_str()),
            Error::Exam(e) => {
                let inner = e.to_string();
                String::from_str("Exam Error: ").concat(inner.as_str())
            },
            Error::ConcurrencyError => String::from_str("Threading Error"),
        }
    }

    /// Takes an error of the configuration up.
    pub fn from_config(input: ConfigError) -> (error: Error)
        ensures
            error@ == ErrorView::of_config(input@),
    {
        match input {
            ConfigError::IO(e) => Error::IO(e),
            other => Error::Config(other),
        }
    }

    /// Takes an error of a question up.
    pub fn from_question(input: QuestionError) -> (error: Error)
        ensures
            error@ == ErrorView::of_question(input@),
    {
        match input {
            QuestionError::IO(e) => Error::IO(e),
            other => Error::Question(other),
        }
    }

    /// Takes an error of an exam up.
    pub fn from_exam(input: ExamError) -> (error: Error)
        ensures
            error@ == ErrorView::of_exam(input@),
    {
        match input {
            ExamError::IO(e) => Error::IO(e),
            other => Error::Exam(other),
        }
    }
}

} // verus!
