//! The ways in which an exam can fail to be built.

use crate::utils::text::{decimal, u64_to_string};
use vstd::prelude::*;
use vstd::string::*;

verus! {

/// The mathematical value of a [`LevelError`].
pub enum LevelErrorView {
    InvalidType(Seq<char>),
    NoQuestions,
    NoPoints,
    MissingQuestion(Seq<char>),
}

/// What is wrong with one level of an exam.
#[derive(Debug)]
pub enum LevelError {
    InvalidType(String),
    NoQuestions,
    NoPoints,
    MissingQuestion(String),
}

impl View for LevelError {
    type V = LevelErrorView;

    open spec fn view(&self) -> LevelErrorView {
        match self {
            LevelError::InvalidType(kind) => LevelErrorView::InvalidType(kind@),
            LevelError::NoQuestions => LevelErrorView::NoQuestions,
            LevelError::NoPoints => LevelErrorView::NoPoints,
            LevelError::MissingQuestion(name) => LevelErrorView::MissingQuestion(name@),
        }
    }
}

impl LevelErrorView {
    /// The message that a reader is shown for this error.
    pub open spec fn message(self) -> Seq<char> {
        match self {
            LevelErrorView::InvalidType(kind) => "Invalid level type: "@ + kind,
            LevelErrorView::NoQuestions => "Each level must have at least one question name"@,
            LevelErrorView::NoPoints => "Each level must have at least points value"@,
            LevelErrorView::MissingQuestion(name) => "Question '"@ + name + "' missing"@,
        }
    }
}

impl LevelError {
    pub fn to_string(&self) -> (text: String)
        ensures
            text@ == self@.message(),
    {
        match self {
            LevelError::InvalidType(kind) => String::from_str("Invalid level type: ").concat(
                kind.as_str(),
            ),
            LevelError::NoQuestions => String::from_str(
                "Each level must have at least one question name",
            ),
            LevelError::NoPoints => String::from_str("Each level must have at least points value"),
            LevelError::MissingQuestion(name) => String::from_str("Question '").concat(
                name.as_str(),
            ).concat("' missing"),
        }
    }
}

/// The mathematical value of an [`ExamError`].
pub enum ExamErrorView {
    InvalidTime,
    InvalidGrade,
    InvalidLevel(nat, LevelErrorView),
    NoLevels,
    NotToml,
    InvalidExamFile(Seq<char>),
    IO(Seq<char>),
}

/// An error met while an exam is read or built. `InvalidExamFile` holds the
/// parser's message and `IO` the message of the failed operation.
#[derive(Debug)]
pub enum ExamError {
    InvalidTime,
    InvalidGrade,
    InvalidLevel(usize, LevelError),
    NoLevels,
    NotToml,
    InvalidExamFile(String),
    IO(String),
}

impl View for ExamError {
    type V = ExamErrorView;

    open spec fn view(&self) -> ExamErrorView {
        match self {
            ExamError::InvalidTime => ExamErrorView::InvalidTime,
            ExamError::InvalidGrade => ExamErrorView::InvalidGrade,
            ExamError::InvalidLevel(index, error) => ExamErrorView::InvalidLevel(
                *index as nat,
                error@,
            ),
            ExamError::NoLevels => ExamErrorView::NoLevels,
            ExamError::NotToml => ExamErrorView::NotToml,
            ExamError::InvalidExamFile(e) => ExamErrorView::InvalidExamFile(e@),
            ExamError::IO(e) => ExamErrorView::IO(e@),
        }
    }
}

impl ExamErrorView {
    /// The message that a reader is shown for this error.
    pub open spec fn message(self) -> Seq<char> {
        match self {
            ExamErrorView::InvalidTime => "Invalid time value"@,
            ExamErrorView::InvalidGrade => "Invalid grades value"@,
            ExamErrorView::InvalidLevel(index, error) => "Level "@ + decimal(index) + " error: "@
                + error.message(),
            ExamErrorView::NoLevels => "An exam must have at least one level"@,
            ExamErrorView::NotToml => "File in exam directory is not a toml file"@,
            ExamErrorView::InvalidExamFile(e) => "Error parsing exam: "@ + e,
            ExamErrorView::IO(e) => "IO Error: "@ + e,
        }
    }
}

impl ExamError {
    pub fn to_string(&self) -> (text: String)
        ensures
            text@ == self@.message(),
    {
        match self {
            ExamError::InvalidTime => String::from_str("Invalid time value"),
            ExamError::InvalidGrade => String::from_str("Invalid grades value"),
            ExamError::InvalidLevel(index, error) => {
                let number = u64_to_string(*index as u64);
                let reason = error.to_string();
                String::from_str("Level ").concat(number.as_str()).concat(" error: ").concat(
                    reason.as_str(),
                )
            },
            ExamError::NoLevels => String::from_str("An exam must have at least one level"),
            ExamError::NotToml => String::from_str("File in exam directory is not a toml file"),
            ExamError::InvalidExamFile(e) => String::from_str("Error parsing exam: ").concat(
                e.as_str(),
            ),
            ExamError::IO(e) => String::from_str("IO Error: ").concat(e.as_str()),
        }
    }
}

} // verus!
