//! The ways in which the configuration can fail to be read.

use vstd::prelude::*;
use vstd::string::*;

verus! {

/// The mathematical value of a [`ConfigError`].
pub enum ConfigErrorView {
    NoHomeDirectory,
    NoConfigDirectory,
    NoExamTrainerDirectory,
    ConfigFileNotFound,
    InvalidConfigFile(Seq<char>),
    NoQuestionDirectory(Seq<char>),
    NoExamDirectory(Seq<char>),
    NoSubjectDirectory(Seq<char>),
    IO(Seq<char>),
    InvalidFramework,
    InvalidFrameworkDir(Seq<char>),
}

/// An error met while the configuration is read. `InvalidConfigFile` holds
/// the parser's message and `IO` the message of the failed operation.
#[derive(Debug)]
pub enum ConfigError {
    NoHomeDirectory,
    NoConfigDirectory,
    NoExamTrainerDirectory,
    ConfigFileNotFound,
    InvalidConfigFile(String),
    NoQuestionDirectory(String),
    NoExamDirectory(String),
    NoSubjectDirectory(String),
    IO(String),
    InvalidFramework,
    InvalidFrameworkDir(String),
}

impl View for ConfigError {
    type V = ConfigErrorView;

    open spec fn view(&self) -> ConfigErrorView {
        match self {
            ConfigError::NoHomeDirectory => ConfigErrorView::NoHomeDirectory,
            ConfigError::NoConfigDirectory => ConfigErrorView::NoConfigDirectory,
            ConfigError::NoExamTrainerDirectory => ConfigErrorView::NoExamTrainerDirectory,
            ConfigError::ConfigFileNotFound => ConfigErrorView::ConfigFileNotFound,
            ConfigError::InvalidConfigFile(e) => ConfigErrorView::InvalidConfigFile(e@),
            ConfigError::NoQuestionDirectory(d) => ConfigErrorView::NoQuestionDirectory(d@),
            ConfigError::NoExamDirectory(d) => ConfigErrorView::NoExamDirectory(d@),
            ConfigError::NoSubjectDirectory(d) => ConfigErrorView::NoSubjectDirectory(d@),
            ConfigError::IO(e) => ConfigErrorView::IO(e@),
            ConfigError::InvalidFramework => ConfigErrorView::InvalidFramework,
            ConfigError::InvalidFrameworkDir(d) => ConfigErrorView::InvalidFrameworkDir(d@),
        }
    }
}

impl ConfigErrorView {
    /// The message that a reader is shown for this error.
    pub open spec fn message(self) -> Seq<char> {
        match self {
            ConfigErrorView::NoHomeDirectory => "Home directory could not be found"@,
            ConfigErrorView::NoConfigDirectory => ".config/ directory was not found in $HOME"@,
            ConfigErrorView::NoExamTrainerDirectory => "Could not find examtrainer/ directory in $HOME/.config/"@,
            ConfigErrorView::ConfigFileNotFound => "Unable to find/open config file"@,
            ConfigErrorView::InvalidConfigFile(e) => "Error parsing config: "@ + e,
            ConfigErrorView::NoQuestionDirectory(d) => "Question directory '"@ + d
                + "' could not be found"@,
            ConfigErrorView::NoExamDirectory(d) => "Exam directory '"@ + d
                + "' could not be found"@,
            ConfigErrorView::NoSubjectDirectory(d) => "Subject directory '"@ + d
                + "' could not be found"@,
            ConfigErrorView::IO(e) => "IO Error: "@ + e,
            ConfigErrorView::InvalidFramework => "Framework values must start with '-l' or '-L'"@,
            ConfigErrorView::InvalidFrameworkDir(d) => "Invalid framework directory in Config: "@
                + d,
        }
    }
}

impl ConfigError {
    pub fn to_string(&self) -> (text: String)
        ensures
            text@ == self@.message(),
    {
        match self {
            ConfigError::NoHomeDirectory => String::from_str("Home directory could not be found"),
            ConfigError::NoConfigDirectory => String::from_str(
                ".config/ directory was not found in $HOME",
            ),
            ConfigError::NoExamTrainerDirectory => String::from_str(
                "Could not find examtrainer/ directory in $HOME/.config/",
            ),
            ConfigError::ConfigFileNotFound => String::from_str("Unable to find/open config file"),
            ConfigError::InvalidConfigFile(e) => String::from_str("Error parsing config: ").concat(
                e.as_str(),
            ),
            ConfigError::NoQuestionDirectory(d) => String::from_str("Question directory '").concat(
                d.as_str(),
            ).concat("' could not be found"),
            ConfigError::NoExamDirectory(d) => String::from_str("Exam directory '").concat(
                d.as_str(),
            ).concat("' could not be found"),
            ConfigError::NoSubjectDirectory(d) => String::from_str("Subject directory '").concat(
                d.as_str(),
            ).concat("' could not be found"),
            ConfigError::IO(e) => String::from_str("IO Error: ").concat(e.as_str()),
            ConfigError::InvalidFramework => String::from_str(
                "Framework values must start with '-l' or '-L'",
            ),
            ConfigError::InvalidFrameworkDir(d) => String::from_str(
                "Invalid framework directory in Config: ",
            ).concat(d.as_str()),
        }
    }
}

} // verus!
