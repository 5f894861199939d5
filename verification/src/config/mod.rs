//! The settings of the trainer: the directories it works in and the test
//! frameworks it can link.

pub mod error;
pub mod frameworks;
pub mod toml;

pub use error::ConfigError;
pub use frameworks::FrameworkManager;

use crate::config::error::ConfigErrorView;
use crate::config::frameworks::registry;
use vstd::prelude::*;
use vstd::string::*;

verus! {

#[derive(Debug)]
pub struct Directories {
    pub submit_directory: String,
    pub question_directory: String,
    pub exam_directory: String,
    pub subject_directory: String,
    pub trace_directory: String,
}

/// The directories of the settings: those that the file states.
pub open spec fn directories_of(input: toml::Directories) -> Directories {
    Directories {
        submit_directory: input.submit_directory,
        question_directory: input.question_directory,
        exam_directory: input.exam_directory,
        subject_directory: input.subject_directory,
        trace_directory: input.trace_directory,
    }
}

impl From<toml::Directories> for Directories {
    fn from(input: toml::Directories) -> (directories: Self) {
        Self {
            submit_directory: input.submit_directory,
            question_directory: input.question_directory,
            exam_directory: input.exam_directory,
            subject_directory: input.subject_directory,
            trace_directory: input.trace_directory,
        }
    }
}

impl vstd::std_specs::convert::FromSpecImpl<toml::Directories> for Directories {
    open spec fn obeys_from_spec() -> bool {
        true
    }

    open spec fn from_spec(input: toml::Directories) -> Self {
        directories_of(input)
    }
}

#[derive(Debug)]
pub struct Config {
    pub directories: Directories,
    pub frameworks: FrameworkManager,
}

impl Config {
    /// Builds the settings from what the configuration file states.
    /// `directories` are the directories, among those that the framework
    /// flags ask to search, that were found to exist.
    pub fn new_internal(config_toml: toml::Config, directories: &Vec<String>) -> (result: Result<
        Self,
        ConfigError,
    >)
        ensures
            match result {
                Ok(config) => {
                    &&& config.directories == directories_of(config_toml.directories)
                    &&& match config_toml.frameworks {
                        Some(list) => registry(list.0@, directories.deep_view()) == Ok::<
                            Map<Seq<char>, Seq<Seq<char>>>,
                            ConfigErrorView,
                        >(config.frameworks@),
                        None => config.frameworks@ == Map::<Seq<char>, Seq<Seq<char>>>::empty(),
                    }
                },
                Err(error) => config_toml.frameworks is Some && registry(
                    config_toml.frameworks->Some_0.0@,
                    directories.deep_view(),
                ) == Err::<Map<Seq<char>, Seq<Seq<char>>>, ConfigErrorView>(error@),
            },
    {
        let directories_made = Directories::from(config_toml.directories);
        match FrameworkManager::new(config_toml.frameworks, directories) {
            Ok(frameworks) => Ok(Self { directories: directories_made, frameworks }),
            Err(error) => Err(error),
        }
    }

    pub fn submit_dir(&self) -> (dir: &str)
        ensures
            dir@ == self.directories.submit_directory@,
    {
        self.directories.submit_directory.as_str()
    }

    pub fn question_dir(&self) -> (dir: &str)
        ensures
            dir@ == self.directories.question_directory@,
    {
        self.directories.question_directory.as_str()
    }

    pub fn exam_dir(&self) -> (dir: &str)
        ensures
            dir@ == self.directories.exam_directory@,
    {
        self.directories.exam_directory.as_str()
    }

    pub fn subject_directory(&self) -> (dir: &str)
        ensures
            dir@ == self.directories.subject_directory@,
    {
        self.directories.subject_directory.as_str()
    }

    pub fn subject_dir(&self) -> (dir: &str)
        ensures
            dir@ == self.directories.subject_directory@,
    {
        self.directories.subject_directory.as_str()
    }

    pub fn trace_dir(&self) -> (dir: &str)
        ensures
            dir@ == self.directories.trace_directory@,
    {
        self.directories.trace_directory.as_str()
    }

    /// The flags of the framework of that name, if the settings know it.
    pub fn get_framework(&self, name: &str) -> (flags: Option<&Vec<String>>)
        ensures
            match flags {
                Some(flags) => self.frameworks@.contains_key(name@) && self.frameworks@[name@]
                    == flags.deep_view(),
                None => !self.frameworks@.contains_key(name@),
            },
    {
        self.frameworks.get(name)
    }
}

} // verus!
