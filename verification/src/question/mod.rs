//! Questions: what is asked of a candidate, how an answer is handed in and
//! how it is graded.

pub mod binary_runner;
pub mod compiler;
pub mod database;
pub mod error;
pub mod grader;
pub mod grading;
pub mod submission;
pub mod toml;
pub mod trace;

pub use binary_runner::BinaryResult;
pub use database::QuestionDB;
pub use error::QuestionError;
pub use submission::Submission;
pub use trace::Trace;

use vstd::prelude::*;

verus! {

/// The directories of one question.
#[derive(Debug)]
pub struct QuestionDirs {
    pub submit_directory: String,
    pub question_directory: String,
    pub subject_directory: String,
}

} // verus!

use crate::config::Config;
use crate::question::error::{MissingKeys, QuestionErrorView};
use crate::question::grader::{Grading, Request};
use crate::question::compiler::artifact_name;
use crate::question::submission::{built_submission, SubmissionView};
use crate::question::test::{begin, built_test, unknown_framework, ExpectedFiles, Test, TestView};
use crate::utils::text::{copy_str, join_path, joined, str_eq};
use crate::utils::Range;
use vstd::string::*;

verus! {

/// What was found on disk of the files that a question names: whether its
/// subject is a directory, and what is there of its expected-output files.
#[derive(Debug, Clone, Copy)]
pub struct DiskFacts {
    pub subject_is_dir: bool,
    pub files: ExpectedFiles,
}

/// The paths that a question names, for the caller to look at: its subject,
/// and its expected-output files where it states any.
#[derive(Debug)]
pub struct ProbePaths {
    pub subject: String,
    pub expected_stdout: Option<String>,
    pub expected_stderr: Option<String>,
}

/// The mathematical value of a [`Question`].
pub struct QuestionView {
    pub name: Seq<char>,
    pub description: Option<Seq<char>>,
    pub difficulty: u32,
    pub submit_directory: Seq<char>,
    pub question_directory: Seq<char>,
    pub subject_directory: Seq<char>,
    pub submission: SubmissionView,
    pub test: TestView,
}

/// What is wrong with the kinds of test and submission of a question taken
/// together, if anything. A test on binaries takes sources only with a
/// compiler; unit tests and tests on expected output take sources only; the
/// kind of test must be known.
pub open spec fn type_error(toml: toml::Question) -> Option<QuestionErrorView> {
    if toml.test.test_type@ == "executable"@ {
        if toml.submission.submission_type@ == "sources"@ && toml.submission.compiler is None {
            Some(QuestionErrorView::MissingKey(MissingKeys::SubSources))
        } else {
            None
        }
    } else if toml.test.test_type@ == "unit-test"@ {
        if toml.submission.submission_type@ != "sources"@ {
            Some(
                QuestionErrorView::MismatchedQuestion(
                    toml.test.test_type@,
                    toml.submission.submission_type@,
                ),
            )
        } else {
            None
        }
    } else if toml.test.test_type@ == "sources"@ {
        None
    } else if toml.test.test_type@ == "expected-output"@ {
        if toml.submission.submission_type@ != "sources"@ {
            Some(
                QuestionErrorView::MismatchedQuestion(
                    toml.test.test_type@,
                    toml.submission.submission_type@,
                ),
            )
        } else {
            None
        }
    } else {
        Some(QuestionErrorView::InvalidTestType(toml.test.test_type@))
    }
}

/// The question that a configuration in the directory `dir` describes, or
/// the first thing that is wrong with it: the kinds that do not go
/// together, the subject that is no directory, the test, the framework that
/// is not known, the submission.
pub open spec fn built_question(
    submit_dir: Seq<char>,
    known: Map<Seq<char>, Seq<Seq<char>>>,
    toml: toml::Question,
    dir: Seq<char>,
    facts: DiskFacts,
) -> Result<QuestionView, QuestionErrorView> {
    if type_error(toml) is Some {
        Err(type_error(toml)->Some_0)
    } else if !facts.subject_is_dir {
        Err(QuestionErrorView::NoSubject)
    } else {
        match built_test(toml.test, dir, facts.files) {
            Err(error) => Err(error),
            Ok(test) => match unknown_framework(test, known) {
                Some(name) => Err(QuestionErrorView::InvalidFramework(name)),
                None => match built_submission(toml.submission) {
                    Err(error) => Err(error),
                    Ok(submission) => Ok(
                        QuestionView {
                            name: toml.info.name@,
                            description: toml.info.description.deep_view(),
                            difficulty: toml.info.difficulty,
                            submit_directory: joined(submit_dir, toml.info.name@),
                            question_directory: dir,
                            subject_directory: joined(dir, toml.test.subject@),
                            submission,
                            test,
                        },
                    ),
                },
            },
        }
    }
}

/// One graded exercise.
#[derive(Debug)]
pub struct Question {
    name: String,
    description: Option<String>,
    difficulty: u32,
    directories: QuestionDirs,
    submission: Submission,
    test: Test,
}

impl View for Question {
    type V = QuestionView;

    closed spec fn view(&self) -> QuestionView {
        QuestionView {
            name: self.name@,
            description: self.description.deep_view(),
            difficulty: self.difficulty,
            submit_directory: self.directories.submit_directory@,
            question_directory: self.directories.question_directory@,
            subject_directory: self.directories.subject_directory@,
            submission: self.submission@,
            test: self.test@,
        }
    }
}

impl Question {
    /// Builds the question that a configuration describes, for a question
    /// that lies in the directory `dir_path`. `facts` says what was found on
    /// disk at the paths that [`Question::paths_to_probe`] gives.
    pub fn build_from_toml(
        config: &Config,
        toml: toml::Question,
        dir_path: &str,
        facts: DiskFacts,
    ) -> (result: Result<Self, QuestionError>)
        ensures
            match result {
                Ok(question) => built_question(
                    config.directories.submit_directory@,
                    config.frameworks@,
                    toml,
                    dir_path@,
                    facts,
                ) == Ok::<QuestionView, QuestionErrorView>(question@)
                    && question@.submission.well_formed(),
                Err(error) => built_question(
                    config.directories.submit_directory@,
                    config.frameworks@,
                    toml,
                    dir_path@,
                    facts,
                ) == Err::<QuestionView, QuestionErrorView>(error@),
            },
    {
        match Question::check_type_validity(&toml) {
            Err(error) => {
                return Err(error);
            },
            Ok(()) => {},
        }
        let name = toml.info.name;
        let submit_directory = join_path(config.submit_dir(), name.as_str());
        let question_directory = copy_str(dir_path);
        let subject_directory = match Self::validate_subject_directory(
            question_directory.as_str(),
            toml.test.subject.as_str(),
            facts.subject_is_dir,
        ) {
            Ok(subject_directory) => subject_directory,
            Err(error) => {
                return Err(error);
            },
        };
        let test = match Test::build_from_toml(toml.test, dir_path, facts.files) {
            Ok(test) => test,
            Err(error) => {
                return Err(error);
            },
        };
        match test.invalid_framework(config) {
            Ok(()) => {},
            Err(name) => {
                return Err(QuestionError::InvalidFramework(name));
            },
        }
        let submission = match Submission::build_from_toml(toml.submission) {
            Ok(submission) => submission,
            Err(error) => {
                return Err(error);
            },
        };
        Ok(
            Self {
                name,
                description: toml.info.description,
                difficulty: toml.info.difficulty,
                directories: QuestionDirs {
                    submit_directory,
                    question_directory,
                    subject_directory,
                },
                submission,
                test,
            },
        )
    }

    /// The paths that a configuration in the directory `dir_path` names,
    /// for the caller to look at before the question is built.
    pub fn paths_to_probe(toml: &toml::Question, dir_path: &str) -> (paths: ProbePaths)
        ensures
            paths.subject@ == joined(dir_path@, toml.test.subject@),
            paths.expected_stdout.deep_view() == match toml.test.expected_stdout {
                Some(file) => Some(joined(dir_path@, file@)),
                None => None,
            },
            paths.expected_stderr.deep_view() == match toml.test.expected_stderr {
                Some(file) => Some(joined(dir_path@, file@)),
                None => None,
            },
    {
        ProbePaths {
            subject: join_path(dir_path, toml.test.subject.as_str()),
            expected_stdout: match &toml.test.expected_stdout {
                Some(file) => Some(join_path(dir_path, file.as_str())),
                None => None,
            },
            expected_stderr: match &toml.test.expected_stderr {
                Some(file) => Some(join_path(dir_path, file.as_str())),
                None => None,
            },
        }
    }

    pub fn directories(&self) -> (directories: &QuestionDirs)
        ensures
            directories.submit_directory@ == self@.submit_directory,
            directories.question_directory@ == self@.question_directory,
            directories.subject_directory@ == self@.subject_directory,
    {
        &self.directories
    }

    pub fn name(&self) -> (name: &str)
        ensures
            name@ == self@.name,
    {
        self.name.as_str()
    }

    pub fn description(&self) -> (description: &Option<String>)
        ensures
            description.deep_view() == self@.description,
    {
        &self.description
    }

    pub fn difficulty(&self) -> (difficulty: u32)
        ensures
            difficulty == self@.difficulty,
    {
        self.difficulty
    }

    pub fn has_difficulty_in_range(&self, range: &Range) -> (inside: bool)
        ensures
            inside == (range.ends().0 <= self@.difficulty && self@.difficulty <= range.ends().1),
    {
        range.contains(self.difficulty)
    }

    /// The test that grades the question.
    pub fn test(&self) -> (test: &Test)
        ensures
            test@ == self@.test,
    {
        &self.test
    }

    /// What a candidate hands in.
    pub fn submission(&self) -> (submission: &Submission)
        ensures
            submission@ == self@.submission,
    {
        &self.submission
    }

    /// What a file of a question's directory means for the search of the
    /// question's configuration. A file whose name ends in the extension
    /// `toml` is the configuration, and `true` is the answer; a second such
    /// file is one too many. Any other file is passed over.
    pub fn config_file(already_found: bool, extension: Option<&str>) -> (result: Result<
        bool,
        QuestionError,
    >)
        ensures
            match result {
                Ok(is_config) => is_config == (extension is Some && extension->Some_0@ == "toml"@)
                    && !(is_config && already_found),
                Err(error) => error is MultipleConfigs && already_found && extension is Some
                    && extension->Some_0@ == "toml"@,
            },
    {
        match extension {
            Some(extension) => if str_eq(extension, "toml") {
                if already_found {
                    Err(QuestionError::MultipleConfigs)
                } else {
                    Ok(true)
                }
            } else {
                Ok(false)
            },
            None => Ok(false),
        }
    }

    /// The question of a directory, where a configuration was found in
    /// it.
    pub fn found_config(question: Option<Question>) -> (result: Result<Question, QuestionError>)
        ensures
            match result {
                Ok(found) => question == Some(found),
                Err(error) => question is None && error is NoConfig,
            },
    {
        match question {
            Some(question) => Ok(question),
            None => Err(QuestionError::NoConfig),
        }
    }

    /// The path of the subject inside the question's directory, where it is
    /// a directory.
    fn validate_subject_directory(question_dir: &str, subject_dir: &str, is_dir: bool) -> (result:
        Result<String, QuestionError>)
        ensures
            match result {
                Ok(path) => is_dir && path@ == joined(question_dir@, subject_dir@),
                Err(error) => !is_dir && error is NoSubject,
            },
    {
        let subject_directory = join_path(question_dir, subject_dir);
        if is_dir {
            Ok(subject_directory)
        } else {
            Err(QuestionError::NoSubject)
        }
    }

    /// Checks that the kinds of test and submission go together.
    pub fn check_type_validity(toml: &toml::Question) -> (result: Result<(), QuestionError>)
        ensures
            match result {
                Ok(_) => type_error(*toml) is None,
                Err(error) => type_error(*toml) == Some(error@),
            },
    {
        let test_type = toml.test.test_type.as_str();
        let submission_type = toml.submission.submission_type.as_str();
        if str_eq(test_type, "executable") {
            if str_eq(submission_type, "sources") && toml.submission.compiler.is_none() {
                Err(QuestionError::MissingKey(MissingKeys::SubSources))
            } else {
                Ok(())
            }
        } else if str_eq(test_type, "unit-test") {
            if !str_eq(submission_type, "sources") {
                Err(
                    QuestionError::MismatchedQuestion(
                        toml.test.test_type.clone(),
                        toml.submission.submission_type.clone(),
                    ),
                )
            } else {
                Ok(())
            }
        } else if str_eq(test_type, "sources") {
            Ok(())
        } else if str_eq(test_type, "expected-output") {
            if !str_eq(submission_type, "sources") {
                Err(
                    QuestionError::MismatchedQuestion(
                        toml.test.test_type.clone(),
                        toml.submission.submission_type.clone(),
                    ),
                )
            } else {
                Ok(())
            }
        } else {
            Err(QuestionError::InvalidTestType(toml.test.test_type.clone()))
        }
    }

    /// Begins the grading of what was handed in for this question: gives
    /// the state of the grading and what is to be done first.
    pub fn grade(&self, config: &Config) -> (next: (Grading, Request))
        ensures
            exists|names: (Seq<char>, Seq<char>)|
                artifact_name(names.0) && artifact_name(names.1) && (next.0@, next.1@)
                    == #[trigger] begin(
                    self@.test,
                    self@.submission,
                    self@.submit_directory,
                    config.frameworks@,
                    names,
                ),
    {
        let next = self.test.run(&self.submission, &self.directories, config);
        proof {
            let names = choose|names: (Seq<char>, Seq<char>)|
                artifact_name(names.0) && artifact_name(names.1) && (next.0@, next.1@)
                    == #[trigger] begin(
                    self.test@,
                    self.submission@,
                    self.directories.submit_directory@,
                    config.frameworks@,
                    names,
                );
            assert((next.0@, next.1@) == begin(
                self@.test,
                self@.submission,
                self@.submit_directory,
                config.frameworks@,
                names,
            ));
        }
        next
    }

    /// The question as one line of a list: its name, and its description
    /// after a dash where it has one.
    pub fn to_string(&self) -> (text: String)
        ensures
            text@ == match self@.description {
                Some(description) => self@.name + " - "@ + description,
                None => self@.name,
            },
    {
        match &self.description {
            Some(description) => self.name.clone().concat(" - ").concat(description.as_str()),
            None => self.name.clone(),
        }
    }
}

} // verus!

verus! {

/// A question that was built can be graded. Its submission names
/// something to grade: a binary with a name, or at least one source. With
/// the settings that it was built with, its grading never begins by giving
/// up for want of a compiler or of a framework, nor by returning an error:
/// what a grading needs of the configuration was checked when the question
/// was built.
pub proof fn lemma_built_question_is_gradable(
    submit_dir: Seq<char>,
    known: Map<Seq<char>, Seq<Seq<char>>>,
    toml: toml::Question,
    dir: Seq<char>,
    facts: DiskFacts,
    names: (Seq<char>, Seq<char>),
)
    requires
        built_question(submit_dir, known, toml, dir, facts) is Ok,
    ensures
        ({
            let question = built_question(submit_dir, known, toml, dir, facts)->Ok_0;
            let first = begin(
                question.test,
                question.submission,
                question.submit_directory,
                known,
                names,
            ).1;
            &&& question.submission.well_formed()
            &&& !(first is Abort)
            &&& first is Finish ==> first->Finish_0 is Ok
        }),
{
    crate::question::submission::lemma_built_submission_is_well_formed(toml.submission);
    crate::question::test::lemma_test_kinds_differ();
    reveal_strlit("executable");
    reveal_strlit("sources");
    assert("executable"@.len() == 10);
    assert("sources"@.len() == 7);
}

} // verus!
