//! What a candidate hands in: a binary that is already built, or sources
//! from which one is built.

use crate::question::error::{MissingKeys, QuestionError, QuestionErrorView};
use crate::question::toml;
use crate::utils::text::str_eq;
use vstd::prelude::*;
use vstd::string::*;

verus! {

/// A submission that names a binary.
#[derive(Debug)]
pub struct Exec {
    pub binary: String,
}

impl Exec {
    pub fn name(&self) -> (name: &str)
        ensures
            name@ == self.binary@,
    {
        self.binary.as_str()
    }
}

/// A submission that names sources, with the compiler and the flags that
/// build them where the question states any.
#[derive(Debug)]
pub struct Sources {
    pub sources: Vec<String>,
    pub compiler: Option<String>,
    pub flags: Option<Vec<String>>,
}

impl Sources {
    /// The compiler that the submission names.
    pub fn compiler(&self) -> (compiler: &str)
        requires
            self.compiler is Some,
        ensures
            compiler@ == self.compiler->Some_0@,
    {
        match &self.compiler {
            Some(compiler) => compiler.as_str(),
            None => "",
        }
    }

    pub fn sources(&self) -> (sources: &Vec<String>)
        ensures
            sources == &self.sources,
    {
        &self.sources
    }

    pub fn flags(&self) -> (flags: &Option<Vec<String>>)
        ensures
            flags == &self.flags,
    {
        &self.flags
    }
}

#[derive(Debug)]
pub enum Submission {
    Exec(Exec),
    Sources(Sources),
}

/// The mathematical value of a [`Submission`].
pub enum SubmissionView {
    Exec { binary: Seq<char> },
    Sources { sources: Seq<Seq<char>>, compiler: Option<Seq<char>>, flags: Option<Seq<Seq<char>>> },
}

impl View for Submission {
    type V = SubmissionView;

    open spec fn view(&self) -> SubmissionView {
        match self {
            Submission::Exec(exec) => SubmissionView::Exec { binary: exec.binary@ },
            Submission::Sources(sources) => SubmissionView::Sources {
                sources: sources.sources.deep_view(),
                compiler: sources.compiler.deep_view(),
                flags: sources.flags.deep_view(),
            },
        }
    }
}

impl SubmissionView {
    /// Whether the submission names something to grade: a binary with a
    /// name, or at least one source.
    pub open spec fn well_formed(self) -> bool {
        match self {
            SubmissionView::Exec { binary } => binary.len() > 0,
            SubmissionView::Sources { sources, .. } => sources.len() > 0,
        }
    }
}

/// The submission that a configuration describes, or the reason why it
/// describes none. A submission of the kind `executable` needs a binary
/// with a name; one of the kind `sources` needs at least one source. A
/// binary without a name counts as a missing binary, and an empty list
/// of sources as missing sources. Any other kind is refused by name.
pub open spec fn built_submission(toml: toml::Submission) -> Result<
    SubmissionView,
    QuestionErrorView,
> {
    if toml.submission_type@ == "executable"@ {
        match toml.binary {
            Some(binary) => if binary@.len() > 0 {
                Ok(SubmissionView::Exec { binary: binary@ })
            } else {
                Err(QuestionErrorView::MissingKey(MissingKeys::SubExec))
            },
            None => Err(QuestionErrorView::MissingKey(MissingKeys::SubExec)),
        }
    } else if toml.submission_type@ == "sources"@ {
        match toml.sources {
            Some(sources) => if sources.len() > 0 {
                Ok(
                    SubmissionView::Sources {
                        sources: sources.deep_view(),
                        compiler: toml.compiler.deep_view(),
                        flags: toml.flags.deep_view(),
                    },
                )
            } else {
                Err(QuestionErrorView::MissingKey(MissingKeys::SubSources))
            },
            None => Err(QuestionErrorView::MissingKey(MissingKeys::SubSources)),
        }
    } else {
        Err(QuestionErrorView::InvalidSubmissionType(toml.submission_type@))
    }
}

/// Every submission that is built names something to grade: a binary with
/// a name, or at least one source.
pub proof fn lemma_built_submission_is_well_formed(toml: toml::Submission)
    requires
        built_submission(toml) is Ok,
    ensures
        built_submission(toml)->Ok_0.well_formed(),
{
    if toml.submission_type@ != "executable"@ {
        assert(toml.sources->Some_0.deep_view().len() == toml.sources->Some_0.len());
    }
}

impl Submission {
    /// Builds the submission that a configuration describes. The kind is
    /// `executable`, which needs a binary with a name, or `sources`, which
    /// needs at least one source; any other kind is refused by name. What
    /// is built always names something to grade.
    pub fn build_from_toml(toml: toml::Submission) -> (result: Result<Self, QuestionError>)
        ensures
            match result {
                Ok(submission) => built_submission(toml) == Ok::<
                    SubmissionView,
                    QuestionErrorView,
                >(submission@) && submission@.well_formed(),
                Err(error) => built_submission(toml) == Err::<SubmissionView, QuestionErrorView>(
                    error@,
                ),
            },
    {
        if str_eq(toml.submission_type.as_str(), "executable") {
            match toml.binary {
                Some(binary) => {
                    let unnamed = binary.as_str().is_empty();
                    if unnamed {
                        Err(QuestionError::MissingKey(MissingKeys::SubExec))
                    } else {
                        Ok(Submission::Exec(Exec { binary }))
                    }
                },
                None => Err(QuestionError::MissingKey(MissingKeys::SubExec)),
            }
        } else if str_eq(toml.submission_type.as_str(), "sources") {
            match toml.sources {
                Some(sources) => {
                    if sources.len() == 0 {
                        Err(QuestionError::MissingKey(MissingKeys::SubSources))
                    } else {
                        proof {
                            assert(sources.deep_view().len() == sources.len());
                        }
                        Ok(
                            Submission::Sources(
                                Sources { sources, compiler: toml.compiler, flags: toml.flags },
                            ),
                        )
                    }
                },
                None => Err(QuestionError::MissingKey(MissingKeys::SubSources)),
            }
        } else {
            Err(QuestionError::InvalidSubmissionType(toml.submission_type))
        }
    }

    /// Whether the submission names something to grade.
    pub fn is_well_formed(&self) -> (well_formed: bool)
        ensures
            well_formed == self@.well_formed(),
    {
        match self {
            Submission::Exec(exec) => {
                let name = exec.binary.as_str();
                !name.is_empty()
            },
            Submission::Sources(sources) => {
                proof {
                    assert(sources.sources.deep_view().len() == sources.sources.len());
                }
                sources.sources.len() > 0
            },
        }
    }
}

} // verus!
