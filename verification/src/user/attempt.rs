//! One try at one question, and how it ended.

use crate::error::{Error, ErrorView};
use crate::utils::text::{copy_str, decimal, u64_to_string};
use vstd::prelude::*;
use vstd::string::*;

verus! {

/// Where a try stands: still open, or settled for good.
#[derive(Debug, Clone, Copy, PartialEq, Eq, Structural)]
pub enum Status {
    Current,
    Passed,
    Failed,
}

/// The mathematical value of an [`Attempt`].
pub struct AttemptView {
    pub question_name: Seq<char>,
    pub level: nat,
    pub attempt: nat,
    pub points: nat,
    pub status: Status,
}

impl AttemptView {
    /// The try after it was marked as passed: an open try is settled as
    /// passed, a settled one stays as it is.
    pub open spec fn passed(self) -> AttemptView {
        if self.status == Status::Current {
            AttemptView { status: Status::Passed, ..self }
        } else {
            self
        }
    }

    /// The try after it was marked as failed: an open try is settled as
    /// failed, a settled one stays as it is.
    pub open spec fn failed(self) -> AttemptView {
        if self.status == Status::Current {
            AttemptView { status: Status::Failed, ..self }
        } else {
            self
        }
    }

    /// Whether the try is settled.
    pub open spec fn settled(self) -> bool {
        self.status != Status::Current
    }
}

/// One try at one question. It records the question, and the level, the
/// count of earlier tries and the points at stake at the time when the
/// question was assigned; none of these changes afterwards. Its status is
/// settled once and then stays.
#[derive(Debug)]
pub struct Attempt {
    question_name: String,
    level: u32,
    attempt: u32,
    points: u32,
    status: Status,
}

impl View for Attempt {
    type V = AttemptView;

    closed spec fn view(&self) -> AttemptView {
        AttemptView {
            question_name: self.question_name@,
            level: self.level as nat,
            attempt: self.attempt as nat,
            points: self.points as nat,
            status: self.status,
        }
    }
}

impl Attempt {
    /// Settles an open try as passed and gives the points that were at
    /// stake. A try that is settled stays as it is.
    pub fn pass(&mut self) -> (points: u32)
        ensures
            final(self)@ == old(self)@.passed(),
            points == old(self)@.points,
    {
        if self.status == Status::Current {
            self.status = Status::Passed;
        }
        self.points
    }

    /// Settles an open try as failed. A try that is settled stays as it is.
    pub fn fail(&mut self)
        ensures
            final(self)@ == old(self)@.failed(),
    {
        if self.status == Status::Current {
            self.status = Status::Failed;
        }
    }

    pub fn question_name(&self) -> (name: &str)
        ensures
            name@ == self@.question_name,
    {
        self.question_name.as_str()
    }

    pub fn level(&self) -> (level: u32)
        ensures
            level == self@.level,
    {
        self.level
    }

    pub fn attempt(&self) -> (attempt: u32)
        ensures
            attempt == self@.attempt,
    {
        self.attempt
    }

    pub fn points(&self) -> (points: u32)
        ensures
            points == self@.points,
    {
        self.points
    }

    pub fn status(&self) -> (status: Status)
        ensures
            status == self@.status,
    {
        self.status
    }

    pub fn is_passed(&self) -> (passed: bool)
        ensures
            passed == (self@.status == Status::Passed),
    {
        self.status == Status::Passed
    }

    pub fn is_failed(&self) -> (failed: bool)
        ensures
            failed == (self@.status == Status::Failed),
    {
        self.status == Status::Failed
    }
}

/// The name of a status.
pub open spec fn status_name(status: Status) -> Seq<char> {
    match status {
        Status::Current => "Current"@,
        Status::Passed => "Passed"@,
        Status::Failed => "Failed"@,
    }
}

/// A try as one line of the record: the count of earlier tries, the
/// question, the points at stake and the status.
pub open spec fn attempt_text(attempt: AttemptView) -> Seq<char> {
    decimal(attempt.attempt) + ": "@ + attempt.question_name + " for "@ + decimal(attempt.points)
        + " potential points ("@ + status_name(attempt.status) + ")"@
}

impl Status {
    pub fn to_string(&self) -> (text: String)
        ensures
            text@ == status_name(*self),
    {
        match self {
            Status::Current => String::from_str("Current"),
            Status::Passed => String::from_str("Passed"),
            Status::Failed => String::from_str("Failed"),
        }
    }
}

impl Attempt {
    /// The try as one line of the record.
    pub fn to_string(&self) -> (text: String)
        ensures
            text@ == attempt_text(self@),
    {
        let mut text = u64_to_string(self.attempt as u64);
        text.append(": ");
        text.append(self.question_name.as_str());
        text.append(" for ");
        let points = u64_to_string(self.points as u64);
        text.append(points.as_str());
        text.append(" potential points (");
        let status = self.status.to_string();
        text.append(status.as_str());
        text.append(")");
        text
    }
}

/// Settled is settled: once a try is passed or failed, marking it again,
/// as passed or as failed and as often as one likes, changes nothing.
pub proof fn lemma_settled_stays(attempt: AttemptView)
    requires
        attempt.settled(),
    ensures
        attempt.passed() == attempt,
        attempt.failed() == attempt,
        attempt.passed().settled(),
        attempt.failed().settled(),
{
}

/// An open try is settled by the first mark, and keeps what it recorded.
pub proof fn lemma_first_mark_settles(attempt: AttemptView)
    requires
        !attempt.settled(),
    ensures
        attempt.passed() == (AttemptView { status: Status::Passed, ..attempt }),
        attempt.failed() == (AttemptView { status: Status::Failed, ..attempt }),
        attempt.passed().failed() == attempt.passed(),
        attempt.failed().passed() == attempt.failed(),
{
}

/// Collects what a try records, piece by piece.
#[derive(Debug)]
pub struct AttemptBuilder {
    question_name: Option<String>,
    level: Option<u32>,
    attempt: Option<u32>,
    points: Option<u32>,
}

/// The mathematical value of an [`AttemptBuilder`].
pub struct AttemptBuilderView {
    pub question_name: Option<Seq<char>>,
    pub level: Option<nat>,
    pub attempt: Option<nat>,
    pub points: Option<nat>,
}

impl View for AttemptBuilder {
    type V = AttemptBuilderView;

    closed spec fn view(&self) -> AttemptBuilderView {
        AttemptBuilderView {
            question_name: match self.question_name {
                Some(name) => Some(name@),
                None => None,
            },
            level: match self.level {
                Some(level) => Some(level as nat),
                None => None,
            },
            attempt: match self.attempt {
                Some(attempt) => Some(attempt as nat),
                None => None,
            },
            points: match self.points {
                Some(points) => Some(points as nat),
                None => None,
            },
        }
    }
}

impl AttemptBuilderView {
    /// The try that the pieces make, where none is missing: an open one.
    pub open spec fn built(self) -> Result<AttemptView, ErrorView> {
        if self.question_name is Some && self.level is Some && self.attempt is Some
            && self.points is Some {
            Ok(
                AttemptView {
                    question_name: self.question_name->Some_0,
                    level: self.level->Some_0,
                    attempt: self.attempt->Some_0,
                    points: self.points->Some_0,
                    status: Status::Current,
                },
            )
        } else {
            Err(ErrorView::General("build called on incomplete AttemptBuilder"@))
        }
    }
}

impl AttemptBuilder {
    pub fn new() -> (builder: Self)
        ensures
            builder@ == (AttemptBuilderView {
                question_name: None,
                level: None,
                attempt: None,
                points: None,
            }),
    {
        Self { question_name: None, level: None, attempt: None, points: None }
    }

    pub fn name(self, name: String) -> (builder: Self)
        ensures
            builder@ == (AttemptBuilderView { question_name: Some(name@), ..self@ }),
    {
        let mut builder = self;
        builder.question_name = Some(name);
        builder
    }

    pub fn level(self, level: u32) -> (builder: Self)
        ensures
            builder@ == (AttemptBuilderView { level: Some(level as nat), ..self@ }),
    {
        let mut builder = self;
        builder.level = Some(level);
        builder
    }

    pub fn attempt(self, attempt: u32) -> (builder: Self)
        ensures
            builder@ == (AttemptBuilderView { attempt: Some(attempt as nat), ..self@ }),
    {
        let mut builder = self;
        builder.attempt = Some(attempt);
        builder
    }

    pub fn points(self, points: u32) -> (builder: Self)
        ensures
            builder@ == (AttemptBuilderView { points: Some(points as nat), ..self@ }),
    {
        let mut builder = self;
        builder.points = Some(points);
        builder
    }

    /// Makes the try, which is open, where no piece is missing.
    pub fn build(self) -> (result: Result<Attempt, Error>)
        ensures
            match result {
                Ok(attempt) => self@.built() == Ok::<AttemptView, ErrorView>(attempt@),
                Err(error) => self@.built() == Err::<AttemptView, ErrorView>(error@),
            },
    {
        match (self.question_name, self.level, self.attempt, self.points) {
            (Some(question_name), Some(level), Some(attempt), Some(points)) => Ok(
                Attempt { question_name, level, attempt, points, status: Status::Current },
            ),
            _ => Err(Error::General(copy_str("build called on incomplete AttemptBuilder"))),
        }
    }
}

} // verus!
