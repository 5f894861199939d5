//! The candidate: the level reached, the points earned, and the record of
//! every question that was assigned.

pub mod attempt;

use crate::error::{Error, ErrorView};
use crate::question::test::TestResult;
use crate::utils::text::{copy_str, decimal, str_eq, u64_to_string};
use attempt::{attempt_text, Attempt, AttemptBuilder, AttemptView, Status};
use vstd::prelude::*;
use vstd::string::*;

verus! {

/// The values of a list of tries.
pub open spec fn attempt_views(attempts: Seq<Attempt>) -> Seq<AttemptView> {
    Seq::new(attempts.len(), |i: int| attempts[i]@)
}

/// The record of all tries, in the order in which the questions were
/// assigned. It only grows.
#[derive(Debug)]
pub struct History {
    attempts: Vec<Attempt>,
}

impl View for History {
    type V = Seq<AttemptView>;

    closed spec fn view(&self) -> Seq<AttemptView> {
        attempt_views(self.attempts@)
    }
}

/// Whether a record holds a passed try at the question of that name.
pub open spec fn has_passed(history: Seq<AttemptView>, question: Seq<char>) -> bool {
    exists|i: int|
        0 <= i < history.len() && (#[trigger] history[i]).question_name == question
            && history[i].status == Status::Passed
}

/// The lines of a record below its heading, the last try first. A line
/// that names the level stands before the first try of each level below
/// `level`, the level named last.
pub open spec fn history_lines(history: Seq<AttemptView>, level: nat) -> Seq<char>
    decreases history.len(),
{
    if history.len() == 0 {
        Seq::empty()
    } else {
        let last = history.last();
        let heading = if last.level < level {
            "  Level "@ + decimal(last.level) + "\n"@
        } else {
            Seq::empty()
        };
        let below = if last.level < level {
            last.level
        } else {
            level
        };
        heading + "    "@ + attempt_text(last) + "\n"@ + history_lines(history.drop_last(), below)
    }
}

/// A record as text: nothing for an empty record; otherwise a heading,
/// the level of the last try, and the tries, the last first, each level
/// named where it begins.
pub open spec fn history_text(history: Seq<AttemptView>) -> Seq<char> {
    if history.len() == 0 {
        Seq::empty()
    } else {
        "Assignments: \n"@ + "  Level "@ + decimal(history.last().level) + "\n"@ + history_lines(
            history,
            history.last().level,
        )
    }
}

impl History {
    /// The record as text.
    pub fn to_string(&self) -> (text: String)
        ensures
            text@ == history_text(self@),
    {
        let n = self.attempts.len();
        if n == 0 {
            return String::new();
        }
        proof {
            assert(self@.last() == self.attempts[n - 1]@);
            assert(self@.take(n as int) =~= self@);
        }
        let mut current_level = self.attempts[n - 1].level();
        let mut text = String::from_str("Assignments: \n");
        text.append("  Level ");
        let level_text = u64_to_string(current_level as u64);
        text.append(level_text.as_str());
        text.append("\n");
        let mut i: usize = n;
        while i > 0
            invariant
                i <= n,
                n == self.attempts.len(),
                n > 0,
                text@ + history_lines(self@.take(i as int), current_level as nat) == history_text(
                    self@,
                ),
            decreases i,
        {
            let ghost before = text@;
            let ghost rest = self@.take(i as int);
            let ghost level_before = current_level as nat;
            i = i - 1;
            let assignment = &self.attempts[i];
            proof {
                assert(rest.last() == assignment@);
                assert(rest.drop_last() =~= self@.take(i as int));
            }
            if assignment.level() < current_level {
                text.append("  Level ");
                let level_text = u64_to_string(assignment.level() as u64);
                text.append(level_text.as_str());
                text.append("\n");
                current_level = assignment.level();
            }
            text.append("    ");
            let line = assignment.to_string();
            text.append(line.as_str());
            text.append("\n");
            proof {
                assert(text@ + history_lines(self@.take(i as int), current_level as nat)
                    =~= before + history_lines(rest, level_before));
            }
        }
        proof {
            assert(self@.take(0) =~= Seq::<AttemptView>::empty());
            assert(text@ + Seq::<char>::empty() =~= text@);
        }
        text
    }

    pub fn new() -> (history: Self)
        ensures
            history@ == Seq::<AttemptView>::empty(),
    {
        let history = Self { attempts: Vec::new() };
        proof {
            assert(history@ =~= Seq::<AttemptView>::empty());
        }
        history
    }

    pub fn push(&mut self, new_assignment: Attempt)
        ensures
            final(self)@ == old(self)@.push(new_assignment@),
    {
        self.attempts.push(new_assignment);
        proof {
            assert(self@ =~= old(self)@.push(new_assignment@));
        }
    }

    /// Whether a try at the question of that name has passed.
    pub fn has_passed_question(&self, question: &str) -> (passed: bool)
        ensures
            passed == has_passed(self@, question@),
    {
        let mut i: usize = 0;
        while i < self.attempts.len()
            invariant
                i <= self.attempts.len(),
                forall|k: int|
                    0 <= k < i ==> !((#[trigger] self@[k]).question_name == question@
                        && self@[k].status == Status::Passed),
            decreases self.attempts.len() - i,
        {
            proof {
                assert(self@[i as int] == self.attempts[i as int]@);
            }
            if str_eq(self.attempts[i].question_name(), question) && self.attempts[i].is_passed() {
                return true;
            }
            i = i + 1;
        }
        false
    }

    /// The number of tries on record.
    pub fn len(&self) -> (len: usize)
        ensures
            len == self@.len(),
    {
        self.attempts.len()
    }

    /// The try at a position of the record.
    pub fn get(&self, index: usize) -> (attempt: Option<&Attempt>)
        ensures
            match attempt {
                Some(attempt) => index < self@.len() && attempt@ == self@[index as int],
                None => index >= self@.len(),
            },
    {
        if index < self.attempts.len() {
            Some(&self.attempts[index])
        } else {
            None
        }
    }

    /// The try that was recorded last.
    pub fn last(&self) -> (attempt: Option<&Attempt>)
        ensures
            match attempt {
                Some(attempt) => self@.len() > 0 && attempt@ == self@.last(),
                None => self@.len() == 0,
            },
    {
        let n = self.attempts.len();
        if n > 0 {
            Some(&self.attempts[n - 1])
        } else {
            None
        }
    }

    /// Settles the last try as passed, if there is one, and gives the
    /// points that were at stake.
    fn pass_last(&mut self) -> (points: Option<u32>)
        ensures
            match points {
                Some(points) => old(self)@.len() > 0 && points == old(self)@.last().points
                    && final(self)@ == old(self)@.update(
                    old(self)@.len() - 1,
                    old(self)@.last().passed(),
                ),
                None => old(self)@.len() == 0 && final(self)@ == old(self)@,
            },
    {
        match self.attempts.pop() {
            Some(last) => {
                let mut last = last;
                let points = last.pass();
                self.attempts.push(last);
                proof {
                    assert(self@ =~= old(self)@.update(
                        old(self)@.len() - 1,
                        old(self)@.last().passed(),
                    ));
                }
                Some(points)
            },
            None => {
                proof {
                    assert(self@ =~= old(self)@);
                }
                None
            },
        }
    }

    /// Settles the last try as failed, if there is one.
    fn fail_last(&mut self) -> (found: bool)
        ensures
            found == (old(self)@.len() > 0),
            found ==> final(self)@ == old(self)@.update(
                old(self)@.len() - 1,
                old(self)@.last().failed(),
            ),
            !found ==> final(self)@ == old(self)@,
    {
        match self.attempts.pop() {
            Some(last) => {
                let mut last = last;
                last.fail();
                self.attempts.push(last);
                proof {
                    assert(self@ =~= old(self)@.update(
                        old(self)@.len() - 1,
                        old(self)@.last().failed(),
                    ));
                }
                true
            },
            None => {
                proof {
                    assert(self@ =~= old(self)@);
                }
                false
            },
        }
    }
}

/// The mathematical value of a [`User`].
pub struct UserView {
    pub history: Seq<AttemptView>,
    /// The name of the question that is assigned and not yet graded.
    pub current_question: Option<Seq<char>>,
    pub level: nat,
    /// The number of failed tries at the current level.
    pub attempt: nat,
    pub points: nat,
}

impl UserView {
    /// The candidate before anything was assigned.
    pub open spec fn fresh() -> UserView {
        UserView {
            history: Seq::empty(),
            current_question: None,
            level: 0,
            attempt: 0,
            points: 0,
        }
    }

    /// Whether the record is in order: only the last try can be open, and
    /// it is open exactly while its question is assigned.
    pub open spec fn well_formed(self) -> bool {
        &&& forall|i: int| 0 <= i < self.history.len() - 1 ==> (#[trigger] self.history[i]).settled()
        &&& self.current_question is Some <==> self.history.len() > 0
            && !self.history.last().settled()
        &&& self.current_question is Some ==> self.current_question->Some_0
            == self.history.last().question_name
    }

    /// The candidate after a question was assigned for so many points: an
    /// open try is recorded with the level and the count of tries of this
    /// moment. Nothing is assigned while a question waits to be graded.
    pub open spec fn assigned(self, question: Seq<char>, points: nat) -> Result<
        UserView,
        ErrorView,
    > {
        if self.current_question is Some {
            Err(ErrorView::General("assign_question called on User with a question assigned"@))
        } else {
            Ok(
                UserView {
                    history: self.history.push(
                        AttemptView {
                            question_name: question,
                            level: self.level,
                            attempt: self.attempt,
                            points,
                            status: Status::Current,
                        },
                    ),
                    current_question: Some(question),
                    ..self
                },
            )
        }
    }

    /// The candidate after the assigned question was graded. A pass
    /// settles the last try as passed, adds its points, moves one level up
    /// and starts counting tries anew. A failure settles the last try as
    /// failed and counts one try more. Either way no question is assigned
    /// afterwards. Without an assigned question nothing is graded.
    pub open spec fn graded(self, passed: bool) -> Result<UserView, ErrorView> {
        if self.current_question is None {
            Err(ErrorView::General("grade called on User with no assigned question!"@))
        } else if self.history.len() == 0 {
            Err(ErrorView::General("pass_question called for User without question assigned"@))
        } else if passed {
            Ok(
                UserView {
                    history: self.history.update(
                        self.history.len() - 1,
                        self.history.last().passed(),
                    ),
                    current_question: None,
                    level: self.level + 1,
                    attempt: 0,
                    points: self.points + self.history.last().points,
                },
            )
        } else {
            Ok(
                UserView {
                    history: self.history.update(
                        self.history.len() - 1,
                        self.history.last().failed(),
                    ),
                    current_question: None,
                    attempt: self.attempt + 1,
                    ..self
                },
            )
        }
    }

    /// Whether grading stays within the numbers that the counters can hold.
    pub open spec fn can_grade(self, passed: bool) -> bool {
        self.current_question is Some && self.history.len() > 0 ==> if passed {
            self.level < u32::MAX && self.points + self.history.last().points <= u32::MAX
        } else {
            self.attempt < u32::MAX
        }
    }
}

/// The candidate.
#[derive(Debug)]
pub struct User {
    history: History,
    current_question: Option<String>,
    level: u32,
    attempt: u32,
    points: u32,
}

impl View for User {
    type V = UserView;

    closed spec fn view(&self) -> UserView {
        UserView {
            history: self.history@,
            current_question: match self.current_question {
                Some(name) => Some(name@),
                None => None,
            },
            level: self.level as nat,
            attempt: self.attempt as nat,
            points: self.points as nat,
        }
    }
}

impl User {
    pub fn new() -> (user: Self)
        ensures
            user@ == UserView::fresh(),
            user@.well_formed(),
    {
        Self { history: History::new(), current_question: None, level: 0, attempt: 0, points: 0 }
    }

    /// Assigns the question of that name for so many points.
    pub fn assign_question(&mut self, question: &str, points: u32) -> (result: Result<(), Error>)
        ensures
            match result {
                Ok(_) => old(self)@.assigned(question@, points as nat) == Ok::<
                    UserView,
                    ErrorView,
                >(final(self)@),
                Err(error) => old(self)@.assigned(question@, points as nat) == Err::<
                    UserView,
                    ErrorView,
                >(error@) && final(self)@ == old(self)@,
            },
            old(self)@.well_formed() ==> final(self)@.well_formed(),
    {
        if self.current_question.is_some() {
            return Err(
                Error::General(copy_str("assign_question called on User with a question assigned")),
            );
        }
        let new_assignment = AttemptBuilder::new().name(copy_str(question)).level(
            self.level,
        ).attempt(self.attempt).points(points).build();
        match new_assignment {
            Ok(new_assignment) => {
                self.history.push(new_assignment);
                self.current_question = Some(copy_str(question));
                Ok(())
            },
            Err(error) => Err(error),
        }
    }

    pub fn get_last_assignment(&self) -> (attempt: Option<&Attempt>)
        ensures
            match attempt {
                Some(attempt) => self@.history.len() > 0 && attempt@ == self@.history.last(),
                None => self@.history.len() == 0,
            },
    {
        self.history.last()
    }

    /// The name of the question that is assigned and not yet graded.
    pub fn current_question_name(&self) -> (name: Option<&str>)
        ensures
            match name {
                Some(name) => self@.current_question == Some(name@),
                None => self@.current_question is None,
            },
    {
        match &self.current_question {
            Some(name) => Some(name.as_str()),
            None => None,
        }
    }

    /// Takes the result of grading the assigned question, and hands it
    /// back.
    pub fn grade(&mut self, result: TestResult) -> (graded: Result<TestResult, Error>)
        requires
            old(self)@.can_grade(result is Passed),
        ensures
            match graded {
                Ok(handed_back) => handed_back == result && old(self)@.graded(result is Passed)
                    == Ok::<UserView, ErrorView>(final(self)@),
                Err(error) => old(self)@.graded(result is Passed) == Err::<UserView, ErrorView>(
                    error@,
                ) && final(self)@ == old(self)@,
            },
            old(self)@.well_formed() ==> final(self)@.well_formed(),
    {
        if self.current_question.is_none() {
            return Err(Error::General(copy_str("grade called on User with no assigned question!")));
        }
        match result {
            TestResult::Passed => self.pass_question(result),
            TestResult::Failed(_) => self.fail_question(result),
        }
    }

    fn pass_question(&mut self, result: TestResult) -> (graded: Result<TestResult, Error>)
        requires
            old(self)@.current_question is Some,
            old(self)@.can_grade(true),
        ensures
            match graded {
                Ok(handed_back) => handed_back == result && old(self)@.graded(true) == Ok::<
                    UserView,
                    ErrorView,
                >(final(self)@),
                Err(error) => old(self)@.graded(true) == Err::<UserView, ErrorView>(error@)
                    && final(self)@ == old(self)@,
            },
    {
        match self.history.pass_last() {
            Some(points_gained) => {
                self.points = self.points + points_gained;
                self.level = self.level + 1;
                self.attempt = 0;
                self.current_question = None;
                Ok(result)
            },
            None => Err(
                Error::General(
                    copy_str("pass_question called for User without question assigned"),
                ),
            ),
        }
    }

    fn fail_question(&mut self, result: TestResult) -> (graded: Result<TestResult, Error>)
        requires
            old(self)@.current_question is Some,
            old(self)@.can_grade(false),
        ensures
            match graded {
                Ok(handed_back) => handed_back == result && old(self)@.graded(false) == Ok::<
                    UserView,
                    ErrorView,
                >(final(self)@),
                Err(error) => old(self)@.graded(false) == Err::<UserView, ErrorView>(error@)
                    && final(self)@ == old(self)@,
            },
    {
        if self.history.fail_last() {
            self.attempt = self.attempt + 1;
            self.current_question = None;
            Ok(result)
        } else {
            Err(
                Error::General(
                    copy_str("pass_question called for User without question assigned"),
                ),
            )
        }
    }

    pub fn level(&self) -> (level: u32)
        ensures
            level == self@.level,
    {
        self.level
    }

    pub fn attempt(&self) -> (attempt: u32)
        ensures
            attempt == self@.attempt,
    {
        self.attempt
    }

    pub fn points(&self) -> (points: u32)
        ensures
            points == self@.points,
    {
        self.points
    }

    /// The record of all tries.
    pub fn history(&self) -> (history: &History)
        ensures
            history@ == self@.history,
    {
        &self.history
    }

    /// Whether the candidate has all the points that the exam gives.
    /// Points beyond that are taken away.
    pub fn completed_exam(&mut self, exam: &crate::exam::Exam) -> (completed: bool)
        ensures
            completed == (old(self)@.points >= exam@.max),
            final(self)@ == (UserView {
                points: if completed {
                    exam@.max as nat
                } else {
                    old(self)@.points
                },
                ..old(self)@
            }),
    {
        if self.points >= exam.max_grade() {
            self.points = exam.max_grade();
            true
        } else {
            false
        }
    }

    /// Whether a try at the question of that name has passed.
    pub fn has_passed_question(&self, question: &str) -> (passed: bool)
        ensures
            passed == has_passed(self@.history, question@),
    {
        self.history.has_passed_question(question)
    }

    /// Whether grading the result would stay within the numbers that the
    /// counters can hold.
    pub fn can_grade(&self, result: &TestResult) -> (can: bool)
        ensures
            can == self@.can_grade(result is Passed),
    {
        match (&self.current_question, self.history.last()) {
            (Some(_), Some(last)) => match result {
                TestResult::Passed => self.level < u32::MAX && last.points() <= u32::MAX
                    - self.points,
                TestResult::Failed(_) => self.attempt < u32::MAX,
            },
            _ => true,
        }
    }
}

impl Default for User {
    fn default() -> (user: Self)
        ensures
            user@ == UserView::fresh(),
    {
        Self::new()
    }
}

} // verus!

verus! {

/// The grading transition. Let a question be assigned to a candidate at
/// level `L` with `A` failed tries and `P` points, for `V` points. A pass
/// leaves the candidate at level `L + 1` with no failed try and `P + V`
/// points, and the try passed. A failure leaves the candidate at level `L`
/// with `A + 1` failed tries and `P` points, and the try failed. Either way
/// no question is assigned afterwards, and the record is as long as before.
pub proof fn lemma_grading_transition(user: UserView, passed: bool)
    requires
        user.well_formed(),
        user.current_question is Some,
    ensures
        user.graded(passed) is Ok,
        ({
            let after = user.graded(passed)->Ok_0;
            let stake = user.history.last().points;
            &&& after.well_formed()
            &&& after.current_question is None
            &&& after.history.len() == user.history.len()
            &&& after.history.last() == (AttemptView {
                status: if passed {
                    Status::Passed
                } else {
                    Status::Failed
                },
                ..user.history.last()
            })
            &&& passed ==> after.level == user.level + 1 && after.attempt == 0 && after.points
                == user.points + stake
            &&& !passed ==> after.level == user.level && after.attempt == user.attempt + 1
                && after.points == user.points
        }),
{
}

/// Settled tries stay as they are. Whatever is assigned to a candidate and
/// whatever is graded, a try of the record that is passed or failed is
/// afterwards what it was before, at the place where it was.
pub proof fn lemma_settled_attempts_stay(
    user: UserView,
    question: Seq<char>,
    points: nat,
    passed: bool,
    i: int,
)
    requires
        0 <= i < user.history.len(),
        user.history[i].settled(),
    ensures
        user.assigned(question, points) is Ok ==> user.assigned(question, points)->Ok_0.history[i]
            == user.history[i],
        user.graded(passed) is Ok ==> user.graded(passed)->Ok_0.history[i] == user.history[i],
{
}

/// The record only grows: assigning adds one try at the end, grading adds
/// none, and neither changes what a try records of its question, its level,
/// its count of tries and its points.
pub proof fn lemma_history_only_grows(
    user: UserView,
    question: Seq<char>,
    points: nat,
    passed: bool,
    i: int,
)
    requires
        0 <= i < user.history.len(),
    ensures
        user.assigned(question, points) is Ok ==> {
            let after = user.assigned(question, points)->Ok_0;
            after.history.len() == user.history.len() + 1 && after.history[i] == user.history[i]
        },
        user.graded(passed) is Ok ==> {
            let after = user.graded(passed)->Ok_0;
            after.history.len() == user.history.len() && after.history[i] == (AttemptView {
                status: after.history[i].status,
                ..user.history[i]
            })
        },
{
}

} // verus!

verus! {

/// The record stays in order. Whatever is assigned to a candidate whose
/// record is in order, and whatever is graded, the record is in order
/// afterwards: only its last try can be open, and it is open exactly while
/// its question is assigned.
pub proof fn lemma_record_stays_in_order(
    user: UserView,
    question: Seq<char>,
    points: nat,
    passed: bool,
)
    requires
        user.well_formed(),
    ensures
        user.assigned(question, points) is Ok ==> user.assigned(
            question,
            points,
        )->Ok_0.well_formed(),
        user.graded(passed) is Ok ==> user.graded(passed)->Ok_0.well_formed(),
{
    if user.assigned(question, points) is Ok {
        let after = user.assigned(question, points)->Ok_0;
        assert forall|i: int| 0 <= i < after.history.len() - 1 implies (
        #[trigger] after.history[i]).settled() by {
            assert(after.history[i] == user.history[i]);
            if i < user.history.len() - 1 {
                assert(user.history[i].settled());
            }
        }
    }
}

} // verus!
