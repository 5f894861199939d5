//! One level of an exam: the questions it offers and the points it gives.

use crate::exam::error::{LevelError, LevelErrorView};
use crate::exam::toml;
use crate::question::database::find_question;
use crate::question::{QuestionDB, QuestionView};
use crate::user::attempt::{AttemptView, Status};
use crate::user::{has_passed, User, UserView};
use crate::utils::text::str_eq;
use rand::Rng;
use vstd::prelude::*;
use vstd::string::*;

verus! {

/// How a level picks its questions.
#[derive(Debug, Clone, Copy, PartialEq, Eq, Structural)]
pub enum LevelType {
    /// Any question that the candidate has not passed.
    Random,
    /// The question that the candidate failed last, again; any question
    /// that the candidate has not passed otherwise.
    Repeat,
}

/// The way of picking that a name stands for.
pub open spec fn level_type(origin: Seq<char>) -> Result<LevelType, LevelErrorView> {
    if origin == "random"@ {
        Ok(LevelType::Random)
    } else if origin == "random_repeat"@ {
        Ok(LevelType::Repeat)
    } else {
        Err(LevelErrorView::InvalidType(origin))
    }
}

impl LevelType {
    pub fn new(origin: String) -> (result: Result<Self, LevelError>)
        ensures
            match result {
                Ok(kind) => level_type(origin@) == Ok::<LevelType, LevelErrorView>(kind),
                Err(error) => level_type(origin@) == Err::<LevelType, LevelErrorView>(error@),
            },
    {
        if str_eq(origin.as_str(), "random") {
            Ok(LevelType::Random)
        } else if str_eq(origin.as_str(), "random_repeat") {
            Ok(LevelType::Repeat)
        } else {
            Err(LevelError::InvalidType(origin))
        }
    }
}

/// The mathematical value of a [`Level`].
pub struct LevelView {
    pub kind: LevelType,
    pub questions: Seq<Seq<char>>,
    pub points: Seq<u32>,
}

/// The first question of a list that the database does not know.
pub open spec fn first_missing(questions: Seq<Seq<char>>, database: Seq<QuestionView>) -> Option<
    Seq<char>,
>
    decreases questions.len(),
{
    if questions.len() == 0 {
        None
    } else {
        match first_missing(questions.drop_last(), database) {
            Some(name) => Some(name),
            None => if find_question(database, questions.last()) is None {
                Some(questions.last())
            } else {
                None
            },
        }
    }
}

/// The level that a configuration describes, or the first thing that is
/// wrong with it: the way of picking, no question, no points, a question
/// that the database does not know.
pub open spec fn built_level(toml: toml::Level, database: Seq<QuestionView>) -> Result<
    LevelView,
    LevelErrorView,
> {
    match level_type(toml.kind@) {
        Err(error) => Err(error),
        Ok(kind) => if toml.questions.len() == 0 {
            Err(LevelErrorView::NoQuestions)
        } else if toml.points.len() == 0 {
            Err(LevelErrorView::NoPoints)
        } else {
            match first_missing(toml.questions.deep_view(), database) {
                Some(name) => Err(LevelErrorView::MissingQuestion(name)),
                None => Ok(
                    LevelView { kind, questions: toml.questions.deep_view(), points: toml.points@ },
                ),
            }
        },
    }
}

/// The questions of a list that the candidate has not passed, in the order
/// of the list.
pub open spec fn candidates(questions: Seq<Seq<char>>, history: Seq<AttemptView>) -> Seq<
    Seq<char>,
>
    decreases questions.len(),
{
    if questions.len() == 0 {
        Seq::empty()
    } else if has_passed(history, questions.last()) {
        candidates(questions.drop_last(), history)
    } else {
        candidates(questions.drop_last(), history).push(questions.last())
    }
}

/// Whether the level gives the candidate the last question again: it
/// repeats, and the last try of the candidate failed.
pub open spec fn repeats(level: LevelView, user: UserView) -> bool {
    level.kind == LevelType::Repeat && user.history.len() > 0 && user.history.last().status
        == Status::Failed
}

/// The question that the level gives the candidate when `pick` is the
/// number drawn. A level that repeats gives the question that failed last,
/// if it offers it. Otherwise the number picks among the questions that the
/// candidate has not passed; there is no question where none is left.
pub open spec fn selected(level: LevelView, user: UserView, pick: nat) -> Option<Seq<char>> {
    if repeats(level, user) {
        if level.questions.contains(user.history.last().question_name) {
            Some(user.history.last().question_name)
        } else {
            None
        }
    } else if pick < candidates(level.questions, user.history).len() {
        Some(candidates(level.questions, user.history)[pick as int])
    } else {
        None
    }
}

/// The points that the level gives at a try: those at the place of the
/// count of failed tries, or the last where the count goes beyond.
pub open spec fn points_at(points: Seq<u32>, attempt: nat) -> u32
    recommends
        points.len() > 0,
{
    if attempt < points.len() {
        points[attempt as int]
    } else {
        points.last()
    }
}

/// `Rng::gen_range` on `rand::thread_rng()` with the range from zero up to
/// `size`, `size` not included, draws a number of that range; it panics on
/// an empty range, which the precondition rules out. Which number is left
/// open.
#[verifier::external_body]
fn random_index(size: usize) -> (index: usize)
    requires
        size > 0,
    ensures
        index < size,
{
    rand::thread_rng().gen_range(0..size)
}

#[derive(Debug)]
pub struct Level {
    kind: LevelType,
    questions: Vec<String>,
    points: Vec<u32>,
}

impl View for Level {
    type V = LevelView;

    closed spec fn view(&self) -> LevelView {
        LevelView {
            kind: self.kind,
            questions: self.questions.deep_view(),
            points: self.points@,
        }
    }
}

impl Level {
    #[verifier::type_invariant]
    spec fn offers(&self) -> bool {
        self.questions.len() > 0 && self.points.len() > 0
    }

    /// Builds the level that a configuration describes. Every question
    /// that it names must be in the database.
    pub fn build_from_toml(toml: toml::Level, database: &QuestionDB) -> (result: Result<
        Self,
        LevelError,
    >)
        ensures
            match result {
                Ok(level) => built_level(toml, database@) == Ok::<LevelView, LevelErrorView>(
                    level@,
                ),
                Err(error) => built_level(toml, database@) == Err::<LevelView, LevelErrorView>(
                    error@,
                ),
            },
    {
        let kind = match LevelType::new(toml.kind) {
            Ok(kind) => kind,
            Err(error) => {
                return Err(error);
            },
        };
        if toml.questions.len() == 0 {
            Err(LevelError::NoQuestions)
        } else if toml.points.len() == 0 {
            Err(LevelError::NoPoints)
        } else {
            let mut i: usize = 0;
            proof {
                assert(toml.questions.deep_view().take(0) =~= Seq::<Seq<char>>::empty());
            }
            while i < toml.questions.len()
                invariant
                    i <= toml.questions.len(),
                    level_type(toml.kind@) == Ok::<LevelType, LevelErrorView>(kind),
                    toml.questions.len() > 0,
                    toml.points.len() > 0,
                    first_missing(toml.questions.deep_view().take(i as int), database@) is None,
                decreases toml.questions.len() - i,
            {
                proof {
                    let next = toml.questions.deep_view().take(i + 1);
                    assert(next.drop_last() =~= toml.questions.deep_view().take(i as int));
                    assert(next.last() == toml.questions[i as int]@);
                }
                if database.get_question_by_name(toml.questions[i].as_str()).is_none() {
                    proof {
                        lemma_first_missing(toml.questions.deep_view(), database@, i as int);
                    }
                    return Err(LevelError::MissingQuestion(toml.questions[i].clone()));
                }
                i = i + 1;
            }
            proof {
                assert(toml.questions.deep_view().take(i as int) =~= toml.questions.deep_view());
            }
            Ok(Self { kind, questions: toml.questions, points: toml.points })
        }
    }

    /// Picks the next question for the candidate, drawing a number where
    /// there is a choice. There is no question where the candidate has
    /// passed every question of the level, or where the level repeats a
    /// question that it does not offer.
    pub fn select_question(&self, user: &User) -> (question: Option<&str>)
        ensures
            exists|pick: nat|
                (candidates(self@.questions, user@.history).len() > 0 ==> pick < candidates(
                    self@.questions,
                    user@.history,
                ).len()) && #[trigger] selected(self@, user@, pick) == (match question {
                    Some(name) => Some(name@),
                    None => None,
                }),
    {
        let pick = self.draw(user);
        let question = self.select_with(user, pick);
        proof {
            assert(selected(self@, user@, pick as nat) == (match question {
                Some(name) => Some(name@),
                None => None,
            }));
        }
        question
    }

    /// Draws the number that picks the next question for the candidate: one
    /// below the number of questions that the candidate has not passed,
    /// where there are any.
    pub fn draw(&self, user: &User) -> (pick: usize)
        ensures
            candidates(self@.questions, user@.history).len() > 0 ==> pick < candidates(
                self@.questions,
                user@.history,
            ).len(),
    {
        let possible = self.possible_questions(user);
        if possible.len() == 0 {
            0
        } else {
            random_index(possible.len())
        }
    }

    /// Picks the next question for the candidate when `pick` is the number
    /// drawn.
    pub fn select_with(&self, user: &User, pick: usize) -> (question: Option<&str>)
        ensures
            selected(self@, user@, pick as nat) == (match question {
                Some(name) => Some(name@),
                None => None,
            }),
    {
        match self.kind {
            LevelType::Random => self.random_select(user, pick),
            LevelType::Repeat => self.random_repeat_select(user, pick),
        }
    }

    fn random_select(&self, user: &User, pick: usize) -> (question: Option<&str>)
        ensures
            (match question {
                Some(name) => Some(name@),
                None => None,
            }) == if pick < candidates(self@.questions, user@.history).len() {
                Some(candidates(self@.questions, user@.history)[pick as int])
            } else {
                None::<Seq<char>>
            },
    {
        let possible = self.possible_questions(user);
        if pick < possible.len() {
            let index = possible[pick];
            Some(self.questions[index].as_str())
        } else {
            None
        }
    }

    fn random_repeat_select(&self, user: &User, pick: usize) -> (question: Option<&str>)
        requires
            self@.kind == LevelType::Repeat,
        ensures
            selected(self@, user@, pick as nat) == (match question {
                Some(name) => Some(name@),
                None => None,
            }),
    {
        match user.get_last_assignment() {
            Some(last_assignment) => {
                if last_assignment.is_failed() {
                    let mut i: usize = 0;
                    while i < self.questions.len()
                        invariant
                            i <= self.questions.len(),
                            self@.kind == LevelType::Repeat,
                            user@.history.len() > 0,
                            last_assignment@ == user@.history.last(),
                            last_assignment@.status == Status::Failed,
                            forall|k: int|
                                0 <= k < i ==> self.questions[k]@ != last_assignment@.question_name,
                        decreases self.questions.len() - i,
                    {
                        if str_eq(self.questions[i].as_str(), last_assignment.question_name()) {
                            proof {
                                assert(self@.questions[i as int]
                                    == last_assignment@.question_name);
                            }
                            return Some(self.questions[i].as_str());
                        }
                        i = i + 1;
                    }
                    proof {
                        if self@.questions.contains(last_assignment@.question_name) {
                            let k = choose|k: int|
                                0 <= k < self@.questions.len() && self@.questions[k]
                                    == last_assignment@.question_name;
                            assert(self.questions[k]@ == last_assignment@.question_name);
                        }
                    }
                    None
                } else {
                    self.random_select(user, pick)
                }
            },
            None => self.random_select(user, pick),
        }
    }

    /// The places, among the questions of the level, of those that the
    /// candidate has not passed.
    fn possible_questions(&self, user: &User) -> (places: Vec<usize>)
        ensures
            places.len() == candidates(self@.questions, user@.history).len(),
            forall|k: int|
                0 <= k < places.len() ==> (#[trigger] places[k]) < self.questions.len()
                    && self.questions[places[k] as int]@ == candidates(
                    self@.questions,
                    user@.history,
                )[k],
    {
        let mut places: Vec<usize> = Vec::new();
        let mut i: usize = 0;
        proof {
            assert(self@.questions.take(0) =~= Seq::<Seq<char>>::empty());
        }
        while i < self.questions.len()
            invariant
                i <= self.questions.len(),
                places.len() == candidates(self@.questions.take(i as int), user@.history).len(),
                forall|k: int|
                    0 <= k < places.len() ==> (#[trigger] places[k]) < self.questions.len()
                        && self.questions[places[k] as int]@ == candidates(
                        self@.questions.take(i as int),
                        user@.history,
                    )[k],
            decreases self.questions.len() - i,
        {
            proof {
                let next = self@.questions.take(i + 1);
                assert(next.drop_last() =~= self@.questions.take(i as int));
                assert(next.last() == self.questions[i as int]@);
            }
            if !user.has_passed_question(self.questions[i].as_str()) {
                places.push(i);
            }
            i = i + 1;
        }
        proof {
            assert(self@.questions.take(i as int) =~= self@.questions);
        }
        places
    }

    /// The points that the level gives the candidate now.
    pub fn get_points(&self, user: &User) -> (points: u32)
        ensures
            self@.points.len() > 0,
            points == points_at(self@.points, user@.attempt),
    {
        proof {
            use_type_invariant(self);
        }
        let attempt = user.attempt();
        let last = self.points.len() - 1;
        if attempt as usize <= last {
            self.points[attempt as usize]
        } else {
            self.points[last]
        }
    }
}

/// Where the questions before a position are known and the one at it is
/// not, it is the first that is missing.
proof fn lemma_first_missing(questions: Seq<Seq<char>>, database: Seq<QuestionView>, at: int)
    requires
        0 <= at < questions.len(),
        first_missing(questions.take(at), database) is None,
        find_question(database, questions[at]) is None,
    ensures
        first_missing(questions, database) == Some(questions[at]),
    decreases questions.len(),
{
    if at == questions.len() - 1 {
        assert(questions.drop_last() =~= questions.take(at));
    } else {
        assert(questions.drop_last().take(at) =~= questions.take(at));
        lemma_first_missing(questions.drop_last(), database, at);
    }
}

/// Passed questions are not given again. A question that a level gives the
/// candidate, unless it repeats the one that failed last, is one that the
/// level offers and that the candidate has not passed.
pub proof fn lemma_selected_is_open(level: LevelView, user: UserView, pick: nat)
    requires
        !repeats(level, user),
        selected(level, user, pick) is Some,
    ensures
        level.questions.contains(selected(level, user, pick)->Some_0),
        !has_passed(user.history, selected(level, user, pick)->Some_0),
{
    lemma_candidates_are_open(level.questions, user.history, pick as int);
}

/// A question among those not passed is one of the list that the candidate
/// has not passed.
proof fn lemma_candidates_are_open(
    questions: Seq<Seq<char>>,
    history: Seq<AttemptView>,
    k: int,
)
    requires
        0 <= k < candidates(questions, history).len(),
    ensures
        questions.contains(candidates(questions, history)[k]),
        !has_passed(history, candidates(questions, history)[k]),
    decreases questions.len(),
{
    if questions.len() > 0 {
        let earlier = candidates(questions.drop_last(), history);
        if k < earlier.len() {
            lemma_candidates_are_open(questions.drop_last(), history, k);
            let j = choose|j: int|
                0 <= j < questions.drop_last().len() && questions.drop_last()[j] == earlier[k];
            assert(questions[j] == earlier[k]);
        } else {
            assert(questions[questions.len() - 1] == questions.last());
        }
    }
}

} // verus!
