//! Exams: timed sequences of levels, each offering questions.

pub mod database;
pub mod error;
pub mod grades;
pub mod level;
pub mod toml;

pub use database::ExamDB;
pub use error::ExamError;
pub use grades::Grades;
pub use level::Level;
use crate::exam::error::ExamErrorView;
use crate::exam::level::{built_level, points_at, selected, candidates, LevelView};
use crate::question::{QuestionDB, QuestionView};
use crate::user::{User, UserView};
use crate::utils::text::str_eq;
use vstd::prelude::*;
use vstd::string::*;

verus! {

/// The seconds of a time of day, where its minutes and its seconds are
/// below sixty.
pub open spec fn duration_of(time: toml::Time) -> Result<u64, ExamErrorView> {
    if time.minutes > 59 || time.seconds > 59 {
        Err(ExamErrorView::InvalidTime)
    } else {
        Ok((time.hours * 3600 + time.minutes * 60 + time.seconds) as u64)
    }
}

/// Turns the time that a configuration allows into seconds.
pub fn convert_time_to_duration(time: toml::Time) -> (result: Result<u64, ExamError>)
    ensures
        match result {
            Ok(seconds) => duration_of(time) == Ok::<u64, ExamErrorView>(seconds),
            Err(error) => duration_of(time) == Err::<u64, ExamErrorView>(error@),
        },
{
    if time.minutes > 59 || time.seconds > 59 {
        Err(ExamError::InvalidTime)
    } else {
        let hours: u64 = time.hours as u64;
        let minutes: u64 = time.minutes as u64;
        let seconds: u64 = time.seconds as u64;
        Ok(hours * 3600 + minutes * 60 + seconds)
    }
}

/// The values of a list of levels.
pub open spec fn level_views(levels: Seq<Level>) -> Seq<LevelView> {
    Seq::new(levels.len(), |i: int| levels[i]@)
}

/// The levels that a configuration describes, or the first level that is
/// wrong, by its place, with what is wrong with it.
pub open spec fn built_levels(levels: Seq<toml::Level>, database: Seq<QuestionView>) -> Result<
    Seq<LevelView>,
    ExamErrorView,
>
    decreases levels.len(),
{
    if levels.len() == 0 {
        Ok(Seq::empty())
    } else {
        match built_levels(levels.drop_last(), database) {
            Err(error) => Err(error),
            Ok(earlier) => match built_level(levels.last(), database) {
                Err(error) => Err(ExamErrorView::InvalidLevel((levels.len() - 1) as nat, error)),
                Ok(level) => Ok(earlier.push(level)),
            },
        }
    }
}

/// The mathematical value of an [`Exam`].
pub struct ExamView {
    pub name: Seq<char>,
    pub description: Option<Seq<char>>,
    pub pass: u32,
    pub max: u32,
    pub seconds: u64,
    pub levels: Seq<LevelView>,
}

/// The exam that a configuration describes, or the first thing that is
/// wrong with it: the grades, the time, no level, a level.
pub open spec fn built_exam(toml: toml::Exam, database: Seq<QuestionView>) -> Result<
    ExamView,
    ExamErrorView,
> {
    if toml.grades.pass > toml.grades.max {
        Err(ExamErrorView::InvalidGrade)
    } else {
        match duration_of(toml.time) {
            Err(error) => Err(error),
            Ok(seconds) => if toml.levels.len() == 0 {
                Err(ExamErrorView::NoLevels)
            } else {
                match built_levels(toml.levels@, database) {
                    Err(error) => Err(error),
                    Ok(levels) => Ok(
                        ExamView {
                            name: toml.info.name@,
                            description: toml.info.description.deep_view(),
                            pass: toml.grades.pass,
                            max: toml.grades.max,
                            seconds,
                            levels,
                        },
                    ),
                }
            },
        }
    }
}

fn create_levels(toml_vec: Vec<toml::Level>, database: &QuestionDB) -> (result: Result<
    Vec<Level>,
    ExamError,
>)
    ensures
        match result {
            Ok(levels) => toml_vec.len() > 0 && built_levels(toml_vec@, database@) == Ok::<
                Seq<LevelView>,
                ExamErrorView,
            >(level_views(levels@)),
            Err(error) => if toml_vec.len() == 0 {
                error@ == ExamErrorView::NoLevels
            } else {
                built_levels(toml_vec@, database@) == Err::<Seq<LevelView>, ExamErrorView>(error@)
            },
        },
{
    if toml_vec.len() == 0 {
        return Err(ExamError::NoLevels);
    }
    let ghost all = toml_vec@;
    let mut rest = toml_vec;
    let mut out_vec: Vec<Level> = Vec::new();
    let mut index: usize = 0;
    proof {
        assert(all.take(0) =~= Seq::<toml::Level>::empty());
        assert(level_views(out_vec@) =~= Seq::<LevelView>::empty());
        assert(all.skip(0) =~= all);
    }
    while rest.len() > 0
        invariant
            all == toml_vec@,
            toml_vec.len() > 0,
            index + rest.len() == all.len(),
            rest@ == all.skip(index as int),
            built_levels(all.take(index as int), database@) == Ok::<
                Seq<LevelView>,
                ExamErrorView,
            >(level_views(out_vec@)),
        decreases rest.len(),
    {
        let level = rest.remove(0);
        proof {
            assert(level == all[index as int]);
            assert(rest@ =~= all.skip(index + 1));
            assert(all.take(index + 1).drop_last() =~= all.take(index as int));
            assert(all.take(index + 1).last() == all[index as int]);
        }
        let ghost before = level_views(out_vec@);
        match Level::build_from_toml(level, database) {
            Ok(new_level) => {
                out_vec.push(new_level);
                proof {
                    assert(level_views(out_vec@) =~= before.push(new_level@));
                }
            },
            Err(error) => {
                proof {
                    lemma_first_bad_level(all, database@, index as int);
                }
                return Err(ExamError::InvalidLevel(index, error));
            },
        }
        index = index + 1;
    }
    proof {
        assert(all.take(index as int) =~= all);
    }
    Ok(out_vec)
}

/// Where the levels before a position are in order and the one at it is
/// not, the list has the error of that level, by its place.
proof fn lemma_first_bad_level(levels: Seq<toml::Level>, database: Seq<QuestionView>, at: int)
    requires
        0 <= at < levels.len(),
        built_levels(levels.take(at), database) is Ok,
        built_level(levels[at], database) is Err,
    ensures
        built_levels(levels, database) == Err::<Seq<LevelView>, ExamErrorView>(
            ExamErrorView::InvalidLevel(at as nat, built_level(levels[at], database)->Err_0),
        ),
    decreases levels.len(),
{
    if at == levels.len() - 1 {
        assert(levels.drop_last() =~= levels.take(at));
    } else {
        assert(levels.drop_last().take(at) =~= levels.take(at));
        lemma_first_bad_level(levels.drop_last(), database, at);
    }
}

/// A timed sequence of levels with the grades that pass it. It does not
/// change once it is built.
#[derive(Debug)]
pub struct Exam {
    name: String,
    description: Option<String>,
    grades: Grades,
    time: u64,
    levels: Vec<Level>,
}

impl View for Exam {
    type V = ExamView;

    closed spec fn view(&self) -> ExamView {
        ExamView {
            name: self.name@,
            description: self.description.deep_view(),
            pass: self.grades.spec_pass(),
            max: self.grades.spec_max(),
            seconds: self.time,
            levels: level_views(self.levels@),
        }
    }
}

/// The question that an exam gives the candidate when `pick` is the number
/// drawn: the one that the level of the candidate gives; none beyond the
/// last level.
pub open spec fn exam_selected(exam: ExamView, user: UserView, pick: nat) -> Option<Seq<char>> {
    if user.level < exam.levels.len() {
        selected(exam.levels[user.level as int], user, pick)
    } else {
        None
    }
}

/// The points that an exam gives the candidate for the next question:
/// those of the level of the candidate; none beyond the last level.
pub open spec fn exam_points(exam: ExamView, user: UserView) -> u32 {
    if user.level < exam.levels.len() {
        points_at(exam.levels[user.level as int].points, user.attempt)
    } else {
        0
    }
}

/// Whether a number can have been drawn for the choice of the candidate's
/// next question: where the level of the candidate has questions that the
/// candidate has not passed, the number picks one of them.
pub open spec fn drawn_for(exam: ExamView, user: UserView, pick: nat) -> bool {
    user.level < exam.levels.len() && candidates(
        exam.levels[user.level as int].questions,
        user.history,
    ).len() > 0 ==> pick < candidates(
        exam.levels[user.level as int].questions,
        user.history,
    ).len()
}

/// A number that was drawn gives a question while one is left. Where the
/// level of the candidate has a question that the candidate has not
/// passed, and does not repeat the question that failed last, the exam
/// gives one of those questions.
pub proof fn lemma_drawn_number_gives_a_question(exam: ExamView, user: UserView, pick: nat)
    requires
        drawn_for(exam, user, pick),
        user.level < exam.levels.len(),
        candidates(exam.levels[user.level as int].questions, user.history).len() > 0,
        !crate::exam::level::repeats(exam.levels[user.level as int], user),
    ensures
        exam_selected(exam, user, pick) == Some(
            candidates(exam.levels[user.level as int].questions, user.history)[pick as int],
        ),
{
}

impl Exam {
    /// Builds the exam that a configuration describes. Every question that
    /// a level names must be in the database.
    pub fn build_from_toml(toml: toml::Exam, database: &QuestionDB) -> (result: Result<
        Self,
        ExamError,
    >)
        ensures
            match result {
                Ok(exam) => built_exam(toml, database@) == Ok::<ExamView, ExamErrorView>(exam@),
                Err(error) => built_exam(toml, database@) == Err::<ExamView, ExamErrorView>(
                    error@,
                ),
            },
    {
        let name = toml.info.name;
        let grades = match Grades::new_from_toml(toml.grades) {
            Ok(grades) => grades,
            Err(error) => {
                return Err(error);
            },
        };
        let time = match convert_time_to_duration(toml.time) {
            Ok(time) => time,
            Err(error) => {
                return Err(error);
            },
        };
        let levels = match create_levels(toml.levels, database) {
            Ok(levels) => levels,
            Err(error) => {
                return Err(error);
            },
        };
        Ok(Self { name, description: toml.info.description, grades, time, levels })
    }

    /// Whether a file of the exam directory can hold an exam: it is no
    /// directory, and its name ends in the extension `toml`.
    pub fn accepts_file(is_dir: bool, extension: Option<&str>) -> (result: Result<(), ExamError>)
        ensures
            match result {
                Ok(_) => !is_dir && extension is Some && extension->Some_0@ == "toml"@,
                Err(error) => error is NotToml && (is_dir || extension is None
                    || extension->Some_0@ != "toml"@),
            },
    {
        if is_dir {
            return Err(ExamError::NotToml);
        }
        match extension {
            Some(extension) => if str_eq(extension, "toml") {
                Ok(())
            } else {
                Err(ExamError::NotToml)
            },
            None => Err(ExamError::NotToml),
        }
    }

    pub fn name(&self) -> (name: &str)
        ensures
            name@ == self@.name,
    {
        self.name.as_str()
    }

    pub fn description(&self) -> (description: &Option<String>)
        ensures
            description.deep_view() == self@.description,
    {
        &self.description
    }

    /// The seconds that the exam lasts.
    pub fn duration(&self) -> (seconds: u64)
        ensures
            seconds == self@.seconds,
    {
        self.time
    }

    /// The points that pass the exam.
    pub fn pass_grade(&self) -> (pass: u32)
        ensures
            pass == self@.pass,
    {
        self.grades.pass()
    }

    /// The most points that the exam gives.
    pub fn max_grade(&self) -> (max: u32)
        ensures
            max == self@.max,
    {
        self.grades.max()
    }

    /// The number of levels.
    pub fn levels(&self) -> (count: usize)
        ensures
            count == self@.levels.len(),
    {
        self.levels.len()
    }

    /// Picks the next question for the candidate, drawing a number where
    /// there is a choice. There is no question beyond the last level, nor
    /// where the level of the candidate has none to give.
    pub fn select_question(&self, user: &User) -> (question: Option<&str>)
        ensures
            exists|pick: nat|
                drawn_for(self@, user@, pick) && #[trigger] exam_selected(self@, user@, pick) == (
                match question {
                    Some(name) => Some(name@),
                    None => None,
                }),
    {
        let level = user.level() as usize;
        if level < self.levels.len() {
            let question = self.levels[level].select_question(user);
            proof {
                let chosen = choose|pick: nat|
                    (candidates(self.levels[level as int]@.questions, user@.history).len() > 0
                        ==> pick < candidates(
                        self.levels[level as int]@.questions,
                        user@.history,
                    ).len()) && #[trigger] selected(self.levels[level as int]@, user@, pick) == (
                    match question {
                        Some(name) => Some(name@),
                        None => None,
                    });
                assert(self@.levels[level as int] == self.levels[level as int]@);
                assert(drawn_for(self@, user@, chosen) && exam_selected(self@, user@, chosen) == (
                match question {
                    Some(name) => Some(name@),
                    None => None,
                }));
            }
            question
        } else {
            proof {
                assert(drawn_for(self@, user@, 0) && exam_selected(self@, user@, 0) == None::<
                    Seq<char>,
                >);
            }
            None
        }
    }

    /// Draws the number that picks the next question for the candidate.
    pub fn draw(&self, user: &User) -> (pick: usize)
        ensures
            drawn_for(self@, user@, pick as nat),
    {
        let level = user.level() as usize;
        if level < self.levels.len() {
            proof {
                assert(self@.levels[level as int] == self.levels[level as int]@);
            }
            self.levels[level].draw(user)
        } else {
            0
        }
    }

    /// Picks the next question for the candidate when `pick` is the number
    /// drawn.
    pub fn select_with(&self, user: &User, pick: usize) -> (question: Option<&str>)
        ensures
            exam_selected(self@, user@, pick as nat) == (match question {
                Some(name) => Some(name@),
                None => None,
            }),
    {
        let level = user.level() as usize;
        if level < self.levels.len() {
            proof {
                assert(self@.levels[level as int] == self.levels[level as int]@);
            }
            self.levels[level].select_with(user, pick)
        } else {
            None
        }
    }

    /// The points that the next question gives the candidate.
    pub fn get_points(&self, user: &User) -> (points: u32)
        ensures
            points == exam_points(self@, user@),
    {
        let level = user.level() as usize;
        if level < self.levels.len() {
            proof {
                assert(self@.levels[level as int] == self.levels[level as int]@);
            }
            self.levels[level].get_points(user)
        } else {
            0
        }
    }

    /// The exam as one line of a list: its name, and its description after
    /// a dash where it has one.
    pub fn to_string(&self) -> (text: String)
        ensures
            text@ == match self@.description {
                Some(description) => self@.name + " - "@ + description,
                None => self@.name,
            },
    {
        match &self.description {
            Some(description) => self.name.clone().concat(" - ").concat(description.as_str()),
            None => self.name.clone(),
        }
    }
}

} // verus!
