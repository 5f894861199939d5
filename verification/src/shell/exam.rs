//! An exam session, turn by turn, and the timer that runs beside it.
//!
//! The session owns the candidate's record for as long as it lasts. The
//! timer never sees the record: the two sides only tell each other that the
//! exam has started, that it is over, and that the time is up.

use crate::config::Config;
use crate::error::Error;
use crate::exam::{drawn_for, Exam};
use crate::question::test::TestResult;
use crate::question::QuestionDB;
use crate::shell::session::{
    assign_next, in_phase, on_command, on_graded, proceed, session_begin, session_step,
    EffectView, EndingView, EventView, Notice, Phase, SessionView, Turn,
};
use crate::shell::{parse_command, parse_yes_no, trace_file_name, Command, YesNoAnswer};
use crate::user::User;
use crate::utils::text::copy_str;
use vstd::prelude::*;
use vstd::string::*;

verus! {

/// How a session ended.
#[derive(Debug)]
pub enum Ending {
    /// The exam had no question left to give.
    NoMoreQuestions,
    /// The candidate has all the points that the exam gives.
    Completed,
    /// The candidate has passed the single question.
    Passed,
    /// The candidate left.
    Exited,
    /// The time was up.
    TimedOut,
    /// The session could not go on.
    Failed(Error),
}

impl View for Ending {
    type V = EndingView;

    open spec fn view(&self) -> EndingView {
        match self {
            Ending::NoMoreQuestions => EndingView::NoMoreQuestions,
            Ending::Completed => EndingView::Completed,
            Ending::Passed => EndingView::Passed,
            Ending::Exited => EndingView::Exited,
            Ending::TimedOut => EndingView::TimedOut,
            Ending::Failed(error) => EndingView::Failed(error@),
        }
    }
}

/// What is to be done for the session.
#[derive(Debug)]
pub enum Effect {
    /// Show the candidate a notice.
    Show(Notice),
    /// Tell the candidate that this input is no command.
    Unrecognised(String),
    /// Ask the candidate whether to save the trace in this file.
    AskTrace(String),
    /// Prepare the directories of the question of this name.
    Prepare(String),
    /// Delete the directories of the question of this name.
    Remove(String),
    /// Grade what was handed in for the question of this name.
    Grade(String),
    /// Write this text to this file.
    WriteTrace { path: String, text: String },
    /// Tell the timer that the exam has started.
    StartTimer,
    /// Tell the timer that the session is over.
    StopTimer,
    /// Clear the screen.
    ClearScreen,
}

impl View for Effect {
    type V = EffectView;

    open spec fn view(&self) -> EffectView {
        match self {
            Effect::Show(notice) => EffectView::Show(*notice),
            Effect::Unrecognised(input) => EffectView::Unrecognised(input@),
            Effect::AskTrace(path) => EffectView::AskTrace(path@),
            Effect::Prepare(name) => EffectView::Prepare(name@),
            Effect::Remove(name) => EffectView::Remove(name@),
            Effect::Grade(name) => EffectView::Grade(name@),
            Effect::WriteTrace { path, text } => EffectView::WriteTrace {
                path: path@,
                text: text@,
            },
            Effect::StartTimer => EffectView::StartTimer,
            Effect::StopTimer => EffectView::StopTimer,
            Effect::ClearScreen => EffectView::ClearScreen,
        }
    }
}

/// What has happened.
#[derive(Debug)]
pub enum Event {
    /// The candidate pressed the enter key.
    Enter,
    /// The candidate typed a line.
    Line(String),
    /// The grading has ended with this result, at the time `stamp`.
    Graded { result: TestResult, stamp: String },
    /// The time is up.
    Deadline,
}

impl View for Event {
    type V = EventView;

    open spec fn view(&self) -> EventView {
        match self {
            Event::Enter => EventView::Enter,
            Event::Line(line) => EventView::Line(line@),
            Event::Graded { result, stamp } => EventView::Graded {
                result: result@,
                stamp: stamp@,
            },
            Event::Deadline => EventView::Deadline,
        }
    }
}

/// The values of a list of things to be done.
pub open spec fn effect_views(effects: Seq<Effect>) -> Seq<EffectView> {
    Seq::new(effects.len(), |i: int| effects[i]@)
}

/// The state of an exam session.
#[derive(Debug)]
pub struct Session {
    phase: Phase,
    ending: Option<Ending>,
    trace: Option<(String, String)>,
}

impl View for Session {
    type V = SessionView;

    closed spec fn view(&self) -> SessionView {
        SessionView {
            phase: self.phase,
            ending: match self.ending {
                Some(ending) => Some(ending@),
                None => None,
            },
            trace: match self.trace {
                Some(trace) => Some((trace.0@, trace.1@)),
                None => None,
            },
        }
    }
}

pub(crate) fn push_effect(effects: &mut Vec<Effect>, effect: Effect)
    ensures
        effect_views(final(effects)@) == effect_views(old(effects)@).push(effect@),
{
    effects.push(effect);
    proof {
        assert(effect_views(effects@) =~= effect_views(old(effects)@).push(effect@));
    }
}

pub(crate) fn no_effects() -> (effects: Vec<Effect>)
    ensures
        effect_views(effects@) == Seq::<EffectView>::empty(),
{
    let effects: Vec<Effect> = Vec::new();
    proof {
        assert(effect_views(effects@) =~= Seq::<EffectView>::empty());
    }
    effects
}

pub(crate) fn over_session(ending: Ending) -> (session: Session)
    ensures
        session@ == (SessionView { phase: Phase::Over, ending: Some(ending@), trace: None }),
{
    Session { phase: Phase::Over, ending: Some(ending), trace: None }
}

pub(crate) fn phase_session(phase: Phase) -> (session: Session)
    ensures
        session@ == in_phase(phase),
{
    Session { phase, ending: None, trace: None }
}

fn end_session(ending: Ending, before: Vec<Effect>) -> (turn: (Session, Vec<Effect>))
    ensures
        turn.0@ == (SessionView { phase: Phase::Over, ending: Some(ending@), trace: None }),
        effect_views(turn.1@) == effect_views(before@).push(EffectView::StopTimer),
{
    let mut effects = before;
    push_effect(&mut effects, Effect::StopTimer);
    (Session { phase: Phase::Over, ending: Some(ending), trace: None }, effects)
}

fn assign_next_question(
    user: &mut User,
    exam: &Exam,
    questions: &QuestionDB,
    pick: usize,
    shown: (Notice, Notice),
    then: Phase,
    before: Vec<Effect>,
) -> (turn: (Session, Vec<Effect>))
    ensures
        ({
            let next = assign_next(
                old(user)@,
                exam@,
                questions@,
                pick as nat,
                seq![EffectView::Show(shown.0), EffectView::Show(shown.1)],
                then,
            );
            &&& turn.0@ == next.session
            &&& final(user)@ == next.user
            &&& effect_views(turn.1@) == effect_views(before@) + next.effects
        }),
{
    let mut effects = before;
    let ghost start = effect_views(effects@);
    match exam.select_with(user, pick) {
        None => {
            push_effect(&mut effects, Effect::Show(Notice::NoMoreQuestions));
            let turn = end_session(Ending::NoMoreQuestions, effects);
            proof {
                assert(effect_views(turn.1@) =~= start + seq![
                    EffectView::Show(Notice::NoMoreQuestions),
                ].push(EffectView::StopTimer));
            }
            turn
        },
        Some(name) => {
            if !questions.contains(name) {
                let turn = end_session(
                    Ending::Failed(Error::General(copy_str("Question not found"))),
                    effects,
                );
                proof {
                    assert(effect_views(turn.1@) =~= start + Seq::<EffectView>::empty().push(
                        EffectView::StopTimer,
                    ));
                }
                turn
            } else {
                let points = exam.get_points(user);
                match user.assign_question(name, points) {
                    Err(error) => {
                        let turn = end_session(Ending::Failed(error), effects);
                        proof {
                            assert(effect_views(turn.1@) =~= start + Seq::<
                                EffectView,
                            >::empty().push(EffectView::StopTimer));
                        }
                        turn
                    },
                    Ok(()) => {
                        push_effect(&mut effects, Effect::Prepare(copy_str(name)));
                        push_effect(&mut effects, Effect::Show(shown.0));
                        push_effect(&mut effects, Effect::Show(shown.1));
                        proof {
                            assert(effect_views(effects@) =~= start + (seq![
                                EffectView::Prepare(name@),
                            ] + seq![EffectView::Show(shown.0), EffectView::Show(shown.1)]));
                        }
                        (phase_session(then), effects)
                    },
                }
            }
        },
    }
}

fn proceed_after_grading(
    user: &mut User,
    exam: &Exam,
    questions: &QuestionDB,
    pick: usize,
    before: Vec<Effect>,
) -> (turn: (Session, Vec<Effect>))
    ensures
        ({
            let next = proceed(
                old(user)@,
                exam@,
                questions@,
                pick as nat,
                effect_views(before@),
            );
            &&& turn.0@ == next.session
            &&& final(user)@ == next.user
            &&& effect_views(turn.1@) == next.effects
        }),
{
    if user.completed_exam(exam) {
        end_session(Ending::Completed, before)
    } else {
        assign_next_question(
            user,
            exam,
            questions,
            pick,
            (Notice::Status, Notice::Prompt),
            Phase::AwaitCommand,
            before,
        )
    }
}

pub(crate) fn two(first: Effect, second: Effect) -> (effects: Vec<Effect>)
    ensures
        effect_views(effects@) == seq![first@, second@],
{
    let mut effects = no_effects();
    push_effect(&mut effects, first);
    push_effect(&mut effects, second);
    proof {
        assert(effect_views(effects@) =~= seq![first@, second@]);
    }
    effects
}

pub(crate) fn one(first: Effect) -> (effects: Vec<Effect>)
    ensures
        effect_views(effects@) == seq![first@],
{
    let mut effects = no_effects();
    push_effect(&mut effects, first);
    proof {
        assert(effect_views(effects@) =~= seq![first@]);
    }
    effects
}

pub(crate) fn after_command(s: Session, user: &User, input: &str) -> (turn: (
    Session,
    Vec<Effect>,
))
    ensures
        (Turn { session: turn.0@, user: user@, effects: effect_views(turn.1@) }) == on_command(
            s@,
            user@,
            crate::shell::command_of(input@),
        ),
{
    match parse_command(input) {
        Command::Grademe => (
            phase_session(Phase::ConfirmGrade),
            one(Effect::Show(Notice::AskSubmit)),
        ),
        Command::Status => (s, two(Effect::Show(Notice::Status), Effect::Show(Notice::Prompt))),
        Command::Clear => (s, two(Effect::ClearScreen, Effect::Show(Notice::Prompt))),
        Command::Help => (s, two(Effect::Show(Notice::Help), Effect::Show(Notice::Prompt))),
        Command::Exit => (phase_session(Phase::ConfirmExit), one(Effect::Show(Notice::AskExit))),
        Command::Unrecognised(text) => (
            s,
            two(Effect::Unrecognised(text), Effect::Show(Notice::Prompt)),
        ),
    }
}

pub(crate) fn after_grading(user: &mut User, config: &Config, result: TestResult, stamp: String) -> (turn: (
    Session,
    Vec<Effect>,
))
    requires
        old(user)@.can_grade(result is Passed),
    ensures
        ({
            let next = on_graded(
                old(user)@,
                config.directories.trace_directory@,
                result@,
                stamp@,
            );
            &&& turn.0@ == next.session
            &&& final(user)@ == next.user
            &&& effect_views(turn.1@) == next.effects
        }),
{
    match user.grade(result) {
        Err(error) => {
            let turn = end_session(Ending::Failed(error), no_effects());
            turn
        },
        Ok(TestResult::Passed) => (
            phase_session(Phase::AwaitContinue),
            two(Effect::Show(Notice::Success), Effect::Show(Notice::PressEnter)),
        ),
        Ok(TestResult::Failed(error)) => {
            let question = match user.get_last_assignment() {
                Some(last) => copy_str(last.question_name()),
                None => String::new(),
            };
            let path = trace_file_name(config.trace_dir(), stamp.as_str(), question.as_str());
            let text = error.to_string();
            let effects = two(Effect::Show(Notice::Failure), Effect::AskTrace(path.clone()));
            (Session { phase: Phase::ConfirmTrace, ending: None, trace: Some((path, text)) }, effects)
        },
    }
}

impl Session {
    /// What the session waits for.
    pub fn phase(&self) -> (phase: Phase)
        ensures
            phase == self@.phase,
    {
        self.phase
    }

    /// How the session ended, once it is over.
    pub fn ending(&self) -> (ending: &Option<Ending>)
        ensures
            match ending {
                Some(ending) => self@.ending == Some(ending@),
                None => self@.ending is None,
            },
    {
        &self.ending
    }

    /// The trace that waits to be saved.
    pub(crate) fn take_trace(self) -> (trace: Option<(String, String)>)
        ensures
            match trace {
                Some(trace) => self@.trace == Some((trace.0@, trace.1@)),
                None => self@.trace is None,
            },
    {
        self.trace
    }

    /// Whether the session is over.
    pub fn is_over(&self) -> (over: bool)
        ensures
            over == (self@.phase == Phase::Over),
    {
        self.phase == Phase::Over
    }

    /// Begins a session when `pick` is the number drawn for the choice of
    /// the first question.
    pub fn begin_with(user: &mut User, exam: &Exam, questions: &QuestionDB, pick: usize) -> (turn: (
        Session,
        Vec<Effect>,
    ))
        ensures
            (Turn {
                session: turn.0@,
                user: final(user)@,
                effects: effect_views(turn.1@),
            }) == session_begin(old(user)@, exam@, questions@, pick as nat),
    {
        let turn = assign_next_question(
            user,
            exam,
            questions,
            pick,
            (Notice::Intro, Notice::PressEnter),
            Phase::AwaitEnter,
            no_effects(),
        );
        proof {
            let next = session_begin(old(user)@, exam@, questions@, pick as nat);
            assert(Seq::<EffectView>::empty() + next.effects =~= next.effects);
        }
        turn
    }

    /// Begins a session: assigns the first question, drawing a number
    /// where there is a choice, and says what is to be done. The number
    /// picks among the questions of the first level that the candidate has
    /// not passed, so a session with such a question left begins with
    /// one.
    pub fn begin(user: &mut User, exam: &Exam, questions: &QuestionDB) -> (turn: (
        Session,
        Vec<Effect>,
    ))
        ensures
            exists|pick: nat|
                drawn_for(exam@, old(user)@, pick) && (Turn {
                    session: turn.0@,
                    user: final(user)@,
                    effects: effect_views(turn.1@),
                }) == #[trigger] session_begin(old(user)@, exam@, questions@, pick),
    {
        let pick = exam.draw(user);
        let turn = Self::begin_with(user, exam, questions, pick);
        proof {
            assert(drawn_for(exam@, old(user)@, pick as nat) && (Turn {
                session: turn.0@,
                user: user@,
                effects: effect_views(turn.1@),
            }) == session_begin(old(user)@, exam@, questions@, pick as nat));
        }
        turn
    }

    /// Takes what has happened and says what is to be done, when `pick` is
    /// the number drawn for the choice of the next question.
    pub fn step_with(
        self,
        user: &mut User,
        exam: &Exam,
        questions: &QuestionDB,
        config: &Config,
        event: Event,
        pick: usize,
    ) -> (turn: (Session, Vec<Effect>))
        requires
            event is Graded ==> old(user)@.can_grade(event->result is Passed),
        ensures
            (Turn {
                session: turn.0@,
                user: final(user)@,
                effects: effect_views(turn.1@),
            }) == session_step(
                self@,
                old(user)@,
                exam@,
                questions@,
                config.directories.trace_directory@,
                event@,
                pick as nat,
            ),
    {
        if self.phase == Phase::Over {
            return (self, no_effects());
        }
        match event {
            Event::Deadline => end_session(
                Ending::TimedOut,
                one(Effect::Show(Notice::Timeout)),
            ),
            Event::Enter => match self.phase {
                Phase::AwaitEnter => {
                    let mut effects = two(Effect::StartTimer, Effect::Show(Notice::Status));
                    push_effect(&mut effects, Effect::Show(Notice::YouCanStart));
                    push_effect(&mut effects, Effect::Show(Notice::Prompt));
                    proof {
                        assert(effect_views(effects@) =~= seq![
                            EffectView::StartTimer,
                            EffectView::Show(Notice::Status),
                            EffectView::Show(Notice::YouCanStart),
                            EffectView::Show(Notice::Prompt),
                        ]);
                    }
                    (phase_session(Phase::AwaitCommand), effects)
                },
                Phase::AwaitContinue => proceed_after_grading(
                    user,
                    exam,
                    questions,
                    pick,
                    no_effects(),
                ),
                _ => (self, no_effects()),
            },
            Event::Line(line) => match self.phase {
                Phase::AwaitCommand => after_command(self, user, line.as_str()),
                Phase::ConfirmGrade => match parse_yes_no(line.as_str()) {
                    YesNoAnswer::Yes => match user.current_question_name() {
                        Some(name) => (
                            phase_session(Phase::AwaitVerdict),
                            one(Effect::Grade(copy_str(name))),
                        ),
                        None => end_session(
                            Ending::Failed(
                                Error::General(
                                    copy_str("grade called on User with no assigned question!"),
                                ),
                            ),
                            no_effects(),
                        ),
                    },
                    YesNoAnswer::No => (
                        phase_session(Phase::AwaitCommand),
                        two(Effect::Show(Notice::Status), Effect::Show(Notice::Prompt)),
                    ),
                },
                Phase::ConfirmTrace => {
                    let written = match (self.trace, parse_yes_no(line.as_str())) {
                        (Some((path, text)), YesNoAnswer::Yes) => one(
                            Effect::WriteTrace { path, text },
                        ),
                        _ => no_effects(),
                    };
                    proceed_after_grading(user, exam, questions, pick, written)
                },
                Phase::ConfirmExit => match parse_yes_no(line.as_str()) {
                    YesNoAnswer::Yes => end_session(Ending::Exited, no_effects()),
                    YesNoAnswer::No => (
                        phase_session(Phase::AwaitCommand),
                        one(Effect::Show(Notice::Prompt)),
                    ),
                },
                _ => (self, no_effects()),
            },
            Event::Graded { result, stamp } => match self.phase {
                Phase::AwaitVerdict => after_grading(user, config, result, stamp),
                _ => (self, no_effects()),
            },
        }
    }

    /// Takes what has happened and says what is to be done, drawing a
    /// number where the next question is a matter of choice. The number
    /// picks among the questions of the candidate's level that the
    /// candidate has not passed.
    pub fn step(
        self,
        user: &mut User,
        exam: &Exam,
        questions: &QuestionDB,
        config: &Config,
        event: Event,
    ) -> (turn: (Session, Vec<Effect>))
        requires
            event is Graded ==> old(user)@.can_grade(event->result is Passed),
        ensures
            exists|pick: nat|
                drawn_for(exam@, old(user)@, pick) && (Turn {
                    session: turn.0@,
                    user: final(user)@,
                    effects: effect_views(turn.1@),
                }) == #[trigger] session_step(
                    self@,
                    old(user)@,
                    exam@,
                    questions@,
                    config.directories.trace_directory@,
                    event@,
                    pick,
                ),
    {
        let pick = exam.draw(user);
        let turn = self.step_with(user, exam, questions, config, event, pick);
        proof {
            assert(drawn_for(exam@, old(user)@, pick as nat) && (Turn {
                session: turn.0@,
                user: user@,
                effects: effect_views(turn.1@),
            }) == session_step(
                self@,
                old(user)@,
                exam@,
                questions@,
                config.directories.trace_directory@,
                event@,
                pick as nat,
            ));
        }
        turn
    }
}

/// Whether the candidate has passed the exam: the points reach those that
/// pass it.
pub fn exam_passed(user: &User, exam: &Exam) -> (passed: bool)
    ensures
        passed == (user@.points >= exam@.pass),
{
    user.points() >= exam.pass_grade()
}

} // verus!
