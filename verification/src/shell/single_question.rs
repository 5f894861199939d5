//! Practice on a single question: the candidate works on it until it
//! passes, or leaves. There is no clock and no level; every try is worth
//! one point.

use crate::config::Config;
use crate::error::{Error, ErrorView};
use crate::shell::exam::{
    after_command, after_grading, effect_views, no_effects, one, over_session, phase_session,
    push_effect, two,
    Effect, Ending, Event, Session,
};
use crate::shell::session::{
    in_phase, on_command, on_graded, stay, trace_written, EffectView, EndingView, EventView,
    Notice, Phase, SessionView, Turn,
};
use crate::shell::{command_of, parse_yes_no, says_yes, YesNoAnswer};
use crate::user::{User, UserView};
use crate::utils::text::copy_str;
use vstd::prelude::*;
use vstd::string::*;

verus! {

/// The end of a practice, after what is still to be done.
pub open spec fn finish(user: UserView, ending: EndingView, effects: Seq<EffectView>) -> Turn {
    Turn {
        session: SessionView { phase: Phase::Over, ending: Some(ending), trace: None },
        user,
        effects,
    }
}

/// The start of a practice: the question is assigned for one point and
/// introduced.
pub open spec fn practice_begin(user: UserView, question: Seq<char>) -> Turn {
    match user.assigned(question, 1) {
        Err(error) => finish(user, EndingView::Failed(error), Seq::empty()),
        Ok(assigned) => Turn {
            session: in_phase(Phase::AwaitEnter),
            user: assigned,
            effects: seq![
                EffectView::Prepare(question),
                EffectView::Show(Notice::Intro),
                EffectView::Show(Notice::PressEnter),
            ],
        },
    }
}

/// What follows a failed try: the question is assigned again for one
/// point, after what is still to be done.
pub open spec fn try_again(user: UserView, question: Seq<char>, before: Seq<EffectView>) -> Turn {
    match user.assigned(question, 1) {
        Err(error) => finish(user, EndingView::Failed(error), before),
        Ok(assigned) => Turn {
            session: in_phase(Phase::AwaitCommand),
            user: assigned,
            effects: before.push(EffectView::Show(Notice::Prompt)),
        },
    }
}

/// The step of a practice on the question of that name: from the session,
/// the candidate and what has happened, the session and the candidate
/// afterwards and what is to be done.
///
/// A practice that is over stays over and does nothing. It knows no
/// deadline. What does not answer what it waits for is passed over.
pub open spec fn practice_step(
    s: SessionView,
    user: UserView,
    question: Seq<char>,
    trace_dir: Seq<char>,
    event: EventView,
) -> Turn {
    match s.phase {
        Phase::AwaitEnter => match event {
            EventView::Enter => Turn {
                session: in_phase(Phase::AwaitCommand),
                user,
                effects: seq![EffectView::Show(Notice::Status), EffectView::Show(Notice::Prompt)],
            },
            _ => stay(s, user),
        },
        Phase::AwaitCommand => match event {
            EventView::Line(input) => on_command(s, user, command_of(input)),
            _ => stay(s, user),
        },
        Phase::ConfirmGrade => match event {
            EventView::Line(answer) => if says_yes(answer) {
                match user.current_question {
                    Some(name) => Turn {
                        session: in_phase(Phase::AwaitVerdict),
                        user,
                        effects: seq![EffectView::Grade(name)],
                    },
                    None => finish(
                        user,
                        EndingView::Failed(
                            ErrorView::General("grade called on User with no assigned question!"@),
                        ),
                        Seq::empty(),
                    ),
                }
            } else {
                Turn {
                    session: in_phase(Phase::AwaitCommand),
                    user,
                    effects: seq![EffectView::Show(Notice::Prompt)],
                }
            },
            _ => stay(s, user),
        },
        Phase::AwaitVerdict => match event {
            EventView::Graded { result, stamp } => {
                let graded = on_graded(user, trace_dir, result, stamp);
                if graded.session.phase == Phase::Over {
                    Turn { effects: Seq::empty(), ..graded }
                } else {
                    graded
                }
            },
            _ => stay(s, user),
        },
        Phase::AwaitContinue => match event {
            EventView::Enter => finish(user, EndingView::Passed, Seq::empty()),
            _ => stay(s, user),
        },
        Phase::ConfirmTrace => match event {
            EventView::Line(answer) => try_again(user, question, trace_written(s, answer)),
            _ => stay(s, user),
        },
        Phase::ConfirmExit => match event {
            EventView::Line(answer) => if says_yes(answer) {
                Turn {
                    session: in_phase(Phase::ConfirmDelete),
                    user,
                    effects: seq![EffectView::Show(Notice::AskDelete)],
                }
            } else {
                Turn {
                    session: in_phase(Phase::AwaitCommand),
                    user,
                    effects: seq![EffectView::Show(Notice::Prompt)],
                }
            },
            _ => stay(s, user),
        },
        Phase::ConfirmDelete => match event {
            EventView::Line(answer) => finish(
                user,
                EndingView::Exited,
                if says_yes(answer) {
                    seq![EffectView::Remove(question)]
                } else {
                    Seq::empty()
                },
            ),
            _ => stay(s, user),
        },
        Phase::Over => stay(s, user),
    }
}

fn finish_session(ending: Ending, effects: Vec<Effect>) -> (turn: (Session, Vec<Effect>))
    ensures
        turn.0@ == (SessionView { phase: Phase::Over, ending: Some(ending@), trace: None }),
        turn.1 == effects,
{
    (over_session(ending), effects)
}

impl Session {
    /// Begins a practice on the question of that name.
    pub fn begin_practice(user: &mut User, question: &str) -> (turn: (Session, Vec<Effect>))
        ensures
            (Turn {
                session: turn.0@,
                user: final(user)@,
                effects: effect_views(turn.1@),
            }) == practice_begin(old(user)@, question@),
    {
        match user.assign_question(question, 1) {
            Err(error) => finish_session(Ending::Failed(error), no_effects()),
            Ok(()) => {
                let mut effects = two(
                    Effect::Prepare(copy_str(question)),
                    Effect::Show(Notice::Intro),
                );
                push_effect(&mut effects, Effect::Show(Notice::PressEnter));
                proof {
                    assert(effect_views(effects@) =~= seq![
                        EffectView::Prepare(question@),
                        EffectView::Show(Notice::Intro),
                        EffectView::Show(Notice::PressEnter),
                    ]);
                }
                (phase_session(Phase::AwaitEnter), effects)
            },
        }
    }

    /// Takes what has happened in a practice on the question of that name,
    /// and says what is to be done.
    pub fn step_practice(self, user: &mut User, question: &str, config: &Config, event: Event) -> (turn:
        (Session, Vec<Effect>))
        requires
            event is Graded ==> old(user)@.can_grade(event->result is Passed),
        ensures
            (Turn {
                session: turn.0@,
                user: final(user)@,
                effects: effect_views(turn.1@),
            }) == practice_step(
                self@,
                old(user)@,
                question@,
                config.directories.trace_directory@,
                event@,
            ),
    {
        match event {
            Event::Deadline => (self, no_effects()),
            Event::Enter => match self.phase() {
                Phase::AwaitEnter => (
                    phase_session(Phase::AwaitCommand),
                    two(Effect::Show(Notice::Status), Effect::Show(Notice::Prompt)),
                ),
                Phase::AwaitContinue => finish_session(Ending::Passed, no_effects()),
                _ => (self, no_effects()),
            },
            Event::Line(line) => match self.phase() {
                Phase::AwaitCommand => after_command(self, user, line.as_str()),
                Phase::ConfirmGrade => match parse_yes_no(line.as_str()) {
                    YesNoAnswer::Yes => match user.current_question_name() {
                        Some(name) => (
                            phase_session(Phase::AwaitVerdict),
                            one(Effect::Grade(copy_str(name))),
                        ),
                        None => finish_session(
                            Ending::Failed(
                                Error::General(
                                    copy_str("grade called on User with no assigned question!"),
                                ),
                            ),
                            no_effects(),
                        ),
                    },
                    YesNoAnswer::No => (
                        phase_session(Phase::AwaitCommand),
                        one(Effect::Show(Notice::Prompt)),
                    ),
                },
                Phase::ConfirmTrace => {
                    let mut written = match (self.take_trace(), parse_yes_no(line.as_str())) {
                        (Some((path, text)), YesNoAnswer::Yes) => one(
                            Effect::WriteTrace { path, text },
                        ),
                        _ => no_effects(),
                    };
                    match user.assign_question(question, 1) {
                        Err(error) => finish_session(Ending::Failed(error), written),
                        Ok(()) => {
                            push_effect(&mut written, Effect::Show(Notice::Prompt));
                            (phase_session(Phase::AwaitCommand), written)
                        },
                    }
                },
                Phase::ConfirmExit => match parse_yes_no(line.as_str()) {
                    YesNoAnswer::Yes => (
                        phase_session(Phase::ConfirmDelete),
                        one(Effect::Show(Notice::AskDelete)),
                    ),
                    YesNoAnswer::No => (
                        phase_session(Phase::AwaitCommand),
                        one(Effect::Show(Notice::Prompt)),
                    ),
                },
                Phase::ConfirmDelete => match parse_yes_no(line.as_str()) {
                    YesNoAnswer::Yes => finish_session(
                        Ending::Exited,
                        one(Effect::Remove(copy_str(question))),
                    ),
                    YesNoAnswer::No => finish_session(Ending::Exited, no_effects()),
                },
                _ => (self, no_effects()),
            },
            Event::Graded { result, stamp } => match self.phase() {
                Phase::AwaitVerdict => {
                    let graded = after_grading(user, config, result, stamp);
                    if graded.0.is_over() {
                        (graded.0, no_effects())
                    } else {
                        graded
                    }
                },
                _ => (self, no_effects()),
            },
        }
    }
}

/// A practice ends only as passed, as left, or as failed. It ends as
/// passed exactly when the candidate goes on after a try that passed, and
/// never tells a timer anything.
pub proof fn lemma_practice_endings(
    s: SessionView,
    user: UserView,
    question: Seq<char>,
    trace_dir: Seq<char>,
    event: EventView,
)
    requires
        s.well_formed(),
        s.phase != Phase::Over,
    ensures
        ({
            let turn = practice_step(s, user, question, trace_dir, event);
            &&& turn.session.well_formed()
            &&& turn.session.ending == Some(EndingView::Passed) <==> s.phase
                == Phase::AwaitContinue && event is Enter
            &&& turn.session.phase == Phase::Over ==> turn.session.ending == Some(
                EndingView::Passed,
            ) || turn.session.ending == Some(EndingView::Exited) || turn.session.ending->Some_0
                is Failed
            &&& forall|i: int|
                0 <= i < turn.effects.len() ==> turn.effects[i] != EffectView::StopTimer
                    && turn.effects[i] != EffectView::StartTimer
        }),
{
    let turn = practice_step(s, user, question, trace_dir, event);
    if s.phase == Phase::ConfirmTrace && event is Line {
        let written = trace_written(s, event->Line_0);
        assert(forall|i: int| 0 <= i < written.len() ==> written[i] != EffectView::StopTimer);
    }
}

} // verus!
