//! The rule of an exam session: what follows from what the candidate does,
//! from a grading that has ended, and from the deadline.

use crate::error::ErrorView;
use crate::exam::{exam_points, exam_selected, ExamView};
use crate::question::database::find_question;
use crate::question::test::TestResultView;
use crate::question::QuestionView;
use crate::shell::{command_of, says_yes, trace_file, CommandView};
use crate::user::UserView;
use vstd::prelude::*;

verus! {

/// What a session waits for.
#[derive(Debug, Clone, Copy, PartialEq, Eq, Structural)]
pub enum Phase {
    /// The candidate reads the introduction and starts the exam with the
    /// enter key.
    AwaitEnter,
    /// The candidate types a command.
    AwaitCommand,
    /// The candidate says whether the answer is ready to be graded.
    ConfirmGrade,
    /// The grading runs.
    AwaitVerdict,
    /// The candidate has passed a question and goes on with the enter key.
    AwaitContinue,
    /// The candidate says whether the trace of the failure is to be saved.
    ConfirmTrace,
    /// The candidate says whether to leave.
    ConfirmExit,
    /// The candidate, who leaves a single question, says whether its
    /// directories are to be deleted.
    ConfirmDelete,
    /// Nothing: the session is over.
    Over,
}

/// What the candidate is shown.
#[derive(Debug, Clone, Copy, PartialEq, Eq, Structural)]
pub enum Notice {
    NoMoreQuestions,
    Intro,
    PressEnter,
    Status,
    YouCanStart,
    Prompt,
    Timeout,
    Success,
    Failure,
    Help,
    AskSubmit,
    AskExit,
    AskDelete,
}

/// The mathematical value of an [`Ending`](crate::shell::exam::Ending).
pub enum EndingView {
    NoMoreQuestions,
    Completed,
    Passed,
    Exited,
    TimedOut,
    Failed(ErrorView),
}

/// The mathematical value of an [`Effect`](crate::shell::exam::Effect).
pub enum EffectView {
    Show(Notice),
    Unrecognised(Seq<char>),
    AskTrace(Seq<char>),
    Prepare(Seq<char>),
    Remove(Seq<char>),
    Grade(Seq<char>),
    WriteTrace { path: Seq<char>, text: Seq<char> },
    StartTimer,
    StopTimer,
    ClearScreen,
}

/// The mathematical value of an [`Event`](crate::shell::exam::Event).
pub enum EventView {
    Enter,
    Line(Seq<char>),
    Graded { result: TestResultView, stamp: Seq<char> },
    Deadline,
}

/// The mathematical value of a [`Session`](crate::shell::exam::Session).
pub struct SessionView {
    pub phase: Phase,
    pub ending: Option<EndingView>,
    /// The trace that waits to be saved: the path of its file and its text.
    pub trace: Option<(Seq<char>, Seq<char>)>,
}

/// One turn of a session: the session and the candidate afterwards, and
/// what is to be done, in order.
pub struct Turn {
    pub session: SessionView,
    pub user: UserView,
    pub effects: Seq<EffectView>,
}

impl SessionView {
    /// Whether the session is in order: it has an ending exactly when it is
    /// over, and a trace waits only while the candidate is asked about it.
    pub open spec fn well_formed(self) -> bool {
        &&& self.phase == Phase::Over <==> self.ending is Some
        &&& self.trace is Some ==> self.phase == Phase::ConfirmTrace
    }
}

/// A session in a phase, with nothing else to remember.
pub open spec fn in_phase(phase: Phase) -> SessionView {
    SessionView { phase, ending: None, trace: None }
}

/// The end of a session: after what is still to be done, the timer is told
/// to stop.
pub open spec fn end(user: UserView, ending: EndingView, before: Seq<EffectView>) -> Turn {
    Turn {
        session: SessionView { phase: Phase::Over, ending: Some(ending), trace: None },
        user,
        effects: before.push(EffectView::StopTimer),
    }
}

/// A turn in which nothing happens.
pub open spec fn stay(s: SessionView, user: UserView) -> Turn {
    Turn { session: s, user, effects: Seq::empty() }
}

/// The assignment of the next question, picked by the number `pick`. The
/// exam gives the question and its points; the question must be in the
/// database; its directories are prepared, then `shown` follows and the
/// session goes on in the phase `then`. Where the exam has no question to
/// give, the session ends.
pub open spec fn assign_next(
    user: UserView,
    exam: ExamView,
    database: Seq<QuestionView>,
    pick: nat,
    shown: Seq<EffectView>,
    then: Phase,
) -> Turn {
    match exam_selected(exam, user, pick) {
        None => end(
            user,
            EndingView::NoMoreQuestions,
            seq![EffectView::Show(Notice::NoMoreQuestions)],
        ),
        Some(name) => if find_question(database, name) is None {
            end(user, EndingView::Failed(ErrorView::General("Question not found"@)), Seq::empty())
        } else {
            match user.assigned(name, exam_points(exam, user) as nat) {
                Err(error) => end(user, EndingView::Failed(error), Seq::empty()),
                Ok(assigned) => Turn {
                    session: in_phase(then),
                    user: assigned,
                    effects: seq![EffectView::Prepare(name)] + shown,
                },
            }
        },
    }
}

/// The start of a session: the first question is assigned and the exam is
/// introduced.
pub open spec fn session_begin(
    user: UserView,
    exam: ExamView,
    database: Seq<QuestionView>,
    pick: nat,
) -> Turn {
    assign_next(
        user,
        exam,
        database,
        pick,
        seq![EffectView::Show(Notice::Intro), EffectView::Show(Notice::PressEnter)],
        Phase::AwaitEnter,
    )
}

/// What follows a grading. A candidate with all the points of the exam has
/// completed it, and keeps no more than those. Otherwise the next question
/// is assigned.
pub open spec fn proceed(
    user: UserView,
    exam: ExamView,
    database: Seq<QuestionView>,
    pick: nat,
    before: Seq<EffectView>,
) -> Turn {
    if user.points >= exam.max {
        end(UserView { points: exam.max as nat, ..user }, EndingView::Completed, before)
    } else {
        let next = assign_next(
            user,
            exam,
            database,
            pick,
            seq![EffectView::Show(Notice::Status), EffectView::Show(Notice::Prompt)],
            Phase::AwaitCommand,
        );
        Turn { effects: before + next.effects, ..next }
    }
}

/// What a command leads to.
pub open spec fn on_command(s: SessionView, user: UserView, command: CommandView) -> Turn {
    match command {
        CommandView::Grademe => Turn {
            session: in_phase(Phase::ConfirmGrade),
            user,
            effects: seq![EffectView::Show(Notice::AskSubmit)],
        },
        CommandView::Status => Turn {
            session: s,
            user,
            effects: seq![EffectView::Show(Notice::Status), EffectView::Show(Notice::Prompt)],
        },
        CommandView::Clear => Turn {
            session: s,
            user,
            effects: seq![EffectView::ClearScreen, EffectView::Show(Notice::Prompt)],
        },
        CommandView::Help => Turn {
            session: s,
            user,
            effects: seq![EffectView::Show(Notice::Help), EffectView::Show(Notice::Prompt)],
        },
        CommandView::Exit => Turn {
            session: in_phase(Phase::ConfirmExit),
            user,
            effects: seq![EffectView::Show(Notice::AskExit)],
        },
        CommandView::Unrecognised(input) => Turn {
            session: s,
            user,
            effects: seq![EffectView::Unrecognised(input), EffectView::Show(Notice::Prompt)],
        },
    }
}

/// What the result of a grading leads to. The candidate's record takes the
/// result. After a pass the candidate is told and goes on with the enter
/// key. After a failure the candidate is told and asked whether to save the
/// trace, whose file is named after the time `stamp` and the question.
pub open spec fn on_graded(
    user: UserView,
    trace_dir: Seq<char>,
    result: TestResultView,
    stamp: Seq<char>,
) -> Turn {
    match user.graded(result is Passed) {
        Err(error) => end(user, EndingView::Failed(error), Seq::empty()),
        Ok(graded) => match result {
            TestResultView::Passed => Turn {
                session: in_phase(Phase::AwaitContinue),
                user: graded,
                effects: seq![
                    EffectView::Show(Notice::Success),
                    EffectView::Show(Notice::PressEnter),
                ],
            },
            TestResultView::Failed(error) => {
                let path = trace_file(trace_dir, stamp, user.history.last().question_name);
                Turn {
                    session: SessionView {
                        phase: Phase::ConfirmTrace,
                        ending: None,
                        trace: Some((path, error.message())),
                    },
                    user: graded,
                    effects: seq![EffectView::Show(Notice::Failure), EffectView::AskTrace(path)],
                }
            },
        },
    }
}

/// The trace that is written where the candidate asks for it.
pub open spec fn trace_written(s: SessionView, answer: Seq<char>) -> Seq<EffectView> {
    match s.trace {
        Some(trace) => if says_yes(answer) {
            seq![EffectView::WriteTrace { path: trace.0, text: trace.1 }]
        } else {
            Seq::empty()
        },
        None => Seq::empty(),
    }
}

/// The step of a session: from the session, the candidate and what has
/// happened, the session and the candidate afterwards and what is to be
/// done. `pick` is the number drawn for the choice of the next question.
///
/// A session that is over stays over and does nothing. The deadline ends
/// any other session at once. What does not answer what the session waits
/// for is passed over.
pub open spec fn session_step(
    s: SessionView,
    user: UserView,
    exam: ExamView,
    database: Seq<QuestionView>,
    trace_dir: Seq<char>,
    event: EventView,
    pick: nat,
) -> Turn {
    if s.phase == Phase::Over {
        stay(s, user)
    } else if event is Deadline {
        end(user, EndingView::TimedOut, seq![EffectView::Show(Notice::Timeout)])
    } else {
        match s.phase {
            Phase::AwaitEnter => match event {
                EventView::Enter => Turn {
                    session: in_phase(Phase::AwaitCommand),
                    user,
                    effects: seq![
                        EffectView::StartTimer,
                        EffectView::Show(Notice::Status),
                        EffectView::Show(Notice::YouCanStart),
                        EffectView::Show(Notice::Prompt),
                    ],
                },
                _ => stay(s, user),
            },
            Phase::AwaitCommand => match event {
                EventView::Line(input) => on_command(s, user, command_of(input)),
                _ => stay(s, user),
            },
            Phase::ConfirmGrade => match event {
                EventView::Line(answer) => if says_yes(answer) {
                    match user.current_question {
                        Some(name) => Turn {
                            session: in_phase(Phase::AwaitVerdict),
                            user,
                            effects: seq![EffectView::Grade(name)],
                        },
                        None => end(
                            user,
                            EndingView::Failed(
                                ErrorView::General(
                                    "grade called on User with no assigned question!"@,
                                ),
                            ),
                            Seq::empty(),
                        ),
                    }
                } else {
                    Turn {
                        session: in_phase(Phase::AwaitCommand),
                        user,
                        effects: seq![
                            EffectView::Show(Notice::Status),
                            EffectView::Show(Notice::Prompt),
                        ],
                    }
                },
                _ => stay(s, user),
            },
            Phase::AwaitVerdict => match event {
                EventView::Graded { result, stamp } => on_graded(user, trace_dir, result, stamp),
                _ => stay(s, user),
            },
            Phase::AwaitContinue => match event {
                EventView::Enter => proceed(user, exam, database, pick, Seq::empty()),
                _ => stay(s, user),
            },
            Phase::ConfirmTrace => match event {
                EventView::Line(answer) => proceed(
                    user,
                    exam,
                    database,
                    pick,
                    trace_written(s, answer),
                ),
                _ => stay(s, user),
            },
            Phase::ConfirmExit => match event {
                EventView::Line(answer) => if says_yes(answer) {
                    end(user, EndingView::Exited, Seq::empty())
                } else {
                    Turn {
                        session: in_phase(Phase::AwaitCommand),
                        user,
                        effects: seq![EffectView::Show(Notice::Prompt)],
                    }
                },
                _ => stay(s, user),
            },
            Phase::ConfirmDelete => stay(s, user),
            Phase::Over => stay(s, user),
        }
    }
}

/// The deadline ends the session. Whatever a session that is not over
/// waits for, the deadline ends it as timed out: the candidate is told so,
/// the timer is told to stop, and the candidate's record stays as it is.
/// Nothing that happens afterwards, a late command to grade included, has
/// any effect.
pub proof fn lemma_deadline_ends_session(
    s: SessionView,
    user: UserView,
    exam: ExamView,
    database: Seq<QuestionView>,
    trace_dir: Seq<char>,
    late: EventView,
    pick: nat,
)
    requires
        s.phase != Phase::Over,
    ensures
        ({
            let ended = session_step(s, user, exam, database, trace_dir, EventView::Deadline, pick);
            let after = session_step(
                ended.session,
                ended.user,
                exam,
                database,
                trace_dir,
                late,
                pick,
            );
            &&& ended.session.phase == Phase::Over
            &&& ended.session.ending == Some(EndingView::TimedOut)
            &&& ended.user == user
            &&& ended.effects == seq![EffectView::Show(Notice::Timeout), EffectView::StopTimer]
            &&& after.session == ended.session
            &&& after.user == user
            &&& after.effects == Seq::<EffectView>::empty()
        }),
{
}

/// Whether a list of things to be done tells the timer to stop.
pub open spec fn stops_timer(effects: Seq<EffectView>) -> bool {
    exists|i: int| 0 <= i < effects.len() && effects[i] == EffectView::StopTimer
}

proof fn lemma_assign_next_timer(
    user: UserView,
    exam: ExamView,
    database: Seq<QuestionView>,
    pick: nat,
    shown: Seq<EffectView>,
    then: Phase,
    before: Seq<EffectView>,
)
    requires
        then != Phase::Over,
        then != Phase::ConfirmTrace,
        !stops_timer(shown),
        !stops_timer(before),
    ensures
        ({
            let next = assign_next(user, exam, database, pick, shown, then);
            let turn = Turn { effects: before + next.effects, ..next };
            &&& turn.session.well_formed()
            &&& turn.session.phase == Phase::Over ==> turn.effects.len() > 0
                && turn.effects.last() == EffectView::StopTimer
            &&& turn.session.phase != Phase::Over ==> !stops_timer(turn.effects)
        }),
{
    let next = assign_next(user, exam, database, pick, shown, then);
    let turn = Turn { effects: before + next.effects, ..next };
    if turn.session.phase != Phase::Over {
        if stops_timer(turn.effects) {
            let i = choose|i: int|
                0 <= i < turn.effects.len() && turn.effects[i] == EffectView::StopTimer;
            if i < before.len() {
                assert(before[i] == EffectView::StopTimer);
            } else if i > before.len() {
                assert(shown[i - before.len() - 1] == EffectView::StopTimer);
            }
        }
    }
}

/// Every ending tells the timer. A turn of a session that is in order
/// leaves it in order. A turn that ends the session has, as the last thing
/// to be done, that the timer is told to stop; and a turn that does not end
/// it never tells the timer to stop.
pub proof fn lemma_ending_stops_timer(
    s: SessionView,
    user: UserView,
    exam: ExamView,
    database: Seq<QuestionView>,
    trace_dir: Seq<char>,
    event: EventView,
    pick: nat,
)
    requires
        s.well_formed(),
        s.phase != Phase::Over,
    ensures
        ({
            let turn = session_step(s, user, exam, database, trace_dir, event, pick);
            &&& turn.session.well_formed()
            &&& turn.session.phase == Phase::Over ==> turn.effects.len() > 0
                && turn.effects.last() == EffectView::StopTimer
            &&& turn.session.phase != Phase::Over ==> !stops_timer(turn.effects)
        }),
{
    let turn = session_step(s, user, exam, database, trace_dir, event, pick);
    let status = seq![EffectView::Show(Notice::Status), EffectView::Show(Notice::Prompt)];
    assert(!stops_timer(status));
    assert(!stops_timer(Seq::<EffectView>::empty()));
    if event is Deadline {
    } else if s.phase == Phase::AwaitContinue && event is Enter {
        if user.points < exam.max {
            lemma_assign_next_timer(
                user,
                exam,
                database,
                pick,
                status,
                Phase::AwaitCommand,
                Seq::empty(),
            );
        }
    } else if s.phase == Phase::ConfirmTrace && event is Line {
        let written = trace_written(s, event->Line_0);
        assert(!stops_timer(written));
        if user.points < exam.max {
            lemma_assign_next_timer(
                user,
                exam,
                database,
                pick,
                status,
                Phase::AwaitCommand,
                written,
            );
        }
    } else {
        if turn.session.phase != Phase::Over && stops_timer(turn.effects) {
            let i = choose|i: int|
                0 <= i < turn.effects.len() && turn.effects[i] == EffectView::StopTimer;
            assert(false);
        }
    }
}

/// The session does not touch the record but by grading and assigning: a
/// turn leaves the candidate as before unless a grading has ended or the
/// candidate goes on after one.
pub proof fn lemma_user_changes_only_by_grading(
    s: SessionView,
    user: UserView,
    exam: ExamView,
    database: Seq<QuestionView>,
    trace_dir: Seq<char>,
    event: EventView,
    pick: nat,
)
    requires
        !(s.phase == Phase::AwaitVerdict && event is Graded),
        !(s.phase == Phase::AwaitContinue && event is Enter),
        !(s.phase == Phase::ConfirmTrace && event is Line),
    ensures
        session_step(s, user, exam, database, trace_dir, event, pick).user == user,
{
}

} // verus!

verus! {

/// A session keeps the record in order. Whatever happens in a session,
/// the record of a candidate that was in order is in order afterwards; and
/// so it is when the session begins.
pub proof fn lemma_session_keeps_record_in_order(
    s: SessionView,
    user: UserView,
    exam: ExamView,
    database: Seq<QuestionView>,
    trace_dir: Seq<char>,
    event: EventView,
    pick: nat,
)
    requires
        user.well_formed(),
    ensures
        session_step(s, user, exam, database, trace_dir, event, pick).user.well_formed(),
        session_begin(user, exam, database, pick).user.well_formed(),
{
    let capped = UserView { points: exam.max as nat, ..user };
    assert(capped.well_formed());
    match exam_selected(exam, user, pick) {
        Some(name) => {
            crate::user::lemma_record_stays_in_order(
                user,
                name,
                exam_points(exam, user) as nat,
                true,
            );
        },
        None => {},
    }
    crate::user::lemma_record_stays_in_order(user, Seq::empty(), 0, true);
    crate::user::lemma_record_stays_in_order(user, Seq::empty(), 0, false);
}

} // verus!

verus! {

/// A session begins with a question while one is left. Where the first
/// number was drawn as it should be, the level of a candidate without an
/// assigned question has a question that the candidate has not passed and
/// does not repeat the one that failed last, and the database knows the
/// question that the number picks, the session begins by assigning that
/// question and waits for the candidate to start.
pub proof fn lemma_begin_gives_a_question(
    user: UserView,
    exam: ExamView,
    database: Seq<QuestionView>,
    pick: nat,
)
    requires
        crate::exam::drawn_for(exam, user, pick),
        user.current_question is None,
        user.level < exam.levels.len(),
        crate::exam::level::candidates(
            exam.levels[user.level as int].questions,
            user.history,
        ).len() > 0,
        !crate::exam::level::repeats(exam.levels[user.level as int], user),
        find_question(
            database,
            crate::exam::level::candidates(
                exam.levels[user.level as int].questions,
                user.history,
            )[pick as int],
        ) is Some,
    ensures
        session_begin(user, exam, database, pick).session == in_phase(Phase::AwaitEnter),
        session_begin(user, exam, database, pick).user.current_question == Some(
            crate::exam::level::candidates(
                exam.levels[user.level as int].questions,
                user.history,
            )[pick as int],
        ),
{
    crate::exam::lemma_drawn_number_gives_a_question(exam, user, pick);
}

} // verus!
