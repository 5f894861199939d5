//! The deadline timer of an exam. It waits until the exam has started,
//! then counts the time of the exam down, and tells the session when the
//! time is up, unless the session is over first.

use vstd::prelude::*;

verus! {

/// Where the timer stands.
#[derive(Debug, Clone, Copy, PartialEq, Eq, Structural)]
pub enum TimerState {
    /// The exam has not started.
    WaitingStart,
    /// The time of the exam runs.
    Counting,
    /// The timer has nothing left to do.
    Done,
}

/// What the timer learns.
#[derive(Debug, Clone, Copy, PartialEq, Eq, Structural)]
pub enum TimerEvent {
    /// The session says that the exam has started.
    Started,
    /// The session is over, or can no longer be heard.
    Finished,
    /// The time of the exam has passed.
    Elapsed,
}

/// What the timer does next.
#[derive(Debug, Clone, Copy, PartialEq, Eq, Structural)]
pub enum TimerAction {
    /// Go on waiting.
    Wait,
    /// Wait for the session for at most so many seconds.
    Count(u64),
    /// Tell the session that the time is up, and do not mind whether it
    /// hears.
    SendDeadline,
    /// Rest: nothing is left to do.
    Rest,
}

/// The rule of the timer. It begins to count when the exam has started.
/// While it counts, the end of the session stops it, and the passing of the
/// time makes it tell the session. A session that is over before the exam
/// has started stops it too. Once it is done, nothing moves it.
pub open spec fn timer_rule(state: TimerState, event: TimerEvent, seconds: u64) -> (
    TimerState,
    TimerAction,
) {
    match state {
        TimerState::WaitingStart => match event {
            TimerEvent::Started => (TimerState::Counting, TimerAction::Count(seconds)),
            TimerEvent::Finished => (TimerState::Done, TimerAction::Rest),
            TimerEvent::Elapsed => (TimerState::WaitingStart, TimerAction::Wait),
        },
        TimerState::Counting => match event {
            TimerEvent::Started => (TimerState::Counting, TimerAction::Wait),
            TimerEvent::Finished => (TimerState::Done, TimerAction::Rest),
            TimerEvent::Elapsed => (TimerState::Done, TimerAction::SendDeadline),
        },
        TimerState::Done => (TimerState::Done, TimerAction::Rest),
    }
}

/// Moves the timer of an exam of so many seconds by one event.
pub fn timer_step(state: TimerState, event: TimerEvent, seconds: u64) -> (next: (
    TimerState,
    TimerAction,
))
    ensures
        next == timer_rule(state, event, seconds),
{
    match state {
        TimerState::WaitingStart => match event {
            TimerEvent::Started => (TimerState::Counting, TimerAction::Count(seconds)),
            TimerEvent::Finished => (TimerState::Done, TimerAction::Rest),
            TimerEvent::Elapsed => (TimerState::WaitingStart, TimerAction::Wait),
        },
        TimerState::Counting => match event {
            TimerEvent::Started => (TimerState::Counting, TimerAction::Wait),
            TimerEvent::Finished => (TimerState::Done, TimerAction::Rest),
            TimerEvent::Elapsed => (TimerState::Done, TimerAction::SendDeadline),
        },
        TimerState::Done => (TimerState::Done, TimerAction::Rest),
    }
}

/// What the timer learns when it looks up from counting: the end of the
/// session comes before the passing of the time where both have happened.
pub fn resolve(finished: bool, elapsed: bool) -> (event: Option<TimerEvent>)
    ensures
        event == if finished {
            Some(TimerEvent::Finished)
        } else if elapsed {
            Some(TimerEvent::Elapsed)
        } else {
            None::<TimerEvent>
        },
{
    if finished {
        Some(TimerEvent::Finished)
    } else if elapsed {
        Some(TimerEvent::Elapsed)
    } else {
        None
    }
}

/// The timer tells the session at most once, and only that the time of a
/// started exam has passed: it sends the deadline exactly when it counts
/// and learns that the time has passed, and it is done afterwards. One that
/// is done never sends anything.
pub proof fn lemma_deadline_sent_once(state: TimerState, event: TimerEvent, seconds: u64)
    ensures
        timer_rule(state, event, seconds).1 == TimerAction::SendDeadline <==> state
            == TimerState::Counting && event == TimerEvent::Elapsed,
        timer_rule(state, event, seconds).1 == TimerAction::SendDeadline ==> timer_rule(
            state,
            event,
            seconds,
        ).0 == TimerState::Done,
        state == TimerState::Done ==> timer_rule(state, event, seconds) == (
            TimerState::Done,
            TimerAction::Rest,
        ),
{
}

/// The end of the session always stops a timer: whatever it was doing, it
/// is done afterwards and sends nothing. So the timer does not outlive the
/// session.
pub proof fn lemma_finish_stops_timer(state: TimerState, seconds: u64)
    ensures
        timer_rule(state, TimerEvent::Finished, seconds) == (TimerState::Done, TimerAction::Rest),
{
}

} // verus!
