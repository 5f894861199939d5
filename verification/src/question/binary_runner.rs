//! The watch that is kept over a running binary: it is given a fixed time,
//! and asked at short intervals whether it has ended.

use crate::utils::ProgramOutput;
use crate::utils::program_output::ProgramOutputView;
use vstd::prelude::*;

verus! {

/// The seconds that one run of a binary may take.
pub const TIMEOUT: u64 = 10;

/// The milliseconds that one run of a binary may take.
pub const TIMEOUT_MILLIS: u64 = 10000;

/// The milliseconds between two looks at a running binary.
pub const POLL_INTERVAL_MILLIS: u64 = 10;

/// How the run of a binary ended.
#[derive(Debug)]
pub enum BinaryResult {
    Output(ProgramOutput),
    Timeout,
}

/// The mathematical value of a [`BinaryResult`].
pub enum BinaryResultView {
    Output(ProgramOutputView),
    Timeout,
}

impl View for BinaryResult {
    type V = BinaryResultView;

    open spec fn view(&self) -> BinaryResultView {
        match self {
            BinaryResult::Output(output) => BinaryResultView::Output(output@),
            BinaryResult::Timeout => BinaryResultView::Timeout,
        }
    }
}

/// What was seen of the process at the last look.
#[derive(Debug, Clone, Copy, PartialEq, Eq, Structural)]
pub enum Liveness {
    Running,
    Exited,
}

/// What the one who runs the binary does next.
#[derive(Debug, Clone, Copy, PartialEq, Eq, Structural)]
pub enum Watch {
    /// Look whether the process has ended.
    Probe,
    /// Wait for so many milliseconds, then read the clock again.
    Sleep(u64),
    /// The process has ended: collect its output.
    Collect,
    /// The time is up: report a timeout and wait for the process no longer.
    GiveUp,
}

/// The rule of the watch. With the clock just read and the process not yet
/// looked at in this round, the process is looked at while the time is not
/// up. After a look, a process that has ended is collected, and one that
/// runs is left alone for one interval.
pub open spec fn watch_rule(elapsed_millis: u64, seen: Option<Liveness>) -> Watch {
    match seen {
        None => if elapsed_millis < TIMEOUT_MILLIS {
            Watch::Probe
        } else {
            Watch::GiveUp
        },
        Some(Liveness::Exited) => Watch::Collect,
        Some(Liveness::Running) => Watch::Sleep(POLL_INTERVAL_MILLIS),
    }
}

/// Decides the next step of the watch over a binary: `elapsed_millis` is the
/// time since the binary was started, as read at the start of this round, and
/// `seen` is what a look in this round has shown, if one was taken.
pub fn watch(elapsed_millis: u64, seen: Option<Liveness>) -> (next: Watch)
    ensures
        next == watch_rule(elapsed_millis, seen),
{
    match seen {
        None => if elapsed_millis < TIMEOUT_MILLIS {
            Watch::Probe
        } else {
            Watch::GiveUp
        },
        Some(Liveness::Exited) => Watch::Collect,
        Some(Liveness::Running) => Watch::Sleep(POLL_INTERVAL_MILLIS),
    }
}

/// Whether each round of a watch, from one reading of the clock to the
/// next, takes more than no time and at most one interval and `slack`
/// milliseconds more, for what the round does besides waiting.
pub open spec fn paced(readings: Seq<u64>, slack: u64) -> bool {
    forall|i: int|
        0 <= i < readings.len() - 1 ==> readings[i] < #[trigger] readings[i + 1] && readings[i
            + 1] <= readings[i] + POLL_INTERVAL_MILLIS + slack
}

/// Timeout liveness. Let `readings` be the readings of the clock at the
/// start of each round of the watch over a process that is seen running at
/// every look, the first taken before the time is up and the last at or
/// after it, each round taking at most one interval and `slack`. Then there
/// is a first round at which the time is up; the watch gives up at it,
/// having looked and slept at every round before; and the clock then
/// stands below the time allowed plus one interval and `slack`. With no
/// slack, a binary that never ends is given up before the time allowed
/// plus one interval has passed.
pub proof fn lemma_timeout_liveness(readings: Seq<u64>, slack: u64) -> (round: int)
    requires
        readings.len() > 0,
        readings[0] < TIMEOUT_MILLIS,
        readings.last() >= TIMEOUT_MILLIS,
        paced(readings, slack),
    ensures
        0 < round < readings.len(),
        watch_rule(readings[round], None) == Watch::GiveUp,
        readings[round] < TIMEOUT_MILLIS + POLL_INTERVAL_MILLIS + slack,
        forall|i: int|
            0 <= i < round ==> watch_rule(#[trigger] readings[i], None) == Watch::Probe
                && watch_rule(readings[i], Some(Liveness::Running)) == Watch::Sleep(
                POLL_INTERVAL_MILLIS,
            ),
    decreases readings.len(),
{
    if readings[readings.len() - 2] < TIMEOUT_MILLIS {
        let round = readings.len() - 1;
        assert(readings[round - 1 + 1] <= readings[round - 1] + POLL_INTERVAL_MILLIS + slack);
        assert forall|i: int| 0 <= i < round implies watch_rule(#[trigger] readings[i], None)
            == Watch::Probe by {
            lemma_paced_increases(readings, slack, i, round - 1);
        }
        round
    } else {
        let shorter = readings.drop_last();
        assert(paced(shorter, slack)) by {
            assert forall|i: int| 0 <= i < shorter.len() - 1 implies shorter[i]
                < #[trigger] shorter[i + 1] && shorter[i + 1] <= shorter[i]
                + POLL_INTERVAL_MILLIS + slack by {
                assert(readings[i] < readings[i + 1]);
            }
        }
        let round = lemma_timeout_liveness(shorter, slack);
        assert forall|i: int| 0 <= i < round implies watch_rule(#[trigger] readings[i], None)
            == Watch::Probe && watch_rule(readings[i], Some(Liveness::Running)) == Watch::Sleep(
            POLL_INTERVAL_MILLIS,
        ) by {
            assert(shorter[i] == readings[i]);
        }
        assert(shorter[round] == readings[round]);
        round
    }
}

/// The readings of a paced watch do not fall.
pub proof fn lemma_paced_increases(readings: Seq<u64>, slack: u64, i: int, j: int)
    requires
        paced(readings, slack),
        0 <= i <= j < readings.len(),
    ensures
        readings[i] <= readings[j],
    decreases j - i,
{
    if i < j {
        lemma_paced_increases(readings, slack, i, j - 1);
        assert(readings[j - 1] < readings[j - 1 + 1]);
    }
}

} // verus!
