//! Grading as an exchange of requests and reports. The grading of a submission compiles, runs
//! binaries, reads files and removes what it built; none of that is done
//! here. The state of a grading says what is to be done next, as a
//! [`Request`]; whoever drives the grading does it and answers with a
//! [`Report`]; the grading then moves on, until the request is the last one.

use crate::question::binary_runner::BinaryResultView;
use crate::question::error::QuestionErrorView;
use crate::question::test::{TestErrorView, TestResultView};
use crate::question::trace::{binary_block, file_block, unit_test_block};
use crate::utils::program_output::ProgramOutputView;
use vstd::prelude::*;

verus! {

/// What a grading waits for.
#[derive(Debug, Clone, Copy, PartialEq, Eq, Structural)]
pub enum Stage {
    /// The compiler's answer on the submission.
    CompileSubmission,
    /// The compiler's answer on the reference sources.
    CompileReference,
    /// The text of the file of expected standard output.
    ReadStdout,
    /// The text of the file of expected standard error.
    ReadStderr,
    /// The run of the reference binary on the current arguments.
    RunReference,
    /// The run of the submission on the current arguments.
    RunSubmission,
    /// The run of the unit tests.
    RunUnitTest,
    /// The run of the combined binary on the current arguments.
    RunCombined,
    /// The removal of a binary that the grading built.
    Cleanup,
    /// Nothing: the grading is over.
    Done,
}

/// How a submission is judged once the binaries are there.
#[derive(Debug, Clone, Copy, PartialEq, Eq, Structural)]
pub enum Kind {
    /// Against a reference binary, run by run.
    Replay,
    /// By the exit code of its unit tests.
    UnitTest,
    /// Against two files of expected output.
    Combined,
}

/// The mathematical value of a [`Defect`](crate::question::grader::Defect).
pub enum DefectView {
    ReferenceTimedOut,
    ReferenceDoesNotCompile(Seq<char>),
    NoCompiler,
    UnknownFramework(Seq<char>),
    Protocol,
}

/// How a grading ends: with a verdict or an error to return, or with a
/// defect of the question or of the driver, on which nothing is returned.
pub enum OutcomeView {
    Verdict(Result<TestResultView, QuestionErrorView>),
    Defect(DefectView),
}

/// The mathematical value of a [`Request`](crate::question::grader::Request).
pub enum RequestView {
    Compile { program: Seq<char>, arguments: Seq<Seq<char>> },
    Run { binary: Seq<char>, arguments: Seq<Seq<char>> },
    Read { path: Seq<char> },
    Remove { binary: Seq<char> },
    Finish(Result<TestResultView, QuestionErrorView>),
    Abort(DefectView),
}

/// The mathematical value of a [`Report`](crate::question::grader::Report).
pub enum ReportView {
    Compiled { exit_code: int, diagnostics: Seq<char> },
    Ran(BinaryResultView),
    Read(Seq<char>),
    Removed,
    Failed(Seq<char>),
}

/// The mathematical value of a [`Grading`](crate::question::grader::Grading).
pub struct GradingView {
    pub stage: Stage,
    pub kind: Kind,
    /// The argument vectors of the runs, in order.
    pub args: Seq<Seq<Seq<char>>>,
    /// The index of the argument vector of the current run.
    pub position: nat,
    pub trace: Seq<char>,
    /// What the reference binary gave on the current arguments.
    pub expected: Option<ProgramOutputView>,
    /// The binary that gives the expected output.
    pub reference: Seq<char>,
    /// The binary that is graded.
    pub submission: Seq<char>,
    /// Whether the grading builds the binary that is graded.
    pub builds_submission: bool,
    /// The compilation that builds the reference binary, where one is
    /// needed: the program and its arguments.
    pub reference_build: Option<(Seq<char>, Seq<Seq<char>>)>,
    pub stdout_file: Seq<char>,
    pub stderr_file: Seq<char>,
    pub expected_out: Seq<char>,
    pub expected_err: Seq<char>,
    pub actual_out: Seq<char>,
    pub actual_err: Seq<char>,
    /// The binaries that the grading built and has not yet asked to remove,
    /// in the order in which it will ask.
    pub artifacts: Seq<Seq<char>>,
    /// How the grading will end, once it is decided.
    pub outcome: Option<OutcomeView>,
    /// Whether a removal has failed.
    pub cleanup_failed: bool,
}

impl OutcomeView {
    /// The last request of a grading that ends in this way.
    pub open spec fn request(self) -> RequestView {
        match self {
            OutcomeView::Verdict(verdict) => RequestView::Finish(verdict),
            OutcomeView::Defect(defect) => RequestView::Abort(defect),
        }
    }
}

impl RequestView {
    /// Whether this is the last request of a grading.
    pub open spec fn is_last(self) -> bool {
        self is Finish || self is Abort
    }
}

/// The outcome of a submission that passed.
pub open spec fn passed() -> OutcomeView {
    OutcomeView::Verdict(Ok(TestResultView::Passed))
}

/// The outcome of a submission that failed.
pub open spec fn failed(error: TestErrorView) -> OutcomeView {
    OutcomeView::Verdict(Ok(TestResultView::Failed(error)))
}

/// The outcome of a grading that the driver could not carry out.
pub open spec fn broken(message: Seq<char>) -> OutcomeView {
    OutcomeView::Verdict(Err(QuestionErrorView::IO(message)))
}

/// The end of a grading. While binaries that the grading built are left,
/// the outcome is kept and the first of them is asked to be removed; the
/// outcome is handed out when none is left.
pub open spec fn conclude(s: GradingView, outcome: OutcomeView) -> (GradingView, RequestView) {
    if s.artifacts.len() > 0 {
        (
            GradingView {
                stage: Stage::Cleanup,
                outcome: Some(outcome),
                artifacts: s.artifacts.drop_first(),
                ..s
            },
            RequestView::Remove { binary: s.artifacts[0] },
        )
    } else {
        (GradingView { stage: Stage::Done, outcome: None, ..s }, outcome.request())
    }
}

/// The end of a grading with the verdict of its trace: passed where nothing
/// was recorded, failed with the trace otherwise. The trace leaves the
/// state with the verdict.
pub open spec fn conclude_with_trace(s: GradingView, failure: bool) -> (GradingView, RequestView) {
    let emptied = GradingView { trace: Seq::empty(), ..s };
    if s.trace.len() == 0 {
        conclude(emptied, passed())
    } else if failure {
        conclude(emptied, failed(TestErrorView::FailedUnitTest(s.trace)))
    } else {
        conclude(emptied, failed(TestErrorView::IncorrectOutput(s.trace)))
    }
}

/// The arguments of the current run; none where the runs are over.
pub open spec fn current_arguments(s: GradingView) -> Seq<Seq<char>> {
    if s.position < s.args.len() {
        s.args[s.position as int]
    } else {
        Seq::empty()
    }
}

/// The first run against the reference binary, or the verdict where there
/// is no run to make.
pub open spec fn begin_replay(s: GradingView) -> (GradingView, RequestView) {
    let s = GradingView { position: 0, ..s };
    if s.args.len() == 0 {
        conclude_with_trace(s, false)
    } else {
        (
            GradingView { stage: Stage::RunReference, ..s },
            RequestView::Run { binary: s.reference, arguments: current_arguments(s) },
        )
    }
}

/// The comparison of all that the combined binary wrote with the two
/// files: both streams must agree to the letter.
pub open spec fn compare_with_files(s: GradingView) -> (GradingView, RequestView) {
    if s.actual_out != s.expected_out || s.actual_err != s.expected_err {
        conclude_with_trace(
            GradingView {
                trace: s.trace + file_block(
                    s.expected_out,
                    s.expected_err,
                    s.actual_out,
                    s.actual_err,
                ),
                ..s
            },
            false,
        )
    } else {
        conclude(s, passed())
    }
}

/// The first run of the combined binary, or the comparison where there is
/// no run to make.
pub open spec fn begin_combined(s: GradingView) -> (GradingView, RequestView) {
    let s = GradingView { position: 0, ..s };
    if s.args.len() == 0 {
        compare_with_files(s)
    } else {
        (
            GradingView { stage: Stage::RunCombined, ..s },
            RequestView::Run { binary: s.submission, arguments: current_arguments(s) },
        )
    }
}

/// What follows once the submission is there as a binary.
pub open spec fn with_submission(s: GradingView) -> (GradingView, RequestView) {
    match s.kind {
        Kind::Replay => match s.reference_build {
            Some(build) => (
                GradingView { stage: Stage::CompileReference, ..s },
                RequestView::Compile { program: build.0, arguments: build.1 },
            ),
            None => begin_replay(s),
        },
        Kind::UnitTest => (
            GradingView { stage: Stage::RunUnitTest, ..s },
            RequestView::Run { binary: s.submission, arguments: Seq::empty() },
        ),
        Kind::Combined => (
            GradingView { stage: Stage::ReadStdout, ..s },
            RequestView::Read { path: s.stdout_file },
        ),
    }
}

/// The state after a removal has failed: the first such failure becomes the
/// error that the grading returns, unless the grading ends on a defect.
pub open spec fn note_failed_removal(s: GradingView, message: Seq<char>) -> GradingView {
    if s.outcome is Some && s.outcome->Some_0 is Verdict && !s.cleanup_failed {
        GradingView { outcome: Some(broken(message)), cleanup_failed: true, ..s }
    } else {
        s
    }
}

/// The next removal, or the outcome where nothing is left to remove.
pub open spec fn continue_cleanup(s: GradingView) -> (GradingView, RequestView) {
    match s.outcome {
        Some(outcome) => conclude(s, outcome),
        None => conclude(s, OutcomeView::Defect(DefectView::Protocol)),
    }
}

/// The step of a grading: from the state and the report on what was asked
/// last, the next state and the next request.
///
/// A report that the driver could not do what was asked ends the grading
/// with that error; a report that does not answer what was asked ends it
/// on a defect of the driver. Either way the binaries built so far are
/// removed first.
pub open spec fn advance(s: GradingView, report: ReportView) -> (GradingView, RequestView) {
    match s.stage {
        Stage::Done => (s, RequestView::Abort(DefectView::Protocol)),
        Stage::Cleanup => match report {
            ReportView::Removed => continue_cleanup(s),
            ReportView::Failed(message) => continue_cleanup(note_failed_removal(s, message)),
            _ => conclude(s, OutcomeView::Defect(DefectView::Protocol)),
        },
        Stage::CompileSubmission => match report {
            ReportView::Compiled { exit_code, diagnostics } => if exit_code != 0 {
                conclude(s, failed(TestErrorView::DoesNotCompile(diagnostics)))
            } else {
                with_submission(GradingView { artifacts: seq![s.submission] + s.artifacts, ..s })
            },
            ReportView::Failed(message) => conclude(s, broken(message)),
            _ => conclude(s, OutcomeView::Defect(DefectView::Protocol)),
        },
        Stage::CompileReference => match report {
            ReportView::Compiled { exit_code, diagnostics } => if exit_code != 0 {
                conclude(s, OutcomeView::Defect(DefectView::ReferenceDoesNotCompile(diagnostics)))
            } else {
                begin_replay(GradingView { artifacts: seq![s.reference] + s.artifacts, ..s })
            },
            ReportView::Failed(message) => conclude(s, broken(message)),
            _ => conclude(s, OutcomeView::Defect(DefectView::Protocol)),
        },
        Stage::ReadStdout => match report {
            ReportView::Read(text) => (
                GradingView { stage: Stage::ReadStderr, expected_out: text, ..s },
                RequestView::Read { path: s.stderr_file },
            ),
            ReportView::Failed(message) => conclude(s, broken(message)),
            _ => conclude(s, OutcomeView::Defect(DefectView::Protocol)),
        },
        Stage::ReadStderr => match report {
            ReportView::Read(text) => begin_combined(GradingView { expected_err: text, ..s }),
            ReportView::Failed(message) => conclude(s, broken(message)),
            _ => conclude(s, OutcomeView::Defect(DefectView::Protocol)),
        },
        Stage::RunReference => match report {
            ReportView::Ran(BinaryResultView::Output(output)) => (
                GradingView { stage: Stage::RunSubmission, expected: Some(output), ..s },
                RequestView::Run { binary: s.submission, arguments: current_arguments(s) },
            ),
            ReportView::Ran(BinaryResultView::Timeout) => conclude(
                s,
                OutcomeView::Defect(DefectView::ReferenceTimedOut),
            ),
            ReportView::Failed(message) => conclude(s, broken(message)),
            _ => conclude(s, OutcomeView::Defect(DefectView::Protocol)),
        },
        Stage::RunSubmission => match report {
            ReportView::Ran(BinaryResultView::Output(actual)) => match s.expected {
                Some(expected) => {
                    let trace = if expected != actual {
                        s.trace + binary_block(current_arguments(s), expected, actual)
                    } else {
                        s.trace
                    };
                    let compared = GradingView { trace, expected: None, ..s };
                    if s.position + 1 < s.args.len() {
                        let moved = GradingView {
                            stage: Stage::RunReference,
                            position: s.position + 1,
                            ..compared
                        };
                        (
                            moved,
                            RequestView::Run {
                                binary: s.reference,
                                arguments: current_arguments(moved),
                            },
                        )
                    } else {
                        conclude_with_trace(compared, false)
                    }
                },
                None => conclude(s, OutcomeView::Defect(DefectView::Protocol)),
            },
            ReportView::Ran(BinaryResultView::Timeout) => conclude(
                s,
                failed(TestErrorView::Timeout),
            ),
            ReportView::Failed(message) => conclude(s, broken(message)),
            _ => conclude(s, OutcomeView::Defect(DefectView::Protocol)),
        },
        Stage::RunUnitTest => match report {
            ReportView::Ran(BinaryResultView::Output(output)) => if output.status != 0 {
                conclude_with_trace(
                    GradingView { trace: s.trace + unit_test_block(output), ..s },
                    true,
                )
            } else {
                conclude_with_trace(s, true)
            },
            ReportView::Ran(BinaryResultView::Timeout) => conclude(
                s,
                failed(TestErrorView::Timeout),
            ),
            ReportView::Failed(message) => conclude(s, broken(message)),
            _ => conclude(s, OutcomeView::Defect(DefectView::Protocol)),
        },
        Stage::RunCombined => match report {
            ReportView::Ran(BinaryResultView::Output(output)) => {
                let gathered = GradingView {
                    actual_out: s.actual_out + output.stdout,
                    actual_err: s.actual_err + output.stderr,
                    ..s
                };
                if s.position + 1 < s.args.len() {
                    let moved = GradingView { position: s.position + 1, ..gathered };
                    (
                        moved,
                        RequestView::Run {
                            binary: s.submission,
                            arguments: current_arguments(moved),
                        },
                    )
                } else {
                    compare_with_files(gathered)
                }
            },
            ReportView::Ran(BinaryResultView::Timeout) => conclude(
                s,
                failed(TestErrorView::Timeout),
            ),
            ReportView::Failed(message) => conclude(s, broken(message)),
            _ => conclude(s, OutcomeView::Defect(DefectView::Protocol)),
        },
    }
}

} // verus!

verus! {

/// The path by which a binary that a compilation wrote is run.
pub open spec fn artifact_path(name: Seq<char>) -> Seq<char> {
    "./"@ + name
}

/// The state of a grading before anything was asked.
pub open spec fn initial(
    kind: Kind,
    args: Seq<Seq<Seq<char>>>,
    reference: Seq<char>,
    submission: (Seq<char>, bool),
    reference_build: Option<(Seq<char>, Seq<Seq<char>>)>,
    files: (Seq<char>, Seq<char>),
) -> GradingView {
    GradingView {
        stage: Stage::CompileSubmission,
        kind,
        args,
        position: 0,
        trace: Seq::empty(),
        expected: None,
        reference,
        submission: submission.0,
        builds_submission: submission.1,
        reference_build,
        stdout_file: files.0,
        stderr_file: files.1,
        expected_out: Seq::empty(),
        expected_err: Seq::empty(),
        actual_out: Seq::empty(),
        actual_err: Seq::empty(),
        artifacts: Seq::empty(),
        outcome: None,
        cleanup_failed: false,
    }
}

/// A grading that ends before anything is asked.
pub open spec fn refuse(outcome: OutcomeView) -> (GradingView, RequestView) {
    conclude(
        initial(
            Kind::Replay,
            Seq::empty(),
            Seq::empty(),
            (Seq::empty(), false),
            None,
            (Seq::empty(), Seq::empty()),
        ),
        outcome,
    )
}

} // verus!

verus! {

/// The binary that a report says was built: a compilation that ended with
/// zero built the binary that the grading was waiting for.
pub open spec fn built_by(s: GradingView, report: ReportView) -> Seq<Seq<char>> {
    match report {
        ReportView::Compiled { exit_code, .. } => if exit_code == 0 && s.stage
            == Stage::CompileSubmission {
            seq![s.submission]
        } else if exit_code == 0 && s.stage == Stage::CompileReference {
            seq![s.reference]
        } else {
            Seq::empty()
        },
        _ => Seq::empty(),
    }
}

/// The binary that a request asks to remove.
pub open spec fn removed_by(request: RequestView) -> Seq<Seq<char>> {
    match request {
        RequestView::Remove { binary } => seq![binary],
        _ => Seq::empty(),
    }
}

/// Whether a state and the request that came with it leave nothing behind
/// at the end: where the request is the last one, the grading is over, and
/// a grading that is over holds no binary to remove.
pub open spec fn tidy(pair: (GradingView, RequestView)) -> bool {
    &&& pair.1.is_last() ==> pair.0.stage == Stage::Done
    &&& pair.0.stage == Stage::Done ==> pair.0.artifacts.len() == 0
}

/// The step of a grading, as [`advance`] defines it. Proofs about whole
/// gradings speak of the step by this name, which they unfold only where
/// they look into one step.
#[verifier::opaque]
pub open spec fn step_of(s: GradingView, report: ReportView) -> (GradingView, RequestView) {
    advance(s, report)
}

/// The folded step is the step.
pub proof fn lemma_step_of(s: GradingView, report: ReportView)
    ensures
        step_of(s, report) == advance(s, report),
{
    reveal(step_of);
}

/// The state and the request that a grading has reached after a sequence of
/// reports, from the state and the request that it began with.
pub open spec fn run(start: (GradingView, RequestView), reports: Seq<ReportView>) -> (
    GradingView,
    RequestView,
)
    decreases reports.len(),
{
    if reports.len() == 0 {
        start
    } else {
        step_of(run(start, reports.drop_last()).0, reports.last())
    }
}

/// The binaries that were built in the course of a sequence of reports.
pub open spec fn built_in(start: (GradingView, RequestView), reports: Seq<ReportView>) -> Seq<
    Seq<char>,
>
    decreases reports.len(),
{
    if reports.len() == 0 {
        Seq::empty()
    } else {
        built_in(start, reports.drop_last()) + built_by(
            run(start, reports.drop_last()).0,
            reports.last(),
        )
    }
}

/// The binaries that were asked to be removed in the course of a sequence
/// of reports, the first request included.
pub open spec fn removed_in(start: (GradingView, RequestView), reports: Seq<ReportView>) -> Seq<
    Seq<char>,
>
    decreases reports.len(),
{
    if reports.len() == 0 {
        removed_by(start.1)
    } else {
        removed_in(start, reports.drop_last()) + removed_by(run(start, reports).1)
    }
}

/// Whether a step kept the books on binaries: of those that waited for
/// removal, the step asked to remove the first, which then waits no longer,
/// or left them all waiting; and it made the last request only when none
/// waited.
pub open spec fn books_kept(waiting: Seq<Seq<char>>, next: (GradingView, RequestView)) -> bool {
    &&& tidy(next)
    &&& match next.1 {
        RequestView::Remove { binary } => waiting.len() > 0 && binary == waiting[0]
            && next.0.artifacts == waiting.drop_first(),
        _ => next.0.artifacts == waiting,
    }
}

proof fn lemma_conclude_books(s: GradingView, outcome: OutcomeView)
    ensures
        books_kept(s.artifacts, conclude(s, outcome)),
{
    let next = conclude(s, outcome);
    if s.artifacts.len() == 0 {
        assert(next.0.artifacts =~= s.artifacts);
    }
}

proof fn lemma_conclude_with_trace_books(s: GradingView, failure: bool)
    ensures
        books_kept(s.artifacts, conclude_with_trace(s, failure)),
{
    let emptied = GradingView { trace: Seq::empty(), ..s };
    lemma_conclude_books(emptied, passed());
    lemma_conclude_books(emptied, failed(TestErrorView::FailedUnitTest(s.trace)));
    lemma_conclude_books(emptied, failed(TestErrorView::IncorrectOutput(s.trace)));
}

proof fn lemma_begin_replay_books(s: GradingView)
    ensures
        books_kept(s.artifacts, begin_replay(s)),
{
    lemma_conclude_with_trace_books(GradingView { position: 0, ..s }, false);
}

proof fn lemma_compare_books(s: GradingView)
    ensures
        books_kept(s.artifacts, compare_with_files(s)),
{
    lemma_conclude_books(s, passed());
    lemma_conclude_with_trace_books(
        GradingView {
            trace: s.trace + file_block(s.expected_out, s.expected_err, s.actual_out, s.actual_err),
            ..s
        },
        false,
    );
}

proof fn lemma_begin_combined_books(s: GradingView)
    ensures
        books_kept(s.artifacts, begin_combined(s)),
{
    lemma_compare_books(GradingView { position: 0, ..s });
}

proof fn lemma_with_submission_books(s: GradingView)
    ensures
        books_kept(s.artifacts, with_submission(s)),
{
    lemma_begin_replay_books(s);
}

proof fn lemma_cleanup_books(s: GradingView, report: ReportView)
    requires
        s.stage == Stage::Cleanup,
    ensures
        books_kept(s.artifacts, advance(s, report)),
{
    lemma_conclude_books(s, OutcomeView::Defect(DefectView::Protocol));
    match report {
        ReportView::Removed => {
            if s.outcome is Some {
                lemma_conclude_books(s, s.outcome->Some_0);
            }
        },
        ReportView::Failed(message) => {
            let noted = note_failed_removal(s, message);
            lemma_conclude_books(noted, OutcomeView::Defect(DefectView::Protocol));
            if noted.outcome is Some {
                lemma_conclude_books(noted, noted.outcome->Some_0);
            }
        },
        _ => {},
    }
}

proof fn lemma_compile_books(s: GradingView, report: ReportView)
    requires
        s.stage == Stage::CompileSubmission || s.stage == Stage::CompileReference,
    ensures
        books_kept(built_by(s, report) + s.artifacts, advance(s, report)),
{
    assert(Seq::<Seq<char>>::empty() + s.artifacts =~= s.artifacts);
    lemma_conclude_books(s, OutcomeView::Defect(DefectView::Protocol));
    match report {
        ReportView::Compiled { exit_code, diagnostics } => {
            lemma_conclude_books(s, failed(TestErrorView::DoesNotCompile(diagnostics)));
            lemma_conclude_books(
                s,
                OutcomeView::Defect(DefectView::ReferenceDoesNotCompile(diagnostics)),
            );
            lemma_with_submission_books(
                GradingView { artifacts: seq![s.submission] + s.artifacts, ..s },
            );
            lemma_begin_replay_books(
                GradingView { artifacts: seq![s.reference] + s.artifacts, ..s },
            );
        },
        ReportView::Failed(message) => {
            lemma_conclude_books(s, broken(message));
        },
        _ => {},
    }
}

proof fn lemma_read_books(s: GradingView, report: ReportView)
    requires
        s.stage == Stage::ReadStdout || s.stage == Stage::ReadStderr,
    ensures
        books_kept(s.artifacts, advance(s, report)),
{
    lemma_conclude_books(s, OutcomeView::Defect(DefectView::Protocol));
    match report {
        ReportView::Read(text) => {
            lemma_begin_combined_books(GradingView { expected_err: text, ..s });
        },
        ReportView::Failed(message) => {
            lemma_conclude_books(s, broken(message));
        },
        _ => {},
    }
}

proof fn lemma_replay_books(s: GradingView, report: ReportView)
    requires
        s.stage == Stage::RunReference || s.stage == Stage::RunSubmission,
    ensures
        books_kept(s.artifacts, advance(s, report)),
{
    lemma_conclude_books(s, OutcomeView::Defect(DefectView::Protocol));
    lemma_conclude_books(s, OutcomeView::Defect(DefectView::ReferenceTimedOut));
    lemma_conclude_books(s, failed(TestErrorView::Timeout));
    match report {
        ReportView::Ran(BinaryResultView::Output(actual)) => {
            if s.stage == Stage::RunSubmission && s.expected is Some {
                let expected = s.expected->Some_0;
                let trace = if expected != actual {
                    s.trace + binary_block(current_arguments(s), expected, actual)
                } else {
                    s.trace
                };
                lemma_conclude_with_trace_books(
                    GradingView { trace, expected: None, ..s },
                    false,
                );
            }
        },
        ReportView::Failed(message) => {
            lemma_conclude_books(s, broken(message));
        },
        _ => {},
    }
}

proof fn lemma_single_run_books(s: GradingView, report: ReportView)
    requires
        s.stage == Stage::RunUnitTest || s.stage == Stage::RunCombined,
    ensures
        books_kept(s.artifacts, advance(s, report)),
{
    lemma_conclude_books(s, OutcomeView::Defect(DefectView::Protocol));
    lemma_conclude_books(s, failed(TestErrorView::Timeout));
    match report {
        ReportView::Ran(BinaryResultView::Output(output)) => {
            lemma_conclude_with_trace_books(s, true);
            lemma_conclude_with_trace_books(
                GradingView { trace: s.trace + unit_test_block(output), ..s },
                true,
            );
            lemma_compare_books(
                GradingView {
                    actual_out: s.actual_out + output.stdout,
                    actual_err: s.actual_err + output.stderr,
                    ..s
                },
            );
        },
        ReportView::Failed(message) => {
            lemma_conclude_books(s, broken(message));
        },
        _ => {},
    }
}

/// One step keeps the books on binaries. A binary that the report says was
/// built is put before those that wait for removal. What the step asks to
/// remove is the first of them, and it then waits no longer. The last
/// request comes only when none waits.
pub proof fn lemma_step_keeps_books(s: GradingView, report: ReportView)
    requires
        s.stage == Stage::Done ==> s.artifacts.len() == 0,
    ensures
        books_kept(built_by(s, report) + s.artifacts, advance(s, report)),
{
    assert(Seq::<Seq<char>>::empty() + s.artifacts =~= s.artifacts);
    match s.stage {
        Stage::Done => {},
        Stage::Cleanup => lemma_cleanup_books(s, report),
        Stage::CompileSubmission => lemma_compile_books(s, report),
        Stage::CompileReference => lemma_compile_books(s, report),
        Stage::ReadStdout => lemma_read_books(s, report),
        Stage::ReadStderr => lemma_read_books(s, report),
        Stage::RunReference => lemma_replay_books(s, report),
        Stage::RunSubmission => lemma_replay_books(s, report),
        Stage::RunUnitTest => lemma_single_run_books(s, report),
        Stage::RunCombined => lemma_single_run_books(s, report),
    }
}

/// Artifact cleanup. Whatever the reports, every binary that a grading has
/// built is either asked to be removed or waits for it; so when the grading
/// makes its last request, every binary that it built has been asked to be
/// removed.
pub proof fn lemma_artifacts_are_removed(
    start: (GradingView, RequestView),
    reports: Seq<ReportView>,
)
    requires
        tidy(start),
        start.0.artifacts.len() == 0,
    ensures
        tidy(run(start, reports)),
        forall|i: int|
            0 <= i < built_in(start, reports).len() ==> removed_in(start, reports).contains(
                #[trigger] built_in(start, reports)[i],
            ) || run(start, reports).0.artifacts.contains(built_in(start, reports)[i]),
        forall|i: int|
            0 <= i < run(start, reports).0.artifacts.len() ==> built_in(start, reports).contains(
                #[trigger] run(start, reports).0.artifacts[i],
            ),
        run(start, reports).1.is_last() ==> forall|i: int|
            0 <= i < built_in(start, reports).len() ==> removed_in(start, reports).contains(
                #[trigger] built_in(start, reports)[i],
            ),
    decreases reports.len(),
{
    if reports.len() > 0 {
        let before = reports.drop_last();
        lemma_artifacts_are_removed(start, before);
        let s = run(start, before).0;
        let report = reports.last();
        lemma_step_keeps_books(s, report);
        lemma_step_of(s, report);
        let next = run(start, reports);
        let waiting = built_by(s, report) + s.artifacts;
        let built = built_in(start, reports);
        let removed = removed_in(start, reports);
        let built_before = built_in(start, before);
        let removed_before = removed_in(start, before);
        assert forall|i: int| 0 <= i < built.len() implies removed.contains(#[trigger] built[i])
            || next.0.artifacts.contains(built[i]) by {
            let b = built[i];
            // the binary waits after the report
            let w: int = if i < built_before.len() {
                assert(built_before[i] == b);
                if removed_before.contains(b) {
                    let k = choose|k: int| 0 <= k < removed_before.len() && removed_before[k] == b;
                    assert(removed[k] == b);
                    -1
                } else {
                    let k = choose|k: int| 0 <= k < s.artifacts.len() && s.artifacts[k] == b;
                    k + built_by(s, report).len()
                }
            } else {
                i - built_before.len()
            };
            if w >= 0 {
                assert(waiting[w] == b);
                match next.1 {
                    RequestView::Remove { binary } => {
                        if w == 0 {
                            assert(removed[removed.len() - 1] == b);
                        } else {
                            assert(next.0.artifacts[w - 1] == b);
                        }
                    },
                    _ => {
                        assert(next.0.artifacts[w] == b);
                    },
                }
            }
        }
        assert forall|i: int| 0 <= i < next.0.artifacts.len() implies built.contains(
            #[trigger] next.0.artifacts[i],
        ) by {
            let a = next.0.artifacts[i];
            let w: int = match next.1 {
                RequestView::Remove { binary } => i + 1,
                _ => i,
            };
            assert(waiting[w] == a);
            if w < built_by(s, report).len() {
                assert(built[built_before.len() + w] == a);
            } else {
                let j = w - built_by(s, report).len();
                assert(s.artifacts[j] == a);
                let k = choose|k: int| 0 <= k < built_before.len() && built_before[k] == a;
                assert(built[k] == a);
            }
        }
        if next.1.is_last() {
            assert forall|i: int| 0 <= i < built.len() implies removed.contains(
                #[trigger] built[i],
            ) by {
                if next.0.artifacts.contains(built[i]) {
                    assert(false);
                }
            }
        }
    } else {
        assert(built_in(start, reports) =~= Seq::<Seq<char>>::empty());
    }
}

} // verus!

verus! {

/// The blocks that a replay records: one for each run on which the
/// submission's output differs from the expected one, in the order of the
/// runs. `args`, `expected` and `actual` hold, run by run, the arguments,
/// what the reference gave and what the submission gave.
pub open spec fn mismatch_blocks(
    args: Seq<Seq<Seq<char>>>,
    expected: Seq<ProgramOutputView>,
    actual: Seq<ProgramOutputView>,
) -> Seq<Seq<char>>
    decreases expected.len(),
{
    if expected.len() == 0 || args.len() != expected.len() || actual.len() != expected.len() {
        Seq::empty()
    } else {
        let earlier = mismatch_blocks(args.drop_last(), expected.drop_last(), actual.drop_last());
        if expected.last() != actual.last() {
            earlier.push(binary_block(args.last(), expected.last(), actual.last()))
        } else {
            earlier
        }
    }
}

/// The number of runs on which the submission's output differs from the
/// expected one.
pub open spec fn mismatches(expected: Seq<ProgramOutputView>, actual: Seq<ProgramOutputView>) -> nat
    decreases expected.len(),
{
    if expected.len() == 0 || actual.len() != expected.len() {
        0
    } else {
        mismatches(expected.drop_last(), actual.drop_last()) + if expected.last()
            != actual.last() {
            1nat
        } else {
            0nat
        }
    }
}

/// The reports of a replay in which every run ends: for each run, what the
/// reference gave and then what the submission gave.
pub open spec fn replay_reports(
    expected: Seq<ProgramOutputView>,
    actual: Seq<ProgramOutputView>,
) -> Seq<ReportView> {
    Seq::new(
        2 * expected.len(),
        |k: int|
            if k % 2 == 0 {
                ReportView::Ran(BinaryResultView::Output(expected[k / 2]))
            } else {
                ReportView::Ran(BinaryResultView::Output(actual[k / 2]))
            },
    )
}

/// How a grading that has come to its end, or to its cleanup, will end.
pub open spec fn decided(pair: (GradingView, RequestView)) -> Option<OutcomeView> {
    match pair.1 {
        RequestView::Finish(verdict) => Some(OutcomeView::Verdict(verdict)),
        RequestView::Abort(defect) => Some(OutcomeView::Defect(defect)),
        _ => if pair.0.stage == Stage::Cleanup {
            pair.0.outcome
        } else {
            None
        },
    }
}

/// The verdict of a replay that recorded these blocks.
pub open spec fn replay_verdict(blocks: Seq<Seq<char>>) -> OutcomeView {
    if blocks.len() == 0 {
        passed()
    } else {
        failed(TestErrorView::IncorrectOutput(crate::question::trace::concat_blocks(blocks)))
    }
}

/// A replay records as many blocks as there are runs that differ.
pub proof fn lemma_as_many_blocks_as_mismatches(
    args: Seq<Seq<Seq<char>>>,
    expected: Seq<ProgramOutputView>,
    actual: Seq<ProgramOutputView>,
)
    requires
        args.len() == expected.len(),
        actual.len() == expected.len(),
    ensures
        mismatch_blocks(args, expected, actual).len() == mismatches(expected, actual),
    decreases expected.len(),
{
    if expected.len() > 0 {
        lemma_as_many_blocks_as_mismatches(
            args.drop_last(),
            expected.drop_last(),
            actual.drop_last(),
        );
    }
}

/// The text of a report is empty exactly where it has no block.
pub proof fn lemma_blocks_text(
    args: Seq<Seq<Seq<char>>>,
    expected: Seq<ProgramOutputView>,
    actual: Seq<ProgramOutputView>,
)
    ensures
        crate::question::trace::concat_blocks(mismatch_blocks(args, expected, actual)).len() == 0
            <==> mismatch_blocks(args, expected, actual).len() == 0,
    decreases expected.len(),
{
    let blocks = mismatch_blocks(args, expected, actual);
    if blocks.len() > 0 {
        crate::question::trace::lemma_blocks_not_empty(
            args.last(),
            expected.last(),
            actual.last(),
            (Seq::empty(), Seq::empty(), Seq::empty(), Seq::empty()),
        );
        if expected.last() != actual.last() {
            assert(blocks.last() == binary_block(args.last(), expected.last(), actual.last()));
        } else {
            lemma_blocks_text(args.drop_last(), expected.drop_last(), actual.drop_last());
        }
    }
}

/// Two more reports take a grading two steps further.
proof fn lemma_run_two_more(start: (GradingView, RequestView), reports: Seq<ReportView>, k: int)
    requires
        0 <= k,
        k + 2 <= reports.len(),
    ensures
        run(start, reports.take(k + 2)) == step_of(
            step_of(run(start, reports.take(k)).0, reports[k]).0,
            reports[k + 1],
        ),
{
    assert(reports.take(k + 1).drop_last() =~= reports.take(k));
    assert(reports.take(k + 1).last() == reports[k]);
    assert(reports.take(k + 2).drop_last() =~= reports.take(k + 1));
    assert(reports.take(k + 2).last() == reports[k + 1]);
    assert(run(start, reports.take(k + 1)) == step_of(
        run(start, reports.take(k + 1).drop_last()).0,
        reports.take(k + 1).last(),
    ));
    assert(run(start, reports.take(k + 2)) == step_of(
        run(start, reports.take(k + 2).drop_last()).0,
        reports.take(k + 2).last(),
    ));
}

/// The trace after one run of the reference and one of the submission on
/// the same arguments.
pub open spec fn trace_after_round(
    s: GradingView,
    expected: ProgramOutputView,
    actual: ProgramOutputView,
) -> Seq<char> {
    if expected != actual {
        s.trace + binary_block(current_arguments(s), expected, actual)
    } else {
        s.trace
    }
}

/// One round of a replay that is not the last: the reference ran, then the
/// submission, and the replay moves on to the next arguments with the trace
/// longer by a block where the two differ.
proof fn lemma_round_moves_on(
    s: GradingView,
    expected: ProgramOutputView,
    actual: ProgramOutputView,
)
    requires
        s.stage == Stage::RunReference,
        s.expected is None,
        s.position + 1 < s.args.len(),
    ensures
        step_of(
            step_of(s, ReportView::Ran(BinaryResultView::Output(expected))).0,
            ReportView::Ran(BinaryResultView::Output(actual)),
        ).0 == (GradingView {
            position: s.position + 1,
            trace: trace_after_round(s, expected, actual),
            ..s
        }),
{
    reveal(step_of);
}

/// The last round of a replay: the reference ran, then the submission, and
/// the grading ends with the verdict of its trace.
proof fn lemma_round_ends(s: GradingView, expected: ProgramOutputView, actual: ProgramOutputView)
    requires
        s.stage == Stage::RunReference,
        s.expected is None,
        s.position + 1 == s.args.len(),
    ensures
        decided(
            step_of(
                step_of(s, ReportView::Ran(BinaryResultView::Output(expected))).0,
                ReportView::Ran(BinaryResultView::Output(actual)),
            ),
        ) == Some(
            if trace_after_round(s, expected, actual).len() == 0 {
                passed()
            } else {
                failed(TestErrorView::IncorrectOutput(trace_after_round(s, expected, actual)))
            },
        ),
{
    reveal(step_of);
}

/// The blocks of the first runs of a replay, one run more.
proof fn lemma_blocks_one_more(
    args: Seq<Seq<Seq<char>>>,
    expected: Seq<ProgramOutputView>,
    actual: Seq<ProgramOutputView>,
    i: int,
)
    requires
        args.len() == expected.len(),
        actual.len() == expected.len(),
        0 <= i < expected.len(),
    ensures
        mismatch_blocks(args.take(i + 1), expected.take(i + 1), actual.take(i + 1)) == if expected[i]
            != actual[i] {
            mismatch_blocks(args.take(i), expected.take(i), actual.take(i)).push(
                binary_block(args[i], expected[i], actual[i]),
            )
        } else {
            mismatch_blocks(args.take(i), expected.take(i), actual.take(i))
        },
        crate::question::trace::concat_blocks(
            mismatch_blocks(args.take(i + 1), expected.take(i + 1), actual.take(i + 1)),
        ) == if expected[i] != actual[i] {
            crate::question::trace::concat_blocks(
                mismatch_blocks(args.take(i), expected.take(i), actual.take(i)),
            ) + binary_block(args[i], expected[i], actual[i])
        } else {
            crate::question::trace::concat_blocks(
                mismatch_blocks(args.take(i), expected.take(i), actual.take(i)),
            )
        },
{
    assert(args.take(i + 1).drop_last() =~= args.take(i));
    assert(expected.take(i + 1).drop_last() =~= expected.take(i));
    assert(actual.take(i + 1).drop_last() =~= actual.take(i));
    assert(args.take(i + 1).last() == args[i]);
    assert(expected.take(i + 1).last() == expected[i]);
    assert(actual.take(i + 1).last() == actual[i]);
    let earlier = mismatch_blocks(args.take(i), expected.take(i), actual.take(i));
    if expected[i] != actual[i] {
        let block = binary_block(args[i], expected[i], actual[i]);
        assert(earlier.push(block).drop_last() =~= earlier);
        assert(earlier.push(block).last() == block);
    }
}

/// The state of a replay after the first `done` rounds, none of them the
/// last.
pub open spec fn after_rounds(
    start: GradingView,
    expected: Seq<ProgramOutputView>,
    actual: Seq<ProgramOutputView>,
    done: int,
) -> GradingView {
    GradingView {
        position: done as nat,
        trace: crate::question::trace::concat_blocks(
            mismatch_blocks(start.args.take(done), expected.take(done), actual.take(done)),
        ),
        ..start
    }
}

proof fn lemma_replay_prefix(
    start: GradingView,
    request: RequestView,
    expected: Seq<ProgramOutputView>,
    actual: Seq<ProgramOutputView>,
    done: int,
)
    requires
        start.stage == Stage::RunReference,
        start.position == 0,
        start.trace == Seq::<char>::empty(),
        start.expected is None,
        start.args.len() == expected.len(),
        actual.len() == expected.len(),
        0 <= done < expected.len(),
    ensures
        run((start, request), replay_reports(expected, actual).take(2 * done)).0 == after_rounds(
            start,
            expected,
            actual,
            done,
        ),
    decreases done,
{
    let reports = replay_reports(expected, actual);
    if done == 0 {
        assert(reports.take(0) =~= Seq::<ReportView>::empty());
        assert(start.args.take(0) =~= Seq::<Seq<Seq<char>>>::empty());
        assert(mismatch_blocks(start.args.take(0), expected.take(0), actual.take(0))
            =~= Seq::<Seq<char>>::empty());
        assert(after_rounds(start, expected, actual, 0) == start);
    } else {
        let i = done - 1;
        lemma_replay_prefix(start, request, expected, actual, i);
        let s0 = after_rounds(start, expected, actual, i);
        lemma_run_two_more((start, request), reports, 2 * i);
        assert(reports[2 * i] == ReportView::Ran(BinaryResultView::Output(expected[i])));
        assert(reports[2 * i + 1] == ReportView::Ran(BinaryResultView::Output(actual[i])));
        lemma_round_moves_on(s0, expected[i], actual[i]);
        lemma_blocks_one_more(start.args, expected, actual, i);
        assert(current_arguments(s0) == start.args[i]);
    }
}

/// Diff accumulation. Let a replay over `N` argument vectors begin, and
/// let every run end, the reference giving `expected` and the submission
/// `actual`. Then the grading ends with the verdict of exactly the blocks of
/// the runs that differ, in the order of the runs, and they are as many as
/// the runs that differ: it passes where none differs, and fails with the
/// text of those blocks otherwise.
pub proof fn lemma_diff_accumulation(
    start: GradingView,
    request: RequestView,
    expected: Seq<ProgramOutputView>,
    actual: Seq<ProgramOutputView>,
)
    requires
        start.stage == Stage::RunReference,
        start.position == 0,
        start.trace == Seq::<char>::empty(),
        start.expected is None,
        start.args.len() == expected.len(),
        actual.len() == expected.len(),
        expected.len() > 0,
    ensures
        decided(run((start, request), replay_reports(expected, actual))) == Some(
            replay_verdict(mismatch_blocks(start.args, expected, actual)),
        ),
        mismatch_blocks(start.args, expected, actual).len() == mismatches(expected, actual),
{
    let reports = replay_reports(expected, actual);
    let i = expected.len() - 1;
    lemma_as_many_blocks_as_mismatches(start.args, expected, actual);
    lemma_blocks_text(start.args, expected, actual);
    lemma_replay_prefix(start, request, expected, actual, i);
    let s0 = after_rounds(start, expected, actual, i);
    lemma_run_two_more((start, request), reports, 2 * i);
    assert(reports.take(2 * i + 2) =~= reports);
    assert(reports[2 * i] == ReportView::Ran(BinaryResultView::Output(expected[i])));
    assert(reports[2 * i + 1] == ReportView::Ran(BinaryResultView::Output(actual[i])));
    lemma_round_ends(s0, expected[i], actual[i]);
    lemma_blocks_one_more(start.args, expected, actual, i);
    assert(start.args.take(i + 1) =~= start.args);
    assert(expected.take(i + 1) =~= expected);
    assert(actual.take(i + 1) =~= actual);
    assert(current_arguments(s0) == start.args[i]);
}

} // verus!

verus! {

/// A grading that has taken some reports goes on from where it stands.
pub proof fn lemma_run_continues(
    start: (GradingView, RequestView),
    first: Seq<ReportView>,
    then: Seq<ReportView>,
)
    ensures
        run(start, first + then) == run(run(start, first), then),
    decreases then.len(),
{
    if then.len() == 0 {
        assert(first + then =~= first);
    } else {
        lemma_run_continues(start, first, then.drop_last());
        assert((first + then).drop_last() =~= first + then.drop_last());
        assert((first + then).last() == then.last());
    }
}

/// One report takes a grading one step on, and two take it two.
pub proof fn lemma_run_short(start: (GradingView, RequestView), first: ReportView, second: ReportView)
    ensures
        run(start, Seq::empty()) == start,
        run(start, seq![first]) == step_of(start.0, first),
        run(start, seq![first, second]) == step_of(step_of(start.0, first).0, second),
{
    let none = Seq::<ReportView>::empty();
    assert(run(start, none) == start);
    assert(seq![first].drop_last() =~= none);
    assert(seq![first].last() == first);
    assert(run(start, seq![first]) == step_of(run(start, seq![first].drop_last()).0, first));
    assert(seq![first, second].drop_last() =~= seq![first]);
    assert(seq![first, second].last() == second);
    assert(run(start, seq![first, second]) == step_of(
        run(start, seq![first, second].drop_last()).0,
        second,
    ));
}

/// The report of a compilation that succeeded.
pub open spec fn built_report() -> ReportView {
    ReportView::Compiled { exit_code: 0, diagnostics: Seq::empty() }
}

} // verus!

verus! {

/// Whether the binary that is graded is there to be run: it was given, or
/// the grading has built it and not yet asked to remove it.
pub open spec fn submission_ready(s: GradingView) -> bool {
    s.builds_submission ==> s.artifacts.contains(s.submission)
}

/// Whether the reference binary is there to be run: it was given, or the
/// grading has built it and not yet asked to remove it.
pub open spec fn reference_ready(s: GradingView) -> bool {
    s.reference_build is Some ==> s.artifacts.contains(s.reference)
}

/// Whether a grading has, at its stage, the binaries that the stage runs.
pub open spec fn ordered(s: GradingView) -> bool {
    match s.stage {
        Stage::CompileSubmission => true,
        Stage::CompileReference => submission_ready(s),
        Stage::ReadStdout => submission_ready(s),
        Stage::ReadStderr => submission_ready(s),
        Stage::RunUnitTest => submission_ready(s),
        Stage::RunCombined => submission_ready(s),
        Stage::RunReference => submission_ready(s) && reference_ready(s),
        Stage::RunSubmission => submission_ready(s) && reference_ready(s),
        Stage::Cleanup => true,
        Stage::Done => true,
    }
}

/// Whether a state and the request that came with it are in order: the
/// state has the binaries that its stage runs, and the request runs
/// nothing but the reference binary or the binary that is graded, each
/// only while it is there.
pub open spec fn in_order(pair: (GradingView, RequestView)) -> bool {
    &&& ordered(pair.0)
    &&& match pair.1 {
        RequestView::Run { binary, .. } => (binary == pair.0.submission && submission_ready(
            pair.0,
        )) || (binary == pair.0.reference && reference_ready(pair.0)),
        _ => true,
    }
}

proof fn lemma_conclude_in_order(s: GradingView, outcome: OutcomeView)
    ensures
        in_order(conclude(s, outcome)),
{
}

proof fn lemma_conclude_with_trace_in_order(s: GradingView, failure: bool)
    ensures
        in_order(conclude_with_trace(s, failure)),
{
}

proof fn lemma_begin_replay_in_order(s: GradingView)
    requires
        submission_ready(s),
        reference_ready(s),
    ensures
        in_order(begin_replay(s)),
{
    lemma_conclude_with_trace_in_order(GradingView { position: 0, ..s }, false);
}

proof fn lemma_compare_in_order(s: GradingView)
    ensures
        in_order(compare_with_files(s)),
{
    lemma_conclude_in_order(s, passed());
    lemma_conclude_with_trace_in_order(
        GradingView {
            trace: s.trace + file_block(s.expected_out, s.expected_err, s.actual_out, s.actual_err),
            ..s
        },
        false,
    );
}

proof fn lemma_with_submission_in_order(s: GradingView)
    requires
        submission_ready(s),
        s.reference_build is Some ==> s.kind == Kind::Replay,
    ensures
        in_order(with_submission(s)),
{
    if s.kind == Kind::Replay && s.reference_build is None {
        lemma_begin_replay_in_order(s);
    }
}

/// What was put before a list is in it, and so is what was in it before.
proof fn lemma_put_first_contains(first: Seq<char>, rest: Seq<Seq<char>>, wanted: Seq<char>)
    requires
        wanted == first || rest.contains(wanted),
    ensures
        (seq![first] + rest).contains(wanted),
{
    let list = seq![first] + rest;
    if wanted == first {
        assert(list[0] == wanted);
    } else {
        let k = choose|k: int| 0 <= k < rest.len() && rest[k] == wanted;
        assert(list[k + 1] == wanted);
    }
}

proof fn lemma_compile_in_order(s: GradingView, report: ReportView)
    requires
        ordered(s),
        s.stage == Stage::CompileSubmission || s.stage == Stage::CompileReference,
        s.reference_build is Some ==> s.kind == Kind::Replay,
        s.stage == Stage::CompileReference ==> s.reference_build is Some,
    ensures
        in_order(step_of(s, report)),
        planned(step_of(s, report).0),
{
    reveal(step_of);
    lemma_conclude_in_order(s, OutcomeView::Defect(DefectView::Protocol));
    match report {
        ReportView::Compiled { exit_code, diagnostics } => {
            lemma_conclude_in_order(s, failed(TestErrorView::DoesNotCompile(diagnostics)));
            lemma_conclude_in_order(
                s,
                OutcomeView::Defect(DefectView::ReferenceDoesNotCompile(diagnostics)),
            );
            if exit_code == 0 {
                if s.stage == Stage::CompileSubmission {
                    let built = GradingView { artifacts: seq![s.submission] + s.artifacts, ..s };
                    lemma_put_first_contains(s.submission, s.artifacts, s.submission);
                    lemma_with_submission_in_order(built);
                } else {
                    let built = GradingView { artifacts: seq![s.reference] + s.artifacts, ..s };
                    lemma_put_first_contains(s.reference, s.artifacts, s.reference);
                    if s.builds_submission {
                        lemma_put_first_contains(s.reference, s.artifacts, s.submission);
                    }
                    lemma_begin_replay_in_order(built);
                }
            }
        },
        ReportView::Failed(message) => {
            lemma_conclude_in_order(s, broken(message));
        },
        _ => {},
    }
}

proof fn lemma_runs_in_order(s: GradingView, report: ReportView)
    requires
        ordered(s),
        planned(s),
        s.stage != Stage::CompileSubmission,
        s.stage != Stage::CompileReference,
    ensures
        in_order(step_of(s, report)),
        planned(step_of(s, report).0),
        s.stage == Stage::Cleanup || s.stage == Stage::Done ==> step_of(s, report).1 is Remove
            || step_of(s, report).1.is_last(),
{
    reveal(step_of);
    lemma_conclude_in_order(s, OutcomeView::Defect(DefectView::Protocol));
    lemma_conclude_in_order(s, OutcomeView::Defect(DefectView::ReferenceTimedOut));
    lemma_conclude_in_order(s, failed(TestErrorView::Timeout));
    match report {
        ReportView::Removed => {
            if s.outcome is Some {
                lemma_conclude_in_order(s, s.outcome->Some_0);
            }
        },
        ReportView::Failed(message) => {
            lemma_conclude_in_order(s, broken(message));
            let noted = note_failed_removal(s, message);
            lemma_conclude_in_order(noted, OutcomeView::Defect(DefectView::Protocol));
            if noted.outcome is Some {
                lemma_conclude_in_order(noted, noted.outcome->Some_0);
            }
        },
        ReportView::Read(text) => {
            if s.stage == Stage::ReadStderr {
                let read = GradingView { expected_err: text, position: 0, ..s };
                lemma_compare_in_order(read);
            }
        },
        ReportView::Ran(BinaryResultView::Output(output)) => {
            if s.stage == Stage::RunSubmission && s.expected is Some {
                let expected = s.expected->Some_0;
                let trace = if expected != output {
                    s.trace + binary_block(current_arguments(s), expected, output)
                } else {
                    s.trace
                };
                lemma_conclude_with_trace_in_order(
                    GradingView { trace, expected: None, ..s },
                    false,
                );
            }
            if s.stage == Stage::RunUnitTest {
                lemma_conclude_with_trace_in_order(s, true);
                lemma_conclude_with_trace_in_order(
                    GradingView { trace: s.trace + unit_test_block(output), ..s },
                    true,
                );
            }
            if s.stage == Stage::RunCombined {
                lemma_compare_in_order(
                    GradingView {
                        actual_out: s.actual_out + output.stdout,
                        actual_err: s.actual_err + output.stderr,
                        ..s
                    },
                );
            }
        },
        _ => {},
    }
}

/// Whether the plan of a grading is sound: only a replay builds a
/// reference, and a grading that waits for the reference to compile has one
/// to build.
pub open spec fn planned(s: GradingView) -> bool {
    &&& s.reference_build is Some ==> s.kind == Kind::Replay
    &&& s.stage == Stage::CompileReference ==> s.reference_build is Some
}

/// One step keeps the order. From a state that has the binaries that its
/// stage runs, the step leads to such a state, and asks to run nothing but
/// a binary that is there: a binary that the grading builds is run only
/// after it was built and before it is asked to be removed. Once the
/// cleanup has begun, nothing is compiled, run or read any more.
pub proof fn lemma_step_keeps_order(s: GradingView, report: ReportView)
    requires
        ordered(s),
        planned(s),
    ensures
        in_order(step_of(s, report)),
        planned(step_of(s, report).0),
        s.stage == Stage::Cleanup || s.stage == Stage::Done ==> step_of(s, report).1 is Remove
            || step_of(s, report).1.is_last(),
{
    if s.stage == Stage::CompileSubmission || s.stage == Stage::CompileReference {
        lemma_compile_in_order(s, report);
    } else {
        lemma_runs_in_order(s, report);
    }
}

/// Compiling comes before running, and running before removing, all
/// through a grading. From a beginning in order, whatever the reports, the
/// grading asks to run nothing but a binary that is there.
pub proof fn lemma_run_keeps_order(start: (GradingView, RequestView), reports: Seq<ReportView>)
    requires
        in_order(start),
        planned(start.0),
    ensures
        in_order(run(start, reports)),
        planned(run(start, reports).0),
    decreases reports.len(),
{
    if reports.len() > 0 {
        lemma_run_keeps_order(start, reports.drop_last());
        let before = run(start, reports.drop_last());
        lemma_step_keeps_order(before.0, reports.last());
    }
}

} // verus!
