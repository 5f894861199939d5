//! The grading of one submission, step by step.

use crate::question::binary_runner::BinaryResult;
use crate::question::error::{QuestionError, QuestionErrorView};
use crate::question::grading::{
    advance, DefectView, GradingView, Kind, OutcomeView, ReportView, RequestView, Stage,
};
use crate::question::test::{TestError, TestResult, TestResultView};
use crate::question::trace::Trace;
use crate::utils::text::{copy_strings, put_first, take_first};
use crate::utils::ProgramOutput;
use vstd::prelude::*;
use vstd::string::*;

verus! {

/// A fault that ends a grading with nothing to return: the question is
/// broken, or a report did not answer the request.
#[derive(Debug)]
pub enum Defect {
    /// The reference binary did not end in time.
    ReferenceTimedOut,
    /// The reference sources do not compile; the compiler said why.
    ReferenceDoesNotCompile(String),
    /// The submission is to be compiled and names no compiler.
    NoCompiler,
    /// The unit tests need a framework that the settings do not know.
    UnknownFramework(String),
    /// A report did not answer the request, or came after the end.
    Protocol,
}

impl View for Defect {
    type V = DefectView;

    open spec fn view(&self) -> DefectView {
        match self {
            Defect::ReferenceTimedOut => DefectView::ReferenceTimedOut,
            Defect::ReferenceDoesNotCompile(text) => DefectView::ReferenceDoesNotCompile(text@),
            Defect::NoCompiler => DefectView::NoCompiler,
            Defect::UnknownFramework(name) => DefectView::UnknownFramework(name@),
            Defect::Protocol => DefectView::Protocol,
        }
    }
}

/// The mathematical value of a verdict or of the error in its place.
pub open spec fn verdict_view(verdict: Result<TestResult, QuestionError>) -> Result<
    TestResultView,
    QuestionErrorView,
> {
    match verdict {
        Ok(result) => Ok(result@),
        Err(error) => Err(error@),
    }
}

/// What the driver of a grading is asked to do.
#[derive(Debug)]
pub enum Request {
    /// Invoke the compiler `program` with `arguments` and report its exit
    /// code and what it wrote to its standard error.
    Compile { program: String, arguments: Vec<String> },
    /// Run `binary` with `arguments` under the watch, and report its output
    /// or that its time was up.
    Run { binary: String, arguments: Vec<String> },
    /// Report the text of the file at `path`.
    Read { path: String },
    /// Remove the file `binary`.
    Remove { binary: String },
    /// Return this verdict or error: the grading is over.
    Finish(Result<TestResult, QuestionError>),
    /// Give up on this defect: the grading is over.
    Abort(Defect),
}

impl View for Request {
    type V = RequestView;

    open spec fn view(&self) -> RequestView {
        match self {
            Request::Compile { program, arguments } => RequestView::Compile {
                program: program@,
                arguments: arguments.deep_view(),
            },
            Request::Run { binary, arguments } => RequestView::Run {
                binary: binary@,
                arguments: arguments.deep_view(),
            },
            Request::Read { path } => RequestView::Read { path: path@ },
            Request::Remove { binary } => RequestView::Remove { binary: binary@ },
            Request::Finish(verdict) => RequestView::Finish(verdict_view(*verdict)),
            Request::Abort(defect) => RequestView::Abort(defect@),
        }
    }
}

/// What the driver of a grading answers.
#[derive(Debug)]
pub enum Report {
    /// The compiler ended with this exit code and these diagnostics.
    Compiled { exit_code: i32, diagnostics: String },
    /// The binary ended with this output, or its time was up.
    Ran(BinaryResult),
    /// The file holds this text.
    Read(String),
    /// The file is removed.
    Removed,
    /// What was asked could not be done; the message says why.
    Failed(String),
}

impl View for Report {
    type V = ReportView;

    open spec fn view(&self) -> ReportView {
        match self {
            Report::Compiled { exit_code, diagnostics } => ReportView::Compiled {
                exit_code: *exit_code as int,
                diagnostics: diagnostics@,
            },
            Report::Ran(result) => ReportView::Ran(result@),
            Report::Read(text) => ReportView::Read(text@),
            Report::Removed => ReportView::Removed,
            Report::Failed(message) => ReportView::Failed(message@),
        }
    }
}

/// How a grading ends.
#[derive(Debug)]
pub enum Outcome {
    Verdict(Result<TestResult, QuestionError>),
    Defect(Defect),
}

impl View for Outcome {
    type V = OutcomeView;

    open spec fn view(&self) -> OutcomeView {
        match self {
            Outcome::Verdict(verdict) => OutcomeView::Verdict(verdict_view(*verdict)),
            Outcome::Defect(defect) => OutcomeView::Defect(defect@),
        }
    }
}

/// The state of the grading of one submission.
#[derive(Debug)]
pub struct Grading {
    pub(crate) stage: Stage,
    pub(crate) kind: Kind,
    pub(crate) args: Vec<Vec<String>>,
    pub(crate) position: usize,
    pub(crate) trace: Trace,
    pub(crate) expected: Option<ProgramOutput>,
    pub(crate) reference: String,
    pub(crate) submission: String,
    pub(crate) builds_submission: bool,
    pub(crate) reference_build: Option<(String, Vec<String>)>,
    pub(crate) stdout_file: String,
    pub(crate) stderr_file: String,
    pub(crate) expected_out: String,
    pub(crate) expected_err: String,
    pub(crate) actual_out: String,
    pub(crate) actual_err: String,
    pub(crate) artifacts: Vec<String>,
    pub(crate) outcome: Option<Outcome>,
    pub(crate) cleanup_failed: bool,
}

impl View for Grading {
    type V = GradingView;

    closed spec fn view(&self) -> GradingView {
        GradingView {
            stage: self.stage,
            kind: self.kind,
            args: self.args.deep_view(),
            position: self.position as nat,
            trace: self.trace@,
            expected: match self.expected {
                Some(output) => Some(output@),
                None => None,
            },
            reference: self.reference@,
            submission: self.submission@,
            builds_submission: self.builds_submission,
            reference_build: match self.reference_build {
                Some(build) => Some((build.0@, build.1.deep_view())),
                None => None,
            },
            stdout_file: self.stdout_file@,
            stderr_file: self.stderr_file@,
            expected_out: self.expected_out@,
            expected_err: self.expected_err@,
            actual_out: self.actual_out@,
            actual_err: self.actual_err@,
            artifacts: self.artifacts.deep_view(),
            outcome: match self.outcome {
                Some(outcome) => Some(outcome@),
                None => None,
            },
            cleanup_failed: self.cleanup_failed,
        }
    }
}

fn outcome_request(outcome: Outcome) -> (request: Request)
    ensures
        request@ == outcome@.request(),
{
    match outcome {
        Outcome::Verdict(verdict) => Request::Finish(verdict),
        Outcome::Defect(defect) => Request::Abort(defect),
    }
}

fn conclude(s: Grading, outcome: Outcome) -> (next: (Grading, Request))
    ensures
        (next.0@, next.1@) == crate::question::grading::conclude(s@, outcome@),
{
    let mut s = s;
    if s.artifacts.len() > 0 {
        proof {
            assert(s.artifacts.deep_view().len() == s.artifacts.len());
        }
        let binary = take_first(&mut s.artifacts);
        s.stage = Stage::Cleanup;
        s.outcome = Some(outcome);
        (s, Request::Remove { binary })
    } else {
        proof {
            assert(s.artifacts.deep_view().len() == s.artifacts.len());
        }
        s.stage = Stage::Done;
        s.outcome = None;
        (s, outcome_request(outcome))
    }
}

fn conclude_with_trace(s: Grading, failure: bool) -> (next: (Grading, Request))
    ensures
        (next.0@, next.1@) == crate::question::grading::conclude_with_trace(s@, failure),
{
    let mut s = s;
    let mut trace = Trace::new();
    std::mem::swap(&mut trace, &mut s.trace);
    if !trace.has_failure() {
        conclude(s, Outcome::Verdict(Ok(TestResult::Passed)))
    } else if failure {
        conclude(s, Outcome::Verdict(Ok(TestResult::Failed(TestError::FailedUnitTest(trace)))))
    } else {
        conclude(s, Outcome::Verdict(Ok(TestResult::Failed(TestError::IncorrectOutput(trace)))))
    }
}

fn current_arguments(s: &Grading) -> (arguments: Vec<String>)
    ensures
        arguments.deep_view() == crate::question::grading::current_arguments(s@),
{
    if s.position < s.args.len() {
        proof {
            assert(s.args.deep_view()[s.position as int] == s.args[s.position as int].deep_view());
        }
        copy_strings(&s.args[s.position])
    } else {
        let none: Vec<String> = Vec::new();
        proof {
            assert(s.args.deep_view().len() == s.args.len());
            assert(none.deep_view() =~= Seq::<Seq<char>>::empty());
        }
        none
    }
}

fn protocol(s: Grading) -> (next: (Grading, Request))
    ensures
        (next.0@, next.1@) == crate::question::grading::conclude(
            s@,
            OutcomeView::Defect(DefectView::Protocol),
        ),
{
    conclude(s, Outcome::Defect(Defect::Protocol))
}

fn broken(s: Grading, message: String) -> (next: (Grading, Request))
    ensures
        (next.0@, next.1@) == crate::question::grading::conclude(
            s@,
            crate::question::grading::broken(message@),
        ),
{
    conclude(s, Outcome::Verdict(Err(QuestionError::IO(message))))
}

fn timed_out(s: Grading) -> (next: (Grading, Request))
    ensures
        (next.0@, next.1@) == crate::question::grading::conclude(
            s@,
            crate::question::grading::failed(crate::question::test::TestErrorView::Timeout),
        ),
{
    conclude(s, Outcome::Verdict(Ok(TestResult::Failed(TestError::Timeout))))
}

pub(crate) fn begin_replay(s: Grading) -> (next: (Grading, Request))
    ensures
        (next.0@, next.1@) == crate::question::grading::begin_replay(s@),
{
    let mut s = s;
    s.position = 0;
    proof {
        assert(s.args.deep_view().len() == s.args.len());
    }
    if s.args.len() == 0 {
        conclude_with_trace(s, false)
    } else {
        let arguments = current_arguments(&s);
        let binary = s.reference.clone();
        s.stage = Stage::RunReference;
        (s, Request::Run { binary, arguments })
    }
}

fn compare_with_files(s: Grading) -> (next: (Grading, Request))
    ensures
        (next.0@, next.1@) == crate::question::grading::compare_with_files(s@),
{
    let mut s = s;
    if s.actual_out != s.expected_out || s.actual_err != s.expected_err {
        s.trace.file_outputs(
            (s.expected_out.clone(), s.expected_err.clone()),
            (s.actual_out.clone(), s.actual_err.clone()),
        );
        conclude_with_trace(s, false)
    } else {
        conclude(s, Outcome::Verdict(Ok(TestResult::Passed)))
    }
}

fn begin_combined(s: Grading) -> (next: (Grading, Request))
    ensures
        (next.0@, next.1@) == crate::question::grading::begin_combined(s@),
{
    let mut s = s;
    s.position = 0;
    proof {
        assert(s.args.deep_view().len() == s.args.len());
    }
    if s.args.len() == 0 {
        compare_with_files(s)
    } else {
        let arguments = current_arguments(&s);
        let binary = s.submission.clone();
        s.stage = Stage::RunCombined;
        (s, Request::Run { binary, arguments })
    }
}

pub(crate) fn with_submission(s: Grading) -> (next: (Grading, Request))
    ensures
        (next.0@, next.1@) == crate::question::grading::with_submission(s@),
{
    let mut s = s;
    match s.kind {
        Kind::Replay => {
            let build = match &s.reference_build {
                Some(build) => Some((build.0.clone(), copy_strings(&build.1))),
                None => None,
            };
            match build {
                Some((program, arguments)) => {
                    s.stage = Stage::CompileReference;
                    (s, Request::Compile { program, arguments })
                },
                None => begin_replay(s),
            }
        },
        Kind::UnitTest => {
            let binary = s.submission.clone();
            let arguments: Vec<String> = Vec::new();
            proof {
                assert(arguments.deep_view() =~= Seq::<Seq<char>>::empty());
            }
            s.stage = Stage::RunUnitTest;
            (s, Request::Run { binary, arguments })
        },
        Kind::Combined => {
            let path = s.stdout_file.clone();
            s.stage = Stage::ReadStdout;
            (s, Request::Read { path })
        },
    }
}

} // verus!

verus! {

fn note_failed_removal(s: Grading, message: String) -> (noted: Grading)
    ensures
        noted@ == crate::question::grading::note_failed_removal(s@, message@),
{
    let mut s = s;
    let replace = match &s.outcome {
        Some(Outcome::Verdict(_)) => !s.cleanup_failed,
        _ => false,
    };
    if replace {
        s.outcome = Some(Outcome::Verdict(Err(QuestionError::IO(message))));
        s.cleanup_failed = true;
    }
    s
}

fn continue_cleanup(s: Grading) -> (next: (Grading, Request))
    ensures
        (next.0@, next.1@) == crate::question::grading::continue_cleanup(s@),
{
    let mut s = s;
    let mut outcome: Option<Outcome> = None;
    std::mem::swap(&mut outcome, &mut s.outcome);
    match outcome {
        Some(outcome) => conclude(s, outcome),
        None => conclude(s, Outcome::Defect(Defect::Protocol)),
    }
}

fn after_submission_run(s: Grading, actual: ProgramOutput) -> (next: (Grading, Request))
    requires
        s@.stage == Stage::RunSubmission,
    ensures
        (next.0@, next.1@) == advance(
            s@,
            ReportView::Ran(crate::question::binary_runner::BinaryResultView::Output(actual@)),
        ),
{
    let mut s = s;
    let mut expected: Option<ProgramOutput> = None;
    std::mem::swap(&mut expected, &mut s.expected);
    match expected {
        Some(expected) => {
            if !expected.same_as(&actual) {
                let arguments = current_arguments(&s);
                s.trace.binary_output(&arguments, expected, actual);
            }
            if s.position < s.args.len() && s.args.len() - s.position > 1 {
                s.position = s.position + 1;
                s.stage = Stage::RunReference;
                let arguments = current_arguments(&s);
                let binary = s.reference.clone();
                (s, Request::Run { binary, arguments })
            } else {
                proof {
                    assert(s.args.deep_view().len() == s.args.len());
                }
                conclude_with_trace(s, false)
            }
        },
        None => protocol(s),
    }
}

fn after_unit_test_run(s: Grading, output: ProgramOutput) -> (next: (Grading, Request))
    requires
        s@.stage == Stage::RunUnitTest,
    ensures
        (next.0@, next.1@) == advance(
            s@,
            ReportView::Ran(crate::question::binary_runner::BinaryResultView::Output(output@)),
        ),
{
    let mut s = s;
    if output.code() != 0 {
        s.trace.unit_test_output(output);
    }
    conclude_with_trace(s, true)
}

fn after_combined_run(s: Grading, output: ProgramOutput) -> (next: (Grading, Request))
    requires
        s@.stage == Stage::RunCombined,
    ensures
        (next.0@, next.1@) == advance(
            s@,
            ReportView::Ran(crate::question::binary_runner::BinaryResultView::Output(output@)),
        ),
{
    let mut s = s;
    s.actual_out.append(output.stdout());
    s.actual_err.append(output.stderr());
    if s.position < s.args.len() && s.args.len() - s.position > 1 {
        s.position = s.position + 1;
        let arguments = current_arguments(&s);
        let binary = s.submission.clone();
        (s, Request::Run { binary, arguments })
    } else {
        proof {
            assert(s.args.deep_view().len() == s.args.len());
        }
        compare_with_files(s)
    }
}

impl Grading {
    /// What the grading waits for.
    pub fn stage(&self) -> (stage: Stage)
        ensures
            stage == self@.stage,
    {
        self.stage
    }

    /// Takes the report on what was asked last, and says what is to be
    /// done next.
    pub fn step(self, report: Report) -> (next: (Grading, Request))
        ensures
            (next.0@, next.1@) == advance(self@, report@),
    {
        let mut s = self;
        match s.stage {
            Stage::Done => (s, Request::Abort(Defect::Protocol)),
            Stage::Cleanup => match report {
                Report::Removed => continue_cleanup(s),
                Report::Failed(message) => {
                    let noted = note_failed_removal(s, message);
                    continue_cleanup(noted)
                },
                _ => protocol(s),
            },
            Stage::CompileSubmission => match report {
                Report::Compiled { exit_code, diagnostics } => {
                    if exit_code != 0 {
                        conclude(
                            s,
                            Outcome::Verdict(
                                Ok(TestResult::Failed(TestError::DoesNotCompile(diagnostics))),
                            ),
                        )
                    } else {
                        let artifact = s.submission.clone();
                        put_first(&mut s.artifacts, artifact);
                        with_submission(s)
                    }
                },
                Report::Failed(message) => broken(s, message),
                _ => protocol(s),
            },
            Stage::CompileReference => match report {
                Report::Compiled { exit_code, diagnostics } => {
                    if exit_code != 0 {
                        conclude(s, Outcome::Defect(Defect::ReferenceDoesNotCompile(diagnostics)))
                    } else {
                        let artifact = s.reference.clone();
                        put_first(&mut s.artifacts, artifact);
                        begin_replay(s)
                    }
                },
                Report::Failed(message) => broken(s, message),
                _ => protocol(s),
            },
            Stage::ReadStdout => match report {
                Report::Read(text) => {
                    s.expected_out = text;
                    s.stage = Stage::ReadStderr;
                    let path = s.stderr_file.clone();
                    (s, Request::Read { path })
                },
                Report::Failed(message) => broken(s, message),
                _ => protocol(s),
            },
            Stage::ReadStderr => match report {
                Report::Read(text) => {
                    s.expected_err = text;
                    begin_combined(s)
                },
                Report::Failed(message) => broken(s, message),
                _ => protocol(s),
            },
            Stage::RunReference => match report {
                Report::Ran(BinaryResult::Output(output)) => {
                    let arguments = current_arguments(&s);
                    let binary = s.submission.clone();
                    s.expected = Some(output);
                    s.stage = Stage::RunSubmission;
                    (s, Request::Run { binary, arguments })
                },
                Report::Ran(BinaryResult::Timeout) => conclude(
                    s,
                    Outcome::Defect(Defect::ReferenceTimedOut),
                ),
                Report::Failed(message) => broken(s, message),
                _ => protocol(s),
            },
            Stage::RunSubmission => match report {
                Report::Ran(BinaryResult::Output(actual)) => after_submission_run(s, actual),
                Report::Ran(BinaryResult::Timeout) => timed_out(s),
                Report::Failed(message) => broken(s, message),
                _ => protocol(s),
            },
            Stage::RunUnitTest => match report {
                Report::Ran(BinaryResult::Output(output)) => after_unit_test_run(s, output),
                Report::Ran(BinaryResult::Timeout) => timed_out(s),
                Report::Failed(message) => broken(s, message),
                _ => protocol(s),
            },
            Stage::RunCombined => match report {
                Report::Ran(BinaryResult::Output(output)) => after_combined_run(s, output),
                Report::Ran(BinaryResult::Timeout) => timed_out(s),
                Report::Failed(message) => broken(s, message),
                _ => protocol(s),
            },
        }
    }
}

} // verus!

verus! {

/// The state of a grading before anything was asked.
pub(crate) fn initial_state(
    kind: Kind,
    args: Vec<Vec<String>>,
    reference: String,
    submission: (String, bool),
    reference_build: Option<(String, Vec<String>)>,
    files: (String, String),
) -> (s: Grading)
    ensures
        s@ == crate::question::grading::initial(
            kind,
            args.deep_view(),
            reference@,
            (submission.0@, submission.1),
            match reference_build {
                Some(build) => Some((build.0@, build.1.deep_view())),
                None => None,
            },
            (files.0@, files.1@),
        ),
{
    let artifacts: Vec<String> = Vec::new();
    proof {
        assert(artifacts.deep_view() =~= Seq::<Seq<char>>::empty());
    }
    Grading {
        stage: Stage::CompileSubmission,
        kind,
        args,
        position: 0,
        trace: Trace::new(),
        expected: None,
        reference,
        submission: submission.0,
        builds_submission: submission.1,
        reference_build,
        stdout_file: files.0,
        stderr_file: files.1,
        expected_out: String::new(),
        expected_err: String::new(),
        actual_out: String::new(),
        actual_err: String::new(),
        artifacts,
        outcome: None,
        cleanup_failed: false,
    }
}

/// A grading that ends before anything is asked.
pub(crate) fn refuse(outcome: Outcome) -> (next: (Grading, Request))
    ensures
        (next.0@, next.1@) == crate::question::grading::refuse(outcome@),
{
    let args: Vec<Vec<String>> = Vec::new();
    proof {
        assert(args.deep_view() =~= Seq::<Seq<Seq<char>>>::empty());
    }
    let s = initial_state(
        Kind::Replay,
        args,
        String::new(),
        (String::new(), false),
        None,
        (String::new(), String::new()),
    );
    conclude(s, outcome)
}

/// The path by which the binary of that name is run.
pub(crate) fn artifact_path(name: &str) -> (path: String)
    ensures
        path@ == crate::question::grading::artifact_path(name@),
{
    String::from_str("./").concat(name)
}

} // verus!
