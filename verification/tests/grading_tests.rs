use examtrainer::config::toml as config_toml;
use examtrainer::config::Config;
use examtrainer::question::grader::{Defect, Grading, Report, Request};
use examtrainer::question::grading::Stage;
use examtrainer::question::submission;
use examtrainer::question::test::{CompiledTogether, Exec, Sources, UnitTest};
use examtrainer::question::test::{Test, TestError, TestResult};
use examtrainer::question::{BinaryResult, QuestionDirs, QuestionError, Submission};
use examtrainer::utils::ProgramOutput;

fn strings(list: &[&str]) -> Vec<String> {
    list.iter().map(|s| s.to_string()).collect()
}

fn config_with(frameworks: Option<config_toml::Frameworks>) -> Config {
    let toml = config_toml::Config {
        directories: config_toml::Directories {
            submit_directory: "rendu".to_string(),
            question_directory: "questions".to_string(),
            exam_directory: "exams".to_string(),
            subject_directory: "subjects".to_string(),
            trace_directory: "traces".to_string(),
        },
        frameworks,
    };
    Config::new_internal(toml, &Vec::new()).unwrap()
}

fn dirs() -> QuestionDirs {
    QuestionDirs {
        submit_directory: "rendu/countdown".to_string(),
        question_directory: "questions/countdown".to_string(),
        subject_directory: "questions/countdown/countdown.subject".to_string(),
    }
}

fn names() -> (String, String) {
    ("SUBMISSION".to_string(), "REFERENCE0".to_string())
}

fn sources_submission(compiler: Option<&str>) -> Submission {
    Submission::Sources(submission::Sources {
        sources: strings(&["a.c"]),
        compiler: compiler.map(|c| c.to_string()),
        flags: Some(strings(&["-Wall"])),
    })
}

fn exec_submission() -> Submission {
    Submission::Exec(submission::Exec { binary: "./answer".to_string() })
}

fn exec_test(args: Vec<Vec<String>>) -> Test {
    Test::Exec(Exec { binary: "questions/countdown/reference".to_string(), args })
}

fn output(code: i32, stdout: &str, stderr: &str) -> Report {
    Report::Ran(BinaryResult::Output(ProgramOutput::from_strings(
        code,
        stdout.to_string(),
        stderr.to_string(),
    )))
}

fn describe(request: &Request) -> String {
    match request {
        Request::Compile { program, arguments } => format!("compile {} {}", program, arguments.join(" ")),
        Request::Run { binary, arguments } => format!("run {} [{}]", binary, arguments.join(",")),
        Request::Read { path } => format!("read {}", path),
        Request::Remove { binary } => format!("remove {}", binary),
        Request::Finish(_) => "finish".to_string(),
        Request::Abort(_) => "abort".to_string(),
    }
}

/// Drives a grading to its last request with the answers of `respond`, and
/// gives what was asked on the way.
fn drive(
    start: (Grading, Request),
    respond: &mut dyn FnMut(&Request) -> Report,
) -> (Vec<String>, Request, Grading) {
    let (mut grading, mut request) = start;
    let mut log = Vec::new();
    loop {
        log.push(describe(&request));
        match request {
            Request::Finish(_) | Request::Abort(_) => return (log, request, grading),
            _ => {
                assert!(log.len() < 100, "the grading does not end");
                let report = respond(&request);
                let next = grading.step(report);
                grading = next.0;
                request = next.1;
            }
        }
    }
}

fn verdict(request: Request) -> Result<TestResult, QuestionError> {
    match request {
        Request::Finish(verdict) => verdict,
        _ => panic!("the grading ends on a defect"),
    }
}

/// A reference that counts down and a submission that does so too, but
/// for the arguments in `wrong`.
fn countdown(wrong: &'static [&'static str]) -> impl FnMut(&Request) -> Report {
    move |request: &Request| match request {
        Request::Compile { .. } => {
            Report::Compiled { exit_code: 0, diagnostics: String::new() }
        }
        Request::Run { binary, arguments } => {
            let joined = arguments.join(",");
            if binary.starts_with("questions/") || binary == "./REFERENCE0" {
                output(0, "9876543210\n", "")
            } else if wrong.contains(&joined.as_str()) {
                output(0, "987543210\n", "")
            } else {
                output(0, "9876543210\n", "")
            }
        }
        Request::Remove { .. } => Report::Removed,
        _ => Report::Failed("unexpected".to_string()),
    }
}

#[test]
fn scenario_sources_submission_passes() {
    let test = exec_test(vec![vec![], strings(&["x", "y"])]);
    let start = test.run_with(&sources_submission(Some("gcc")), &dirs(), &config_with(None), names());
    let (log, last, grading) = drive(start, &mut countdown(&[]));
    assert_eq!(
        log,
        vec![
            "compile gcc -o SUBMISSION -Wall rendu/countdown/a.c",
            "run questions/countdown/reference []",
            "run ./SUBMISSION []",
            "run questions/countdown/reference [x,y]",
            "run ./SUBMISSION [x,y]",
            "remove ./SUBMISSION",
            "finish",
        ]
    );
    assert!(matches!(verdict(last), Ok(TestResult::Passed)));
    assert_eq!(grading.stage(), Stage::Done);
}

#[test]
fn scenario_one_differing_run_gives_one_block() {
    let test = exec_test(vec![vec![], strings(&["x", "y"])]);
    let start = test.run_with(&sources_submission(Some("gcc")), &dirs(), &config_with(None), names());
    let (log, last, _) = drive(start, &mut countdown(&["x,y"]));
    assert_eq!(log[log.len() - 2], "remove ./SUBMISSION");
    match verdict(last) {
        Ok(TestResult::Failed(TestError::IncorrectOutput(trace))) => {
            let text = trace.to_string();
            assert_eq!(
                text,
                format!(
                    "{}{}{}{}{}{}{}{}{}{}{}",
                    "Failure with args: x, y, \n",
                    "Expected Output:\n",
                    "Exit Code: 0\n",
                    "Stdout: 9876543210\n",
                    "\n",
                    "Stderr: \n",
                    "Actual Output:\n",
                    "Exit Code: 0\n",
                    "Stdout: 987543210\n",
                    "\n",
                    "Stderr: \n",
                )
            );
            assert_eq!(text.matches("Failure with args: ").count(), 1);
        }
        _ => panic!("the submission gives incorrect output"),
    }
}

#[test]
fn scenario_submission_does_not_compile() {
    let test = exec_test(vec![vec![], strings(&["x", "y"])]);
    let start = test.run_with(&sources_submission(Some("gcc")), &dirs(), &config_with(None), names());
    let (log, last, _) = drive(start, &mut |request: &Request| match request {
        Request::Compile { .. } => {
            Report::Compiled { exit_code: 1, diagnostics: "a.c:1: error: expected ';'\n".to_string() }
        }
        _ => panic!("nothing is run or removed"),
    });
    assert_eq!(log, vec!["compile gcc -o SUBMISSION -Wall rendu/countdown/a.c", "finish"]);
    match verdict(last) {
        Ok(TestResult::Failed(TestError::DoesNotCompile(text))) => {
            assert_eq!(text, "a.c:1: error: expected ';'\n")
        }
        _ => panic!("the submission does not compile"),
    }
}

#[test]
fn scenario_submission_never_terminates() {
    let test = exec_test(vec![vec![], strings(&["x", "y"])]);
    let start = test.run_with(&sources_submission(Some("gcc")), &dirs(), &config_with(None), names());
    let (log, last, _) = drive(start, &mut |request: &Request| match request {
        Request::Compile { .. } => Report::Compiled { exit_code: 0, diagnostics: String::new() },
        Request::Run { binary, .. } => {
            if binary == "./SUBMISSION" {
                Report::Ran(BinaryResult::Timeout)
            } else {
                output(0, "9876543210\n", "")
            }
        }
        Request::Remove { .. } => Report::Removed,
        _ => Report::Failed("unexpected".to_string()),
    });
    assert_eq!(
        log,
        vec![
            "compile gcc -o SUBMISSION -Wall rendu/countdown/a.c",
            "run questions/countdown/reference []",
            "run ./SUBMISSION []",
            "remove ./SUBMISSION",
            "finish",
        ]
    );
    assert!(matches!(verdict(last), Ok(TestResult::Failed(TestError::Timeout))));
}

fn compiled_together() -> Test {
    Test::CompiledTogether(CompiledTogether {
        compiler: "gcc".to_string(),
        flags: Some(strings(&["-Wall", "-Wextra", "-Werror"])),
        sources: strings(&["main.c"]),
        stdout_file: "questions/countdown/countdown.out".to_string(),
        stderr_file: "questions/countdown/countdown.err".to_string(),
        args: vec![vec![], strings(&["again"])],
    })
}

fn together(expected: &'static str, actual: &'static str) -> impl FnMut(&Request) -> Report {
    move |request: &Request| match request {
        Request::Compile { .. } => Report::Compiled { exit_code: 0, diagnostics: String::new() },
        Request::Read { path } => {
            if path.ends_with(".out") {
                Report::Read(expected.to_string())
            } else {
                Report::Read("warn\n".to_string())
            }
        }
        Request::Run { arguments, .. } => {
            if arguments.is_empty() {
                output(0, actual, "warn\n")
            } else {
                output(0, "", "")
            }
        }
        Request::Remove { .. } => Report::Removed,
        _ => Report::Failed("unexpected".to_string()),
    }
}

#[test]
fn scenario_expected_output_differs() {
    let submission = Submission::Sources(submission::Sources {
        sources: strings(&["a.c"]),
        compiler: None,
        flags: Some(strings(&["-ignored"])),
    });
    let start = compiled_together().run_with(&submission, &dirs(), &config_with(None), names());
    let (log, last, _) = drive(start, &mut together("9876543210\n", "987543210\n"));
    assert_eq!(
        log,
        vec![
            "compile gcc -o SUBMISSION -Wall -Wextra -Werror rendu/countdown/a.c main.c",
            "read questions/countdown/countdown.out",
            "read questions/countdown/countdown.err",
            "run ./SUBMISSION []",
            "run ./SUBMISSION [again]",
            "remove ./SUBMISSION",
            "finish",
        ]
    );
    match verdict(last) {
        Ok(TestResult::Failed(TestError::IncorrectOutput(trace))) => {
            let text = trace.to_string();
            assert!(text.contains("9876543210\n"));
            assert!(text.contains("987543210\n"));
            assert_eq!(
                text,
                format!(
                    "{}{}{}{}{}{}{}{}{}",
                    "Failure: \n",
                    "Expected Stdout:\n",
                    "9876543210\n",
                    "Actual Stdout:\n",
                    "987543210\n",
                    "Expected Stderr:\n",
                    "warn\n",
                    "Actual Stderr:\n",
                    "warn\n",
                )
            );
        }
        _ => panic!("the output differs from the expected output"),
    }
}

#[test]
fn question_correct_expected_output() {
    let start = compiled_together().run_with(
        &sources_submission(None),
        &dirs(),
        &config_with(None),
        names(),
    );
    let (_, last, _) = drive(start, &mut together("a\n", "a\n"));
    match verdict(last) {
        Ok(TestResult::Passed) => (),
        _ => panic!("This test should have passed"),
    }
}

#[test]
fn question_incorrect_expected_output() {
    let start = compiled_together().run_with(
        &sources_submission(None),
        &dirs(),
        &config_with(None),
        names(),
    );
    let (_, last, _) = drive(start, &mut together("a\n", "b\n"));
    match verdict(last) {
        Ok(TestResult::Passed) => panic!("Test should have failed"),
        Ok(TestResult::Failed(error)) => match error {
            TestError::IncorrectOutput(_) => (),
            _ => panic!("This test should fail with incorrect output error"),
        },
        Err(_) => panic!("the grading fails"),
    }
}

#[test]
fn expected_output_needs_sources() {
    let start = compiled_together().run_with(&exec_submission(), &dirs(), &config_with(None), names());
    let (log, last, _) = drive(start, &mut |_: &Request| panic!("nothing is asked"));
    assert_eq!(log, vec!["finish"]);
    match verdict(last) {
        Err(QuestionError::InvalidTestType(text)) => assert_eq!(
            text,
            "Expected Output cannot be run with any submission type other than sources"
        ),
        _ => panic!("the submission is of the wrong kind"),
    }
}

#[test]
fn question_wrong_answer() {
    let test = exec_test(vec![vec![], strings(&["I'll", "be", "ignored"])]);
    let start = test.run_with(&sources_submission(Some("gcc")), &dirs(), &config_with(None), names());
    let (_, last, _) = drive(start, &mut countdown(&["", "I'll,be,ignored"]));
    let error = match verdict(last).unwrap() {
        TestResult::Passed => panic!("Test should have failed"),
        TestResult::Failed(error) => error,
    };
    let trace = match error {
        TestError::DoesNotCompile(e) => {
            panic!("This test case should compile correctly, but: {}", e)
        }
        TestError::IncorrectOutput(trace) => trace,
        TestError::Timeout => panic!("This test case should pass, but it timed out!"),
        _ => panic!("TestError should have IncorrectOutput type"),
    };
    assert_eq!(
        trace.to_string(),
        format!(
            "{}{}{}{}{}{}{}{}{}{}{}{}{}{}{}{}{}{}{}{}{}{}",
            "Failure with args: \n",
            "Expected Output:\n",
            "Exit Code: 0\n",
            "Stdout: 9876543210\n",
            "\n",
            "Stderr: \n",
            "Actual Output:\n",
            "Exit Code: 0\n",
            "Stdout: 987543210\n",
            "\n",
            "Stderr: \n",
            "Failure with args: I'll, be, ignored, \n",
            "Expected Output:\n",
            "Exit Code: 0\n",
            "Stdout: 9876543210\n",
            "\n",
            "Stderr: \n",
            "Actual Output:\n",
            "Exit Code: 0\n",
            "Stdout: 987543210\n",
            "\n",
            "Stderr: \n",
        )
    );
}

#[test]
fn question_timeout() {
    let test = exec_test(vec![vec![]]);
    let start = test.run_with(&exec_submission(), &dirs(), &config_with(None), names());
    let (log, last, _) = drive(start, &mut |request: &Request| match request {
        Request::Run { binary, .. } => {
            if binary == "./answer" {
                Report::Ran(BinaryResult::Timeout)
            } else {
                output(0, "", "")
            }
        }
        _ => panic!("nothing is built"),
    });
    assert_eq!(log, vec!["run questions/countdown/reference []", "run ./answer []", "finish"]);
    let error = match verdict(last).unwrap() {
        TestResult::Passed => panic!("Test should have failed"),
        TestResult::Failed(error) => error,
    };
    assert!(matches!(error, TestError::Timeout));
}

#[test]
fn diff_accumulation_keeps_order() {
    let test = exec_test(vec![strings(&["1"]), strings(&["2"]), strings(&["3"]), strings(&["4"])]);
    let start = test.run_with(&exec_submission(), &dirs(), &config_with(None), names());
    let (log, last, _) = drive(start, &mut |request: &Request| match request {
        Request::Run { binary, arguments } => {
            if binary == "./answer" && (arguments[0] == "2" || arguments[0] == "4") {
                output(1, "", &format!("bad {}\n", arguments[0]))
            } else {
                output(0, &format!("good {}\n", arguments[0]), "")
            }
        }
        _ => panic!("nothing is built"),
    });
    assert_eq!(log.len(), 9);
    match verdict(last) {
        Ok(TestResult::Failed(TestError::IncorrectOutput(trace))) => {
            let text = trace.to_string();
            assert_eq!(text.matches("Failure with args: ").count(), 2);
            let second = text.find("Failure with args: 2, \n").unwrap();
            let fourth = text.find("Failure with args: 4, \n").unwrap();
            assert!(second < fourth);
            assert!(!text.contains("Failure with args: 1, "));
            assert!(!text.contains("Failure with args: 3, "));
            assert!(text.contains("Exit Code: 1\nStdout: \nStderr: bad 4\n\n"));
        }
        _ => panic!("two runs differ"),
    }
}

#[test]
fn no_argument_vectors_means_no_run() {
    let test = exec_test(vec![]);
    let start = test.run_with(&exec_submission(), &dirs(), &config_with(None), names());
    let (log, last, _) = drive(start, &mut |_: &Request| panic!("nothing is asked"));
    assert_eq!(log, vec!["finish"]);
    assert!(matches!(verdict(last), Ok(TestResult::Passed)));
}

#[test]
fn reference_timeout_is_a_defect() {
    let test = exec_test(vec![vec![]]);
    let start = test.run_with(&sources_submission(Some("gcc")), &dirs(), &config_with(None), names());
    let (log, last, _) = drive(start, &mut |request: &Request| match request {
        Request::Compile { .. } => Report::Compiled { exit_code: 0, diagnostics: String::new() },
        Request::Run { .. } => Report::Ran(BinaryResult::Timeout),
        Request::Remove { .. } => Report::Removed,
        _ => Report::Failed("unexpected".to_string()),
    });
    assert_eq!(log[log.len() - 2], "remove ./SUBMISSION");
    assert!(matches!(last, Request::Abort(Defect::ReferenceTimedOut)));
}

#[test]
fn missing_compiler_is_a_defect() {
    let test = exec_test(vec![vec![]]);
    let start = test.run_with(&sources_submission(None), &dirs(), &config_with(None), names());
    assert!(matches!(start.1, Request::Abort(Defect::NoCompiler)));
    assert_eq!(start.0.stage(), Stage::Done);
}

fn sources_test() -> Test {
    Test::Sources(Sources {
        compiler: "clang".to_string(),
        sources: strings(&["questions/countdown/main.c", "questions/countdown/util.c"]),
        args: vec![strings(&["7"])],
        flags: Some(strings(&["-O2"])),
    })
}

#[test]
fn question_correct_answer_sources() {
    let start = sources_test().run_with(
        &sources_submission(Some("ignored")),
        &dirs(),
        &config_with(None),
        names(),
    );
    let (log, last, _) = drive(start, &mut countdown(&[]));
    assert_eq!(
        log,
        vec![
            "compile clang -o SUBMISSION -Wall rendu/countdown/a.c",
            "compile clang -o REFERENCE0 -O2 questions/countdown/main.c questions/countdown/util.c",
            "run ./REFERENCE0 [7]",
            "run ./SUBMISSION [7]",
            "remove ./REFERENCE0",
            "remove ./SUBMISSION",
            "finish",
        ]
    );
    match verdict(last) {
        Ok(TestResult::Passed) => (),
        _ => panic!("Test should have passed"),
    }
}

#[test]
fn question_incorrect_answer_sources() {
    let start = sources_test().run_with(
        &sources_submission(Some("ignored")),
        &dirs(),
        &config_with(None),
        names(),
    );
    let (_, last, _) = drive(start, &mut countdown(&["7"]));
    match verdict(last) {
        Ok(TestResult::Passed) => panic!("Test should have failed"),
        Ok(TestResult::Failed(error)) => match error {
            TestError::IncorrectOutput(_) => (),
            _ => panic!("This test should fail with incorrect output error"),
        },
        Err(_) => panic!("the grading fails"),
    }
}

#[test]
fn sources_test_with_binary_submission() {
    let start = sources_test().run_with(&exec_submission(), &dirs(), &config_with(None), names());
    let (log, last, _) = drive(start, &mut countdown(&[]));
    assert_eq!(
        log,
        vec![
            "compile clang -o REFERENCE0 -O2 questions/countdown/main.c questions/countdown/util.c",
            "run ./REFERENCE0 [7]",
            "run ./answer [7]",
            "remove ./REFERENCE0",
            "finish",
        ]
    );
    assert!(matches!(verdict(last), Ok(TestResult::Passed)));
}

#[test]
fn broken_reference_sources_are_a_defect_and_cleaned_up() {
    let start = sources_test().run_with(
        &sources_submission(Some("ignored")),
        &dirs(),
        &config_with(None),
        names(),
    );
    let mut compilations = 0;
    let (log, last, _) = drive(start, &mut |request: &Request| match request {
        Request::Compile { .. } => {
            compilations += 1;
            if compilations == 1 {
                Report::Compiled { exit_code: 0, diagnostics: String::new() }
            } else {
                Report::Compiled { exit_code: 2, diagnostics: "main.c: broken\n".to_string() }
            }
        }
        Request::Remove { .. } => Report::Removed,
        _ => panic!("nothing is run"),
    });
    assert_eq!(log[2], "remove ./SUBMISSION");
    match last {
        Request::Abort(Defect::ReferenceDoesNotCompile(text)) => assert_eq!(text, "main.c: broken\n"),
        _ => panic!("the reference does not compile"),
    }
}

#[test]
fn failure_to_run_is_returned_after_cleanup() {
    let start = sources_test().run_with(
        &sources_submission(Some("ignored")),
        &dirs(),
        &config_with(None),
        names(),
    );
    let (log, last, _) = drive(start, &mut |request: &Request| match request {
        Request::Compile { .. } => Report::Compiled { exit_code: 0, diagnostics: String::new() },
        Request::Run { .. } => Report::Failed("cannot spawn".to_string()),
        Request::Remove { .. } => Report::Removed,
        _ => panic!("nothing is read"),
    });
    assert_eq!(
        &log[2..],
        &["run ./REFERENCE0 [7]", "remove ./REFERENCE0", "remove ./SUBMISSION", "finish"]
    );
    match verdict(last) {
        Err(QuestionError::IO(message)) => assert_eq!(message, "cannot spawn"),
        _ => panic!("the failure is returned"),
    }
}

#[test]
fn first_failed_removal_is_returned_and_cleanup_goes_on() {
    let start = sources_test().run_with(
        &sources_submission(Some("ignored")),
        &dirs(),
        &config_with(None),
        names(),
    );
    let (log, last, _) = drive(start, &mut |request: &Request| match request {
        Request::Compile { .. } => Report::Compiled { exit_code: 0, diagnostics: String::new() },
        Request::Run { .. } => output(0, "", ""),
        Request::Remove { binary } => Report::Failed(format!("cannot remove {}", binary)),
        _ => panic!("nothing is read"),
    });
    assert_eq!(&log[4..], &["remove ./REFERENCE0", "remove ./SUBMISSION", "finish"]);
    match verdict(last) {
        Err(QuestionError::IO(message)) => assert_eq!(message, "cannot remove ./REFERENCE0"),
        _ => panic!("the first failure is returned"),
    }
}

fn unit_test(framework: Option<&str>) -> Test {
    Test::UnitTest(UnitTest {
        compiler: "g++".to_string(),
        sources: strings(&["questions/strlen/test.cpp"]),
        flags: Some(strings(&["-std=c++17"])),
        framework: framework.map(|f| f.to_string()),
    })
}

fn gtest_config() -> Config {
    config_with(Some(config_toml::Frameworks(vec![config_toml::Framework {
        name: "gtest".to_string(),
        flags: strings(&["-lgtest", "-lpthread"]),
    }])))
}

#[test]
fn question_correct_answer_unit_test() {
    let start = unit_test(Some("gtest")).run_with(
        &sources_submission(None),
        &dirs(),
        &gtest_config(),
        names(),
    );
    let (log, last, _) = drive(start, &mut |request: &Request| match request {
        Request::Compile { .. } => Report::Compiled { exit_code: 0, diagnostics: String::new() },
        Request::Run { .. } => output(0, "[  PASSED  ]\n", ""),
        Request::Remove { .. } => Report::Removed,
        _ => panic!("nothing is read"),
    });
    assert_eq!(
        log,
        vec![
            "compile g++ -o SUBMISSION -std=c++17 -lgtest -lpthread rendu/countdown/a.c questions/strlen/test.cpp",
            "run ./SUBMISSION []",
            "remove ./SUBMISSION",
            "finish",
        ]
    );
    match verdict(last) {
        Ok(TestResult::Passed) => (),
        _ => panic!("This test should have passed"),
    }
}

#[test]
fn question_incorrect_answer_unit_test() {
    let start = unit_test(None).run_with(&sources_submission(None), &dirs(), &config_with(None), names());
    let (_, last, _) = drive(start, &mut |request: &Request| match request {
        Request::Compile { .. } => Report::Compiled { exit_code: 0, diagnostics: String::new() },
        Request::Run { .. } => output(3, "[  FAILED  ]\n", "oops\n"),
        Request::Remove { .. } => Report::Removed,
        _ => panic!("nothing is read"),
    });
    match verdict(last) {
        Ok(TestResult::Passed) => panic!("This test should have failed"),
        Ok(TestResult::Failed(error)) => match error {
            TestError::FailedUnitTest(trace) => assert_eq!(
                trace.to_string(),
                "Unit Test failed. Output:\nExit Code: 3\nStdout: [  FAILED  ]\n\nStderr: oops\n\n"
            ),
            _ => panic!("This test should fail with unit test error"),
        },
        Err(_) => panic!("the grading fails"),
    }
}

#[test]
fn unit_test_needs_sources_and_a_known_framework() {
    let start = unit_test(None).run_with(&exec_submission(), &dirs(), &config_with(None), names());
    match start.1 {
        Request::Finish(Err(QuestionError::InvalidTestType(text))) => assert_eq!(
            text,
            "Unit test cannot be run with any submission type other than sources"
        ),
        _ => panic!("the submission is of the wrong kind"),
    }
    let start = unit_test(Some("catch2")).run_with(
        &sources_submission(None),
        &dirs(),
        &gtest_config(),
        names(),
    );
    match start.1 {
        Request::Abort(Defect::UnknownFramework(name)) => assert_eq!(name, "catch2"),
        _ => panic!("the framework is not known"),
    }
}

#[test]
fn a_report_that_does_not_answer_ends_the_grading() {
    let test = exec_test(vec![vec![]]);
    let start = test.run_with(&sources_submission(Some("gcc")), &dirs(), &config_with(None), names());
    let (grading, request) = start.0.step(Report::Compiled { exit_code: 0, diagnostics: String::new() });
    assert_eq!(describe(&request), "run questions/countdown/reference []");
    let (grading, request) = grading.step(Report::Removed);
    assert_eq!(describe(&request), "remove ./SUBMISSION");
    let (grading, request) = grading.step(Report::Removed);
    assert!(matches!(request, Request::Abort(Defect::Protocol)));
    let (grading, request) = grading.step(Report::Removed);
    assert!(matches!(request, Request::Abort(Defect::Protocol)));
    assert_eq!(grading.stage(), Stage::Done);
}

#[test]
fn drawn_names_are_ten_letters_or_digits() {
    let test = sources_test();
    let (_, request) = test.run(&sources_submission(Some("x")), &dirs(), &config_with(None));
    match request {
        Request::Compile { program, arguments } => {
            assert_eq!(program, "clang");
            assert_eq!(arguments[0], "-o");
            assert_eq!(arguments[1].chars().count(), 10);
            assert!(arguments[1].chars().all(|c| c.is_ascii_alphanumeric()));
            assert_eq!(&arguments[2..], &["-Wall".to_string(), "rendu/countdown/a.c".to_string()]);
        }
        _ => panic!("the submission is compiled first"),
    }
}
