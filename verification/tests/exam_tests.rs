use examtrainer::config::toml as config_toml;
use examtrainer::config::Config;
use examtrainer::exam::error::LevelError;
use examtrainer::exam::level::{Level, LevelType};
use examtrainer::exam::toml;
use examtrainer::exam::{convert_time_to_duration, Exam, ExamDB, ExamError, Grades};
use examtrainer::question::test::{ExpectedFiles, TestError, TestResult};
use examtrainer::question::toml as question_toml;
use examtrainer::question::{DiskFacts, Question, QuestionDB, Trace};
use examtrainer::shell::exam::{exam_passed, Effect, Ending, Event, Session};
use examtrainer::shell::session::{Notice, Phase};
use examtrainer::shell::timer::{resolve, timer_step, TimerAction, TimerEvent, TimerState};
use examtrainer::user::attempt::Status;
use examtrainer::user::User;
use examtrainer::utils::ProgramOutput;
use examtrainer::Error;

fn strings(list: &[&str]) -> Vec<String> {
    list.iter().map(|s| s.to_string()).collect()
}

fn config() -> Config {
    let toml = config_toml::Config {
        directories: config_toml::Directories {
            submit_directory: "rendu".to_string(),
            question_directory: "questions".to_string(),
            exam_directory: "exams".to_string(),
            subject_directory: "subjects".to_string(),
            trace_directory: "traces".to_string(),
        },
        frameworks: None,
    };
    Config::new_internal(toml, &Vec::new()).unwrap()
}

fn question(config: &Config, name: &str) -> Question {
    let toml = question_toml::Question {
        info: question_toml::Info {
            name: name.to_string(),
            description: None,
            authors: None,
            difficulty: 1,
        },
        submission: question_toml::Submission {
            submission_type: "sources".to_string(),
            sources: Some(strings(&["answer.c"])),
            binary: None,
            compiler: Some("gcc".to_string()),
            flags: None,
        },
        test: question_toml::Test {
            test_type: "sources".to_string(),
            subject: "subject".to_string(),
            sources: Some(strings(&["main.c"])),
            compiler: Some("gcc".to_string()),
            flags: None,
            binary: None,
            args: Some(vec![Vec::new()]),
            expected_stdout: None,
            expected_stderr: None,
            framework: None,
        },
    };
    let facts = DiskFacts {
        subject_is_dir: true,
        files: ExpectedFiles { stdout_is_file: false, stderr_is_file: false },
    };
    Question::build_from_toml(config, toml, &format!("questions/{}", name), facts).unwrap()
}

fn database() -> QuestionDB {
    let config = config();
    let mut database = QuestionDB::new();
    for name in [
        "only_a",
        "only_z",
        "hello",
        "ft_countdown",
        "ft_print_numbers",
        "aff_a",
        "aff_first_param",
        "aff_last_param",
    ] {
        database.insert(question(&config, name)).unwrap();
    }
    database
}

fn level(kind: &str, questions: &[&str], points: &[u32]) -> toml::Level {
    toml::Level { kind: kind.to_string(), questions: strings(questions), points: points.to_vec() }
}

fn first_level() -> toml::Level {
    level(
        "random",
        &["only_a", "only_z", "hello", "ft_countdown", "ft_print_numbers"],
        &[16, 11, 7, 2, 0],
    )
}

fn exam_toml(levels: Vec<toml::Level>) -> toml::Exam {
    toml::Exam {
        info: toml::Info {
            name: "Exam_prototype".to_string(),
            description: None,
            authors: Some(strings(&["Ryan Lucas"])),
        },
        time: toml::Time { hours: 0, minutes: 20, seconds: 0 },
        grades: toml::Grades { pass: 50, max: 100 },
        levels,
    }
}

fn prototype() -> toml::Exam {
    exam_toml(vec![
        first_level(),
        level("random", &["aff_a", "aff_first_param", "aff_last_param"], &[16, 11, 7, 2, 0]),
    ])
}

#[test]
fn level_creation() -> Result<(), LevelError> {
    let question_database = database();
    let level = Level::build_from_toml(first_level(), &question_database)?;
    let user = User::new();
    for pick in 0..5 {
        assert_eq!(
            level.select_with(&user, pick),
            Some(["only_a", "only_z", "hello", "ft_countdown", "ft_print_numbers"][pick])
        );
    }
    assert_eq!(level.select_with(&user, 5), None);
    assert_eq!(level.get_points(&user), 16);
    assert!(matches!(LevelType::new("random".to_string()), Ok(LevelType::Random)));
    Ok(())
}

#[test]
fn levels_are_built_or_refused() {
    let database = database();
    match Level::build_from_toml(level("sorted", &["only_a"], &[1]), &database) {
        Err(LevelError::InvalidType(kind)) => assert_eq!(kind, "sorted"),
        _ => panic!("the kind is not known"),
    }
    assert!(matches!(
        Level::build_from_toml(level("random", &[], &[]), &database),
        Err(LevelError::NoQuestions)
    ));
    assert!(matches!(
        Level::build_from_toml(level("random_repeat", &["only_a"], &[]), &database),
        Err(LevelError::NoPoints)
    ));
    match Level::build_from_toml(level("random", &["only_a", "x", "y"], &[1]), &database) {
        Err(LevelError::MissingQuestion(name)) => assert_eq!(name, "x"),
        _ => panic!("the first unknown question is reported"),
    }
    assert!(matches!(LevelType::new("random_repeat".to_string()), Ok(LevelType::Repeat)));
    assert_eq!(LevelError::InvalidType("x".to_string()).to_string(), "Invalid level type: x");
    assert_eq!(
        LevelError::NoQuestions.to_string(),
        "Each level must have at least one question name"
    );
    assert_eq!(LevelError::NoPoints.to_string(), "Each level must have at least points value");
    assert_eq!(LevelError::MissingQuestion("q".to_string()).to_string(), "Question 'q' missing");
}

#[test]
fn points_follow_the_count_of_failed_tries() {
    let database = database();
    let level = Level::build_from_toml(level("random", &["only_a"], &[16, 11, 7]), &database).unwrap();
    let mut user = User::new();
    let mut seen = Vec::new();
    for _ in 0..5 {
        seen.push(level.get_points(&user));
        user.assign_question("only_a", 0).unwrap();
        user.grade(TestResult::Failed(TestError::Timeout)).unwrap();
    }
    assert_eq!(seen, vec![16, 11, 7, 7, 7]);
}

#[test]
fn passed_questions_are_not_given_again() {
    let database = database();
    let level =
        Level::build_from_toml(level("random", &["only_a", "only_z", "hello"], &[1]), &database).unwrap();
    let mut user = User::new();
    user.assign_question("only_z", 1).unwrap();
    user.grade(TestResult::Passed).unwrap();
    assert_eq!(level.select_with(&user, 0), Some("only_a"));
    assert_eq!(level.select_with(&user, 1), Some("hello"));
    assert_eq!(level.select_with(&user, 2), None);
    for _ in 0..20 {
        let drawn = level.select_question(&user).unwrap();
        assert!(drawn == "only_a" || drawn == "hello");
        assert!(level.draw(&user) < 2);
    }
    user.assign_question("only_a", 1).unwrap();
    user.grade(TestResult::Passed).unwrap();
    user.assign_question("hello", 1).unwrap();
    user.grade(TestResult::Passed).unwrap();
    assert_eq!(level.select_question(&user), None);
    assert_eq!(level.draw(&user), 0);
}

#[test]
fn a_repeating_level_gives_the_failed_question_again() {
    let database = database();
    let repeat =
        Level::build_from_toml(level("random_repeat", &["only_a", "only_z"], &[1]), &database).unwrap();
    let mut user = User::new();
    assert_eq!(repeat.select_with(&user, 1), Some("only_z"));
    user.assign_question("only_z", 1).unwrap();
    user.grade(TestResult::Failed(TestError::Timeout)).unwrap();
    assert_eq!(repeat.select_with(&user, 0), Some("only_z"));
    assert_eq!(repeat.select_question(&user), Some("only_z"));
    user.assign_question("only_z", 1).unwrap();
    user.grade(TestResult::Passed).unwrap();
    assert_eq!(repeat.select_with(&user, 0), Some("only_a"));
    user.assign_question("hello", 1).unwrap();
    user.grade(TestResult::Failed(TestError::Timeout)).unwrap();
    assert_eq!(repeat.select_with(&user, 0), None);
}

#[test]
fn exam_creation() -> Result<(), Error> {
    let question_database = database();
    let exam = Exam::build_from_toml(prototype(), &question_database).map_err(Error::from_exam)?;
    assert_eq!(exam.name(), "Exam_prototype");
    assert_eq!((exam.pass_grade(), exam.max_grade()), (50, 100));
    assert_eq!(exam.duration(), 1200);
    assert_eq!(exam.levels(), 2);
    Ok(())
}

#[test]
fn create_invalid_exam() -> Result<(), Error> {
    let question_database = database();
    let toml = exam_toml(vec![
        level(
            "random",
            &["only_a", "nonexistent_question", "hello", "ft_countdown", "ft_print_numbers"],
            &[16, 11, 7, 2, 0],
        ),
        level("random", &["aff_a", "aff_first_param", "aff_last_param"], &[16, 11, 7, 2, 0]),
    ]);
    let exam_result = Exam::build_from_toml(toml, &question_database);
    assert!(exam_result.is_err());
    let error = exam_result.unwrap_err();
    assert!(matches!(error, ExamError::InvalidLevel(0, _)));
    match error {
        ExamError::InvalidLevel(n, e) => {
            assert_eq!(n, 0);
            match e {
                LevelError::MissingQuestion(question) => {
                    assert_eq!(question, "nonexistent_question".to_string())
                }
                _ => panic!("Incorrect error type for test"),
            }
        }
        _ => panic!("Incorrect error type for test"),
    }
    Ok(())
}

#[test]
fn exams_are_refused_in_order() {
    let database = database();
    let mut toml = prototype();
    toml.grades = toml::Grades { pass: 101, max: 100 };
    toml.time = toml::Time { hours: 0, minutes: 60, seconds: 0 };
    toml.levels = Vec::new();
    assert!(matches!(Exam::build_from_toml(toml, &database), Err(ExamError::InvalidGrade)));
    let mut toml = prototype();
    toml.time = toml::Time { hours: 0, minutes: 0, seconds: 60 };
    toml.levels = Vec::new();
    assert!(matches!(Exam::build_from_toml(toml, &database), Err(ExamError::InvalidTime)));
    let mut toml = prototype();
    toml.levels = Vec::new();
    assert!(matches!(Exam::build_from_toml(toml, &database), Err(ExamError::NoLevels)));
    let toml = exam_toml(vec![first_level(), first_level(), level("random", &["only_a"], &[])]);
    match Exam::build_from_toml(toml, &database) {
        Err(error) => {
            assert!(matches!(error, ExamError::InvalidLevel(2, LevelError::NoPoints)));
            assert_eq!(
                error.to_string(),
                "Level 2 error: Each level must have at least points value"
            );
            assert_eq!(
                Error::from_exam(error).to_string(),
                "Exam Error: Level 2 error: Each level must have at least points value"
            );
        }
        Ok(_) => panic!("the third level has no points"),
    }
    assert_eq!(ExamError::InvalidTime.to_string(), "Invalid time value");
    assert_eq!(ExamError::InvalidGrade.to_string(), "Invalid grades value");
    assert_eq!(ExamError::NoLevels.to_string(), "An exam must have at least one level");
    assert_eq!(ExamError::NotToml.to_string(), "File in exam directory is not a toml file");
    assert_eq!(
        ExamError::InvalidExamFile("x".to_string()).to_string(),
        "Error parsing exam: x"
    );
    assert!(matches!(Error::from_exam(ExamError::IO("x".to_string())), Error::IO(_)));
}

#[test]
fn times_and_grades() {
    assert_eq!(
        convert_time_to_duration(toml::Time { hours: 1, minutes: 1, seconds: 1 }).unwrap(),
        3661
    );
    assert_eq!(
        convert_time_to_duration(toml::Time { hours: u32::MAX, minutes: 59, seconds: 59 }).unwrap(),
        4294967295 * 3600 + 59 * 60 + 59
    );
    assert!(convert_time_to_duration(toml::Time { hours: 0, minutes: 60, seconds: 0 }).is_err());
    let grades = Grades::new_from_toml(toml::Grades { pass: 50, max: 50 }).unwrap();
    assert_eq!((grades.pass(), grades.max()), (50, 50));
    assert!(Grades::new_from_toml(toml::Grades { pass: 51, max: 50 }).is_err());
    assert!(Exam::accepts_file(false, Some("toml")).is_ok());
    assert!(matches!(Exam::accepts_file(true, Some("toml")), Err(ExamError::NotToml)));
    assert!(matches!(Exam::accepts_file(false, Some("txt")), Err(ExamError::NotToml)));
    assert!(matches!(Exam::accepts_file(false, None), Err(ExamError::NotToml)));
}

#[test]
fn get_exam_by_name() -> Result<(), Error> {
    let question_database = database();
    let mut exam_database = ExamDB::new();
    let exam = Exam::build_from_toml(prototype(), &question_database).map_err(Error::from_exam)?;
    assert!(exam_database.insert(exam));
    let again = Exam::build_from_toml(exam_toml(vec![first_level()]), &question_database)
        .map_err(Error::from_exam)?;
    assert!(!exam_database.insert(again));
    let exam = exam_database.get_exam_by_name("Exam_prototype");
    assert!(exam.is_some());
    let exam = exam.unwrap();
    assert_eq!(exam.name(), "Exam_prototype");
    assert_eq!((exam.pass_grade(), exam.max_grade()), (50, 100));
    assert_eq!(exam.duration(), 1200);
    assert_eq!(exam.levels(), 2);
    assert!(exam_database.get_exam_by_name("Exam").is_none());
    assert_eq!(exam_database.len(), 1);
    assert!(exam_database.get(0).is_some() && exam_database.get(1).is_none());
    Ok(())
}

fn small_exam(database: &QuestionDB, max: u32) -> Exam {
    let mut toml = exam_toml(vec![
        level("random", &["only_a", "only_z"], &[16, 11]),
        level("random_repeat", &["aff_a"], &[30]),
    ]);
    toml.grades = toml::Grades { pass: 20, max };
    Exam::build_from_toml(toml, database).unwrap()
}

fn shown(effects: &[Effect]) -> Vec<String> {
    effects
        .iter()
        .map(|effect| match effect {
            Effect::Show(notice) => format!("{:?}", notice),
            Effect::Unrecognised(input) => format!("Unrecognised({})", input),
            Effect::AskTrace(path) => format!("AskTrace({})", path),
            Effect::Prepare(name) => format!("Prepare({})", name),
            Effect::Remove(name) => format!("Remove({})", name),
            Effect::Grade(name) => format!("Grade({})", name),
            Effect::WriteTrace { path, text } => format!("WriteTrace({}, {})", path, text),
            Effect::StartTimer => "StartTimer".to_string(),
            Effect::StopTimer => "StopTimer".to_string(),
            Effect::ClearScreen => "ClearScreen".to_string(),
        })
        .collect()
}

struct Sitting {
    config: Config,
    database: QuestionDB,
    exam: Exam,
    user: User,
    session: Option<Session>,
}

impl Sitting {
    fn begin(max: u32, pick: usize) -> (Sitting, Vec<String>) {
        let config = config();
        let database = database();
        let exam = small_exam(&database, max);
        let mut user = User::new();
        let (session, effects) = Session::begin_with(&mut user, &exam, &database, pick);
        (Sitting { config, database, exam, user, session: Some(session) }, shown(&effects))
    }

    fn step(&mut self, event: Event, pick: usize) -> Vec<String> {
        let session = self.session.take().unwrap();
        let (session, effects) =
            session.step_with(&mut self.user, &self.exam, &self.database, &self.config, event, pick);
        self.session = Some(session);
        shown(&effects)
    }

    fn line(&mut self, text: &str) -> Vec<String> {
        self.step(Event::Line(text.to_string()), 0)
    }

    fn phase(&self) -> Phase {
        self.session.as_ref().unwrap().phase()
    }
}

#[test]
fn a_session_from_start_to_completion() {
    let (mut sitting, effects) = Sitting::begin(40, 1);
    assert_eq!(effects, vec!["Prepare(only_z)", "Intro", "PressEnter"]);
    assert_eq!(sitting.phase(), Phase::AwaitEnter);
    assert_eq!(sitting.user.current_question_name(), Some("only_z"));
    assert_eq!(sitting.user.get_last_assignment().unwrap().points(), 16);

    assert_eq!(sitting.line("grademe"), Vec::<String>::new());
    assert_eq!(
        sitting.step(Event::Enter, 0),
        vec!["StartTimer", "Status", "YouCanStart", "Prompt"]
    );
    assert_eq!(sitting.line("status"), vec!["Status", "Prompt"]);
    assert_eq!(sitting.line("clear"), vec!["ClearScreen", "Prompt"]);
    assert_eq!(sitting.line("help"), vec!["Help", "Prompt"]);
    assert_eq!(sitting.line("gradme"), vec!["Unrecognised(gradme)", "Prompt"]);
    assert_eq!(sitting.phase(), Phase::AwaitCommand);

    assert_eq!(sitting.line("grademe"), vec!["AskSubmit"]);
    assert_eq!(sitting.line("n"), vec!["Status", "Prompt"]);
    assert_eq!(sitting.user.history().len(), 1);
    assert_eq!(sitting.line("grademe"), vec!["AskSubmit"]);
    assert_eq!(sitting.line("yes"), vec!["Grade(only_z)"]);
    assert_eq!(sitting.phase(), Phase::AwaitVerdict);
    assert_eq!(sitting.line("status"), Vec::<String>::new());

    let mut trace = Trace::new();
    trace.unit_test_output(ProgramOutput::from_strings(1, String::new(), String::new()));
    let failed = Event::Graded {
        result: TestResult::Failed(TestError::FailedUnitTest(trace)),
        stamp: "07:05:00-3_11_2021".to_string(),
    };
    assert_eq!(
        sitting.step(failed, 0),
        vec!["Failure", "AskTrace(traces/07:05:00-3_11_2021-only_z)"]
    );
    assert_eq!((sitting.user.level(), sitting.user.attempt(), sitting.user.points()), (0, 1, 0));
    assert_eq!(
        sitting.step(Event::Line("y".to_string()), 0),
        vec![
            "WriteTrace(traces/07:05:00-3_11_2021-only_z, Unit test failed, Trace: Unit Test failed. Output:\nExit Code: 1\nStdout: \nStderr: \n)",
            "Prepare(only_a)",
            "Status",
            "Prompt",
        ]
    );
    assert_eq!(sitting.user.get_last_assignment().unwrap().points(), 11);
    assert_eq!(sitting.user.get_last_assignment().unwrap().attempt(), 1);

    assert_eq!(sitting.line("grademe"), vec!["AskSubmit"]);
    assert_eq!(sitting.line("Y"), vec!["Grade(only_a)"]);
    let passed = Event::Graded { result: TestResult::Passed, stamp: "s".to_string() };
    assert_eq!(sitting.step(passed, 0), vec!["Success", "PressEnter"]);
    assert_eq!((sitting.user.level(), sitting.user.attempt(), sitting.user.points()), (1, 0, 11));
    assert_eq!(sitting.step(Event::Enter, 0), vec!["Prepare(aff_a)", "Status", "Prompt"]);
    assert_eq!(sitting.user.get_last_assignment().unwrap().level(), 1);

    assert_eq!(sitting.line("grademe"), vec!["AskSubmit"]);
    assert_eq!(sitting.line("y"), vec!["Grade(aff_a)"]);
    let passed = Event::Graded { result: TestResult::Passed, stamp: "s".to_string() };
    assert_eq!(sitting.step(passed, 0), vec!["Success", "PressEnter"]);
    assert_eq!(sitting.user.points(), 41);
    assert_eq!(sitting.step(Event::Enter, 0), vec!["StopTimer"]);
    assert_eq!(sitting.phase(), Phase::Over);
    assert!(matches!(sitting.session.as_ref().unwrap().ending(), Some(Ending::Completed)));
    assert_eq!(sitting.user.points(), 40);
    assert!(exam_passed(&sitting.user, &sitting.exam));
    let statuses: Vec<Status> =
        (0..3).map(|i| sitting.user.history().get(i).unwrap().status()).collect();
    assert_eq!(statuses, vec![Status::Failed, Status::Passed, Status::Passed]);
}

#[test]
fn scenario_deadline_releases_the_loop() {
    let (mut sitting, _) = Sitting::begin(100, 0);
    sitting.step(Event::Enter, 0);
    assert_eq!(sitting.phase(), Phase::AwaitCommand);
    assert_eq!(sitting.step(Event::Deadline, 0), vec!["Timeout", "StopTimer"]);
    assert_eq!(sitting.phase(), Phase::Over);
    assert!(sitting.session.as_ref().unwrap().is_over());
    assert!(matches!(sitting.session.as_ref().unwrap().ending(), Some(Ending::TimedOut)));
    assert_eq!(sitting.line("grademe"), Vec::<String>::new());
    assert_eq!(sitting.line("y"), Vec::<String>::new());
    let late = Event::Graded { result: TestResult::Passed, stamp: "s".to_string() };
    assert_eq!(sitting.step(late, 0), Vec::<String>::new());
    assert_eq!(sitting.phase(), Phase::Over);
    assert_eq!((sitting.user.level(), sitting.user.points()), (0, 0));
    assert_eq!(sitting.user.get_last_assignment().unwrap().status(), Status::Current);
    assert!(!exam_passed(&sitting.user, &sitting.exam));
}

#[test]
fn the_deadline_ends_every_phase() {
    let (mut sitting, _) = Sitting::begin(100, 0);
    assert_eq!(sitting.step(Event::Deadline, 0), vec!["Timeout", "StopTimer"]);

    let (mut sitting, _) = Sitting::begin(100, 0);
    sitting.step(Event::Enter, 0);
    sitting.line("grademe");
    assert_eq!(sitting.phase(), Phase::ConfirmGrade);
    assert_eq!(sitting.step(Event::Deadline, 0), vec!["Timeout", "StopTimer"]);

    let (mut sitting, _) = Sitting::begin(100, 0);
    sitting.step(Event::Enter, 0);
    sitting.line("grademe");
    sitting.line("y");
    assert_eq!(sitting.phase(), Phase::AwaitVerdict);
    assert_eq!(sitting.step(Event::Deadline, 0), vec!["Timeout", "StopTimer"]);
    assert_eq!(sitting.user.get_last_assignment().unwrap().status(), Status::Current);

    let (mut sitting, _) = Sitting::begin(100, 0);
    sitting.step(Event::Enter, 0);
    sitting.line("quit");
    assert_eq!(sitting.phase(), Phase::ConfirmExit);
    assert_eq!(sitting.step(Event::Deadline, 0), vec!["Timeout", "StopTimer"]);
}

#[test]
fn leaving_and_running_out_of_questions() {
    let (mut sitting, _) = Sitting::begin(100, 0);
    sitting.step(Event::Enter, 0);
    assert_eq!(sitting.line("exit"), vec!["AskExit"]);
    assert_eq!(sitting.line("no"), vec!["Prompt"]);
    assert_eq!(sitting.phase(), Phase::AwaitCommand);
    assert_eq!(sitting.line("quit"), vec!["AskExit"]);
    assert_eq!(sitting.line("yes"), vec!["StopTimer"]);
    assert!(matches!(sitting.session.as_ref().unwrap().ending(), Some(Ending::Exited)));

    let (mut sitting, _) = Sitting::begin(100, 0);
    sitting.step(Event::Enter, 0);
    for question in ["only_a", "aff_a"] {
        assert_eq!(sitting.line("grademe"), vec!["AskSubmit"]);
        assert_eq!(sitting.line("y"), vec![format!("Grade({})", question)]);
        let passed = Event::Graded { result: TestResult::Passed, stamp: "s".to_string() };
        sitting.step(passed, 0);
        if question == "only_a" {
            assert_eq!(sitting.step(Event::Enter, 0), vec!["Prepare(aff_a)", "Status", "Prompt"]);
        }
    }
    assert_eq!(sitting.step(Event::Enter, 0), vec!["NoMoreQuestions", "StopTimer"]);
    assert!(matches!(sitting.session.as_ref().unwrap().ending(), Some(Ending::NoMoreQuestions)));
    assert_eq!(sitting.user.points(), 46);

    let (mut sitting, effects) = Sitting::begin(100, 7);
    assert_eq!(effects, vec!["NoMoreQuestions", "StopTimer"]);
    assert_eq!(sitting.phase(), Phase::Over);
    assert_eq!(sitting.step(Event::Enter, 0), Vec::<String>::new());
}

#[test]
fn a_trace_that_is_not_wanted_is_not_written() {
    let (mut sitting, _) = Sitting::begin(100, 0);
    sitting.step(Event::Enter, 0);
    sitting.line("grademe");
    sitting.line("y");
    let failed = Event::Graded {
        result: TestResult::Failed(TestError::Timeout),
        stamp: "t".to_string(),
    };
    assert_eq!(sitting.step(failed, 0), vec!["Failure", "AskTrace(traces/t-only_a)"]);
    assert_eq!(sitting.phase(), Phase::ConfirmTrace);
    assert_eq!(
        sitting.step(Event::Line("n".to_string()), 1),
        vec!["Prepare(only_z)", "Status", "Prompt"]
    );
    assert_eq!(sitting.phase(), Phase::AwaitCommand);
}

#[test]
fn a_drawn_question_is_one_that_is_left() {
    let database = database();
    let exam = small_exam(&database, 100);
    let mut user = User::new();
    user.assign_question("only_a", 16).unwrap();
    user.grade(TestResult::Passed).unwrap();
    for _ in 0..20 {
        assert_eq!(exam.select_question(&user), Some("aff_a"));
        assert_eq!(exam.draw(&user), 0);
    }
    let fresh = User::new();
    for _ in 0..20 {
        let name = exam.select_question(&fresh).unwrap();
        assert!(name == "only_a" || name == "only_z");
        assert!(exam.draw(&fresh) < 2);
    }
}

#[test]
fn drawn_sessions_begin_with_a_question_of_the_first_level() {
    let config = config();
    let database = database();
    let exam = small_exam(&database, 100);
    for _ in 0..10 {
        let mut user = User::new();
        let (session, effects) = Session::begin(&mut user, &exam, &database);
        assert_eq!(session.phase(), Phase::AwaitEnter);
        let name = user.current_question_name().unwrap().to_string();
        assert!(name == "only_a" || name == "only_z");
        assert_eq!(shown(&effects)[0], format!("Prepare({})", name));
        let (session, effects) = session.step(&mut user, &exam, &database, &config, Event::Enter);
        assert_eq!(session.phase(), Phase::AwaitCommand);
        assert!(matches!(effects[0], Effect::StartTimer));
        assert!(matches!(effects[3], Effect::Show(Notice::Prompt)));
    }
}

#[test]
fn the_timer_counts_once_and_completion_wins() {
    assert_eq!(
        timer_step(TimerState::WaitingStart, TimerEvent::Started, 1200),
        (TimerState::Counting, TimerAction::Count(1200))
    );
    assert_eq!(
        timer_step(TimerState::WaitingStart, TimerEvent::Finished, 1200),
        (TimerState::Done, TimerAction::Rest)
    );
    assert_eq!(
        timer_step(TimerState::WaitingStart, TimerEvent::Elapsed, 1200),
        (TimerState::WaitingStart, TimerAction::Wait)
    );
    assert_eq!(
        timer_step(TimerState::Counting, TimerEvent::Elapsed, 1200),
        (TimerState::Done, TimerAction::SendDeadline)
    );
    assert_eq!(
        timer_step(TimerState::Counting, TimerEvent::Finished, 1200),
        (TimerState::Done, TimerAction::Rest)
    );
    assert_eq!(
        timer_step(TimerState::Counting, TimerEvent::Started, 1200),
        (TimerState::Counting, TimerAction::Wait)
    );
    for event in [TimerEvent::Started, TimerEvent::Finished, TimerEvent::Elapsed] {
        assert_eq!(timer_step(TimerState::Done, event, 5), (TimerState::Done, TimerAction::Rest));
    }
    assert_eq!(resolve(true, true), Some(TimerEvent::Finished));
    assert_eq!(resolve(true, false), Some(TimerEvent::Finished));
    assert_eq!(resolve(false, true), Some(TimerEvent::Elapsed));
    assert_eq!(resolve(false, false), None);
}

fn practice_line(session: Session, user: &mut User, text: &str) -> (Session, Vec<String>) {
    let (session, effects) =
        session.step_practice(user, "hello", &config(), Event::Line(text.to_string()));
    (session, shown(&effects))
}

#[test]
fn a_practice_until_the_question_passes() {
    let config = config();
    let mut user = User::new();
    let (session, effects) = Session::begin_practice(&mut user, "hello");
    assert_eq!(shown(&effects), vec!["Prepare(hello)", "Intro", "PressEnter"]);
    assert_eq!(user.get_last_assignment().unwrap().points(), 1);
    let (session, effects) = session.step_practice(&mut user, "hello", &config, Event::Deadline);
    assert!(effects.is_empty());
    assert_eq!(session.phase(), Phase::AwaitEnter);
    let (session, effects) = session.step_practice(&mut user, "hello", &config, Event::Enter);
    assert_eq!(shown(&effects), vec!["Status", "Prompt"]);
    let (session, effects) = practice_line(session, &mut user, "grademe");
    assert_eq!(effects, vec!["AskSubmit"]);
    let (session, effects) = practice_line(session, &mut user, "no");
    assert_eq!(effects, vec!["Prompt"]);
    assert_eq!(user.history().len(), 1);
    let (session, _) = practice_line(session, &mut user, "grademe");
    let (session, effects) = practice_line(session, &mut user, "y");
    assert_eq!(effects, vec!["Grade(hello)"]);
    let failed = Event::Graded {
        result: TestResult::Failed(TestError::DoesNotCompile("no".to_string())),
        stamp: "t".to_string(),
    };
    let (session, effects) = session.step_practice(&mut user, "hello", &config, failed);
    assert_eq!(shown(&effects), vec!["Failure", "AskTrace(traces/t-hello)"]);
    let (session, effects) = practice_line(session, &mut user, "y");
    assert_eq!(effects, vec!["WriteTrace(traces/t-hello, Compilation error: no)", "Prompt"]);
    assert_eq!(user.history().len(), 2);
    assert_eq!(user.get_last_assignment().unwrap().attempt(), 1);
    assert_eq!(user.get_last_assignment().unwrap().points(), 1);
    let (session, _) = practice_line(session, &mut user, "grademe");
    let (session, _) = practice_line(session, &mut user, "y");
    let passed = Event::Graded { result: TestResult::Passed, stamp: "t".to_string() };
    let (session, effects) = session.step_practice(&mut user, "hello", &config, passed);
    assert_eq!(shown(&effects), vec!["Success", "PressEnter"]);
    let (session, effects) = session.step_practice(&mut user, "hello", &config, Event::Enter);
    assert!(effects.is_empty());
    assert!(session.is_over());
    assert!(matches!(session.ending(), Some(Ending::Passed)));
    assert_eq!((user.level(), user.points()), (1, 1));
    let (session, effects) = practice_line(session, &mut user, "grademe");
    assert!(effects.is_empty() && session.is_over());
}

#[test]
fn leaving_a_practice() {
    let config = config();
    for (answer, expected) in [("y", vec!["Remove(hello)"]), ("n", Vec::new())] {
        let mut user = User::new();
        let (session, _) = Session::begin_practice(&mut user, "hello");
        let (session, _) = session.step_practice(&mut user, "hello", &config, Event::Enter);
        let (session, effects) = practice_line(session, &mut user, "exit");
        assert_eq!(effects, vec!["AskExit"]);
        let (session, effects) = practice_line(session, &mut user, "n");
        assert_eq!(effects, vec!["Prompt"]);
        let (session, _) = practice_line(session, &mut user, "quit");
        let (session, effects) = practice_line(session, &mut user, "yes");
        assert_eq!(effects, vec!["AskDelete"]);
        assert_eq!(session.phase(), Phase::ConfirmDelete);
        let (session, effects) = practice_line(session, &mut user, answer);
        assert_eq!(effects, expected);
        assert!(matches!(session.ending(), Some(Ending::Exited)));
    }
}

#[test]
fn the_record_as_text() {
    let mut user = User::new();
    assert_eq!(user.history().to_string(), "");
    user.assign_question("only_a", 16).unwrap();
    assert_eq!(
        user.history().to_string(),
        "Assignments: \n  Level 0\n    0: only_a for 16 potential points (Current)\n"
    );
    user.grade(TestResult::Failed(TestError::Timeout)).unwrap();
    user.assign_question("only_z", 11).unwrap();
    user.grade(TestResult::Passed).unwrap();
    user.assign_question("aff_a", 16).unwrap();
    assert_eq!(
        user.history().to_string(),
        format!(
            "{}{}{}{}{}{}",
            "Assignments: \n",
            "  Level 1\n",
            "    0: aff_a for 16 potential points (Current)\n",
            "  Level 0\n",
            "    1: only_z for 11 potential points (Passed)\n",
            "    0: only_a for 16 potential points (Failed)\n",
        )
    );
    assert_eq!(user.get_last_assignment().unwrap().to_string(), "0: aff_a for 16 potential points (Current)");
    assert_eq!(Status::Failed.to_string(), "Failed");
}
