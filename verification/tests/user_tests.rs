use examtrainer::question::test::{TestError, TestResult};
use examtrainer::user::attempt::{AttemptBuilder, Status};
use examtrainer::user::{History, User};
use examtrainer::Error;

#[test]
fn attempt() -> Result<(), Error> {
    let attempt = AttemptBuilder::new()
        .name("hello_world".to_string())
        .level(0)
        .attempt(0)
        .points(16)
        .build()?;
    assert_eq!(attempt.question_name(), "hello_world");
    assert_eq!(attempt.level(), 0);
    assert_eq!(attempt.attempt(), 0);
    assert_eq!(attempt.points(), 16);
    assert!(matches!(attempt.status(), Status::Current));
    Ok(())
}

#[test]
fn attempt_display() -> Result<(), Error> {
    let attempt = AttemptBuilder::new()
        .name("hello_world".to_string())
        .level(0)
        .attempt(0)
        .points(16)
        .build()?;
    println!("{:?}", attempt);
    Ok(())
}

#[test]
fn incomplete_attempt_is_not_built() {
    let result = AttemptBuilder::new().name("hello_world".to_string()).level(0).points(16).build();
    match result {
        Err(Error::General(message)) => {
            assert_eq!(message, "build called on incomplete AttemptBuilder")
        }
        _ => panic!("a piece is missing"),
    }
    assert!(AttemptBuilder::new().build().is_err());
}

#[test]
fn settled_status_stays() {
    let mut passed = AttemptBuilder::new()
        .name("q".to_string())
        .level(2)
        .attempt(1)
        .points(7)
        .build()
        .unwrap();
    assert_eq!(passed.pass(), 7);
    assert_eq!(passed.status(), Status::Passed);
    passed.fail();
    assert_eq!(passed.status(), Status::Passed);
    assert_eq!(passed.pass(), 7);
    assert_eq!(passed.status(), Status::Passed);
    assert!(passed.is_passed() && !passed.is_failed());

    let mut failed = AttemptBuilder::new()
        .name("q".to_string())
        .level(2)
        .attempt(1)
        .points(7)
        .build()
        .unwrap();
    failed.fail();
    assert_eq!(failed.status(), Status::Failed);
    failed.pass();
    failed.fail();
    assert_eq!(failed.status(), Status::Failed);
    assert_eq!((failed.level(), failed.attempt(), failed.points()), (2, 1, 7));
    assert_eq!(failed.question_name(), "q");
}

#[test]
fn user_creation() -> Result<(), Error> {
    let user = User::new();

    assert_eq!(user.history().len(), 0);
    assert_eq!(user.points(), 0);
    assert_eq!(user.level(), 0);
    assert_eq!(user.attempt(), 0);
    assert!(user.get_last_assignment().is_none());
    assert_eq!(User::default().points(), 0);
    Ok(())
}

#[test]
fn user_question_assign() -> Result<(), Error> {
    let mut user = User::new();

    assert_eq!(user.current_question_name(), None);
    user.assign_question("hello_world", 16)?;
    assert_eq!(user.current_question_name(), Some("hello_world"));

    let assignment = user.get_last_assignment();
    assert!(assignment.is_some());
    let assignment = assignment.unwrap();
    assert_eq!(assignment.question_name(), "hello_world");
    assert_eq!(assignment.level(), 0);
    assert_eq!(assignment.attempt(), 0);
    assert_eq!(assignment.points(), 16);
    assert!(matches!(assignment.status(), Status::Current));
    Ok(())
}

#[test]
fn user_grade_correct_answer() -> Result<(), Error> {
    let mut user = User::new();
    user.assign_question("aff_a", 16)?;

    assert_eq!(user.points(), 0);
    assert_eq!(user.level(), 0);

    let test_result = user.grade(TestResult::Passed)?;
    match test_result {
        TestResult::Passed => (),
        TestResult::Failed(_) => panic!("This test should have passed"),
    }

    assert_eq!(user.points(), 16);
    assert_eq!(user.level(), 1);

    let assignment = user.get_last_assignment();
    assert!(assignment.is_some());
    let assignment = assignment.unwrap();
    assert!(matches!(assignment.status(), Status::Passed));
    Ok(())
}

#[test]
fn history_display() -> Result<(), Error> {
    let mut user = User::new();

    println!("{:?}", user.history());
    user.assign_question("aff_a", 16)?;
    println!("{:?}", user.history());
    user.grade(TestResult::Passed)?;
    println!("{:?}", user.history());

    user.assign_question("hello_world", 10)?;
    println!("{:?}", user.history());
    user.grade(TestResult::Failed(TestError::Timeout))?;
    assert_eq!(user.history().len(), 2);
    Ok(())
}

#[test]
fn grading_transition() {
    let mut user = User::new();
    user.assign_question("one", 5).unwrap();
    user.grade(TestResult::Failed(TestError::Timeout)).unwrap();
    assert_eq!((user.level(), user.attempt(), user.points()), (0, 1, 0));
    assert_eq!(user.current_question_name(), None);
    user.assign_question("one", 3).unwrap();
    user.grade(TestResult::Failed(TestError::DoesNotCompile("no".to_string()))).unwrap();
    assert_eq!((user.level(), user.attempt(), user.points()), (0, 2, 0));
    user.assign_question("one", 2).unwrap();
    assert_eq!(user.get_last_assignment().unwrap().attempt(), 2);
    assert!(user.can_grade(&TestResult::Passed));
    user.grade(TestResult::Passed).unwrap();
    assert_eq!((user.level(), user.attempt(), user.points()), (1, 0, 2));
    user.assign_question("two", 40).unwrap();
    assert_eq!(user.get_last_assignment().unwrap().level(), 1);
    user.grade(TestResult::Passed).unwrap();
    assert_eq!((user.level(), user.attempt(), user.points()), (2, 0, 42));

    let history = user.history();
    assert_eq!(history.len(), 4);
    let statuses: Vec<Status> = (0..4).map(|i| history.get(i).unwrap().status()).collect();
    assert_eq!(statuses, vec![Status::Failed, Status::Failed, Status::Passed, Status::Passed]);
    let points: Vec<u32> = (0..4).map(|i| history.get(i).unwrap().points()).collect();
    assert_eq!(points, vec![5, 3, 2, 40]);
    assert!(history.get(4).is_none());
    assert!(user.has_passed_question("one"));
    assert!(user.has_passed_question("two"));
    assert!(!user.has_passed_question("three"));
}

#[test]
fn grade_needs_an_assigned_question() {
    let mut user = User::new();
    match user.grade(TestResult::Passed) {
        Err(Error::General(message)) => {
            assert_eq!(message, "grade called on User with no assigned question!")
        }
        _ => panic!("no question is assigned"),
    }
    assert_eq!((user.level(), user.attempt(), user.points()), (0, 0, 0));
    user.assign_question("one", 5).unwrap();
    user.grade(TestResult::Passed).unwrap();
    assert!(user.grade(TestResult::Passed).is_err());
    assert_eq!((user.level(), user.attempt(), user.points()), (1, 0, 5));
    assert_eq!(user.get_last_assignment().unwrap().status(), Status::Passed);
}

#[test]
fn nothing_is_assigned_while_a_question_waits() {
    let mut user = User::new();
    user.assign_question("one", 5).unwrap();
    match user.assign_question("two", 9) {
        Err(Error::General(message)) => {
            assert_eq!(message, "assign_question called on User with a question assigned")
        }
        _ => panic!("a question waits to be graded"),
    }
    assert_eq!(user.history().len(), 1);
    assert_eq!(user.current_question_name(), Some("one"));
}

#[test]
fn failed_question_is_not_passed() {
    let mut history = History::new();
    let mut failed = AttemptBuilder::new()
        .name("one".to_string())
        .level(0)
        .attempt(0)
        .points(1)
        .build()
        .unwrap();
    failed.fail();
    history.push(failed);
    let open = AttemptBuilder::new()
        .name("two".to_string())
        .level(0)
        .attempt(1)
        .points(1)
        .build()
        .unwrap();
    history.push(open);
    assert!(!history.has_passed_question("one"));
    assert!(!history.has_passed_question("two"));
    assert_eq!(history.last().unwrap().question_name(), "two");
    assert_eq!(history.len(), 2);
}

#[test]
fn counters_at_their_limit_cannot_be_graded() {
    let mut user = User::new();
    user.assign_question("big", u32::MAX).unwrap();
    user.grade(TestResult::Passed).unwrap();
    assert_eq!(user.points(), u32::MAX);
    user.assign_question("more", 1).unwrap();
    assert!(!user.can_grade(&TestResult::Passed));
    assert!(user.can_grade(&TestResult::Failed(TestError::Timeout)));
}
