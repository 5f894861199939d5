//! A question as its configuration file states it, before any checking: the
//! plain values from which the question, its test and its submission are
//! built.

use vstd::prelude::*;

verus! {

#[derive(Debug)]
pub struct Info {
    pub name: String,
    pub description: Option<String>,
    pub authors: Option<Vec<String>>,
    pub difficulty: u32,
}

#[derive(Debug)]
pub struct Submission {
    pub submission_type: String,
    pub sources: Option<Vec<String>>,
    pub binary: Option<String>,
    pub compiler: Option<String>,
    pub flags: Option<Vec<String>>,
}

#[derive(Debug)]
pub struct Test {
    pub test_type: String,
    pub subject: String,
    pub sources: Option<Vec<String>>,
    pub compiler: Option<String>,
    pub flags: Option<Vec<String>>,
    pub binary: Option<String>,
    pub args: Option<Vec<Vec<String>>>,
    pub expected_stdout: Option<String>,
    pub expected_stderr: Option<String>,
    pub framework: Option<String>,
}

#[derive(Debug)]
pub struct Question {
    pub info: Info,
    pub submission: Submission,
    pub test: Test,
}

} // verus!
