//! An exam as its configuration file states it, before any checking.

use vstd::prelude::*;

verus! {

#[derive(Debug)]
pub struct Info {
    pub name: String,
    pub description: Option<String>,
    pub authors: Option<Vec<String>>,
}

#[derive(Debug)]
pub struct Time {
    pub hours: u32,
    pub minutes: u32,
    pub seconds: u32,
}

#[derive(Debug)]
pub struct Grades {
    pub pass: u32,
    pub max: u32,
}

/// One level. `kind` is what the file states under the key `type`.
#[derive(Debug)]
pub struct Level {
    pub kind: String,
    pub questions: Vec<String>,
    pub points: Vec<u32>,
}

#[derive(Debug)]
pub struct Exam {
    pub info: Info,
    pub time: Time,
    pub grades: Grades,
    pub levels: Vec<Level>,
}

} // verus!
