//! The configuration as its file states it, before any checking.

use vstd::prelude::*;

verus! {

/// The flags that link one test framework.
#[derive(Debug)]
pub struct Framework {
    pub name: String,
    pub flags: Vec<String>,
}

#[derive(Debug)]
pub struct Frameworks(pub Vec<Framework>);

#[derive(Debug)]
pub struct Directories {
    pub submit_directory: String,
    pub question_directory: String,
    pub exam_directory: String,
    pub subject_directory: String,
    pub trace_directory: String,
}

#[derive(Debug)]
pub struct Config {
    pub directories: Directories,
    pub frameworks: Option<Frameworks>,
}

} // verus!
