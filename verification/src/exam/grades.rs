//! The points that pass an exam, and the most that it gives.

use crate::exam::error::ExamError;
use crate::exam::toml;
use vstd::prelude::*;

verus! {

#[derive(Debug)]
pub struct Grades {
    pass: u32,
    max: u32,
}

impl Grades {
    pub closed spec fn spec_pass(&self) -> u32 {
        self.pass
    }

    pub closed spec fn spec_max(&self) -> u32 {
        self.max
    }

    /// Takes the grades of a configuration, which must not ask for more
    /// points to pass than the exam gives.
    pub fn new_from_toml(toml: toml::Grades) -> (result: Result<Self, ExamError>)
        ensures
            match result {
                Ok(grades) => toml.pass <= toml.max && grades.spec_pass() == toml.pass
                    && grades.spec_max() == toml.max,
                Err(error) => toml.pass > toml.max && error is InvalidGrade,
            },
    {
        if toml.pass > toml.max {
            Err(ExamError::InvalidGrade)
        } else {
            Ok(Self { pass: toml.pass, max: toml.max })
        }
    }

    pub fn pass(&self) -> (pass: u32)
        ensures
            pass == self.spec_pass(),
    {
        self.pass
    }

    pub fn max(&self) -> (max: u32)
        ensures
            max == self.spec_max(),
    {
        self.max
    }
}

} // verus!
