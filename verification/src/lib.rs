//! A trainer for programming exams.
//!
//! The library holds the rules: how a question, its test and a submission
//! are built from their configuration; how a submission is graded, step by
//! step, and what report a failure leaves; how the record of a candidate
//! moves with every grading; and how an exam session and its timer go on
//! and end. It compiles nothing, runs nothing and reads no file: it says
//! what is to be done and is told what came of it.

pub mod config;
pub mod error;
pub mod exam;
pub mod question;
pub mod shell;
pub mod user;
pub mod utils;

pub use error::Error;
