//! What a finished process left behind: its exit code and the text it wrote
//! to its two output streams.

use crate::utils::text::{i32_to_string, signed_decimal};
use vstd::prelude::*;
use vstd::string::*;

verus! {

/// The mathematical value of a [`ProgramOutput`].
pub struct ProgramOutputView {
    pub status: int,
    pub stdout: Seq<char>,
    pub stderr: Seq<char>,
}

/// The report of one process run, as text: the exit code, then the two
/// streams, each on a line of its own that the stream's text follows.
pub open spec fn rendered_output(output: ProgramOutputView) -> Seq<char> {
    "Exit Code: "@ + signed_decimal(output.status) + "\n"@ + "Stdout: "@ + output.stdout + "\n"@
        + "Stderr: "@ + output.stderr + "\n"@
}

#[derive(Debug)]
pub struct ProgramOutput {
    status: i32,
    stdout: String,
    stderr: String,
}

impl View for ProgramOutput {
    type V = ProgramOutputView;

    open spec fn view(&self) -> ProgramOutputView {
        ProgramOutputView {
            status: self.spec_code() as int,
            stdout: self.spec_stdout(),
            stderr: self.spec_stderr(),
        }
    }
}

impl ProgramOutput {
    pub closed spec fn spec_code(&self) -> i32 {
        self.status
    }

    pub closed spec fn spec_stdout(&self) -> Seq<char> {
        self.stdout@
    }

    pub closed spec fn spec_stderr(&self) -> Seq<char> {
        self.stderr@
    }

    pub fn from_strings(status: i32, stdout: String, stderr: String) -> (output: Self)
        ensures
            output@ == (ProgramOutputView {
                status: status as int,
                stdout: stdout@,
                stderr: stderr@,
            }),
    {
        Self { status, stdout, stderr }
    }

    pub fn code(&self) -> (code: i32)
        ensures
            code as int == self@.status,
    {
        self.status
    }

    pub fn stdout(&self) -> (text: &str)
        ensures
            text@ == self@.stdout,
    {
        self.stdout.as_str()
    }

    pub fn stderr(&self) -> (text: &str)
        ensures
            text@ == self@.stderr,
    {
        self.stderr.as_str()
    }

    /// Whether two outputs agree in exit code and in both streams.
    pub fn same_as(&self, other: &Self) -> (same: bool)
        ensures
            same == (self@ == other@),
    {
        let same = self.status == other.status && self.stdout == other.stdout && self.stderr
            == other.stderr;
        proof {
            if same {
                assert(self@ =~= other@);
            }
        }
        same
    }

    /// A copy of this output.
    pub fn duplicate(&self) -> (copy: Self)
        ensures
            copy@ == self@,
    {
        Self { status: self.status, stdout: self.stdout.clone(), stderr: self.stderr.clone() }
    }

    /// The output as the text that a report shows.
    pub fn to_string(&self) -> (text: String)
        ensures
            text@ == rendered_output(self@),
    {
        let mut text = String::from_str("Exit Code: ");
        let code = i32_to_string(self.status);
        text.append(code.as_str());
        text.append("\n");
        text.append("Stdout: ");
        text.append(self.stdout.as_str());
        text.append("\n");
        text.append("Stderr: ");
        text.append(self.stderr.as_str());
        text.append("\n");
        text
    }
}

impl PartialEq for ProgramOutput {
    fn eq(&self, other: &Self) -> (same: bool) {
        self.same_as(other)
    }
}

impl vstd::std_specs::cmp::PartialEqSpecImpl for ProgramOutput {
    open spec fn obeys_eq_spec() -> bool {
        true
    }

    open spec fn eq_spec(&self, other: &Self) -> bool {
        self@ == other@
    }
}

} // verus!
