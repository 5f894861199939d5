//! The report that a failed grading leaves: one block of text for each
//! failure, in the order in which the failures were recorded.

use crate::utils::program_output::{rendered_output, ProgramOutput, ProgramOutputView};
use vstd::prelude::*;
use vstd::string::*;

verus! {

/// The arguments of one run as the report lists them: each argument followed
/// by a comma and a space.
pub open spec fn args_line(args: Seq<Seq<char>>) -> Seq<char>
    decreases args.len(),
{
    if args.len() == 0 {
        Seq::empty()
    } else {
        args_line(args.drop_last()) + args.last() + ", "@
    }
}

/// The block that reports one run whose output differs from the expected one.
pub open spec fn binary_block(
    args: Seq<Seq<char>>,
    expected: ProgramOutputView,
    actual: ProgramOutputView,
) -> Seq<char> {
    "Failure with args: "@ + args_line(args) + "\n"@ + "Expected Output:\n"@ + rendered_output(
        expected,
    ) + "Actual Output:\n"@ + rendered_output(actual)
}

/// The block that reports a unit test that did not exit with zero.
pub open spec fn unit_test_block(output: ProgramOutputView) -> Seq<char> {
    "Unit Test failed. Output:\n"@ + rendered_output(output)
}

/// The block that reports output that differs from the expected files.
pub open spec fn file_block(
    expected_stdout: Seq<char>,
    expected_stderr: Seq<char>,
    actual_stdout: Seq<char>,
    actual_stderr: Seq<char>,
) -> Seq<char> {
    "Failure: \n"@ + "Expected Stdout:\n"@ + expected_stdout + "Actual Stdout:\n"@ + actual_stdout
        + "Expected Stderr:\n"@ + expected_stderr + "Actual Stderr:\n"@ + actual_stderr
}

/// All the blocks of a report, one after the other.
pub open spec fn concat_blocks(blocks: Seq<Seq<char>>) -> Seq<char>
    decreases blocks.len(),
{
    if blocks.len() == 0 {
        Seq::empty()
    } else {
        concat_blocks(blocks.drop_last()) + blocks.last()
    }
}

/// No block of a report is empty.
pub proof fn lemma_blocks_not_empty(
    args: Seq<Seq<char>>,
    expected: ProgramOutputView,
    actual: ProgramOutputView,
    texts: (Seq<char>, Seq<char>, Seq<char>, Seq<char>),
)
    ensures
        binary_block(args, expected, actual).len() > 0,
        unit_test_block(expected).len() > 0,
        file_block(texts.0, texts.1, texts.2, texts.3).len() > 0,
{
    reveal_strlit("Failure with args: ");
    reveal_strlit("Unit Test failed. Output:\n");
    reveal_strlit("Failure: \n");
}

#[derive(Debug)]
pub struct Trace {
    data: String,
}

impl View for Trace {
    type V = Seq<char>;

    closed spec fn view(&self) -> Seq<char> {
        self.data@
    }
}

impl Trace {
    /// A report without any failure.
    pub fn new() -> (trace: Self)
        ensures
            trace@ == Seq::<char>::empty(),
    {
        Self { data: String::new() }
    }

    /// Whether a failure has been recorded.
    pub fn has_failure(&self) -> (recorded: bool)
        ensures
            recorded == (self@.len() > 0),
    {
        !str_is_empty(self.data.as_str())
    }

    /// Records a run whose output differs from the expected output.
    pub fn binary_output(
        &mut self,
        args: &Vec<String>,
        expected: ProgramOutput,
        actual: ProgramOutput,
    )
        ensures
            final(self)@ == old(self)@ + binary_block(args.deep_view(), expected@, actual@),
            final(self)@.len() > 0,
    {
        let ghost before = self@;
        self.data.append("Failure with args: ");
        let mut i: usize = 0;
        while i < args.len()
            invariant
                i <= args.len(),
                self@ == before + "Failure with args: "@ + args_line(
                    args.deep_view().take(i as int),
                ),
            decreases args.len() - i,
        {
            proof {
                let next = args.deep_view().take(i + 1);
                assert(next.drop_last() =~= args.deep_view().take(i as int));
                assert(next.last() == args[i as int]@);
            }
            self.data.append(args[i].as_str());
            self.data.append(", ");
            i = i + 1;
        }
        proof {
            assert(args.deep_view().take(i as int) =~= args.deep_view());
        }
        self.data.append("\n");
        self.data.append("Expected Output:\n");
        let expected_text = expected.to_string();
        self.data.append(expected_text.as_str());
        self.data.append("Actual Output:\n");
        let actual_text = actual.to_string();
        self.data.append(actual_text.as_str());
        proof {
            lemma_blocks_not_empty(
                args.deep_view(),
                expected@,
                actual@,
                (Seq::empty(), Seq::empty(), Seq::empty(), Seq::empty()),
            );
            assert(self@ =~= before + binary_block(args.deep_view(), expected@, actual@));
        }
    }

    /// Records a unit test that did not exit with zero.
    pub fn unit_test_output(&mut self, output: ProgramOutput)
        ensures
            final(self)@ == old(self)@ + unit_test_block(output@),
            final(self)@.len() > 0,
    {
        let ghost before = self@;
        self.data.append("Unit Test failed. Output:\n");
        let text = output.to_string();
        self.data.append(text.as_str());
        proof {
            lemma_blocks_not_empty(
                Seq::empty(),
                output@,
                output@,
                (Seq::empty(), Seq::empty(), Seq::empty(), Seq::empty()),
            );
            assert(self@ =~= before + unit_test_block(output@));
        }
    }

    /// Records output that differs from the expected files. Each pair holds
    /// the standard output first and the standard error second.
    pub fn file_outputs(&mut self, expected: (String, String), actual: (String, String))
        ensures
            final(self)@ == old(self)@ + file_block(
                expected.0@,
                expected.1@,
                actual.0@,
                actual.1@,
            ),
            final(self)@.len() > 0,
    {
        let ghost before = self@;
        let (expected_stdout, expected_stderr) = expected;
        let (actual_stdout, actual_stderr) = actual;
        self.data.append("Failure: \n");
        self.data.append("Expected Stdout:\n");
        self.data.append(expected_stdout.as_str());
        self.data.append("Actual Stdout:\n");
        self.data.append(actual_stdout.as_str());
        self.data.append("Expected Stderr:\n");
        self.data.append(expected_stderr.as_str());
        self.data.append("Actual Stderr:\n");
        self.data.append(actual_stderr.as_str());
        proof {
            lemma_blocks_not_empty(
                Seq::empty(),
                ProgramOutputView { status: 0, stdout: Seq::empty(), stderr: Seq::empty() },
                ProgramOutputView { status: 0, stdout: Seq::empty(), stderr: Seq::empty() },
                (expected_stdout@, expected_stderr@, actual_stdout@, actual_stderr@),
            );
            assert(self@ =~= before + file_block(
                expected_stdout@,
                expected_stderr@,
                actual_stdout@,
                actual_stderr@,
            ));
        }
    }

    /// The text of the report.
    pub fn to_string(&self) -> (text: String)
        ensures
            text@ == self@,
    {
        self.data.clone()
    }
}

/// Whether a string slice holds no character.
fn str_is_empty(s: &str) -> (empty: bool)
    ensures
        empty == (s@.len() == 0),
{
    s.is_empty()
}

} // verus!
