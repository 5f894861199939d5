//! How a compiler is invoked on sources, and how its answer is read.

use crate::question::test::{TestError, TestErrorView};
use crate::utils::text::{copy_str, extend_copies, push_char, push_copy};
use rand::Rng;
use vstd::prelude::*;
use vstd::string::*;

verus! {

/// How an invocation of a compiler ended: with the name of the binary that
/// it wrote, or with the reason why it wrote none.
#[derive(Debug)]
pub enum CompileResult {
    Built(String),
    Rejected(TestError),
}

/// The mathematical value of a [`CompileResult`].
pub enum CompileResultView {
    Built(Seq<char>),
    Rejected(TestErrorView),
}

impl View for CompileResult {
    type V = CompileResultView;

    open spec fn view(&self) -> CompileResultView {
        match self {
            CompileResult::Built(name) => CompileResultView::Built(name@),
            CompileResult::Rejected(error) => CompileResultView::Rejected(error@),
        }
    }
}

impl CompileResult {
    /// The name of the binary of a successful compilation.
    pub fn unwrap(self) -> (name: String)
        requires
            self is Built,
        ensures
            self@ == CompileResultView::Built(name@),
    {
        match self {
            CompileResult::Built(name) => name,
            CompileResult::Rejected(_) => String::new(),
        }
    }
}

/// Whether a character is an ASCII letter or an ASCII digit.
pub open spec fn alphanumeric(c: char) -> bool {
    ('A' <= c && c <= 'Z') || ('a' <= c && c <= 'z') || ('0' <= c && c <= '9')
}

/// Whether a text can be the name of a binary that a compilation writes: ten
/// letters or digits.
pub open spec fn artifact_name(name: Seq<char>) -> bool {
    &&& name.len() == 10
    &&& forall|i: int| 0 <= i < name.len() ==> alphanumeric(#[trigger] name[i])
}

/// `Rng::sample` on `rand::thread_rng()` with the distribution
/// `Alphanumeric` draws one of the 62 ASCII letters and digits. Which one is
/// left open.
#[verifier::external_body]
fn random_alphanumeric() -> (c: char)
    ensures
        alphanumeric(c),
{
    char::from(rand::thread_rng().sample(rand::distributions::Alphanumeric))
}

/// The arguments of a compiler invocation: the name of the output, then the
/// flags, then the sources.
pub open spec fn compile_arguments(
    flags: Seq<Seq<char>>,
    sources: Seq<Seq<char>>,
    binary_name: Seq<char>,
) -> Seq<Seq<char>> {
    seq!["-o"@, binary_name] + flags + sources
}

/// How the answer of a compiler is read: any exit code but zero means that
/// the sources do not compile, and what the compiler wrote to its standard
/// error says why.
pub open spec fn compile_outcome(
    exit_code: int,
    diagnostics: Seq<char>,
    binary_name: Seq<char>,
) -> CompileResultView {
    if exit_code != 0 {
        CompileResultView::Rejected(TestErrorView::DoesNotCompile(diagnostics))
    } else {
        CompileResultView::Built(binary_name)
    }
}

/// The mathematical value of a [`Compiler`].
pub struct CompilerView {
    pub compiler: Seq<char>,
    pub sources: Seq<Seq<char>>,
    pub flags: Seq<Seq<char>>,
}

/// A compiler invocation in the making: the program, and the sources and
/// flags in the order in which they were added.
#[derive(Debug)]
pub struct Compiler {
    compiler: String,
    sources: Vec<String>,
    flags: Vec<String>,
}

impl View for Compiler {
    type V = CompilerView;

    closed spec fn view(&self) -> CompilerView {
        CompilerView {
            compiler: self.compiler@,
            sources: self.sources.deep_view(),
            flags: self.flags.deep_view(),
        }
    }
}

impl Compiler {
    pub fn new(compiler: &str) -> (made: Self)
        ensures
            made@ == (CompilerView {
                compiler: compiler@,
                sources: Seq::empty(),
                flags: Seq::empty(),
            }),
    {
        let made = Self { compiler: copy_str(compiler), sources: Vec::new(), flags: Vec::new() };
        proof {
            assert(made.sources.deep_view() =~= Seq::empty());
            assert(made.flags.deep_view() =~= Seq::empty());
        }
        made
    }

    pub fn add_source(&mut self, source: String)
        ensures
            final(self)@ == (CompilerView {
                sources: old(self)@.sources.push(source@),
                ..old(self)@
            }),
    {
        self.sources.push(source);
        proof {
            assert(self.sources.deep_view() =~= old(self).sources.deep_view().push(source@));
        }
    }

    pub fn add_flag(&mut self, flag: &str)
        ensures
            final(self)@ == (CompilerView { flags: old(self)@.flags.push(flag@), ..old(self)@ }),
    {
        self.flags.push(copy_str(flag));
        proof {
            assert(self.flags.deep_view() =~= old(self).flags.deep_view().push(flag@));
        }
    }

    /// Adds copies of all sources of a list, in its order.
    pub fn add_sources(&mut self, sources: &Vec<String>)
        ensures
            final(self)@ == (CompilerView {
                sources: old(self)@.sources + sources.deep_view(),
                ..old(self)@
            }),
    {
        extend_copies(&mut self.sources, sources);
    }

    /// Adds copies of all flags of a list, in its order.
    pub fn add_flags(&mut self, flags: &Vec<String>)
        ensures
            final(self)@ == (CompilerView {
                flags: old(self)@.flags + flags.deep_view(),
                ..old(self)@
            }),
    {
        extend_copies(&mut self.flags, flags);
    }

    /// The program to invoke.
    pub fn program(&self) -> (program: &str)
        ensures
            program@ == self@.compiler,
    {
        self.compiler.as_str()
    }

    /// The arguments with which the program writes the binary `binary_name`.
    pub fn arguments(&self, binary_name: &str) -> (arguments: Vec<String>)
        ensures
            arguments.deep_view() == compile_arguments(self@.flags, self@.sources, binary_name@),
    {
        let mut arguments: Vec<String> = Vec::new();
        proof {
            assert(arguments.deep_view() =~= Seq::<Seq<char>>::empty());
        }
        push_copy(&mut arguments, "-o");
        push_copy(&mut arguments, binary_name);
        proof {
            assert(arguments.deep_view() =~= seq!["-o"@, binary_name@]);
        }
        extend_copies(&mut arguments, &self.flags);
        extend_copies(&mut arguments, &self.sources);
        arguments
    }

    /// A name for the binary of one compilation, drawn at random so that two
    /// compilations in one directory do not write to the same file.
    pub fn fresh_binary_name() -> (name: String)
        ensures
            artifact_name(name@),
    {
        let mut name = String::new();
        let mut i: usize = 0;
        while i < 10
            invariant
                i <= 10,
                name@.len() == i,
                forall|k: int| 0 <= k < name@.len() ==> alphanumeric(#[trigger] name@[k]),
            decreases 10 - i,
        {
            let c = random_alphanumeric();
            push_char(&mut name, c);
            i = i + 1;
        }
        name
    }

    /// Reads the answer of the compiler that was asked to write
    /// `binary_name`.
    pub fn classify(exit_code: i32, diagnostics: String, binary_name: String) -> (result:
        CompileResult)
        ensures
            result@ == compile_outcome(exit_code as int, diagnostics@, binary_name@),
    {
        if exit_code != 0 {
            CompileResult::Rejected(TestError::DoesNotCompile(diagnostics))
        } else {
            CompileResult::Built(binary_name)
        }
    }
}

} // verus!
