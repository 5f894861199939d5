//! What the trainer understands of what a candidate types, and what it
//! does about it.

pub mod exam;
pub mod main_menu;
pub mod session;
pub mod single_question;
pub mod timer;

use crate::utils::text::{joined, push_char, str_eq};
use vstd::prelude::*;
use vstd::string::*;

verus! {

/// The answer to a question that takes yes or no.
#[derive(Debug, Clone, Copy, PartialEq, Eq, Structural)]
pub enum YesNoAnswer {
    Yes,
    No,
}

/// Whether a character is the letter `lower` in either case; `upper` is
/// its capital.
pub open spec fn letter(c: char, lower: char, upper: char) -> bool {
    c == lower || c == upper
}

/// Whether a text says yes: it is `y` or `yes`, in small or capital
/// letters.
pub open spec fn says_yes(input: Seq<char>) -> bool {
    ||| input.len() == 1 && letter(input[0], 'y', 'Y')
    ||| input.len() == 3 && letter(input[0], 'y', 'Y') && letter(input[1], 'e', 'E') && letter(
        input[2],
        's',
        'S',
    )
}

/// Reads an answer: anything that does not say yes says no.
pub fn parse_yes_no(input: &str) -> (answer: YesNoAnswer)
    ensures
        answer == if says_yes(input@) {
            YesNoAnswer::Yes
        } else {
            YesNoAnswer::No
        },
{
    let n = input.unicode_len();
    if n == 1 {
        let c = input.get_char(0);
        if c == 'y' || c == 'Y' {
            YesNoAnswer::Yes
        } else {
            YesNoAnswer::No
        }
    } else if n == 3 {
        let c0 = input.get_char(0);
        let c1 = input.get_char(1);
        let c2 = input.get_char(2);
        if (c0 == 'y' || c0 == 'Y') && (c1 == 'e' || c1 == 'E') && (c2 == 's' || c2 == 'S') {
            YesNoAnswer::Yes
        } else {
            YesNoAnswer::No
        }
    } else {
        YesNoAnswer::No
    }
}

/// The place of the first line break of a text; its length where it has
/// none.
pub open spec fn first_newline(text: Seq<char>) -> int
    decreases text.len(),
{
    if text.len() == 0 {
        0
    } else if text[0] == '\n' {
        0
    } else {
        1 + first_newline(text.drop_first())
    }
}

/// Where no character before a place is a line break, and the place is the
/// end of the text or holds a line break, it is the place of the first line
/// break.
pub proof fn lemma_first_newline(text: Seq<char>, at: int)
    requires
        0 <= at <= text.len(),
        forall|k: int| 0 <= k < at ==> text[k] != '\n',
        at == text.len() || text[at] == '\n',
    ensures
        first_newline(text) == at,
    decreases text.len(),
{
    if at > 0 {
        let rest = text.drop_first();
        assert forall|k: int| 0 <= k < at - 1 implies rest[k] != '\n' by {
            assert(rest[k] == text[k + 1]);
        }
        lemma_first_newline(rest, at - 1);
    }
}

/// What was typed on a line: the text up to its first line break.
pub fn trim_line(buffer: &str) -> (line: String)
    ensures
        line@ == buffer@.take(first_newline(buffer@)),
{
    let n = buffer.unicode_len();
    let mut line = String::new();
    let mut i: usize = 0;
    while i < n
        invariant
            i <= n,
            n == buffer@.len(),
            line@ == buffer@.take(i as int),
            forall|k: int| 0 <= k < i ==> buffer@[k] != '\n',
        decreases n - i,
    {
        let c = buffer.get_char(i);
        if c == '\n' {
            proof {
                lemma_first_newline(buffer@, i as int);
            }
            return line;
        }
        push_char(&mut line, c);
        proof {
            assert(buffer@.take(i + 1) =~= buffer@.take(i as int).push(c));
        }
        i = i + 1;
    }
    proof {
        lemma_first_newline(buffer@, i as int);
    }
    line
}

/// The words of a line: what stands between its spaces. A line without a
/// space is one word; two spaces side by side have an empty word between
/// them.
pub open spec fn words(line: Seq<char>) -> Seq<Seq<char>>
    decreases line.len(),
{
    if line.len() == 0 {
        seq![Seq::empty()]
    } else {
        let before = words(line.drop_last());
        if line.last() == ' ' {
            before.push(Seq::empty())
        } else {
            before.drop_last().push(before.last().push(line.last()))
        }
    }
}

/// Splits a line at its spaces.
pub fn split_words(line: &str) -> (list: Vec<String>)
    ensures
        list.deep_view() == words(line@),
{
    let n = line.unicode_len();
    let mut list: Vec<String> = Vec::new();
    let mut word = String::new();
    let mut i: usize = 0;
    proof {
        assert(line@.take(0) =~= Seq::<char>::empty());
        assert(list.deep_view().push(word@) =~= seq![Seq::<char>::empty()]);
    }
    while i < n
        invariant
            i <= n,
            n == line@.len(),
            list.deep_view().push(word@) == words(line@.take(i as int)),
        decreases n - i,
    {
        let c = line.get_char(i);
        proof {
            assert(line@.take(i + 1).drop_last() =~= line@.take(i as int));
            assert(line@.take(i + 1).last() == c);
            assert(list.deep_view().push(word@).drop_last() =~= list.deep_view());
        }
        if c == ' ' {
            let ghost before = list.deep_view();
            let mut finished = String::new();
            std::mem::swap(&mut finished, &mut word);
            list.push(finished);
            proof {
                assert(list.deep_view() =~= before.push(finished@));
            }
        } else {
            push_char(&mut word, c);
        }
        i = i + 1;
    }
    proof {
        assert(line@.take(i as int) =~= line@);
    }
    let ghost before = list.deep_view();
    list.push(word);
    proof {
        assert(list.deep_view() =~= before.push(word@));
    }
    list
}

/// What a candidate can ask for while a question or an exam is open.
#[derive(Debug)]
pub enum Command {
    Grademe,
    Status,
    Clear,
    Help,
    Exit,
    Unrecognised(String),
}

/// The mathematical value of a [`Command`].
pub enum CommandView {
    Grademe,
    Status,
    Clear,
    Help,
    Exit,
    Unrecognised(Seq<char>),
}

impl View for Command {
    type V = CommandView;

    open spec fn view(&self) -> CommandView {
        match self {
            Command::Grademe => CommandView::Grademe,
            Command::Status => CommandView::Status,
            Command::Clear => CommandView::Clear,
            Command::Help => CommandView::Help,
            Command::Exit => CommandView::Exit,
            Command::Unrecognised(input) => CommandView::Unrecognised(input@),
        }
    }
}

/// The command that a line stands for. The line must be the command to the
/// letter; `exit` and `quit` mean the same.
pub open spec fn command_of(input: Seq<char>) -> CommandView {
    if input == "grademe"@ {
        CommandView::Grademe
    } else if input == "status"@ {
        CommandView::Status
    } else if input == "clear"@ {
        CommandView::Clear
    } else if input == "help"@ {
        CommandView::Help
    } else if input == "exit"@ || input == "quit"@ {
        CommandView::Exit
    } else {
        CommandView::Unrecognised(input)
    }
}

/// Reads a line as a command.
pub fn parse_command(input: &str) -> (command: Command)
    ensures
        command@ == command_of(input@),
{
    if str_eq(input, "grademe") {
        Command::Grademe
    } else if str_eq(input, "status") {
        Command::Status
    } else if str_eq(input, "clear") {
        Command::Clear
    } else if str_eq(input, "help") {
        Command::Help
    } else if str_eq(input, "exit") || str_eq(input, "quit") {
        Command::Exit
    } else {
        Command::Unrecognised(String::from_str(input))
    }
}

/// The name of the file that holds the trace of a failed try: in the trace
/// directory, the time of the failure and the name of the question with a
/// dash between them.
pub open spec fn trace_file(trace_dir: Seq<char>, stamp: Seq<char>, question: Seq<char>) -> Seq<
    char,
> {
    joined(trace_dir, stamp + seq!['-'] + question)
}

/// Names the file that holds the trace of a failed try.
pub fn trace_file_name(trace_dir: &str, stamp: &str, question: &str) -> (path: String)
    ensures
        path@ == trace_file(trace_dir@, stamp@, question@),
{
    let mut path = String::from_str(trace_dir);
    push_char(&mut path, '/');
    path.append(stamp);
    push_char(&mut path, '-');
    path.append(question);
    proof {
        assert(path@ =~= trace_file(trace_dir@, stamp@, question@));
    }
    path
}

} // verus!
