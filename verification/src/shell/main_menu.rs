//! The main menu: what can be asked for while no question is open.

use crate::shell::{split_words, words};
use crate::utils::text::str_eq;
use vstd::prelude::*;
use vstd::string::*;

verus! {

/// What can be asked for at the main menu.
#[derive(Debug)]
pub enum MenuCommand {
    ListQuestions,
    ListExams,
    Question(String),
    Exam(String),
    Config,
    Help,
    Clear,
    Exit,
    Unrecognised(String),
}

/// The mathematical value of a [`MenuCommand`].
pub enum MenuCommandView {
    ListQuestions,
    ListExams,
    Question(Seq<char>),
    Exam(Seq<char>),
    Config,
    Help,
    Clear,
    Exit,
    Unrecognised(Seq<char>),
}

impl View for MenuCommand {
    type V = MenuCommandView;

    open spec fn view(&self) -> MenuCommandView {
        match self {
            MenuCommand::ListQuestions => MenuCommandView::ListQuestions,
            MenuCommand::ListExams => MenuCommandView::ListExams,
            MenuCommand::Question(name) => MenuCommandView::Question(name@),
            MenuCommand::Exam(name) => MenuCommandView::Exam(name@),
            MenuCommand::Config => MenuCommandView::Config,
            MenuCommand::Help => MenuCommandView::Help,
            MenuCommand::Clear => MenuCommandView::Clear,
            MenuCommand::Exit => MenuCommandView::Exit,
            MenuCommand::Unrecognised(input) => MenuCommandView::Unrecognised(input@),
        }
    }
}

/// The command that a line stands for, by its words. `question` and `exam`
/// take one name; the other commands are one or two words to the letter;
/// `exit` and `quit` mean the same.
pub open spec fn menu_command_of(input: Seq<char>) -> MenuCommandView {
    let list = words(input);
    if list.len() == 2 && list[0] == "list"@ && list[1] == "questions"@ {
        MenuCommandView::ListQuestions
    } else if list.len() == 2 && list[0] == "list"@ && list[1] == "exams"@ {
        MenuCommandView::ListExams
    } else if list.len() == 2 && list[0] == "question"@ {
        MenuCommandView::Question(list[1])
    } else if list.len() == 2 && list[0] == "exam"@ {
        MenuCommandView::Exam(list[1])
    } else if list.len() == 1 && list[0] == "config"@ {
        MenuCommandView::Config
    } else if list.len() == 1 && list[0] == "help"@ {
        MenuCommandView::Help
    } else if list.len() == 1 && list[0] == "clear"@ {
        MenuCommandView::Clear
    } else if list.len() == 1 && (list[0] == "exit"@ || list[0] == "quit"@) {
        MenuCommandView::Exit
    } else {
        MenuCommandView::Unrecognised(input)
    }
}

/// Reads a line as a command of the main menu.
pub fn parse_menu_command(input: &str) -> (command: MenuCommand)
    ensures
        command@ == menu_command_of(input@),
{
    let list = split_words(input);
    proof {
        assert(list.deep_view().len() == list.len());
        if list.len() > 0 {
            assert(list.deep_view()[0] == list[0]@);
        }
        if list.len() > 1 {
            assert(list.deep_view()[1] == list[1]@);
        }
    }
    if list.len() == 2 {
        let first = list[0].as_str();
        let second = list[1].as_str();
        if str_eq(first, "list") && str_eq(second, "questions") {
            MenuCommand::ListQuestions
        } else if str_eq(first, "list") && str_eq(second, "exams") {
            MenuCommand::ListExams
        } else if str_eq(first, "question") {
            MenuCommand::Question(String::from_str(second))
        } else if str_eq(first, "exam") {
            MenuCommand::Exam(String::from_str(second))
        } else {
            MenuCommand::Unrecognised(String::from_str(input))
        }
    } else if list.len() == 1 {
        let first = list[0].as_str();
        if str_eq(first, "config") {
            MenuCommand::Config
        } else if str_eq(first, "help") {
            MenuCommand::Help
        } else if str_eq(first, "clear") {
            MenuCommand::Clear
        } else if str_eq(first, "exit") || str_eq(first, "quit") {
            MenuCommand::Exit
        } else {
            MenuCommand::Unrecognised(String::from_str(input))
        }
    } else {
        MenuCommand::Unrecognised(String::from_str(input))
    }
}

} // verus!
