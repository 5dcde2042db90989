use vstd::prelude::*;

use crate::format::{split_words, views, words};

verus! {

/// A command given at the input prompt.
#[derive(Debug, PartialEq, Eq, Structural, Clone, Copy)]
pub enum Command {
    /// `> p`: show the parameters of the session.
    ShowParameters,
    /// `> md`: list the models that the service offers.
    ListModels,
    /// Any other command, or none: nothing is done.
    Other,
}

/// What a line of input is.
#[derive(Debug, PartialEq, Eq)]
pub enum Input {
    /// A prompt for the service.
    Prompt(String),
    /// A command for the client itself.
    Command(Command),
}

/// Whether `line` is a command: it starts with `>` and a space.
pub open spec fn is_command_spec(line: Seq<char>) -> bool {
    line.len() >= 2 && line[0] == '>' && line[1] == ' '
}

/// The command that `line` gives: named by its second word, the first being
/// the `>` marker.
pub open spec fn command_of(line: Seq<char>) -> Command {
    let ws = words(line);
    if ws.len() < 2 {
        Command::Other
    } else if ws[1] == seq!['p'] {
        Command::ShowParameters
    } else if ws[1] == seq!['m', 'd'] {
        Command::ListModels
    } else {
        Command::Other
    }
}

/// The meaning of a line of input: a command where the line starts with `> `,
/// else the line itself as a prompt.
pub open spec fn input_of(line: Seq<char>, r: Input) -> bool {
    if is_command_spec(line) {
        r == Input::Command(command_of(line))
    } else {
        r matches Input::Prompt(p) && p@ == line
    }
}

/// Whether `line` is a command.
pub fn is_command(line: &str) -> (r: bool)
    ensures
        r == is_command_spec(line@),
{
    line.unicode_len() >= 2 && line.get_char(0) == '>' && line.get_char(1) == ' '
}

/// Tells a command from a prompt.
pub fn interpret(line: String) -> (r: Input)
    ensures
        input_of(line@, r),
{
    if !is_command(line.as_str()) {
        return Input::Prompt(line);
    }
    let ws = split_words(line.as_str());
    proof {
        reveal_strlit("p");
        reveal_strlit("md");
        assert("p"@ =~= seq!['p']);
        assert("md"@ =~= seq!['m', 'd']);
    }
    let cmd = if ws.len() < 2 {
        Command::Other
    } else {
        assert(ws@[1]@ == words(line@)[1]);
        if ws[1] == String::from_str("p") {
            Command::ShowParameters
        } else if ws[1] == String::from_str("md") {
            Command::ListModels
        } else {
            Command::Other
        }
    };
    Input::Command(cmd)
}

} // verus!
