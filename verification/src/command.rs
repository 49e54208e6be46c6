//! Commands: what the words of a command line ask for.

use vstd::prelude::*;
use vstd::string::StringExecFns;
use crate::error::Error;
use crate::text::{index_of, join_words, joined, parse_index, rest, texts};

verus! {

/// What a command word asks for.
#[derive(Clone, Copy, Debug, PartialEq, Eq, Structural)]
pub enum Action {
    Add,
    Change,
    List,
    Remove,
    File,
    /// The word is no command.
    Unknown,
}

/// The field of a task that `change` replaces.
#[derive(Clone, Copy, Debug, PartialEq, Eq, Structural)]
pub enum Field {
    Name,
    Description,
}

/// A command with its arguments, ready to be carried out.
#[derive(Debug, PartialEq, Eq)]
pub enum Command {
    /// Put a new task at the end of the list.
    Add { name: String, description: String },
    /// Replace one field of the task at `index`.
    Change { index: u32, field: Field, text: String },
    /// Show the list.
    List,
    /// Take the task at `index` out of the list.
    Remove { index: u32 },
    /// Show where the list is stored.
    File,
    /// Tell the user that the command is wrong.
    Unknown,
}

/// A command, as plain values.
pub enum CommandView {
    Add { name: Seq<char>, description: Seq<char> },
    Change { index: u32, field: Field, text: Seq<char> },
    List,
    Remove { index: u32 },
    File,
    Unknown,
}

impl View for Command {
    type V = CommandView;

    open spec fn view(&self) -> CommandView {
        match *self {
            Command::Add { name, description } => CommandView::Add {
                name: name@,
                description: description@,
            },
            Command::Change { index, field, text } => CommandView::Change {
                index,
                field,
                text: text@,
            },
            Command::List => CommandView::List,
            Command::Remove { index } => CommandView::Remove { index },
            Command::File => CommandView::File,
            Command::Unknown => CommandView::Unknown,
        }
    }
}

/// What the command word `word`, in lower case, asks for.
pub open spec fn action_of(word: Seq<char>) -> Action {
    if word == "add"@ || word == "a"@ {
        Action::Add
    } else if word == "change"@ || word == "ch"@ || word == "c"@ {
        Action::Change
    } else if word == "list"@ || word == "l"@ {
        Action::List
    } else if word == "remove"@ || word == "rm"@ || word == "r"@ {
        Action::Remove
    } else if word == "file"@ {
        Action::File
    } else {
        Action::Unknown
    }
}

/// The field that `word` names, if it names one.
pub open spec fn field_of(word: Seq<char>) -> Option<Field> {
    if word == "name"@ || word == "n"@ {
        Some(Field::Name)
    } else if word == "description"@ || word == "desc"@ || word == "d"@ {
        Some(Field::Description)
    } else {
        None
    }
}

/// The command that the words of a command line ask for, on a list of
/// `len` tasks. `words[0]` is the program's name, `words[1]` the command
/// word, whose meaning is `action`; the arguments follow. What is wrong is
/// found in this order: the task number is missing, is no number, is out of
/// range; then the field is missing, is unknown.
pub open spec fn planned(len: nat, words: Seq<Seq<char>>, action: Action) -> Result<
    CommandView,
    Error,
> {
    match action {
        Action::Add => if words.len() <= 2 {
            Err(Error::MissingName)
        } else {
            Ok(
                CommandView::Add {
                    name: words[2],
                    description: joined(rest(words, 3), seq![' ']),
                },
            )
        },
        Action::Change => if words.len() <= 2 {
            Err(Error::MissingIndex)
        } else {
            match index_of(words[2]) {
                None => Err(Error::InvalidIndex),
                Some(index) => if index >= len {
                    Err(Error::IndexOutOfRange)
                } else if words.len() <= 3 {
                    Err(Error::MissingField)
                } else {
                    match field_of(words[3]) {
                        None => Err(Error::UnknownField),
                        Some(field) => Ok(
                            CommandView::Change {
                                index,
                                field,
                                text: joined(rest(words, 4), seq![' ']),
                            },
                        ),
                    }
                },
            }
        },
        Action::List => Ok(CommandView::List),
        Action::Remove => if words.len() <= 2 {
            Err(Error::MissingIndex)
        } else {
            match index_of(words[2]) {
                None => Err(Error::InvalidIndex),
                Some(index) => if index >= len {
                    Err(Error::IndexOutOfRange)
                } else {
                    Ok(CommandView::Remove { index })
                },
            }
        },
        Action::File => Ok(CommandView::File),
        Action::Unknown => Ok(CommandView::Unknown),
    }
}

/// Whether `word` is `literal`.
fn is_word(word: &str, literal: &str) -> (same: bool)
    ensures
        same == (word@ == literal@),
{
    let word = String::from_str(word);
    let literal = String::from_str(literal);
    word == literal
}

/// Tells what a command word, in lower case, asks for.
pub fn recognise(word: &str) -> (action: Action)
    ensures
        action == action_of(word@),
{
    if is_word(word, "add") || is_word(word, "a") {
        Action::Add
    } else if is_word(word, "change") || is_word(word, "ch") || is_word(word, "c") {
        Action::Change
    } else if is_word(word, "list") || is_word(word, "l") {
        Action::List
    } else if is_word(word, "remove") || is_word(word, "rm") || is_word(word, "r") {
        Action::Remove
    } else if is_word(word, "file") {
        Action::File
    } else {
        Action::Unknown
    }
}

/// Tells which field `word` names.
pub fn parse_field(word: &str) -> (field: Option<Field>)
    ensures
        field == field_of(word@),
{
    if is_word(word, "name") || is_word(word, "n") {
        Some(Field::Name)
    } else if is_word(word, "description") || is_word(word, "desc") || is_word(word, "d") {
        Some(Field::Description)
    } else {
        None
    }
}

/// Reads the task number at `args[2]` and checks it against a list of `len`
/// tasks.
fn plan_index(len: usize, args: &Vec<String>) -> (index: Result<u32, Error>)
    ensures
        index == if args@.len() <= 2 {
            Err::<u32, Error>(Error::MissingIndex)
        } else {
            match index_of(args@[2]@) {
                None => Err(Error::InvalidIndex),
                Some(index) => if index >= len {
                    Err(Error::IndexOutOfRange)
                } else {
                    Ok(index)
                },
            }
        },
{
    if args.len() <= 2 {
        return Err(Error::MissingIndex);
    }
    match parse_index(args[2].as_str()) {
        None => Err(Error::InvalidIndex),
        Some(index) => if index as usize >= len {
            Err(Error::IndexOutOfRange)
        } else {
            Ok(index)
        },
    }
}

/// Makes the command that `args` ask for, on a list of `len` tasks, where
/// the command word means `action`.
pub fn plan(len: usize, args: &Vec<String>, action: Action) -> (command: Result<Command, Error>)
    ensures
        match command {
            Ok(command) => planned(len as nat, texts(args@), action) == Ok::<CommandView, Error>(
                command@,
            ),
            Err(error) => planned(len as nat, texts(args@), action) == Err::<CommandView, Error>(
                error,
            ),
        },
{
    match action {
        Action::Add => {
            if args.len() <= 2 {
                return Err(Error::MissingName);
            }
            let name = args[2].clone();
            let description = join_words(args, 3);
            Ok(Command::Add { name, description })
        },
        Action::Change => {
            let index = plan_index(len, args)?;
            if args.len() <= 3 {
                return Err(Error::MissingField);
            }
            match parse_field(args[3].as_str()) {
                None => Err(Error::UnknownField),
                Some(field) => {
                    let text = join_words(args, 4);
                    Ok(Command::Change { index, field, text })
                },
            }
        },
        Action::List => Ok(Command::List),
        Action::Remove => {
            let index = plan_index(len, args)?;
            Ok(Command::Remove { index })
        },
        Action::File => Ok(Command::File),
        Action::Unknown => Ok(Command::Unknown),
    }
}

} // verus!
