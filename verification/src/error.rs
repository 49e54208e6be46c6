//! What can go wrong with a command.

use vstd::prelude::*;

verus! {

/// Why a command was not carried out.
#[derive(Clone, Copy, Debug, PartialEq, Eq, Structural)]
pub enum Error {
    /// No command word was given.
    MissingCommand,
    /// `add` was given no name.
    MissingName,
    /// `change` or `remove` was given no task number.
    MissingIndex,
    /// The task number is not a number.
    InvalidIndex,
    /// The task number is not below the length of the list.
    IndexOutOfRange,
    /// `change` was not told which field to change.
    MissingField,
    /// `change` was told to change a field that does not exist.
    UnknownField,
    /// The clock shows a moment that no timestamp can hold.
    ClockOutOfRange,
}

impl Error {
    /// The message that tells the user what was wrong.
    pub open spec fn message_text(self) -> Seq<char> {
        match self {
            Error::MissingCommand => "Command must be given"@,
            Error::MissingName => "Name must be given"@,
            Error::MissingIndex => "Task's number must be given"@,
            Error::InvalidIndex => "Task's number should be a number"@,
            Error::IndexOutOfRange => "Task's number should be a number of a task in the list"@,
            Error::MissingField => "Field to change must be given"@,
            Error::UnknownField => "Field to change should be name or description"@,
            Error::ClockOutOfRange => "Current time is out of range"@,
        }
    }

    /// The message that tells the user what was wrong.
    pub fn message(&self) -> (message: &'static str)
        ensures
            message@ == self.message_text(),
    {
        match self {
            Error::MissingCommand => "Command must be given",
            Error::MissingName => "Name must be given",
            Error::MissingIndex => "Task's number must be given",
            Error::InvalidIndex => "Task's number should be a number",
            Error::IndexOutOfRange => "Task's number should be a number of a task in the list",
            Error::MissingField => "Field to change must be given",
            Error::UnknownField => "Field to change should be name or description",
            Error::ClockOutOfRange => "Current time is out of range",
        }
    }
}

} // verus!
