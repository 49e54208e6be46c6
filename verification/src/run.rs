//! Carrying out commands on a list.

use vstd::prelude::*;
use vstd::string::StringExecFns;
use crate::command::{action_of, plan, planned, recognise, Action, Command, CommandView, Field};
use crate::error::Error;
use crate::list::{entry, entry_text, rendered_list, ToDo};
use crate::task::{Task, TaskView};
use crate::text::{lowercase, lowercase_of, texts};
use crate::timestamp::{Moment, Timestamp};

verus! {

/// What a command leaves behind: the tasks after it, and either the text to
/// show to the user (none where nothing is shown) or what was wrong.
pub struct Effect {
    pub tasks: Seq<TaskView>,
    pub outcome: Result<Option<Seq<char>>, Error>,
}

/// `task` with `text` in place of one field. The creation time stays.
pub open spec fn changed(task: TaskView, field: Field, text: Seq<char>) -> TaskView {
    match field {
        Field::Name => TaskView { name: text, ..task },
        Field::Description => TaskView { description: text, ..task },
    }
}

/// What is shown when `task` has been added at `position`.
pub open spec fn added_report(position: nat, task: TaskView) -> Seq<char> {
    entry(position, task, true) + " was successfully added"@
}

/// What is shown when `task` has been removed.
pub open spec fn removed_report(task: TaskView) -> Seq<char> {
    task.rendered(true) + " was successfully removed"@
}

/// What `command` does to `tasks`. `path` is where the list is stored and
/// `clock` what the clock shows, `None` where it shows no moment that a
/// timestamp can hold; only `Add` looks at the clock. A command that fails
/// leaves the tasks as they were.
pub open spec fn effect(
    tasks: Seq<TaskView>,
    command: CommandView,
    path: Seq<char>,
    clock: Option<Moment>,
) -> Effect {
    match command {
        CommandView::Add { name, description } => match clock {
            Some(now) => {
                let task = TaskView { name, description, created_at: now };
                Effect {
                    tasks: tasks.push(task),
                    outcome: Ok(Some(added_report(tasks.len(), task))),
                }
            },
            None => Effect { tasks, outcome: Err(Error::ClockOutOfRange) },
        },
        CommandView::Change { index, field, text } => if index < tasks.len() {
            Effect {
                tasks: tasks.update(index as int, changed(tasks[index as int], field, text)),
                outcome: Ok(None),
            }
        } else {
            Effect { tasks, outcome: Err(Error::IndexOutOfRange) }
        },
        CommandView::List => Effect { tasks, outcome: Ok(Some(rendered_list(tasks, true))) },
        CommandView::Remove { index } => if index < tasks.len() {
            Effect {
                tasks: tasks.remove(index as int),
                outcome: Ok(Some(removed_report(tasks[index as int]))),
            }
        } else {
            Effect { tasks, outcome: Err(Error::IndexOutOfRange) }
        },
        CommandView::File => Effect { tasks, outcome: Ok(Some(path)) },
        CommandView::Unknown => Effect { tasks, outcome: Ok(Some("Wrong command"@)) },
    }
}

/// What a command line does to `tasks`: the effect of the command that
/// `words` ask for, where `word` is the command word in lower case. A
/// command line that asks for no command leaves the tasks as they were.
pub open spec fn dispatched(
    tasks: Seq<TaskView>,
    words: Seq<Seq<char>>,
    word: Seq<char>,
    path: Seq<char>,
    clock: Option<Moment>,
) -> Effect {
    match planned(tasks.len(), words, action_of(word)) {
        Ok(command) => effect(tasks, command, path, clock),
        Err(error) => Effect { tasks, outcome: Err(error) },
    }
}

/// An outcome, as plain values.
pub open spec fn shown(outcome: Result<Option<String>, Error>) -> Result<Option<Seq<char>>, Error> {
    match outcome {
        Ok(Some(text)) => Ok(Some(text@)),
        Ok(None) => Ok(None),
        Err(error) => Err(error),
    }
}

/// What the clock shows, as plain values.
pub open spec fn reading(clock: Option<Timestamp>) -> Option<Moment> {
    match clock {
        Some(now) => Some(now@),
        None => None,
    }
}

/// Carries out `command` on `list`. `clock` is what the clock shows.
pub fn perform(list: &mut ToDo, command: Command, path: &str, clock: Option<Timestamp>) -> (outcome:
    Result<Option<String>, Error>)
    ensures
        (Effect { tasks: final(list)@, outcome: shown(outcome) }) == effect(
            old(list)@,
            command@,
            path@,
            reading(clock),
        ),
{
    match command {
        Command::Add { name, description } => match clock {
            Some(now) => {
                let task = Task::with_timestamp(name, description, now);
                let mut report = entry_text(list.len(), &task, true);
                report.append(" was successfully added");
                list.add(task);
                Ok(Some(report))
            },
            None => Err(Error::ClockOutOfRange),
        },
        Command::Change { index, field, text } => match list.get(index) {
            Ok(task) => {
                match field {
                    Field::Name => task.set_name(text),
                    Field::Description => task.set_description(text),
                }
                Ok(None)
            },
            Err(error) => Err(error),
        },
        Command::List => Ok(Some(list.render())),
        Command::Remove { index } => match list.pop(index) {
            Ok(task) => {
                let mut report = task.render();
                report.append(" was successfully removed");
                Ok(Some(report))
            },
            Err(error) => Err(error),
        },
        Command::File => Ok(Some(String::from_str(path))),
        Command::Unknown => Ok(Some(String::from_str("Wrong command"))),
    }
}

/// Carries out the command line `args` on `list`, where `word` is the
/// command word in lower case and `clock` what the clock shows.
pub fn dispatch(
    list: &mut ToDo,
    args: &Vec<String>,
    word: &str,
    path: &str,
    clock: Option<Timestamp>,
) -> (outcome: Result<Option<String>, Error>)
    ensures
        (Effect { tasks: final(list)@, outcome: shown(outcome) }) == dispatched(
            old(list)@,
            texts(args@),
            word@,
            path@,
            reading(clock),
        ),
{
    match plan(list.len(), args, recognise(word)) {
        Ok(command) => perform(list, command, path, clock),
        Err(error) => Err(error),
    }
}

/// Whether a run of the command line `words` can take the tasks from
/// `before` to `after` with `outcome`. The command word is `words[1]`, in
/// any case. Only a command line that adds a task reads the clock, and then
/// the run is the one for some reading of it.
pub open spec fn ran(
    before: Seq<TaskView>,
    words: Seq<Seq<char>>,
    path: Seq<char>,
    after: Seq<TaskView>,
    outcome: Result<Option<Seq<char>>, Error>,
) -> bool {
    let done = Effect { tasks: after, outcome };
    if words.len() < 2 {
        done == (Effect { tasks: before, outcome: Err(Error::MissingCommand) })
    } else {
        let word = lowercase_of(words[1]);
        if planned(before.len(), words, action_of(word)) is Ok && action_of(word) == Action::Add {
            exists|clock: Option<Moment>|
                {
                    &&& clock matches Some(now) ==> now.is_valid()
                    &&& done == #[trigger] dispatched(before, words, word, path, clock)
                }
        } else {
            done == dispatched(before, words, word, path, None)
        }
    }
}

/// Carries out the command line `args` on `list`: `args[0]` is the
/// program's name, `args[1]` the command word, the arguments follow. `path`
/// is where the list is stored.
pub fn run(list: &mut ToDo, args: &Vec<String>, path: &str) -> (outcome: Result<
    Option<String>,
    Error,
>)
    ensures
        ran(old(list)@, texts(args@), path@, final(list)@, shown(outcome)),
{
    if args.len() < 2 {
        return Err(Error::MissingCommand);
    }
    let word = lowercase(args[1].as_str());
    let clock = match recognise(word.as_str()) {
        Action::Add => if args.len() > 2 {
            Timestamp::now()
        } else {
            None
        },
        _ => None,
    };
    dispatch(list, args, word.as_str(), path, clock)
}

} // verus!
