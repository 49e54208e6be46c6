//! What holds of every list and every command.

use vstd::prelude::*;
use crate::command::{action_of, Action, CommandView, Field};
use crate::error::Error;
use crate::list::{entry, rendered_list};
use crate::run::{added_report, dispatched, effect};
use crate::task::TaskView;
use crate::text::decimal;
use crate::timestamp::Moment;

verus! {

/// A list of one task displays as that task under position 0.
pub proof fn law_single_task_is_listed_at_zero(task: TaskView, styled: bool)
    ensures
        rendered_list(seq![task], styled) == seq!['0', ')', ' '] + task.rendered(styled),
        rendered_list(seq![task], false) == seq!['0', ')', ' '] + task.name + seq![':', ' ']
            + task.description + seq!['\n', '\t'] + task.created_at.text(),
{
    assert(decimal(0) + seq![')', ' '] =~= seq!['0', ')', ' ']);
    assert(entry(0, task, false) =~= seq!['0', ')', ' '] + task.name + seq![':', ' ']
        + task.description + seq!['\n', '\t'] + task.created_at.text());
}

/// Adding a task to the empty list shows it under position 0 and leaves a
/// list of that one task, with the name and the description as given and
/// the clock's reading as its creation time.
pub proof fn law_add_to_empty_list(
    name: Seq<char>,
    description: Seq<char>,
    path: Seq<char>,
    now: Moment,
)
    ensures
        ({
            let task = TaskView { name, description, created_at: now };
            let done = effect(
                Seq::empty(),
                CommandView::Add { name, description },
                path,
                Some(now),
            );
            &&& done.tasks == seq![task]
            &&& done.outcome == Ok::<Option<Seq<char>>, Error>(Some(added_report(0, task)))
            &&& rendered_list(done.tasks, false) == seq!['0', ')', ' '] + name + seq![':', ' ']
                + description + seq!['\n', '\t'] + now.text()
        }),
{
    let task = TaskView { name, description, created_at: now };
    assert(Seq::<TaskView>::empty().push(task) =~= seq![task]);
    law_single_task_is_listed_at_zero(task, false);
}

/// Adding a task puts it at the end, at the position that the list's length
/// was, and keeps every task before it.
pub proof fn law_add_appends(
    tasks: Seq<TaskView>,
    name: Seq<char>,
    description: Seq<char>,
    path: Seq<char>,
    now: Moment,
)
    ensures
        ({
            let done = effect(tasks, CommandView::Add { name, description }, path, Some(now));
            &&& done.tasks.len() == tasks.len() + 1
            &&& done.tasks[tasks.len() as int] == (TaskView { name, description, created_at: now })
            &&& forall|i: int| 0 <= i < tasks.len() ==> done.tasks[i] == tasks[i]
        }),
{
}

/// Removing the task at `index` moves every task behind it one position
/// down and keeps every task before it.
pub proof fn law_remove_shifts_positions(
    tasks: Seq<TaskView>,
    index: u32,
    path: Seq<char>,
    clock: Option<Moment>,
)
    requires
        index < tasks.len(),
    ensures
        ({
            let done = effect(tasks, CommandView::Remove { index }, path, clock);
            &&& done.outcome is Ok
            &&& done.tasks.len() == tasks.len() - 1
            &&& forall|i: int| 0 <= i < index ==> done.tasks[i] == tasks[i]
            &&& forall|i: int| index <= i < tasks.len() - 1 ==> done.tasks[i] == tasks[i + 1]
        }),
{
}

/// Changing a field of the task at `index` replaces that field by the new
/// text. The task keeps its creation time and its other field, the list its
/// length, and every other task stays as it was.
pub proof fn law_change_keeps_the_rest(
    tasks: Seq<TaskView>,
    index: u32,
    field: Field,
    text: Seq<char>,
    path: Seq<char>,
    clock: Option<Moment>,
)
    requires
        index < tasks.len(),
    ensures
        ({
            let done = effect(tasks, CommandView::Change { index, field, text }, path, clock);
            let before = tasks[index as int];
            let after = done.tasks[index as int];
            &&& done.outcome == Ok::<Option<Seq<char>>, Error>(None)
            &&& done.tasks.len() == tasks.len()
            &&& after.created_at == before.created_at
            &&& field == Field::Name ==> after.name == text && after.description
                == before.description
            &&& field == Field::Description ==> after.description == text && after.name
                == before.name
            &&& forall|i: int| 0 <= i < tasks.len() && i != index ==> done.tasks[i] == tasks[i]
        }),
{
}

/// A command on a position that is not below the list's length fails as
/// out of range.
pub proof fn law_out_of_range_is_refused(
    tasks: Seq<TaskView>,
    index: u32,
    field: Field,
    text: Seq<char>,
    path: Seq<char>,
    clock: Option<Moment>,
)
    requires
        index >= tasks.len(),
    ensures
        effect(tasks, CommandView::Remove { index }, path, clock).outcome == Err::<
            Option<Seq<char>>,
            Error,
        >(Error::IndexOutOfRange),
        effect(tasks, CommandView::Change { index, field, text }, path, clock).outcome == Err::<
            Option<Seq<char>>,
            Error,
        >(Error::IndexOutOfRange),
{
}

/// A command that fails leaves the tasks as they were.
pub proof fn law_failure_changes_nothing(
    tasks: Seq<TaskView>,
    command: CommandView,
    path: Seq<char>,
    clock: Option<Moment>,
)
    requires
        effect(tasks, command, path, clock).outcome is Err,
    ensures
        effect(tasks, command, path, clock).tasks == tasks,
{
}

/// A command line that fails leaves the tasks as they were.
pub proof fn law_failed_command_line_changes_nothing(
    tasks: Seq<TaskView>,
    words: Seq<Seq<char>>,
    word: Seq<char>,
    path: Seq<char>,
    clock: Option<Moment>,
)
    requires
        dispatched(tasks, words, word, path, clock).outcome is Err,
    ensures
        dispatched(tasks, words, word, path, clock).tasks == tasks,
{
}

/// Showing the list, showing where it is stored, or a wrong command leaves
/// the tasks as they were: carried out twice, the command shows the same
/// text twice.
pub proof fn law_showing_changes_nothing(
    tasks: Seq<TaskView>,
    command: CommandView,
    path: Seq<char>,
    clock: Option<Moment>,
)
    requires
        command is List || command is File || command is Unknown,
    ensures
        effect(tasks, command, path, clock).tasks == tasks,
        effect(tasks, command, path, clock).outcome is Ok,
        effect(effect(tasks, command, path, clock).tasks, command, path, clock) == effect(
            tasks,
            command,
            path,
            clock,
        ),
{
}

/// A command line whose command word asks to show the list, to show where
/// it is stored, or is no command, leaves the tasks as they were, whatever
/// arguments follow the word.
pub proof fn law_showing_command_line_changes_nothing(
    tasks: Seq<TaskView>,
    words: Seq<Seq<char>>,
    word: Seq<char>,
    path: Seq<char>,
    clock: Option<Moment>,
)
    requires
        action_of(word) == Action::List || action_of(word) == Action::File || action_of(word)
            == Action::Unknown,
    ensures
        dispatched(tasks, words, word, path, clock).tasks == tasks,
        dispatched(tasks, words, word, path, clock).outcome is Ok,
        dispatched(dispatched(tasks, words, word, path, clock).tasks, words, word, path, clock)
            == dispatched(tasks, words, word, path, clock),
{
}

/// Only adding a task looks at the clock.
pub proof fn law_only_add_reads_the_clock(
    tasks: Seq<TaskView>,
    command: CommandView,
    path: Seq<char>,
    clock: Option<Moment>,
    other: Option<Moment>,
)
    requires
        !(command is Add),
    ensures
        effect(tasks, command, path, clock) == effect(tasks, command, path, other),
{
}

/// No command changes the creation time of a task that it leaves in the
/// list: every task after the command, but one just added, was there before
/// with the same creation time.
pub proof fn law_creation_time_is_fixed(
    tasks: Seq<TaskView>,
    command: CommandView,
    path: Seq<char>,
    clock: Option<Moment>,
    position: int,
)
    requires
        0 <= position < effect(tasks, command, path, clock).tasks.len(),
        !(command is Add && position == tasks.len()),
    ensures
        exists|earlier: int|
            0 <= earlier < tasks.len() && (#[trigger] tasks[earlier]).created_at == effect(
                tasks,
                command,
                path,
                clock,
            ).tasks[position].created_at,
{
    let done = effect(tasks, command, path, clock);
    match command {
        CommandView::Remove { index } => {
            if index < tasks.len() && position >= index {
                assert(tasks[position + 1].created_at == done.tasks[position].created_at);
            } else {
                assert(tasks[position].created_at == done.tasks[position].created_at);
            }
        },
        _ => {
            assert(tasks[position].created_at == done.tasks[position].created_at);
        },
    }
}

} // verus!
