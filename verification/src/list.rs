//! The task list: tasks in the order in which they were added.

use vstd::prelude::*;
use vstd::string::StringExecFns;
use crate::error::Error;
use crate::task::{Task, TaskView};
use crate::text::{decimal, decimal_string, joined, lemma_joined_push};

verus! {

/// A task as it is displayed in a list: its position, a closing
/// parenthesis, and the task.
pub open spec fn entry(position: nat, task: TaskView, styled: bool) -> Seq<char> {
    decimal(position) + seq![')', ' '] + task.rendered(styled)
}

/// The entries of all tasks, each under its position.
pub open spec fn entries(tasks: Seq<TaskView>, styled: bool) -> Seq<Seq<char>> {
    Seq::new(tasks.len(), |i: int| entry(i as nat, tasks[i], styled))
}

/// The list as it is displayed: the entries in their order, a blank line
/// between each two neighbours. The empty list displays as the empty text.
pub open spec fn rendered_list(tasks: Seq<TaskView>, styled: bool) -> Seq<char> {
    joined(entries(tasks, styled), seq!['\n', '\n'])
}

/// Writes the entry of `task` at `position`.
pub fn entry_text(position: usize, task: &Task, styled: bool) -> (text: String)
    ensures
        text@ == entry(position as nat, task@, styled),
{
    let mut text = decimal_string(position as u64);
    text.append(") ");
    let task = if styled {
        task.render()
    } else {
        task.render_plain()
    };
    text.append(task.as_str());
    proof {
        reveal_strlit(") ");
    }
    text
}

/// The tasks, each at its position: the first task added is at 0.
#[derive(Debug)]
pub struct ToDo {
    tasks: Vec<Task>,
}

impl View for ToDo {
    type V = Seq<TaskView>;

    closed spec fn view(&self) -> Seq<TaskView> {
        Seq::new(self.tasks@.len(), |i: int| self.tasks@[i]@)
    }
}

impl ToDo {
    /// The empty list.
    pub fn new() -> (list: ToDo)
        ensures
            list@ == Seq::<TaskView>::empty(),
    {
        ToDo { tasks: Vec::new() }
    }

    /// The number of tasks.
    pub fn len(&self) -> (len: usize)
        ensures
            len == self@.len(),
    {
        self.tasks.len()
    }

    /// The task at position `num`, to be read.
    pub fn task(&self, num: u32) -> (found: Option<&Task>)
        ensures
            match found {
                Some(task) => num < self@.len() && task@ == self@[num as int],
                None => num >= self@.len(),
            },
    {
        let index = num as usize;
        if index < self.tasks.len() {
            Some(&self.tasks[index])
        } else {
            None
        }
    }

    /// Puts `task` at the end of the list.
    pub fn add(&mut self, task: Task)
        ensures
            final(self)@ == old(self)@.push(task@),
    {
        self.tasks.push(task);
    }

    /// The task at position `num`, to be changed in place.
    pub fn get(&mut self, num: u32) -> (found: Result<&mut Task, Error>)
        ensures
            match found {
                Ok(task) => {
                    &&& num < old(self)@.len()
                    &&& task@ == old(self)@[num as int]
                    &&& final(self)@ == old(self)@.update(num as int, final(task)@)
                },
                Err(error) => {
                    &&& num >= old(self)@.len()
                    &&& error == Error::IndexOutOfRange
                    &&& final(self)@ == old(self)@
                },
            },
    {
        let index = num as usize;
        if index < self.tasks.len() {
            Ok(&mut self.tasks[index])
        } else {
            Err(Error::IndexOutOfRange)
        }
    }

    /// Writes the list with the tasks styled or plain.
    fn render_as(&self, styled: bool) -> (text: String)
        ensures
            text@ == rendered_list(self@, styled),
    {
        let mut text = String::new();
        let mut i: usize = 0;
        while i < self.tasks.len()
            invariant
                i <= self.tasks.len(),
                text@ == joined(entries(self@, styled).subrange(0, i as int), seq!['\n', '\n']),
            decreases self.tasks.len() - i,
        {
            if i > 0 {
                text.append("\n\n");
            }
            let entry = entry_text(i, &self.tasks[i], styled);
            text.append(entry.as_str());
            proof {
                reveal_strlit("\n\n");
                let before = entries(self@, styled).subrange(0, i as int);
                lemma_joined_push(before, entry@, seq!['\n', '\n']);
                assert(entries(self@, styled).subrange(0, i + 1) =~= before.push(entry@));
            }
            i += 1;
        }
        assert(entries(self@, styled).subrange(0, i as int) =~= entries(self@, styled));
        text
    }

    /// The list as it is displayed on a terminal.
    pub fn render(&self) -> (text: String)
        ensures
            text@ == rendered_list(self@, true),
    {
        self.render_as(true)
    }

    /// The list as it is displayed where styles mean nothing.
    pub fn render_plain(&self) -> (text: String)
        ensures
            text@ == rendered_list(self@, false),
    {
        self.render_as(false)
    }

    /// Takes the task at position `num` out of the list; the tasks behind it
    /// move one position down.
    pub fn pop(&mut self, num: u32) -> (removed: Result<Task, Error>)
        ensures
            match removed {
                Ok(task) => {
                    &&& num < old(self)@.len()
                    &&& task@ == old(self)@[num as int]
                    &&& final(self)@ == old(self)@.remove(num as int)
                },
                Err(error) => {
                    &&& num >= old(self)@.len()
                    &&& error == Error::IndexOutOfRange
                    &&& final(self)@ == old(self)@
                },
            },
    {
        let index = num as usize;
        if index < self.tasks.len() {
            let task = self.tasks.remove(index);
            Ok(task)
        } else {
            Err(Error::IndexOutOfRange)
        }
    }
}

} // verus!
