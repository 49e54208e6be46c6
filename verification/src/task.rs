//! A task: a name, a description and the time it was created.

use vstd::prelude::*;
use vstd::string::StringExecFns;
use crate::style::{emphasize, emphasized, subdue, subdued};
use crate::timestamp::{Moment, Timestamp};

verus! {

/// What a task holds, as plain values.
pub struct TaskView {
    pub name: Seq<char>,
    pub description: Seq<char>,
    pub created_at: Moment,
}

impl TaskView {
    /// The task as it is displayed: the name, a colon and the description
    /// on one line, the creation time indented on the next. With `styled`
    /// the name is emphasized and the creation time subdued.
    pub open spec fn rendered(self, styled: bool) -> Seq<char> {
        if styled {
            emphasized(self.name) + seq![':', ' '] + self.description + seq!['\n', '\t'] + subdued(
                self.created_at.text(),
            )
        } else {
            self.name + seq![':', ' '] + self.description + seq!['\n', '\t']
                + self.created_at.text()
        }
    }
}

/// A task. Its creation time is fixed when it is made.
#[derive(Debug)]
pub struct Task {
    name: String,
    description: String,
    created_at: Timestamp,
}

impl View for Task {
    type V = TaskView;

    closed spec fn view(&self) -> TaskView {
        TaskView {
            name: self.name@,
            description: self.description@,
            created_at: self.created_at@,
        }
    }
}

impl Task {
    /// Makes a task that was created at `created_at`.
    pub fn with_timestamp(name: String, description: String, created_at: Timestamp) -> (task: Task)
        ensures
            task@ == (TaskView { name: name@, description: description@, created_at: created_at@ }),
    {
        Task { name, description, created_at }
    }

    /// Makes a task that is created now, if the clock shows a moment that a
    /// timestamp can hold.
    pub fn new(name: String, description: String) -> (task: Option<Task>)
        ensures
            task matches Some(t) ==> {
                &&& t@.name == name@
                &&& t@.description == description@
                &&& t@.created_at.is_valid()
            },
    {
        match Timestamp::now() {
            Some(created_at) => Some(Task::with_timestamp(name, description, created_at)),
            None => None,
        }
    }

    pub fn name(&self) -> (name: &str)
        ensures
            name@ == self@.name,
    {
        self.name.as_str()
    }

    pub fn description(&self) -> (description: &str)
        ensures
            description@ == self@.description,
    {
        self.description.as_str()
    }

    pub fn created_at(&self) -> (created_at: Timestamp)
        ensures
            created_at@ == self@.created_at,
    {
        self.created_at
    }

    /// Replaces the name and nothing else.
    pub fn set_name(&mut self, name: String)
        ensures
            final(self)@ == (TaskView { name: name@, ..old(self)@ }),
    {
        self.name = name;
    }

    /// Replaces the description and nothing else.
    pub fn set_description(&mut self, description: String)
        ensures
            final(self)@ == (TaskView { description: description@, ..old(self)@ }),
    {
        self.description = description;
    }

    /// The task as it is displayed on a terminal.
    pub fn render(&self) -> (text: String)
        ensures
            text@ == self@.rendered(true),
    {
        let mut text = emphasize(self.name.as_str());
        text.append(": ");
        text.append(self.description.as_str());
        text.append("\n\t");
        let stamp = self.created_at.text();
        let stamp = subdue(stamp.as_str());
        text.append(stamp.as_str());
        proof {
            reveal_strlit(": ");
            reveal_strlit("\n\t");
        }
        text
    }

    /// The task as it is displayed where styles mean nothing.
    pub fn render_plain(&self) -> (text: String)
        ensures
            text@ == self@.rendered(false),
    {
        let mut text = self.name.clone();
        text.append(": ");
        text.append(self.description.as_str());
        text.append("\n\t");
        let stamp = self.created_at.text();
        text.append(stamp.as_str());
        proof {
            reveal_strlit(": ");
            reveal_strlit("\n\t");
        }
        text
    }
}

} // verus!
