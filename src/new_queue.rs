//! The form that creates a new queue.
use vstd::prelude::*;
use crate::protocol::Command;

verus! {

/// A new-queue form: the queue's name and the group it is restricted to,
/// empty when anyone may join.
pub struct NewQueueApp {
    pub name: String,
    pub restrict_to_group: String,
}

impl NewQueueApp {
    pub fn new(name: String, restrict_to_group: String) -> (r: Self)
        ensures
            r.name == name,
            r.restrict_to_group == restrict_to_group,
    {
        Self { name, restrict_to_group }
    }

    /// The command that submitting the form sends; an empty group is sent
    /// as no restriction.
    pub fn submit(self) -> (r: Command)
        ensures
            r == (Command::NewQueue {
                name: self.name,
                restrict_to_group: if self.restrict_to_group@.len() == 0 {
                    None
                } else {
                    Some(self.restrict_to_group)
                },
            }),
    {
        if self.restrict_to_group.as_str().unicode_len() == 0 {
            Command::NewQueue { name: self.name, restrict_to_group: None }
        } else {
            Command::NewQueue { name: self.name, restrict_to_group: Some(self.restrict_to_group) }
        }
    }
}

} // verus!
