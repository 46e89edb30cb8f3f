//! The registry as a mathematical value, and what each operation does to it.

use crate::task::TaskView;
use vstd::prelude::*;

verus! {

/// What a caller is told where no task has the id it gave.
pub const TASK_NOT_FOUND: &'static str = "Task not found";

/// What a caller is told where it asks to change a task that another identity owns.
pub const NOT_OWNER: &'static str = "You are not the owner of this \
    task";

/// The failure "no task has this id", as the message that reports it.
pub open spec fn task_not_found() -> Seq<char> {
    TASK_NOT_FOUND@
}

/// The failure "the caller does not own the task", as the message that reports it.
pub open spec fn not_owner() -> Seq<char> {
    NOT_OWNER@
}

/// A task after an update: each field that is given replaces the old one.
pub open spec fn revised(task: TaskView, title: Option<Seq<char>>, completed: Option<bool>)
    -> TaskView {
    TaskView {
        title: match title {
            Some(t) => t,
            None => task.title,
        },
        completed: match completed {
            Some(c) => c,
            None => task.completed,
        },
        ..task
    }
}

/// The tasks by id, and the last id that was handed out.
pub struct Registry {
    pub tasks: Map<u64, TaskView>,
    pub issued: u64,
}

impl Registry {
    /// A registry that has never held a task.
    pub open spec fn fresh() -> Registry {
        Registry { tasks: Map::empty(), issued: 0 }
    }

    /// Every task is stored under its own id, and every id in use has been handed out.
    pub open spec fn valid(self) -> bool {
        forall|id: u64| #[trigger]
            self.tasks.contains_key(id) ==> self.tasks[id].id == id && 1 <= id <= self.issued
    }

    /// The id that the next task gets.
    pub open spec fn next_id(self) -> u64
        recommends
            self.issued < u64::MAX,
    {
        (self.issued + 1) as u64
    }

    /// The registry after `caller` has added a task with this title.
    pub open spec fn add(self, caller: Seq<u8>, title: Seq<char>) -> Registry
        recommends
            self.issued < u64::MAX,
    {
        let id = self.next_id();
        Registry {
            tasks: self.tasks.insert(id, TaskView { id, title, completed: false, owner: caller }),
            issued: id,
        }
    }

    /// What deleting `id` reports: it fails exactly where no task has that id.
    pub open spec fn delete_outcome(self, id: u64) -> Result<(), Seq<char>> {
        if self.tasks.contains_key(id) {
            Ok(())
        } else {
            Err(task_not_found())
        }
    }

    /// The registry after `id` has been deleted. Whoever asks, the task goes.
    pub open spec fn delete(self, id: u64) -> Registry {
        Registry { tasks: self.tasks.remove(id), ..self }
    }

    /// What an update of `id` by `caller` reports: the id is looked up first, then the owner
    /// is compared.
    pub open spec fn update_outcome(self, id: u64, caller: Seq<u8>) -> Result<(), Seq<char>> {
        if !self.tasks.contains_key(id) {
            Err(task_not_found())
        } else if self.tasks[id].owner != caller {
            Err(not_owner())
        } else {
            Ok(())
        }
    }

    /// The registry after `caller` has asked for an update of `id`: where the update is
    /// refused nothing changes.
    pub open spec fn update(
        self,
        id: u64,
        caller: Seq<u8>,
        title: Option<Seq<char>>,
        completed: Option<bool>,
    ) -> Registry {
        if self.update_outcome(id, caller) is Ok {
            Registry { tasks: self.tasks.insert(id, revised(self.tasks[id], title, completed)), ..self }
        } else {
            self
        }
    }

    /// Whether `listing` holds every task once, by rising id.
    pub open spec fn listed_as(self, listing: Seq<TaskView>) -> bool {
        &&& forall|i: int, j: int| 0 <= i < j < listing.len() ==> listing[i].id < listing[j].id
        &&& forall|i: int|
            0 <= i < listing.len() ==> self.tasks.contains_key(#[trigger] listing[i].id)
                && self.tasks[listing[i].id] == listing[i]
        &&& forall|id: u64| #[trigger]
            self.tasks.contains_key(id) ==> exists|i: int|
                0 <= i < listing.len() && listing[i].id == id
    }
}

} // verus!
