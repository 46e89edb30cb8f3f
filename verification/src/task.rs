//! Tasks and the identities that own them.

use vstd::prelude::*;

verus! {

/// The identity of a caller: an opaque run of bytes, compared for equality and nothing else.
#[derive(Debug, PartialEq, Eq, Hash)]
pub struct Identity {
    pub bytes: Vec<u8>,
}

impl View for Identity {
    type V = Seq<u8>;

    open spec fn view(&self) -> Seq<u8> {
        self.bytes@
    }
}

impl Clone for Identity {
    fn clone(&self) -> (copy: Identity)
        ensures
            copy@ == self@,
    {
        Identity { bytes: self.bytes.clone() }
    }
}

impl Identity {
    /// The identity that `bytes` spells.
    pub fn new(bytes: Vec<u8>) -> (who: Identity)
        ensures
            who@ == bytes@,
    {
        Identity { bytes }
    }

    /// Whether two identities are the same one.
    pub fn same_as(&self, other: &Identity) -> (same: bool)
        ensures
            same == (self@ == other@),
    {
        let same = self.bytes == other.bytes;
        proof {
            if same {
                assert(self.bytes@ =~= other.bytes@);
            }
        }
        same
    }
}

/// A to-do item.
#[derive(Clone, Debug, PartialEq, Eq)]
pub struct Task {
    /// The key under which the task is stored; never changes.
    pub id: u64,
    pub title: String,
    pub completed: bool,
    /// Whoever created the task; never changes.
    pub owner: Identity,
}

/// A task as a mathematical value.
pub struct TaskView {
    pub id: u64,
    pub title: Seq<char>,
    pub completed: bool,
    pub owner: Seq<u8>,
}

impl View for Task {
    type V = TaskView;

    open spec fn view(&self) -> TaskView {
        TaskView { id: self.id, title: self.title@, completed: self.completed, owner: self.owner@ }
    }
}

} // verus!
