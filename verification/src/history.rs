//! Calls one after another: what a registry becomes under a sequence of them.

use crate::registry::Registry;
use vstd::prelude::*;

verus! {

/// One call of an operation that changes the registry, with its arguments.
pub enum Call {
    Add { caller: Seq<u8>, title: Seq<char> },
    Delete { id: u64 },
    Update { id: u64, caller: Seq<u8>, new_title: Option<Seq<char>>, completed: Option<bool> },
}

impl Registry {
    /// Whether the call can be made: a task can be added while the counter can still rise.
    pub open spec fn admits(self, call: Call) -> bool {
        call is Add ==> self.issued < u64::MAX
    }

    /// The registry after one call.
    pub open spec fn after(self, call: Call) -> Registry {
        match call {
            Call::Add { caller, title } => self.add(caller, title),
            Call::Delete { id } => self.delete(id),
            Call::Update { id, caller, new_title, completed } => self.update(
                id,
                caller,
                new_title,
                completed,
            ),
        }
    }

    /// The registry after a sequence of calls, made in order.
    pub open spec fn after_all(self, calls: Seq<Call>) -> Registry
        decreases calls.len(),
    {
        if calls.len() == 0 {
            self
        } else {
            self.after_all(calls.drop_last()).after(calls.last())
        }
    }

    /// Whether each call of the sequence can be made when its turn comes.
    pub open spec fn admits_all(self, calls: Seq<Call>) -> bool {
        forall|n: int|
            0 <= n < calls.len() ==> self.after_all(calls.take(n)).admits(#[trigger] calls[n])
    }

    /// The id that the `n`-th call of the sequence returns, where that call adds a task.
    pub open spec fn id_given(self, calls: Seq<Call>, n: int) -> u64
        recommends
            0 <= n < calls.len(),
            calls[n] is Add,
    {
        self.after_all(calls.take(n)).next_id()
    }
}

} // verus!
