//! The task store: the records, the id counter, and the operations on them.
//!
//! The records are one durable map. It holds each task under its id, and the counter under
//! the key that no task has, so that tasks and counter outlast the process together.

use crate::codec::{decoding, fits, storable};
use crate::registry::{Registry, NOT_OWNER, TASK_NOT_FOUND};
use crate::storage::{empty_records, entries, kept_records, lookup, put, stored, take, Records};
use crate::task::{Identity, Task};
use vstd::bytes::{
    lemma_auto_spec_u64_to_from_le_bytes, spec_u64_from_le_bytes, u64_from_le_bytes,
    u64_to_le_bytes,
};
use vstd::prelude::*;

verus! {

/// The key under which the records hold the counter, as eight bytes, least first. No task
/// has this id, so the counter lasts exactly as long as the tasks do.
pub const COUNTER_KEY: u64 = 0;

/// The counter that records hold: 0 where none has been written yet.
spec fn counter_in(held: Map<u64, Seq<u8>>) -> u64 {
    if held.contains_key(COUNTER_KEY) {
        spec_u64_from_le_bytes(held[COUNTER_KEY])
    } else {
        0
    }
}

/// The registry as it is kept: each task encoded under its id, and the id counter.
pub struct TaskStore {
    records: Records,
    issued: u64,
}

impl View for TaskStore {
    type V = Registry;

    closed spec fn view(&self) -> Registry {
        Registry {
            tasks: Map::new(
                |id: u64| id != COUNTER_KEY && stored(self.records).contains_key(id),
                |id: u64| decoding(stored(self.records)[id]).unwrap(),
            ),
            issued: self.issued,
        }
    }
}

impl TaskStore {
    /// The records that the store keeps.
    pub closed spec fn kept(&self) -> Records {
        self.records
    }

    /// Whether records are those of a task store: the counter, where it is there, is eight
    /// bytes long; every other record decodes to a task that carries the id it is stored
    /// under; that id is at most the counter; and the task is small enough to be stored
    /// again.
    pub closed spec fn sound(records: Records) -> bool {
        let held = stored(records);
        &&& held.contains_key(COUNTER_KEY) ==> held[COUNTER_KEY].len() == 8
        &&& forall|id: u64|
            id != COUNTER_KEY && #[trigger] held.contains_key(id) ==> {
                &&& id <= counter_in(held)
                &&& decoding(held[id]) matches Some(task)
                &&& task.id == id
                &&& fits(task.title, task.owner)
            }
    }

    /// The records are sound, and the counter is the one they hold.
    pub closed spec fn wf(&self) -> bool {
        &&& Self::sound(self.records)
        &&& self.issued == counter_in(stored(self.records))
    }

    /// A well-formed store is a valid registry.
    pub proof fn wf_is_valid(&self)
        requires
            self.wf(),
        ensures
            self@.valid(),
    {
    }

    /// Well-formed stores over the same records are the same registry: the records hold
    /// all there is to a store.
    pub proof fn records_are_all(&self, other: &TaskStore)
        requires
            self.wf(),
            other.wf(),
            self.kept() == other.kept(),
        ensures
            self@ == other@,
    {
        assert(self@.tasks =~= other@.tasks);
    }

    /// A store that holds no task and has handed out no id, over a memory of its own.
    ///
    /// A process holds one store. On a canister the default memory is the one stable
    /// memory: a second store there would write over the records of the first, and what
    /// the memory held before is lost. Use `reopen` to go on with what is kept.
    pub fn new() -> (store: TaskStore)
        ensures
            store.wf(),
            store@ == Registry::fresh(),
    {
        let store = TaskStore { records: empty_records(), issued: 0 };
        assert(store@.tasks =~= Map::empty());
        store
    }

    /// The store over the records that the default memory holds: the tasks and the counter
    /// as they were left, or an empty store where the memory holds none. `None` where the
    /// records are not those of a task store.
    ///
    /// A process holds one store: see `new`.
    pub fn reopen() -> (store: Option<TaskStore>)
        ensures
            store matches Some(s) ==> s.wf(),
    {
        Self::restore(kept_records())
    }

    /// The store over these records, where they are sound: its tasks and its counter are
    /// the ones that the records hold.
    pub fn restore(records: Records) -> (store: Option<TaskStore>)
        ensures
            match store {
                Some(s) => s.wf() && Self::sound(records) && s.kept() == records,
                None => !Self::sound(records),
            },
    {
        let issued: u64 = match lookup(&records, COUNTER_KEY) {
            Some(bytes) => {
                if bytes.len() != 8 {
                    return None;
                }
                u64_from_le_bytes(bytes.as_slice())
            },
            None => 0,
        };
        let all = entries(&records);
        let mut i: usize = 0;
        while i < all.len()
            invariant
                i <= all.len(),
                issued == counter_in(stored(records)),
                forall|k: int|
                    0 <= k < all@.len() ==> stored(records).contains_key(#[trigger] all@[k].0)
                        && stored(records)[all@[k].0] == all@[k].1@,
                forall|k: int|
                    0 <= k < i && (#[trigger] all@[k]).0 != COUNTER_KEY ==> {
                        &&& all@[k].0 <= issued
                        &&& decoding(all@[k].1@) matches Some(task)
                        &&& task.id == all@[k].0
                        &&& fits(task.title, task.owner)
                    },
            decreases all.len() - i,
        {
            let id = all[i].0;
            assert(stored(records).contains_key(all@[i as int].0));
            if id != COUNTER_KEY {
                if id > issued {
                    return None;
                }
                match Task::from_bytes(&all[i].1) {
                    Some(task) => {
                        if task.id != id || !storable(&task.title, &task.owner) {
                            return None;
                        }
                    },
                    None => {
                        return None;
                    },
                }
            }
            i += 1;
        }
        proof {
            let held = stored(records);
            assert forall|id: u64| id != COUNTER_KEY && #[trigger] held.contains_key(id) implies {
                &&& id <= counter_in(held)
                &&& decoding(held[id]) matches Some(task)
                &&& task.id == id
                &&& fits(task.title, task.owner)
            } by {
                let k = choose|k: int| 0 <= k < all@.len() && all@[k].0 == id;
                assert(all@[k].0 != COUNTER_KEY);
            }
        }
        Some(TaskStore { records, issued })
    }

    /// Gives up the store for its records, from which `restore` makes the same store again.
    pub fn into_records(self) -> (records: Records)
        requires
            self.wf(),
        ensures
            records == self.kept(),
            Self::sound(records),
    {
        self.records
    }

    /// The last id that was handed out; 0 before the first.
    pub fn issued(&self) -> (last: u64)
        ensures
            last == self@.issued,
    {
        self.issued
    }
}

/// Adds a task with this title, owned by `caller` and not completed, under the next id,
/// and returns that id.
pub fn add_task(store: &mut TaskStore, caller: &Identity, title: String) -> (id: u64)
    requires
        old(store).wf(),
        old(store)@.issued < u64::MAX,
        fits(title@, caller@),
    ensures
        final(store).wf(),
        id == old(store)@.next_id(),
        final(store)@ == old(store)@.add(caller@, title@),
{
    let id = store.issued + 1;
    store.issued = id;
    proof {
        lemma_auto_spec_u64_to_from_le_bytes();
    }
    put(&mut store.records, COUNTER_KEY, u64_to_le_bytes(id));
    let task = Task { id, title, completed: false, owner: caller.clone() };
    let bytes = task.to_bytes();
    put(&mut store.records, id, bytes);
    assert(store@.tasks =~= old(store)@.add(caller@, title@).tasks);
    id
}

/// Every task, by rising id.
pub fn get_tasks(store: &TaskStore) -> (tasks: Vec<Task>)
    requires
        store.wf(),
    ensures
        store@.listed_as(tasks@.map_values(|t: Task| t@)),
{
    let all = entries(&store.records);
    // The counter has the least key, so it comes first where it is there.
    let first: usize = if all.len() > 0 && all[0].0 == COUNTER_KEY {
        1
    } else {
        0
    };
    let mut tasks: Vec<Task> = Vec::new();
    let mut i: usize = first;
    while i < all.len()
        invariant
            store.wf(),
            first <= i <= all.len(),
            first <= 1,
            tasks.len() == i - first,
            forall|k: int| first <= k < all@.len() ==> (#[trigger] all@[k]).0 != COUNTER_KEY,
            forall|k: int|
                0 <= k < all@.len() ==> stored(store.records).contains_key(#[trigger] all@[k].0)
                    && stored(store.records)[all@[k].0] == all@[k].1@,
            forall|j: int|
                0 <= j < i - first ==> decoding(all@[j + first].1@) == Some(
                    #[trigger] tasks@[j]@,
                ),
        decreases all.len() - i,
    {
        assert(stored(store.records).contains_key(all@[i as int].0));
        assert(all@[i as int].0 != COUNTER_KEY);
        // Every record of a task decodes, so nothing is left out.
        if let Some(task) = Task::from_bytes(&all[i].1) {
            tasks.push(task);
        }
        i += 1;
    }
    proof {
        let listing = tasks@.map_values(|t: Task| t@);
        assert forall|k: int| 0 <= k < listing.len() implies #[trigger] listing[k].id == all@[k
            + first].0 && store@.tasks.contains_key(listing[k].id) && store@.tasks[listing[k].id]
            == listing[k] by {
            assert(all@[k + first].0 != COUNTER_KEY);
            assert(stored(store.records).contains_key(all@[k + first].0));
            assert(decoding(all@[k + first].1@) == Some(tasks@[k]@));
        }
        assert forall|id: u64| #[trigger] store@.tasks.contains_key(id) implies exists|k: int|
            0 <= k < listing.len() && listing[k].id == id by {
            assert(stored(store.records).contains_key(id));
            let k = choose|k: int| 0 <= k < all@.len() && all@[k].0 == id;
            assert(listing[k - first].id == id);
        }
    }
    tasks
}

/// Deletes the task with this id, whoever owns it. Fails where there is none.
pub fn delete_task(store: &mut TaskStore, id: u64) -> (done: Result<(), String>)
    requires
        old(store).wf(),
    ensures
        final(store).wf(),
        match done {
            Ok(_) => old(store)@.delete_outcome(id) is Ok,
            Err(message) => old(store)@.delete_outcome(id) == Err::<(), Seq<char>>(message@),
        },
        final(store)@ == old(store)@.delete(id),
{
    // The counter is no task.
    let before = if id == COUNTER_KEY {
        None
    } else {
        take(&mut store.records, id)
    };
    assert(store@.tasks =~= old(store)@.delete(id).tasks);
    if before.is_some() {
        Ok(())
    } else {
        Err(TASK_NOT_FOUND.to_owned())
    }
}

/// Gives the task with this id a new title, a new completion flag, both or neither, on
/// behalf of `caller`. Fails where there is no such task, or where `caller` does not own
/// it; a call that fails changes nothing. A new title has to fit only where it is stored.
pub fn update_task(
    store: &mut TaskStore,
    caller: &Identity,
    id: u64,
    new_title: Option<String>,
    completed: Option<bool>,
) -> (done: Result<(), String>)
    requires
        old(store).wf(),
        new_title matches Some(title) ==> (old(store)@.update_outcome(id, caller@) is Ok ==> fits(
            title@,
            caller@,
        )),
    ensures
        final(store).wf(),
        match done {
            Ok(_) => old(store)@.update_outcome(id, caller@) is Ok,
            Err(message) => old(store)@.update_outcome(id, caller@) == Err::<(), Seq<char>>(
                message@,
            ),
        },
        final(store)@ == old(store)@.update(
            id,
            caller@,
            match new_title {
                Some(title) => Some(title@),
                None => None,
            },
            completed,
        ),
        done is Err ==> *final(store) == *old(store),
{
    // The counter is no task; a record of a task decodes, since the store is well formed.
    let found = if id == COUNTER_KEY {
        None
    } else {
        match lookup(&store.records, id) {
            Some(bytes) => Task::from_bytes(&bytes),
            None => None,
        }
    };
    match found {
        None => Err(TASK_NOT_FOUND.to_owned()),
        Some(task) => {
            if !task.owner.same_as(caller) {
                return Err(NOT_OWNER.to_owned());
            }
            let mut task = task;
            if let Some(title) = new_title {
                task.title = title;
            }
            if let Some(status) = completed {
                task.completed = status;
            }
            let bytes = task.to_bytes();
            put(&mut store.records, id, bytes);
            assert(store@.tasks =~= old(store)@.update(
                id,
                caller@,
                match new_title {
                    Some(title) => Some(title@),
                    None => None,
                },
                completed,
            ).tasks);
            Ok(())
        },
    }
}

} // verus!
