//! What holds of the registry whatever calls are made.

use crate::history::Call;
use crate::registry::{not_owner, revised, task_not_found, Registry};
use crate::task::TaskView;
use vstd::prelude::*;

verus! {

/// The two failures are told apart by their messages.
pub proof fn failures_differ()
    ensures
        task_not_found() != not_owner(),
{
    reveal_strlit("Task not found");
    reveal_strlit("You are not the owner of this \
        task");
    assert(task_not_found().len() == 14);
    assert(not_owner().len() == 34);
}

/// A registry that has never held a task is valid.
pub proof fn fresh_is_valid()
    ensures
        Registry::fresh().valid(),
{
}

/// A call keeps a valid registry valid, and never lowers the counter; adding a task raises
/// it by one, and nothing else changes it.
pub proof fn call_keeps_valid(r: Registry, call: Call)
    requires
        r.valid(),
        r.admits(call),
    ensures
        r.after(call).valid(),
        r.after(call).issued == if call is Add {
            r.issued + 1
        } else {
            r.issued as int
        },
{
}

/// The registry after the first `n + 1` calls is the registry after the first `n`, after
/// one call more.
proof fn lemma_one_more(r: Registry, calls: Seq<Call>, n: int)
    requires
        0 <= n < calls.len(),
    ensures
        r.after_all(calls.take(n + 1)) == r.after_all(calls.take(n)).after(calls[n]),
{
    assert(calls.take(n + 1).drop_last() =~= calls.take(n));
}

/// Calls that can be made keep a valid registry valid, and the counter never falls.
pub proof fn calls_keep_valid(r: Registry, calls: Seq<Call>, n: int)
    requires
        r.valid(),
        r.admits_all(calls),
        0 <= n <= calls.len(),
    ensures
        r.after_all(calls.take(n)).valid(),
        r.issued <= r.after_all(calls.take(n)).issued,
    decreases n,
{
    if n > 0 {
        calls_keep_valid(r, calls, n - 1);
        lemma_one_more(r, calls, n - 1);
        call_keeps_valid(r.after_all(calls.take(n - 1)), calls[n - 1]);
    }
}

/// The counter after the first `m` calls is at least what it was after the first `n`.
proof fn lemma_counter_rises(r: Registry, calls: Seq<Call>, n: int, m: int)
    requires
        r.valid(),
        r.admits_all(calls),
        0 <= n <= m <= calls.len(),
    ensures
        r.after_all(calls.take(n)).issued <= r.after_all(calls.take(m)).issued,
    decreases m - n,
{
    if n < m {
        lemma_counter_rises(r, calls, n, m - 1);
        calls_keep_valid(r, calls, m - 1);
        lemma_one_more(r, calls, m - 1);
        call_keeps_valid(r.after_all(calls.take(m - 1)), calls[m - 1]);
    }
}

/// Ids rise: of two calls that add a task, the later returns the greater id, whatever calls
/// are made before, between and after them. So no id is returned twice.
pub proof fn ids_rise(r: Registry, calls: Seq<Call>, i: int, j: int)
    requires
        r.valid(),
        r.admits_all(calls),
        0 <= i < j < calls.len(),
        calls[i] is Add,
        calls[j] is Add,
    ensures
        r.id_given(calls, i) < r.id_given(calls, j),
{
    calls_keep_valid(r, calls, i);
    lemma_one_more(r, calls, i);
    call_keeps_valid(r.after_all(calls.take(i)), calls[i]);
    lemma_counter_rises(r, calls, i + 1, j);
}

/// Adding a task hands out the counter plus one, which becomes the counter. That id was
/// in use by no task, and the tasks are the old ones and the new one, not completed and
/// owned by the caller.
pub proof fn add_takes_a_new_id(r: Registry, caller: Seq<u8>, title: Seq<char>)
    requires
        r.valid(),
        r.issued < u64::MAX,
    ensures
        r.next_id() == r.issued + 1,
        r.add(caller, title).issued == r.next_id(),
        !r.tasks.contains_key(r.next_id()),
        r.add(caller, title).tasks == r.tasks.insert(
            r.next_id(),
            TaskView { id: r.next_id(), title, completed: false, owner: caller },
        ),
        forall|id: u64|
            r.tasks.contains_key(id) ==> r.add(caller, title).tasks.contains_key(id) && r.add(
                caller,
                title,
            ).tasks[id] == r.tasks[id],
{
}

/// Two listings of one registry are the same sequence.
pub proof fn listing_is_unique(r: Registry, a: Seq<TaskView>, b: Seq<TaskView>)
    requires
        r.listed_as(a),
        r.listed_as(b),
    ensures
        a == b,
{
    lemma_same_ids(r, a, b, a.len() as int);
    lemma_same_ids(r, b, a, b.len() as int);
    assert(a =~= b);
}

/// Two listings of one registry agree on their first `n` ids, and the second is at least
/// as long as `n`.
proof fn lemma_same_ids(r: Registry, a: Seq<TaskView>, b: Seq<TaskView>, n: int)
    requires
        r.listed_as(a),
        r.listed_as(b),
        0 <= n <= a.len(),
    ensures
        n <= b.len(),
        forall|i: int| 0 <= i < n ==> a[i] == b[i],
    decreases n,
{
    if n > 0 {
        lemma_same_ids(r, a, b, n - 1);
        let id = a[n - 1].id;
        assert(r.tasks.contains_key(id));
        let j = choose|j: int| 0 <= j < b.len() && b[j].id == id;
        if j < n - 1 {
            assert(a[j] == b[j]);
            assert(a[j].id < a[n - 1].id);
        }
        // b[n - 1] comes no later than b[j], and it is listed in a as well
        let other = b[n - 1].id;
        assert(r.tasks.contains_key(other));
        let i = choose|i: int| 0 <= i < a.len() && a[i].id == other;
        if i < n - 1 {
            assert(a[i] == b[i]);
            assert(b[i].id < b[n - 1].id);
        }
        assert(other == id);
        assert(r.tasks[id] == a[n - 1]);
        assert(r.tasks[other] == b[n - 1]);
    }
}

/// After `caller` has added a task, a listing of the registry holds that task, not
/// completed and owned by `caller`, at exactly one place.
pub proof fn added_task_is_listed_once(
    r: Registry,
    caller: Seq<u8>,
    title: Seq<char>,
    listing: Seq<TaskView>,
)
    requires
        r.valid(),
        r.issued < u64::MAX,
        r.add(caller, title).listed_as(listing),
    ensures
        exists|i: int|
            0 <= i < listing.len() && #[trigger] listing[i] == (TaskView {
                id: r.next_id(),
                title,
                completed: false,
                owner: caller,
            }) && forall|j: int|
                0 <= j < listing.len() && j != i ==> (#[trigger] listing[j]).id != r.next_id(),
{
    let after = r.add(caller, title);
    let id = r.next_id();
    assert(after.tasks.contains_key(id));
    let i = choose|i: int| 0 <= i < listing.len() && listing[i].id == id;
    assert(after.tasks[listing[i].id] == listing[i]);
    assert forall|j: int| 0 <= j < listing.len() && j != i implies (#[trigger] listing[j]).id
        != id by {
        if j < i {
            assert(listing[j].id < listing[i].id);
        } else {
            assert(listing[i].id < listing[j].id);
        }
    }
}

/// A task stays in the registry, under its id and with its owner, through every sequence
/// of calls that does not delete it; and it stays as it is where none of them is an update
/// of it by its owner.
pub proof fn task_stays_until_deleted(r: Registry, calls: Seq<Call>, id: u64)
    requires
        r.valid(),
        r.admits_all(calls),
        r.tasks.contains_key(id),
        forall|n: int| 0 <= n < calls.len() ==> #[trigger] calls[n] != (Call::Delete { id }),
    ensures
        r.after_all(calls).tasks.contains_key(id),
        r.after_all(calls).tasks[id].id == id,
        r.after_all(calls).tasks[id].owner == r.tasks[id].owner,
        (forall|n: int|
            0 <= n < calls.len() ==> !(#[trigger] calls[n] matches Call::Update {
                id: target,
                caller,
                ..
            } && target == id && caller == r.tasks[id].owner)) ==> r.after_all(calls).tasks[id]
            == r.tasks[id],
    decreases calls.len(),
{
    if calls.len() > 0 {
        let earlier = calls.drop_last();
        let n = calls.len() - 1;
        assert forall|k: int| 0 <= k < earlier.len() implies r.after_all(earlier.take(k)).admits(
            #[trigger] earlier[k],
        ) by {
            assert(earlier.take(k) =~= calls.take(k));
            assert(r.after_all(calls.take(k)).admits(calls[k]));
        }
        assert forall|k: int| 0 <= k < earlier.len() implies #[trigger] earlier[k] != (
        Call::Delete { id }) by {
            assert(calls[k] != (Call::Delete { id }));
        }
        task_stays_until_deleted(r, earlier, id);
        assert(calls.take(n) =~= earlier);
        calls_keep_valid(r, calls, n);
        let before = r.after_all(earlier);
        assert(before.admits(calls[n]));
        assert(calls[n] != (Call::Delete { id }));
        assert(calls.last() == calls[n]);
        if forall|k: int|
            0 <= k < calls.len() ==> !(#[trigger] calls[k] matches Call::Update {
                id: target,
                caller,
                ..
            } && target == id && caller == r.tasks[id].owner) {
            assert forall|k: int| 0 <= k < earlier.len() implies !(
            #[trigger] earlier[k] matches Call::Update { id: target, caller, .. } && target == id
                && caller == r.tasks[id].owner) by {
                assert(earlier[k] == calls[k]);
            }
            assert(!(calls[n] matches Call::Update { id: target, caller, .. } && target == id
                && caller == r.tasks[id].owner));
        }
    }
}

/// An update by the owner: a new title leaves the completion flag as it was, a new flag
/// leaves the title, and an update that gives neither leaves the whole registry.
pub proof fn owner_updates(r: Registry, id: u64, title: Seq<char>, completed: bool)
    requires
        r.tasks.contains_key(id),
    ensures
        r.update_outcome(id, r.tasks[id].owner) is Ok,
        r.update(id, r.tasks[id].owner, Some(title), None).tasks[id] == (TaskView {
            title,
            ..r.tasks[id]
        }),
        r.update(id, r.tasks[id].owner, None, Some(completed)).tasks[id] == (TaskView {
            completed,
            ..r.tasks[id]
        }),
        r.update(id, r.tasks[id].owner, None, None) == r,
{
    let owner = r.tasks[id].owner;
    assert(revised(r.tasks[id], None, None) == r.tasks[id]);
    assert(r.update(id, owner, None, None).tasks =~= r.tasks);
}

/// An update touches no task but the one it names.
pub proof fn update_leaves_the_others(
    r: Registry,
    id: u64,
    caller: Seq<u8>,
    title: Option<Seq<char>>,
    completed: Option<bool>,
    other: u64,
)
    requires
        other != id,
    ensures
        r.update(id, caller, title, completed).tasks.contains_key(other) == r.tasks.contains_key(
            other,
        ),
        r.update(id, caller, title, completed).tasks[other] == r.tasks[other],
        r.update(id, caller, title, completed).tasks.contains_key(id) == r.tasks.contains_key(id),
{
}

/// An update by anyone but the owner is refused as such, and changes nothing.
pub proof fn stranger_is_refused(
    r: Registry,
    id: u64,
    caller: Seq<u8>,
    title: Option<Seq<char>>,
    completed: Option<bool>,
)
    requires
        r.tasks.contains_key(id),
        caller != r.tasks[id].owner,
    ensures
        r.update_outcome(id, caller) == Err::<(), Seq<char>>(not_owner()),
        r.update(id, caller, title, completed) == r,
{
}

/// Deleting a task that exists succeeds, whoever asks; the task is then in no listing,
/// and the other tasks are as before.
pub proof fn deleted_is_gone(r: Registry, id: u64, listing: Seq<TaskView>)
    requires
        r.tasks.contains_key(id),
        r.delete(id).listed_as(listing),
    ensures
        r.delete_outcome(id) is Ok,
        !r.delete(id).tasks.contains_key(id),
        forall|i: int| 0 <= i < listing.len() ==> (#[trigger] listing[i]).id != id,
        forall|other: u64|
            other != id ==> r.delete(id).tasks.contains_key(other) == r.tasks.contains_key(other)
                && r.delete(id).tasks[other] == r.tasks[other],
{
    assert forall|i: int| 0 <= i < listing.len() implies (#[trigger] listing[i]).id != id by {
        assert(r.delete(id).tasks.contains_key(listing[i].id));
    }
}

/// An id that has been handed out and is no longer in use never comes back: whatever calls
/// follow, an update or a delete of it finds no task. So after a delete has succeeded, every
/// later update or delete of that id fails in this way.
pub proof fn deleted_never_returns(r: Registry, calls: Seq<Call>, id: u64, caller: Seq<u8>)
    requires
        r.valid(),
        r.admits_all(calls),
        id <= r.issued,
        !r.tasks.contains_key(id),
    ensures
        !r.after_all(calls).tasks.contains_key(id),
        r.after_all(calls).delete_outcome(id) == Err::<(), Seq<char>>(task_not_found()),
        r.after_all(calls).update_outcome(id, caller) == Err::<(), Seq<char>>(task_not_found()),
    decreases calls.len(),
{
    if calls.len() > 0 {
        let earlier = calls.drop_last();
        let n = calls.len() - 1;
        assert forall|k: int| 0 <= k < earlier.len() implies r.after_all(earlier.take(k)).admits(
            #[trigger] earlier[k],
        ) by {
            assert(earlier.take(k) =~= calls.take(k));
            assert(r.after_all(calls.take(k)).admits(calls[k]));
        }
        deleted_never_returns(r, earlier, id, caller);
        assert(calls.take(n) =~= earlier);
        calls_keep_valid(r, calls, n);
        assert(r.after_all(earlier).admits(calls[n]));
    }
}

/// A delete that finds no task changes nothing.
pub proof fn failed_delete_changes_nothing(r: Registry, id: u64)
    requires
        r.delete_outcome(id) is Err,
    ensures
        r.delete(id) == r,
{
    assert(r.delete(id).tasks =~= r.tasks);
}

/// Deleting twice: the second delete of an id finds no task.
pub proof fn second_delete_fails(r: Registry, id: u64)
    ensures
        r.delete(id).delete_outcome(id) == Err::<(), Seq<char>>(task_not_found()),
        r.delete(id).delete(id) == r.delete(id),
{
    assert(r.delete(id).delete(id).tasks =~= r.delete(id).tasks);
}

/// An id that was never handed out, 0 or one above the counter, names no task: an update
/// or a delete of it finds none.
pub proof fn unissued_is_not_found(r: Registry, id: u64, caller: Seq<u8>)
    requires
        r.valid(),
        id == 0 || id > r.issued,
    ensures
        !r.tasks.contains_key(id),
        r.delete_outcome(id) == Err::<(), Seq<char>>(task_not_found()),
        r.update_outcome(id, caller) == Err::<(), Seq<char>>(task_not_found()),
{
}

} // verus!
