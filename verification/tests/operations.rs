use task_registry::{
    add_task, delete_task, get_tasks, update_task, Identity, Task, TaskStore, NOT_OWNER,
    TASK_NOT_FOUND,
};

fn carol() -> Identity {
    Identity::new(vec![0xCA, 0x70])
}

fn dave() -> Identity {
    Identity::new(vec![0xDA, 0x7E, 0x01])
}

fn not_found() -> Result<(), String> {
    Err("Task not found".to_string())
}

fn refused() -> Result<(), String> {
    Err(NOT_OWNER.to_string())
}

#[test]
fn messages_are_as_documented() {
    assert_eq!(TASK_NOT_FOUND, "Task not found");
    assert_eq!(NOT_OWNER.len(), 34);
    assert_eq!(
        NOT_OWNER.split(' ').collect::<Vec<&str>>(),
        vec!["You", "are", "not", "the", "owner", "of", "this", "task"]
    );
}

#[test]
fn a_new_store_is_empty() {
    let store = TaskStore::new();
    assert_eq!(store.issued(), 0);
    assert_eq!(get_tasks(&store), Vec::<Task>::new());
}

#[test]
fn ids_start_at_one_and_rise() {
    let mut store = TaskStore::new();
    for expected in 1..=5u64 {
        assert_eq!(add_task(&mut store, &carol(), format!("task {}", expected)), expected);
        assert_eq!(store.issued(), expected);
    }
}

#[test]
fn ids_rise_whatever_happens_in_between() {
    let mut store = TaskStore::new();
    let first = add_task(&mut store, &carol(), "one".to_string());
    assert_eq!(delete_task(&mut store, first), Ok(()));
    let second = add_task(&mut store, &dave(), "two".to_string());
    assert_eq!(update_task(&mut store, &dave(), second, Some("2".to_string()), None), Ok(()));
    assert_eq!(update_task(&mut store, &carol(), second, None, Some(true)), refused());
    assert_eq!(delete_task(&mut store, 40), not_found());
    let third = add_task(&mut store, &carol(), "three".to_string());
    assert_eq!(delete_task(&mut store, second), Ok(()));
    assert_eq!(delete_task(&mut store, third), Ok(()));
    let fourth = add_task(&mut store, &carol(), "four".to_string());
    assert_eq!((first, second, third, fourth), (1, 2, 3, 4));
    assert_eq!(store.issued(), 4);
}

#[test]
fn an_added_task_is_listed_once_until_deleted() {
    let mut store = TaskStore::new();
    add_task(&mut store, &dave(), "before".to_string());
    let id = add_task(&mut store, &carol(), "X".to_string());
    let expected = Task { id, title: "X".to_string(), completed: false, owner: carol() };
    let with_id = |store: &TaskStore| -> Vec<Task> {
        get_tasks(store).into_iter().filter(|task| task.id == id).collect()
    };
    assert_eq!(with_id(&store), vec![expected.clone()]);

    add_task(&mut store, &dave(), "after".to_string());
    assert_eq!(delete_task(&mut store, 1), Ok(()));
    assert_eq!(update_task(&mut store, &dave(), 3, None, Some(true)), Ok(()));
    assert_eq!(update_task(&mut store, &dave(), id, Some("Y".to_string()), None), refused());
    assert_eq!(with_id(&store), vec![expected]);

    assert_eq!(delete_task(&mut store, id), Ok(()));
    assert_eq!(with_id(&store), Vec::<Task>::new());
}

#[test]
fn an_empty_title_is_accepted() {
    let mut store = TaskStore::new();
    let id = add_task(&mut store, &carol(), String::new());
    assert_eq!(
        get_tasks(&store),
        vec![Task { id, title: String::new(), completed: false, owner: carol() }]
    );
}

#[test]
fn the_empty_identity_owns_what_it_adds() {
    let nobody = Identity::new(Vec::new());
    let mut store = TaskStore::new();
    let id = add_task(&mut store, &nobody, "anonymous".to_string());
    assert_eq!(update_task(&mut store, &carol(), id, None, Some(true)), refused());
    assert_eq!(update_task(&mut store, &nobody, id, None, Some(true)), Ok(()));
    assert_eq!(
        get_tasks(&store),
        vec![Task { id, title: "anonymous".to_string(), completed: true, owner: nobody }]
    );
}

#[test]
fn a_new_title_leaves_the_flag() {
    let mut store = TaskStore::new();
    let id = add_task(&mut store, &carol(), "X".to_string());
    assert_eq!(update_task(&mut store, &carol(), id, None, Some(true)), Ok(()));
    assert_eq!(update_task(&mut store, &carol(), id, Some("Y".to_string()), None), Ok(()));
    assert_eq!(
        get_tasks(&store),
        vec![Task { id, title: "Y".to_string(), completed: true, owner: carol() }]
    );
}

#[test]
fn a_new_flag_leaves_the_title() {
    let mut store = TaskStore::new();
    let id = add_task(&mut store, &carol(), "X".to_string());
    assert_eq!(update_task(&mut store, &carol(), id, None, Some(true)), Ok(()));
    assert_eq!(
        get_tasks(&store),
        vec![Task { id, title: "X".to_string(), completed: true, owner: carol() }]
    );
}

#[test]
fn an_update_of_nothing_succeeds_and_changes_nothing() {
    let mut store = TaskStore::new();
    let id = add_task(&mut store, &carol(), "X".to_string());
    let before = get_tasks(&store);
    assert_eq!(update_task(&mut store, &carol(), id, None, None), Ok(()));
    assert_eq!(get_tasks(&store), before);
    assert_eq!(store.issued(), 1);
}

#[test]
fn an_update_can_give_both_fields() {
    let mut store = TaskStore::new();
    let id = add_task(&mut store, &carol(), "X".to_string());
    assert_eq!(update_task(&mut store, &carol(), id, Some("Z".to_string()), Some(true)), Ok(()));
    assert_eq!(
        get_tasks(&store),
        vec![Task { id, title: "Z".to_string(), completed: true, owner: carol() }]
    );
}

#[test]
fn a_completed_task_can_be_reopened() {
    let mut store = TaskStore::new();
    let id = add_task(&mut store, &carol(), "X".to_string());
    assert_eq!(update_task(&mut store, &carol(), id, None, Some(true)), Ok(()));
    assert_eq!(update_task(&mut store, &carol(), id, None, Some(false)), Ok(()));
    assert!(!get_tasks(&store)[0].completed);
}

#[test]
fn an_update_touches_no_other_task() {
    let mut store = TaskStore::new();
    add_task(&mut store, &carol(), "one".to_string());
    add_task(&mut store, &carol(), "two".to_string());
    add_task(&mut store, &dave(), "three".to_string());
    assert_eq!(update_task(&mut store, &carol(), 2, Some("TWO".to_string()), Some(true)), Ok(()));
    assert_eq!(
        get_tasks(&store),
        vec![
            Task { id: 1, title: "one".to_string(), completed: false, owner: carol() },
            Task { id: 2, title: "TWO".to_string(), completed: true, owner: carol() },
            Task { id: 3, title: "three".to_string(), completed: false, owner: dave() },
        ]
    );
}

#[test]
fn a_stranger_is_refused_and_nothing_changes() {
    let mut store = TaskStore::new();
    let id = add_task(&mut store, &carol(), "X".to_string());
    let before = get_tasks(&store);
    assert_eq!(update_task(&mut store, &dave(), id, Some("mine".to_string()), Some(true)), refused());
    assert_eq!(update_task(&mut store, &dave(), id, None, None), refused());
    assert_eq!(get_tasks(&store), before);
}

#[test]
fn a_prefix_of_the_owner_is_a_stranger() {
    let mut store = TaskStore::new();
    let id = add_task(&mut store, &dave(), "X".to_string());
    let shorter = Identity::new(vec![0xDA, 0x7E]);
    let longer = Identity::new(vec![0xDA, 0x7E, 0x01, 0x00]);
    assert_eq!(update_task(&mut store, &shorter, id, None, Some(true)), refused());
    assert_eq!(update_task(&mut store, &longer, id, None, Some(true)), refused());
}

#[test]
fn a_missing_task_is_reported_before_the_owner_is_looked_at() {
    let mut store = TaskStore::new();
    add_task(&mut store, &carol(), "X".to_string());
    assert_eq!(update_task(&mut store, &dave(), 2, None, Some(true)), not_found());
}

#[test]
fn anyone_may_delete() {
    let mut store = TaskStore::new();
    let id = add_task(&mut store, &carol(), "X".to_string());
    assert_eq!(delete_task(&mut store, id), Ok(()));
    assert_eq!(get_tasks(&store), Vec::<Task>::new());
}

#[test]
fn a_deleted_task_is_gone_for_good() {
    let mut store = TaskStore::new();
    add_task(&mut store, &carol(), "one".to_string());
    let id = add_task(&mut store, &carol(), "two".to_string());
    assert_eq!(delete_task(&mut store, id), Ok(()));
    assert_eq!(
        get_tasks(&store),
        vec![Task { id: 1, title: "one".to_string(), completed: false, owner: carol() }]
    );
    assert_eq!(update_task(&mut store, &carol(), id, None, Some(true)), not_found());
    assert_eq!(delete_task(&mut store, id), not_found());
    assert_eq!(add_task(&mut store, &carol(), "three".to_string()), 3);
    assert_eq!(update_task(&mut store, &carol(), id, Some("back".to_string()), None), not_found());
    assert_eq!(delete_task(&mut store, id), not_found());
}

#[test]
fn deleting_twice_fails_the_second_time() {
    let mut store = TaskStore::new();
    let id = add_task(&mut store, &carol(), "X".to_string());
    assert_eq!(delete_task(&mut store, id), Ok(()));
    assert_eq!(delete_task(&mut store, id), not_found());
    assert_eq!(delete_task(&mut store, id), not_found());
    assert_eq!(store.issued(), 1);
}

#[test]
fn an_id_never_handed_out_is_not_found() {
    let mut store = TaskStore::new();
    assert_eq!(delete_task(&mut store, 0), not_found());
    assert_eq!(delete_task(&mut store, 1), not_found());
    assert_eq!(update_task(&mut store, &carol(), 0, None, None), not_found());
    add_task(&mut store, &carol(), "X".to_string());
    assert_eq!(delete_task(&mut store, 0), not_found());
    assert_eq!(delete_task(&mut store, 2), not_found());
    assert_eq!(delete_task(&mut store, u64::MAX), not_found());
    assert_eq!(update_task(&mut store, &carol(), 0, Some("a".to_string()), None), not_found());
    assert_eq!(update_task(&mut store, &carol(), 2, None, Some(true)), not_found());
    assert_eq!(update_task(&mut store, &carol(), u64::MAX, None, None), not_found());
    assert_eq!(get_tasks(&store).len(), 1);
}

#[test]
fn a_failed_delete_changes_nothing() {
    let mut store = TaskStore::new();
    add_task(&mut store, &carol(), "X".to_string());
    let before = get_tasks(&store);
    assert_eq!(delete_task(&mut store, 9), not_found());
    assert_eq!(get_tasks(&store), before);
    assert_eq!(store.issued(), 1);
}

#[test]
fn many_tasks_are_listed_by_rising_id() {
    let mut store = TaskStore::new();
    for n in 1..=200u64 {
        let who = if n % 2 == 0 { carol() } else { dave() };
        assert_eq!(add_task(&mut store, &who, format!("task {}", n)), n);
    }
    for n in (3..=200u64).step_by(3) {
        assert_eq!(delete_task(&mut store, n), Ok(()));
    }
    for n in (2..=200u64).step_by(2) {
        let done = update_task(&mut store, &carol(), n, None, Some(true));
        assert_eq!(done, if n % 3 == 0 { not_found() } else { Ok(()) });
    }
    let expected: Vec<Task> = (1..=200u64)
        .filter(|n| n % 3 != 0)
        .map(|n| Task {
            id: n,
            title: format!("task {}", n),
            completed: n % 2 == 0,
            owner: if n % 2 == 0 { carol() } else { dave() },
        })
        .collect();
    assert_eq!(get_tasks(&store), expected);
}

#[test]
fn two_stores_do_not_share_tasks() {
    let mut one = TaskStore::new();
    let mut two = TaskStore::new();
    assert_eq!(add_task(&mut one, &carol(), "in one".to_string()), 1);
    assert_eq!(get_tasks(&two), Vec::<Task>::new());
    assert_eq!(add_task(&mut two, &dave(), "in two".to_string()), 1);
    assert_eq!(delete_task(&mut one, 1), Ok(()));
    assert_eq!(get_tasks(&two).len(), 1);
}

#[test]
fn a_title_in_any_script_comes_back_as_it_went_in() {
    let mut store = TaskStore::new();
    let title = "köpa mjölk — 牛乳を買う 🥛".to_string();
    let id = add_task(&mut store, &carol(), title.clone());
    assert_eq!(get_tasks(&store), vec![Task { id, title, completed: false, owner: carol() }]);
}
