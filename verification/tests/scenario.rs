use task_registry::{add_task, delete_task, get_tasks, update_task, Identity, Task, TaskStore};

fn alice() -> Identity {
    Identity::new(vec![0xA1, 0x01])
}

fn bob() -> Identity {
    Identity::new(vec![0xB0, 0x02, 0x03])
}

#[test]
fn end_to_end() {
    let mut store = TaskStore::new();
    assert_eq!(add_task(&mut store, &alice(), "buy milk".to_string()), 1);
    assert_eq!(add_task(&mut store, &bob(), "walk dog".to_string()), 2);

    let milk = Task { id: 1, title: "buy milk".to_string(), completed: false, owner: alice() };
    let dog = Task { id: 2, title: "walk dog".to_string(), completed: false, owner: bob() };
    assert_eq!(get_tasks(&store), vec![milk.clone(), dog.clone()]);

    assert_eq!(
        update_task(&mut store, &bob(), 1, None, Some(true)),
        Err("You are not the owner of this \
             task"
            .to_string())
    );
    assert_eq!(get_tasks(&store), vec![milk.clone(), dog]);

    assert_eq!(update_task(&mut store, &alice(), 1, None, Some(true)), Ok(()));
    let milk_done = Task { completed: true, ..milk };
    assert_eq!(get_tasks(&store), vec![milk_done.clone(), Task {
        id: 2,
        title: "walk dog".to_string(),
        completed: false,
        owner: bob(),
    }]);

    assert_eq!(delete_task(&mut store, 2), Ok(()));
    assert_eq!(get_tasks(&store), vec![milk_done]);
}
