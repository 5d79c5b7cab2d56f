use todo_logic::{IdentifyableTodoItem, Pagination, TodoItem, TodoStore, UpdateTodoItem};

fn item(title: &str) -> TodoItem {
    TodoItem {
        title: title.to_string(),
        notes: String::new(),
        assigned_to: String::new(),
        completed: false,
    }
}

#[test]
fn store_add_assigns_increasing_ids() {
    let mut store = TodoStore::default();
    let a = store.add_todo(item("a"));
    let b = store.add_todo(item("b"));
    assert_eq!(a.id, 0);
    assert_eq!(b.id, 1);
    // removing never frees an id for reuse
    let removed = store.remove_todo(a.id);
    assert!(removed.is_some());
    let c = store.add_todo(item("c"));
    assert_eq!(c.id, 2);
    assert!(c.id > b.id && b.id > a.id);
}

#[test]
fn store_from_items_resumes_counter() {
    let seed = vec![
        IdentifyableTodoItem::new(3, item("x")),
        IdentifyableTodoItem::new(7, item("y")),
    ];
    let mut store = TodoStore::from_hashmap(seed);
    let next = store.add_todo(item("z"));
    assert_eq!(next.id, 8);
}

#[test]
fn store_update_missing_returns_not_found() {
    let mut store = TodoStore::default();
    store.add_todo(item("a"));
    let before: Vec<String> = store
        .get_todos(Pagination::new(None, None))
        .into_iter()
        .map(|it| it.item.title)
        .collect();
    let patch = UpdateTodoItem {
        title: Some("changed".to_string()),
        notes: None,
        assigned_to: None,
        completed: None,
    };
    let id = 99;
    assert!(store.update_todo(&id, patch).is_none());
    let after: Vec<String> = store
        .get_todos(Pagination::new(None, None))
        .into_iter()
        .map(|it| it.item.title)
        .collect();
    assert_eq!(before, after);
}

#[test]
fn store_update_patches_only_given_fields() {
    let mut store = TodoStore::default();
    let added = store.add_todo(TodoItem {
        title: "t".to_string(),
        notes: "n".to_string(),
        assigned_to: "a".to_string(),
        completed: false,
    });
    let patch = UpdateTodoItem {
        title: Some("t2".to_string()),
        notes: None,
        assigned_to: None,
        completed: Some(true),
    };
    let updated = store.update_todo(&added.id, patch).expect("present");
    assert_eq!(updated.item.title, "t2");
    assert_eq!(updated.item.notes, "n");
    assert_eq!(updated.item.assigned_to, "a");
    assert!(updated.item.completed);
}

#[test]
fn store_remove_returns_the_item() {
    let mut store = TodoStore::default();
    let a = store.add_todo(item("a"));
    let b = store.add_todo(item("b"));
    let removed = store.remove_todo(a.id).expect("present");
    assert_eq!(removed.item.title, "a");
    assert!(store.get_todo(a.id).is_none());
    assert!(store.get_todo(b.id).is_some());
    assert!(store.remove_todo(a.id).is_none());
}

#[test]
fn store_pagination_windows() {
    let mut store = TodoStore::default();
    for name in ["a", "b", "c", "d"] {
        store.add_todo(item(name));
    }
    let titles = |v: Vec<IdentifyableTodoItem>| -> Vec<String> {
        v.into_iter().map(|it| it.item.title).collect()
    };
    assert_eq!(
        titles(store.get_todos(Pagination::new(None, None))),
        vec!["a", "b", "c", "d"]
    );
    assert_eq!(
        titles(store.get_todos(Pagination::new(Some(1), Some(2)))),
        vec!["b", "c"]
    );
    assert_eq!(
        titles(store.get_todos(Pagination::new(Some(3), Some(9)))),
        vec!["d"]
    );
    assert!(titles(store.get_todos(Pagination::new(Some(9), None))).is_empty());
    assert!(titles(store.get_todos(Pagination::new(None, Some(0)))).is_empty());
}

#[test]
fn store_get_todo_finds_by_id() {
    let mut store = TodoStore::default();
    let a = store.add_todo(item("a"));
    let found = store.get_todo(a.id).expect("present");
    assert_eq!(found.item.title, "a");
    assert!(store.get_todo(12345).is_none());
}
