use todo_memory::repository::{TodoRepository, TodoRepositoryForMemory};
use todo_memory::store::TodoDatas;
use todo_memory::todo::{CreateTodo, RepositoryError, Todo, UpdateTodo};
use todo_memory::user::{CreateUser, User};

fn create_payload(text: &str) -> CreateTodo {
    CreateTodo { text: text.to_string() }
}

#[test]
fn todo_new_defaults_not_completed() {
    let todo = Todo::new(7, "water the plants".to_string());
    assert_eq!(todo.id, 7);
    assert_eq!(todo.text, "water the plants");
    assert!(!todo.completed);
}

#[test]
fn sequential_creates_assign_distinct_ids() {
    let repository = TodoRepositoryForMemory::new();
    let mut ids = Vec::new();
    for i in 0..5 {
        let todo = repository.create(create_payload(&format!("task {}", i)));
        ids.push(todo.id);
    }
    for i in 0..ids.len() {
        for j in 0..ids.len() {
            if i != j {
                assert_ne!(ids[i], ids[j]);
            }
        }
    }
    assert_eq!(ids, vec![0, 1, 2, 3, 4]);
}

#[test]
fn create_then_find_round_trips() {
    let repository = TodoRepositoryForMemory::new();
    let created = repository.create(create_payload("x"));
    let found = repository.find(created.id).expect("created record must be found");
    assert_eq!(found.text, "x");
    assert!(!found.completed);
    assert_eq!(found, created);
}

#[test]
fn absent_id_signals_not_found() {
    let repository = TodoRepositoryForMemory::new();
    repository.create(create_payload("present"));
    assert!(repository.find(9999).is_none());
    assert_eq!(
        repository.update(9999, UpdateTodo { text: None, completed: None }),
        Err(RepositoryError::NotFound(9999))
    );
    assert_eq!(repository.delete(9999), Err(RepositoryError::NotFound(9999)));
}

#[test]
fn partial_update_preserves_unspecified_fields() {
    let repository = TodoRepositoryForMemory::new();
    let created = repository.create(create_payload("a"));
    let updated = repository
        .update(created.id, UpdateTodo { text: None, completed: Some(true) })
        .expect("record exists");
    assert_eq!(updated.id, created.id);
    assert_eq!(updated.text, "a");
    assert!(updated.completed);

    let unchanged = repository
        .update(created.id, UpdateTodo { text: None, completed: None })
        .expect("record exists");
    assert_eq!(unchanged, updated);

    let replaced = repository
        .update(created.id, UpdateTodo { text: Some("b".to_string()), completed: Some(false) })
        .expect("record exists");
    assert_eq!(replaced, Todo { id: created.id, text: "b".to_string(), completed: false });
}

#[test]
fn delete_removes_visibility() {
    let repository = TodoRepositoryForMemory::new();
    let created = repository.create(create_payload("ephemeral"));
    assert_eq!(repository.delete(created.id), Ok(()));
    assert!(repository.find(created.id).is_none());
}

#[test]
fn list_reflects_creates_and_deletes() {
    let repository = TodoRepositoryForMemory::new();
    assert_eq!(repository.all().len(), 0);
    let first = repository.create(create_payload("one"));
    let second = repository.create(create_payload("two"));
    let third = repository.create(create_payload("three"));
    assert_eq!(repository.all().len(), 3);

    assert_eq!(repository.delete(first.id), Ok(()));
    let remaining = repository.all();
    assert_eq!(remaining.len(), 2);
    assert!(remaining.contains(&second));
    assert!(remaining.contains(&third));
    assert!(!remaining.contains(&first));
}

#[test]
fn size_based_ids_collide_after_delete() {
    let repository = TodoRepositoryForMemory::new();
    let first = repository.create(create_payload("first"));
    let second = repository.create(create_payload("second"));
    assert_eq!(first.id, 0);
    assert_eq!(second.id, 1);

    assert_eq!(repository.delete(first.id), Ok(()));
    let third = repository.create(create_payload("third"));
    assert_eq!(third.id, 1);

    let surviving = repository.find(1).expect("identifier 1 is live");
    assert_eq!(surviving.text, "third");
    assert_eq!(repository.all().len(), 1);
}

#[test]
fn cloned_handles_share_one_store() {
    let repository = TodoRepositoryForMemory::new();
    let other_handle = repository.clone();
    let created = other_handle.create(create_payload("shared"));
    let found = repository.find(created.id).expect("visible through every handle");
    assert_eq!(found.text, "shared");
    assert_eq!(other_handle.all().len(), repository.all().len());
}

#[test]
fn store_operations_track_the_table() {
    let mut store = TodoDatas::new();
    let created = store.create(CreateTodo { text: "direct".to_string() });
    assert_eq!(created.id, 0);
    assert_eq!(store.find(0), Some(created.clone()));
    assert_eq!(store.all(), vec![created.clone()]);
    assert_eq!(store.delete(0), Ok(()));
    assert_eq!(store.find(0), None);
    assert_eq!(store.all(), Vec::<Todo>::new());
    assert_eq!(
        store.update(0, UpdateTodo { text: None, completed: Some(true) }),
        Err(RepositoryError::NotFound(0))
    );
}

#[test]
fn user_id_is_byte_length_of_name() {
    let user = User::from_create(CreateUser { username: "someone".to_string() });
    assert_eq!(user.id, 7);
    assert_eq!(user.username, "someone");

    let empty = User::from_create(CreateUser { username: String::new() });
    assert_eq!(empty.id, 0);
}
