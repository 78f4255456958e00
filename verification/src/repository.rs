use vstd::prelude::*;
use vstd::rwlock::{RwLock, RwLockPredicate};

use std::sync::Arc;

use crate::store::TodoDatas;
use crate::todo::{CreateTodo, RepositoryError, Todo, UpdateTodo};

verus! {

/// The lock invariant of the shared store: whatever table the lock holds is
/// well formed. Every value of this predicate type means the same thing, so
/// acquiring either lock mode on any repository handle yields a well-formed
/// table.
pub struct StoreInv {}

impl RwLockPredicate<TodoDatas> for StoreInv {
    open spec fn inv(self, v: TodoDatas) -> bool {
        v.wf()
    }
}

/// Relies on `Arc::clone`: std documents that cloning an `Arc` produces
/// another handle to the same allocation, so the clone carries the same
/// lock as the original.
#[verifier::external_body]
fn clone_arc(arc: &Arc<RwLock<TodoDatas, StoreInv>>) -> (cloned: Arc<RwLock<TodoDatas, StoreInv>>)
    ensures
        cloned == *arc,
{
    Arc::clone(arc)
}

/// The capability contract any storage backend must satisfy: atomic
/// create/find/all/update/delete on a table of todo records, safely shareable
/// across concurrent callers. The contracts state what holds of every result,
/// whichever interleaving of concurrent operations produced the state read;
/// the full state-transition contracts live on [`TodoDatas`].
pub trait TodoRepository: Clone + Send + Sync + Sized {
    /// Create always succeeds: the record carries the requested text, a
    /// non-negative store-assigned identifier, and starts not completed.
    fn create(&self, payload: CreateTodo) -> (todo: Todo)
        ensures
            todo.text == payload.text,
            !todo.completed,
            0 <= todo.id;

    /// A record found under an identifier carries that identifier.
    fn find(&self, id: i32) -> (result: Option<Todo>)
        ensures
            result matches Some(todo) ==> todo.id == id && 0 <= id;

    /// A snapshot of all records, in unspecified order: no identifier twice,
    /// none negative.
    fn all(&self) -> (todos: Vec<Todo>)
        ensures
            forall|i: int, j: int| 0 <= i < j < todos@.len() ==> todos@[i].id != todos@[j].id,
            forall|i: int| 0 <= i < todos@.len() ==> 0 <= #[trigger] todos@[i].id;

    /// An updated record carries the requested identifier and the fields
    /// present in the payload; `NotFound` names exactly the identifier asked
    /// for.
    fn update(&self, id: i32, payload: UpdateTodo) -> (result: Result<Todo, RepositoryError>)
        ensures
            match result {
                Ok(todo) => todo.id == id && (payload.text matches Some(text) ==> todo.text
                    == text) && (payload.completed matches Some(completed) ==> todo.completed
                    == completed),
                Err(e) => e == RepositoryError::NotFound(id),
            };

    /// `NotFound` names exactly the identifier asked for.
    fn delete(&self, id: i32) -> (result: Result<(), RepositoryError>)
        ensures
            result matches Err(e) ==> e == RepositoryError::NotFound(id);
}

/// The sole implementation: one in-memory table guarded by a reader/writer
/// lock, shared by counted reference across all callers. Mutating operations
/// take the exclusive write lock; find and all take the shared read lock.
pub struct TodoRepositoryForMemory {
    store: Arc<RwLock<TodoDatas, StoreInv>>,
}

impl TodoRepositoryForMemory {
    /// A fresh repository around an empty store.
    pub fn new() -> TodoRepositoryForMemory {
        TodoRepositoryForMemory {
            store: Arc::new(RwLock::new(TodoDatas::new(), Ghost(StoreInv {}))),
        }
    }
}

impl Clone for TodoRepositoryForMemory {
    /// Duplicable handle semantics: the clone is a handle to the very same
    /// shared store.
    fn clone(&self) -> (other: TodoRepositoryForMemory)
        ensures
            other == *self,
    {
        TodoRepositoryForMemory { store: clone_arc(&self.store) }
    }
}

impl TodoRepository for TodoRepositoryForMemory {
    fn create(&self, payload: CreateTodo) -> (todo: Todo) {
        let (mut table, write_handle) = self.store.acquire_write();
        let todo = table.create(payload);
        write_handle.release_write(table);
        todo
    }

    fn find(&self, id: i32) -> (result: Option<Todo>) {
        let read_handle = self.store.acquire_read();
        let result = read_handle.borrow().find(id);
        read_handle.release_read();
        result
    }

    fn all(&self) -> (todos: Vec<Todo>) {
        let read_handle = self.store.acquire_read();
        let todos = read_handle.borrow().all();
        read_handle.release_read();
        todos
    }

    fn update(&self, id: i32, payload: UpdateTodo) -> (result: Result<Todo, RepositoryError>) {
        let (mut table, write_handle) = self.store.acquire_write();
        let result = table.update(id, payload);
        write_handle.release_write(table);
        result
    }

    fn delete(&self, id: i32) -> (result: Result<(), RepositoryError>) {
        let (mut table, write_handle) = self.store.acquire_write();
        let result = table.delete(id);
        write_handle.release_write(table);
        result
    }
}

} // verus!
