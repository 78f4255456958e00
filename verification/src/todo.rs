use vstd::prelude::*;

verus! {

/// A single todo record. The store assigns the identifier, the caller supplies
/// the text, and a record starts out not completed.
#[derive(Debug, PartialEq, Eq)]
pub struct Todo {
    pub id: i32,
    pub text: String,
    pub completed: bool,
}

impl Todo {
    /// A fresh record with the given identifier and text, not yet completed.
    pub fn new(id: i32, text: String) -> (todo: Todo)
        ensures
            todo.id == id,
            todo.text == text,
            !todo.completed,
    {
        Todo { id, text, completed: false }
    }
}

impl Clone for Todo {
    fn clone(&self) -> (other: Todo)
        ensures
            other == *self,
    {
        Todo { id: self.id, text: self.text.clone(), completed: self.completed }
    }
}

/// Payload for `create`: the text of the new record. The store assigns the
/// identifier and starts the record as not completed.
#[derive(Debug, PartialEq, Eq)]
pub struct CreateTodo {
    pub text: String,
}

/// Payload for `update`. A field that is `None` leaves the current value
/// unchanged; a field that is `Some` replaces it. Both may be absent (a no-op
/// update) or both present (a full replace of the mutable fields).
#[derive(Debug, PartialEq, Eq)]
pub struct UpdateTodo {
    pub text: Option<String>,
    pub completed: Option<bool>,
}

/// The record that `update` leaves in the store when a record `current` is
/// present under the requested identifier: fields present in the payload
/// overwrite, absent fields retain their prior values.
pub open spec fn apply_update(current: Todo, payload: UpdateTodo) -> Todo {
    Todo {
        id: current.id,
        text: match payload.text {
            Some(text) => text,
            None => current.text,
        },
        completed: match payload.completed {
            Some(completed) => completed,
            None => current.completed,
        },
    }
}

/// A partial update preserves unspecified fields: a field absent from the
/// payload keeps the current record's value, and the identifier is never
/// touched by an update.
pub proof fn lemma_update_preserves_unspecified(current: Todo, payload: UpdateTodo)
    ensures
        apply_update(current, payload).id == current.id,
        payload.text is None ==> apply_update(current, payload).text == current.text,
        payload.completed is None ==> apply_update(current, payload).completed
            == current.completed,
        payload.text matches Some(text) ==> apply_update(current, payload).text == text,
        payload.completed matches Some(completed) ==> apply_update(current, payload).completed
            == completed,
{
}

/// A payload with both fields absent is a no-op update: it leaves the record,
/// and therefore the store it is written back to, unchanged.
pub proof fn lemma_update_noop(current: Todo)
    ensures
        apply_update(current, (UpdateTodo { text: None, completed: None })) == current,
{
}

/// The one failure the store signals: the requested identifier was absent
/// from the table when the operation ran.
#[derive(Debug, Clone, Copy, PartialEq, Eq, Structural)]
pub enum RepositoryError {
    NotFound(i32),
}

} // verus!
