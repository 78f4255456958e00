use vstd::prelude::*;
use vstd::std_specs::iter::IteratorSpec;

use std::collections::HashMap;

use crate::todo::{apply_update, CreateTodo, RepositoryError, Todo, UpdateTodo};

verus! {

broadcast use vstd::std_specs::hash::group_hash_axioms;

/// The in-memory table of todo records, keyed by identifier. Viewed as a
/// `Map<i32, Todo>`; all mutation goes through the operations below.
pub struct TodoDatas {
    table: HashMap<i32, Todo>,
}

impl View for TodoDatas {
    type V = Map<i32, Todo>;

    closed spec fn view(&self) -> Map<i32, Todo> {
        self.table@
    }
}

impl TodoDatas {
    /// Well-formedness: every record sits under its own identifier, and
    /// identifiers are non-negative. Constructors establish it and every
    /// operation preserves it.
    pub open spec fn wf(self) -> bool {
        forall|k: i32| #[trigger] self@.contains_key(k) ==> self@[k].id == k && 0 <= k
    }

    /// An empty table.
    pub fn new() -> (store: TodoDatas)
        ensures
            store@ == Map::<i32, Todo>::empty(),
            store.wf(),
    {
        TodoDatas { table: HashMap::new() }
    }

    /// Create a record: assign the current table size as its identifier,
    /// default `completed` to false, and insert it. Always succeeds. While the
    /// size fits an `i32` — any table a real machine can hold — the assigned
    /// identifier is exactly that size; past that bound the scheme has no
    /// fresh identifier left and identifier 0 is reused, which aliases like
    /// any other collision of the size-based scheme.
    pub fn create(&mut self, payload: CreateTodo) -> (todo: Todo)
        requires
            old(self).wf(),
        ensures
            final(self).wf(),
            todo.text == payload.text,
            !todo.completed,
            0 <= todo.id,
            final(self)@ == old(self)@.insert(todo.id, todo),
            old(self)@.dom().len() <= 0x7fff_ffff ==> todo.id == old(self)@.dom().len() as i32,
    {
        let len = self.table.len();
        let id: i32 = if len <= 0x7fff_ffff { len as i32 } else { 0 };
        let todo = Todo::new(id, payload.text);
        self.table.insert(id, todo.clone());
        proof {
            assert forall|k: i32| #[trigger] self@.contains_key(k) implies self@[k].id == k && 0
                <= k by {
                if k != id {
                    assert(old(self)@.contains_key(k));
                }
            }
        }
        todo
    }

    /// Look a record up by identifier: a copy of the record if present,
    /// `None` exactly when the identifier is absent.
    pub fn find(&self, id: i32) -> (result: Option<Todo>)
        ensures
            match result {
                Some(todo) => self@.contains_key(id) && todo == self@[id],
                None => !self@.contains_key(id),
            },
    {
        match self.table.get(&id) {
            Some(todo) => Some(todo.clone()),
            None => None,
        }
    }

    /// Copy every record out of the table into a newly allocated vector, in
    /// whatever order the table yields them: one entry per live record, each
    /// under its own identifier, every live record present, and no identifier
    /// twice. An empty table yields an empty vector.
    pub fn all(&self) -> (todos: Vec<Todo>)
        requires
            self.wf(),
        ensures
            todos@.len() == self@.dom().len(),
            forall|i: int|
                0 <= i < todos@.len() ==> self@.contains_key(#[trigger] todos@[i].id)
                    && self@[todos@[i].id] == todos@[i],
            forall|k: i32|
                #[trigger] self@.contains_key(k) ==> exists|i: int|
                    0 <= i < todos@.len() && #[trigger] todos@[i].id == k,
            forall|i: int, j: int|
                0 <= i < j < todos@.len() ==> todos@[i].id != todos@[j].id,
    {
        let mut todos: Vec<Todo> = Vec::new();
        let entries = self.table.iter();
        proof {
            let s = entries.remaining();
            assert forall|i: int, j: int| 0 <= i < j < s.len() implies *s[i].0 != *s[j].0 by {
                if *s[i].0 == *s[j].0 {
                    assert(self@[*s[i].0] == *s[i].1);
                    assert(self@[*s[j].0] == *s[j].1);
                    assert(s[i] == s[j]);
                }
            }
        }
        for pair in it: entries
            invariant
                self.wf(),
                todos@.len() == it.index(),
                it.seq().len() == self@.dom().len(),
                forall|i: int, j: int|
                    0 <= i < j < it.seq().len() ==> *it.seq()[i].0 != *it.seq()[j].0,
                forall|i: int|
                    0 <= i < it.seq().len() ==> self@.contains_key(#[trigger] *it.seq()[i].0)
                        && self@[*it.seq()[i].0] == *it.seq()[i].1,
                forall|k: i32|
                    #[trigger] self@.contains_key(k) ==> exists|i: int|
                        0 <= i < it.seq().len() && *it.seq()[i].0 == k,
                forall|i: int|
                    #![trigger todos@[i]]
                    #![trigger it.seq()[i]]
                    0 <= i < todos@.len() ==> todos@[i] == *it.seq()[i].1 && todos@[i].id
                        == *it.seq()[i].0,
        {
            todos.push(pair.1.clone());
        }
        todos
    }

    /// Merge the payload onto the record at `id` and store the result under
    /// the same identifier: fields present in the payload overwrite, absent
    /// fields keep their prior values. `NotFound` exactly when the identifier
    /// is absent, and then the table is unchanged.
    pub fn update(&mut self, id: i32, payload: UpdateTodo) -> (result: Result<
        Todo,
        RepositoryError,
    >)
        requires
            old(self).wf(),
        ensures
            final(self).wf(),
            match result {
                Ok(todo) => old(self)@.contains_key(id) && todo == apply_update(
                    old(self)@[id],
                    payload,
                ) && final(self)@ == old(self)@.insert(id, todo),
                Err(e) => e == RepositoryError::NotFound(id) && !old(self)@.contains_key(id)
                    && final(self)@ == old(self)@,
            },
    {
        let current = match self.table.get(&id) {
            Some(todo) => todo.clone(),
            None => {
                return Err(RepositoryError::NotFound(id));
            },
        };
        let text = match payload.text {
            Some(text) => text,
            None => current.text,
        };
        let completed = match payload.completed {
            Some(completed) => completed,
            None => current.completed,
        };
        let todo = Todo { id, text, completed };
        self.table.insert(id, todo.clone());
        proof {
            assert forall|k: i32| #[trigger] self@.contains_key(k) implies self@[k].id == k && 0
                <= k by {
                if k == id {
                    assert(old(self)@.contains_key(id));
                } else {
                    assert(old(self)@.contains_key(k));
                }
            }
        }
        Ok(todo)
    }

    /// Remove the record at `id`. `NotFound` exactly when the identifier is
    /// absent, and then the table is unchanged.
    pub fn delete(&mut self, id: i32) -> (result: Result<(), RepositoryError>)
        requires
            old(self).wf(),
        ensures
            final(self).wf(),
            match result {
                Ok(()) => old(self)@.contains_key(id) && final(self)@ == old(self)@.remove(id),
                Err(e) => e == RepositoryError::NotFound(id) && !old(self)@.contains_key(id)
                    && final(self)@ == old(self)@,
            },
    {
        match self.table.remove(&id) {
            Some(_) => {
                proof {
                    assert forall|k: i32| #[trigger] self@.contains_key(k) implies self@[k].id == k
                        && 0 <= k by {
                        assert(old(self)@.contains_key(k));
                    }
                }
                Ok(())
            },
            None => {
                proof {
                    assert(self@ =~= old(self)@);
                }
                Err(RepositoryError::NotFound(id))
            },
        }
    }
}

/// The shape of a store that has never seen a delete: its live identifiers
/// are exactly 0, 1, ..., one below its size. Fresh stores have this shape
/// and `create` keeps it; `delete` is what breaks it.
pub open spec fn delete_free(m: Map<i32, Todo>) -> bool {
    &&& m.dom().finite()
    &&& forall|k: i32| #[trigger] m.contains_key(k) <==> 0 <= k < m.dom().len()
}

/// Uniqueness under sequential creates: while no delete intervenes the store
/// keeps the delete-free shape, so each `create` assigns the current size as
/// identifier, which is not yet in use, and grows the size by one. A run of
/// sequential creates therefore returns strictly increasing — pairwise
/// distinct — identifiers.
pub proof fn lemma_create_fresh(m: Map<i32, Todo>, todo: Todo)
    requires
        delete_free(m),
        m.dom().len() <= 0x7fff_ffff,
        todo.id == m.dom().len() as i32,
    ensures
        !m.contains_key(todo.id),
        delete_free(m.insert(todo.id, todo)),
        m.insert(todo.id, todo).dom().len() == m.dom().len() + 1,
{
    assert(m.insert(todo.id, todo).dom() =~= m.dom().insert(todo.id));
}

/// Two sequential creates with no interleaved delete return distinct
/// identifiers: the second create runs on the store the first one left, whose
/// size has grown by one, so its identifier is strictly larger.
pub proof fn lemma_two_creates_distinct(m: Map<i32, Todo>, first: Todo, second: Todo)
    requires
        delete_free(m),
        m.dom().len() + 1 <= 0x7fff_ffff,
        first.id == m.dom().len() as i32,
        second.id == m.insert(first.id, first).dom().len() as i32,
    ensures
        first.id < second.id,
{
    lemma_create_fresh(m, first);
}

/// Round-trip: `create` on a store `m` leaves it as `m.insert(todo.id, todo)`
/// where `todo` carries the requested text and `completed == false`, and
/// `find` reads the store at the given identifier. Composed, a create
/// followed by a find of the returned identifier yields exactly the created
/// record.
pub proof fn lemma_create_round_trip(m: Map<i32, Todo>, todo: Todo)
    ensures
        m.insert(todo.id, todo).contains_key(todo.id),
        m.insert(todo.id, todo)[todo.id] == todo,
{
}

/// Delete removes visibility: a successful delete leaves the store without
/// the identifier, so a subsequent find of it signals not-found.
pub proof fn lemma_delete_removes(m: Map<i32, Todo>, id: i32)
    ensures
        !m.remove(id).contains_key(id),
{
}

/// The list reflects creates and deletes: `all` returns one entry per live
/// record, a create at a fresh identifier grows the live count by one, a
/// create at a live identifier replaces that record (the aliasing of the
/// size-based scheme), and a successful delete shrinks the count by one.
pub proof fn lemma_live_count(m: Map<i32, Todo>, id: i32, todo: Todo)
    requires
        m.dom().finite(),
    ensures
        !m.contains_key(id) ==> m.insert(id, todo).dom().len() == m.dom().len() + 1,
        m.contains_key(id) ==> m.insert(id, todo).dom().len() == m.dom().len(),
        m.contains_key(id) ==> m.remove(id).dom().len() == m.dom().len() - 1,
{
    assert(m.insert(id, todo).dom() =~= m.dom().insert(id));
    if m.contains_key(id) {
        assert(m.dom().insert(id) =~= m.dom());
    }
}

/// The known flaw of the size-based identifier scheme: delete a record other
/// than the newest from a delete-free store, and the size drops to one below
/// what it was, while the record under that very identifier is still live. A
/// create that follows assigns exactly that identifier and silently replaces
/// the surviving record.
pub proof fn lemma_size_scheme_collides(m: Map<i32, Todo>, id: i32)
    requires
        delete_free(m),
        m.dom().len() <= 0x7fff_ffff,
        m.contains_key(id),
        id + 1 < m.dom().len(),
    ensures
        m.remove(id).dom().len() == m.dom().len() - 1,
        m.remove(id).contains_key((m.dom().len() - 1) as i32),
{
}

} // verus!
