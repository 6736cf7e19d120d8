//! The record type and the pure operations on the in-memory collection:
//! next-identifier computation, lookup, insertion, field update, removal.

use vstd::prelude::*;

verus! {

/// A task record: the unit of the persisted collection.
pub struct Todo {
    pub id: usize,
    pub title: String,
    pub completed: bool,
}

impl Clone for Todo {
    fn clone(&self) -> (r: Todo)
        ensures
            r == *self,
    {
        Todo { id: self.id, title: self.title.clone(), completed: self.completed }
    }
}

/// Payload of a creation request: the title of the new record.
pub struct CreateTodo {
    pub title: String,
}

/// Payload of an update request: absent fields mean "no change".
pub struct UpdateTodo {
    pub title: Option<String>,
    pub completed: Option<bool>,
}

/// Some record in `s` carries identifier `id`.
pub open spec fn has_id(s: Seq<Todo>, id: usize) -> bool {
    exists|i: int| 0 <= i < s.len() && s[i].id == id
}

/// No two records in `s` share an identifier.
pub open spec fn unique_ids(s: Seq<Todo>) -> bool {
    forall|i: int, j: int| 0 <= i < j < s.len() ==> s[i].id != s[j].id
}

/// `id` is the identifier the store hands to the next created record:
/// one more than the greatest identifier present, or 1 for an empty collection.
pub open spec fn is_next_id(s: Seq<Todo>, id: int) -> bool {
    &&& forall|i: int| 0 <= i < s.len() ==> s[i].id < id
    &&& s.len() == 0 ==> id == 1
    &&& s.len() > 0 ==> exists|i: int| 0 <= i < s.len() && s[i].id == id - 1
}

/// `i` is the index of the first record in `s` carrying `id`.
pub open spec fn first_match(s: Seq<Todo>, id: usize, i: int) -> bool {
    &&& 0 <= i < s.len()
    &&& s[i].id == id
    &&& forall|j: int| 0 <= j < i ==> s[j].id != id
}

/// One more than the greatest identifier in the collection, or 1 when it is
/// empty. A freed identifier below the maximum is never reassigned, but after
/// the greatest record is deleted its identifier is handed out again.
pub fn get_next_id(todos: &Vec<Todo>) -> (r: usize)
    requires
        forall|i: int| 0 <= i < todos@.len() ==> todos@[i].id < usize::MAX,
    ensures
        is_next_id(todos@, r as int),
{
    let mut max: usize = 0;
    let mut k: usize = 0;
    while k < todos.len()
        invariant
            0 <= k <= todos@.len(),
            forall|i: int| 0 <= i < todos@.len() ==> todos@[i].id < usize::MAX,
            forall|j: int| 0 <= j < k ==> todos@[j].id <= max,
            k == 0 ==> max == 0,
            k > 0 ==> exists|j: int| 0 <= j < k && todos@[j].id == max,
        decreases todos@.len() - k,
    {
        if todos[k].id > max {
            max = todos[k].id;
        }
        k = k + 1;
    }
    max + 1
}

/// Index of the first record carrying `id`, if any; `None` when no record does.
pub fn find_by_id(todos: &Vec<Todo>, id: usize) -> (r: Option<usize>)
    ensures
        match r {
            Some(i) => first_match(todos@, id, i as int),
            None => !has_id(todos@, id),
        },
{
    let mut k: usize = 0;
    while k < todos.len()
        invariant
            0 <= k <= todos@.len(),
            forall|j: int| 0 <= j < k ==> todos@[j].id != id,
        decreases todos@.len() - k,
    {
        if todos[k].id == id {
            return Some(k);
        }
        k = k + 1;
    }
    None
}

/// Appends a record at the end of the collection.
pub fn insert_todo(todos: &mut Vec<Todo>, todo: Todo)
    ensures
        final(todos)@ == old(todos)@.push(todo),
{
    todos.push(todo);
}

/// Overwrites the fields named by the patch; absent fields and the
/// identifier are left unchanged.
pub fn update_fields(todo: &mut Todo, patch: &UpdateTodo)
    ensures
        final(todo).id == old(todo).id,
        (match patch.title {
            Some(t) => final(todo).title == t,
            None => final(todo).title == old(todo).title,
        }),
        (match patch.completed {
            Some(c) => final(todo).completed == c,
            None => final(todo).completed == old(todo).completed,
        }),
{
    if let Some(t) = &patch.title {
        todo.title = t.clone();
    }
    if let Some(c) = patch.completed {
        todo.completed = c;
    }
}

/// Removes the first record carrying `id`, if any, keeping the relative
/// order of the remaining records; reports whether one was removed.
pub fn remove_by_id(todos: &mut Vec<Todo>, id: usize) -> (removed: bool)
    ensures
        removed == has_id(old(todos)@, id),
        !removed ==> final(todos)@ == old(todos)@,
        removed ==> exists|i: int|
            #![auto]
            first_match(old(todos)@, id, i) && final(todos)@ == old(todos)@.remove(i),
{
    match find_by_id(todos, id) {
        Some(i) => {
            todos.remove(i);
            true
        },
        None => false,
    }
}

} // verus!
