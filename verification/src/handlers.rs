//! The four request operations, each as a pure function on the loaded
//! collection. A serving layer loads the collection, calls one of these,
//! persists the collection again if it was changed, and turns the result
//! into a response: a found/removed flag of `false` answers "not found".

use vstd::prelude::*;
use crate::store::{Todo, CreateTodo, UpdateTodo, get_next_id, find_by_id, update_fields,
    remove_by_id};
use crate::store::{has_id, is_next_id, first_match};

verus! {

/// The full collection in storage order, as a response body.
pub fn list_todos(todos: &Vec<Todo>) -> (r: Vec<Todo>)
    ensures
        r@ == todos@,
{
    let mut r: Vec<Todo> = Vec::new();
    let mut k: usize = 0;
    while k < todos.len()
        invariant
            0 <= k <= todos@.len(),
            r@ == todos@.subrange(0, k as int),
        decreases todos@.len() - k,
    {
        r.push(todos[k].clone());
        assert(r@ =~= todos@.subrange(0, k as int + 1));
        k = k + 1;
    }
    assert(r@ =~= todos@);
    r
}

/// Creates a record with the next identifier, the given title and a cleared
/// completion flag, appends it to the collection, and returns it.
pub fn create_todo(todos: &mut Vec<Todo>, payload: CreateTodo) -> (created: Todo)
    requires
        forall|i: int| 0 <= i < old(todos)@.len() ==> old(todos)@[i].id < usize::MAX,
    ensures
        is_next_id(old(todos)@, created.id as int),
        created.title == payload.title,
        created.completed == false,
        final(todos)@ == old(todos)@.push(created),
{
    let id = get_next_id(todos);
    let created = Todo { id, title: payload.title, completed: false };
    let copy = created.clone();
    todos.push(copy);
    created
}

/// Applies the patch to the first record carrying `id`: fields present in the
/// patch overwrite the record's, absent ones and the identifier stay as they
/// were, and every other record is untouched. Returns whether such a record
/// exists; on `false` the collection is unchanged.
pub fn update_todo(todos: &mut Vec<Todo>, id: usize, patch: &UpdateTodo) -> (found: bool)
    ensures
        found == has_id(old(todos)@, id),
        !found ==> final(todos)@ == old(todos)@,
        found ==> final(todos)@.len() == old(todos)@.len(),
        found ==> exists|i: int|
            #![auto]
            first_match(old(todos)@, id, i)
                && (forall|j: int|
                    0 <= j < old(todos)@.len() && j != i ==> final(todos)@[j] == old(todos)@[j])
                && final(todos)@[i].id == id
                && (match patch.title {
                    Some(t) => final(todos)@[i].title == t,
                    None => final(todos)@[i].title == old(todos)@[i].title,
                })
                && (match patch.completed {
                    Some(c) => final(todos)@[i].completed == c,
                    None => final(todos)@[i].completed == old(todos)@[i].completed,
                }),
{
    match find_by_id(todos, id) {
        Some(i) => {
            let mut t = todos[i].clone();
            update_fields(&mut t, patch);
            todos.set(i, t);
            true
        },
        None => false,
    }
}

/// Removes the first record carrying `id`, keeping the relative order of the
/// remaining records. Returns whether such a record exists; on `false` the
/// collection is unchanged.
pub fn delete_todo(todos: &mut Vec<Todo>, id: usize) -> (found: bool)
    ensures
        found == has_id(old(todos)@, id),
        !found ==> final(todos)@ == old(todos)@,
        found ==> exists|i: int|
            #![auto]
            first_match(old(todos)@, id, i) && final(todos)@ == old(todos)@.remove(i),
{
    remove_by_id(todos, id)
}

} // verus!
