//! Properties of the store that hold across operations: freshness and
//! monotonicity of assigned identifiers, uniqueness of identifiers as an
//! invariant of every operation, and what a removal leaves behind.

use vstd::prelude::*;
use crate::store::{Todo, has_id, unique_ids, is_next_id, first_match};

verus! {

/// Law: across any sequence of creations the assigned identifiers are
/// strictly increasing, hence unique — the identifier of a record appended
/// with the next identifier exceeds every identifier already present, and
/// the next identifier after that append exceeds it in turn.
pub proof fn lemma_create_ids_strictly_increase(s: Seq<Todo>, t: Todo, id2: int)
    requires
        is_next_id(s, t.id as int),
        is_next_id(s.push(t), id2),
    ensures
        forall|i: int| 0 <= i < s.len() ==> s[i].id < t.id,
        t.id < id2,
{
    assert(s.push(t)[s.len() as int] == t);
    assert(s.push(t)[s.len() as int].id < id2);
}

/// Law: appending a record that carries the next identifier keeps the
/// identifiers of the collection unique.
pub proof fn lemma_create_preserves_unique(s: Seq<Todo>, t: Todo)
    requires
        unique_ids(s),
        is_next_id(s, t.id as int),
    ensures
        unique_ids(s.push(t)),
{
    let s2 = s.push(t);
    assert forall|i: int, j: int| 0 <= i < j < s2.len() implies s2[i].id != s2[j].id by {
        if j == s.len() {
            assert(s2[i] == s[i]);
            assert(s2[j] == t);
            assert(s[i].id < t.id);
        } else {
            assert(s2[i] == s[i]);
            assert(s2[j] == s[j]);
        }
    }
}

/// Law: an operation that touches no identifier — an update overwrites only
/// title and completion flag — keeps the identifiers of the collection unique.
pub proof fn lemma_same_ids_preserve_unique(s: Seq<Todo>, s2: Seq<Todo>)
    requires
        unique_ids(s),
        s2.len() == s.len(),
        forall|i: int| 0 <= i < s.len() ==> s2[i].id == s[i].id,
    ensures
        unique_ids(s2),
{
}

/// Law: when identifiers are unique, the first record carrying an identifier
/// is the only one — an update addressed by identifier touches exactly one
/// record.
pub proof fn lemma_first_match_is_only_match(s: Seq<Todo>, id: usize, i: int)
    requires
        unique_ids(s),
        first_match(s, id, i),
    ensures
        forall|j: int| 0 <= j < s.len() && j != i ==> s[j].id != id,
{
    assert forall|j: int| 0 <= j < s.len() && j != i implies s[j].id != id by {
        if j < i {
            assert(s[j].id != s[i].id);
        } else {
            assert(s[i].id != s[j].id);
        }
    }
}

/// Law: removing the record carrying an identifier from a collection with
/// unique identifiers leaves a collection without that identifier, still with
/// unique identifiers, and with the relative order of the remaining records
/// preserved — records before the removed one keep their places, records
/// after it move up by one.
pub proof fn lemma_delete_removes_id(s: Seq<Todo>, id: usize, i: int)
    requires
        unique_ids(s),
        first_match(s, id, i),
    ensures
        !has_id(s.remove(i), id),
        unique_ids(s.remove(i)),
        s.remove(i).len() == s.len() - 1,
        forall|j: int| 0 <= j < i ==> s.remove(i)[j] == s[j],
        forall|j: int| i <= j < s.len() - 1 ==> s.remove(i)[j] == s[j + 1],
{
    s.remove_ensures(i);
    let s2 = s.remove(i);
    lemma_first_match_is_only_match(s, id, i);
    assert forall|j: int| 0 <= j < s2.len() implies s2[j].id != id by {
        if j < i {
            assert(s2[j] == s[j]);
        } else {
            assert(s2[j] == s[j + 1]);
        }
    }
}

} // verus!
