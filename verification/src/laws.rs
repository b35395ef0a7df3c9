//! Laws of the provider contract.
//!
//! Each proof function here states a property of the store transitions that
//! the [`crate::posts::provider::PostsProvider`] operations promise in their
//! contracts: its premises are exactly what those `ensures` clauses deliver,
//! so the property holds of every implementation of the contract.

use vstd::prelude::*;

verus! {

use crate::posts::model::Post;

/// Round trip: a lookup of a freshly created post's identifier, made against
/// the store state the creation produced, finds exactly the created post.
///
/// `pre` is the store before the creation, which promised that `created` was
/// stored under its fresh identifier; the `get` contract then forces the
/// lookup to answer `created` itself.
pub proof fn lemma_create_get_round_trip(pre: Map<Seq<char>, Post>, created: Post)
    requires
        !pre.contains_key(created.id@),
    ensures
        pre.insert(created.id@, created).contains_key(created.id@),
        pre.insert(created.id@, created)[created.id@] == created,
{
}

proof fn lemma_created_key_persists(
    states: Seq<Map<Seq<char>, Post>>,
    created: Seq<Post>,
    i: int,
    j: int,
)
    requires
        states.len() == created.len() + 1,
        forall|k: int|
            0 <= k < created.len() ==> states[k + 1] == (#[trigger] states[k]).insert(
                created[k].id@,
                created[k],
            ),
        0 <= i < j <= created.len(),
    ensures
        states[j].contains_key(created[i].id@),
    decreases j - i,
{
    if j == i + 1 {
        assert(states[j] == states[i].insert(created[i].id@, created[i]));
    } else {
        lemma_created_key_persists(states, created, i, j - 1);
        assert(states[j] == states[j - 1].insert(created[j - 1].id@, created[j - 1]));
    }
}

/// Uniqueness: across any sequence of creations the generated identifiers
/// are pairwise distinct.
///
/// `states` are the store states around each creation; each step promised
/// that its identifier was absent when it was generated and that the store
/// grew by exactly that post. Once stored, an identifier is never absent
/// again, so no later step can generate it anew.
pub proof fn lemma_created_ids_pairwise_distinct(
    states: Seq<Map<Seq<char>, Post>>,
    created: Seq<Post>,
)
    requires
        states.len() == created.len() + 1,
        forall|k: int| 0 <= k < created.len() ==> !(#[trigger] states[k]).contains_key(
            created[k].id@,
        ),
        forall|k: int|
            0 <= k < created.len() ==> states[k + 1] == (#[trigger] states[k]).insert(
                created[k].id@,
                created[k],
            ),
    ensures
        forall|i: int, j: int|
            0 <= i < j < created.len() ==> created[i].id@ != created[j].id@,
{
    assert forall|i: int, j: int|
        0 <= i < j < created.len() implies created[i].id@ != created[j].id@ by {
        lemma_created_key_persists(states, created, i, j);
    }
}

/// Update replaces wholesale: after a replacement of the post stored under
/// an existing identifier, a lookup of that identifier finds exactly the
/// replacement — every field of the pre-update record is gone, and only the
/// identifier is preserved.
pub proof fn lemma_update_replaces_wholesale(
    pre: Map<Seq<char>, Post>,
    id: Seq<char>,
    replacement: Post,
)
    requires
        pre.contains_key(id),
        replacement.id@ == id,
    ensures
        pre.insert(id, replacement).contains_key(id),
        pre.insert(id, replacement)[id] == replacement,
        pre.insert(id, replacement).dom() =~= pre.dom(),
{
}

/// Deleting an absent identifier changes nothing: the removal the `delete`
/// contract describes is the identity on a store that does not hold the
/// identifier, so any listing taken afterwards is a listing of the same
/// store.
pub proof fn lemma_delete_absent_is_noop(pre: Map<Seq<char>, Post>, id: Seq<char>)
    requires
        !pre.contains_key(id),
    ensures
        pre.remove(id) == pre,
{
    assert(pre.remove(id) =~= pre);
}

/// Deleting twice: after a deletion of a held identifier the identifier is
/// absent, so the second deletion reports `false` by the `delete` contract
/// and, by the law above, changes nothing.
pub proof fn lemma_delete_twice(pre: Map<Seq<char>, Post>, id: Seq<char>)
    requires
        pre.contains_key(id),
    ensures
        !pre.remove(id).contains_key(id),
        pre.remove(id).remove(id) == pre.remove(id),
{
    lemma_delete_absent_is_noop(pre.remove(id), id);
}

/// Not-found symmetry: the store states that the `get`, `update` and
/// `delete` contracts leave behind for an unknown identifier are all the
/// pre-call store — none of the three operations mutates anything, and each
/// reports absence rather than fabricating a result.
pub proof fn lemma_not_found_symmetry(pre: Map<Seq<char>, Post>, id: Seq<char>)
    requires
        !pre.contains_key(id),
    ensures
        pre.remove(id) == pre,
        !pre.dom().contains(id),
{
    lemma_delete_absent_is_noop(pre, id);
}

} // verus!
