//! Laws relating the store's operations to one another, stated over the
//! store's abstract map value — the value the operations' contracts speak
//! of — and proved once for all stores.

use vstd::prelude::*;

use crate::storage::is_listing;
use crate::user::{User, UserView};

verus! {

/// A get under the identifier a record was just created with finds that
/// record: after a create of `u`, the store maps `u`'s identifier to `u`.
pub proof fn lemma_get_after_create(m: Map<Seq<char>, UserView>, u: UserView)
    requires
        u.id is Some,
    ensures
        m.insert(u.id->0, u).contains_key(u.id->0),
        m.insert(u.id->0, u)[u.id->0] == u,
{
}

/// After a delete of identifier `k`, a get of `k` finds nothing, and no
/// listing of the store contains a record with identifier `k`.
pub proof fn lemma_get_after_delete(m: Map<Seq<char>, UserView>, k: Seq<char>, s: Seq<User>)
    requires
        is_listing(m.remove(k), s),
    ensures
        !m.remove(k).contains_key(k),
        forall|i: int| 0 <= i < s.len() ==> (#[trigger] s[i])@.id->0 != k,
{
    assert forall|i: int| 0 <= i < s.len() implies (#[trigger] s[i])@.id->0 != k by {
        assert(m.remove(k).contains_key(s[i]@.id->0));
    }
}

/// A create grows the store by one record when its identifier is fresh,
/// and keeps the store's size when it overwrites: with each successful
/// delete shrinking the store by one, a listing has one element per
/// fresh create minus one per successful delete.
pub proof fn lemma_size_after_create(m: Map<Seq<char>, UserView>, k: Seq<char>, u: UserView)
    requires
        m.dom().finite(),
    ensures
        !m.contains_key(k) ==> m.insert(k, u).dom().len() == m.dom().len() + 1,
        m.contains_key(k) ==> m.insert(k, u).dom().len() == m.dom().len(),
{
    assert(m.insert(k, u).dom() =~= m.dom().insert(k));
    if m.contains_key(k) {
        assert(m.dom().insert(k) =~= m.dom());
    }
}

/// A delete of a present identifier shrinks the store by one record; a
/// delete of an absent identifier leaves the store's size unchanged.
pub proof fn lemma_size_after_delete(m: Map<Seq<char>, UserView>, k: Seq<char>)
    requires
        m.dom().finite(),
    ensures
        m.contains_key(k) ==> m.remove(k).dom().len() == m.dom().len() - 1,
        !m.contains_key(k) ==> m.remove(k).dom().len() == m.dom().len(),
{
    assert(m.remove(k).dom() =~= m.dom().remove(k));
    if !m.contains_key(k) {
        assert(m.dom().remove(k) =~= m.dom());
    }
}

/// An update of identifier `k` followed by a delete of `k` leaves the
/// store exactly as a delete of `k` alone does: the record is fully gone,
/// with no trace of the update.
pub proof fn lemma_update_then_delete(m: Map<Seq<char>, UserView>, k: Seq<char>, u: UserView)
    ensures
        m.insert(k, u).remove(k) == m.remove(k),
{
    assert(m.insert(k, u).remove(k) =~= m.remove(k));
}

/// A delete of identifier `k` followed by an update of `k` finds nothing
/// to update: the update reports not-found and leaves the store unchanged.
pub proof fn lemma_delete_then_update(m: Map<Seq<char>, UserView>, k: Seq<char>)
    ensures
        !m.remove(k).contains_key(k),
{
}

} // verus!
