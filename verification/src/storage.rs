//! The record store: the sole authority over the stored user records,
//! modelled as a finite map from identifier to record.
//!
//! Records are held in a vector whose entries all carry an identifier and
//! carry pairwise-distinct identifiers; the store's abstract value is the
//! map from each identifier to its record. Every read hands out a copy,
//! never a reference into the store.

use vstd::prelude::*;

use crate::user::{User, UserView};

verus! {

/// Exact string comparison, stated over the character sequences.
fn str_eq(a: &str, b: &str) -> (r: bool)
    ensures
        r == (a@ == b@),
{
    let a_owned: String = a.to_owned();
    let b_owned: String = b.to_owned();
    a_owned == b_owned
}

/// `s` lists exactly the records of `m`: every element is a stored record
/// under its own identifier, the identifiers are pairwise distinct, and
/// every stored record appears.
pub open spec fn is_listing(m: Map<Seq<char>, UserView>, s: Seq<User>) -> bool {
    &&& (forall|i: int|
        0 <= i < s.len() ==> (#[trigger] s[i])@.id is Some && m.contains_key(s[i]@.id->0)
            && m[s[i]@.id->0] == s[i]@)
    &&& (forall|i: int, j: int|
        0 <= i < s.len() && 0 <= j < s.len() && i != j ==> (#[trigger] s[i])@.id->0 != (
        #[trigger] s[j])@.id->0)
    &&& (forall|k: Seq<char>| #[trigger]
        m.contains_key(k) ==> exists|i: int| 0 <= i < s.len() && (#[trigger] s[i])@.id->0 == k)
}

/// The in-process store of user records.
pub struct UserStorage {
    users: Vec<User>,
}

impl UserStorage {
    /// The number of slots in the backing vector.
    spec fn n(&self) -> int {
        self.users@.len() as int
    }

    /// The identifier of the record in slot `i`.
    spec fn key_at(&self, i: int) -> Seq<char> {
        (self.users@[i].id->0)@
    }

    /// Some slot among the first `n` carries identifier `k`.
    spec fn has_key_upto(&self, n: int, k: Seq<char>) -> bool {
        exists|i: int| 0 <= i < n && #[trigger] self.key_at(i) == k
    }

    /// Some slot carries identifier `k`.
    spec fn has_key(&self, k: Seq<char>) -> bool {
        self.has_key_upto(self.n(), k)
    }

    /// The slot carrying identifier `k` (unique when well-formed).
    spec fn slot_of(&self, k: Seq<char>) -> int {
        choose|i: int| 0 <= i < self.n() && #[trigger] self.key_at(i) == k
    }

    /// Every record carries an identifier, and no two records carry the
    /// same identifier.
    pub closed spec fn wf(&self) -> bool {
        &&& (forall|i: int| 0 <= i < self.n() ==> (#[trigger] self.users@[i]).id is Some)
        &&& (forall|i: int, j: int|
            0 <= i < self.n() && 0 <= j < self.n() && i != j ==> self.key_at(i) != self.key_at(j))
    }

    /// The store's abstract value: the map from identifier to record.
    pub closed spec fn view(&self) -> Map<Seq<char>, UserView> {
        Map::new(|k: Seq<char>| self.has_key(k), |k: Seq<char>| self.users@[self.slot_of(k)]@)
    }

    /// The record in slot `i` is the map's entry for its identifier.
    proof fn lemma_slot(&self, i: int)
        requires
            self.wf(),
            0 <= i < self.n(),
        ensures
            self@.contains_key(self.key_at(i)),
            self@[self.key_at(i)] == self.users@[i]@,
    {
        let k = self.key_at(i);
        assert(self.has_key(k));
        let j = self.slot_of(k);
        assert(0 <= j < self.n() && self.key_at(j) == k);
        assert(j == i);
    }

    /// Every slot is a map entry, and every map entry sits in some slot.
    proof fn lemma_entries(&self)
        requires
            self.wf(),
        ensures
            forall|i: int|
                0 <= i < self.n() ==> self@.contains_key(#[trigger] self.key_at(i)) && self@[self.key_at(
                    i,
                )] == self.users@[i]@,
            forall|k: Seq<char>| #[trigger] self@.contains_key(k) ==> self.has_key(k),
    {
        assert forall|i: int|
            0 <= i < self.n() implies self@.contains_key(#[trigger] self.key_at(i)) && self@[self.key_at(
            i,
        )] == self.users@[i]@ by {
            self.lemma_slot(i);
        }
    }

    /// Replacing the record in slot `i` by one with the same identifier
    /// updates the map at that identifier.
    proof fn lemma_replace_slot(pre: Self, post: Self, i: int, u: User)
        requires
            pre.wf(),
            0 <= i < pre.n(),
            u.id is Some,
            (u.id->0)@ == pre.key_at(i),
            post.users@ == pre.users@.update(i, u),
        ensures
            post.wf(),
            post@ == pre@.insert(pre.key_at(i), u@),
    {
        let k = pre.key_at(i);
        assert(forall|j: int| 0 <= j < post.n() ==> post.key_at(j) == pre.key_at(j));
        assert(post.wf());
        assert forall|k2: Seq<char>| #[trigger]
            post@.contains_key(k2) == pre@.insert(k, u@).contains_key(k2) && (post@.contains_key(k2)
                ==> post@[k2] == pre@.insert(k, u@)[k2]) by {
            if post.has_key(k2) {
                let j = choose|j: int| 0 <= j < post.n() && #[trigger] post.key_at(j) == k2;
                assert(pre.key_at(j) == k2);
                assert(pre.has_key(k2));
                pre.lemma_slot(j);
                post.lemma_slot(j);
                if j == i {
                    assert(k2 == k);
                    assert(post@[k2] == u@);
                } else {
                    assert(k2 != k);
                    assert(post@[k2] == pre.users@[j]@);
                }
            } else {
                assert(!pre.has_key(k2)) by {
                    if pre.has_key(k2) {
                        let j = choose|j: int|
                            0 <= j < pre.n() && #[trigger] pre.key_at(j) == k2;
                        assert(post.key_at(j) == k2);
                    }
                }
                assert(k2 != k) by {
                    if k2 == k {
                        assert(post.key_at(i) == k);
                    }
                }
            }
        }
        assert(post@ =~= pre@.insert(k, u@));
    }

    /// Appending a record whose identifier is fresh inserts it into the map.
    proof fn lemma_append(pre: Self, post: Self, u: User)
        requires
            pre.wf(),
            u.id is Some,
            !pre@.contains_key((u.id->0)@),
            post.users@ == pre.users@.push(u),
        ensures
            post.wf(),
            post@ == pre@.insert((u.id->0)@, u@),
    {
        let k = (u.id->0)@;
        assert(!pre.has_key(k));
        assert(forall|j: int| 0 <= j < pre.n() ==> post.key_at(j) == pre.key_at(j));
        assert(post.key_at(pre.n()) == k);
        assert forall|i: int, j: int|
            0 <= i < post.n() && 0 <= j < post.n() && i != j implies post.key_at(i) != post.key_at(
            j,
        ) by {
            if i < pre.n() && j < pre.n() {
                assert(pre.key_at(i) != pre.key_at(j));
            } else if i == pre.n() && j < pre.n() {
                assert(pre.key_at(j) != k);
            } else if j == pre.n() && i < pre.n() {
                assert(pre.key_at(i) != k);
            }
        }
        assert(post.wf());
        assert forall|k2: Seq<char>| #[trigger]
            post@.contains_key(k2) == pre@.insert(k, u@).contains_key(k2) && (post@.contains_key(k2)
                ==> post@[k2] == pre@.insert(k, u@)[k2]) by {
            if post.has_key(k2) {
                let j = choose|j: int| 0 <= j < post.n() && #[trigger] post.key_at(j) == k2;
                post.lemma_slot(j);
                if j == pre.n() {
                    assert(k2 == k);
                    assert(post@[k2] == u@);
                } else {
                    assert(pre.has_key(k2));
                    pre.lemma_slot(j);
                    assert(k2 != k);
                    assert(post@[k2] == pre.users@[j]@);
                }
            } else {
                assert(!pre.has_key(k2)) by {
                    if pre.has_key(k2) {
                        let j = choose|j: int|
                            0 <= j < pre.n() && #[trigger] pre.key_at(j) == k2;
                        assert(post.key_at(j) == k2);
                    }
                }
                assert(k2 != k) by {
                    if k2 == k {
                        assert(post.key_at(pre.n()) == k);
                    }
                }
            }
        }
        assert(post@ =~= pre@.insert(k, u@));
    }

    /// Removing slot `i` removes its identifier from the map.
    proof fn lemma_remove_slot(pre: Self, post: Self, i: int)
        requires
            pre.wf(),
            0 <= i < pre.n(),
            post.users@ == pre.users@.remove(i),
        ensures
            post.wf(),
            post@ == pre@.remove(pre.key_at(i)),
    {
        let k = pre.key_at(i);
        assert(forall|j: int| 0 <= j < i ==> post.key_at(j) == pre.key_at(j));
        assert(forall|j: int| i <= j < post.n() ==> post.key_at(j) == pre.key_at(j + 1));
        assert forall|p: int, q: int|
            0 <= p < post.n() && 0 <= q < post.n() && p != q implies post.key_at(p) != post.key_at(
            q,
        ) by {
            let p0 = if p < i { p } else { p + 1 };
            let q0 = if q < i { q } else { q + 1 };
            assert(pre.key_at(p0) != pre.key_at(q0));
        }
        assert(post.wf());
        assert forall|k2: Seq<char>| #[trigger]
            post@.contains_key(k2) == pre@.remove(k).contains_key(k2) && (post@.contains_key(k2)
                ==> post@[k2] == pre@.remove(k)[k2]) by {
            if post.has_key(k2) {
                let j = choose|j: int| 0 <= j < post.n() && #[trigger] post.key_at(j) == k2;
                post.lemma_slot(j);
                let j0 = if j < i { j } else { j + 1 };
                assert(pre.key_at(j0) == k2);
                pre.lemma_slot(j0);
                assert(k2 != k);
            } else {
                if pre.has_key(k2) && k2 != k {
                    let j0 = choose|j: int| 0 <= j < pre.n() && #[trigger] pre.key_at(j) == k2;
                    assert(j0 != i);
                    let j = if j0 < i { j0 } else { j0 - 1 };
                    assert(post.key_at(j) == k2);
                }
            }
        }
        assert(post@ =~= pre@.remove(k));
    }

    /// The set of identifiers among the first `n` slots.
    spec fn key_set_upto(&self, n: int) -> Set<Seq<char>>
        decreases n,
    {
        if n <= 0 {
            Set::empty()
        } else {
            self.key_set_upto(n - 1).insert(self.key_at(n - 1))
        }
    }

    proof fn lemma_key_set_upto(&self, n: int)
        requires
            self.wf(),
            0 <= n <= self.n(),
        ensures
            self.key_set_upto(n).finite(),
            self.key_set_upto(n).len() == n,
            forall|k: Seq<char>| #[trigger]
                self.key_set_upto(n).contains(k) <==> self.has_key_upto(n, k),
        decreases n,
    {
        if n > 0 {
            self.lemma_key_set_upto(n - 1);
            assert(!self.key_set_upto(n - 1).contains(self.key_at(n - 1))) by {
                if self.has_key_upto(n - 1, self.key_at(n - 1)) {
                    let j = choose|i: int|
                        0 <= i < n - 1 && #[trigger] self.key_at(i) == self.key_at(n - 1);
                    assert(self.key_at(j) != self.key_at(n - 1));
                }
            }
            assert forall|k: Seq<char>| #[trigger]
                self.key_set_upto(n).contains(k) <==> self.has_key_upto(n, k) by {
                if self.key_set_upto(n).contains(k) {
                    if k == self.key_at(n - 1) {
                        assert(self.has_key_upto(n, k));
                    } else {
                        assert(self.has_key_upto(n - 1, k));
                        let j = choose|i: int| 0 <= i < n - 1 && #[trigger] self.key_at(i) == k;
                        assert(0 <= j < n && self.key_at(j) == k);
                    }
                } else {
                    if self.has_key_upto(n, k) {
                        let j = choose|i: int| 0 <= i < n && #[trigger] self.key_at(i) == k;
                        if j < n - 1 {
                            assert(self.has_key_upto(n - 1, k));
                        }
                    }
                }
            }
        }
    }

    /// The store holds one map entry per backing slot.
    proof fn lemma_dom_size(&self)
        requires
            self.wf(),
        ensures
            self@.dom().finite(),
            self@.dom().len() == self.users@.len(),
    {
        self.lemma_key_set_upto(self.n());
        assert(self@.dom() =~= self.key_set_upto(self.n()));
    }

    /// The slot whose record carries identifier `id`, if any.
    fn index_of_key(&self, id: &str) -> (r: Option<usize>)
        requires
            self.wf(),
        ensures
            match r {
                Option::Some(i) => i < self.users@.len() && self.key_at(i as int) == id@,
                Option::None => !self@.contains_key(id@),
            },
    {
        let n = self.users.len();
        let mut i: usize = 0;
        while i < n
            invariant
                self.wf(),
                n == self.users@.len(),
                i <= n,
                forall|j: int| 0 <= j < i ==> self.key_at(j) != id@,
            decreases n - i,
        {
            let u = &self.users[i];
            let uid: &String = u.id.as_ref().unwrap();
            if str_eq(uid.as_str(), id) {
                return Option::Some(i);
            }
            i += 1;
        }
        proof {
            if self.has_key(id@) {
                let j = choose|j: int| 0 <= j < self.n() && #[trigger] self.key_at(j) == id@;
                assert(self.key_at(j) != id@);
            }
        }
        Option::None
    }

    /// An empty store.
    pub fn new() -> (r: Self)
        ensures
            r.wf(),
            r@ == Map::<Seq<char>, UserView>::empty(),
    {
        let r = UserStorage { users: Vec::new() };
        proof {
            assert(r@.dom() =~= Set::<Seq<char>>::empty());
            assert(r@ =~= Map::<Seq<char>, UserView>::empty());
        }
        r
    }

    /// Stores `user` under its identifier, overwriting any record already
    /// held under that identifier. The identifier must have been assigned
    /// by the caller before this call.
    pub fn create(&mut self, user: User)
        requires
            old(self).wf(),
            user.id is Some,
        ensures
            final(self).wf(),
            final(self)@ == old(self)@.insert((user.id->0)@, user@),
    {
        let ghost u = user;
        let idx_opt = {
            let id_ref: &String = user.id.as_ref().unwrap();
            self.index_of_key(id_ref.as_str())
        };
        match idx_opt {
            Option::Some(i) => {
                self.users.remove(i);
                self.users.insert(i, user);
                proof {
                    assert(self.users@ =~= old(self).users@.update(i as int, u));
                    Self::lemma_replace_slot(*old(self), *self, i as int, u);
                }
            },
            Option::None => {
                self.users.push(user);
                proof {
                    Self::lemma_append(*old(self), *self, u);
                }
            },
        }
    }

    /// The record stored under `id`, if any.
    pub fn get_by_id(&self, id: &str) -> (r: Option<&User>)
        requires
            self.wf(),
        ensures
            match r {
                Option::Some(u) => self@.contains_key(id@) && u@ == self@[id@],
                Option::None => !self@.contains_key(id@),
            },
    {
        match self.index_of_key(id) {
            Option::Some(i) => {
                proof {
                    self.lemma_slot(i as int);
                }
                Option::Some(&self.users[i])
            },
            Option::None => Option::None,
        }
    }

    /// A copy of every stored record, one element per record, in no
    /// particular order.
    pub fn fetch(&self) -> (r: Vec<User>)
        requires
            self.wf(),
        ensures
            is_listing(self@, r@),
            self@.dom().finite(),
            r@.len() == self@.dom().len(),
    {
        let mut r: Vec<User> = Vec::new();
        let n = self.users.len();
        let mut i: usize = 0;
        while i < n
            invariant
                self.wf(),
                n == self.users@.len(),
                i <= n,
                r@.len() == i,
                forall|j: int| 0 <= j < i ==> (#[trigger] r@[j])@ == self.users@[j]@,
            decreases n - i,
        {
            let u = self.users[i].clone();
            r.push(u);
            i += 1;
        }
        proof {
            self.lemma_entries();
            self.lemma_dom_size();
            assert forall|j: int| 0 <= j < r@.len() implies (#[trigger] r@[j])@.id is Some
                && self@.contains_key(r@[j]@.id->0) && self@[r@[j]@.id->0] == r@[j]@ by {
                assert(r@[j]@ == self.users@[j]@);
                assert(r@[j]@.id->0 == self.key_at(j));
            }
            assert forall|p: int, q: int|
                0 <= p < r@.len() && 0 <= q < r@.len() && p != q implies (#[trigger] r@[p])@.id->0
                != (#[trigger] r@[q])@.id->0 by {
                assert(r@[p]@.id->0 == self.key_at(p));
                assert(r@[q]@.id->0 == self.key_at(q));
            }
            assert forall|k: Seq<char>| #[trigger] self@.contains_key(k) implies exists|j: int|
                0 <= j < r@.len() && (#[trigger] r@[j])@.id->0 == k by {
                let j = choose|j: int| 0 <= j < self.n() && #[trigger] self.key_at(j) == k;
                assert(r@[j]@.id->0 == k);
            }
        }
        r
    }

    /// Replaces the name and email of the record stored under `id`, keeping
    /// its identifier, and returns a copy of the updated record; reports
    /// not-found and changes nothing when no record is stored under `id`.
    pub fn update(&mut self, id: &str, updated_user: User) -> (r: Option<User>)
        requires
            old(self).wf(),
        ensures
            final(self).wf(),
            old(self)@.contains_key(id@) ==> {
                let v = UserView {
                    id: Option::Some(id@),
                    name: updated_user.name@,
                    email: updated_user.email@,
                };
                &&& final(self)@ == old(self)@.insert(id@, v)
                &&& r matches Option::Some(u) && u@ == v
            },
            !old(self)@.contains_key(id@) ==> r is None && *final(self) == *old(self),
    {
        match self.index_of_key(id) {
            Option::Some(i) => {
                proof {
                    assert(old(self).has_key(id@));
                }
                let old_user = self.users.remove(i);
                let new_user = User {
                    id: old_user.id,
                    name: updated_user.name,
                    email: updated_user.email,
                };
                let ret = new_user.clone();
                let ghost nu = new_user;
                self.users.insert(i, new_user);
                proof {
                    assert(self.users@ =~= old(self).users@.update(i as int, nu));
                    Self::lemma_replace_slot(*old(self), *self, i as int, nu);
                }
                Option::Some(ret)
            },
            Option::None => Option::None,
        }
    }

    /// Removes the record stored under `id` and returns a copy of it;
    /// reports not-found and changes nothing when no record is stored
    /// under `id`.
    pub fn delete(&mut self, id: &str) -> (r: Option<User>)
        requires
            old(self).wf(),
        ensures
            final(self).wf(),
            old(self)@.contains_key(id@) ==> {
                &&& final(self)@ == old(self)@.remove(id@)
                &&& r matches Option::Some(u) && u@ == old(self)@[id@]
            },
            !old(self)@.contains_key(id@) ==> r is None && *final(self) == *old(self),
    {
        match self.index_of_key(id) {
            Option::Some(i) => {
                let removed = self.users.remove(i);
                proof {
                    old(self).lemma_slot(i as int);
                    Self::lemma_remove_slot(*old(self), *self, i as int);
                }
                Option::Some(removed)
            },
            Option::None => Option::None,
        }
    }
}

} // verus!
