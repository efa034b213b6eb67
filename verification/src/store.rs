//! The user entity store: rows keyed by a store-assigned identity, with
//! the uniqueness constraint on usernames enforced at the storage layer,
//! independently of any application-level pre-check.
//!
//! The store owns identity assignment: identities start at one, grow by
//! one per insert, and are never reused while the store lives.

use vstd::prelude::*;

use crate::caps::{Creatable, Deletable, Readable, Verifiable};
use crate::models::{NewUser, NewUserView, User, UserView};

verus! {

/// A fault reported by the backing store itself.
#[derive(Debug, Clone, Copy, PartialEq, Eq, Structural)]
pub enum StoreError {
    /// No row matches the requested identity.
    NotFound,
    /// An insert broke the storage-level uniqueness constraint.
    ConstraintViolation,
    /// The store cannot take another row.
    Unavailable,
}

/// A fault found by a business-rule pre-insert check.
#[derive(Debug, Clone, Copy, PartialEq, Eq, Structural)]
pub enum VerificationError {
    AlreadyExists,
    NotExists,
}

/// The mathematical value of the store: its rows, in insertion order,
/// and the identity the next insert will be assigned.
pub ghost struct UserStoreView {
    pub rows: Seq<UserView>,
    pub next_id: i32,
}

/// Whether some row carries the given username.
pub open spec fn rows_contain_username(rows: Seq<UserView>, name: Seq<char>) -> bool {
    exists|i: int| 0 <= i < rows.len() && rows[i].username == name
}

/// Whether some row carries the given identity.
pub open spec fn rows_contain_id(rows: Seq<UserView>, id: i32) -> bool {
    exists|i: int| 0 <= i < rows.len() && rows[i].id == id
}

/// The position of a row with the given identity; meaningful only when
/// one exists, and unambiguous on a well-formed store, where identities
/// are unique.
pub open spec fn idx_of_id(rows: Seq<UserView>, id: i32) -> int {
    choose|i: int| 0 <= i < rows.len() && rows[i].id == id
}

/// The row with the given identity; meaningful under the same conditions
/// as `idx_of_id`.
pub open spec fn row_with_id(rows: Seq<UserView>, id: i32) -> UserView {
    rows[idx_of_id(rows, id)]
}

impl UserStoreView {
    /// Well-formedness: identities are positive, below the next one to be
    /// assigned and unique, and usernames are unique.
    pub open spec fn wf(self) -> bool {
        &&& 1 <= self.next_id
        &&& forall|i: int|
            0 <= i < self.rows.len() ==> 1 <= (#[trigger] self.rows[i]).id < self.next_id
        &&& forall|i: int, j: int|
            0 <= i < j < self.rows.len() ==> #[trigger] self.rows[i].id != #[trigger] self.rows[j].id
        &&& forall|i: int, j: int|
            0 <= i < j < self.rows.len()
                ==> #[trigger] self.rows[i].username != #[trigger] self.rows[j].username
    }
}

/// An in-memory relational store of user rows.
pub struct UserStore {
    users: Vec<User>,
    next_id: i32,
}

impl View for UserStore {
    type V = UserStoreView;

    closed spec fn view(&self) -> UserStoreView {
        UserStoreView { rows: self.users@.map_values(|u: User| u@), next_id: self.next_id }
    }
}

impl UserStore {
    /// Well-formedness of the store handle; every store starts well-formed
    /// and every operation keeps it so.
    pub open spec fn wf(&self) -> bool {
        self@.wf()
    }

    /// An empty store; the first insert will be assigned identity one.
    pub fn new() -> (s: UserStore)
        ensures
            s.wf(),
            s@.rows == Seq::<UserView>::empty(),
            s@.next_id == 1,
    {
        let s = UserStore { users: Vec::new(), next_id: 1 };
        proof {
            assert(s@.rows =~= Seq::<UserView>::empty());
        }
        s
    }

    /// Whether some row carries the given username.
    pub fn contains_username(&self, name: &String) -> (r: bool)
        ensures
            r == rows_contain_username(self@.rows, name@),
    {
        let n = self.users.len();
        let mut i: usize = 0;
        while i < n
            invariant
                n == self.users.len(),
                i <= n,
                self@.rows.len() == n,
                forall|j: int| 0 <= j < i ==> (#[trigger] self@.rows[j]).username != name@,
            decreases n - i,
        {
            if *self.users[i]._get_username() == *name {
                assert(self@.rows[i as int].username == name@);
                return true;
            }
            i += 1;
        }
        false
    }

    /// The position of the row with the given identity, if any; on a
    /// well-formed store that row is unique.
    fn position_of_id(&self, id: i32) -> (r: Option<usize>)
        requires
            self.wf(),
        ensures
            r matches Some(i) ==> rows_contain_id(self@.rows, id) && idx_of_id(self@.rows, id)
                == i as int,
            r is None ==> !rows_contain_id(self@.rows, id),
    {
        let n = self.users.len();
        let mut i: usize = 0;
        while i < n
            invariant
                n == self.users.len(),
                i <= n,
                self.wf(),
                self@.rows.len() == n,
                forall|j: int| 0 <= j < i ==> (#[trigger] self@.rows[j]).id != id,
            decreases n - i,
        {
            if *self.users[i]._get_id() == id {
                proof {
                    assert(self@.rows[i as int].id == id);
                    let k = idx_of_id(self@.rows, id);
                    assert(0 <= k < self@.rows.len() && self@.rows[k].id == id);
                    if k < i as int {
                        assert(self@.rows[k].id != self@.rows[i as int].id);
                    } else if (i as int) < k {
                        assert(self@.rows[i as int].id != self@.rows[k].id);
                    }
                }
                return Some(i);
            }
            i += 1;
        }
        None
    }
}

impl NewUser {
    /// The optimistic pre-insert uniqueness check: fails when some row
    /// already carries the candidate's username, and otherwise passes the
    /// candidate through unchanged. The storage-level constraint on the
    /// insert itself remains the final arbiter.
    pub fn _verify_username(self, store: &UserStore) -> (r: Result<NewUser, VerificationError>)
        ensures
            rows_contain_username(store@.rows, self@.username) ==> r == Err::<
                NewUser,
                VerificationError,
            >(VerificationError::AlreadyExists),
            !rows_contain_username(store@.rows, self@.username) ==> r == Ok::<
                NewUser,
                VerificationError,
            >(self),
    {
        if store.contains_username(self.get_username()) {
            Err(VerificationError::AlreadyExists)
        } else {
            Ok(self)
        }
    }
}

impl Verifiable<UserStore> for NewUser {
    type Output = NewUser;

    type Error = VerificationError;

    open spec fn verify_spec(self, s: UserStoreView) -> Result<NewUserView, VerificationError> {
        if rows_contain_username(s.rows, self@.username) {
            Err(VerificationError::AlreadyExists)
        } else {
            Ok(self@)
        }
    }

    fn verify(self, store: &UserStore) -> (r: Result<NewUser, VerificationError>) {
        self._verify_username(store)
    }
}

impl Creatable<UserStore> for NewUser {
    type Output = User;

    type Error = StoreError;

    open spec fn store_inv(s: UserStoreView) -> bool {
        s.wf()
    }

    open spec fn create_spec(&self, s: UserStoreView) -> Result<UserView, StoreError> {
        if rows_contain_username(s.rows, self@.username) {
            Err(StoreError::ConstraintViolation)
        } else if s.next_id == i32::MAX {
            Err(StoreError::Unavailable)
        } else {
            Ok(UserView { id: s.next_id, username: self@.username, password: self@.password })
        }
    }

    open spec fn create_post(&self, s: UserStoreView) -> UserStoreView {
        if rows_contain_username(s.rows, self@.username) || s.next_id == i32::MAX {
            s
        } else {
            UserStoreView {
                rows: s.rows.push(
                    UserView { id: s.next_id, username: self@.username, password: self@.password },
                ),
                next_id: (s.next_id + 1) as i32,
            }
        }
    }

    fn create(&self, store: &mut UserStore) -> (r: Result<User, StoreError>) {
        if store.contains_username(self.get_username()) {
            return Err(StoreError::ConstraintViolation);
        }
        if store.next_id == i32::MAX {
            return Err(StoreError::Unavailable);
        }
        let row = User::from_parts(
            store.next_id,
            self.get_username().clone(),
            self.password_field().clone(),
        );
        let handed_back = row.clone();
        store.users.push(row);
        store.next_id = store.next_id + 1;
        proof {
            assert(store@.rows =~= self.create_post(old(store)@).rows);
        }
        Ok(handed_back)
    }
}

impl Readable<UserStore> for User {
    type Output = User;

    type Error = StoreError;

    open spec fn store_inv(s: UserStoreView) -> bool {
        s.wf()
    }

    open spec fn all_spec(s: UserStoreView) -> Result<Seq<UserView>, StoreError> {
        Ok(s.rows)
    }

    open spec fn with_id_spec(s: UserStoreView, id: i32) -> Result<UserView, StoreError> {
        if rows_contain_id(s.rows, id) {
            Ok(row_with_id(s.rows, id))
        } else {
            Err(StoreError::NotFound)
        }
    }

    fn all(store: &UserStore) -> (r: Result<Vec<User>, StoreError>) {
        let n = store.users.len();
        let mut out: Vec<User> = Vec::new();
        let mut i: usize = 0;
        while i < n
            invariant
                n == store.users.len(),
                i <= n,
                store@.rows.len() == n,
                out@.len() == i,
                forall|j: int| 0 <= j < i ==> (#[trigger] out@[j])@ == store@.rows[j],
            decreases n - i,
        {
            out.push(store.users[i].clone());
            i += 1;
        }
        proof {
            assert(out@.map_values(|o: User| o@) =~= store@.rows);
        }
        Ok(out)
    }

    fn with_id(store: &UserStore, id: &i32) -> (r: Result<User, StoreError>) {
        match store.position_of_id(*id) {
            Some(i) => Ok(store.users[i].clone()),
            None => Err(StoreError::NotFound),
        }
    }
}

impl Deletable<UserStore> for User {
    type Output = User;

    type Error = StoreError;

    open spec fn store_inv(s: UserStoreView) -> bool {
        s.wf()
    }

    open spec fn delete_spec(&self, s: UserStoreView) -> Result<UserView, StoreError> {
        if rows_contain_id(s.rows, self@.id) {
            Ok(row_with_id(s.rows, self@.id))
        } else {
            Err(StoreError::NotFound)
        }
    }

    open spec fn delete_post(&self, s: UserStoreView) -> UserStoreView {
        if rows_contain_id(s.rows, self@.id) {
            UserStoreView { rows: s.rows.remove(idx_of_id(s.rows, self@.id)), next_id: s.next_id }
        } else {
            s
        }
    }

    fn delete(&self, store: &mut UserStore) -> (r: Result<User, StoreError>) {
        match store.position_of_id(*self._get_id()) {
            Some(i) => {
                let removed = store.users.remove(i);
                proof {
                    let ii = i as int;
                    let old_rows = old(store)@.rows;
                    assert forall|j: int| 0 <= j < store@.rows.len() implies store@.rows[j]
                        == old_rows.remove(ii)[j] by {
                        if j < ii {
                            assert(store.users@[j] == old(store).users@[j]);
                        } else {
                            assert(store.users@[j] == old(store).users@[j + 1]);
                        }
                    }
                    assert(store@.rows =~= old_rows.remove(ii));
                    assert forall|p: int, q: int|
                        0 <= p < q < store@.rows.len() implies #[trigger] store@.rows[p].id
                        != #[trigger] store@.rows[q].id && store@.rows[p].username
                        != store@.rows[q].username by {
                        let p0 = if p < ii { p } else { p + 1 };
                        let q0 = if q < ii { q } else { q + 1 };
                        assert(store@.rows[p] == old_rows[p0]);
                        assert(store@.rows[q] == old_rows[q0]);
                    }
                }
                Ok(removed)
            },
            None => Err(StoreError::NotFound),
        }
    }
}

/// Round trip: on a well-formed store, inserting a candidate whose
/// username is free hands back exactly the row the insert promised; the
/// store stays well-formed; deleting that row by its identity succeeds,
/// returns it, and restores the rows the store held before; and a lookup
/// of that identity afterwards finds nothing, since identities are never
/// reused.
pub proof fn lemma_create_delete_round_trip(nu: NewUser, u: User, s: UserStoreView)
    requires
        s.wf(),
        !rows_contain_username(s.rows, nu@.username),
        s.next_id < i32::MAX,
        u@ == (UserView { id: s.next_id, username: nu@.username, password: nu@.password }),
    ensures
        nu.create_spec(s) == Ok::<UserView, StoreError>(u@),
        nu.create_post(s).wf(),
        u.delete_spec(nu.create_post(s)) == Ok::<UserView, StoreError>(u@),
        u.delete_post(nu.create_post(s)).rows == s.rows,
        u.delete_post(nu.create_post(s)).next_id == nu.create_post(s).next_id,
        User::with_id_spec(u.delete_post(nu.create_post(s)), u@.id) == Err::<
            UserView,
            StoreError,
        >(StoreError::NotFound),
{
    let created = u@;
    let after = nu.create_post(s);
    assert(after.rows == s.rows.push(created));
    assert(after.rows[s.rows.len() as int] == created);
    assert(rows_contain_id(after.rows, created.id));
    let k = idx_of_id(after.rows, created.id);
    assert(0 <= k < after.rows.len() && after.rows[k].id == created.id);
    if k < s.rows.len() {
        assert(after.rows[k] == s.rows[k]);
        assert(s.rows[k].id < s.next_id);
    }
    assert(k == s.rows.len());
    assert(row_with_id(after.rows, created.id) == created);
    assert(after.rows.remove(k) =~= s.rows);
    assert(!rows_contain_id(s.rows, created.id)) by {
        if rows_contain_id(s.rows, created.id) {
            let j = choose|j: int| 0 <= j < s.rows.len() && s.rows[j].id == created.id;
            assert(s.rows[j].id < s.next_id);
        }
    }
}

/// Enumerating the store is a pure read: without an intervening write,
/// any two enumerations of one store yield the same row sequence.
pub proof fn lemma_all_idempotent(
    s: UserStoreView,
    r1: Result<Seq<UserView>, StoreError>,
    r2: Result<Seq<UserView>, StoreError>,
)
    requires
        r1 == User::all_spec(s),
        r2 == User::all_spec(s),
    ensures
        r1 == r2,
{
}

} // verus!
