//! An in-memory user store implementing the persistence boundary the
//! authentication core relies on: find a user by username, insert a new
//! user, find a user by id. Usernames and ids are unique; ids are handed
//! out by a strictly increasing counter.

use vstd::prelude::*;

use crate::clock::now_seconds;
use crate::error::AppError;
use crate::password::{bcrypt_check, hash_password, verify_password, DUMMY_HASH};
use crate::user::User;

verus! {

/// Character-for-character string equality.
pub fn str_eq(a: &str, b: &str) -> (r: bool)
    ensures
        r == (a@ == b@),
{
    let alen = a.unicode_len();
    let blen = b.unicode_len();
    if alen != blen {
        return false;
    }
    for i in 0..alen
        invariant
            alen == a@.len(),
            alen == b@.len(),
            forall|k: int| 0 <= k < i ==> a@[k] == b@[k],
    {
        if a.get_char(i) != b.get_char(i) {
            return false;
        }
    }
    proof {
        assert(a@ =~= b@);
    }
    true
}

/// No two records share a username, and no two share an id.
pub open spec fn spec_records_unique(users: Seq<User>) -> bool {
    forall|i: int, j: int|
        0 <= i < j < users.len() ==> users[i].username@ != users[j].username@ && users[i].id
            != users[j].id
}

/// The in-memory user store. Its view is the sequence of stored records
/// in insertion order.
pub struct UserStore {
    users: Vec<User>,
    next_id: i32,
}

impl View for UserStore {
    type V = Seq<User>;

    closed spec fn view(&self) -> Seq<User> {
        self.users@
    }
}

impl UserStore {
    /// The store's invariant: records are pairwise distinct in username
    /// and id, and every id lies in `1..` below the id counter.
    pub closed spec fn inv(&self) -> bool {
        &&& spec_records_unique(self.users@)
        &&& (forall|i: int|
            0 <= i < self.users@.len() ==> 1 <= #[trigger] self.users@[i].id < self.next_id)
        &&& self.next_id >= 1
    }

    /// Whether the id counter is exhausted, so that no further user can
    /// be inserted.
    pub closed spec fn at_capacity(&self) -> bool {
        self.next_id == i32::MAX
    }

    /// What the invariant guarantees of the view: pairwise distinct
    /// usernames and ids.
    pub proof fn lemma_inv_unique(&self)
        requires
            self.inv(),
        ensures
            spec_records_unique(self@),
    {
    }

    /// An empty store.
    pub fn new() -> (s: UserStore)
        ensures
            s.inv(),
            s@ == Seq::<User>::empty(),
            !s.at_capacity(),
    {
        let s = UserStore { users: Vec::new(), next_id: 1 };
        proof {
            assert(s.users@ =~= Seq::<User>::empty());
        }
        s
    }

    /// How many users are stored.
    pub fn len(&self) -> (n: usize)
        ensures
            n == self@.len(),
    {
        self.users.len()
    }

    /// Find the user holding `username`, if any.
    pub fn find_by_username(&self, username: &str) -> (r: Option<&User>)
        ensures
            (r matches Some(u) ==> exists|i: int|
                0 <= i < self@.len() && self@[i] == *u && #[trigger] self@[i].username@
                    == username@),
            (r is None ==> forall|i: int|
                0 <= i < self@.len() ==> #[trigger] self@[i].username@ != username@),
    {
        let n = self.users.len();
        for i in 0..n
            invariant
                n == self.users@.len(),
                forall|k: int| 0 <= k < i ==> #[trigger] self.users@[k].username@ != username@,
        {
            if str_eq(self.users[i].username.as_str(), username) {
                proof {
                    assert((i as int) < self@.len() && self@[i as int].username@ == username@);
                }
                return Some(&self.users[i]);
            }
        }
        None
    }

    /// Find the user holding `id`, if any.
    pub fn find_by_id(&self, id: i32) -> (r: Option<&User>)
        ensures
            (r matches Some(u) ==> exists|i: int|
                0 <= i < self@.len() && self@[i] == *u && #[trigger] self@[i].id == id),
            (r is None ==> forall|i: int| 0 <= i < self@.len() ==> #[trigger] self@[i].id != id),
    {
        let n = self.users.len();
        for i in 0..n
            invariant
                n == self.users@.len(),
                forall|k: int| 0 <= k < i ==> #[trigger] self.users@[k].id != id,
        {
            if self.users[i].id == id {
                proof {
                    assert((i as int) < self@.len() && self@[i as int].id == id);
                }
                return Some(&self.users[i]);
            }
        }
        None
    }

    /// Insert a new user with the given already-hashed password.
    ///
    /// A taken username answers `DuplicateUser` and an exhausted id
    /// counter `Internal`; otherwise the record is appended with a fresh
    /// id and returned.
    pub fn insert_user(
        &mut self,
        username: &str,
        email: &str,
        password_hash: &str,
        created_at: i64,
    ) -> (r: Result<User, AppError>)
        requires
            old(self).inv(),
        ensures
            final(self).inv(),
            (r is Err ==> final(self)@ == old(self)@),
            (r matches Err(e) ==> e == AppError::DuplicateUser || e == AppError::Internal),
            ((exists|i: int|
                0 <= i < old(self)@.len() && #[trigger] old(self)@[i].username@ == username@)
                ==> r == Err::<User, AppError>(AppError::DuplicateUser)),
            ((forall|i: int|
                0 <= i < old(self)@.len() ==> #[trigger] old(self)@[i].username@ != username@)
                ==> ((r matches Ok(u) && final(self)@ == old(self)@.push(u) && u.username@
                == username@ && u.email@ == email@ && u.password@ == password_hash@ && u.created_at
                == created_at && u.updated_at == created_at && 1 <= u.id) || (r == Err::<
                User,
                AppError,
            >(AppError::Internal) && old(self).at_capacity()))),
    {
        if self.find_by_username(username).is_some() {
            return Err(AppError::DuplicateUser);
        }
        if self.next_id == i32::MAX {
            return Err(AppError::Internal);
        }
        let id = self.next_id;
        self.next_id = id + 1;
        let u = User {
            id,
            username: username.to_owned(),
            email: email.to_owned(),
            password: password_hash.to_owned(),
            created_at,
            updated_at: created_at,
        };
        let ret = u.duplicate();
        self.users.push(u);
        Ok(ret)
    }
}

impl User {
    /// Hash `password` and insert a new user record: the compute half of
    /// registration. A taken username answers `DuplicateUser`; for a
    /// fresh one the only admitted failure is `Internal` (the salt's
    /// randomness source, or an exhausted id counter). On success the
    /// stored record holds a 60-character hash that verifies `password`.
    pub fn create(store: &mut UserStore, username: &str, email: &str, password: &str) -> (r:
        Result<User, AppError>)
        requires
            old(store).inv(),
        ensures
            final(store).inv(),
            (r is Err ==> final(store)@ == old(store)@),
            (r matches Err(e) ==> e == AppError::DuplicateUser || e == AppError::Internal),
            ((exists|i: int|
                0 <= i < old(store)@.len() && #[trigger] old(store)@[i].username@ == username@)
                ==> (r == Err::<User, AppError>(AppError::DuplicateUser) || r == Err::<
                User,
                AppError,
            >(AppError::Internal))),
            ((forall|i: int|
                0 <= i < old(store)@.len() ==> #[trigger] old(store)@[i].username@ != username@)
                ==> (r is Ok || r == Err::<User, AppError>(AppError::Internal))),
            (r matches Ok(u) ==> final(store)@ == old(store)@.push(u) && u.username@ == username@
                && u.email@ == email@ && bcrypt_check(password@, u.password@) == Some(true)
                && u.password@.len() == 60 && (forall|i: int|
                0 <= i < old(store)@.len() ==> #[trigger] old(store)@[i].username@ != username@)),
    {
        let hashed = match hash_password(password) {
            Ok(h) => h,
            Err(e) => {
                return Err(e);
            },
        };
        let now = now_seconds();
        store.insert_user(username, email, hashed.as_str(), now)
    }

    /// Authenticate a login attempt: look the username up and check the
    /// password against the stored hash. Unknown user and wrong password
    /// both answer `InvalidCredentials`; when the user is absent the
    /// password is still checked, against a dummy hash, so the latency
    /// does not reveal whether the username exists.
    pub fn verify(store: &UserStore, username: &str, password: &str) -> (r: Result<User, AppError>)
        requires
            store.inv(),
        ensures
            ((forall|i: int|
                0 <= i < store@.len() ==> #[trigger] store@[i].username@ != username@) ==> r
                == Err::<User, AppError>(AppError::InvalidCredentials)),
            (forall|i: int|
                (0 <= i < store@.len() && #[trigger] store@[i].username@ == username@) ==> {
                    &&& (bcrypt_check(password@, store@[i].password@) == Some(true) ==> (
                    r matches Ok(u) && u == store@[i]))
                    &&& (bcrypt_check(password@, store@[i].password@) == Some(false) ==> r == Err::<
                        User,
                        AppError,
                    >(AppError::InvalidCredentials))
                    &&& (bcrypt_check(password@, store@[i].password@) is None ==> r == Err::<
                        User,
                        AppError,
                    >(AppError::Internal))
                }),
            (r matches Err(e) ==> e == AppError::InvalidCredentials || e == AppError::Internal),
    {
        match store.find_by_username(username) {
            None => {
                let _ = verify_password(password, DUMMY_HASH);
                Err(AppError::InvalidCredentials)
            },
            Some(user) => {
                match verify_password(password, user.password.as_str()) {
                    Ok(true) => Ok(user.duplicate()),
                    Ok(false) => Err(AppError::InvalidCredentials),
                    Err(e) => Err(e),
                }
            },
        }
    }
}

} // verus!
