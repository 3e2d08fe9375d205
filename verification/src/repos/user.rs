//! The user record and the credential side of the user repository.

use vstd::prelude::*;

verus! {

use crate::repos::{MemoryStore, RepoError, Store, UniqueId};
use vstd::pervasive::VecAdditionalExecFns;

/// A stored principal. The password is the stored credential; the TOTP
/// fields say whether a second factor is enrolled and under which secret.
#[derive(Debug)]
pub struct User {
    pub _id: String,
    pub username: String,
    pub password: String,
    pub totp_enabled: bool,
    pub totp_secret: Option<String>,
}

/// Mathematical image of a [`User`] record.
pub struct UserView {
    pub id: Seq<char>,
    pub username: Seq<char>,
    pub password: Seq<char>,
    pub totp_enabled: bool,
    pub totp_secret: Option<Seq<char>>,
}

impl View for User {
    type V = UserView;

    open spec fn view(&self) -> UserView {
        UserView {
            id: self._id@,
            username: self.username@,
            password: self.password@,
            totp_enabled: self.totp_enabled,
            totp_secret: match self.totp_secret {
                Some(s) => Some(s@),
                None => None,
            },
        }
    }
}

impl Clone for User {
    fn clone(&self) -> (r: Self)
        ensures
            r == *self,
    {
        User {
            _id: self._id.clone(),
            username: self.username.clone(),
            password: self.password.clone(),
            totp_enabled: self.totp_enabled,
            totp_secret: match &self.totp_secret {
                Some(s) => Some(s.clone()),
                None => None,
            },
        }
    }
}

impl UniqueId<String> for User {
    open spec fn spec_id(&self) -> Option<String> {
        Some(self._id)
    }

    fn get_id<'user>(&'user self) -> (r: Option<&'user String>) {
        Some(&self._id)
    }
}

/// Whether `u` is the principal named `username` holding the stored
/// credential `password` (exact, case-sensitive matches).
pub open spec fn credentials_match(u: UserView, username: Seq<char>, password: Seq<char>) -> bool {
    u.username == username && u.password == password
}

/// How a user repository looks after a TOTP enrollment for the user
/// carrying `id` has been committed under `secret`: the first such user
/// now has the second factor enabled under that secret, everything else
/// stands as before.
pub open spec fn enrollment_committed(
    before: Seq<User>,
    after: Seq<User>,
    id: Seq<char>,
    secret: Seq<char>,
) -> bool {
    exists|i: int|
        0 <= i < before.len() && #[trigger] crate::repos::id_matches(before[i], id) && (forall|
            j: int,
        |
            0 <= j < i ==> !crate::repos::id_matches(before[j], id)) && after == before.update(
            i,
            after[i],
        ) && after[i]@ == (UserView { totp_enabled: true, totp_secret: Some(secret), ..before[i]@ })
}

/// A repository of users that can also answer credential checks.
pub trait UserStore: Store<String, User> {
    fn authenticate(&self, username: String, password: String) -> Result<User, RepoError>;

    fn update_totp_enrollment(&mut self, id: &String, secret: String) -> Result<User, RepoError>;
}

impl UserStore for MemoryStore<User> {
    /// Primary credential check: a copy of the first user whose name and
    /// password both match, or `NotFound`. A wrong password and an unknown
    /// name come back indistinguishable.
    fn authenticate(&self, username: String, password: String) -> (r: Result<User, RepoError>)
        ensures
            match r {
                Ok(u) => exists|i: int|
                    0 <= i < self.cache@.len() && #[trigger] credentials_match(
                        self.cache@[i]@,
                        username@,
                        password@,
                    ) && u == self.cache@[i] && (forall|j: int|
                        0 <= j < i ==> !credentials_match(self.cache@[j]@, username@, password@)),
                Err(e) => e == RepoError::NotFound && forall|i: int|
                    0 <= i < self.cache@.len() ==> !credentials_match(
                        #[trigger] self.cache@[i]@,
                        username@,
                        password@,
                    ),
            },
    {
        let n = self.cache.len();
        let mut i: usize = 0;
        while i < n
            invariant
                n == self.cache@.len(),
                i <= n,
                forall|j: int|
                    0 <= j < i ==> !credentials_match(
                        #[trigger] self.cache@[j]@,
                        username@,
                        password@,
                    ),
            decreases n - i,
        {
            let item = &self.cache[i];
            if item.username == username && item.password == password {
                proof {
                    assert(credentials_match(self.cache@[i as int]@, username@, password@));
                }
                return Ok(item.clone());
            }
            proof {
                assert(!credentials_match(self.cache@[i as int]@, username@, password@));
            }
            i = i + 1;
        }
        Err(RepoError::NotFound)
    }

    /// Commits a completed TOTP enrollment: the first user carrying `id`
    /// gets the second factor enabled under `secret`; a copy of the updated
    /// record comes back, or `NotFound` and the repository is unchanged.
    fn update_totp_enrollment(&mut self, id: &String, secret: String) -> (r: Result<
        User,
        RepoError,
    >)
        ensures
            match r {
                Ok(u) => exists|i: int|
                    0 <= i < old(self).cache@.len() && #[trigger] crate::repos::id_matches(
                        old(self).cache@[i],
                        id@,
                    ) && (forall|j: int|
                        0 <= j < i ==> !crate::repos::id_matches(old(self).cache@[j], id@))
                        && u@ == (UserView {
                        totp_enabled: true,
                        totp_secret: Some(secret@),
                        ..old(self).cache@[i]@
                    }) && final(self).cache@ == old(self).cache@.update(i, u),
                Err(e) => e == RepoError::NotFound && *final(self) == *old(self) && (forall|i: int|
                    0 <= i < old(self).cache@.len() ==> !crate::repos::id_matches(
                        #[trigger] old(self).cache@[i],
                        id@,
                    )),
            },
    {
        let n = self.cache.len();
        let mut i: usize = 0;
        while i < n
            invariant
                *self == *old(self),
                n == self.cache@.len(),
                i <= n,
                forall|j: int| 0 <= j < i ==> !crate::repos::id_matches(self.cache@[j], id@),
            decreases n - i,
        {
            if self.cache[i]._id == *id {
                proof {
                    assert(crate::repos::id_matches(self.cache@[i as int], id@));
                }
                let found = &self.cache[i];
                let updated = User {
                    _id: found._id.clone(),
                    username: found.username.clone(),
                    password: found.password.clone(),
                    totp_enabled: true,
                    totp_secret: Some(secret),
                };
                let result = updated.clone();
                self.cache.set(i, updated);
                return Ok(result);
            }
            proof {
                assert(!crate::repos::id_matches(self.cache@[i as int], id@));
            }
            i = i + 1;
        }
        Err(RepoError::NotFound)
    }
}

} // verus!
