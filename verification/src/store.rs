//! The rows this core reads, held as an in-memory store.
//!
//! The persistence layer proper is out of scope: the host hands the
//! gateway the user rows it may read, and every lookup below is the
//! single-row query the gateway would otherwise issue.

use vstd::prelude::*;
use crate::outside::lower_of;
use crate::outside::lowercase;

verus! {

/// A user row: identity, credential material and session token.
/// The password field carries the stored verification material; the
/// external hashing capability is consumed as an exact-match check on it.
pub struct UserRecord {
    pub id: i32,
    pub username: String,
    pub email: String,
    pub password: String,
    pub session: String,
}

impl UserRecord {
    /// An owned copy, equal to this record.
    pub fn duplicate(&self) -> (r: UserRecord)
        ensures
            r == *self,
    {
        UserRecord {
            id: self.id,
            username: self.username.clone(),
            email: self.email.clone(),
            password: self.password.clone(),
            session: self.session.clone(),
        }
    }
}

/// The set of user rows available to this request, in store order.
pub struct UserStore {
    pub users: Vec<UserRecord>,
}

impl UserStore {
    /// Well-formedness: real rows never carry a negative id, which is
    /// what makes the identity resolver's `-1` sentinel a guaranteed
    /// non-match.
    pub open spec fn wf(&self) -> bool {
        forall|i: int| 0 <= i < self.users@.len() ==> self.users@[i].id >= 0
    }
}

/// First row whose username equals `name` exactly (case-sensitive).
pub open spec fn lookup_by_username(users: Seq<UserRecord>, name: Seq<char>) -> Option<UserRecord>
    decreases users.len(),
{
    if users.len() == 0 {
        None
    } else if users[0].username@ == name {
        Some(users[0])
    } else {
        lookup_by_username(users.subrange(1, users.len() as int), name)
    }
}

/// First row matching both the numeric id and the session token.
pub open spec fn lookup_by_identity(users: Seq<UserRecord>, id: i32, session: Seq<char>) -> Option<
    UserRecord,
>
    decreases users.len(),
{
    if users.len() == 0 {
        None
    } else if users[0].id == id && users[0].session@ == session {
        Some(users[0])
    } else {
        lookup_by_identity(users.subrange(1, users.len() as int), id, session)
    }
}

/// First row whose lower-cased email equals `lowered_email`.
pub open spec fn lookup_by_email_ci(users: Seq<UserRecord>, lowered_email: Seq<char>) -> Option<
    UserRecord,
>
    decreases users.len(),
{
    if users.len() == 0 {
        None
    } else if lower_of(users[0].email@) == lowered_email {
        Some(users[0])
    } else {
        lookup_by_email_ci(users.subrange(1, users.len() as int), lowered_email)
    }
}

/// On a well-formed store the sentinel id `-1` matches no row at all.
pub proof fn lemma_sentinel_id_never_matches(users: Seq<UserRecord>, session: Seq<char>)
    requires
        forall|i: int| 0 <= i < users.len() ==> users[i].id >= 0,
    ensures
        lookup_by_identity(users, -1i32, session) is None,
    decreases users.len(),
{
    if users.len() > 0 {
        let t = users.subrange(1, users.len() as int);
        assert(forall|i: int| 0 <= i < t.len() ==> t[i] == users[i + 1]);
        lemma_sentinel_id_never_matches(t, session);
    }
}

impl UserStore {
    /// Looks a user up by exact username, handing back a copy of the
    /// first matching row.
    pub fn find_by_username(&self, name: &String) -> (r: Option<UserRecord>)
        ensures
            match (r, lookup_by_username(self.users@, name@)) {
                (Some(u), Some(su)) => u == su,
                (None, None) => true,
                _ => false,
            },
    {
        let n = self.users.len();
        let mut i: usize = 0;
        while i < n
            invariant
                i <= n,
                n == self.users@.len(),
                forall|j: int| 0 <= j < i ==> self.users@[j].username@ != name@,
            decreases n - i,
        {
            let u = &self.users[i];
            if u.username == *name {
                proof {
                    lemma_lookup_by_username_found(self.users@, name@, i as int);
                }
                return Some(u.duplicate());
            }
            i += 1;
        }
        proof {
            lemma_lookup_by_username_missing(self.users@, name@);
        }
        None
    }

    /// Looks a user up by id and session, handing back a copy of the
    /// first matching row.
    pub fn find_by_identity(&self, id: i32, session: &String) -> (r: Option<UserRecord>)
        ensures
            match (r, lookup_by_identity(self.users@, id, session@)) {
                (Some(u), Some(su)) => u == su,
                (None, None) => true,
                _ => false,
            },
    {
        let n = self.users.len();
        let mut i: usize = 0;
        while i < n
            invariant
                i <= n,
                n == self.users@.len(),
                forall|j: int|
                    0 <= j < i ==> !(self.users@[j].id == id && self.users@[j].session@
                        == session@),
            decreases n - i,
        {
            let u = &self.users[i];
            if u.id == id && u.session == *session {
                proof {
                    lemma_lookup_by_identity_found(self.users@, id, session@, i as int);
                }
                return Some(u.duplicate());
            }
            i += 1;
        }
        proof {
            lemma_lookup_by_identity_missing(self.users@, id, session@);
        }
        None
    }

    /// Looks a user up by email, case-insensitively, handing back a copy
    /// of the first matching row.
    pub fn find_by_email_ci(&self, lowered_email: &String) -> (r: Option<UserRecord>)
        ensures
            match (r, lookup_by_email_ci(self.users@, lowered_email@)) {
                (Some(u), Some(su)) => u == su,
                (None, None) => true,
                _ => false,
            },
    {
        let n = self.users.len();
        let mut i: usize = 0;
        while i < n
            invariant
                i <= n,
                n == self.users@.len(),
                forall|j: int| 0 <= j < i ==> lower_of(self.users@[j].email@) != lowered_email@,
            decreases n - i,
        {
            let u = &self.users[i];
            let low = lowercase(u.email.as_str());
            if low == *lowered_email {
                proof {
                    lemma_lookup_by_email_found(self.users@, lowered_email@, i as int);
                }
                return Some(u.duplicate());
            }
            i += 1;
        }
        proof {
            lemma_lookup_by_email_missing(self.users@, lowered_email@);
        }
        None
    }
}

proof fn lemma_lookup_by_username_found(users: Seq<UserRecord>, name: Seq<char>, i: int)
    requires
        0 <= i < users.len(),
        users[i].username@ == name,
        forall|j: int| 0 <= j < i ==> users[j].username@ != name,
    ensures
        lookup_by_username(users, name) == Some(users[i]),
    decreases users.len(),
{
    if i == 0 {
    } else {
        let t = users.subrange(1, users.len() as int);
        assert(forall|j: int| 0 <= j < t.len() ==> t[j] == users[j + 1]);
        lemma_lookup_by_username_found(t, name, i - 1);
    }
}

proof fn lemma_lookup_by_username_missing(users: Seq<UserRecord>, name: Seq<char>)
    requires
        forall|j: int| 0 <= j < users.len() ==> users[j].username@ != name,
    ensures
        lookup_by_username(users, name) is None,
    decreases users.len(),
{
    if users.len() > 0 {
        let t = users.subrange(1, users.len() as int);
        assert(forall|j: int| 0 <= j < t.len() ==> t[j] == users[j + 1]);
        lemma_lookup_by_username_missing(t, name);
    }
}

proof fn lemma_lookup_by_identity_found(users: Seq<UserRecord>, id: i32, session: Seq<char>, i: int)
    requires
        0 <= i < users.len(),
        users[i].id == id && users[i].session@ == session,
        forall|j: int| 0 <= j < i ==> !(users[j].id == id && users[j].session@ == session),
    ensures
        lookup_by_identity(users, id, session) == Some(users[i]),
    decreases users.len(),
{
    if i == 0 {
    } else {
        let t = users.subrange(1, users.len() as int);
        assert(forall|j: int| 0 <= j < t.len() ==> t[j] == users[j + 1]);
        lemma_lookup_by_identity_found(t, id, session, i - 1);
    }
}

proof fn lemma_lookup_by_identity_missing(users: Seq<UserRecord>, id: i32, session: Seq<char>)
    requires
        forall|j: int| 0 <= j < users.len() ==> !(users[j].id == id && users[j].session@
            == session),
    ensures
        lookup_by_identity(users, id, session) is None,
    decreases users.len(),
{
    if users.len() > 0 {
        let t = users.subrange(1, users.len() as int);
        assert(forall|j: int| 0 <= j < t.len() ==> t[j] == users[j + 1]);
        lemma_lookup_by_identity_missing(t, id, session);
    }
}

proof fn lemma_lookup_by_email_found(users: Seq<UserRecord>, lowered: Seq<char>, i: int)
    requires
        0 <= i < users.len(),
        lower_of(users[i].email@) == lowered,
        forall|j: int| 0 <= j < i ==> lower_of(users[j].email@) != lowered,
    ensures
        lookup_by_email_ci(users, lowered) == Some(users[i]),
    decreases users.len(),
{
    if i == 0 {
    } else {
        let t = users.subrange(1, users.len() as int);
        assert(forall|j: int| 0 <= j < t.len() ==> t[j] == users[j + 1]);
        lemma_lookup_by_email_found(t, lowered, i - 1);
    }
}

proof fn lemma_lookup_by_email_missing(users: Seq<UserRecord>, lowered: Seq<char>)
    requires
        forall|j: int| 0 <= j < users.len() ==> lower_of(users[j].email@) != lowered,
    ensures
        lookup_by_email_ci(users, lowered) is None,
    decreases users.len(),
{
    if users.len() > 0 {
        let t = users.subrange(1, users.len() as int);
        assert(forall|j: int| 0 <= j < t.len() ==> t[j] == users[j + 1]);
        lemma_lookup_by_email_missing(t, lowered);
    }
}

} // verus!
