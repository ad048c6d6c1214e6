//! The credential store: user records with unique, case-folded emails,
//! store-assigned ids, and the single-use discipline on verification codes.
//!
//! The store's well-formedness ties every record to `user_wf` and keeps
//! emails and ids unique; every mutating operation states exactly which
//! record changed and how, and preserves well-formedness.

use crate::model::{user_wf, User};
use crate::text::{lower_seq, str_eq};
use vstd::prelude::*;

verus! {

/// Whether `u` currently holds exactly the pending code `code`.
pub open spec fn code_matches(u: User, code: Seq<char>) -> bool {
    u.verification_code matches Some(c) && c@ == code
}

/// The set of user records.
pub struct UserStore {
    pub users: Vec<User>,
    /// The id the next created record receives.
    pub next_id: i32,
}

impl UserStore {
    /// Every record is well-formed; emails and ids are unique; ids stay
    /// below the next one to be assigned.
    pub open spec fn wf(self) -> bool {
        &&& forall|i: int|
            0 <= i < self.users@.len() ==> user_wf(#[trigger] self.users@[i])
        &&& forall|i: int, j: int|
            0 <= i < j < self.users@.len() ==> self.users@[i].email@ != self.users@[j].email@
        &&& forall|i: int|
            0 <= i < self.users@.len() ==> 0 < (#[trigger] self.users@[i]).id
        &&& forall|i: int|
            0 <= i < self.users@.len() ==> (#[trigger] self.users@[i]).id < self.next_id
        &&& forall|i: int, j: int|
            0 <= i < j < self.users@.len() ==> self.users@[i].id != self.users@[j].id
        &&& 0 < self.next_id
    }

    /// Whether some record carries this (already folded) email.
    pub open spec fn spec_has_email(self, email: Seq<char>) -> bool {
        exists|i: int| 0 <= i < self.users@.len() && (#[trigger] self.users@[i]).email@ == email
    }

    /// Whether some record carries this id.
    pub open spec fn spec_has_id(self, id: int) -> bool {
        exists|i: int| 0 <= i < self.users@.len() && (#[trigger] self.users@[i]).id == id
    }

    /// Whether some record holds this pending code.
    pub open spec fn spec_has_code(self, code: Seq<char>) -> bool {
        exists|i: int| 0 <= i < self.users@.len() && code_matches(#[trigger] self.users@[i], code)
    }

    /// Room for one more record under the id assignment scheme.
    pub open spec fn has_capacity(self) -> bool {
        self.next_id < i32::MAX
    }

    /// An empty store.
    pub fn new() -> (r: UserStore)
        ensures
            r.wf(),
            r.users@.len() == 0,
            r.next_id == 1,
    {
        UserStore { users: Vec::new(), next_id: 1 }
    }

    /// The number of records.
    pub fn len(&self) -> (r: usize)
        ensures
            r == self.users@.len(),
    {
        self.users.len()
    }

    /// Index of the record carrying `email`, which the caller folds first.
    pub fn find_by_email(&self, email: &str) -> (r: Option<usize>)
        ensures
            (r matches Some(i) ==> i < self.users@.len() && self.users@[i as int].email@
                == email@),
            r is None ==> !self.spec_has_email(email@),
    {
        let n = self.users.len();
        let mut i: usize = 0;
        while i < n
            invariant
                n == self.users@.len(),
                i <= n,
                forall|j: int| 0 <= j < i ==> (#[trigger] self.users@[j]).email@ != email@,
            decreases n - i,
        {
            if str_eq(self.users[i].email.as_str(), email) {
                return Some(i);
            }
            i = i + 1;
        }
        None
    }

    /// Index of the record carrying the id `id`.
    pub fn find_by_id(&self, id: i64) -> (r: Option<usize>)
        ensures
            (r matches Some(i) ==> i < self.users@.len() && self.users@[i as int].id == id),
            r is None ==> !self.spec_has_id(id as int),
    {
        let n = self.users.len();
        let mut i: usize = 0;
        while i < n
            invariant
                n == self.users@.len(),
                i <= n,
                forall|j: int| 0 <= j < i ==> (#[trigger] self.users@[j]).id != id,
            decreases n - i,
        {
            if self.users[i].id as i64 == id {
                return Some(i);
            }
            i = i + 1;
        }
        None
    }

    /// Index of the first record whose pending code is `code`.
    pub fn find_by_code(&self, code: &str) -> (r: Option<usize>)
        ensures
            (r matches Some(i) ==> i < self.users@.len() && code_matches(
                self.users@[i as int],
                code@,
            ) && (forall|j: int| 0 <= j < i ==> !code_matches(#[trigger] self.users@[j], code@))),
            r is None ==> !self.spec_has_code(code@),
    {
        let n = self.users.len();
        let mut i: usize = 0;
        while i < n
            invariant
                n == self.users@.len(),
                i <= n,
                forall|j: int| 0 <= j < i ==> !code_matches(#[trigger] self.users@[j], code@),
            decreases n - i,
        {
            let hit = match &self.users[i].verification_code {
                Some(c) => str_eq(c.as_str(), code),
                None => false,
            };
            if hit {
                return Some(i);
            }
            i = i + 1;
        }
        None
    }

    /// Create a record: unverified, no code yet, timestamps set to `now`,
    /// id assigned by the store. Returns the assigned id.
    pub fn insert_user(
        &mut self,
        name: String,
        email: String,
        password_hash: String,
        now: u64,
    ) -> (id: i32)
        requires
            old(self).wf(),
            old(self).has_capacity(),
            !old(self).spec_has_email(email@),
            email@ == lower_seq(email@),
            password_hash@.len() > 0 && password_hash@[0] == '$',
        ensures
            final(self).wf(),
            id == old(self).next_id,
            final(self).next_id == old(self).next_id + 1,
            final(self).users@ == old(self).users@.push(
                (User {
                    id: old(self).next_id,
                    name,
                    email,
                    password: password_hash,
                    created_at: Some(now),
                    updated_at: Some(now),
                    verified: false,
                    verification_code: None,
                }),
            ),
    {
        let id = self.next_id;
        let user = User {
            id,
            name,
            email,
            password: password_hash,
            created_at: Some(now),
            updated_at: Some(now),
            verified: false,
            verification_code: None,
        };
        self.users.push(user);
        self.next_id = self.next_id + 1;
        id
    }

    /// Record the freshly issued (nonempty) code against the record at `i`,
    /// which must still be unverified.
    pub fn set_code(&mut self, i: usize, code_str: String)
        requires
            old(self).wf(),
            i < old(self).users@.len(),
            !old(self).users@[i as int].verified,
            code_str@.len() > 0,
        ensures
            final(self).wf(),
            final(self).next_id == old(self).next_id,
            final(self).users@ == old(self).users@.update(
                i as int,
                (User { verification_code: Some(code_str), ..old(self).users@[i as int] }),
            ),
    {
        self.users[i].verification_code = Some(code_str);
        proof {
            assert(self.users@ =~= old(self).users@.update(
                i as int,
                (User { verification_code: Some(code_str), ..old(self).users@[i as int] }),
            ));
        }
    }

    /// Consume the code at `i`: the record flips to verified and its code is
    /// cleared (set empty), in one step.
    pub fn mark_verified(&mut self, i: usize)
        requires
            old(self).wf(),
            i < old(self).users@.len(),
            !old(self).users@[i as int].verified,
        ensures
            final(self).wf(),
            final(self).next_id == old(self).next_id,
            final(self).users@.len() == old(self).users@.len(),
            final(self).users@[i as int].verified,
            (final(self).users@[i as int].verification_code matches Some(c) && c@.len() == 0),
            forall|j: int|
                0 <= j < old(self).users@.len() && j != i ==> final(self).users@[j] == old(
                    self,
                ).users@[j],
            final(self).users@[i as int].id == old(self).users@[i as int].id,
            final(self).users@[i as int].name@ == old(self).users@[i as int].name@,
            final(self).users@[i as int].email@ == old(self).users@[i as int].email@,
            final(self).users@[i as int].password@ == old(self).users@[i as int].password@,
            final(self).users@[i as int].created_at == old(self).users@[i as int].created_at,
            final(self).users@[i as int].updated_at == old(self).users@[i as int].updated_at,
    {
        self.users[i].verified = true;
        self.users[i].verification_code = Some(String::new());
    }
}

} // verus!
