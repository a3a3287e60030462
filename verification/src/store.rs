//! The credential store: a durable mapping from identities to their
//! registered credentials.
//!
//! Display names and identity ids are unique across all identities, and
//! credential ids are unique across the whole store; every credential
//! belongs to an existing identity. Writes are atomic: an insert either
//! applies completely or leaves the store unchanged, and the uniqueness
//! checks happen at commit time, so a race between two registrations of
//! the same display name ends with exactly one winner.

use vstd::prelude::*;

use crate::engine::{passkey_apply_update, spec_passkey_updated};
use crate::error::WebauthnError;
use crate::model::{Authenticator, User};

verus! {

/// Some identity in `users` carries the display name `name`.
pub open spec fn has_username(users: Seq<User>, name: Seq<char>) -> bool {
    exists|i: int| #![trigger users[i]] 0 <= i < users.len() && users[i].username@ == name
}

/// Some identity in `users` carries the identifier `id`.
pub open spec fn has_user_id(users: Seq<User>, id: u128) -> bool {
    exists|i: int| #![trigger users[i]] 0 <= i < users.len() && users[i].id == id
}

/// Some credential in `auths` carries the credential id `cred_id`.
pub open spec fn has_cred_id(auths: Seq<Authenticator>, cred_id: Seq<u8>) -> bool {
    exists|i: int| #![trigger auths[i]] 0 <= i < auths.len() && auths[i].cred_id@ == cred_id
}

/// Some credential in `auths` belongs to identity `user_id` and carries the
/// credential id `cred_id`.
pub open spec fn has_cred(auths: Seq<Authenticator>, user_id: u128, cred_id: Seq<u8>) -> bool {
    exists|i: int| #![trigger auths[i]]
        0 <= i < auths.len() && auths[i].user_id == user_id && auths[i].cred_id@ == cred_id
}

/// The index of the identity carrying `id`, when one exists.
pub open spec fn user_index(users: Seq<User>, id: u128) -> int {
    choose|i: int| #![trigger users[i]] 0 <= i < users.len() && users[i].id == id
}

/// The index of the credential owned by `user_id` under `cred_id`, when one
/// exists.
pub open spec fn cred_index(auths: Seq<Authenticator>, user_id: u128, cred_id: Seq<u8>) -> int {
    choose|i: int| #![trigger auths[i]]
        0 <= i < auths.len() && auths[i].user_id == user_id && auths[i].cred_id@ == cred_id
}

/// A reported signature counter regresses when the credential has reported
/// a counter before (or reports one now) and the new report does not
/// advance past the stored value. WebAuthn treats this as a sign of a
/// cloned authenticator.
pub open spec fn counter_regressed(stored: u32, reported: u32) -> bool {
    (stored > 0 || reported > 0) && reported <= stored
}

/// The stored credential after a post-authentication reconciliation with
/// the engine-reported values: the counter never moves downward, backup
/// eligibility is never revoked, the backup state follows the report, and
/// a regressing counter sets the (sticky) clone warning.
pub open spec fn spec_counter_updated(
    a: Authenticator,
    counter: u32,
    backup_state: bool,
    backup_eligible: bool,
) -> Authenticator {
    Authenticator {
        counter: if counter > a.counter {
            counter
        } else {
            a.counter
        },
        backup_state,
        backup_eligible: a.backup_eligible || backup_eligible,
        clone_warning: a.clone_warning || counter_regressed(a.counter, counter),
        ..a
    }
}

/// The reconciliation rule never lowers a stored signature counter, and a
/// regressing report always leaves the (sticky) clone warning behind: once
/// raised, no later report clears it.
pub proof fn lemma_counter_never_lowered(
    a: Authenticator,
    counter: u32,
    backup_state: bool,
    backup_eligible: bool,
)
    ensures
        spec_counter_updated(a, counter, backup_state, backup_eligible).counter >= a.counter,
        counter_regressed(a.counter, counter) ==> spec_counter_updated(
            a,
            counter,
            backup_state,
            backup_eligible,
        ).clone_warning,
        a.clone_warning ==> spec_counter_updated(
            a,
            counter,
            backup_state,
            backup_eligible,
        ).clone_warning,
{
}

/// Byte-for-byte equality of two credential ids.
pub fn bytes_eq(a: &Vec<u8>, b: &Vec<u8>) -> (r: bool)
    ensures
        r == (a@ == b@),
{
    if a.len() != b.len() {
        return false;
    }
    let n = a.len();
    let mut i: usize = 0;
    while i < n
        invariant
            n == a.len() == b.len(),
            i <= n,
            forall|j: int| 0 <= j < i ==> a@[j] == b@[j],
        decreases n - i,
    {
        if a[i] != b[i] {
            return false;
        }
        i = i + 1;
    }
    proof {
        assert(a@ =~= b@);
    }
    true
}

/// A fresh copy of a byte string.
pub fn clone_bytes(v: &Vec<u8>) -> (r: Vec<u8>)
    ensures
        r@ == v@,
{
    let mut r: Vec<u8> = Vec::new();
    let n = v.len();
    let mut i: usize = 0;
    while i < n
        invariant
            n == v.len(),
            i <= n,
            r@ =~= v@.subrange(0, i as int),
        decreases n - i,
    {
        r.push(v[i]);
        proof {
            assert(r@ =~= v@.subrange(0, i + 1 as int));
        }
        i = i + 1;
    }
    proof {
        assert(r@ =~= v@);
    }
    r
}

/// The credential store. The concrete layout (two append-only tables) is
/// private; contracts speak of the `users()` and `auths()` views.
pub struct Store {
    users: Vec<User>,
    auths: Vec<Authenticator>,
}

impl Store {
    /// The stored identities, in insertion order.
    pub closed spec fn users(&self) -> Seq<User> {
        self.users@
    }

    /// The stored credentials, in insertion order.
    pub closed spec fn auths(&self) -> Seq<Authenticator> {
        self.auths@
    }

    /// Store-level invariants: identity ids and display names are unique,
    /// credential ids are unique, and every credential belongs to a stored
    /// identity.
    pub open spec fn wf(&self) -> bool {
        &&& forall|i: int, j: int| #![trigger self.users()[i], self.users()[j]]
            0 <= i < j < self.users().len() ==> self.users()[i].id != self.users()[j].id
        &&& forall|i: int, j: int| #![trigger self.users()[i], self.users()[j]]
            0 <= i < j < self.users().len() ==> self.users()[i].username@
                != self.users()[j].username@
        &&& forall|i: int, j: int| #![trigger self.auths()[i], self.auths()[j]]
            0 <= i < j < self.auths().len() ==> self.auths()[i].cred_id@
                != self.auths()[j].cred_id@
        &&& forall|i: int| #![trigger self.auths()[i]]
            0 <= i < self.auths().len() ==> has_user_id(self.users(), self.auths()[i].user_id)
    }

    /// An empty store.
    pub fn new() -> (r: Store)
        ensures
            r.wf(),
            r.users().len() == 0,
            r.auths().len() == 0,
    {
        Store { users: Vec::new(), auths: Vec::new() }
    }

    /// Whether the display name is already taken by some identity.
    pub fn check_username_exists(&self, username: &String) -> (r: bool)
        ensures
            r == has_username(self.users(), username@),
    {
        let n = self.users.len();
        let mut i: usize = 0;
        while i < n
            invariant
                n == self.users.len(),
                i <= n,
                forall|j: int| #![trigger self.users()[j]]
                    0 <= j < i ==> self.users()[j].username@ != username@,
            decreases n - i,
        {
            if self.users[i].username == *username {
                return true;
            }
            i = i + 1;
        }
        false
    }

    /// Index of the identity carrying `id`, if any.
    fn find_user_index(&self, id: u128) -> (r: Option<usize>)
        ensures
            match r {
                Some(i) => i < self.users().len() && self.users()[i as int].id == id,
                None => !has_user_id(self.users(), id),
            },
    {
        let n = self.users.len();
        let mut i: usize = 0;
        while i < n
            invariant
                n == self.users.len(),
                i <= n,
                forall|j: int| #![trigger self.users()[j]] 0 <= j < i ==> self.users()[j].id != id,
            decreases n - i,
        {
            if self.users[i].id == id {
                return Some(i);
            }
            i = i + 1;
        }
        None
    }

    /// Index of the credential owned by `user_id` under `cred_id`, if any.
    fn find_cred_index(&self, user_id: u128, cred_id: &Vec<u8>) -> (r: Option<usize>)
        ensures
            match r {
                Some(i) => i < self.auths().len() && self.auths()[i as int].user_id == user_id
                    && self.auths()[i as int].cred_id@ == cred_id@,
                None => !has_cred(self.auths(), user_id, cred_id@),
            },
    {
        let n = self.auths.len();
        let mut i: usize = 0;
        while i < n
            invariant
                n == self.auths.len(),
                i <= n,
                forall|j: int| #![trigger self.auths()[j]]
                    0 <= j < i ==> !(self.auths()[j].user_id == user_id && self.auths()[j].cred_id@
                        == cred_id@),
            decreases n - i,
        {
            if self.auths[i].user_id == user_id && bytes_eq(&self.auths[i].cred_id, cred_id) {
                return Some(i);
            }
            i = i + 1;
        }
        None
    }

    /// Whether some credential (of any identity) carries `cred_id`.
    fn cred_id_taken(&self, cred_id: &Vec<u8>) -> (r: bool)
        ensures
            r == has_cred_id(self.auths(), cred_id@),
    {
        let n = self.auths.len();
        let mut i: usize = 0;
        while i < n
            invariant
                n == self.auths.len(),
                i <= n,
                forall|j: int| #![trigger self.auths()[j]]
                    0 <= j < i ==> self.auths()[j].cred_id@ != cred_id@,
            decreases n - i,
        {
            if bytes_eq(&self.auths[i].cred_id, cred_id) {
                return true;
            }
            i = i + 1;
        }
        false
    }

    /// Insert a new identity. Fails with `IdentityAlreadyExists` when the
    /// display name is taken, and with `StoreUnavailable` when the
    /// identifier itself collides; the store is unchanged on failure.
    pub fn insert_user(&mut self, user: User) -> (r: Result<(), WebauthnError>)
        requires
            old(self).wf(),
        ensures
            final(self).wf(),
            final(self).auths() == old(self).auths(),
            match r {
                Ok(()) => !has_username(old(self).users(), user.username@) && !has_user_id(
                    old(self).users(),
                    user.id,
                ) && final(self).users() == old(self).users().push(user),
                Err(e) => final(self).users() == old(self).users() && (e
                    == WebauthnError::IdentityAlreadyExists <==> has_username(
                    old(self).users(),
                    user.username@,
                )) && (e == WebauthnError::IdentityAlreadyExists || e
                    == WebauthnError::StoreUnavailable),
            },
            r is Err <==> has_username(old(self).users(), user.username@) || has_user_id(
                old(self).users(),
                user.id,
            ),
    {
        if self.check_username_exists(&user.username) {
            return Err(WebauthnError::IdentityAlreadyExists);
        }
        if self.find_user_index(user.id).is_some() {
            return Err(WebauthnError::StoreUnavailable);
        }
        let ghost u = user;
        self.users.push(user);
        proof {
            lemma_push_user_wf(*old(self), *self, u);
        }
        Ok(())
    }

    /// Append a credential for an existing identity. Fails with
    /// `IdentityNotFound` when the identity is unknown and with
    /// `StoreUnavailable` when the credential id is already registered;
    /// the store is unchanged on failure.
    pub fn insert_authenticator(&mut self, auth: Authenticator) -> (r: Result<(), WebauthnError>)
        requires
            old(self).wf(),
        ensures
            final(self).wf(),
            final(self).users() == old(self).users(),
            match r {
                Ok(()) => has_user_id(old(self).users(), auth.user_id) && !has_cred_id(
                    old(self).auths(),
                    auth.cred_id@,
                ) && final(self).auths() == old(self).auths().push(auth),
                Err(e) => final(self).auths() == old(self).auths() && (e
                    == WebauthnError::IdentityNotFound <==> !has_user_id(
                    old(self).users(),
                    auth.user_id,
                )) && (e == WebauthnError::IdentityNotFound || e == WebauthnError::StoreUnavailable),
            },
            r is Err <==> !has_user_id(old(self).users(), auth.user_id) || has_cred_id(
                old(self).auths(),
                auth.cred_id@,
            ),
    {
        if self.find_user_index(auth.user_id).is_none() {
            return Err(WebauthnError::IdentityNotFound);
        }
        if self.cred_id_taken(&auth.cred_id) {
            return Err(WebauthnError::StoreUnavailable);
        }
        let ghost a = auth;
        self.auths.push(auth);
        proof {
            lemma_push_auth_wf(*old(self), *self, a);
        }
        Ok(())
    }

    /// Atomically insert a brand-new identity together with its first
    /// credential: either both records land or neither does. The display
    /// name uniqueness check happens here, at commit time, so that of two
    /// concurrent registrations of the same name only one can succeed.
    pub fn insert_user_and_passkey(
        &mut self,
        user: User,
        passkey: webauthn_rs::prelude::Passkey,
        cred_id: Vec<u8>,
        counter: u32,
        user_agent_short: String,
    ) -> (r: Result<(), WebauthnError>)
        requires
            old(self).wf(),
        ensures
            final(self).wf(),
            match r {
                Ok(()) => {
                    &&& !has_username(old(self).users(), user.username@)
                    &&& !has_user_id(old(self).users(), user.id)
                    &&& !has_cred_id(old(self).auths(), cred_id@)
                    &&& final(self).users() == old(self).users().push(user)
                    &&& final(self).auths().len() == old(self).auths().len() + 1
                    &&& final(self).auths() == old(self).auths().push(final(self).auths().last())
                    &&& final(self).auths().last() == Authenticator {
                        user_id: user.id,
                        passkey,
                        cred_id,
                        counter,
                        backup_state: false,
                        backup_eligible: false,
                        clone_warning: false,
                        user_agent_short,
                        created_at: user.created_at,
                    }
                },
                Err(e) => {
                    &&& final(self).users() == old(self).users()
                    &&& final(self).auths() == old(self).auths()
                    &&& (e == WebauthnError::IdentityAlreadyExists <==> has_username(
                        old(self).users(),
                        user.username@,
                    ))
                    &&& (e == WebauthnError::IdentityAlreadyExists || e
                        == WebauthnError::StoreUnavailable)
                },
            },
            r is Err <==> has_username(old(self).users(), user.username@) || has_user_id(
                old(self).users(),
                user.id,
            ) || has_cred_id(old(self).auths(), cred_id@),
    {
        if self.check_username_exists(&user.username) {
            return Err(WebauthnError::IdentityAlreadyExists);
        }
        if self.find_user_index(user.id).is_some() {
            return Err(WebauthnError::StoreUnavailable);
        }
        if self.cred_id_taken(&cred_id) {
            return Err(WebauthnError::StoreUnavailable);
        }
        let created_at = user.created_at;
        let user_id = user.id;
        let ghost u = user;
        self.users.push(user);
        let ghost mid = *self;
        proof {
            lemma_push_user_wf(*old(self), mid, u);
        }
        let auth = Authenticator::new(user_id, passkey, cred_id, counter, user_agent_short, created_at);
        let ghost a = auth;
        self.auths.push(auth);
        proof {
            assert(mid.users()[mid.users().len() - 1].id == u.id);
            assert(has_user_id(mid.users(), a.user_id));
            lemma_push_auth_wf(mid, *self, a);
        }
        Ok(())
    }

    /// Look up the credential registered to `user_id` under `passkey_id`.
    /// A miss does not reveal whether the identity or the credential was
    /// the missing half.
    pub fn get_passkey_for_user_and_passkey_id<'a>(
        &'a self,
        user_id: u128,
        passkey_id: &Vec<u8>,
    ) -> (r: Option<&'a Authenticator>)
        requires
            self.wf(),
        ensures
            match r {
                Some(a) => *a == self.auths()[cred_index(self.auths(), user_id, passkey_id@)]
                    && has_cred(self.auths(), user_id, passkey_id@),
                None => !has_cred(self.auths(), user_id, passkey_id@),
            },
    {
        match self.find_cred_index(user_id, passkey_id) {
            Some(i) => {
                proof {
                    lemma_cred_index_unique(self.auths(), user_id, passkey_id@, i as int);
                }
                Some(&self.auths[i])
            },
            None => None,
        }
    }

    /// Reconcile the stored credential with the counter and backup flags
    /// reported by a successful authentication. The counter never moves
    /// downward; a regressing counter sets the sticky `clone_warning` flag
    /// instead of overwriting the stored value. No other credential and no
    /// unrelated field is disturbed.
    pub fn update_passkey_for_user_and_passkey_id(
        &mut self,
        user_id: u128,
        passkey_id: &Vec<u8>,
        counter: u32,
        backup_state: bool,
        backup_eligible: bool,
    ) -> (r: Result<(), WebauthnError>)
        requires
            old(self).wf(),
        ensures
            final(self).wf(),
            final(self).users() == old(self).users(),
            match r {
                Ok(()) => {
                    let i = cred_index(old(self).auths(), user_id, passkey_id@);
                    &&& has_cred(old(self).auths(), user_id, passkey_id@)
                    &&& final(self).auths() == old(self).auths().update(
                        i,
                        spec_counter_updated(
                            old(self).auths()[i],
                            counter,
                            backup_state,
                            backup_eligible,
                        ),
                    )
                },
                Err(e) => e == WebauthnError::IdentityNotFound && !has_cred(
                    old(self).auths(),
                    user_id,
                    passkey_id@,
                ) && final(self).auths() == old(self).auths(),
            },
    {
        match self.find_cred_index(user_id, passkey_id) {
            Some(i) => {
                proof {
                    lemma_cred_index_unique(self.auths(), user_id, passkey_id@, i as int);
                }
                let ghost prev = self.auths@;
                let new_counter = if counter > self.auths[i].counter {
                    counter
                } else {
                    self.auths[i].counter
                };
                let regressed = (self.auths[i].counter > 0 || counter > 0) && counter
                    <= self.auths[i].counter;
                self.auths[i].counter = new_counter;
                self.auths[i].backup_state = backup_state;
                let be = self.auths[i].backup_eligible || backup_eligible;
                self.auths[i].backup_eligible = be;
                let cw = self.auths[i].clone_warning || regressed;
                self.auths[i].clone_warning = cw;
                proof {
                    let upd = spec_counter_updated(
                        prev[i as int],
                        counter,
                        backup_state,
                        backup_eligible,
                    );
                    assert(self.auths@ =~= prev.update(i as int, upd));
                    lemma_update_auth_wf(*old(self), *self, i as int, upd);
                }
                Ok(())
            },
            None => Err(WebauthnError::IdentityNotFound),
        }
    }

    /// Freshen the stored key material of one credential with the engine's
    /// authentication report, so the engine's own counter and backup
    /// checks keep comparing against current values. Only the opaque
    /// material changes: the plain fields — and every other credential —
    /// stay as they are.
    pub fn freshen_passkey(
        &mut self,
        user_id: u128,
        passkey_id: &Vec<u8>,
        res: &webauthn_rs::prelude::AuthenticationResult,
    ) -> (r: Result<(), WebauthnError>)
        requires
            old(self).wf(),
        ensures
            final(self).wf(),
            final(self).users() == old(self).users(),
            match r {
                Ok(()) => {
                    let i = cred_index(old(self).auths(), user_id, passkey_id@);
                    &&& has_cred(old(self).auths(), user_id, passkey_id@)
                    &&& final(self).auths() == old(self).auths().update(
                        i,
                        (Authenticator {
                            passkey: spec_passkey_updated(old(self).auths()[i].passkey, *res),
                            ..old(self).auths()[i]
                        }),
                    )
                },
                Err(e) => e == WebauthnError::IdentityNotFound && !has_cred(
                    old(self).auths(),
                    user_id,
                    passkey_id@,
                ) && final(self).auths() == old(self).auths(),
            },
    {
        match self.find_cred_index(user_id, passkey_id) {
            Some(i) => {
                proof {
                    lemma_cred_index_unique(self.auths(), user_id, passkey_id@, i as int);
                }
                let ghost prev = self.auths@;
                passkey_apply_update(&mut self.auths[i].passkey, res);
                proof {
                    let upd = Authenticator {
                        passkey: spec_passkey_updated(prev[i as int].passkey, *res),
                        ..prev[i as int]
                    };
                    assert(self.auths@ =~= prev.update(i as int, upd));
                    lemma_update_auth_wf(*old(self), *self, i as int, upd);
                }
                Ok(())
            },
            None => Err(WebauthnError::IdentityNotFound),
        }
    }

    /// Load the identity record for `id`; `IdentityNotFound` when no
    /// identity carries it.
    pub fn get_user_by_id(&self, id: u128) -> (r: Result<User, WebauthnError>)
        requires
            self.wf(),
        ensures
            match r {
                Ok(u) => u.id == id && has_user_id(self.users(), id) && u == self.users()[
                    user_index(self.users(), id)
                ],
                Err(e) => e == WebauthnError::IdentityNotFound && !has_user_id(self.users(), id),
            },
    {
        match self.find_user_index(id) {
            Some(i) => {
                proof {
                    lemma_user_index_unique(self.users(), id, i as int);
                }
                Ok(self.users[i].clone())
            },
            None => Err(WebauthnError::IdentityNotFound),
        }
    }

    /// All stored identities, in insertion order.
    pub fn get_all_users(&self) -> (r: Vec<User>)
        ensures
            r@ == self.users(),
    {
        let n = self.users.len();
        let mut r: Vec<User> = Vec::new();
        let mut i: usize = 0;
        while i < n
            invariant
                n == self.users.len(),
                i <= n,
                r@ == self.users@.subrange(0, i as int),
            decreases n - i,
        {
            r.push(self.users[i].clone());
            proof {
                assert(r@ =~= self.users@.subrange(0, i + 1 as int));
            }
            i = i + 1;
        }
        proof {
            assert(r@ =~= self.users());
        }
        r
    }

    /// All credentials registered to `user_id`, in insertion order.
    pub fn get_authenticators_for_user_id<'a>(&'a self, user_id: u128) -> (r: Vec<
        &'a Authenticator,
    >)
        ensures
            r@.map_values(|a: &Authenticator| *a) == self.auths().filter(
                |a: Authenticator| a.user_id == user_id,
            ),
    {
        let n = self.auths.len();
        let mut r: Vec<&'a Authenticator> = Vec::new();
        let mut i: usize = 0;
        proof {
            reveal(Seq::filter);
            assert(self.auths@.take(0).filter(|a: Authenticator| a.user_id == user_id)
                =~= Seq::<Authenticator>::empty());
            assert(r@.map_values(|a: &Authenticator| *a) =~= Seq::<Authenticator>::empty());
        }
        while i < n
            invariant
                n == self.auths.len(),
                i <= n,
                r@.map_values(|a: &Authenticator| *a) == self.auths@.take(i as int).filter(
                    |a: Authenticator| a.user_id == user_id,
                ),
            decreases n - i,
        {
            proof {
                reveal(Seq::filter);
                assert(self.auths@.take(i + 1 as int).drop_last() =~= self.auths@.take(i as int));
            }
            if self.auths[i].user_id == user_id {
                r.push(&self.auths[i]);
                proof {
                    assert(r@.map_values(|a: &Authenticator| *a) =~= self.auths@.take(
                        i as int,
                    ).filter(|a: Authenticator| a.user_id == user_id).push(self.auths@[i as int]));
                }
            }
            proof {
                assert(r@.map_values(|a: &Authenticator| *a) =~= self.auths@.take(
                    i + 1 as int,
                ).filter(|a: Authenticator| a.user_id == user_id));
            }
            i = i + 1;
        }
        proof {
            assert(self.auths@.take(n as int) =~= self.auths@);
        }
        r
    }

    /// The credential ids already registered to `user_id`, in insertion
    /// order: the exclusion list handed to the engine when the identity
    /// enrolls a further device.
    pub fn list_credential_ids(&self, user_id: u128) -> (r: Vec<Vec<u8>>)
        ensures
            r@.map_values(|v: Vec<u8>| v@) == self.auths().filter(
                |a: Authenticator| a.user_id == user_id,
            ).map_values(|a: Authenticator| a.cred_id@),
    {
        let n = self.auths.len();
        let mut r: Vec<Vec<u8>> = Vec::new();
        let mut i: usize = 0;
        proof {
            reveal(Seq::filter);
            assert(self.auths@.take(0).filter(|a: Authenticator| a.user_id == user_id)
                =~= Seq::<Authenticator>::empty());
            assert(r@.map_values(|v: Vec<u8>| v@) =~= Seq::<Authenticator>::empty().map_values(
                |a: Authenticator| a.cred_id@,
            ));
        }
        while i < n
            invariant
                n == self.auths.len(),
                i <= n,
                r@.map_values(|v: Vec<u8>| v@) == self.auths@.take(i as int).filter(
                    |a: Authenticator| a.user_id == user_id,
                ).map_values(|a: Authenticator| a.cred_id@),
            decreases n - i,
        {
            proof {
                reveal(Seq::filter);
                assert(self.auths@.take(i + 1 as int).drop_last() =~= self.auths@.take(i as int));
            }
            if self.auths[i].user_id == user_id {
                let ghost prev = r@;
                r.push(clone_bytes(&self.auths[i].cred_id));
                proof {
                    assert(r@.map_values(|v: Vec<u8>| v@) =~= prev.map_values(
                        |v: Vec<u8>| v@,
                    ).push(self.auths@[i as int].cred_id@));
                    assert(self.auths@.take(i + 1 as int).filter(
                        |a: Authenticator| a.user_id == user_id,
                    ) =~= self.auths@.take(i as int).filter(
                        |a: Authenticator| a.user_id == user_id,
                    ).push(self.auths@[i as int]));
                    assert(r@.map_values(|v: Vec<u8>| v@) =~= self.auths@.take(i + 1 as int).filter(
                        |a: Authenticator| a.user_id == user_id,
                    ).map_values(|a: Authenticator| a.cred_id@));
                }
            }
            proof {
                assert(r@.map_values(|v: Vec<u8>| v@) =~= self.auths@.take(i + 1 as int).filter(
                    |a: Authenticator| a.user_id == user_id,
                ).map_values(|a: Authenticator| a.cred_id@));
            }
            i = i + 1;
        }
        proof {
            assert(self.auths@.take(n as int) =~= self.auths@);
        }
        r
    }
}

/// Appending an identity whose id and display name are fresh preserves the
/// store invariants.
proof fn lemma_push_user_wf(pre: Store, post: Store, user: User)
    requires
        pre.wf(),
        !has_username(pre.users(), user.username@),
        !has_user_id(pre.users(), user.id),
        post.users() == pre.users().push(user),
        post.auths() == pre.auths(),
    ensures
        post.wf(),
{
    let users = pre.users();
    let us = post.users();
    assert forall|i: int, j: int| #![trigger us[i], us[j]] 0 <= i < j < us.len() implies us[i].id
        != us[j].id by {
        if j == users.len() {
            if users[i].id == user.id {
                assert(has_user_id(users, user.id));
            }
        }
    }
    assert forall|i: int, j: int| #![trigger us[i], us[j]] 0 <= i < j
        < us.len() implies us[i].username@ != us[j].username@ by {
        if j == users.len() {
            if users[i].username@ == user.username@ {
                assert(has_username(users, user.username@));
            }
        }
    }
    assert forall|i: int| #![trigger post.auths()[i]] 0 <= i < post.auths().len() implies has_user_id(
        us,
        post.auths()[i].user_id,
    ) by {
        assert(has_user_id(users, pre.auths()[i].user_id));
        let w = choose|w: int| #![trigger users[w]]
            0 <= w < users.len() && users[w].id == pre.auths()[i].user_id;
        assert(us[w].id == post.auths()[i].user_id);
    }
}

/// Appending a credential with a fresh credential id for an existing
/// identity preserves the store invariants.
proof fn lemma_push_auth_wf(pre: Store, post: Store, auth: Authenticator)
    requires
        pre.wf(),
        !has_cred_id(pre.auths(), auth.cred_id@),
        has_user_id(pre.users(), auth.user_id),
        post.users() == pre.users(),
        post.auths() == pre.auths().push(auth),
    ensures
        post.wf(),
{
    let auths = pre.auths();
    let au = post.auths();
    assert forall|i: int, j: int| #![trigger au[i], au[j]] 0 <= i < j
        < au.len() implies au[i].cred_id@ != au[j].cred_id@ by {
        if j == auths.len() {
            if auths[i].cred_id@ == auth.cred_id@ {
                assert(has_cred_id(auths, auth.cred_id@));
            }
        }
    }
    assert forall|i: int| #![trigger au[i]] 0 <= i < au.len() implies has_user_id(
        post.users(),
        au[i].user_id,
    ) by {
        if i < auths.len() {
            assert(au[i] == auths[i]);
            assert(has_user_id(pre.users(), auths[i].user_id));
        }
    }
}

/// Rewriting one credential in place, without touching its owner or its
/// credential id, preserves the store invariants.
proof fn lemma_update_auth_wf(pre: Store, post: Store, k: int, upd: Authenticator)
    requires
        pre.wf(),
        0 <= k < pre.auths().len(),
        upd.cred_id == pre.auths()[k].cred_id,
        upd.user_id == pre.auths()[k].user_id,
        post.users() == pre.users(),
        post.auths() == pre.auths().update(k, upd),
    ensures
        post.wf(),
{
    let auths = pre.auths();
    let au = post.auths();
    assert forall|i: int, j: int| #![trigger au[i], au[j]] 0 <= i < j
        < au.len() implies au[i].cred_id@ != au[j].cred_id@ by {
        assert(au[i].cred_id@ == auths[i].cred_id@);
        assert(au[j].cred_id@ == auths[j].cred_id@);
    }
    assert forall|i: int| #![trigger au[i]] 0 <= i < au.len() implies has_user_id(
        post.users(),
        au[i].user_id,
    ) by {
        assert(au[i].user_id == auths[i].user_id);
        assert(has_user_id(pre.users(), auths[i].user_id));
    }
}

/// Of two registrations of the same display name, at most one can commit:
/// once the first lands (its identity is appended to the store), the store
/// holds the name, and `insert_user_and_passkey` refuses every later
/// commit of a name the store holds.
pub proof fn lemma_one_registrant_wins(pre: Store, post: Store, winner: User, name: Seq<char>)
    requires
        winner.username@ == name,
        post.users() == pre.users().push(winner),
    ensures
        has_username(post.users(), name),
{
    assert(post.users()[post.users().len() - 1].username@ == name);
}

/// In a store whose credential ids are unique, any index holding the pair
/// `(user_id, cred_id)` is the `cred_index`.
pub proof fn lemma_cred_index_unique(
    auths: Seq<Authenticator>,
    user_id: u128,
    cred_id: Seq<u8>,
    i: int,
)
    requires
        forall|p: int, q: int| #![trigger auths[p], auths[q]]
            0 <= p < q < auths.len() ==> auths[p].cred_id@ != auths[q].cred_id@,
        0 <= i < auths.len(),
        auths[i].user_id == user_id,
        auths[i].cred_id@ == cred_id,
    ensures
        has_cred(auths, user_id, cred_id),
        cred_index(auths, user_id, cred_id) == i,
{
    assert(has_cred(auths, user_id, cred_id));
    let j = cred_index(auths, user_id, cred_id);
    if i < j {
        assert(auths[i].cred_id@ != auths[j].cred_id@);
    } else if j < i {
        assert(auths[j].cred_id@ != auths[i].cred_id@);
    }
}

/// In a store whose identity ids are unique, any index holding `id` is the
/// `user_index`.
proof fn lemma_user_index_unique(users: Seq<User>, id: u128, i: int)
    requires
        forall|p: int, q: int| #![trigger users[p], users[q]]
            0 <= p < q < users.len() ==> users[p].id != users[q].id,
        0 <= i < users.len(),
        users[i].id == id,
    ensures
        has_user_id(users, id),
        user_index(users, id) == i,
{
    assert(has_user_id(users, id));
    let j = user_index(users, id);
    if i < j {
        assert(users[i].id != users[j].id);
    } else if j < i {
        assert(users[j].id != users[i].id);
    }
}

} // verus!
