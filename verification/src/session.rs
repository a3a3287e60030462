//! Authenticated sessions: the server-side record that a session handle
//! belongs to a signed-in identity.
//!
//! A session expires after an hour of inactivity. Activity extends it, but
//! the extension is coalesced: the recorded activity time only moves when
//! more than a minute has passed since the last move, so that a busy
//! client does not rewrite the record on every request. The pending
//! ceremony state of the challenge cache is separate from, and shorter
//! lived than, this record.

use std::collections::HashMap;
use vstd::prelude::*;

use crate::cache::ChallengeCache;
use crate::model::{Authenticator, User};
use crate::store::{has_user_id, user_index, Store};

verus! {

broadcast use vstd::std_specs::hash::group_hash_axioms;

/// A session's recorded activity time only moves when this many
/// milliseconds have passed since it last moved.
pub const ROLL_SESSION_EVERY_MILLIS: i64 = 60000;

/// A session expires after this many milliseconds without recorded
/// activity.
pub const SESSION_IDLE_EXPIRY_MILLIS: i64 = 3600000;

/// An authenticated session: the signed-in identity, when the session was
/// established, and when activity was last recorded.
#[derive(Clone, Copy)]
pub struct AuthSession {
    pub user_id: u128,
    pub established_at: i64,
    pub last_activity: i64,
}

/// Whether recorded activity at `last_activity` calls for an extension at
/// `now`.
pub open spec fn spec_should_roll(last_activity: i64, now: i64) -> bool {
    now - last_activity > ROLL_SESSION_EVERY_MILLIS
}

/// Whether a session with activity last recorded at `last_activity` has
/// expired by `now`.
pub open spec fn spec_expired(last_activity: i64, now: i64) -> bool {
    now - last_activity > SESSION_IDLE_EXPIRY_MILLIS
}

/// Whether recorded activity at `last_activity` calls for an extension at
/// `now`.
pub fn should_roll(last_activity: i64, now: i64) -> (r: bool)
    ensures
        r == spec_should_roll(last_activity, now),
{
    (now as i128) - (last_activity as i128) > ROLL_SESSION_EVERY_MILLIS as i128
}

/// The authenticated sessions, by session handle.
pub struct SessionMap {
    sessions: HashMap<u64, AuthSession>,
}

impl SessionMap {
    /// The live session records, by session handle.
    pub closed spec fn view(&self) -> Map<u64, AuthSession> {
        self.sessions@
    }

    /// An empty session table.
    pub fn new() -> (r: SessionMap)
        ensures
            r@ == Map::<u64, AuthSession>::empty(),
    {
        SessionMap { sessions: HashMap::new() }
    }

    /// Remember the caller as signed in: the session handle now maps to the
    /// identity, established and last active at `now`. Any earlier session
    /// of the handle is replaced.
    pub fn set_me_authenticated(&mut self, handle: u64, user_id: u128, now: i64)
        ensures
            final(self)@ == old(self)@.insert(
                handle,
                AuthSession { user_id, established_at: now, last_activity: now },
            ),
    {
        self.sessions.insert(
            handle,
            AuthSession { user_id, established_at: now, last_activity: now },
        );
    }

    /// Forget the session of `handle`, if any.
    pub fn remove(&mut self, handle: u64)
        ensures
            final(self)@ == old(self)@.remove(handle),
    {
        self.sessions.remove(&handle);
    }

    /// The identity signed in under `handle`, unless the session is absent
    /// or has sat idle past its expiry.
    pub fn current_user_id(&self, handle: u64, now: i64) -> (r: Option<u128>)
        ensures
            match r {
                Some(uid) => self@.contains_key(handle) && !spec_expired(
                    self@[handle].last_activity,
                    now,
                ) && uid == self@[handle].user_id,
                None => !self@.contains_key(handle) || spec_expired(
                    self@[handle].last_activity,
                    now,
                ),
            },
    {
        match self.sessions.get(&handle) {
            Some(s) => {
                if (now as i128) - (s.last_activity as i128) > SESSION_IDLE_EXPIRY_MILLIS as i128 {
                    None
                } else {
                    Some(s.user_id)
                }
            },
            None => None,
        }
    }

    /// Extend the live session of `handle`, coalesced: the recorded
    /// activity time moves to `now` only when the session is alive and more
    /// than the roll interval has passed; otherwise nothing changes. The
    /// signed-in identity and the establishment time are never touched.
    pub fn roll_expiry(&mut self, handle: u64, now: i64) -> (rolled: bool)
        ensures
            rolled == (old(self)@.contains_key(handle) && !spec_expired(
                old(self)@[handle].last_activity,
                now,
            ) && spec_should_roll(old(self)@[handle].last_activity, now)),
            rolled ==> final(self)@ == old(self)@.insert(
                handle,
                AuthSession { last_activity: now, ..old(self)@[handle] },
            ),
            !rolled ==> final(self)@ == old(self)@,
    {
        let s = match self.sessions.get(&handle) {
            Some(s) => *s,
            None => {
                return false;
            },
        };
        let idle = (now as i128) - (s.last_activity as i128);
        if idle > SESSION_IDLE_EXPIRY_MILLIS as i128 || idle <= ROLL_SESSION_EVERY_MILLIS as i128 {
            proof {
                assert(self.sessions@ =~= old(self).sessions@);
            }
            return false;
        }
        self.sessions.insert(handle, AuthSession { last_activity: now, ..s });
        true
    }
}

/// Clear the caller's session and any pending ceremony state it owns: the
/// handle is signed out and no `finish` call can consume a stale challenge
/// afterwards.
pub fn signout(sessions: &mut SessionMap, cache: &mut ChallengeCache, handle: u64)
    ensures
        final(sessions)@ == old(sessions)@.remove(handle),
        final(cache).reg_view() == old(cache).reg_view().remove(handle),
        final(cache).auth_view() == old(cache).auth_view().remove(handle),
{
    sessions.remove(handle);
    cache.clear_handle(handle);
}

/// The identity record of the caller signed in under `handle`: the session
/// must be alive and its identity still stored.
pub fn get_me(sessions: &SessionMap, store: &Store, handle: u64, now: i64) -> (r: Option<User>)
    requires
        store.wf(),
    ensures
        match r {
            Some(u) => {
                &&& sessions@.contains_key(handle)
                &&& !spec_expired(sessions@[handle].last_activity, now)
                &&& u.id == sessions@[handle].user_id
                &&& has_user_id(store.users(), u.id)
                &&& u == store.users()[user_index(store.users(), u.id)]
            },
            None => !sessions@.contains_key(handle) || spec_expired(
                sessions@[handle].last_activity,
                now,
            ) || !has_user_id(store.users(), sessions@[handle].user_id),
        },
{
    match sessions.current_user_id(handle, now) {
        Some(uid) => match store.get_user_by_id(uid) {
            Ok(u) => Some(u),
            Err(_) => None,
        },
        None => None,
    }
}

/// The credentials of the caller signed in under `handle`, in insertion
/// order; `None` when no live session exists.
pub fn get_my_authenticators<'a>(
    sessions: &SessionMap,
    store: &'a Store,
    handle: u64,
    now: i64,
) -> (r: Option<Vec<&'a Authenticator>>)
    ensures
        match r {
            Some(v) => {
                &&& sessions@.contains_key(handle)
                &&& !spec_expired(sessions@[handle].last_activity, now)
                &&& v@.map_values(|a: &Authenticator| *a) == store.auths().filter(
                    |a: Authenticator| a.user_id == sessions@[handle].user_id,
                )
            },
            None => !sessions@.contains_key(handle) || spec_expired(
                sessions@[handle].last_activity,
                now,
            ),
        },
{
    match sessions.current_user_id(handle, now) {
        Some(uid) => Some(store.get_authenticators_for_user_id(uid)),
        None => None,
    }
}

/// A character a durable backend accepts in a table name: ASCII
/// alphanumeric, hyphen or underscore.
pub open spec fn valid_table_char(c: char) -> bool {
    ||| 48 <= c as u32 <= 57
    ||| 65 <= c as u32 <= 90
    ||| 97 <= c as u32 <= 122
    ||| c == '-'
    ||| c == '_'
}

/// A name a durable session-store backend accepts for its table: nonempty,
/// made of ASCII alphanumerics, hyphens and underscores.
pub open spec fn spec_valid_table_name(s: Seq<char>) -> bool {
    s.len() > 0 && forall|i: int| 0 <= i < s.len() ==> valid_table_char(#[trigger] s[i])
}

/// Decides whether a durable session-store backend may use `name` as its
/// table name.
pub fn is_valid_table_name(name: &str) -> (r: bool)
    ensures
        r == spec_valid_table_name(name@),
{
    let n = name.unicode_len();
    if n == 0 {
        return false;
    }
    let mut i: usize = 0;
    while i < n
        invariant
            n == name@.len(),
            i <= n,
            forall|j: int| 0 <= j < i ==> valid_table_char(#[trigger] name@[j]),
        decreases n - i,
    {
        let c = name.get_char(i);
        let u = c as u32;
        if !((48 <= u && u <= 57) || (65 <= u && u <= 90) || (97 <= u && u <= 122) || c == '-'
            || c == '_') {
            return false;
        }
        i = i + 1;
    }
    true
}

} // verus!
