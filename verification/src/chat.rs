//! The chat room's shared state and message formatting.
//!
//! The socket plumbing lives outside the library; here is what it decides
//! on: the set of connected display names (kept free of duplicates by
//! numbering a name that is already taken), the bounded log of recent
//! messages, and the exact text of the join/leave/chat/count messages.

use vstd::prelude::*;
use vstd::string::StringExecFns;

verus! {

/// The recent-message log keeps at most this many entries.
pub const RECENT_MESSAGES_CAP: usize = 7;

/// How many numbered variants of a display name are tried before giving
/// up: the bare name, then `name (1)` through `name (98)`.
pub const MAX_USERNAME_VARIANTS: u64 = 99;

/// The decimal digit `d` as a character.
pub open spec fn spec_digit(d: int) -> char {
    if d == 0 {
        '0'
    } else if d == 1 {
        '1'
    } else if d == 2 {
        '2'
    } else if d == 3 {
        '3'
    } else if d == 4 {
        '4'
    } else if d == 5 {
        '5'
    } else if d == 6 {
        '6'
    } else if d == 7 {
        '7'
    } else if d == 8 {
        '8'
    } else {
        '9'
    }
}

/// The decimal representation of `n`, most significant digit first.
pub open spec fn spec_decimal(n: nat) -> Seq<char>
    decreases n,
{
    if n < 10 {
        seq![spec_digit(n as int)]
    } else {
        spec_decimal(n / 10) + seq![spec_digit((n % 10) as int)]
    }
}

/// The decimal digit `d` as a one-character string.
fn digit_str(d: u64) -> (r: &'static str)
    requires
        d < 10,
    ensures
        r@ == seq![spec_digit(d as int)],
{
    proof {
        reveal_strlit("0");
        reveal_strlit("1");
        reveal_strlit("2");
        reveal_strlit("3");
        reveal_strlit("4");
        reveal_strlit("5");
        reveal_strlit("6");
        reveal_strlit("7");
        reveal_strlit("8");
        reveal_strlit("9");
    }
    match d {
        0 => "0",
        1 => "1",
        2 => "2",
        3 => "3",
        4 => "4",
        5 => "5",
        6 => "6",
        7 => "7",
        8 => "8",
        _ => "9",
    }
}

/// `n` written in decimal.
pub fn u64_to_string(n: u64) -> (r: String)
    ensures
        r@ == spec_decimal(n as nat),
    decreases n,
{
    if n < 10 {
        digit_str(n).to_owned()
    } else {
        let mut s = u64_to_string(n / 10);
        s.append(digit_str(n % 10));
        s
    }
}

/// Some name in `names` reads `name`.
pub open spec fn has_name(names: Seq<Seq<char>>, name: Seq<char>) -> bool {
    exists|i: int| #![trigger names[i]] 0 <= i < names.len() && names[i] == name
}

/// The `k`-th candidate when `base` is taken: the bare name for `k == 0`,
/// then `base (k)`.
pub open spec fn spec_username_variant(base: Seq<char>, k: nat) -> Seq<char> {
    if k == 0 {
        base
    } else {
        base + " ("@ + spec_decimal(k) + ")"@
    }
}

/// The chat room: who is connected (each name once), and the last few
/// messages, oldest first.
pub struct ChatRoom {
    connected_usernames: Vec<String>,
    recent_messages: Vec<String>,
}

impl ChatRoom {
    /// The connected display names, in connection order.
    pub closed spec fn connected(&self) -> Seq<Seq<char>> {
        self.connected_usernames@.map_values(|s: String| s@)
    }

    /// The recent messages, oldest first.
    pub closed spec fn recent(&self) -> Seq<Seq<char>> {
        self.recent_messages@.map_values(|s: String| s@)
    }

    /// The room never logs more than the cap, and no name is connected
    /// twice.
    pub open spec fn wf(&self) -> bool {
        &&& self.recent().len() <= RECENT_MESSAGES_CAP
        &&& forall|i: int, j: int| #![trigger self.connected()[i], self.connected()[j]]
            0 <= i < j < self.connected().len() ==> self.connected()[i] != self.connected()[j]
    }

    /// An empty room.
    pub fn new() -> (r: ChatRoom)
        ensures
            r.wf(),
            r.connected().len() == 0,
            r.recent().len() == 0,
    {
        ChatRoom { connected_usernames: Vec::new(), recent_messages: Vec::new() }
    }

    /// Whether `username` is currently connected.
    pub fn contains_username(&self, username: &String) -> (r: bool)
        ensures
            r == has_name(self.connected(), username@),
    {
        let n = self.connected_usernames.len();
        let mut i: usize = 0;
        while i < n
            invariant
                n == self.connected_usernames.len(),
                i <= n,
                forall|j: int| #![trigger self.connected()[j]]
                    0 <= j < i ==> self.connected()[j] != username@,
            decreases n - i,
        {
            proof {
                assert(self.connected()[i as int] == self.connected_usernames@[i as int]@);
            }
            if self.connected_usernames[i] == *username {
                return true;
            }
            i = i + 1;
        }
        false
    }

    /// Connect `username` unless that exact name is already connected;
    /// reports whether it was inserted.
    pub fn insert_username_if_unique(&mut self, username: &String) -> (r: bool)
        requires
            old(self).wf(),
        ensures
            final(self).wf(),
            final(self).recent() == old(self).recent(),
            r == !has_name(old(self).connected(), username@),
            r ==> final(self).connected() == old(self).connected().push(username@),
            !r ==> final(self).connected() == old(self).connected(),
    {
        if self.contains_username(username) {
            return false;
        }
        let ghost prev = self.connected();
        self.connected_usernames.push(username.clone());
        proof {
            assert(self.connected() =~= prev.push(username@));
        }
        true
    }

    /// Disconnect `username`, if connected; the other names keep their
    /// order.
    pub fn remove_username(&mut self, username: &String)
        requires
            old(self).wf(),
        ensures
            final(self).wf(),
            final(self).recent() == old(self).recent(),
            !has_name(final(self).connected(), username@),
            has_name(old(self).connected(), username@) ==> exists|i: int|
                #![trigger old(self).connected().remove(i)]
                0 <= i < old(self).connected().len() && old(self).connected()[i] == username@
                    && final(self).connected() == old(self).connected().remove(i),
            !has_name(old(self).connected(), username@) ==> final(self).connected() == old(
                self,
            ).connected(),
    {
        let n = self.connected_usernames.len();
        let mut i: usize = 0;
        while i < n
            invariant
                n == self.connected_usernames.len(),
                i <= n,
                old(self).wf(),
                *self == *old(self),
                forall|j: int| #![trigger self.connected()[j]]
                    0 <= j < i ==> self.connected()[j] != username@,
            decreases n - i,
        {
            proof {
                assert(self.connected()[i as int] == self.connected_usernames@[i as int]@);
            }
            if self.connected_usernames[i] == *username {
                let ghost prev = self.connected();
                self.connected_usernames.remove(i);
                proof {
                    assert(self.connected() =~= prev.remove(i as int));
                    assert forall|k: int| 0 <= k < self.connected().len() implies #[trigger] self.connected()[k] != username@ by {
                        if k < i {
                            assert(prev[k] == self.connected()[k]);
                        } else {
                            assert(prev[k + 1] == self.connected()[k]);
                        }
                    }
                }
                return ;
            }
            i = i + 1;
        }
    }

    /// Connect the caller under `base`, or, when that exact name is taken
    /// (another tab, another device), under the first free numbered
    /// variant `base (k)`. `None` when every variant is taken.
    pub fn insert_unique_username(&mut self, base: &String) -> (r: Option<String>)
        requires
            old(self).wf(),
        ensures
            final(self).wf(),
            final(self).recent() == old(self).recent(),
            match r {
                Some(name) => exists|k: nat|
                    #![trigger spec_username_variant(base@, k)]
                    {
                        &&& k < MAX_USERNAME_VARIANTS
                        &&& name@ == spec_username_variant(base@, k)
                        &&& !has_name(old(self).connected(), name@)
                        &&& forall|j: nat|
                            j < k ==> has_name(
                                old(self).connected(),
                                #[trigger] spec_username_variant(base@, j),
                            )
                        &&& final(self).connected() == old(self).connected().push(name@)
                    },
                None => final(self).connected() == old(self).connected() && forall|k: nat|
                    k < MAX_USERNAME_VARIANTS ==> has_name(
                        old(self).connected(),
                        #[trigger] spec_username_variant(base@, k),
                    ),
            },
    {
        let mut i: u64 = 0;
        while i < MAX_USERNAME_VARIANTS
            invariant
                old(self).wf(),
                self.wf(),
                self.connected() == old(self).connected(),
                self.recent() == old(self).recent(),
                i <= MAX_USERNAME_VARIANTS,
                forall|j: nat|
                    j < i ==> has_name(
                        old(self).connected(),
                        #[trigger] spec_username_variant(base@, j),
                    ),
            decreases MAX_USERNAME_VARIANTS - i,
        {
            let name: String = if i == 0 {
                base.clone()
            } else {
                let mut s = base.clone();
                s.append(" (");
                let num = u64_to_string(i);
                s.append(num.as_str());
                s.append(")");
                s
            };
            proof {
                assert(name@ == spec_username_variant(base@, i as nat));
            }
            if self.insert_username_if_unique(&name) {
                return Some(name);
            }
            i = i + 1;
        }
        None
    }

    /// Log `msg`, dropping the oldest entry when the log is full.
    pub fn remember_message(&mut self, msg: &String)
        requires
            old(self).wf(),
        ensures
            final(self).wf(),
            final(self).connected() == old(self).connected(),
            final(self).recent() == if old(self).recent().len() < RECENT_MESSAGES_CAP {
                old(self).recent().push(msg@)
            } else {
                old(self).recent().push(msg@).subrange(1, old(self).recent().len() as int + 1)
            },
    {
        let ghost prev = self.recent();
        self.recent_messages.push(msg.clone());
        proof {
            assert(self.recent() =~= prev.push(msg@));
        }
        if self.recent_messages.len() > RECENT_MESSAGES_CAP {
            let ghost pushed = self.recent();
            self.recent_messages.remove(0);
            proof {
                assert(self.recent() =~= pushed.subrange(1, pushed.len() as int));
            }
        }
        proof {
            assert forall|i: int, j: int| #![trigger self.connected()[i], self.connected()[j]]
                0 <= i < j < self.connected().len() implies self.connected()[i]
                != self.connected()[j] by {
                assert(self.connected()[i] == old(self).connected()[i]);
                assert(self.connected()[j] == old(self).connected()[j]);
            }
        }
    }

    /// The recent messages, oldest first, as fresh values.
    pub fn get_recent_messages(&self) -> (r: Vec<String>)
        ensures
            r@.map_values(|s: String| s@) == self.recent(),
    {
        let n = self.recent_messages.len();
        let mut r: Vec<String> = Vec::new();
        let mut i: usize = 0;
        while i < n
            invariant
                n == self.recent_messages.len(),
                i <= n,
                r@ == self.recent_messages@.subrange(0, i as int),
            decreases n - i,
        {
            r.push(self.recent_messages[i].clone());
            proof {
                assert(r@ =~= self.recent_messages@.subrange(0, i + 1 as int));
            }
            i = i + 1;
        }
        proof {
            assert(r@ =~= self.recent_messages@);
            assert(r@.map_values(|s: String| s@) =~= self.recent());
        }
        r
    }

    /// The headcount message: a tally mark followed by how many names are
    /// connected.
    pub fn connected_count_message(&self) -> (r: String)
        ensures
            r@ == "\u{1F9EE}"@ + spec_decimal(self.connected().len()),
    {
        let mut s = String::new();
        s.append("\u{1F9EE}");
        let num = u64_to_string(self.connected_usernames.len() as u64);
        s.append(num.as_str());
        s
    }
}

/// The message announcing that `username` joined.
pub fn joined_message(username: &String) -> (r: String)
    ensures
        r@ == "\u{1F44B}"@ + username@ + " joined."@,
{
    let mut s = String::new();
    s.append("\u{1F44B}");
    s.append(username.as_str());
    s.append(" joined.");
    s
}

/// The message announcing that `username` left.
pub fn left_message(username: &String) -> (r: String)
    ensures
        r@ == "\u{1F44B}"@ + username@ + " left."@,
{
    let mut s = String::new();
    s.append("\u{1F44B}");
    s.append(username.as_str());
    s.append(" left.");
    s
}

/// A chat line: speaker, then text.
pub fn chat_message(username: &String, text: &String) -> (r: String)
    ensures
        r@ == "\u{1F4AC}"@ + username@ + ": "@ + text@,
{
    let mut s = String::new();
    s.append("\u{1F4AC}");
    s.append(username.as_str());
    s.append(": ");
    s.append(text.as_str());
    s
}

} // verus!
