//! The render projection: from the session state and the local identity to
//! the data the UI shows.
use vstd::prelude::*;
use crate::chat::{avatar_for, avatar_url, Chat, MessageData, UserProfile};

verus! {

/// Whether the text ends with `.gif` (case-sensitive).
pub open spec fn ends_with_gif(s: Seq<char>) -> bool {
    s.len() >= 4 && s.subrange(s.len() - 4, s.len() as int) == ".gif"@
}

/// Whether a message body is shown as embedded media rather than as text.
pub fn is_gif(body: &str) -> (r: bool)
    ensures
        r == ends_with_gif(body@),
{
    proof {
        reveal_strlit(".gif");
    }
    let n = body.unicode_len();
    if n < 4 {
        return false;
    }
    let r = body.get_char(n - 4) == '.' && body.get_char(n - 3) == 'g' && body.get_char(n - 2)
        == 'i' && body.get_char(n - 1) == 'f';
    proof {
        let tail = body@.subrange(n - 4, n as int);
        if r {
            assert(tail =~= ".gif"@);
        } else if tail == ".gif"@ {
            assert(tail[0] == body@[n - 4]);
            assert(tail[1] == body@[n - 3]);
            assert(tail[2] == body@[n - 2]);
            assert(tail[3] == body@[n - 1]);
        }
    }
    r
}

/// Whether a message is the local user's own: its author is exactly the
/// identity, case included.
pub fn is_own(m: &MessageData, identity: &str) -> (r: bool)
    ensures
        r == (m.from@ == identity@),
{
    m.from == String::from_str(identity)
}

/// The index of the first profile of the roster with the given name.
pub fn find_profile(users: &Vec<UserProfile>, name: &str) -> (r: Option<usize>)
    ensures
        match r {
            Some(i) => i < users@.len() && users@[i as int].name@ == name@ && forall|j: int|
                0 <= j < i ==> #[trigger] users@[j].name@ != name@,
            None => forall|j: int| 0 <= j < users@.len() ==> #[trigger] users@[j].name@ != name@,
        },
{
    let key = String::from_str(name);
    let mut i: usize = 0;
    while i < users.len()
        invariant
            i <= users.len(),
            key@ == name@,
            forall|j: int| 0 <= j < i ==> #[trigger] users@[j].name@ != name@,
        decreases users.len() - i,
    {
        if users[i].name == key {
            return Some(i);
        }
        i = i + 1;
    }
    None
}

/// A message as the UI shows it.
pub struct MessageEntry {
    pub from: String,
    pub body: String,
    /// Sent by the local user: shown on the other side, in another colour.
    pub own: bool,
    pub avatar: String,
    /// The body names an image to embed, not text to print.
    pub media: bool,
}

/// The data the UI renders; an empty list is shown as its empty state.
pub struct ViewModel {
    pub current_user: String,
    pub users: Vec<UserProfile>,
    pub messages: Vec<MessageEntry>,
}

/// The entry that the projection gives a message of author `from` and body
/// `body` for the local user `identity`.
pub open spec fn entry_matches(
    e: MessageEntry,
    from: Seq<char>,
    body: Seq<char>,
    identity: Seq<char>,
) -> bool {
    &&& e.from@ == from
    &&& e.body@ == body
    &&& e.own == (from == identity)
    &&& e.avatar@ == avatar_url(from)
    &&& e.media == ends_with_gif(body)
}

impl Chat {
    /// The avatar shown beside a message of `from`: that of the roster's
    /// profile of that name, or, for an author not in the roster, the one the
    /// avatar rule makes from the name. Either way it is never empty.
    pub fn author_avatar(&self, from: &str) -> (r: String)
        requires
            self.wf(),
        ensures
            r@ == avatar_url(from@),
            r@.len() > 0,
    {
        proof {
            reveal_strlit("https://avatars.dicebear.com/api/adventurer-neutral/");
        }
        match find_profile(&self.users, from) {
            Some(i) => {
                assert(self@.roster[i as int] == self.users@[i as int]@);
                String::from_str(self.users[i].avatar.as_str())
            },
            None => avatar_for(from),
        }
    }

    /// Projects the state for the local user `identity`: the roster in
    /// order, and one entry per message of the log, in order.
    pub fn view_model(&self, identity: &str) -> (r: ViewModel)
        requires
            self.wf(),
        ensures
            r.current_user@ == identity@,
            r.users@.map_values(|u: UserProfile| u@) == self@.roster,
            r.messages@.len() == self@.log.len(),
            forall|i: int|
                0 <= i < r.messages@.len() ==> entry_matches(
                    #[trigger] r.messages@[i],
                    self@.log[i].from,
                    self@.log[i].body,
                    identity@,
                ),
    {
        let mut users: Vec<UserProfile> = Vec::new();
        let mut i: usize = 0;
        while i < self.users.len()
            invariant
                i <= self.users.len(),
                users@.len() == i,
                forall|j: int| 0 <= j < i ==> #[trigger] users@[j]@ == self.users@[j]@,
            decreases self.users.len() - i,
        {
            let u = &self.users[i];
            users.push(
                UserProfile {
                    name: String::from_str(u.name.as_str()),
                    avatar: String::from_str(u.avatar.as_str()),
                },
            );
            i = i + 1;
        }
        assert(users@.map_values(|u: UserProfile| u@) =~= self@.roster);
        let mut messages: Vec<MessageEntry> = Vec::new();
        let mut k: usize = 0;
        while k < self.messages.len()
            invariant
                self.wf(),
                k <= self.messages.len(),
                messages@.len() == k,
                forall|j: int|
                    0 <= j < k ==> entry_matches(
                        #[trigger] messages@[j],
                        self.messages@[j].from@,
                        self.messages@[j].message@,
                        identity@,
                    ),
            decreases self.messages.len() - k,
        {
            let m = &self.messages[k];
            let entry = MessageEntry {
                from: String::from_str(m.from.as_str()),
                body: String::from_str(m.message.as_str()),
                own: is_own(m, identity),
                avatar: self.author_avatar(m.from.as_str()),
                media: is_gif(m.message.as_str()),
            };
            messages.push(entry);
            k = k + 1;
        }
        ViewModel { current_user: String::from_str(identity), users, messages }
    }
}

} // verus!
