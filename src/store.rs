//! The conversation store: conversations between unordered pairs of users,
//! the log of messages in the order they were created, and the display names
//! of participants.
use std::collections::HashMap;
use vstd::prelude::*;

use crate::clock::now_micros;
use crate::errors::AppError;
use crate::ident::fresh_uuid;

verus! {

broadcast use vstd::std_specs::hash::group_hash_axioms;

/// A conversation between two users.
#[derive(Clone, Copy, Debug, PartialEq, Eq, Structural)]
pub struct Conversation {
    pub id: u128,
    pub user1_id: u128,
    pub user2_id: u128,
    /// When the conversation last saw activity, in microseconds.
    pub last_updated: i64,
}

/// A persisted message.
#[derive(Debug)]
pub struct Message {
    pub id: u128,
    pub conv_id: u128,
    pub sender_id: u128,
    pub content: String,
    /// When the message was stored, in microseconds.
    pub sent_at: i64,
}

/// The mathematical value of a [`Message`].
pub struct MessageModel {
    pub id: u128,
    pub conv_id: u128,
    pub sender_id: u128,
    pub content: Seq<char>,
    pub sent_at: i64,
}

impl View for Message {
    type V = MessageModel;

    open spec fn view(&self) -> MessageModel {
        MessageModel {
            id: self.id,
            conv_id: self.conv_id,
            sender_id: self.sender_id,
            content: self.content@,
            sent_at: self.sent_at,
        }
    }
}

impl Message {
    /// A copy of this message.
    pub fn duplicate(&self) -> (r: Message)
        ensures
            r@ == self@,
    {
        Message {
            id: self.id,
            conv_id: self.conv_id,
            sender_id: self.sender_id,
            content: self.content.clone(),
            sent_at: self.sent_at,
        }
    }
}

/// Why the store refused a write.
#[derive(Clone, Copy, Debug, PartialEq, Eq, Structural)]
pub enum StoreError {
    /// The message names no stored conversation.
    UnknownConversation,
    /// The identifier drawn for a new record is already taken.
    DuplicateId,
}

impl StoreError {
    /// A human-readable reason.
    pub fn message(&self) -> (r: String)
        ensures
            r@ == self.spec_message(),
    {
        match self {
            StoreError::UnknownConversation => String::from_str("conversation not found"),
            StoreError::DuplicateId => String::from_str("identifier already in use"),
        }
    }

    pub open spec fn spec_message(&self) -> Seq<char> {
        match self {
            StoreError::UnknownConversation => "conversation not found"@,
            StoreError::DuplicateId => "identifier already in use"@,
        }
    }
}

/// Whether `c` is a conversation between `a` and `b`, in either order.
pub open spec fn same_pair(c: Conversation, a: u128, b: u128) -> bool {
    (c.user1_id == a && c.user2_id == b) || (c.user1_id == b && c.user2_id == a)
}

/// The messages of conversation `conv` in `log`, in log order.
pub open spec fn history_of(log: Seq<MessageModel>, conv: u128) -> Seq<MessageModel>
    decreases log.len(),
{
    if log.len() == 0 {
        Seq::empty()
    } else {
        let rest = history_of(log.drop_last(), conv);
        if log.last().conv_id == conv {
            rest.push(log.last())
        } else {
            rest
        }
    }
}

/// The time handed out when the clock reads `clock` and the current time is
/// `now`: the clock never goes back.
pub open spec fn next_time(clock: i64, now: i64) -> i64 {
    if now > clock {
        now
    } else {
        clock
    }
}

/// The conversation `c` with its activity time moved to `t`.
pub open spec fn touched(c: Conversation, t: i64) -> Conversation {
    Conversation { last_updated: t, ..c }
}

pub struct ConversationStore {
    conversations: Vec<Conversation>,
    messages: Vec<Message>,
    names: HashMap<u128, String>,
    clock: i64,
}

impl ConversationStore {
    /// The stored conversations, in the order they were created.
    pub closed spec fn conversations(&self) -> Seq<Conversation> {
        self.conversations@
    }

    /// The stored messages, in the order they were created.
    pub closed spec fn messages(&self) -> Seq<MessageModel> {
        self.messages@.map_values(|m: Message| m@)
    }

    /// The display names of the participants that have one.
    pub closed spec fn names(&self) -> Map<u128, Seq<char>> {
        self.names@.map_values(|s: String| s@)
    }

    /// The latest time the store has handed out.
    pub closed spec fn clock(&self) -> i64 {
        self.clock
    }

    /// The store's invariant: identifiers are unique, each unordered pair of
    /// users has at most one conversation, every message belongs to a stored
    /// conversation, message times never decrease along the log, and no
    /// time passes the clock.
    pub open spec fn wf(&self) -> bool {
        let cs = self.conversations();
        let ms = self.messages();
        &&& forall|i: int, j: int| 0 <= i < j < cs.len() ==> cs[i].id != cs[j].id
        &&& forall|i: int, j: int|
            0 <= i < j < cs.len() ==> !same_pair(cs[j], cs[i].user1_id, cs[i].user2_id)
        &&& forall|i: int, j: int| 0 <= i < j < ms.len() ==> ms[i].id != ms[j].id
        &&& forall|i: int, j: int| 0 <= i < j < ms.len() ==> ms[i].sent_at <= ms[j].sent_at
        &&& forall|i: int| 0 <= i < ms.len() ==> ms[i].sent_at <= self.clock()
        &&& forall|i: int| 0 <= i < cs.len() ==> cs[i].last_updated <= self.clock()
        &&& forall|k: int| 0 <= k < ms.len() ==> self.has_conversation(#[trigger] ms[k].conv_id)
    }

    /// Whether a conversation between `a` and `b` is stored.
    pub open spec fn has_pair(&self, a: u128, b: u128) -> bool {
        exists|i: int| 0 <= i < self.conversations().len() && same_pair(self.conversations()[i], a, b)
    }

    /// Whether a conversation with identifier `id` is stored.
    pub open spec fn has_conversation(&self, id: u128) -> bool {
        exists|i: int| 0 <= i < self.conversations().len() && self.conversations()[i].id == id
    }

    /// An empty store.
    pub fn new() -> (r: ConversationStore)
        ensures
            r.wf(),
            r.conversations().len() == 0,
            r.messages().len() == 0,
            r.names() =~= Map::<u128, Seq<char>>::empty(),
            r.clock() == i64::MIN,
    {
        let r = ConversationStore {
            conversations: Vec::new(),
            messages: Vec::new(),
            names: HashMap::new(),
            clock: i64::MIN,
        };
        assert(r.messages() =~= Seq::<MessageModel>::empty());
        r
    }

    /// Records the display name of a participant.
    pub fn set_participant_name(&mut self, user: u128, name: String)
        requires
            old(self).wf(),
        ensures
            final(self).wf(),
            final(self).names() == old(self).names().insert(user, name@),
            final(self).conversations() == old(self).conversations(),
            final(self).messages() == old(self).messages(),
            final(self).clock() == old(self).clock(),
    {
        self.names.insert(user, name);
        assert(self.names() =~= old(self).names().insert(user, name@));
        assert(self.messages() =~= old(self).messages());
        assert(self.conversations() == old(self).conversations());
        assert(self.wf());
    }

    /// The display name of a participant, if one was recorded.
    pub fn participant_name(&self, user: u128) -> (r: Option<String>)
        ensures
            match r {
                None => !self.names().contains_key(user),
                Some(s) => self.names().contains_key(user) && s@ == self.names()[user],
            },
    {
        match self.names.get(&user) {
            None => None,
            Some(s) => Some(s.clone()),
        }
    }

    /// The conversation between `a` and `b`, in either order, if one exists.
    pub fn find_conversation(&self, a: u128, b: u128) -> (r: Option<u128>)
        ensures
            match r {
                None => !self.has_pair(a, b),
                Some(id) => exists|i: int|
                    0 <= i < self.conversations().len() && same_pair(self.conversations()[i], a, b)
                        && self.conversations()[i].id == id,
            },
    {
        let mut i: usize = 0;
        while i < self.conversations.len()
            invariant
                0 <= i <= self.conversations@.len(),
                forall|j: int| 0 <= j < i ==> !same_pair(self.conversations@[j], a, b),
            decreases self.conversations@.len() - i,
        {
            let c = self.conversations[i];
            if (c.user1_id == a && c.user2_id == b) || (c.user1_id == b && c.user2_id == a) {
                assert(same_pair(self.conversations()[i as int], a, b));
                return Some(c.id);
            }
            i += 1;
        }
        None
    }

    /// The position of the conversation with identifier `id`, if one exists.
    fn conversation_index(&self, id: u128) -> (r: Option<usize>)
        ensures
            match r {
                None => !self.has_conversation(id),
                Some(i) => i < self.conversations().len() && self.conversations()[i as int].id
                    == id,
            },
    {
        let mut i: usize = 0;
        while i < self.conversations.len()
            invariant
                0 <= i <= self.conversations@.len(),
                forall|j: int| 0 <= j < i ==> self.conversations@[j].id != id,
            decreases self.conversations@.len() - i,
        {
            if self.conversations[i].id == id {
                return Some(i);
            }
            i += 1;
        }
        None
    }

    /// Whether a message with identifier `id` is stored.
    fn message_id_taken_exec(&self, id: u128) -> (r: bool)
        ensures
            r == self.message_id_taken(id),
    {
        let mut k: usize = 0;
        while k < self.messages.len()
            invariant
                0 <= k <= self.messages@.len(),
                forall|j: int| 0 <= j < k ==> self.messages()[j].id != id,
            decreases self.messages@.len() - k,
        {
            if self.messages[k].id == id {
                assert(self.messages()[k as int].id == id);
                return true;
            }
            k += 1;
        }
        false
    }

    /// Whether a stored message has identifier `id`.
    pub open spec fn message_id_taken(&self, id: u128) -> bool {
        exists|k: int| 0 <= k < self.messages().len() && self.messages()[k].id == id
    }

    /// Moves the clock to `now`, but never back; the result is the new clock.
    fn stamp(&mut self, now: i64) -> (t: i64)
        requires
            old(self).wf(),
        ensures
            final(self).wf(),
            t == next_time(old(self).clock(), now),
            final(self).clock() == t,
            final(self).conversations() == old(self).conversations(),
            final(self).messages() == old(self).messages(),
            final(self).names() == old(self).names(),
    {
        let t = if now > self.clock {
            now
        } else {
            self.clock
        };
        self.clock = t;
        assert(self.messages() =~= old(self).messages());
        assert(self.conversations() == old(self).conversations());
        t
    }

    /// The conversation between `a` and `b`. Where there is none, one is
    /// created under identifier `id` at time `now` (never before the clock),
    /// unless `id` is already taken.
    pub fn get_or_create_conversation_with(&mut self, a: u128, b: u128, id: u128, now: i64) -> (r:
        Result<u128, StoreError>)
        requires
            old(self).wf(),
        ensures
            final(self).wf(),
            final(self).messages() == old(self).messages(),
            final(self).names() == old(self).names(),
            old(self).has_pair(a, b) ==> *final(self) == *old(self) && forall|i: int|
                0 <= i < old(self).conversations().len() && same_pair(
                    old(self).conversations()[i],
                    a,
                    b,
                ) ==> r == Ok::<u128, StoreError>(old(self).conversations()[i].id),
            !old(self).has_pair(a, b) && old(self).has_conversation(id) ==> r == Err::<
                u128,
                StoreError,
            >(StoreError::DuplicateId) && *final(self) == *old(self),
            !old(self).has_pair(a, b) && !old(self).has_conversation(id) ==> {
                &&& r == Ok::<u128, StoreError>(id)
                &&& final(self).clock() == next_time(old(self).clock(), now)
                &&& final(self).conversations() == old(self).conversations().push(
                    Conversation {
                        id: id,
                        user1_id: a,
                        user2_id: b,
                        last_updated: final(self).clock(),
                    },
                )
            },
    {
        match self.find_conversation(a, b) {
            Some(found) => {
                proof {
                    let i = choose|i: int|
                        0 <= i < self.conversations().len() && same_pair(
                            self.conversations()[i],
                            a,
                            b,
                        ) && self.conversations()[i].id == found;
                    assert forall|j: int|
                        0 <= j < self.conversations().len() && same_pair(
                            self.conversations()[j],
                            a,
                            b,
                        ) implies found == self.conversations()[j].id by {
                        if j < i {
                            assert(!same_pair(
                                self.conversations()[i],
                                self.conversations()[j].user1_id,
                                self.conversations()[j].user2_id,
                            ));
                        } else if i < j {
                            assert(!same_pair(
                                self.conversations()[j],
                                self.conversations()[i].user1_id,
                                self.conversations()[i].user2_id,
                            ));
                        }
                    }
                }
                Ok(found)
            },
            None => {
                if self.conversation_index(id).is_some() {
                    return Err(StoreError::DuplicateId);
                }
                let t = self.stamp(now);
                self.conversations.push(
                    Conversation { id: id, user1_id: a, user2_id: b, last_updated: t },
                );
                proof {
                    let cs = self.conversations();
                    let ocs = old(self).conversations();
                    let n = cs.len() - 1;
                    assert forall|i: int, j: int| 0 <= i < j < cs.len() implies !same_pair(
                        cs[j],
                        cs[i].user1_id,
                        cs[i].user2_id,
                    ) by {
                        if j == n {
                            assert(!same_pair(ocs[i], a, b));
                        }
                    }
                    let ms = self.messages();
                    assert forall|k: int| 0 <= k < ms.len() implies self.has_conversation(
                        #[trigger] ms[k].conv_id,
                    ) by {
                        assert(old(self).has_conversation(ms[k].conv_id));
                        let i = choose|i: int| 0 <= i < ocs.len() && ocs[i].id == ms[k].conv_id;
                        assert(cs[i] == ocs[i]);
                    }
                }
                Ok(id)
            },
        }
    }

    /// The conversation between `a` and `b`; it is created, with a fresh
    /// identifier, where none exists yet.
    pub fn get_or_create_conversation(&mut self, a: u128, b: u128) -> (r: Result<u128, StoreError>)
        requires
            old(self).wf(),
        ensures
            final(self).wf(),
            final(self).messages() == old(self).messages(),
            final(self).names() == old(self).names(),
            old(self).has_pair(a, b) ==> *final(self) == *old(self) && forall|i: int|
                0 <= i < old(self).conversations().len() && same_pair(
                    old(self).conversations()[i],
                    a,
                    b,
                ) ==> r == Ok::<u128, StoreError>(old(self).conversations()[i].id),
            !old(self).has_pair(a, b) && old(self).conversations().len() == 0 ==> r is Ok,
            !old(self).has_pair(a, b) ==> match r {
                Ok(id) => {
                    &&& !old(self).has_conversation(id)
                    &&& final(self).clock() >= old(self).clock()
                    &&& final(self).conversations() == old(self).conversations().push(
                        Conversation {
                            id: id,
                            user1_id: a,
                            user2_id: b,
                            last_updated: final(self).clock(),
                        },
                    )
                },
                Err(e) => e == StoreError::DuplicateId && *final(self) == *old(self),
            },
    {
        let id = fresh_uuid();
        let now = now_micros();
        self.get_or_create_conversation_with(a, b, id, now)
    }

    /// Appends a message to conversation `conv_id` under identifier `id`,
    /// stamps it with time `now` (never before the clock), and moves the
    /// conversation's activity time to that same time. Refused where the
    /// conversation is unknown or `id` is taken.
    pub fn append_message(
        &mut self,
        id: u128,
        now: i64,
        conv_id: u128,
        sender_id: u128,
        content: &str,
    ) -> (r: Result<Message, StoreError>)
        requires
            old(self).wf(),
        ensures
            final(self).wf(),
            final(self).names() == old(self).names(),
            !old(self).has_conversation(conv_id) ==> r == Err::<Message, StoreError>(
                StoreError::UnknownConversation,
            ) && *final(self) == *old(self),
            old(self).has_conversation(conv_id) && old(self).message_id_taken(id) ==> r == Err::<
                Message,
                StoreError,
            >(StoreError::DuplicateId) && *final(self) == *old(self),
            old(self).has_conversation(conv_id) && !old(self).message_id_taken(id) ==> match r {
                Ok(m) => {
                    &&& m@ == (MessageModel {
                        id: id,
                        conv_id: conv_id,
                        sender_id: sender_id,
                        content: content@,
                        sent_at: next_time(old(self).clock(), now),
                    })
                    &&& final(self).clock() == m.sent_at
                    &&& final(self).messages() == old(self).messages().push(m@)
                    &&& final(self).conversations().len() == old(self).conversations().len()
                    &&& forall|i: int|
                        0 <= i < old(self).conversations().len() ==> final(self).conversations()[i]
                            == if old(self).conversations()[i].id == conv_id {
                            touched(old(self).conversations()[i], m.sent_at)
                        } else {
                            old(self).conversations()[i]
                        }
                },
                Err(_) => false,
            },
    {
        let idx = match self.conversation_index(conv_id) {
            None => {
                return Err(StoreError::UnknownConversation);
            },
            Some(i) => i,
        };
        if self.message_id_taken_exec(id) {
            return Err(StoreError::DuplicateId);
        }
        let t = self.stamp(now);
        let m = Message {
            id: id,
            conv_id: conv_id,
            sender_id: sender_id,
            content: String::from_str(content),
            sent_at: t,
        };
        let out = m.duplicate();
        self.messages.push(m);
        let c = self.conversations[idx];
        self.conversations.set(idx, Conversation { last_updated: t, ..c });
        proof {
            let ms = self.messages();
            let oms = old(self).messages();
            assert(ms =~= oms.push(out@));
            let cs = old(self).conversations();
            let ncs = self.conversations();
            assert(ncs.len() == cs.len());
            assert forall|i: int| 0 <= i < cs.len() implies ncs[i].id == cs[i].id && ncs[i].user1_id
                == cs[i].user1_id && ncs[i].user2_id == cs[i].user2_id && ncs[i].last_updated
                <= t by {}
            assert forall|i: int, j: int| 0 <= i < j < ncs.len() implies !same_pair(
                ncs[j],
                ncs[i].user1_id,
                ncs[i].user2_id,
            ) by {
                assert(!same_pair(cs[j], cs[i].user1_id, cs[i].user2_id));
            }
            assert forall|i: int, j: int| 0 <= i < j < ms.len() implies ms[i].id != ms[j].id
                && ms[i].sent_at <= ms[j].sent_at by {
                if j == ms.len() - 1 {
                    assert(oms[i].id != id);
                }
            }
            assert forall|k: int| 0 <= k < ms.len() implies self.has_conversation(
                #[trigger] ms[k].conv_id,
            ) by {
                if k == ms.len() - 1 {
                    assert(ncs[idx as int].id == conv_id);
                } else {
                    assert(ms[k] == oms[k]);
                    assert(old(self).has_conversation(oms[k].conv_id));
                    let i = choose|i: int| 0 <= i < cs.len() && cs[i].id == oms[k].conv_id;
                    assert(ncs[i].id == cs[i].id);
                }
            }
            assert forall|i: int| 0 <= i < cs.len() implies self.conversations()[i] == if cs[i].id
                == conv_id {
                touched(cs[i], t)
            } else {
                cs[i]
            } by {
                if i != idx && cs[i].id == conv_id {
                    if i < idx {
                        assert(cs[i].id != cs[idx as int].id);
                    } else {
                        assert(cs[idx as int].id != cs[i].id);
                    }
                }
            }
        }
        Ok(out)
    }

    /// Appends a message to conversation `conv_id` under a fresh identifier,
    /// stamps it with the next time, and moves the conversation's activity
    /// time to that same time.
    pub fn save_message(&mut self, conv_id: u128, sender_id: u128, content: &str) -> (r: Result<
        Message,
        StoreError,
    >)
        requires
            old(self).wf(),
        ensures
            final(self).wf(),
            final(self).names() == old(self).names(),
            !old(self).has_conversation(conv_id) ==> r == Err::<Message, StoreError>(
                StoreError::UnknownConversation,
            ),
            old(self).has_conversation(conv_id) ==> r is Ok || r == Err::<Message, StoreError>(
                StoreError::DuplicateId,
            ),
            old(self).has_conversation(conv_id) && old(self).messages().len() == 0 ==> r is Ok,
            match r {
                Ok(m) => {
                    &&& old(self).has_conversation(conv_id)
                    &&& m@ == (MessageModel {
                        id: m.id,
                        conv_id: conv_id,
                        sender_id: sender_id,
                        content: content@,
                        sent_at: m.sent_at,
                    })
                    &&& !old(self).message_id_taken(m.id)
                    &&& m.sent_at >= old(self).clock()
                    &&& final(self).clock() == m.sent_at
                    &&& final(self).messages() == old(self).messages().push(m@)
                    &&& final(self).conversations().len() == old(self).conversations().len()
                    &&& forall|i: int|
                        0 <= i < old(self).conversations().len() ==> final(self).conversations()[i]
                            == if old(self).conversations()[i].id == conv_id {
                            touched(old(self).conversations()[i], m.sent_at)
                        } else {
                            old(self).conversations()[i]
                        }
                },
                Err(_) => *final(self) == *old(self),
            },
    {
        let id = fresh_uuid();
        let now = now_micros();
        self.append_message(id, now, conv_id, sender_id, content)
    }

    /// The messages of conversation `conv_id`, in the order they were
    /// created.
    pub fn history(&self, conv_id: u128) -> (r: Vec<Message>)
        ensures
            r@.map_values(|m: Message| m@) == history_of(self.messages(), conv_id),
    {
        let mut out: Vec<Message> = Vec::new();
        let mut k: usize = 0;
        while k < self.messages.len()
            invariant
                0 <= k <= self.messages@.len(),
                out@.map_values(|m: Message| m@) == history_of(
                    self.messages().subrange(0, k as int),
                    conv_id,
                ),
            decreases self.messages@.len() - k,
        {
            let ghost before = out@.map_values(|m: Message| m@);
            proof {
                let pre = self.messages().subrange(0, k + 1);
                assert(pre.drop_last() =~= self.messages().subrange(0, k as int));
            }
            if self.messages[k].conv_id == conv_id {
                out.push(self.messages[k].duplicate());
                assert(out@.map_values(|m: Message| m@) =~= before.push(self.messages()[k as int]));
            }
            k += 1;
        }
        assert(self.messages().subrange(0, self.messages@.len() as int) =~= self.messages());
        out
    }
}

/// Whether `user` is one of the two users of `c`.
pub open spec fn involves(c: Conversation, user: u128) -> bool {
    c.user1_id == user || c.user2_id == user
}

/// The user of `c` other than `user`.
pub open spec fn other_party(c: Conversation, user: u128) -> u128 {
    if c.user1_id == user {
        c.user2_id
    } else {
        c.user1_id
    }
}

/// The conversations of `cs` that `user` takes part in, in order.
pub open spec fn conversations_of(cs: Seq<Conversation>, user: u128) -> Seq<Conversation>
    decreases cs.len(),
{
    if cs.len() == 0 {
        Seq::empty()
    } else {
        let rest = conversations_of(cs.drop_last(), user);
        if involves(cs.last(), user) {
            rest.push(cs.last())
        } else {
            rest
        }
    }
}

/// The latest message of conversation `conv` in `log`, if any.
pub open spec fn last_message_of(log: Seq<MessageModel>, conv: u128) -> Option<MessageModel> {
    let h = history_of(log, conv);
    if h.len() == 0 {
        None
    } else {
        Some(h.last())
    }
}

/// One line of a user's list of conversations.
pub struct ConversationSummary {
    pub id: u128,
    pub other_user_id: u128,
    pub other_user_name: Option<String>,
    pub last_message: Option<String>,
    pub last_message_time: Option<i64>,
    pub last_updated: i64,
}

/// The mathematical value of a [`ConversationSummary`].
pub struct SummaryModel {
    pub id: u128,
    pub other_user_id: u128,
    pub other_user_name: Option<Seq<char>>,
    pub last_message: Option<Seq<char>>,
    pub last_message_time: Option<i64>,
    pub last_updated: i64,
}

impl View for ConversationSummary {
    type V = SummaryModel;

    open spec fn view(&self) -> SummaryModel {
        SummaryModel {
            id: self.id,
            other_user_id: self.other_user_id,
            other_user_name: match self.other_user_name {
                None => None,
                Some(s) => Some(s@),
            },
            last_message: match self.last_message {
                None => None,
                Some(s) => Some(s@),
            },
            last_message_time: self.last_message_time,
            last_updated: self.last_updated,
        }
    }
}

/// What the list of `user`'s conversations says of `c`.
pub open spec fn summary_of(s: &ConversationStore, c: Conversation, user: u128) -> SummaryModel {
    let other = other_party(c, user);
    let last = last_message_of(s.messages(), c.id);
    SummaryModel {
        id: c.id,
        other_user_id: other,
        other_user_name: if s.names().contains_key(other) {
            Some(s.names()[other])
        } else {
            None
        },
        last_message: match last {
            None => None,
            Some(m) => Some(m.content),
        },
        last_message_time: match last {
            None => None,
            Some(m) => Some(m.sent_at),
        },
        last_updated: c.last_updated,
    }
}

/// Whether `user` takes part in a stored conversation `conv_id`.
pub open spec fn is_participant(s: &ConversationStore, conv_id: u128, user: u128) -> bool {
    exists|i: int|
        0 <= i < s.conversations().len() && s.conversations()[i].id == conv_id && involves(
            s.conversations()[i],
            user,
        )
}

impl ConversationStore {
    /// The latest message of conversation `conv_id`, if it has any.
    fn last_message(&self, conv_id: u128) -> (r: Option<&Message>)
        ensures
            match r {
                None => last_message_of(self.messages(), conv_id) is None,
                Some(m) => last_message_of(self.messages(), conv_id) == Some(m@),
            },
    {
        let mut last: Option<&Message> = None;
        let mut k: usize = 0;
        while k < self.messages.len()
            invariant
                0 <= k <= self.messages@.len(),
                match last {
                    None => last_message_of(self.messages().subrange(0, k as int), conv_id) is None,
                    Some(m) => last_message_of(self.messages().subrange(0, k as int), conv_id)
                        == Some(m@),
                },
            decreases self.messages@.len() - k,
        {
            proof {
                let pre = self.messages().subrange(0, k + 1);
                assert(pre.drop_last() =~= self.messages().subrange(0, k as int));
            }
            if self.messages[k].conv_id == conv_id {
                last = Some(&self.messages[k]);
            }
            k += 1;
        }
        assert(self.messages().subrange(0, self.messages@.len() as int) =~= self.messages());
        last
    }

    /// Whether `user` takes part in conversation `conv_id`.
    pub fn participates(&self, conv_id: u128, user: u128) -> (r: bool)
        requires
            self.wf(),
        ensures
            r == is_participant(self, conv_id, user),
    {
        match self.conversation_index(conv_id) {
            None => false,
            Some(i) => {
                let c = self.conversations[i];
                proof {
                    assert forall|j: int|
                        0 <= j < self.conversations().len() && self.conversations()[j].id
                            == conv_id implies j == i by {
                        if j < i {
                            assert(self.conversations()[j].id != self.conversations()[i as int].id);
                        } else if i < j {
                            assert(self.conversations()[i as int].id != self.conversations()[j].id);
                        }
                    }
                }
                c.user1_id == user || c.user2_id == user
            },
        }
    }
}

/// The messages of conversation `conv_id`, oldest first, for one of its two
/// users; anyone else is refused with `Forbidden`.
pub fn get_messages(store: &ConversationStore, user_id: u128, conv_id: u128) -> (r: Result<
    Vec<Message>,
    AppError,
>)
    requires
        store.wf(),
    ensures
        match r {
            Ok(v) => is_participant(store, conv_id, user_id) && v@.map_values(|m: Message| m@)
                == history_of(store.messages(), conv_id),
            Err(e) => !is_participant(store, conv_id, user_id) && e == AppError::Forbidden,
        },
{
    if !store.participates(conv_id, user_id) {
        return Err(AppError::Forbidden);
    }
    Ok(store.history(conv_id))
}

/// The conversations that `user_id` takes part in, in the order they were
/// created, each with the other user, that user's name, and the latest
/// message.
pub fn get_conversations(store: &ConversationStore, user_id: u128) -> (r: Vec<ConversationSummary>)
    ensures
        r@.len() == conversations_of(store.conversations(), user_id).len(),
        forall|i: int|
            0 <= i < r@.len() ==> #[trigger] r@[i]@ == summary_of(
                store,
                conversations_of(store.conversations(), user_id)[i],
                user_id,
            ),
{
    let mut out: Vec<ConversationSummary> = Vec::new();
    let mut i: usize = 0;
    while i < store.conversations.len()
        invariant
            0 <= i <= store.conversations@.len(),
            out@.len() == conversations_of(store.conversations().subrange(0, i as int), user_id).len(),
            forall|j: int|
                0 <= j < out@.len() ==> #[trigger] out@[j]@ == summary_of(
                    store,
                    conversations_of(store.conversations().subrange(0, i as int), user_id)[j],
                    user_id,
                ),
        decreases store.conversations@.len() - i,
    {
        let ghost before = conversations_of(store.conversations().subrange(0, i as int), user_id);
        proof {
            let pre = store.conversations().subrange(0, i + 1);
            assert(pre.drop_last() =~= store.conversations().subrange(0, i as int));
        }
        let c = store.conversations[i];
        if c.user1_id == user_id || c.user2_id == user_id {
            let other = if c.user1_id == user_id {
                c.user2_id
            } else {
                c.user1_id
            };
            let (last_message, last_message_time) = match store.last_message(c.id) {
                None => (None, None),
                Some(m) => (Some(m.content.clone()), Some(m.sent_at)),
            };
            let summary = ConversationSummary {
                id: c.id,
                other_user_id: other,
                other_user_name: store.participant_name(other),
                last_message: last_message,
                last_message_time: last_message_time,
                last_updated: c.last_updated,
            };
            assert(summary@ == summary_of(store, c, user_id));
            let ghost old_out = out@;
            out.push(summary);
            assert forall|j: int| 0 <= j < out@.len() implies #[trigger] out@[j]@ == summary_of(
                store,
                conversations_of(store.conversations().subrange(0, i + 1), user_id)[j],
                user_id,
            ) by {
                if j < before.len() {
                    assert(out@[j] == old_out[j]);
                }
            }
        }
        i += 1;
    }
    assert(store.conversations().subrange(0, store.conversations@.len() as int)
        =~= store.conversations());
    out
}

/// A conversation's history after one more message is logged: the message
/// joins the end of its own conversation's history, and every other
/// conversation's history is unchanged.
pub proof fn lemma_history_after_append(log: Seq<MessageModel>, m: MessageModel, conv: u128)
    ensures
        history_of(log.push(m), conv) == if m.conv_id == conv {
            history_of(log, conv).push(m)
        } else {
            history_of(log, conv)
        },
{
    assert(log.push(m).drop_last() =~= log);
}

/// Reading a history again after more messages were logged finds every
/// message of the earlier read in the same place, unchanged.
pub proof fn lemma_history_stable(log: Seq<MessageModel>, more: Seq<MessageModel>, conv: u128)
    ensures
        history_of(log, conv).len() <= history_of(log + more, conv).len(),
        forall|i: int|
            0 <= i < history_of(log, conv).len() ==> #[trigger] history_of(log + more, conv)[i]
                == history_of(log, conv)[i],
    decreases more.len(),
{
    if more.len() == 0 {
        assert(log + more =~= log);
    } else {
        let shorter = more.drop_last();
        lemma_history_stable(log, shorter, conv);
        assert((log + more).drop_last() =~= log + shorter);
        assert((log + more).last() == more.last());
        let h = history_of(log + shorter, conv);
        let g = history_of(log + more, conv);
        assert forall|i: int| 0 <= i < h.len() implies g[i] == h[i] by {}
    }
}

/// Every entry of a history comes from the log; and where the log's
/// identifiers are distinct and its times never decrease, the same holds of
/// the history.
proof fn lemma_history_from_log(log: Seq<MessageModel>, conv: u128)
    requires
        forall|i: int, j: int| 0 <= i < j < log.len() ==> log[i].id != log[j].id,
        forall|i: int, j: int| 0 <= i < j < log.len() ==> log[i].sent_at <= log[j].sent_at,
    ensures
        forall|i: int|
            #![trigger history_of(log, conv)[i]]
            0 <= i < history_of(log, conv).len() ==> exists|k: int|
                #![trigger log[k]]
                0 <= k < log.len() && history_of(log, conv)[i] == log[k],
        forall|i: int, j: int|
            0 <= i < j < history_of(log, conv).len() ==> history_of(log, conv)[i].id != history_of(
                log,
                conv,
            )[j].id && history_of(log, conv)[i].sent_at <= history_of(log, conv)[j].sent_at,
    decreases log.len(),
{
    if log.len() > 0 {
        let pre = log.drop_last();
        let n = log.len() - 1;
        lemma_history_from_log(pre, conv);
        let rest = history_of(pre, conv);
        let h = history_of(log, conv);
        assert forall|i: int| #![trigger rest[i]] 0 <= i < rest.len() implies exists|k: int|
            #![trigger log[k]]
            0 <= k < n && rest[i] == log[k] by {
            let k = choose|k: int| 0 <= k < pre.len() && rest[i] == pre[k];
            assert(rest[i] == log[k]);
        }
        if log.last().conv_id == conv {
            assert(h == rest.push(log[n]));
            assert forall|i: int| #![trigger h[i]] 0 <= i < h.len() implies exists|k: int|
                #![trigger log[k]]
                0 <= k < log.len() && h[i] == log[k] by {
                if i == h.len() - 1 {
                    assert(h[i] == log[n]);
                } else {
                    let k = choose|k: int| 0 <= k < n && rest[i] == log[k];
                    assert(h[i] == log[k]);
                }
            }
            assert forall|i: int, j: int| 0 <= i < j < h.len() implies h[i].id != h[j].id
                && h[i].sent_at <= h[j].sent_at by {
                if j == h.len() - 1 {
                    let k = choose|k: int| 0 <= k < n && rest[i] == log[k];
                    assert(h[i] == log[k]);
                    assert(h[j] == log[n]);
                } else {
                    assert(h[i] == rest[i] && h[j] == rest[j]);
                }
            }
        } else {
            assert forall|i: int| #![trigger h[i]] 0 <= i < h.len() implies exists|k: int|
                #![trigger log[k]]
                0 <= k < log.len() && h[i] == log[k] by {
                let k = choose|k: int| 0 <= k < n && rest[i] == log[k];
                assert(h[i] == log[k]);
            }
        }
    }
}

/// Reading a conversation's history gives its messages in the order they
/// were created, each with its own identifier, and with times that never
/// decrease.
pub proof fn lemma_history_in_creation_order(s: &ConversationStore, conv: u128)
    requires
        s.wf(),
    ensures
        forall|i: int, j: int|
            0 <= i < j < history_of(s.messages(), conv).len() ==> history_of(s.messages(), conv)[i].id
                != history_of(s.messages(), conv)[j].id && history_of(s.messages(), conv)[i].sent_at
                <= history_of(s.messages(), conv)[j].sent_at,
        forall|i: int|
            0 <= i < history_of(s.messages(), conv).len() ==> history_of(s.messages(), conv)[i].conv_id
                == conv,
{
    lemma_history_from_log(s.messages(), conv);
    lemma_history_of_one_conversation(s.messages(), conv);
}

/// A history holds messages of its own conversation only.
proof fn lemma_history_of_one_conversation(log: Seq<MessageModel>, conv: u128)
    ensures
        forall|i: int|
            0 <= i < history_of(log, conv).len() ==> history_of(log, conv)[i].conv_id == conv,
    decreases log.len(),
{
    if log.len() > 0 {
        lemma_history_of_one_conversation(log.drop_last(), conv);
        let rest = history_of(log.drop_last(), conv);
        let h = history_of(log, conv);
        assert forall|i: int| 0 <= i < h.len() implies h[i].conv_id == conv by {
            if i < rest.len() {
                assert(h[i] == rest[i]);
            }
        }
    }
}

/// Conversations are unique per unordered pair of users: once one exists
/// between `a` and `b`, it is the only one, whichever of the two is named
/// first.
pub proof fn lemma_one_conversation_per_pair(s: &ConversationStore, a: u128, b: u128)
    requires
        s.wf(),
        s.has_pair(a, b),
    ensures
        s.has_pair(b, a),
        exists|i: int|
            0 <= i < s.conversations().len() && same_pair(s.conversations()[i], a, b) && forall|j: int|
                0 <= j < s.conversations().len() && same_pair(s.conversations()[j], a, b) ==> j == i,
{
    let cs = s.conversations();
    let i = choose|i: int| 0 <= i < cs.len() && same_pair(cs[i], a, b);
    assert(same_pair(cs[i], b, a));
    assert forall|j: int| 0 <= j < cs.len() && same_pair(cs[j], a, b) implies j == i by {
        if j < i {
            assert(!same_pair(cs[i], cs[j].user1_id, cs[j].user2_id));
        } else if i < j {
            assert(!same_pair(cs[j], cs[i].user1_id, cs[i].user2_id));
        }
    }
}

} // verus!
