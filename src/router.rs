//! The message router: validates an inbound frame, persists the message,
//! renders the outbound frame and pushes it to the receiver and, as an echo,
//! to the sender.
use vstd::prelude::*;
use vstd::string::StringExecFns;

use crate::clock::{rfc3339, rfc3339_of_micros};
use crate::ident::{parse_uuid, uuid_hyphenated, uuid_parse, uuid_text};
use crate::json::{json_quoted, json_string_member, member_view, quote, string_member};
use crate::presence::{current_connection, PresenceRegistry};
use crate::clock::now_micros;
use crate::ident::fresh_uuid;
use crate::store::{
    next_time, same_pair, touched, Conversation, ConversationStore, Message, MessageModel,
    StoreError,
};

verus! {

/// Why an inbound frame was refused before anything was stored.
#[derive(Clone, Copy, Debug, PartialEq, Eq, Structural)]
pub enum FrameError {
    /// The frame is not JSON.
    InvalidFormat,
    /// There is no string `receiver_id`, or it is not a UUID.
    MissingReceiver,
    /// There is no string `content`.
    MissingContent,
    /// `content` is the empty string.
    EmptyContent,
}

/// Why routing a frame failed.
#[derive(Clone, Copy, Debug, PartialEq, Eq, Structural)]
pub enum RouteError {
    Frame(FrameError),
    Store(StoreError),
}

impl RouteError {
    pub open spec fn spec_message(&self) -> Seq<char> {
        match self {
            RouteError::Frame(FrameError::InvalidFormat) => "Bad request: Invalid message format"@,
            RouteError::Frame(FrameError::MissingReceiver) => "Bad request: Missing receiver_id"@,
            RouteError::Frame(FrameError::MissingContent) => "Bad request: Missing content"@,
            RouteError::Frame(FrameError::EmptyContent) => "Bad request: Empty content"@,
            RouteError::Store(e) => "Database error: "@ + e.spec_message(),
        }
    }

    /// The human-readable reason sent back to the sender.
    pub fn message(&self) -> (r: String)
        ensures
            r@ == self.spec_message(),
    {
        match self {
            RouteError::Frame(FrameError::InvalidFormat) => String::from_str(
                "Bad request: Invalid message format",
            ),
            RouteError::Frame(FrameError::MissingReceiver) => String::from_str(
                "Bad request: Missing receiver_id",
            ),
            RouteError::Frame(FrameError::MissingContent) => String::from_str(
                "Bad request: Missing content",
            ),
            RouteError::Frame(FrameError::EmptyContent) => String::from_str(
                "Bad request: Empty content",
            ),
            RouteError::Store(e) => {
                let mut s = String::from_str("Database error: ");
                let m = e.message();
                s.append(m.as_str());
                s
            },
        }
    }
}

/// A validated inbound frame.
pub struct Inbound {
    pub receiver_id: u128,
    pub content: String,
}

/// What an inbound frame asks for, given what was read from it: the
/// `receiver_id` member, that member parsed as a UUID, and the `content`
/// member. The checks run in this order: JSON, `receiver_id`, `content`.
pub open spec fn inbound_decision(
    receiver_member: Option<Option<Seq<char>>>,
    receiver_id: Option<u128>,
    content_member: Option<Option<Seq<char>>>,
) -> Result<(u128, Seq<char>), FrameError> {
    match receiver_member {
        None => Err(FrameError::InvalidFormat),
        Some(None) => Err(FrameError::MissingReceiver),
        Some(Some(_)) => match receiver_id {
            None => Err(FrameError::MissingReceiver),
            Some(receiver) => match content_member {
                None => Err(FrameError::InvalidFormat),
                Some(None) => Err(FrameError::MissingContent),
                Some(Some(c)) => if c.len() == 0 {
                    Err(FrameError::EmptyContent)
                } else {
                    Ok((receiver, c))
                },
            },
        },
    }
}

/// What an inbound frame asks for: the receiver and the text, or the reason
/// it is refused.
pub open spec fn spec_parse_inbound(text: Seq<char>) -> Result<(u128, Seq<char>), FrameError> {
    let receiver_member = json_string_member(text, "receiver_id"@);
    let receiver_id = match receiver_member {
        Some(Some(r)) => uuid_parse(r),
        _ => None,
    };
    inbound_decision(receiver_member, receiver_id, json_string_member(text, "content"@))
}

/// Decides an inbound frame from the members read from it and the parsed
/// receiver.
pub fn check_inbound(
    receiver_member: Option<Option<String>>,
    receiver_id: Option<u128>,
    content_member: Option<Option<String>>,
) -> (r: Result<Inbound, FrameError>)
    ensures
        match r {
            Ok(i) => inbound_decision(
                member_view(receiver_member),
                receiver_id,
                member_view(content_member),
            ) == Ok::<(u128, Seq<char>), FrameError>((i.receiver_id, i.content@)),
            Err(e) => inbound_decision(
                member_view(receiver_member),
                receiver_id,
                member_view(content_member),
            ) == Err::<(u128, Seq<char>), FrameError>(e),
        },
{
    match receiver_member {
        None => {
            return Err(FrameError::InvalidFormat);
        },
        Some(None) => {
            return Err(FrameError::MissingReceiver);
        },
        Some(Some(_)) => {},
    }
    let receiver = match receiver_id {
        None => {
            return Err(FrameError::MissingReceiver);
        },
        Some(v) => v,
    };
    let content = match content_member {
        None => {
            return Err(FrameError::InvalidFormat);
        },
        Some(None) => {
            return Err(FrameError::MissingContent);
        },
        Some(Some(s)) => s,
    };
    if content.as_str().is_empty() {
        return Err(FrameError::EmptyContent);
    }
    Ok(Inbound { receiver_id: receiver, content: content })
}

/// Reads an inbound frame `{"receiver_id": "<uuid>", "content": "<text>"}`.
pub fn parse_inbound(text: &str) -> (r: Result<Inbound, FrameError>)
    ensures
        match r {
            Ok(i) => spec_parse_inbound(text@) == Ok::<(u128, Seq<char>), FrameError>(
                (i.receiver_id, i.content@),
            ),
            Err(e) => spec_parse_inbound(text@) == Err::<(u128, Seq<char>), FrameError>(e),
        },
{
    let receiver_member = string_member(text, "receiver_id");
    let receiver_id = match &receiver_member {
        Some(Some(s)) => parse_uuid(s.as_str()),
        _ => None,
    };
    let content_member = string_member(text, "content");
    check_inbound(receiver_member, receiver_id, content_member)
}

/// The JSON string holding an identifier's hyphenated text.
pub open spec fn id_json(v: u128) -> Seq<char> {
    "\""@ + uuid_hyphenated(v) + "\""@
}

/// The JSON value of an optional display name.
pub open spec fn name_json(name: Option<Seq<char>>) -> Seq<char> {
    match name {
        None => "null"@,
        Some(s) => json_quoted(s),
    }
}

/// The JSON value of a timestamp: its RFC 3339 text, or `null` where it
/// has none.
pub open spec fn time_json(t: i64) -> Seq<char> {
    match rfc3339_of_micros(t) {
        None => "null"@,
        Some(s) => json_quoted(s),
    }
}

/// The view of an optional string.
pub open spec fn opt_view(o: Option<String>) -> Option<Seq<char>> {
    match o {
        None => None,
        Some(s) => Some(s@),
    }
}

/// The delivered-message frame of a stored message, members in key order.
pub open spec fn message_frame(m: MessageModel, sender_name: Option<Seq<char>>) -> Seq<char> {
    "{\"content\":"@ + json_quoted(m.content) + ",\"conv_id\":"@ + id_json(m.conv_id) + ",\"id\":"@
        + id_json(m.id) + ",\"sender_id\":"@ + id_json(m.sender_id) + ",\"sender_name\":"@
        + name_json(sender_name) + ",\"sent_at\":"@ + time_json(m.sent_at)
        + ",\"type\":\"message\"}"@
}

/// The error frame that carries `reason`.
pub open spec fn error_frame_text(reason: Seq<char>) -> Seq<char> {
    "{\"message\":"@ + json_quoted(reason) + ",\"type\":\"error\"}"@
}

fn id_to_json(v: u128) -> (r: String)
    ensures
        r@ == id_json(v),
{
    let mut s = String::from_str("\"");
    let t = uuid_text(v);
    s.append(t.as_str());
    s.append("\"");
    s
}

fn name_to_json(name: &Option<String>) -> (r: String)
    ensures
        r@ == name_json(opt_view(*name)),
{
    match name {
        None => String::from_str("null"),
        Some(s) => quote(s.as_str()),
    }
}

fn time_to_json(t: i64) -> (r: String)
    ensures
        r@ == time_json(t),
{
    match rfc3339(t) {
        None => String::from_str("null"),
        Some(s) => quote(s.as_str()),
    }
}

/// Renders the frame that delivers a stored message.
pub fn render_message(m: &Message, sender_name: &Option<String>) -> (r: String)
    ensures
        r@ == message_frame(m@, opt_view(*sender_name)),
{
    let mut s = String::from_str("{\"content\":");
    let part = quote(m.content.as_str());
    s.append(part.as_str());
    s.append(",\"conv_id\":");
    let part = id_to_json(m.conv_id);
    s.append(part.as_str());
    s.append(",\"id\":");
    let part = id_to_json(m.id);
    s.append(part.as_str());
    s.append(",\"sender_id\":");
    let part = id_to_json(m.sender_id);
    s.append(part.as_str());
    s.append(",\"sender_name\":");
    let part = name_to_json(sender_name);
    s.append(part.as_str());
    s.append(",\"sent_at\":");
    let part = time_to_json(m.sent_at);
    s.append(part.as_str());
    s.append(",\"type\":\"message\"}");
    s
}

/// Renders the error frame for a failed inbound frame.
pub fn render_error(e: &RouteError) -> (r: String)
    ensures
        r@ == error_frame_text(e.spec_message()),
{
    let mut s = String::from_str("{\"message\":");
    let reason = e.message();
    let part = quote(reason.as_str());
    s.append(part.as_str());
    s.append(",\"type\":\"error\"}");
    s
}

/// The outcome of routing one message: the stored record, the frame that
/// was pushed, and the connections it was pushed to.
pub struct Delivery {
    pub message: Message,
    pub frame: String,
    /// The receiver's connection, where the receiver was present.
    pub to_receiver: Option<u64>,
    /// The sender's connection, where the sender was present.
    pub to_sender: Option<u64>,
}

/// The display name that the store holds for `user`, if any.
pub open spec fn name_in(names: Map<u128, Seq<char>>, user: u128) -> Option<Seq<char>> {
    if names.contains_key(user) {
        Some(names[user])
    } else {
        None
    }
}

/// The conversation made for a new pair under identifier `id` at time `t`.
pub open spec fn new_conversation(id: u128, a: u128, b: u128, t: i64) -> Conversation {
    Conversation { id: id, user1_id: a, user2_id: b, last_updated: t }
}

/// A message that was stored, with the frame that delivers it and its
/// receiver; what remains is to push the frame.
pub struct Routed {
    pub message: Message,
    pub frame: String,
    pub receiver_id: u128,
}

/// That store `after` is store `before` with message `m` from `sender` to
/// `receiver`, text `content`, appended: in the pair's conversation where
/// there was one (whose activity time moves to the message's), else in a new
/// conversation under a fresh identifier; and that `frame` delivers it.
pub open spec fn stored(
    before: ConversationStore,
    after: ConversationStore,
    sender: u128,
    receiver: u128,
    content: Seq<char>,
    m: MessageModel,
    frame: Seq<char>,
) -> bool {
    &&& m.sender_id == sender
    &&& m.content == content
    &&& !before.message_id_taken(m.id)
    &&& m.sent_at >= before.clock()
    &&& after.messages() == before.messages().push(m)
    &&& before.has_pair(sender, receiver) ==> {
        &&& exists|i: int|
            0 <= i < before.conversations().len() && same_pair(
                before.conversations()[i],
                sender,
                receiver,
            ) && before.conversations()[i].id == m.conv_id
        &&& after.conversations().len() == before.conversations().len()
        &&& forall|i: int|
            0 <= i < before.conversations().len() ==> after.conversations()[i] == if before.conversations()[i].id
                == m.conv_id {
                touched(before.conversations()[i], m.sent_at)
            } else {
                before.conversations()[i]
            }
    }
    &&& !before.has_pair(sender, receiver) ==> {
        &&& !before.has_conversation(m.conv_id)
        &&& after.conversations() == before.conversations().push(
            new_conversation(m.conv_id, sender, receiver, m.sent_at),
        )
    }
    &&& frame == message_frame(m, name_in(before.names(), sender))
}

/// What storing a well-formed frame from `sender` to `receiver` with text
/// `content` does, given the identifiers drawn for a new conversation and a
/// new message and the current time `now`: from store `before` to store
/// `after`, with result `r`.
pub open spec fn store_outcome(
    before: ConversationStore,
    after: ConversationStore,
    sender: u128,
    receiver: u128,
    content: Seq<char>,
    conv_draw: u128,
    message_draw: u128,
    now: i64,
    r: Result<Routed, RouteError>,
) -> bool {
    let created = !before.has_pair(sender, receiver);
    let t = next_time(before.clock(), now);
    let conv_fails = created && before.has_conversation(conv_draw);
    let message_fails = before.message_id_taken(message_draw);
    &&& conv_fails ==> r == Err::<Routed, RouteError>(RouteError::Store(StoreError::DuplicateId))
        && after == before
    &&& !conv_fails && message_fails ==> {
        &&& r == Err::<Routed, RouteError>(RouteError::Store(StoreError::DuplicateId))
        &&& after.messages() == before.messages()
        &&& after.conversations() == if created {
            before.conversations().push(new_conversation(conv_draw, sender, receiver, t))
        } else {
            before.conversations()
        }
    }
    &&& !conv_fails && !message_fails ==> match r {
        Ok(rt) => {
            &&& rt.receiver_id == receiver
            &&& rt.message@.id == message_draw
            &&& rt.message@.sent_at == t
            &&& created ==> rt.message@.conv_id == conv_draw
            &&& stored(before, after, sender, receiver, content, rt.message@, rt.frame@)
        },
        Err(_) => false,
    }
}

/// Validates an inbound text frame from `sender_id` and stores its message,
/// with the identifiers for a new conversation and a new message and the
/// current time given.
pub fn store_inbound_with(
    store: &mut ConversationStore,
    sender_id: u128,
    message: &str,
    conv_draw: u128,
    message_draw: u128,
    now: i64,
) -> (r: Result<Routed, RouteError>)
    requires
        old(store).wf(),
    ensures
        final(store).wf(),
        final(store).names() == old(store).names(),
        match spec_parse_inbound(message@) {
            Err(e) => r == Err::<Routed, RouteError>(RouteError::Frame(e)) && *final(store)
                == *old(store),
            Ok((receiver, content)) => store_outcome(
                *old(store),
                *final(store),
                sender_id,
                receiver,
                content,
                conv_draw,
                message_draw,
                now,
                r,
            ),
        },
{
    let inbound = match parse_inbound(message) {
        Ok(i) => i,
        Err(e) => {
            return Err(RouteError::Frame(e));
        },
    };
    let receiver_id = inbound.receiver_id;
    let conv_id = match store.get_or_create_conversation_with(sender_id, receiver_id, conv_draw, now) {
        Ok(id) => id,
        Err(e) => {
            return Err(RouteError::Store(e));
        },
    };
    let ghost mid = *store;
    proof {
        if old(store).has_pair(sender_id, receiver_id) {
            let i = choose|i: int|
                0 <= i < old(store).conversations().len() && same_pair(
                    old(store).conversations()[i],
                    sender_id,
                    receiver_id,
                );
            assert(mid.conversations()[i].id == conv_id);
            assert(mid.has_conversation(conv_id));
        } else {
            let n = mid.conversations().len() - 1;
            assert(mid.conversations()[n].id == conv_id);
            assert(mid.has_conversation(conv_id));
        }
        assert(mid.message_id_taken(message_draw) == old(store).message_id_taken(message_draw));
    }
    let saved = match store.append_message(message_draw, now, conv_id, sender_id, inbound.content.as_str()) {
        Ok(m) => m,
        Err(e) => {
            return Err(RouteError::Store(e));
        },
    };
    proof {
        if !old(store).has_pair(sender_id, receiver_id) {
            let n = mid.conversations().len() - 1;
            let ocs = old(store).conversations();
            assert forall|i: int| 0 <= i < ocs.len() implies ocs[i].id != conv_id by {
                assert(mid.conversations()[i] == ocs[i]);
                assert(mid.conversations()[i].id != mid.conversations()[n].id);
            }
            assert(store.conversations() =~= ocs.push(
                new_conversation(conv_draw, sender_id, receiver_id, next_time(old(store).clock(), now)),
            ));
        }
    }
    let sender_name = store.participant_name(sender_id);
    let frame = render_message(&saved, &sender_name);
    Ok(Routed { message: saved, frame: frame, receiver_id: receiver_id })
}

/// Validates an inbound text frame from `sender_id` and stores its message
/// in the pair's conversation, created with a fresh identifier where there is
/// none.
pub fn store_inbound(store: &mut ConversationStore, sender_id: u128, message: &str) -> (r: Result<
    Routed,
    RouteError,
>)
    requires
        old(store).wf(),
    ensures
        final(store).wf(),
        final(store).names() == old(store).names(),
        match spec_parse_inbound(message@) {
            Err(e) => r == Err::<Routed, RouteError>(RouteError::Frame(e)) && *final(store)
                == *old(store),
            Ok((receiver, content)) => {
                &&& old(store).messages().len() == 0 && (old(store).has_pair(sender_id, receiver)
                    || old(store).conversations().len() == 0) ==> r is Ok
                &&& match r {
                    Ok(rt) => rt.receiver_id == receiver && stored(
                        *old(store),
                        *final(store),
                        sender_id,
                        receiver,
                        content,
                        rt.message@,
                        rt.frame@,
                    ),
                    Err(e) => e == RouteError::Store(StoreError::DuplicateId)
                        && final(store).messages() == old(store).messages(),
                }
            },
        },
{
    let conv_draw = fresh_uuid();
    let message_draw = fresh_uuid();
    let now = now_micros();
    store_inbound_with(store, sender_id, message, conv_draw, message_draw, now)
}

/// Pushes a stored message's frame to its receiver's connection and, as an
/// echo, to its sender's, each where present.
pub fn deliver(registry: &PresenceRegistry, routed: Routed) -> (d: Delivery)
    ensures
        d.message@ == routed.message@,
        d.frame@ == routed.frame@,
        d.to_receiver == current_connection(registry@, routed.receiver_id),
        d.to_sender == current_connection(registry@, routed.message.sender_id),
{
    let to_receiver = registry.push(routed.receiver_id, routed.frame.clone());
    let to_sender = registry.push(routed.message.sender_id, routed.frame.clone());
    Delivery {
        message: routed.message,
        frame: routed.frame,
        to_receiver: to_receiver,
        to_sender: to_sender,
    }
}

/// What routing a well-formed frame does: [`store_outcome`], and then the
/// frame pushed to the receiver's and the sender's connections as registry
/// view `reg` has them.
pub open spec fn route_outcome(
    before: ConversationStore,
    after: ConversationStore,
    reg: Map<u128, u64>,
    sender: u128,
    receiver: u128,
    content: Seq<char>,
    conv_draw: u128,
    message_draw: u128,
    now: i64,
    r: Result<Delivery, RouteError>,
) -> bool {
    match r {
        Ok(d) => {
            &&& store_outcome(
                before,
                after,
                sender,
                receiver,
                content,
                conv_draw,
                message_draw,
                now,
                Ok(Routed { message: d.message, frame: d.frame, receiver_id: receiver }),
            )
            &&& d.to_receiver == current_connection(reg, receiver)
            &&& d.to_sender == current_connection(reg, sender)
        },
        Err(e) => store_outcome(
            before,
            after,
            sender,
            receiver,
            content,
            conv_draw,
            message_draw,
            now,
            Err(e),
        ),
    }
}

/// Routes one inbound text frame from `sender_id`, with the identifiers for
/// a new conversation and a new message and the current time given.
pub fn route_inbound(
    store: &mut ConversationStore,
    registry: &PresenceRegistry,
    sender_id: u128,
    message: &str,
    conv_draw: u128,
    message_draw: u128,
    now: i64,
) -> (r: Result<Delivery, RouteError>)
    requires
        old(store).wf(),
    ensures
        final(store).wf(),
        final(store).names() == old(store).names(),
        match spec_parse_inbound(message@) {
            Err(e) => r == Err::<Delivery, RouteError>(RouteError::Frame(e)) && *final(store)
                == *old(store),
            Ok((receiver, content)) => route_outcome(
                *old(store),
                *final(store),
                registry@,
                sender_id,
                receiver,
                content,
                conv_draw,
                message_draw,
                now,
                r,
            ),
        },
{
    match store_inbound_with(store, sender_id, message, conv_draw, message_draw, now) {
        Ok(routed) => {
            let ghost rt = routed;
            let d = deliver(registry, routed);
            assert(d.message@ == rt.message@);
            Ok(d)
        },
        Err(e) => Err(e),
    }
}

/// Routes one inbound text frame from `sender_id`: validates it, stores the
/// message in the conversation of the pair (created, with a fresh
/// identifier, where there is none), and pushes one delivered-message frame
/// to the receiver's connection and one to the sender's, each where present.
pub fn handle_client_message(
    store: &mut ConversationStore,
    registry: &PresenceRegistry,
    sender_id: u128,
    message: &str,
) -> (r: Result<Delivery, RouteError>)
    requires
        old(store).wf(),
    ensures
        final(store).wf(),
        final(store).names() == old(store).names(),
        match spec_parse_inbound(message@) {
            Err(e) => r == Err::<Delivery, RouteError>(RouteError::Frame(e)) && *final(store)
                == *old(store),
            Ok((receiver, content)) => {
                &&& old(store).messages().len() == 0 && (old(store).has_pair(sender_id, receiver)
                    || old(store).conversations().len() == 0) ==> r is Ok
                &&& match r {
                    Ok(d) => {
                        &&& stored(
                            *old(store),
                            *final(store),
                            sender_id,
                            receiver,
                            content,
                            d.message@,
                            d.frame@,
                        )
                        &&& d.to_receiver == current_connection(registry@, receiver)
                        &&& d.to_sender == current_connection(registry@, sender_id)
                    },
                    Err(e) => e == RouteError::Store(StoreError::DuplicateId)
                        && final(store).messages() == old(store).messages(),
                }
            },
        },
{
    match store_inbound(store, sender_id, message) {
        Ok(routed) => Ok(deliver(registry, routed)),
        Err(e) => Err(e),
    }
}

} // verus!
