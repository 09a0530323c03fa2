//! The presence registry: which connection, if any, currently receives the
//! deliveries of each user. At most one entry per user; a newer connection
//! replaces an older one.
use std::collections::HashMap;
use tokio::sync::mpsc::UnboundedSender;
use vstd::prelude::*;

verus! {

broadcast use vstd::std_specs::hash::group_hash_axioms;

/// `tokio::sync::mpsc::UnboundedSender`, the sending half of a connection's
/// delivery queue; opaque here.
#[verifier::external_type_specification]
#[verifier::external_body]
#[verifier::reject_recursive_types(T)]
pub struct ExUnboundedSender<T>(UnboundedSender<T>);

/// Relies on `tokio::sync::mpsc::UnboundedSender::send`: queues the payload
/// for the receiving half without blocking, or hands it back when that half
/// is gone. Nothing is promised here about which of the two happens.
#[verifier::external_body]
fn push_payload(handle: &UnboundedSender<String>, payload: String) {
    let _ = handle.send(payload);
}

/// A live connection's entry: its number and the sending half of its
/// delivery queue. The queue is unbounded: a connection that stops draining
/// it holds every payload pushed to it until the connection closes.
pub struct Presence {
    pub connection: u64,
    pub handle: UnboundedSender<String>,
}

pub struct PresenceRegistry {
    entries: HashMap<u128, Presence>,
}

impl View for PresenceRegistry {
    /// Each present user's current connection.
    type V = Map<u128, u64>;

    closed spec fn view(&self) -> Map<u128, u64> {
        self.entries@.map_values(|p: Presence| p.connection)
    }
}

/// The connection that a lookup of `user` finds in `m`.
pub open spec fn current_connection(m: Map<u128, u64>, user: u128) -> Option<u64> {
    if m.contains_key(user) {
        Some(m[user])
    } else {
        None
    }
}

impl PresenceRegistry {
    /// A registry with no one present.
    pub fn new() -> (r: PresenceRegistry)
        ensures
            r@ == Map::<u128, u64>::empty(),
    {
        let r = PresenceRegistry { entries: HashMap::new() };
        assert(r@ =~= Map::<u128, u64>::empty());
        r
    }

    /// Makes `connection` the one that receives `user`'s deliveries,
    /// replacing any earlier entry of that user.
    pub fn register(&mut self, user: u128, connection: u64, handle: UnboundedSender<String>)
        ensures
            final(self)@ == old(self)@.insert(user, connection),
    {
        self.entries.insert(user, Presence { connection: connection, handle: handle });
        assert(self@ =~= old(self)@.insert(user, connection));
    }

    /// Removes `user`'s entry; nothing happens where there is none.
    pub fn unregister(&mut self, user: u128)
        ensures
            final(self)@ == old(self)@.remove(user),
    {
        self.entries.remove(&user);
        assert(self@ =~= old(self)@.remove(user));
    }

    /// Removes `user`'s entry only while it still belongs to `connection`, so
    /// that a connection that was replaced cannot remove its successor.
    pub fn release(&mut self, user: u128, connection: u64)
        ensures
            final(self)@ == if current_connection(old(self)@, user) == Some(connection) {
                old(self)@.remove(user)
            } else {
                old(self)@
            },
    {
        let mine = match self.entries.get(&user) {
            Some(p) => p.connection == connection,
            None => false,
        };
        if mine {
            self.unregister(user);
        }
    }

    /// The current entry of `user`, if any.
    pub fn lookup(&self, user: u128) -> (r: Option<&Presence>)
        ensures
            match r {
                Some(p) => current_connection(self@, user) == Some(p.connection),
                None => current_connection(self@, user) is None,
            },
    {
        self.entries.get(&user)
    }

    /// Queues `payload` on `user`'s current delivery handle; the result is
    /// the connection it was handed to, or `None` where `user` has no entry.
    pub fn push(&self, user: u128, payload: String) -> (r: Option<u64>)
        ensures
            r == current_connection(self@, user),
    {
        match self.entries.get(&user) {
            Some(p) => {
                push_payload(&p.handle, payload);
                Some(p.connection)
            },
            None => None,
        }
    }
}

/// Queues `message` for `user_id` where that user is connected; the result
/// is the connection it was handed to.
pub fn send_to_user(registry: &PresenceRegistry, user_id: u128, message: String) -> (r: Option<u64>)
    ensures
        r == current_connection(registry@, user_id),
{
    registry.push(user_id, message)
}

/// A second registration for a user replaces the first: lookups find the new
/// connection and no longer the old one, and no other user's entry moves.
pub proof fn lemma_registration_supersedes(
    before: Map<u128, u64>,
    user: u128,
    old_connection: u64,
    new_connection: u64,
)
    requires
        current_connection(before, user) == Some(old_connection),
        old_connection != new_connection,
    ensures
        current_connection(before.insert(user, new_connection), user) == Some(new_connection),
        current_connection(before.insert(user, new_connection), user) != Some(old_connection),
        forall|other: u128|
            other != user ==> current_connection(before.insert(user, new_connection), other)
                == current_connection(before, other),
{
}

/// Unregistering a user without an entry changes nothing, and unregistering
/// one user never touches another's entry.
pub proof fn lemma_unregister_absent_is_noop(before: Map<u128, u64>, user: u128)
    ensures
        current_connection(before, user) is None ==> before.remove(user) == before,
        forall|other: u128|
            other != user ==> current_connection(before.remove(user), other) == current_connection(
                before,
                other,
            ),
{
    if current_connection(before, user) is None {
        assert(before.remove(user) =~= before);
    }
}

} // verus!
