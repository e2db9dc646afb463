//! The registry of room broadcasters: for each room that someone has
//! subscribed to, the sender of the room's channel.
//!
//! A room gets its broadcaster on the first request for it and keeps it
//! until the room is removed. The registry is one plain value; whoever
//! shares it between connections puts it behind one lock, and every
//! operation that changes it runs under that lock from start to end.

use std::collections::HashMap;
use tokio::sync::broadcast::Sender;
use vstd::prelude::*;
use crate::channel::{clone_sender, open_channel, publish};
use crate::codec::{encode_event, spec_encode};
use crate::event::WebSocketEvent;

verus! {

/// How many messages a room's channel is asked to retain for a receiver
/// that has fallen behind.
pub const ROOM_CHANNEL_CAPACITY: usize = 100;

/// What a request for a room's sender does: a room that has a broadcaster
/// keeps it and a handle on it is given out; a room that has none gets the
/// channel whose handle is given out. No other room is touched.
pub open spec fn sender_given(
    before: Map<u128, Sender<String>>,
    room_id: u128,
    sender: Sender<String>,
    after: Map<u128, Sender<String>>,
) -> bool {
    if before.contains_key(room_id) {
        after == before && sender == before[room_id]
    } else {
        after == before.insert(room_id, sender)
    }
}

/// Maps each room to the sender of its channel.
pub struct WebSocketService {
    room_broadcasters: HashMap<u128, Sender<String>>,
}

impl View for WebSocketService {
    type V = Map<u128, Sender<String>>;

    closed spec fn view(&self) -> Map<u128, Sender<String>> {
        self.room_broadcasters@
    }
}

impl WebSocketService {
    /// A registry without rooms.
    pub fn new() -> (service: Self)
        ensures
            service@ == Map::<u128, Sender<String>>::empty(),
    {
        WebSocketService { room_broadcasters: HashMap::new() }
    }

    /// The sender of a room's channel, made on the spot where the room has
    /// none.
    pub fn get_or_create_room_sender(&mut self, room_id: u128) -> (sender: Sender<String>)
        ensures
            sender_given(old(self)@, room_id, sender, final(self)@),
    {
        broadcast use vstd::std_specs::hash::group_hash_axioms;
        let found = match self.room_broadcasters.get(&room_id) {
            Some(sender) => Some(clone_sender(sender)),
            None => None,
        };
        match found {
            Some(sender) => sender,
            None => {
                let sender = open_channel(ROOM_CHANNEL_CAPACITY);
                let kept = clone_sender(&sender);
                self.room_broadcasters.insert(room_id, kept);
                sender
            },
        }
    }

    /// Whether a room has a broadcaster.
    pub fn has_room(&self, room_id: u128) -> (known: bool)
        ensures
            known == self@.contains_key(room_id),
    {
        broadcast use vstd::std_specs::hash::group_hash_axioms;
        self.room_broadcasters.contains_key(&room_id)
    }

    /// Publishes an envelope to a room: where the room has a broadcaster,
    /// the envelope is written as a text and that text is handed to the
    /// room's sender, once; where it has none, nothing happens. The text
    /// that was handed over is returned.
    pub fn broadcast_to_room(&self, room_id: u128, event: &WebSocketEvent) -> (published: Option<String>)
        ensures
            match published {
                Some(text) => self@.contains_key(room_id) && text@ == spec_encode(event@),
                None => !self@.contains_key(room_id),
            },
    {
        broadcast use vstd::std_specs::hash::group_hash_axioms;
        match self.room_broadcasters.get(&room_id) {
            Some(sender) => {
                let text = encode_event(event);
                let _ = publish(sender, text.clone());
                Some(text)
            },
            None => None,
        }
    }

    /// Takes a room's broadcaster out of the registry. Receivers that hold
    /// on to its channel keep it; the next request for the room makes a new
    /// channel.
    pub fn remove_room(&mut self, room_id: u128)
        ensures
            final(self)@ == old(self)@.remove(room_id),
    {
        broadcast use vstd::std_specs::hash::group_hash_axioms;
        self.room_broadcasters.remove(&room_id);
    }
}

/// However often the sender of a room is asked for, the room has one
/// channel: a second request returns a handle on the channel of the first
/// and leaves the registry as the first left it.
pub proof fn lemma_one_channel_per_room(
    before: Map<u128, Sender<String>>,
    room_id: u128,
    first: Sender<String>,
    between: Map<u128, Sender<String>>,
    second: Sender<String>,
    after: Map<u128, Sender<String>>,
)
    requires
        sender_given(before, room_id, first, between),
        sender_given(between, room_id, second, after),
    ensures
        second == first,
        after == between,
        between.contains_key(room_id),
        between[room_id] == first,
        between.dom() == before.dom().insert(room_id),
{
    assert(between.dom() =~= before.dom().insert(room_id));
}

/// Any number of requests for the sender of one room, one after the other:
/// `senders[i]` is what request `i` returned, and it took the registry from
/// `states[i]` to `states[i + 1]`.
pub open spec fn requests_in_a_row(
    states: Seq<Map<u128, Sender<String>>>,
    senders: Seq<Sender<String>>,
    room_id: u128,
) -> bool {
    &&& states.len() == senders.len() + 1
    &&& forall|i: int|
        0 <= i < senders.len() ==> #[trigger] sender_given(
            states[i],
            room_id,
            senders[i],
            states[i + 1],
        )
}

/// However many requests for the sender of one room come in a row, they
/// all return handles on one channel, the one that the registry holds for
/// the room from the first request on.
pub proof fn lemma_one_channel_for_all_requests(
    states: Seq<Map<u128, Sender<String>>>,
    senders: Seq<Sender<String>>,
    room_id: u128,
    i: int,
)
    requires
        requests_in_a_row(states, senders, room_id),
        0 <= i < senders.len(),
    ensures
        senders[i] == senders[0],
        states[i + 1] == states[1],
        states[i + 1].contains_key(room_id),
        states[i + 1][room_id] == senders[0],
    decreases i,
{
    assert(sender_given(states[i], room_id, senders[i], states[i + 1]));
    if i > 0 {
        lemma_one_channel_for_all_requests(states, senders, room_id, i - 1);
        assert(sender_given(states[i - 1], room_id, senders[i - 1], states[i]));
        lemma_one_channel_per_room(
            states[i - 1],
            room_id,
            senders[i - 1],
            states[i],
            senders[i],
            states[i + 1],
        );
    }
}

/// After a room was removed, the next request for its sender registers the
/// channel that it hands out, whatever channel the room had before.
pub proof fn lemma_removed_room_starts_anew(
    before: Map<u128, Sender<String>>,
    room_id: u128,
    sender: Sender<String>,
    after: Map<u128, Sender<String>>,
)
    requires
        sender_given(before.remove(room_id), room_id, sender, after),
    ensures
        after == before.insert(room_id, sender),
{
    assert(before.remove(room_id).insert(room_id, sender) =~= before.insert(room_id, sender));
}

} // verus!
