//! One client connection: who is behind it, which rooms it has subscribed
//! to, and what each message that arrives on it leads to.
//!
//! A session is `Connecting` until the token of the handshake has been
//! judged, `Authenticated` once a user stands behind it, `Active` while its
//! two pumps run, and `Closed` for good after that. The inbound pump hands
//! every frame to `handle_frame`; the outbound pump calls `poll_outbound` on
//! each tick, writes what it returns to the peer and reports a failed write
//! with `record_write`.

use tokio::sync::broadcast::Receiver;
use tokio::sync::broadcast::Sender;
use vstd::prelude::*;
use crate::channel::{subscribe, try_receive, ReceiveError};
use crate::clock::{current_time, Timestamp};
use crate::codec::{decode_event, spec_decode, spec_encode};
use crate::dispatch::{
    embedded_user, outcome_view, relay_error, spec_calls_after, spec_impersonates, spec_outcome,
    spec_registry_after, spec_rooms_after, Outgoing, OutgoingView, RelayError,
};
use crate::event::{optional_text, EventView, WebSocketEvent};
use crate::ident::fresh_id;
use crate::voice_call::CallRecord;
use crate::voice_call_signaling::VoiceCallSignalingService;
use crate::websocket::{sender_given, WebSocketService};

verus! {

/// How long the outbound pump waits between two polls, in milliseconds.
pub const OUTBOUND_TICK_MILLIS: u64 = 100;

/// Where a session stands in its life.
#[derive(Clone, Copy, Debug, PartialEq, Eq, Structural)]
pub enum SessionState {
    Connecting,
    Authenticated,
    Active,
    Closed,
}

/// What the handshake of a connection brought.
#[derive(Clone, Copy, Debug, PartialEq, Eq, Structural)]
pub enum Credential {
    /// The handshake carried no token.
    Missing,
    /// The handshake carried a token that names no live session.
    Rejected,
    /// The handshake carried the token of this user.
    Accepted(u128),
}

/// One frame that arrived from the peer.
#[derive(Clone, Debug, PartialEq, Eq)]
pub enum InboundFrame {
    Text(String),
    Close,
    Other,
}

/// An envelope that was handed to the registry for its room, with the text
/// that was published, or `None` where the room has no broadcaster.
#[derive(Clone, Debug, PartialEq, Eq)]
pub struct Relayed {
    pub outgoing: Outgoing,
    pub text: Option<String>,
}

/// What became of a message, as far as the envelope that went out goes.
pub open spec fn relayed_view(outcome: Result<Option<Relayed>, RelayError>) -> Result<Option<OutgoingView>, RelayError> {
    match outcome {
        Ok(Some(relayed)) => Ok(Some(relayed.outgoing@)),
        Ok(None) => Ok(None),
        Err(e) => Err(e),
    }
}

/// An envelope that went out was published as the registry publishes: where
/// its room has a broadcaster, the text is the envelope as it is written;
/// where the room has none, there is no text.
pub open spec fn published_as(
    outcome: Result<Option<Relayed>, RelayError>,
    registry: Map<u128, Sender<String>>,
) -> bool {
    outcome matches Ok(Some(relayed)) ==> match relayed.text {
        Some(text) => registry.contains_key(relayed.outgoing.room_id) && text@ == spec_encode(
            relayed.outgoing.event@,
        ),
        None => !registry.contains_key(relayed.outgoing.room_id),
    }
}

/// What a poll of a receiver brought, with a message by its characters.
pub open spec fn polled_view(polled: Result<String, ReceiveError>) -> Result<Seq<char>, ReceiveError> {
    match polled {
        Ok(message) => Ok(message@),
        Err(e) => Err(e),
    }
}

/// What a poll of a receiver gives the peer: the message that was waiting.
/// A receiver that has nothing waiting, whose channel is closed, or that
/// has fallen behind and lost messages gives nothing, and no error is
/// raised for it.
pub open spec fn spec_forward(polled: Result<Seq<char>, ReceiveError>) -> Option<Seq<char>> {
    match polled {
        Ok(message) => Some(message),
        Err(_) => None,
    }
}

/// What a row of polls gives the peer: the messages that were waiting, in
/// the order of the polls.
pub open spec fn spec_forwarded(polled: Seq<Result<Seq<char>, ReceiveError>>) -> Seq<Seq<char>>
    decreases polled.len(),
{
    if polled.len() == 0 {
        Seq::<Seq<char>>::empty()
    } else {
        match spec_forward(polled.last()) {
            Some(message) => spec_forwarded(polled.drop_last()).push(message),
            None => spec_forwarded(polled.drop_last()),
        }
    }
}

/// The characters of each message of a list.
pub open spec fn message_texts(messages: Seq<String>) -> Seq<Seq<char>> {
    messages.map_values(|m: String| m@)
}

/// One poll for each of `count` subscriptions brought `polled`, and the
/// peer is given `texts` for it.
pub open spec fn polls_give(
    polled: Seq<Result<Seq<char>, ReceiveError>>,
    count: nat,
    texts: Seq<Seq<char>>,
) -> bool {
    polled.len() == count && texts == spec_forwarded(polled)
}

/// What a poll of a receiver gives the peer.
pub fn forward(polled: Result<String, ReceiveError>) -> (message: Option<String>)
    ensures
        optional_text(message) == spec_forward(polled_view(polled)),
{
    match polled {
        Ok(message) => Some(message),
        Err(_) => None,
    }
}

/// A row of polls gives no more messages than there were polls.
pub proof fn lemma_forwarded_is_bounded(polled: Seq<Result<Seq<char>, ReceiveError>>)
    ensures
        spec_forwarded(polled).len() <= polled.len(),
    decreases polled.len(),
{
    if polled.len() > 0 {
        lemma_forwarded_is_bounded(polled.drop_last());
    }
}

/// One subscription of a session: a room and the session's own receiver on
/// the room's channel.
pub struct Subscription {
    room_id: u128,
    receiver: Receiver<String>,
}

/// The rooms of a list of subscriptions.
spec fn rooms_of(subscriptions: Seq<Subscription>) -> Set<u128> {
    Set::new(
        |room: u128|
            exists|i: int| 0 <= i < subscriptions.len() && #[trigger] subscriptions[i].room_id == room,
    )
}

/// No room occurs twice in a list of subscriptions.
spec fn rooms_distinct(subscriptions: Seq<Subscription>) -> bool {
    forall|i: int, j: int|
        0 <= i < j < subscriptions.len() ==> #[trigger] subscriptions[i].room_id
            != #[trigger] subscriptions[j].room_id
}

/// The server's side of one connection.
pub struct ConnectionSession {
    state: SessionState,
    user_id: u128,
    subscriptions: Vec<Subscription>,
}

/// The state of a session, the table of calls and the registry before and
/// after an envelope was handled, as far as contracts speak of them.
pub ghost struct Scene {
    pub rooms: Set<u128>,
    pub calls: Map<u128, CallRecord>,
    pub registry: Map<u128, Sender<String>>,
}

/// An active session of `me` handled `event`, with `fresh_call_id` and `now`
/// at hand: the outcome, the calls and the rooms are those that the
/// envelope leads to.
pub open spec fn handled(
    me: u128,
    before: Scene,
    event: EventView,
    fresh_call_id: u128,
    now: Timestamp,
    outcome: Result<Option<OutgoingView>, RelayError>,
    after: Scene,
) -> bool {
    &&& outcome == spec_outcome(me, before.calls, event, fresh_call_id, now)
    &&& after.calls == spec_calls_after(me, before.calls, event, fresh_call_id, now)
    &&& after.rooms == spec_rooms_after(before.rooms, event)
    &&& spec_registry_after(before.registry, event, after.registry)
}

impl ConnectionSession {
    /// Where the session stands in its life.
    pub closed spec fn status(&self) -> SessionState {
        self.state
    }

    /// The user behind the session. It means something once the session has
    /// been authenticated.
    pub closed spec fn identity(&self) -> u128 {
        self.user_id
    }

    /// The rooms that the session is subscribed to.
    pub closed spec fn rooms(&self) -> Set<u128> {
        rooms_of(self.subscriptions@)
    }

    /// No room is subscribed to twice, and only an active session has
    /// subscriptions.
    pub closed spec fn wf(&self) -> bool {
        &&& rooms_distinct(self.subscriptions@)
        &&& self.state != SessionState::Active ==> self.subscriptions@.len() == 0
    }

    /// A session knows its rooms only while it is active.
    pub proof fn lemma_rooms_only_while_active(&self)
        requires
            self.wf(),
            self.status() != SessionState::Active,
        ensures
            self.rooms() == Set::<u128>::empty(),
    {
        assert(self.rooms() =~= Set::<u128>::empty());
    }

    /// The session of a connection that has just been made.
    pub fn new() -> (session: Self)
        ensures
            session.wf(),
            session.status() == SessionState::Connecting,
            session.rooms() == Set::<u128>::empty(),
    {
        let session = ConnectionSession {
            state: SessionState::Connecting,
            user_id: 0,
            subscriptions: Vec::new(),
        };
        assert(session.rooms() =~= Set::<u128>::empty());
        session
    }

    /// Where the session stands in its life.
    pub fn state(&self) -> (state: SessionState)
        ensures
            state == self.status(),
    {
        self.state
    }

    /// The user behind the session, once there is one.
    pub fn user_id(&self) -> (user: Option<u128>)
        ensures
            user == (if self.status() == SessionState::Authenticated || self.status()
                == SessionState::Active {
                Some(self.identity())
            } else {
                None
            }),
    {
        match self.state {
            SessionState::Authenticated | SessionState::Active => Some(self.user_id),
            _ => None,
        }
    }

    fn position(&self, room_id: u128) -> (found: Option<usize>)
        ensures
            match found {
                Some(i) => i < self.subscriptions@.len() && self.subscriptions@[i as int].room_id
                    == room_id,
                None => forall|j: int|
                    0 <= j < self.subscriptions@.len() ==> self.subscriptions@[j].room_id
                        != room_id,
            },
    {
        let mut i: usize = 0;
        while i < self.subscriptions.len()
            invariant
                i <= self.subscriptions@.len(),
                forall|j: int| 0 <= j < i ==> self.subscriptions@[j].room_id != room_id,
            decreases self.subscriptions@.len() - i,
        {
            if self.subscriptions[i].room_id == room_id {
                return Some(i);
            }
            i += 1;
        }
        None
    }

    /// Whether the session is subscribed to a room.
    pub fn is_subscribed(&self, room_id: u128) -> (subscribed: bool)
        ensures
            subscribed == self.rooms().contains(room_id),
    {
        self.position(room_id).is_some()
    }

    /// Takes the verdict on the handshake: a session that is connecting
    /// becomes authenticated for the user of an accepted token and is
    /// closed otherwise. A session that has left `Connecting` keeps its
    /// state and its user, and the attempt is refused.
    pub fn authenticate(&mut self, credential: Credential) -> (user: Result<u128, RelayError>)
        requires
            old(self).wf(),
        ensures
            final(self).wf(),
            final(self).rooms() == old(self).rooms(),
            match (old(self).status(), credential) {
                (SessionState::Connecting, Credential::Accepted(id)) => {
                    &&& user == Ok::<u128, RelayError>(id)
                    &&& final(self).status() == SessionState::Authenticated
                    &&& final(self).identity() == id
                },
                (SessionState::Connecting, _) => {
                    &&& user == Err::<u128, RelayError>(RelayError::Unauthorized)
                    &&& final(self).status() == SessionState::Closed
                },
                _ => {
                    &&& user == Err::<u128, RelayError>(RelayError::Unauthorized)
                    &&& final(self).status() == old(self).status()
                    &&& final(self).identity() == old(self).identity()
                },
            },
    {
        match self.state {
            SessionState::Connecting => match credential {
                Credential::Accepted(id) => {
                    self.state = SessionState::Authenticated;
                    self.user_id = id;
                    Ok(id)
                },
                _ => {
                    self.state = SessionState::Closed;
                    Err(RelayError::Unauthorized)
                },
            },
            _ => Err(RelayError::Unauthorized),
        }
    }

    /// Starts the pumps: an authenticated session becomes active. Any other
    /// session stays as it is.
    pub fn start(&mut self) -> (started: bool)
        requires
            old(self).wf(),
        ensures
            final(self).wf(),
            final(self).identity() == old(self).identity(),
            final(self).rooms() == old(self).rooms(),
            started == (old(self).status() == SessionState::Authenticated),
            final(self).status() == (if started {
                SessionState::Active
            } else {
                old(self).status()
            }),
    {
        match self.state {
            SessionState::Authenticated => {
                self.state = SessionState::Active;
                true
            },
            _ => false,
        }
    }

    /// Ends the session: it is closed and subscribed to nothing.
    pub fn close(&mut self)
        ensures
            final(self).wf(),
            final(self).status() == SessionState::Closed,
            final(self).identity() == old(self).identity(),
            final(self).rooms() == Set::<u128>::empty(),
    {
        self.state = SessionState::Closed;
        self.subscriptions = Vec::new();
        assert(self.rooms() =~= Set::<u128>::empty());
    }

    /// Takes note of a write to the peer: a write that failed ends the
    /// session. Returns whether the session is still active.
    pub fn record_write(&mut self, delivered: bool) -> (alive: bool)
        requires
            old(self).wf(),
        ensures
            final(self).wf(),
            final(self).identity() == old(self).identity(),
            delivered ==> final(self).status() == old(self).status() && final(self).rooms() == old(
                self,
            ).rooms(),
            !delivered ==> final(self).status() == SessionState::Closed && final(self).rooms()
                == Set::<u128>::empty(),
            alive == (final(self).status() == SessionState::Active),
    {
        if !delivered {
            self.close();
        }
        match self.state {
            SessionState::Active => true,
            _ => false,
        }
    }

    /// Subscribes the session to a room: the room's sender is asked for and
    /// a new receiver on its channel takes the place of any receiver that
    /// the session had for the room.
    fn join(&mut self, registry: &mut WebSocketService, room_id: u128)
        requires
            old(self).wf(),
            old(self).status() == SessionState::Active,
        ensures
            final(self).wf(),
            final(self).status() == old(self).status(),
            final(self).identity() == old(self).identity(),
            final(self).rooms() == old(self).rooms().insert(room_id),
            spec_registry_after(old(registry)@, EventView::JoinRoom { room_id }, final(registry)@),
    {
        let sender = registry.get_or_create_room_sender(room_id);
        assert(spec_registry_after(old(registry)@, EventView::JoinRoom { room_id }, registry@)) by {
            assert(sender_given(old(registry)@, room_id, sender, registry@));
        }
        let receiver = subscribe(&sender);
        let subscription = Subscription { room_id, receiver };
        match self.position(room_id) {
            Some(i) => {
                self.subscriptions.set(i, subscription);
                proof {
                    let before = old(self).subscriptions@;
                    let after = self.subscriptions@;
                    assert forall|room: u128| rooms_of(after).contains(room) == rooms_of(
                        before,
                    ).insert(room_id).contains(room) by {
                        if rooms_of(after).contains(room) {
                            let k = choose|k: int| 0 <= k < after.len() && after[k].room_id == room;
                            assert(before[k].room_id == room);
                        }
                        if rooms_of(before).insert(room_id).contains(room) {
                            if room == room_id {
                                assert(after[i as int].room_id == room);
                            } else {
                                let k = choose|k: int|
                                    0 <= k < before.len() && before[k].room_id == room;
                                assert(after[k].room_id == room);
                            }
                        }
                    }
                    assert(rooms_of(after) =~= rooms_of(before).insert(room_id));
                }
            },
            None => {
                self.subscriptions.push(subscription);
                proof {
                    let before = old(self).subscriptions@;
                    let after = self.subscriptions@;
                    assert forall|room: u128| rooms_of(after).contains(room) == rooms_of(
                        before,
                    ).insert(room_id).contains(room) by {
                        if rooms_of(after).contains(room) {
                            let k = choose|k: int| 0 <= k < after.len() && after[k].room_id == room;
                            if k < before.len() {
                                assert(before[k].room_id == room);
                            }
                        }
                        if rooms_of(before).insert(room_id).contains(room) {
                            if room == room_id {
                                assert(after[before.len() as int].room_id == room);
                            } else {
                                let k = choose|k: int|
                                    0 <= k < before.len() && before[k].room_id == room;
                                assert(after[k].room_id == room);
                            }
                        }
                    }
                    assert(rooms_of(after) =~= rooms_of(before).insert(room_id));
                }
            },
        }
    }

    /// Takes the session's subscription to a room away, where it has one.
    fn leave(&mut self, room_id: u128)
        requires
            old(self).wf(),
            old(self).status() == SessionState::Active,
        ensures
            final(self).wf(),
            final(self).status() == old(self).status(),
            final(self).identity() == old(self).identity(),
            final(self).rooms() == old(self).rooms().remove(room_id),
    {
        match self.position(room_id) {
            Some(i) => {
                let _ = self.subscriptions.remove(i);
                proof {
                    let before = old(self).subscriptions@;
                    let after = self.subscriptions@;
                    assert forall|room: u128| rooms_of(after).contains(room) == rooms_of(
                        before,
                    ).remove(room_id).contains(room) by {
                        if rooms_of(after).contains(room) {
                            let k = choose|k: int| 0 <= k < after.len() && after[k].room_id == room;
                            if k < i {
                                assert(before[k].room_id == room);
                            } else {
                                assert(before[k + 1].room_id == room);
                            }
                        }
                        if rooms_of(before).remove(room_id).contains(room) {
                            let k = choose|k: int|
                                0 <= k < before.len() && before[k].room_id == room;
                            if k < i {
                                assert(after[k].room_id == room);
                            } else {
                                assert(after[k - 1].room_id == room);
                            }
                        }
                    }
                    assert(rooms_of(after) =~= rooms_of(before).remove(room_id));
                }
            },
            None => {
                assert(self.rooms() =~= old(self).rooms().remove(room_id));
            },
        }
    }

    /// Handles one envelope that arrived from the peer, with the id that a
    /// new call would get and the present time at hand. What the envelope
    /// leads to is decided and carried out here, but for the publishing of
    /// the envelope that goes out, which is returned.
    pub fn handle_event_at(
        &mut self,
        registry: &mut WebSocketService,
        calls: &mut VoiceCallSignalingService,
        event: WebSocketEvent,
        fresh_call_id: u128,
        now: Timestamp,
    ) -> (outcome: Result<Option<Outgoing>, RelayError>)
        requires
            old(self).wf(),
            old(calls).wf(),
        ensures
            final(self).wf(),
            final(calls).wf(),
            final(self).status() == old(self).status(),
            final(self).identity() == old(self).identity(),
            old(self).status() == SessionState::Active ==> handled(
                old(self).identity(),
                scene(old(self).rooms(), old(calls)@, old(registry)@),
                event@,
                fresh_call_id,
                now,
                outcome_view(outcome),
                scene(final(self).rooms(), final(calls)@, final(registry)@),
            ),
            old(self).status() != SessionState::Active ==> {
                &&& outcome == Err::<Option<Outgoing>, RelayError>(RelayError::Unauthorized)
                &&& final(self).rooms() == old(self).rooms()
                &&& final(calls)@ == old(calls)@
                &&& final(registry)@ == old(registry)@
            },
    {
        match self.state {
            SessionState::Active => {},
            _ => {
                return Err(RelayError::Unauthorized);
            },
        }
        let me = self.user_id;
        match embedded_user(&event) {
            Some(user) => {
                if user != me {
                    return Err(RelayError::IdentityMismatch);
                }
            },
            None => {},
        }
        match event {
            WebSocketEvent::JoinRoom { room_id } => {
                self.join(registry, room_id);
                Ok(Some(Outgoing { room_id, event: WebSocketEvent::UserJoined { room_id, user_id: me } }))
            },
            WebSocketEvent::LeaveRoom { room_id } => {
                self.leave(room_id);
                Ok(Some(Outgoing { room_id, event: WebSocketEvent::UserLeft { room_id, user_id: me } }))
            },
            WebSocketEvent::LocationUpdate { room_id, .. }
            | WebSocketEvent::NewMessage { room_id, .. }
            | WebSocketEvent::Typing { room_id, .. }
            | WebSocketEvent::UserTyping { room_id, .. } => Ok(Some(Outgoing { room_id, event })),
            WebSocketEvent::VoiceCallInitiate { room_id, .. } => {
                match calls.initiate_call_at(room_id, me, fresh_call_id, now) {
                    Ok(record) => Ok(
                        Some(
                            Outgoing {
                                room_id: record.room_id,
                                event: WebSocketEvent::VoiceCallIncoming {
                                    call_id: record.id,
                                    room_id: record.room_id,
                                    initiator_id: me,
                                },
                            },
                        ),
                    ),
                    Err(e) => Err(relay_error(e)),
                }
            },
            WebSocketEvent::VoiceCallAccept { call_id, .. } => {
                match calls.accept_call(call_id) {
                    Ok(record) => Ok(
                        Some(
                            Outgoing {
                                room_id: record.room_id,
                                event: WebSocketEvent::VoiceCallAccepted {
                                    call_id: record.id,
                                    room_id: record.room_id,
                                    user_id: me,
                                },
                            },
                        ),
                    ),
                    Err(e) => Err(relay_error(e)),
                }
            },
            WebSocketEvent::VoiceCallReject { call_id, .. } => {
                match calls.get_call(call_id) {
                    Ok(record) => match calls.reject_call_at(call_id, now) {
                        Ok(()) => Ok(
                            Some(
                                Outgoing {
                                    room_id: record.room_id,
                                    event: WebSocketEvent::VoiceCallRejected {
                                        call_id: record.id,
                                        room_id: record.room_id,
                                        user_id: me,
                                    },
                                },
                            ),
                        ),
                        Err(e) => Err(relay_error(e)),
                    },
                    Err(e) => Err(relay_error(e)),
                }
            },
            WebSocketEvent::VoiceCallEnd { call_id, .. } => {
                match calls.get_call(call_id) {
                    Ok(record) => match calls.end_call_at(call_id, now) {
                        Ok(()) => Ok(
                            Some(
                                Outgoing {
                                    room_id: record.room_id,
                                    event: WebSocketEvent::VoiceCallEnded {
                                        call_id: record.id,
                                        room_id: record.room_id,
                                        user_id: me,
                                    },
                                },
                            ),
                        ),
                        Err(e) => Err(relay_error(e)),
                    },
                    Err(e) => Err(relay_error(e)),
                }
            },
            WebSocketEvent::VoiceOffer { call_id, .. }
            | WebSocketEvent::VoiceAnswer { call_id, .. }
            | WebSocketEvent::IceCandidate { call_id, .. } => {
                match calls.get_call(call_id) {
                    Ok(record) => Ok(Some(Outgoing { room_id: record.room_id, event })),
                    Err(e) => Err(relay_error(e)),
                }
            },
            WebSocketEvent::UserJoined { .. }
            | WebSocketEvent::UserLeft { .. }
            | WebSocketEvent::VoiceCallIncoming { .. }
            | WebSocketEvent::VoiceCallAccepted { .. }
            | WebSocketEvent::VoiceCallRejected { .. }
            | WebSocketEvent::VoiceCallEnded { .. } => Ok(None),
        }
    }

    /// Handles one envelope that arrived from the peer: decides what it
    /// leads to, carries that out and publishes the envelope that goes out,
    /// if there is one, to its room. A call that is placed gets a fresh
    /// random id, and the clock is read once; whatever these two came to, the
    /// outcome is that of `handle_event_at` with them.
    pub fn handle_event(
        &mut self,
        registry: &mut WebSocketService,
        calls: &mut VoiceCallSignalingService,
        event: WebSocketEvent,
    ) -> (outcome: Result<Option<Relayed>, RelayError>)
        requires
            old(self).wf(),
            old(calls).wf(),
        ensures
            final(self).wf(),
            final(calls).wf(),
            final(self).status() == old(self).status(),
            final(self).identity() == old(self).identity(),
            published_as(outcome, final(registry)@),
            old(self).status() == SessionState::Active ==> exists|fresh_call_id: u128, now: Timestamp|
                handled(
                    old(self).identity(),
                    scene(old(self).rooms(), old(calls)@, old(registry)@),
                    event@,
                    fresh_call_id,
                    now,
                    relayed_view(outcome),
                    scene(final(self).rooms(), final(calls)@, final(registry)@),
                ),
            old(self).status() != SessionState::Active ==> {
                &&& outcome == Err::<Option<Relayed>, RelayError>(RelayError::Unauthorized)
                &&& final(self).rooms() == old(self).rooms()
                &&& final(calls)@ == old(calls)@
                &&& final(registry)@ == old(registry)@
            },
    {
        let fresh_call_id = fresh_id();
        let now = current_time();
        let ghost view = event@;
        let decided = self.handle_event_at(registry, calls, event, fresh_call_id, now);
        let outcome = match decided {
            Ok(Some(outgoing)) => {
                let text = registry.broadcast_to_room(outgoing.room_id, &outgoing.event);
                Ok(Some(Relayed { outgoing, text }))
            },
            Ok(None) => Ok(None),
            Err(e) => Err(e),
        };
        proof {
            if old(self).status() == SessionState::Active {
                assert(handled(
                    old(self).identity(),
                    scene(old(self).rooms(), old(calls)@, old(registry)@),
                    view,
                    fresh_call_id,
                    now,
                    relayed_view(outcome),
                    scene(self.rooms(), calls@, registry@),
                ));
            }
        }
        outcome
    }

    /// Handles one text that arrived from the peer. A session that is not
    /// active refuses it. A text that is no envelope is dropped, and nothing
    /// changes. An envelope is handled as `handle_event` says.
    pub fn handle_text(
        &mut self,
        registry: &mut WebSocketService,
        calls: &mut VoiceCallSignalingService,
        text: &str,
    ) -> (outcome: Result<Option<Relayed>, RelayError>)
        requires
            old(self).wf(),
            old(calls).wf(),
        ensures
            final(self).wf(),
            final(calls).wf(),
            final(self).status() == old(self).status(),
            final(self).identity() == old(self).identity(),
            published_as(outcome, final(registry)@),
            old(self).status() == SessionState::Active ==> match spec_decode(text@) {
                Ok(event) => exists|fresh_call_id: u128, now: Timestamp|
                    handled(
                        old(self).identity(),
                        scene(old(self).rooms(), old(calls)@, old(registry)@),
                        event,
                        fresh_call_id,
                        now,
                        relayed_view(outcome),
                        scene(final(self).rooms(), final(calls)@, final(registry)@),
                    ),
                Err(e) => {
                    &&& outcome == Err::<Option<Relayed>, RelayError>(RelayError::DecodeError(e))
                    &&& final(self).rooms() == old(self).rooms()
                    &&& final(calls)@ == old(calls)@
                    &&& final(registry)@ == old(registry)@
                },
            },
            old(self).status() != SessionState::Active ==> {
                &&& outcome == Err::<Option<Relayed>, RelayError>(RelayError::Unauthorized)
                &&& final(self).rooms() == old(self).rooms()
                &&& final(calls)@ == old(calls)@
                &&& final(registry)@ == old(registry)@
            },
    {
        match self.state {
            SessionState::Active => {},
            _ => {
                return Err(RelayError::Unauthorized);
            },
        }
        match decode_event(text) {
            Ok(event) => self.handle_event(registry, calls, event),
            Err(e) => Err(RelayError::DecodeError(e)),
        }
    }

    /// Handles one frame that arrived from the peer: a text is handled as
    /// `handle_text` says, a close ends the session, anything else is passed
    /// over.
    pub fn handle_frame(
        &mut self,
        registry: &mut WebSocketService,
        calls: &mut VoiceCallSignalingService,
        frame: &InboundFrame,
    ) -> (outcome: Result<Option<Relayed>, RelayError>)
        requires
            old(self).wf(),
            old(calls).wf(),
        ensures
            final(self).wf(),
            final(calls).wf(),
            final(self).identity() == old(self).identity(),
            published_as(outcome, final(registry)@),
            match *frame {
                InboundFrame::Text(text) => {
                    &&& final(self).status() == old(self).status()
                    &&& old(self).status() == SessionState::Active ==> match spec_decode(text@) {
                        Ok(event) => exists|fresh_call_id: u128, now: Timestamp|
                            handled(
                                old(self).identity(),
                                scene(old(self).rooms(), old(calls)@, old(registry)@),
                                event,
                                fresh_call_id,
                                now,
                                relayed_view(outcome),
                                scene(final(self).rooms(), final(calls)@, final(registry)@),
                            ),
                        Err(e) => {
                            &&& outcome == Err::<Option<Relayed>, RelayError>(
                                RelayError::DecodeError(e),
                            )
                            &&& final(self).rooms() == old(self).rooms()
                            &&& final(calls)@ == old(calls)@
                            &&& final(registry)@ == old(registry)@
                        },
                    }
                    &&& old(self).status() != SessionState::Active ==> {
                        &&& outcome == Err::<Option<Relayed>, RelayError>(RelayError::Unauthorized)
                        &&& final(self).rooms() == old(self).rooms()
                        &&& final(calls)@ == old(calls)@
                        &&& final(registry)@ == old(registry)@
                    }
                },
                InboundFrame::Close => {
                    &&& outcome == Ok::<Option<Relayed>, RelayError>(None)
                    &&& final(self).status() == SessionState::Closed
                    &&& final(self).rooms() == Set::<u128>::empty()
                    &&& final(calls)@ == old(calls)@
                    &&& final(registry)@ == old(registry)@
                },
                InboundFrame::Other => {
                    &&& outcome == Ok::<Option<Relayed>, RelayError>(None)
                    &&& final(self).status() == old(self).status()
                    &&& final(self).rooms() == old(self).rooms()
                    &&& final(calls)@ == old(calls)@
                    &&& final(registry)@ == old(registry)@
                },
            },
    {
        match frame {
            InboundFrame::Text(text) => self.handle_text(registry, calls, text.as_str()),
            InboundFrame::Close => {
                self.close();
                Ok(None)
            },
            InboundFrame::Other => Ok(None),
        }
    }

    /// One tick of the outbound pump: every subscription is polled once,
    /// without waiting, in the order of the subscriptions, and the peer is
    /// given what `forward` makes of each poll: the messages that were
    /// waiting, in that order. What a poll brings depends on what was
    /// published to the room; whatever it was, the result is what the polls
    /// give. A session without subscriptions gives nothing. The session
    /// itself does not change.
    pub fn poll_outbound(&mut self) -> (messages: Vec<String>)
        requires
            old(self).wf(),
        ensures
            final(self).wf(),
            final(self).status() == old(self).status(),
            final(self).identity() == old(self).identity(),
            final(self).rooms() == old(self).rooms(),
            messages@.len() <= old(self).rooms().len(),
            exists|polled: Seq<Result<Seq<char>, ReceiveError>>|
                polls_give(polled, old(self).rooms().len(), message_texts(messages@)),
    {
        let mut messages: Vec<String> = Vec::new();
        let ghost mut polled: Seq<Result<Seq<char>, ReceiveError>> = Seq::empty();
        let mut i: usize = 0;
        proof {
            assert(message_texts(messages@) =~= spec_forwarded(polled));
        }
        while i < self.subscriptions.len()
            invariant
                i <= self.subscriptions@.len(),
                self.state == old(self).state,
                self.user_id == old(self).user_id,
                self.subscriptions@.len() == old(self).subscriptions@.len(),
                forall|j: int|
                    0 <= j < self.subscriptions@.len() ==> self.subscriptions@[j].room_id == old(
                        self,
                    ).subscriptions@[j].room_id,
                polled.len() == i,
                message_texts(messages@) == spec_forwarded(polled),
            decreases self.subscriptions@.len() - i,
        {
            let outcome = try_receive(&mut self.subscriptions[i].receiver);
            let ghost before = polled;
            let ghost texts = message_texts(messages@);
            proof {
                polled = before.push(polled_view(outcome));
                assert(polled.drop_last() =~= before);
            }
            match forward(outcome) {
                Some(message) => {
                    messages.push(message);
                    proof {
                        assert(message_texts(messages@) =~= texts.push(message@));
                    }
                },
                None => {},
            }
            i += 1;
        }
        proof {
            assert(rooms_of(self.subscriptions@) =~= rooms_of(old(self).subscriptions@));
            lemma_rooms_counted(old(self).subscriptions@);
            lemma_forwarded_is_bounded(polled);
            assert(polls_give(polled, old(self).rooms().len(), message_texts(messages@)));
        }
        messages
    }
}

/// The three things that handling an envelope can change, taken together.
pub open spec fn scene(
    rooms: Set<u128>,
    calls: Map<u128, CallRecord>,
    registry: Map<u128, Sender<String>>,
) -> Scene {
    Scene { rooms, calls, registry }
}

/// A list of subscriptions to distinct rooms has as many rooms as entries.
proof fn lemma_rooms_counted(subscriptions: Seq<Subscription>)
    requires
        rooms_distinct(subscriptions),
    ensures
        rooms_of(subscriptions).finite(),
        rooms_of(subscriptions).len() == subscriptions.len(),
    decreases subscriptions.len(),
{
    if subscriptions.len() == 0 {
        assert(rooms_of(subscriptions) =~= Set::<u128>::empty());
    } else {
        let rest = subscriptions.drop_last();
        let last = subscriptions.last().room_id;
        lemma_rooms_counted(rest);
        assert(!rooms_of(rest).contains(last)) by {
            if rooms_of(rest).contains(last) {
                let k = choose|k: int| 0 <= k < rest.len() && rest[k].room_id == last;
                assert(subscriptions[k].room_id == last);
            }
        }
        assert forall|room: u128| rooms_of(subscriptions).contains(room) == rooms_of(rest).insert(
            last,
        ).contains(room) by {
            if rooms_of(subscriptions).contains(room) {
                let k = choose|k: int|
                    0 <= k < subscriptions.len() && subscriptions[k].room_id == room;
                if k < rest.len() {
                    assert(rest[k].room_id == room);
                }
            }
            if rooms_of(rest).insert(last).contains(room) {
                if room == last {
                    assert(subscriptions[subscriptions.len() - 1].room_id == room);
                } else {
                    let k = choose|k: int| 0 <= k < rest.len() && rest[k].room_id == room;
                    assert(subscriptions[k].room_id == room);
                }
            }
        }
        assert(rooms_of(subscriptions) =~= rooms_of(rest).insert(last));
    }
}

/// An envelope in another user's name is never relayed: it is dropped as an
/// identity mismatch, and the rooms of the session, the calls and the
/// registry stay as they were.
pub proof fn lemma_impersonation_is_dropped(
    me: u128,
    before: Scene,
    event: EventView,
    fresh_call_id: u128,
    now: Timestamp,
    outcome: Result<Option<OutgoingView>, RelayError>,
    after: Scene,
)
    requires
        spec_impersonates(me, event),
        handled(me, before, event, fresh_call_id, now, outcome, after),
    ensures
        outcome == Err::<Option<OutgoingView>, RelayError>(RelayError::IdentityMismatch),
        after == before,
{
}

} // verus!
