//! What an envelope that arrives on a connection leads to.
//!
//! The rules are these. An envelope that speaks in the name of another user
//! than the one behind the session is dropped. Joining and leaving a room
//! change the session's subscriptions and are announced to the room.
//! Locations, messages and typing notices go to their room as they came.
//! The call envelopes take a step of the signaling; a step that goes well is
//! announced to the room that the call's record names, a step that is
//! refused announces nothing. The negotiation payloads of a call go to the
//! call's room untouched. The envelopes that only the server sends lead to
//! nothing.

use tokio::sync::broadcast::Sender;
use vstd::prelude::*;
use crate::clock::Timestamp;
use crate::event::{EventView, WebSocketEvent};
use crate::parts::DecodeError;
use crate::voice_call::{CallRecord, SignalingError};
use crate::voice_call_signaling::{
    filed, history_kept, lemma_accept_keeps_table_ok, lemma_end_keeps_table_ok,
    lemma_initiate_keeps_table_ok, open_call_in, spec_accept, spec_end, spec_get, spec_initiate,
    table_ok,
};
use crate::websocket::sender_given;

verus! {

/// Why a message was dropped or a connection refused.
#[derive(Clone, Copy, Debug, PartialEq, Eq, Structural)]
pub enum RelayError {
    /// No user stands behind the connection, or the session is not active.
    Unauthorized,
    /// The message is no envelope.
    DecodeError(DecodeError),
    /// The envelope names another user than the one behind the session.
    IdentityMismatch,
    /// The envelope names a call that does not exist.
    NotFound,
    /// The call's status does not allow what the envelope asks for.
    InvalidTransition,
}

/// An envelope on its way to the subscribers of a room.
#[derive(Clone, Debug, PartialEq, Eq)]
pub struct Outgoing {
    pub room_id: u128,
    pub event: WebSocketEvent,
}

/// An outgoing envelope as contracts see it.
pub ghost struct OutgoingView {
    pub room_id: u128,
    pub event: EventView,
}

impl View for Outgoing {
    type V = OutgoingView;

    open spec fn view(&self) -> OutgoingView {
        OutgoingView { room_id: self.room_id, event: self.event@ }
    }
}

/// What became of a message, with the envelope that went out by its view.
pub open spec fn outcome_view(outcome: Result<Option<Outgoing>, RelayError>) -> Result<Option<OutgoingView>, RelayError> {
    match outcome {
        Ok(Some(outgoing)) => Ok(Some(outgoing@)),
        Ok(None) => Ok(None),
        Err(e) => Err(e),
    }
}

/// The error of the relay that stands for an error of the signaling.
pub open spec fn spec_relay_error(e: SignalingError) -> RelayError {
    match e {
        SignalingError::NotFound => RelayError::NotFound,
        SignalingError::InvalidTransition => RelayError::InvalidTransition,
    }
}

/// The user in whose name an envelope speaks, where it names one.
pub open spec fn spec_embedded_user(event: EventView) -> Option<u128> {
    match event {
        EventView::LocationUpdate { user_id, .. }
        | EventView::NewMessage { user_id, .. }
        | EventView::UserJoined { user_id, .. }
        | EventView::UserLeft { user_id, .. }
        | EventView::Typing { user_id, .. }
        | EventView::UserTyping { user_id, .. }
        | EventView::VoiceCallAccept { user_id, .. }
        | EventView::VoiceCallReject { user_id, .. }
        | EventView::VoiceCallEnd { user_id, .. }
        | EventView::VoiceCallAccepted { user_id, .. }
        | EventView::VoiceCallRejected { user_id, .. }
        | EventView::VoiceCallEnded { user_id, .. } => Some(user_id),
        EventView::VoiceCallInitiate { initiator_id, .. }
        | EventView::VoiceCallIncoming { initiator_id, .. } => Some(initiator_id),
        EventView::JoinRoom { .. }
        | EventView::LeaveRoom { .. }
        | EventView::VoiceOffer { .. }
        | EventView::VoiceAnswer { .. }
        | EventView::IceCandidate { .. } => None,
    }
}

/// An envelope speaks in the name of another user than `me`.
pub open spec fn spec_impersonates(me: u128, event: EventView) -> bool {
    spec_embedded_user(event) matches Some(user) && user != me
}

/// What an envelope asks of the signaling, and what comes of it: placing a
/// call, accepting one, ending one (declining is ending), or, for the
/// negotiation payloads, looking the call up.
pub open spec fn spec_call_step(
    me: u128,
    calls: Map<u128, CallRecord>,
    event: EventView,
    fresh_call_id: u128,
    now: Timestamp,
) -> Option<Result<CallRecord, SignalingError>> {
    match event {
        EventView::VoiceCallInitiate { room_id, .. } => Some(
            spec_initiate(calls, room_id, me, fresh_call_id, now),
        ),
        EventView::VoiceCallAccept { call_id, .. } => Some(spec_accept(calls, call_id)),
        EventView::VoiceCallReject { call_id, .. } | EventView::VoiceCallEnd { call_id, .. } => Some(
            spec_end(calls, call_id, now),
        ),
        EventView::VoiceOffer { call_id, .. }
        | EventView::VoiceAnswer { call_id, .. }
        | EventView::IceCandidate { call_id, .. } => Some(spec_get(calls, call_id)),
        _ => None,
    }
}

/// What goes out after a step of the signaling went well. It goes to the
/// room that the call's record names, whatever the envelope said; for the
/// negotiation payloads it is the envelope as it came.
pub open spec fn spec_announcement(me: u128, event: EventView, record: CallRecord) -> OutgoingView {
    let room_id = record.room_id;
    let call_id = record.id;
    OutgoingView {
        room_id,
        event: match event {
            EventView::VoiceCallInitiate { .. } => EventView::VoiceCallIncoming {
                call_id,
                room_id,
                initiator_id: me,
            },
            EventView::VoiceCallAccept { .. } => EventView::VoiceCallAccepted { call_id, room_id, user_id: me },
            EventView::VoiceCallReject { .. } => EventView::VoiceCallRejected { call_id, room_id, user_id: me },
            EventView::VoiceCallEnd { .. } => EventView::VoiceCallEnded { call_id, room_id, user_id: me },
            _ => event,
        },
    }
}

/// What an envelope that arrived on the session of `me` leads to: an
/// envelope that goes out to a room, nothing, or the reason why it was
/// dropped.
///
/// An envelope in another user's name is dropped. Joining and leaving a room
/// are announced to the room. Locations, messages and typing notices go to
/// their room as they came. The call envelopes take a step of the signaling
/// and announce it, or are dropped with the signaling's refusal. The
/// envelopes that only the server sends lead to nothing.
pub open spec fn spec_outcome(
    me: u128,
    calls: Map<u128, CallRecord>,
    event: EventView,
    fresh_call_id: u128,
    now: Timestamp,
) -> Result<Option<OutgoingView>, RelayError> {
    if spec_impersonates(me, event) {
        Err(RelayError::IdentityMismatch)
    } else {
        match event {
            EventView::JoinRoom { room_id } => Ok(
                Some(OutgoingView { room_id, event: EventView::UserJoined { room_id, user_id: me } }),
            ),
            EventView::LeaveRoom { room_id } => Ok(
                Some(OutgoingView { room_id, event: EventView::UserLeft { room_id, user_id: me } }),
            ),
            EventView::LocationUpdate { room_id, .. }
            | EventView::NewMessage { room_id, .. }
            | EventView::Typing { room_id, .. }
            | EventView::UserTyping { room_id, .. } => Ok(Some(OutgoingView { room_id, event })),
            _ => match spec_call_step(me, calls, event, fresh_call_id, now) {
                Some(Ok(record)) => Ok(Some(spec_announcement(me, event, record))),
                Some(Err(e)) => Err(spec_relay_error(e)),
                None => Ok(None),
            },
        }
    }
}

/// The table of calls after an envelope was handled: a step that placed,
/// accepted or ended a call files its record, everything else leaves the
/// table alone.
pub open spec fn spec_calls_after(
    me: u128,
    calls: Map<u128, CallRecord>,
    event: EventView,
    fresh_call_id: u128,
    now: Timestamp,
) -> Map<u128, CallRecord> {
    if spec_impersonates(me, event) {
        calls
    } else {
        match event {
            EventView::VoiceCallInitiate { .. }
            | EventView::VoiceCallAccept { .. }
            | EventView::VoiceCallReject { .. }
            | EventView::VoiceCallEnd { .. } => filed(
                calls,
                spec_call_step(me, calls, event, fresh_call_id, now)->Some_0,
            ),
            _ => calls,
        }
    }
}

/// The rooms of a session after an envelope was handled: joining adds the
/// room, leaving takes it away, nothing else changes them.
pub open spec fn spec_rooms_after(rooms: Set<u128>, event: EventView) -> Set<u128> {
    match event {
        EventView::JoinRoom { room_id } => rooms.insert(room_id),
        EventView::LeaveRoom { room_id } => rooms.remove(room_id),
        _ => rooms,
    }
}

/// The registry after an envelope was handled: joining a room asks for the
/// room's sender, so that the room has a broadcaster from then on and keeps
/// the one it had; nothing else touches the registry.
pub open spec fn spec_registry_after(
    before: Map<u128, Sender<String>>,
    event: EventView,
    after: Map<u128, Sender<String>>,
) -> bool {
    match event {
        EventView::JoinRoom { room_id } => sender_given(before, room_id, after[room_id], after),
        _ => after == before,
    }
}

/// What an envelope that went out says of the table of calls: that a call
/// was created, or that a call was changed.
#[derive(Clone, Copy, Debug, PartialEq, Eq, Structural)]
pub enum CallChange {
    Created(u128),
    Updated(u128),
}

/// The change to the table of calls that an announcement speaks of: an
/// incoming call is new, an accepted, declined or ended call has changed,
/// and no other envelope speaks of a change.
pub open spec fn spec_call_change(event: EventView) -> Option<CallChange> {
    match event {
        EventView::VoiceCallIncoming { call_id, .. } => Some(CallChange::Created(call_id)),
        EventView::VoiceCallAccepted { call_id, .. }
        | EventView::VoiceCallRejected { call_id, .. }
        | EventView::VoiceCallEnded { call_id, .. } => Some(CallChange::Updated(call_id)),
        _ => None,
    }
}

/// The change to the table of calls that an announcement speaks of.
pub fn call_change(event: &WebSocketEvent) -> (change: Option<CallChange>)
    ensures
        change == spec_call_change(event@),
{
    match event {
        WebSocketEvent::VoiceCallIncoming { call_id, .. } => Some(CallChange::Created(*call_id)),
        WebSocketEvent::VoiceCallAccepted { call_id, .. }
        | WebSocketEvent::VoiceCallRejected { call_id, .. }
        | WebSocketEvent::VoiceCallEnded { call_id, .. } => Some(CallChange::Updated(*call_id)),
        _ => None,
    }
}

/// The error of the relay that stands for an error of the signaling.
pub fn relay_error(e: SignalingError) -> (error: RelayError)
    ensures
        error == spec_relay_error(e),
{
    match e {
        SignalingError::NotFound => RelayError::NotFound,
        SignalingError::InvalidTransition => RelayError::InvalidTransition,
    }
}

/// The user in whose name an envelope speaks, where it names one.
pub fn embedded_user(event: &WebSocketEvent) -> (user: Option<u128>)
    ensures
        user == spec_embedded_user(event@),
{
    match event {
        WebSocketEvent::LocationUpdate { user_id, .. }
        | WebSocketEvent::NewMessage { user_id, .. }
        | WebSocketEvent::UserJoined { user_id, .. }
        | WebSocketEvent::UserLeft { user_id, .. }
        | WebSocketEvent::Typing { user_id, .. }
        | WebSocketEvent::UserTyping { user_id, .. }
        | WebSocketEvent::VoiceCallAccept { user_id, .. }
        | WebSocketEvent::VoiceCallReject { user_id, .. }
        | WebSocketEvent::VoiceCallEnd { user_id, .. }
        | WebSocketEvent::VoiceCallAccepted { user_id, .. }
        | WebSocketEvent::VoiceCallRejected { user_id, .. }
        | WebSocketEvent::VoiceCallEnded { user_id, .. } => Some(*user_id),
        WebSocketEvent::VoiceCallInitiate { initiator_id, .. }
        | WebSocketEvent::VoiceCallIncoming { initiator_id, .. } => Some(*initiator_id),
        WebSocketEvent::JoinRoom { .. }
        | WebSocketEvent::LeaveRoom { .. }
        | WebSocketEvent::VoiceOffer { .. }
        | WebSocketEvent::VoiceAnswer { .. }
        | WebSocketEvent::IceCandidate { .. } => None,
    }
}

/// Whatever goes out of a session speaks for the user behind it: an envelope
/// that goes out and names a user names that user.
pub proof fn lemma_outgoing_speaks_for_session(
    me: u128,
    calls: Map<u128, CallRecord>,
    event: EventView,
    fresh_call_id: u128,
    now: Timestamp,
)
    ensures
        spec_outcome(me, calls, event, fresh_call_id, now) matches Ok(Some(outgoing))
            ==> !spec_impersonates(me, outgoing.event),
{
}

/// A message that a user sends in their own name goes out to its room as it
/// came.
pub proof fn lemma_own_message_goes_out_as_it_came(
    me: u128,
    calls: Map<u128, CallRecord>,
    event: EventView,
    fresh_call_id: u128,
    now: Timestamp,
)
    requires
        event is NewMessage,
        event->NewMessage_user_id == me,
    ensures
        spec_outcome(me, calls, event, fresh_call_id, now) == Ok::<Option<OutgoingView>, RelayError>(
            Some(OutgoingView { room_id: event->NewMessage_room_id, event }),
        ),
{
}

/// A call that a user places in a room without an open call, under an id
/// that is not taken, is announced to that room as incoming, with the id of
/// the call and the user as its initiator.
pub proof fn lemma_placed_call_is_announced(
    me: u128,
    calls: Map<u128, CallRecord>,
    room_id: u128,
    fresh_call_id: u128,
    now: Timestamp,
)
    requires
        !calls.contains_key(fresh_call_id),
        open_call_in(calls, room_id) is None,
    ensures
        spec_outcome(
            me,
            calls,
            EventView::VoiceCallInitiate { room_id, initiator_id: me },
            fresh_call_id,
            now,
        ) == Ok::<Option<OutgoingView>, RelayError>(
            Some(
                OutgoingView {
                    room_id,
                    event: EventView::VoiceCallIncoming {
                        call_id: fresh_call_id,
                        room_id,
                        initiator_id: me,
                    },
                },
            ),
        ),
{
}

/// What the signaling announces goes to the room that the call's record
/// names, and a step that the signaling refuses announces nothing.
pub proof fn lemma_announcement_goes_to_the_calls_room(
    me: u128,
    calls: Map<u128, CallRecord>,
    event: EventView,
    fresh_call_id: u128,
    now: Timestamp,
)
    requires
        !spec_impersonates(me, event),
        spec_call_step(me, calls, event, fresh_call_id, now) is Some,
    ensures
        match spec_call_step(me, calls, event, fresh_call_id, now)->Some_0 {
            Ok(record) => spec_outcome(me, calls, event, fresh_call_id, now) matches Ok(Some(outgoing))
                && outgoing.room_id == record.room_id,
            Err(e) => spec_outcome(me, calls, event, fresh_call_id, now) == Err::<
                Option<OutgoingView>,
                RelayError,
            >(spec_relay_error(e)),
        },
{
}

/// Handling an envelope keeps the rules of the table of calls.
pub proof fn lemma_handling_keeps_table_ok(
    me: u128,
    calls: Map<u128, CallRecord>,
    event: EventView,
    fresh_call_id: u128,
    now: Timestamp,
)
    requires
        table_ok(calls),
    ensures
        table_ok(spec_calls_after(me, calls, event, fresh_call_id, now)),
        history_kept(
            calls,
            spec_calls_after(me, calls, event, fresh_call_id, now),
        ),
{
    if !spec_impersonates(me, event) {
        match event {
            EventView::VoiceCallInitiate { room_id, .. } => {
                lemma_initiate_keeps_table_ok(
                    calls,
                    room_id,
                    me,
                    fresh_call_id,
                    now,
                );
            },
            EventView::VoiceCallAccept { call_id, .. } => {
                lemma_accept_keeps_table_ok(calls, call_id);
            },
            EventView::VoiceCallReject { call_id, .. } | EventView::VoiceCallEnd { call_id, .. } => {
                lemma_end_keeps_table_ok(calls, call_id, now);
            },
            _ => {},
        }
    }
}

} // verus!
