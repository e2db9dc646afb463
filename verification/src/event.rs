//! The envelope: the one kind of message that travels over a connection.
//!
//! An envelope is one of a closed set of variants. On the wire each variant
//! is named by a tag, and carries exactly the fields declared here.

use vstd::prelude::*;

verus! {

/// One message of the relay protocol.
///
/// Identifiers are 128-bit numbers. `latitude` and `longitude` hold the
/// decimal text of a JSON number, as it was received; the relay passes them
/// on and never computes with them. The payloads of `VoiceOffer`,
/// `VoiceAnswer` and `IceCandidate` are opaque to the relay.
#[derive(Clone, Debug, PartialEq, Eq)]
pub enum WebSocketEvent {
    JoinRoom { room_id: u128 },
    LeaveRoom { room_id: u128 },
    LocationUpdate { room_id: u128, user_id: u128, latitude: String, longitude: String },
    NewMessage {
        room_id: u128,
        message_id: u128,
        user_id: u128,
        text: Option<String>,
        image_url: Option<String>,
        message_type: String,
    },
    UserJoined { room_id: u128, user_id: u128 },
    UserLeft { room_id: u128, user_id: u128 },
    Typing { room_id: u128, user_id: u128 },
    UserTyping { room_id: u128, user_id: u128 },
    VoiceCallInitiate { room_id: u128, initiator_id: u128 },
    VoiceCallAccept { call_id: u128, user_id: u128 },
    VoiceCallReject { call_id: u128, user_id: u128 },
    VoiceCallEnd { call_id: u128, user_id: u128 },
    VoiceOffer { call_id: u128, offer: String },
    VoiceAnswer { call_id: u128, answer: String },
    IceCandidate { call_id: u128, candidate: String },
    VoiceCallIncoming { call_id: u128, room_id: u128, initiator_id: u128 },
    VoiceCallAccepted { call_id: u128, room_id: u128, user_id: u128 },
    VoiceCallRejected { call_id: u128, room_id: u128, user_id: u128 },
    VoiceCallEnded { call_id: u128, room_id: u128, user_id: u128 },
}

/// An envelope as contracts see it: the same variants, with every string as
/// its sequence of characters.
pub ghost enum EventView {
    JoinRoom { room_id: u128 },
    LeaveRoom { room_id: u128 },
    LocationUpdate { room_id: u128, user_id: u128, latitude: Seq<char>, longitude: Seq<char> },
    NewMessage {
        room_id: u128,
        message_id: u128,
        user_id: u128,
        text: Option<Seq<char>>,
        image_url: Option<Seq<char>>,
        message_type: Seq<char>,
    },
    UserJoined { room_id: u128, user_id: u128 },
    UserLeft { room_id: u128, user_id: u128 },
    Typing { room_id: u128, user_id: u128 },
    UserTyping { room_id: u128, user_id: u128 },
    VoiceCallInitiate { room_id: u128, initiator_id: u128 },
    VoiceCallAccept { call_id: u128, user_id: u128 },
    VoiceCallReject { call_id: u128, user_id: u128 },
    VoiceCallEnd { call_id: u128, user_id: u128 },
    VoiceOffer { call_id: u128, offer: Seq<char> },
    VoiceAnswer { call_id: u128, answer: Seq<char> },
    IceCandidate { call_id: u128, candidate: Seq<char> },
    VoiceCallIncoming { call_id: u128, room_id: u128, initiator_id: u128 },
    VoiceCallAccepted { call_id: u128, room_id: u128, user_id: u128 },
    VoiceCallRejected { call_id: u128, room_id: u128, user_id: u128 },
    VoiceCallEnded { call_id: u128, room_id: u128, user_id: u128 },
}

/// The characters of an optional string.
pub open spec fn optional_text(text: Option<String>) -> Option<Seq<char>> {
    match text {
        Some(t) => Some(t@),
        None => None,
    }
}

impl View for WebSocketEvent {
    type V = EventView;

    open spec fn view(&self) -> EventView {
        match *self {
            WebSocketEvent::JoinRoom { room_id } => EventView::JoinRoom { room_id },
            WebSocketEvent::LeaveRoom { room_id } => EventView::LeaveRoom { room_id },
            WebSocketEvent::LocationUpdate { room_id, user_id, latitude, longitude } => EventView::LocationUpdate {
                room_id,
                user_id,
                latitude: latitude@,
                longitude: longitude@,
            },
            WebSocketEvent::NewMessage { room_id, message_id, user_id, text, image_url, message_type } => EventView::NewMessage {
                room_id,
                message_id,
                user_id,
                text: optional_text(text),
                image_url: optional_text(image_url),
                message_type: message_type@,
            },
            WebSocketEvent::UserJoined { room_id, user_id } => EventView::UserJoined { room_id, user_id },
            WebSocketEvent::UserLeft { room_id, user_id } => EventView::UserLeft { room_id, user_id },
            WebSocketEvent::Typing { room_id, user_id } => EventView::Typing { room_id, user_id },
            WebSocketEvent::UserTyping { room_id, user_id } => EventView::UserTyping { room_id, user_id },
            WebSocketEvent::VoiceCallInitiate { room_id, initiator_id } => EventView::VoiceCallInitiate {
                room_id,
                initiator_id,
            },
            WebSocketEvent::VoiceCallAccept { call_id, user_id } => EventView::VoiceCallAccept { call_id, user_id },
            WebSocketEvent::VoiceCallReject { call_id, user_id } => EventView::VoiceCallReject { call_id, user_id },
            WebSocketEvent::VoiceCallEnd { call_id, user_id } => EventView::VoiceCallEnd { call_id, user_id },
            WebSocketEvent::VoiceOffer { call_id, offer } => EventView::VoiceOffer { call_id, offer: offer@ },
            WebSocketEvent::VoiceAnswer { call_id, answer } => EventView::VoiceAnswer { call_id, answer: answer@ },
            WebSocketEvent::IceCandidate { call_id, candidate } => EventView::IceCandidate {
                call_id,
                candidate: candidate@,
            },
            WebSocketEvent::VoiceCallIncoming { call_id, room_id, initiator_id } => EventView::VoiceCallIncoming {
                call_id,
                room_id,
                initiator_id,
            },
            WebSocketEvent::VoiceCallAccepted { call_id, room_id, user_id } => EventView::VoiceCallAccepted {
                call_id,
                room_id,
                user_id,
            },
            WebSocketEvent::VoiceCallRejected { call_id, room_id, user_id } => EventView::VoiceCallRejected {
                call_id,
                room_id,
                user_id,
            },
            WebSocketEvent::VoiceCallEnded { call_id, room_id, user_id } => EventView::VoiceCallEnded {
                call_id,
                room_id,
                user_id,
            },
        }
    }
}

} // verus!
