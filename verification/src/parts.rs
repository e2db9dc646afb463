//! The fields of an envelope, laid out by name. This is the form in which
//! an envelope travels between the wire and the closed set of variants: the
//! tag says which variant is meant, and each variant takes the fields it
//! declares and no others.

use vstd::prelude::*;
use crate::event::{optional_text, EventView, WebSocketEvent};
use crate::text::same_text;

verus! {

/// Why a text was not taken for an envelope.
#[derive(Clone, Copy, Debug, PartialEq, Eq, Structural)]
pub enum DecodeError {
    /// The text is not a JSON object.
    Malformed,
    /// The object has no `type` that is a string, or its `type` names no
    /// variant.
    UnknownType,
    /// A field that the variant declares is missing or has the wrong type.
    InvalidField,
}

/// What a message holds under one key.
#[derive(Clone, Debug, PartialEq, Eq)]
pub enum Slot<T> {
    /// The key does not occur.
    Absent,
    /// The key holds `null`.
    Null,
    /// The key holds something of another type than the field has.
    Wrong,
    /// The key holds this value.
    Given(T),
}

impl<T> Slot<T> {
    /// The value of a field that must be there.
    pub open spec fn spec_required(self) -> Result<T, DecodeError> {
        match self {
            Slot::Given(value) => Ok(value),
            _ => Err(DecodeError::InvalidField),
        }
    }

    /// The value of a field that may be left out or be `null`.
    pub open spec fn spec_optional(self) -> Result<Option<T>, DecodeError> {
        match self {
            Slot::Given(value) => Ok(Some(value)),
            Slot::Absent | Slot::Null => Ok(None),
            Slot::Wrong => Err(DecodeError::InvalidField),
        }
    }

    /// The value of a field that must be there.
    pub fn required(self) -> (value: Result<T, DecodeError>)
        ensures
            value == self.spec_required(),
    {
        match self {
            Slot::Given(value) => Ok(value),
            _ => Err(DecodeError::InvalidField),
        }
    }

    /// The value of a field that may be left out or be `null`.
    pub fn optional(self) -> (value: Result<Option<T>, DecodeError>)
        ensures
            value == self.spec_optional(),
    {
        match self {
            Slot::Given(value) => Ok(Some(value)),
            Slot::Absent => Ok(None),
            Slot::Null => Ok(None),
            Slot::Wrong => Err(DecodeError::InvalidField),
        }
    }
}

/// The characters of a slot that holds a string.
pub open spec fn slot_chars(slot: Slot<String>) -> Slot<Seq<char>> {
    match slot {
        Slot::Absent => Slot::Absent,
        Slot::Null => Slot::Null,
        Slot::Wrong => Slot::Wrong,
        Slot::Given(text) => Slot::Given(text@),
    }
}

/// The slot of a field that an envelope holds.
pub open spec fn given_optional(text: Option<Seq<char>>) -> Slot<Seq<char>> {
    match text {
        Some(t) => Slot::Given(t),
        None => Slot::Null,
    }
}

/// Every field that some variant declares, each with what the message
/// holds under its name.
#[derive(Clone, Debug, PartialEq, Eq)]
pub struct EventParts {
    pub call_id: Slot<u128>,
    pub room_id: Slot<u128>,
    pub message_id: Slot<u128>,
    pub user_id: Slot<u128>,
    pub initiator_id: Slot<u128>,
    pub latitude: Slot<String>,
    pub longitude: Slot<String>,
    pub text: Slot<String>,
    pub image_url: Slot<String>,
    pub message_type: Slot<String>,
    pub offer: Slot<String>,
    pub answer: Slot<String>,
    pub candidate: Slot<String>,
}

/// The parts as contracts see them.
pub ghost struct EventPartsView {
    pub call_id: Slot<u128>,
    pub room_id: Slot<u128>,
    pub message_id: Slot<u128>,
    pub user_id: Slot<u128>,
    pub initiator_id: Slot<u128>,
    pub latitude: Slot<Seq<char>>,
    pub longitude: Slot<Seq<char>>,
    pub text: Slot<Seq<char>>,
    pub image_url: Slot<Seq<char>>,
    pub message_type: Slot<Seq<char>>,
    pub offer: Slot<Seq<char>>,
    pub answer: Slot<Seq<char>>,
    pub candidate: Slot<Seq<char>>,
}

impl View for EventParts {
    type V = EventPartsView;

    open spec fn view(&self) -> EventPartsView {
        EventPartsView {
            call_id: self.call_id,
            room_id: self.room_id,
            message_id: self.message_id,
            user_id: self.user_id,
            initiator_id: self.initiator_id,
            latitude: slot_chars(self.latitude),
            longitude: slot_chars(self.longitude),
            text: slot_chars(self.text),
            image_url: slot_chars(self.image_url),
            message_type: slot_chars(self.message_type),
            offer: slot_chars(self.offer),
            answer: slot_chars(self.answer),
            candidate: slot_chars(self.candidate),
        }
    }
}

/// A set of parts with every field absent.
pub open spec fn spec_no_parts() -> EventPartsView {
    EventPartsView {
        call_id: Slot::Absent,
        room_id: Slot::Absent,
        message_id: Slot::Absent,
        user_id: Slot::Absent,
        initiator_id: Slot::Absent,
        latitude: Slot::Absent,
        longitude: Slot::Absent,
        text: Slot::Absent,
        image_url: Slot::Absent,
        message_type: Slot::Absent,
        offer: Slot::Absent,
        answer: Slot::Absent,
        candidate: Slot::Absent,
    }
}

/// A decoded envelope or the reason why there is none, with the envelope by
/// its view.
pub open spec fn decoded_view(decoded: Result<WebSocketEvent, DecodeError>) -> Result<EventView, DecodeError> {
    match decoded {
        Ok(event) => Ok(event@),
        Err(e) => Err(e),
    }
}

/// Two identifiers that must both be there.
pub open spec fn spec_two(a: Slot<u128>, b: Slot<u128>) -> Result<(u128, u128), DecodeError> {
    match (a, b) {
        (Slot::Given(x), Slot::Given(y)) => Ok((x, y)),
        _ => Err(DecodeError::InvalidField),
    }
}

/// Three identifiers that must all be there.
pub open spec fn spec_three(a: Slot<u128>, b: Slot<u128>, c: Slot<u128>) -> Result<(u128, u128, u128), DecodeError> {
    match (a, b, c) {
        (Slot::Given(x), Slot::Given(y), Slot::Given(z)) => Ok((x, y, z)),
        _ => Err(DecodeError::InvalidField),
    }
}

/// An identifier and a string that must both be there.
pub open spec fn spec_id_and_text(a: Slot<u128>, b: Slot<Seq<char>>) -> Result<(u128, Seq<char>), DecodeError> {
    match (a, b) {
        (Slot::Given(x), Slot::Given(y)) => Ok((x, y)),
        _ => Err(DecodeError::InvalidField),
    }
}

/// The envelope that a tag and a set of parts stand for. The tag selects
/// the variant; the variant takes the fields it declares, each of which
/// must be given (the text and the image of a message may be left out or be
/// `null`); what else the parts hold is passed over. A tag that names no
/// variant is refused.
pub open spec fn spec_assemble(tag: Seq<char>, parts: EventPartsView) -> Result<EventView, DecodeError> {
    if tag == "join-room"@ {
        match parts.room_id {
            Slot::Given(room_id) => Ok(EventView::JoinRoom { room_id }),
            _ => Err(DecodeError::InvalidField),
        }
    } else if tag == "leave-room"@ {
        match parts.room_id {
            Slot::Given(room_id) => Ok(EventView::LeaveRoom { room_id }),
            _ => Err(DecodeError::InvalidField),
        }
    } else if tag == "location-update"@ {
        match (spec_two(parts.room_id, parts.user_id), parts.latitude, parts.longitude) {
            (Ok((room_id, user_id)), Slot::Given(latitude), Slot::Given(longitude)) => Ok(
                EventView::LocationUpdate { room_id, user_id, latitude, longitude },
            ),
            _ => Err(DecodeError::InvalidField),
        }
    } else if tag == "new-message"@ {
        match (
            spec_three(parts.room_id, parts.message_id, parts.user_id),
            parts.text.spec_optional(),
            parts.image_url.spec_optional(),
            parts.message_type,
        ) {
            (Ok((room_id, message_id, user_id)), Ok(text), Ok(image_url), Slot::Given(message_type)) => Ok(
                EventView::NewMessage { room_id, message_id, user_id, text, image_url, message_type },
            ),
            _ => Err(DecodeError::InvalidField),
        }
    } else if tag == "user-joined"@ {
        match spec_two(parts.room_id, parts.user_id) {
            Ok((room_id, user_id)) => Ok(EventView::UserJoined { room_id, user_id }),
            Err(e) => Err(e),
        }
    } else if tag == "user-left"@ {
        match spec_two(parts.room_id, parts.user_id) {
            Ok((room_id, user_id)) => Ok(EventView::UserLeft { room_id, user_id }),
            Err(e) => Err(e),
        }
    } else if tag == "typing"@ {
        match spec_two(parts.room_id, parts.user_id) {
            Ok((room_id, user_id)) => Ok(EventView::Typing { room_id, user_id }),
            Err(e) => Err(e),
        }
    } else if tag == "user-typing"@ {
        match spec_two(parts.room_id, parts.user_id) {
            Ok((room_id, user_id)) => Ok(EventView::UserTyping { room_id, user_id }),
            Err(e) => Err(e),
        }
    } else if tag == "voice-call-initiate"@ {
        match spec_two(parts.room_id, parts.initiator_id) {
            Ok((room_id, initiator_id)) => Ok(EventView::VoiceCallInitiate { room_id, initiator_id }),
            Err(e) => Err(e),
        }
    } else if tag == "voice-call-accept"@ {
        match spec_two(parts.call_id, parts.user_id) {
            Ok((call_id, user_id)) => Ok(EventView::VoiceCallAccept { call_id, user_id }),
            Err(e) => Err(e),
        }
    } else if tag == "voice-call-reject"@ {
        match spec_two(parts.call_id, parts.user_id) {
            Ok((call_id, user_id)) => Ok(EventView::VoiceCallReject { call_id, user_id }),
            Err(e) => Err(e),
        }
    } else if tag == "voice-call-end"@ {
        match spec_two(parts.call_id, parts.user_id) {
            Ok((call_id, user_id)) => Ok(EventView::VoiceCallEnd { call_id, user_id }),
            Err(e) => Err(e),
        }
    } else if tag == "voice-offer"@ {
        match spec_id_and_text(parts.call_id, parts.offer) {
            Ok((call_id, offer)) => Ok(EventView::VoiceOffer { call_id, offer }),
            Err(e) => Err(e),
        }
    } else if tag == "voice-answer"@ {
        match spec_id_and_text(parts.call_id, parts.answer) {
            Ok((call_id, answer)) => Ok(EventView::VoiceAnswer { call_id, answer }),
            Err(e) => Err(e),
        }
    } else if tag == "ice-candidate"@ {
        match spec_id_and_text(parts.call_id, parts.candidate) {
            Ok((call_id, candidate)) => Ok(EventView::IceCandidate { call_id, candidate }),
            Err(e) => Err(e),
        }
    } else if tag == "voice-call-incoming"@ {
        match spec_three(parts.call_id, parts.room_id, parts.initiator_id) {
            Ok((call_id, room_id, initiator_id)) => Ok(
                EventView::VoiceCallIncoming { call_id, room_id, initiator_id },
            ),
            Err(e) => Err(e),
        }
    } else if tag == "voice-call-accepted"@ {
        match spec_three(parts.call_id, parts.room_id, parts.user_id) {
            Ok((call_id, room_id, user_id)) => Ok(EventView::VoiceCallAccepted { call_id, room_id, user_id }),
            Err(e) => Err(e),
        }
    } else if tag == "voice-call-rejected"@ {
        match spec_three(parts.call_id, parts.room_id, parts.user_id) {
            Ok((call_id, room_id, user_id)) => Ok(EventView::VoiceCallRejected { call_id, room_id, user_id }),
            Err(e) => Err(e),
        }
    } else if tag == "voice-call-ended"@ {
        match spec_three(parts.call_id, parts.room_id, parts.user_id) {
            Ok((call_id, room_id, user_id)) => Ok(EventView::VoiceCallEnded { call_id, room_id, user_id }),
            Err(e) => Err(e),
        }
    } else {
        Err(DecodeError::UnknownType)
    }
}

/// The tag of an envelope.
pub open spec fn spec_tag(event: EventView) -> Seq<char> {
    match event {
        EventView::JoinRoom { .. } => "join-room"@,
        EventView::LeaveRoom { .. } => "leave-room"@,
        EventView::LocationUpdate { .. } => "location-update"@,
        EventView::NewMessage { .. } => "new-message"@,
        EventView::UserJoined { .. } => "user-joined"@,
        EventView::UserLeft { .. } => "user-left"@,
        EventView::Typing { .. } => "typing"@,
        EventView::UserTyping { .. } => "user-typing"@,
        EventView::VoiceCallInitiate { .. } => "voice-call-initiate"@,
        EventView::VoiceCallAccept { .. } => "voice-call-accept"@,
        EventView::VoiceCallReject { .. } => "voice-call-reject"@,
        EventView::VoiceCallEnd { .. } => "voice-call-end"@,
        EventView::VoiceOffer { .. } => "voice-offer"@,
        EventView::VoiceAnswer { .. } => "voice-answer"@,
        EventView::IceCandidate { .. } => "ice-candidate"@,
        EventView::VoiceCallIncoming { .. } => "voice-call-incoming"@,
        EventView::VoiceCallAccepted { .. } => "voice-call-accepted"@,
        EventView::VoiceCallRejected { .. } => "voice-call-rejected"@,
        EventView::VoiceCallEnded { .. } => "voice-call-ended"@,
    }
}

/// The fields of an envelope, laid out by name: the fields that its
/// variant declares are given (a text or an image that a message lacks is
/// `null`), every other field is absent.
pub open spec fn spec_parts(event: EventView) -> EventPartsView {
    let none = spec_no_parts();
    match event {
        EventView::JoinRoom { room_id } => EventPartsView { room_id: Slot::Given(room_id), ..none },
        EventView::LeaveRoom { room_id } => EventPartsView { room_id: Slot::Given(room_id), ..none },
        EventView::LocationUpdate { room_id, user_id, latitude, longitude } => EventPartsView {
            room_id: Slot::Given(room_id),
            user_id: Slot::Given(user_id),
            latitude: Slot::Given(latitude),
            longitude: Slot::Given(longitude),
            ..none
        },
        EventView::NewMessage { room_id, message_id, user_id, text, image_url, message_type } => EventPartsView {
            room_id: Slot::Given(room_id),
            message_id: Slot::Given(message_id),
            user_id: Slot::Given(user_id),
            text: given_optional(text),
            image_url: given_optional(image_url),
            message_type: Slot::Given(message_type),
            ..none
        },
        EventView::UserJoined { room_id, user_id }
        | EventView::UserLeft { room_id, user_id }
        | EventView::Typing { room_id, user_id }
        | EventView::UserTyping { room_id, user_id } => EventPartsView {
            room_id: Slot::Given(room_id),
            user_id: Slot::Given(user_id),
            ..none
        },
        EventView::VoiceCallInitiate { room_id, initiator_id } => EventPartsView {
            room_id: Slot::Given(room_id),
            initiator_id: Slot::Given(initiator_id),
            ..none
        },
        EventView::VoiceCallAccept { call_id, user_id }
        | EventView::VoiceCallReject { call_id, user_id }
        | EventView::VoiceCallEnd { call_id, user_id } => EventPartsView {
            call_id: Slot::Given(call_id),
            user_id: Slot::Given(user_id),
            ..none
        },
        EventView::VoiceOffer { call_id, offer } => EventPartsView {
            call_id: Slot::Given(call_id),
            offer: Slot::Given(offer),
            ..none
        },
        EventView::VoiceAnswer { call_id, answer } => EventPartsView {
            call_id: Slot::Given(call_id),
            answer: Slot::Given(answer),
            ..none
        },
        EventView::IceCandidate { call_id, candidate } => EventPartsView {
            call_id: Slot::Given(call_id),
            candidate: Slot::Given(candidate),
            ..none
        },
        EventView::VoiceCallIncoming { call_id, room_id, initiator_id } => EventPartsView {
            call_id: Slot::Given(call_id),
            room_id: Slot::Given(room_id),
            initiator_id: Slot::Given(initiator_id),
            ..none
        },
        EventView::VoiceCallAccepted { call_id, room_id, user_id }
        | EventView::VoiceCallRejected { call_id, room_id, user_id }
        | EventView::VoiceCallEnded { call_id, room_id, user_id } => EventPartsView {
            call_id: Slot::Given(call_id),
            room_id: Slot::Given(room_id),
            user_id: Slot::Given(user_id),
            ..none
        },
    }
}

fn two(a: Slot<u128>, b: Slot<u128>) -> (both: Result<(u128, u128), DecodeError>)
    ensures
        both == spec_two(a, b),
{
    match (a, b) {
        (Slot::Given(x), Slot::Given(y)) => Ok((x, y)),
        _ => Err(DecodeError::InvalidField),
    }
}

fn three(a: Slot<u128>, b: Slot<u128>, c: Slot<u128>) -> (all: Result<(u128, u128, u128), DecodeError>)
    ensures
        all == spec_three(a, b, c),
{
    match (a, b, c) {
        (Slot::Given(x), Slot::Given(y), Slot::Given(z)) => Ok((x, y, z)),
        _ => Err(DecodeError::InvalidField),
    }
}

fn id_and_text(a: Slot<u128>, b: Slot<String>) -> (both: Result<(u128, String), DecodeError>)
    ensures
        match both {
            Ok((id, text)) => spec_id_and_text(a, slot_chars(b)) == Ok::<(u128, Seq<char>), DecodeError>(
                (id, text@),
            ),
            Err(e) => spec_id_and_text(a, slot_chars(b)) == Err::<(u128, Seq<char>), DecodeError>(e),
        },
{
    match (a, b) {
        (Slot::Given(x), Slot::Given(y)) => Ok((x, y)),
        _ => Err(DecodeError::InvalidField),
    }
}

/// A set of parts with every field absent.
pub fn no_parts() -> (parts: EventParts)
    ensures
        parts@ == spec_no_parts(),
{
    EventParts {
        call_id: Slot::Absent,
        room_id: Slot::Absent,
        message_id: Slot::Absent,
        user_id: Slot::Absent,
        initiator_id: Slot::Absent,
        latitude: Slot::Absent,
        longitude: Slot::Absent,
        text: Slot::Absent,
        image_url: Slot::Absent,
        message_type: Slot::Absent,
        offer: Slot::Absent,
        answer: Slot::Absent,
        candidate: Slot::Absent,
    }
}

/// Builds the envelope that a tag and a set of parts stand for, or says why
/// there is none.
pub fn assemble(tag: &str, parts: EventParts) -> (decoded: Result<WebSocketEvent, DecodeError>)
    ensures
        decoded_view(decoded) == spec_assemble(tag@, parts@),
{
    if same_text(tag, "join-room") {
        let room_id = parts.room_id.required()?;
        Ok(WebSocketEvent::JoinRoom { room_id })
    } else if same_text(tag, "leave-room") {
        let room_id = parts.room_id.required()?;
        Ok(WebSocketEvent::LeaveRoom { room_id })
    } else if same_text(tag, "location-update") {
        let (room_id, user_id) = two(parts.room_id, parts.user_id)?;
        let latitude = parts.latitude.required()?;
        let longitude = parts.longitude.required()?;
        Ok(WebSocketEvent::LocationUpdate { room_id, user_id, latitude, longitude })
    } else if same_text(tag, "new-message") {
        let (room_id, message_id, user_id) = three(parts.room_id, parts.message_id, parts.user_id)?;
        let text = parts.text.optional()?;
        let image_url = parts.image_url.optional()?;
        let message_type = parts.message_type.required()?;
        Ok(WebSocketEvent::NewMessage { room_id, message_id, user_id, text, image_url, message_type })
    } else if same_text(tag, "user-joined") {
        let (room_id, user_id) = two(parts.room_id, parts.user_id)?;
        Ok(WebSocketEvent::UserJoined { room_id, user_id })
    } else if same_text(tag, "user-left") {
        let (room_id, user_id) = two(parts.room_id, parts.user_id)?;
        Ok(WebSocketEvent::UserLeft { room_id, user_id })
    } else if same_text(tag, "typing") {
        let (room_id, user_id) = two(parts.room_id, parts.user_id)?;
        Ok(WebSocketEvent::Typing { room_id, user_id })
    } else if same_text(tag, "user-typing") {
        let (room_id, user_id) = two(parts.room_id, parts.user_id)?;
        Ok(WebSocketEvent::UserTyping { room_id, user_id })
    } else if same_text(tag, "voice-call-initiate") {
        let (room_id, initiator_id) = two(parts.room_id, parts.initiator_id)?;
        Ok(WebSocketEvent::VoiceCallInitiate { room_id, initiator_id })
    } else if same_text(tag, "voice-call-accept") {
        let (call_id, user_id) = two(parts.call_id, parts.user_id)?;
        Ok(WebSocketEvent::VoiceCallAccept { call_id, user_id })
    } else if same_text(tag, "voice-call-reject") {
        let (call_id, user_id) = two(parts.call_id, parts.user_id)?;
        Ok(WebSocketEvent::VoiceCallReject { call_id, user_id })
    } else if same_text(tag, "voice-call-end") {
        let (call_id, user_id) = two(parts.call_id, parts.user_id)?;
        Ok(WebSocketEvent::VoiceCallEnd { call_id, user_id })
    } else if same_text(tag, "voice-offer") {
        let (call_id, offer) = id_and_text(parts.call_id, parts.offer)?;
        Ok(WebSocketEvent::VoiceOffer { call_id, offer })
    } else if same_text(tag, "voice-answer") {
        let (call_id, answer) = id_and_text(parts.call_id, parts.answer)?;
        Ok(WebSocketEvent::VoiceAnswer { call_id, answer })
    } else if same_text(tag, "ice-candidate") {
        let (call_id, candidate) = id_and_text(parts.call_id, parts.candidate)?;
        Ok(WebSocketEvent::IceCandidate { call_id, candidate })
    } else if same_text(tag, "voice-call-incoming") {
        let (call_id, room_id, initiator_id) = three(parts.call_id, parts.room_id, parts.initiator_id)?;
        Ok(WebSocketEvent::VoiceCallIncoming { call_id, room_id, initiator_id })
    } else if same_text(tag, "voice-call-accepted") {
        let (call_id, room_id, user_id) = three(parts.call_id, parts.room_id, parts.user_id)?;
        Ok(WebSocketEvent::VoiceCallAccepted { call_id, room_id, user_id })
    } else if same_text(tag, "voice-call-rejected") {
        let (call_id, room_id, user_id) = three(parts.call_id, parts.room_id, parts.user_id)?;
        Ok(WebSocketEvent::VoiceCallRejected { call_id, room_id, user_id })
    } else if same_text(tag, "voice-call-ended") {
        let (call_id, room_id, user_id) = three(parts.call_id, parts.room_id, parts.user_id)?;
        Ok(WebSocketEvent::VoiceCallEnded { call_id, room_id, user_id })
    } else {
        Err(DecodeError::UnknownType)
    }
}

impl WebSocketEvent {
    /// The tag under which the envelope travels.
    pub fn tag(&self) -> (tag: &'static str)
        ensures
            tag@ == spec_tag(self@),
    {
        match self {
            WebSocketEvent::JoinRoom { .. } => "join-room",
            WebSocketEvent::LeaveRoom { .. } => "leave-room",
            WebSocketEvent::LocationUpdate { .. } => "location-update",
            WebSocketEvent::NewMessage { .. } => "new-message",
            WebSocketEvent::UserJoined { .. } => "user-joined",
            WebSocketEvent::UserLeft { .. } => "user-left",
            WebSocketEvent::Typing { .. } => "typing",
            WebSocketEvent::UserTyping { .. } => "user-typing",
            WebSocketEvent::VoiceCallInitiate { .. } => "voice-call-initiate",
            WebSocketEvent::VoiceCallAccept { .. } => "voice-call-accept",
            WebSocketEvent::VoiceCallReject { .. } => "voice-call-reject",
            WebSocketEvent::VoiceCallEnd { .. } => "voice-call-end",
            WebSocketEvent::VoiceOffer { .. } => "voice-offer",
            WebSocketEvent::VoiceAnswer { .. } => "voice-answer",
            WebSocketEvent::IceCandidate { .. } => "ice-candidate",
            WebSocketEvent::VoiceCallIncoming { .. } => "voice-call-incoming",
            WebSocketEvent::VoiceCallAccepted { .. } => "voice-call-accepted",
            WebSocketEvent::VoiceCallRejected { .. } => "voice-call-rejected",
            WebSocketEvent::VoiceCallEnded { .. } => "voice-call-ended",
        }
    }

    /// The fields of the envelope, laid out by name.
    pub fn parts(&self) -> (parts: EventParts)
        ensures
            parts@ == spec_parts(self@),
    {
        let none = no_parts();
        match self {
            WebSocketEvent::JoinRoom { room_id } => EventParts { room_id: Slot::Given(*room_id), ..none },
            WebSocketEvent::LeaveRoom { room_id } => EventParts { room_id: Slot::Given(*room_id), ..none },
            WebSocketEvent::LocationUpdate { room_id, user_id, latitude, longitude } => EventParts {
                room_id: Slot::Given(*room_id),
                user_id: Slot::Given(*user_id),
                latitude: Slot::Given(latitude.clone()),
                longitude: Slot::Given(longitude.clone()),
                ..none
            },
            WebSocketEvent::NewMessage { room_id, message_id, user_id, text, image_url, message_type } => EventParts {
                room_id: Slot::Given(*room_id),
                message_id: Slot::Given(*message_id),
                user_id: Slot::Given(*user_id),
                text: slot_of(text),
                image_url: slot_of(image_url),
                message_type: Slot::Given(message_type.clone()),
                ..none
            },
            WebSocketEvent::UserJoined { room_id, user_id } => EventParts {
                room_id: Slot::Given(*room_id),
                user_id: Slot::Given(*user_id),
                ..none
            },
            WebSocketEvent::UserLeft { room_id, user_id } => EventParts {
                room_id: Slot::Given(*room_id),
                user_id: Slot::Given(*user_id),
                ..none
            },
            WebSocketEvent::Typing { room_id, user_id } => EventParts {
                room_id: Slot::Given(*room_id),
                user_id: Slot::Given(*user_id),
                ..none
            },
            WebSocketEvent::UserTyping { room_id, user_id } => EventParts {
                room_id: Slot::Given(*room_id),
                user_id: Slot::Given(*user_id),
                ..none
            },
            WebSocketEvent::VoiceCallInitiate { room_id, initiator_id } => EventParts {
                room_id: Slot::Given(*room_id),
                initiator_id: Slot::Given(*initiator_id),
                ..none
            },
            WebSocketEvent::VoiceCallAccept { call_id, user_id } => EventParts {
                call_id: Slot::Given(*call_id),
                user_id: Slot::Given(*user_id),
                ..none
            },
            WebSocketEvent::VoiceCallReject { call_id, user_id } => EventParts {
                call_id: Slot::Given(*call_id),
                user_id: Slot::Given(*user_id),
                ..none
            },
            WebSocketEvent::VoiceCallEnd { call_id, user_id } => EventParts {
                call_id: Slot::Given(*call_id),
                user_id: Slot::Given(*user_id),
                ..none
            },
            WebSocketEvent::VoiceOffer { call_id, offer } => EventParts {
                call_id: Slot::Given(*call_id),
                offer: Slot::Given(offer.clone()),
                ..none
            },
            WebSocketEvent::VoiceAnswer { call_id, answer } => EventParts {
                call_id: Slot::Given(*call_id),
                answer: Slot::Given(answer.clone()),
                ..none
            },
            WebSocketEvent::IceCandidate { call_id, candidate } => EventParts {
                call_id: Slot::Given(*call_id),
                candidate: Slot::Given(candidate.clone()),
                ..none
            },
            WebSocketEvent::VoiceCallIncoming { call_id, room_id, initiator_id } => EventParts {
                call_id: Slot::Given(*call_id),
                room_id: Slot::Given(*room_id),
                initiator_id: Slot::Given(*initiator_id),
                ..none
            },
            WebSocketEvent::VoiceCallAccepted { call_id, room_id, user_id } => EventParts {
                call_id: Slot::Given(*call_id),
                room_id: Slot::Given(*room_id),
                user_id: Slot::Given(*user_id),
                ..none
            },
            WebSocketEvent::VoiceCallRejected { call_id, room_id, user_id } => EventParts {
                call_id: Slot::Given(*call_id),
                room_id: Slot::Given(*room_id),
                user_id: Slot::Given(*user_id),
                ..none
            },
            WebSocketEvent::VoiceCallEnded { call_id, room_id, user_id } => EventParts {
                call_id: Slot::Given(*call_id),
                room_id: Slot::Given(*room_id),
                user_id: Slot::Given(*user_id),
                ..none
            },
        }
    }
}

fn slot_of(text: &Option<String>) -> (slot: Slot<String>)
    ensures
        slot_chars(slot) == given_optional(optional_text(*text)),
{
    match text {
        Some(t) => Slot::Given(t.clone()),
        None => Slot::Null,
    }
}

/// The length of each tag, and for tags of one length a character in which
/// they differ.
proof fn lemma_tag_shapes()
    ensures
        "join-room"@.len() == 9 && "join-room"@[0] == 'j',
        "leave-room"@.len() == 10,
        "location-update"@.len() == 15,
        "new-message"@.len() == 11 && "new-message"@[0] == 'n',
        "user-joined"@.len() == 11 && "user-joined"@[0] == 'u' && "user-joined"@[5] == 'j',
        "user-left"@.len() == 9 && "user-left"@[0] == 'u',
        "typing"@.len() == 6,
        "user-typing"@.len() == 11 && "user-typing"@[0] == 'u' && "user-typing"@[5] == 't',
        "voice-call-initiate"@.len() == 19 && "voice-call-initiate"@[11] == 'i' && "voice-call-initiate"@[13] == 'i',
        "voice-call-accept"@.len() == 17 && "voice-call-accept"@[11] == 'a',
        "voice-call-reject"@.len() == 17 && "voice-call-reject"@[11] == 'r',
        "voice-call-end"@.len() == 14,
        "voice-offer"@.len() == 11 && "voice-offer"@[0] == 'v',
        "voice-answer"@.len() == 12,
        "ice-candidate"@.len() == 13,
        "voice-call-incoming"@.len() == 19 && "voice-call-incoming"@[11] == 'i' && "voice-call-incoming"@[13] == 'c',
        "voice-call-accepted"@.len() == 19 && "voice-call-accepted"@[11] == 'a',
        "voice-call-rejected"@.len() == 19 && "voice-call-rejected"@[11] == 'r',
        "voice-call-ended"@.len() == 16,
{
    reveal_strlit("join-room");
    reveal_strlit("leave-room");
    reveal_strlit("location-update");
    reveal_strlit("new-message");
    reveal_strlit("user-joined");
    reveal_strlit("user-left");
    reveal_strlit("typing");
    reveal_strlit("user-typing");
    reveal_strlit("voice-call-initiate");
    reveal_strlit("voice-call-accept");
    reveal_strlit("voice-call-reject");
    reveal_strlit("voice-call-end");
    reveal_strlit("voice-offer");
    reveal_strlit("voice-answer");
    reveal_strlit("ice-candidate");
    reveal_strlit("voice-call-incoming");
    reveal_strlit("voice-call-accepted");
    reveal_strlit("voice-call-rejected");
    reveal_strlit("voice-call-ended");
}

/// The tag of a variant is the tag of no other variant.
pub proof fn lemma_tags_distinct()
    ensures
        forall|a: EventView, b: EventView| #[trigger] spec_tag(a) == #[trigger] spec_tag(b) ==> same_variant(a, b),
{
    lemma_tag_shapes();
}

/// Laying an envelope out and building it again gives the envelope back:
/// the tags of the variants are distinct, and each variant's fields are
/// those that its tag asks for.
pub proof fn lemma_assemble_inverts_parts(event: EventView)
    ensures
        spec_assemble(spec_tag(event), spec_parts(event)) == Ok::<EventView, DecodeError>(event),
{
    lemma_tag_shapes();
}

/// Two envelopes are of the same variant.
pub open spec fn same_variant(a: EventView, b: EventView) -> bool {
    match a {
        EventView::JoinRoom { .. } => b is JoinRoom,
        EventView::LeaveRoom { .. } => b is LeaveRoom,
        EventView::LocationUpdate { .. } => b is LocationUpdate,
        EventView::NewMessage { .. } => b is NewMessage,
        EventView::UserJoined { .. } => b is UserJoined,
        EventView::UserLeft { .. } => b is UserLeft,
        EventView::Typing { .. } => b is Typing,
        EventView::UserTyping { .. } => b is UserTyping,
        EventView::VoiceCallInitiate { .. } => b is VoiceCallInitiate,
        EventView::VoiceCallAccept { .. } => b is VoiceCallAccept,
        EventView::VoiceCallReject { .. } => b is VoiceCallReject,
        EventView::VoiceCallEnd { .. } => b is VoiceCallEnd,
        EventView::VoiceOffer { .. } => b is VoiceOffer,
        EventView::VoiceAnswer { .. } => b is VoiceAnswer,
        EventView::IceCandidate { .. } => b is IceCandidate,
        EventView::VoiceCallIncoming { .. } => b is VoiceCallIncoming,
        EventView::VoiceCallAccepted { .. } => b is VoiceCallAccepted,
        EventView::VoiceCallRejected { .. } => b is VoiceCallRejected,
        EventView::VoiceCallEnded { .. } => b is VoiceCallEnded,
    }
}

} // verus!
