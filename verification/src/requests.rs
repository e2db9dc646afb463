//! What the HTTP interface accepts: the bodies and queries of its requests.

use vstd::prelude::*;

verus! {

/// What a new user sends to sign up.
#[derive(Debug, Clone)]
pub struct RegisterRequest {
    pub name: String,
    pub email: String,
    pub password: String,
}

/// What a user sends to log in.
#[derive(Debug, Clone)]
pub struct LoginRequest {
    pub email: String,
    pub password: String,
}

/// What a user sends to open a room.
#[derive(Debug, Clone)]
pub struct CreateRoomRequest {
    pub name: String,
    pub description: Option<String>,
}

/// What a user sends to post a message.
#[derive(Debug, Clone)]
pub struct SendMessageRequest {
    pub text: Option<String>,
    pub image_url: Option<String>,
    pub message_type: String,
}

/// Which page of the messages of a room is asked for.
#[derive(Debug, Clone, Copy)]
pub struct GetMessagesQuery {
    pub page: u64,
    pub page_size: u64,
}

/// The kind of a message.
#[derive(Clone, Copy, Debug, PartialEq, Eq, Structural)]
pub enum MessageType {
    Text,
    Image,
}

/// The kind of a message that names none.
pub fn default_message_type() -> (kind: String)
    ensures
        kind@ == "text"@,
{
    "text".to_owned()
}

/// The page of a query that names none.
pub fn default_page() -> (page: u64)
    ensures
        page == 0,
{
    0
}

/// The page size of a query that names none.
pub fn default_page_size() -> (size: u64)
    ensures
        size == 20,
{
    20
}

impl MessageType {
    /// The name under which a kind is stored and sent.
    pub open spec fn spec_name(self) -> Seq<char> {
        match self {
            MessageType::Text => "text"@,
            MessageType::Image => "image"@,
        }
    }

    /// The name under which the kind is stored and sent.
    pub fn name(self) -> (name: String)
        ensures
            name@ == self.spec_name(),
    {
        match self {
            MessageType::Text => "text".to_owned(),
            MessageType::Image => "image".to_owned(),
        }
    }
}

impl SendMessageRequest {
    /// The kind of the message that a request asks to send: text where it
    /// has a text, else an image where it has an image, else none. What the
    /// request says of its own kind does not count.
    pub open spec fn spec_kind(&self) -> Option<MessageType> {
        if self.text is Some {
            Some(MessageType::Text)
        } else if self.image_url is Some {
            Some(MessageType::Image)
        } else {
            None
        }
    }

    /// The kind of the message that the request asks to send.
    pub fn kind(&self) -> (kind: Option<MessageType>)
        ensures
            kind == self.spec_kind(),
    {
        if self.text.is_some() {
            Some(MessageType::Text)
        } else if self.image_url.is_some() {
            Some(MessageType::Image)
        } else {
            None
        }
    }
}

} // verus!
