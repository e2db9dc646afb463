//! The fan-out channel of one room: a bounded broadcast queue of text
//! messages. Every item here stands for a function or a type of
//! `tokio::sync::broadcast`; none of their contracts is proved.

use vstd::prelude::*;

verus! {

/// `tokio::sync::broadcast::Sender`: a handle on the sending half of a
/// channel. Equality of two handles, in contracts, stands for their being
/// handles on one and the same channel.
#[verifier::external_type_specification]
#[verifier::external_body]
#[verifier::reject_recursive_types(T)]
pub struct ExSender<T>(tokio::sync::broadcast::Sender<T>);

/// `tokio::sync::broadcast::Receiver`: one subscriber's read position in a
/// channel.
#[verifier::external_type_specification]
#[verifier::external_body]
#[verifier::reject_recursive_types(T)]
pub struct ExReceiver<T>(tokio::sync::broadcast::Receiver<T>);

/// What a poll of a receiver can report besides a message.
#[derive(Clone, Copy, Debug, PartialEq, Eq)]
pub enum ReceiveError {
    /// Nothing is waiting for this receiver.
    Empty,
    /// Every sender is gone and nothing is waiting.
    Closed,
    /// The receiver fell behind and this many messages were dropped for it.
    Lagged(u64),
}

/// `tokio::sync::broadcast::channel`, keeping the sender only. The outside
/// function panics on a capacity of zero or above `usize::MAX / 2`, which
/// `requires` leaves out. Nothing is claimed of the handle that comes back.
#[verifier::external_body]
pub(crate) fn open_channel(capacity: usize) -> (sender: tokio::sync::broadcast::Sender<String>)
    requires
        0 < capacity <= usize::MAX / 2,
{
    let (sender, _first) = tokio::sync::broadcast::channel::<String>(capacity);
    sender
}

/// `Clone::clone` of a sender: the clone is a handle on the same channel.
#[verifier::external_body]
pub(crate) fn clone_sender(sender: &tokio::sync::broadcast::Sender<String>) -> (copy: tokio::sync::broadcast::Sender<String>)
    ensures
        copy == *sender,
{
    sender.clone()
}

/// `Sender::send`: hands one message to the channel. It returns how many
/// receivers were subscribed at that moment, or `None` when there was none
/// and the message was dropped. How many there are depends on what other
/// tasks do, and whether a receiver ever reads the message is not known
/// here: nothing is claimed.
#[verifier::external_body]
pub(crate) fn publish(sender: &tokio::sync::broadcast::Sender<String>, message: String) -> (receivers: Option<usize>)
{
    sender.send(message).ok()
}

/// `Sender::subscribe`: a new receiver, which sees what is sent from now on.
/// The outside function panics only when `usize::MAX / 4` receivers are
/// alive at once, more than memory can hold.
#[verifier::external_body]
pub(crate) fn subscribe(sender: &tokio::sync::broadcast::Sender<String>) -> (receiver: tokio::sync::broadcast::Receiver<String>)
{
    sender.subscribe()
}

/// `Receiver::try_recv`: the next message waiting for this receiver, without
/// blocking. Which of the outcomes comes depends on what other tasks have
/// sent, so nothing is claimed of it.
#[verifier::external_body]
pub(crate) fn try_receive(receiver: &mut tokio::sync::broadcast::Receiver<String>) -> (polled: Result<String, ReceiveError>)
{
    match receiver.try_recv() {
        Ok(message) => Ok(message),
        Err(tokio::sync::broadcast::error::TryRecvError::Empty) => Err(ReceiveError::Empty),
        Err(tokio::sync::broadcast::error::TryRecvError::Closed) => Err(ReceiveError::Closed),
        Err(tokio::sync::broadcast::error::TryRecvError::Lagged(n)) => Err(ReceiveError::Lagged(n)),
    }
}

} // verus!
