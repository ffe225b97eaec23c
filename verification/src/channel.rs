//! The ends of the message channel.
//!
//! The channel is a `flume` channel shared with every producer. What it
//! holds at a given moment depends on what the other holders of its ends
//! do, so nothing is claimed here about the outcome of a send or a receive.

use vstd::prelude::*;
use crate::message::WeatherUpdate;

verus! {

/// `flume::Sender`, the sending end of a channel. Nothing is known of a
/// value of it.
#[verifier::external_type_specification]
#[verifier::external_body]
#[verifier::reject_recursive_types(T)]
pub struct ExSender<T>(flume::Sender<T>);

/// `flume::Receiver`, the receiving end of a channel. Nothing is known of
/// a value of it.
#[verifier::external_type_specification]
#[verifier::external_body]
#[verifier::reject_recursive_types(T)]
pub struct ExReceiver<T>(flume::Receiver<T>);

/// Why a message could not be put on the channel.
#[derive(Clone, Copy, Debug, PartialEq, Eq, Structural)]
pub enum ChannelError {
    /// The channel is bounded and holds as many messages as it can.
    Full,
    /// Every receiving end is gone.
    Disconnected,
}

/// Calls `flume::Sender::try_send`, which never waits: it puts `message`
/// at the back of the channel or says why it could not. Which of the three
/// happens depends on the channel, so no outcome is promised.
#[verifier::external_body]
pub(crate) fn channel_send(sender: &flume::Sender<WeatherUpdate>, message: WeatherUpdate) -> (outcome:
    Result<(), ChannelError>) {
    match sender.try_send(message) {
        Ok(()) => Ok(()),
        Err(flume::TrySendError::Full(_)) => Err(ChannelError::Full),
        Err(flume::TrySendError::Disconnected(_)) => Err(ChannelError::Disconnected),
    }
}

/// Why no message was taken from the channel.
#[derive(Clone, Copy, Debug, PartialEq, Eq, Structural)]
pub enum ReceiveError {
    /// No message is waiting.
    Empty,
    /// No message is waiting and every sending end is gone.
    Disconnected,
}

/// The capacity that the channel behind `receiver` was made with; `None`
/// for a channel without bound. A channel keeps it for life.
pub uninterp spec fn receiver_capacity(receiver: flume::Receiver<WeatherUpdate>) -> Option<usize>;

/// Whether a message can be taken from the channel behind `receiver`
/// without waiting. The one channel left out is the one bounded at the
/// largest `usize`: taking from it adds one to that bound.
pub open spec fn receivable(receiver: flume::Receiver<WeatherUpdate>) -> bool {
    receiver_capacity(receiver) != Some(usize::MAX)
}

/// Calls `flume::Receiver::capacity`, which reads the bound that the
/// channel was made with.
#[verifier::external_body]
pub(crate) fn channel_capacity(receiver: &flume::Receiver<WeatherUpdate>) -> (capacity: Option<
    usize,
>)
    ensures
        capacity == receiver_capacity(*receiver),
{
    receiver.capacity()
}

/// Calls `flume::Receiver::try_recv`, which never waits: it takes the
/// message at the front of the channel, or says why there is none. Whether
/// there is one, and which, depends on the producers, so no outcome is
/// promised.
#[verifier::external_body]
pub(crate) fn channel_receive(receiver: &flume::Receiver<WeatherUpdate>) -> (outcome: Result<
    WeatherUpdate,
    ReceiveError,
>)
    requires
        receivable(*receiver),
{
    match receiver.try_recv() {
        Ok(message) => Ok(message),
        Err(flume::TryRecvError::Empty) => Err(ReceiveError::Empty),
        Err(flume::TryRecvError::Disconnected) => Err(ReceiveError::Disconnected),
    }
}

} // verus!
