use vstd::prelude::*;

verus! {

#[verifier::external_type_specification]
#[verifier::external_body]
#[verifier::reject_recursive_types(T)]
pub struct ExSender<T>(tokio::sync::broadcast::Sender<T>);

#[verifier::external_type_specification]
#[verifier::external_body]
#[verifier::reject_recursive_types(T)]
pub struct ExReceiver<T>(tokio::sync::broadcast::Receiver<T>);

/// How many messages a bus buffers for a slow subscriber before the oldest is dropped.
pub const BUS_CAPACITY: usize = 255;

/// Relies on tokio's `broadcast::Sender::new`, which panics on a capacity of zero
/// or above `usize::MAX / 2` and creates a channel with no receiver.
#[verifier::external_body]
fn new_sender<T>(capacity: usize) -> (r: tokio::sync::broadcast::Sender<T>)
    requires
        0 < capacity <= usize::MAX / 2,
{
    tokio::sync::broadcast::Sender::new(capacity)
}

/// Relies on tokio's `broadcast::Sender::subscribe`: a receiver of every value
/// sent after the call.
#[verifier::external_body]
fn subscribe_to<T>(sender: &tokio::sync::broadcast::Sender<T>) -> (r:
    tokio::sync::broadcast::Receiver<T>) {
    sender.subscribe()
}

/// Relies on tokio's `broadcast::Sender::send`, which never blocks: it returns an
/// error when no receiver is attached, and otherwise the number of receivers,
/// at least one.
#[verifier::external_body]
fn send_to<T>(sender: &tokio::sync::broadcast::Sender<T>, value: T) -> (r: Option<usize>)
    ensures
        r matches Some(n) ==> n >= 1,
{
    match sender.send(value) {
        Ok(n) => Some(n),
        Err(_) => None,
    }
}

/// A fan-out bus: every subscriber receives each message published after it subscribed.
/// A subscriber that falls `BUS_CAPACITY` messages behind loses the oldest ones;
/// publishing never waits for a subscriber.
#[verifier::reject_recursive_types(T)]
pub struct Bus<T> {
    sender: tokio::sync::broadcast::Sender<T>,
}

impl<T> Bus<T> {
    /// A bus with no subscriber.
    pub fn new() -> (r: Self) {
        Bus { sender: new_sender(BUS_CAPACITY) }
    }

    /// A new subscriber, which sees the messages published from now on.
    pub fn subscribe(&self) -> (r: tokio::sync::broadcast::Receiver<T>) {
        subscribe_to(&self.sender)
    }

    /// Hands `msg` to every current subscriber and returns how many there were.
    /// With no subscriber the message is dropped and the result is zero; this
    /// never fails and never blocks.
    pub fn publish(&self, msg: T) -> (r: usize) {
        match send_to(&self.sender, msg) {
            Some(n) => n,
            None => 0,
        }
    }
}

/// Publishes a backdoor command text on the inbound bus; with no relay
/// listening, the text is dropped.
pub fn send_backend_server_message(bus: &Bus<String>, msg: String) {
    let _reached = bus.publish(msg);
}

} // verus!
