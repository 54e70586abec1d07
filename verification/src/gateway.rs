//! The coordinator gateway: a session's only path to shared state. It
//! wraps a non-blocking send and a send-then-wait query on the shared
//! bounded channel; the channel itself comes from the `flume` crate and is
//! taken on trust behind the declarations and wrappers below.

use vstd::prelude::*;

use crate::messages::{GooseControl, GooseControlReply, GooseControllerCommand};

verus! {

#[verifier::external_type_specification]
#[verifier::external_body]
#[verifier::reject_recursive_types(T)]
pub struct ExSender<T>(flume::Sender<T>);

#[verifier::external_type_specification]
#[verifier::external_body]
#[verifier::reject_recursive_types(T)]
pub struct ExReceiver<T>(flume::Receiver<T>);

/// What became of a non-blocking send.
#[derive(Debug)]
pub enum SendOutcome {
    /// The message was enqueued.
    Sent,
    /// The channel was full; the message comes back unapplied.
    Full(GooseControl),
    /// Every receiver is gone; the message comes back unapplied.
    Disconnected(GooseControl),
}

/// Relies on flume::Sender::try_send: it never blocks, and on failure the
/// error variant (full or disconnected) hands the unapplied message back.
#[verifier::external_body]
fn try_send_control(channel: &flume::Sender<GooseControl>, msg: GooseControl) -> (r: SendOutcome)
    ensures
        r matches SendOutcome::Full(m) ==> m == msg,
        r matches SendOutcome::Disconnected(m) ==> m == msg,
{
    match channel.try_send(msg) {
        Ok(()) => SendOutcome::Sent,
        Err(flume::TrySendError::Full(m)) => SendOutcome::Full(m),
        Err(flume::TrySendError::Disconnected(m)) => SendOutcome::Disconnected(m),
    }
}

/// Relies on flume::bounded: a fresh connected channel pair of capacity
/// one, used as a single-use reply slot. Nothing is assumed about it; a
/// session only waits on the receiving end.
#[verifier::external_body]
fn reply_slot() -> (flume::Sender<GooseControlReply>, flume::Receiver<GooseControlReply>) {
    flume::bounded(1)
}

/// Relies on flume::Receiver::recv_timeout: it waits no longer than the
/// given bound and yields at most one message. A timeout and a closed
/// channel are both reported as no reply.
#[verifier::external_body]
fn recv_reply(rx: &flume::Receiver<GooseControlReply>, timeout_ms: u64) -> Option<
    GooseControlReply,
> {
    match rx.recv_timeout(core::time::Duration::from_millis(timeout_ms)) {
        Ok(v) => Some(v),
        Err(_) => None,
    }
}

/// What became of a notify: delivered, or refused without blocking.
#[derive(Debug, Clone, Copy, PartialEq, Eq, Structural)]
pub enum NotifyOutcome {
    Delivered,
    Busy,
    Closed,
}

/// What became of a query: a reply, or a refusal, or no answer in time.
#[derive(Debug)]
pub enum RequestOutcome {
    Reply(GooseControlReply),
    Busy,
    Closed,
    NoAnswer,
}

/// A handle on the shared channel to the coordinator. Sending through it
/// is the only way a session affects shared run state.
#[derive(Debug)]
pub struct CoordinatorGateway {
    pub channel: flume::Sender<GooseControl>,
}

impl CoordinatorGateway {
    pub fn new(channel: flume::Sender<GooseControl>) -> (r: CoordinatorGateway)
        ensures
            r.channel == channel,
    {
        CoordinatorGateway { channel }
    }

    /// Try to enqueue one message without blocking. The outcome depends on
    /// the channel's momentary state; a refusal means the message was not
    /// applied.
    pub fn notify(&self, msg: GooseControl) -> (r: NotifyOutcome) {
        match try_send_control(&self.channel, msg) {
            SendOutcome::Sent => NotifyOutcome::Delivered,
            SendOutcome::Full(_) => NotifyOutcome::Busy,
            SendOutcome::Disconnected(_) => NotifyOutcome::Closed,
        }
    }

    /// Enqueue a query carrying a fresh single-use reply slot and wait,
    /// up to the timeout, for the coordinator to fulfill it.
    pub fn request(&self, command: GooseControllerCommand, timeout_ms: u64) -> (r: RequestOutcome) {
        let (slot_tx, slot_rx) = reply_slot();
        match try_send_control(&self.channel, GooseControl::Request(command, slot_tx)) {
            SendOutcome::Sent => match recv_reply(&slot_rx, timeout_ms) {
                Some(reply) => RequestOutcome::Reply(reply),
                None => RequestOutcome::NoAnswer,
            },
            SendOutcome::Full(_) => RequestOutcome::Busy,
            SendOutcome::Disconnected(_) => RequestOutcome::Closed,
        }
    }
}

} // verus!
