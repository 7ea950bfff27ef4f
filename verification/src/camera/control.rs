//! Control channel: the inbox of switch commands.
//!
//! Control payloads are put into an unbounded channel by whoever listens to
//! the control topic. The distribution loop polls the receiving half once
//! per iteration and never waits on it.

use vstd::prelude::*;
use crate::camera::switch::command_of;
use crate::camera::switch::SwitchCommand;

verus! {

/// `tokio::sync::mpsc::UnboundedReceiver`, the receiving half of an
/// unbounded channel. Nothing is known of what is inside one.
#[verifier::external_type_specification]
#[verifier::external_body]
#[verifier::reject_recursive_types(T)]
pub struct ExUnboundedReceiver<T>(tokio::sync::mpsc::UnboundedReceiver<T>);

/// Takes the oldest waiting payload out of the channel with
/// `tokio::sync::mpsc::UnboundedReceiver::try_recv`, without waiting for one
/// to arrive. An empty channel and a closed one both give `None`. What is
/// waiting depends on the senders, so nothing is claimed of the result.
#[verifier::external_body]
fn poll_inbox(inbox: &mut tokio::sync::mpsc::UnboundedReceiver<Vec<u8>>) -> (payload: Option<
    Vec<u8>,
>) {
    inbox.try_recv().ok()
}

/// The command, if any, that one poll of the inbox amounts to.
pub open spec fn polled_command(polled: Option<Seq<u8>>) -> Option<SwitchCommand> {
    match polled {
        Some(payload) => Some(command_of(payload)),
        None => None,
    }
}

/// Turns the outcome of one poll into a command: a payload always yields
/// one, however garbled, and no payload yields none.
pub fn decode_polled(polled: Option<Vec<u8>>) -> (command: Option<SwitchCommand>)
    ensures
        command == polled_command(
            match polled {
                Some(payload) => Some(payload@),
                None => None,
            },
        ),
{
    match polled {
        Some(payload) => Some(SwitchCommand::from_payload(payload.as_slice())),
        None => None,
    }
}

/// The receiving side of the control inbox.
pub struct ControlChannel {
    inbox: tokio::sync::mpsc::UnboundedReceiver<Vec<u8>>,
}

impl ControlChannel {
    /// The receiving half that this channel polls.
    pub closed spec fn inbox(&self) -> tokio::sync::mpsc::UnboundedReceiver<Vec<u8>> {
        self.inbox
    }

    /// Wraps the receiving half of the control inbox.
    pub fn new(inbox: tokio::sync::mpsc::UnboundedReceiver<Vec<u8>>) -> (channel: ControlChannel)
        ensures
            channel.inbox() == inbox,
    {
        ControlChannel { inbox }
    }

    /// The next waiting command, if there is one; does not wait for one to
    /// arrive. Whether a payload is waiting is for the senders to decide;
    /// how a payload becomes a command is stated by `decode_polled`.
    pub fn try_recv(&mut self) -> (command: Option<SwitchCommand>) {
        let polled = poll_inbox(&mut self.inbox);
        decode_polled(polled)
    }
}

} // verus!
