//! The messages a session sends to the coordinating process, and the
//! replies it may receive. A query-style message carries a single-use reply
//! slot that the coordinator fulfills at most once.

use vstd::prelude::*;

use crate::config::GooseConfiguration;

verus! {

/// The commands the control plane can relay.
#[derive(Debug, Clone, Copy, PartialEq, Eq, Structural)]
pub enum GooseControllerCommand {
    Config,
    HatchRate,
    Stop,
    Users,
}

/// A command together with its captured value (the exact bytes the
/// operator supplied after the keyword).
#[derive(Debug, Clone)]
pub struct GooseControllerCommandAndValue {
    pub command: GooseControllerCommand,
    pub value: Vec<u8>,
}

/// A message from a session to the coordinator: a bare command, a command
/// with a value, or a query carrying a reply slot.
#[derive(Debug)]
pub enum GooseControl {
    Command(GooseControllerCommand),
    CommandAndValue(GooseControllerCommandAndValue),
    Request(GooseControllerCommand, flume::Sender<GooseControlReply>),
}

/// A reply from the coordinator to a session's query.
#[derive(Debug, Clone)]
pub enum GooseControlReply {
    GooseConfiguration(GooseConfiguration),
}

/// What a control message says, with the reply slot abstracted away.
pub enum ControlView {
    Command(GooseControllerCommand),
    CommandAndValue(GooseControllerCommand, Seq<u8>),
    Request(GooseControllerCommand),
}

impl View for GooseControl {
    type V = ControlView;

    open spec fn view(&self) -> ControlView {
        match self {
            GooseControl::Command(c) => ControlView::Command(*c),
            GooseControl::CommandAndValue(cv) => ControlView::CommandAndValue(
                cv.command,
                cv.value@,
            ),
            GooseControl::Request(c, slot) => ControlView::Request(*c),
        }
    }
}

} // verus!
