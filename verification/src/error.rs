//! What can go wrong between a print directive and the wire.

use vstd::prelude::*;
use crate::command::CommandKind;

verus! {

/// The failures that the library reports. None is retried internally.
#[derive(Clone, Copy, Debug, PartialEq, Eq, Structural)]
pub enum PrinterError {
    /// The transport could not be opened or did not take the bytes.
    IoFailure,
    /// The command is reserved: the protocol names it, but it has no
    /// encoding here yet.
    Unsupported(CommandKind),
    /// A numeric parameter of the command does not fit its single byte.
    InvalidParameter { kind: CommandKind, value: usize },
}

} // verus!
