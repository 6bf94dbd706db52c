//! What the library needs to know of an HCI command to read its completion.
use vstd::prelude::*;

use crate::FromHciBytes;

verus! {

/// A command that the controller answers with a Command Complete event.
pub trait SyncCmd {
    /// The opcode of the command.
    const OPCODE: u16;

    /// The return parameters of the command.
    type Return: for<'a> FromHciBytes<'a>;

    /// The connection handle (or other key) that the return parameters begin with.
    type Handle: for<'a> FromHciBytes<'a>;
}

} // verus!
