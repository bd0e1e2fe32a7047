//! The ways a call can fail.

use vstd::prelude::*;

verus! {

/// Why a client could not be built or a `send` did not yield a body.
#[derive(Clone, Copy, Debug, PartialEq, Eq, Structural)]
pub enum Error {
    /// The default cache duration is malformed or longer than a client accepts.
    InvalidDuration,
    /// The store failed to read or to write.
    Store,
    /// A stored record is not the encoding of any entry.
    Decode,
    /// The transport failed before a response was complete.
    Transport,
    /// The server answered with the given status, which is 500 or above.
    Server(u16),
    /// The event handed to `send` does not answer the action it asked for.
    Protocol,
}

} // verus!
