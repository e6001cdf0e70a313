//! Constants of the protocol exchanges.

use vstd::prelude::*;

verus! {

/// How many times a packet is sent again before the client gives up on it.
pub const MAX_RETRY_COUNT: u16 = 5;

/// The mailbox capacity of most actors.
pub const DEFAULT_MAILBOX_CAPACITY: usize = 64;

/// The mailbox capacity of the actors that carry publishes.
pub const MAILBOX_CAPACITY_FOR_PUBLISH: usize = 256;

/// Seconds to wait for the answer to a packet before checking on it.
pub const COMMAND_TIMEOUT_SECS: u64 = 5;

/// Seconds to wait before sending a message again after a full mailbox.
pub const RESEND_DELAY_SECS: u64 = 1;

/// Seconds between two pings.
pub const PING_INTERVAL_SECS: u64 = 10;

} // verus!
