//! Names this service shares with its clients and with the other services.

use vstd::prelude::*;

pub mod known_roles;
pub mod providers_ids;
pub mod sse_events;

verus! {

/// How many items one server-sent event carries at most.
pub const SSE_DATA_CHUNK_SIZE: usize = 2_000;

} // verus!
