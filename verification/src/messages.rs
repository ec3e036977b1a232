//! The two record shapes used to negotiate a connection handshake. They are
//! plain data carriers; the wire encoding lives with the unverified
//! serialization layer, which must keep the fixed capitalized field names
//! (`Id`, `DispatcherUrl`, `NumberOfChannels`, `SentTime`, `InitOnly`).

use vstd::prelude::*;

verus! {

/// A handshake request as read off the wire. `init_only` defaults to false
/// when the wire record omits it.
#[derive(Debug, Clone)]
pub struct WaiterRequest {
    pub id: String,
    pub router_url: String,
    pub number_of_channels: u8,
    pub sent_time: String,
    pub init_only: bool,
}

/// A handshake response: the identifier echoed back.
#[derive(Debug, Clone)]
pub struct WaiterResponse {
    pub id: String,
}

} // verus!
