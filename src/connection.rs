use vstd::prelude::*;

use crate::common::HeaderId;

verus! {

/// Connection message of a vehicle. The broker holds the last one as the
/// vehicle's will; an orderly shutdown reports `Offline`.
#[derive(Clone, Debug)]
pub struct Connection {
    /// Counter of this topic, raised by one with each message sent.
    pub header_id: HeaderId,
    /// ISO-8601 UTC time, `YYYY-MM-DDTHH:MM:SS.sssZ`.
    pub timestamp: String,
    /// Protocol version, `major.minor.patch`.
    pub version: String,
    pub manufacturer: String,
    pub serial_number: String,
    pub connection_state: ConnectionState,
}

/// State of the link between the vehicle and the broker.
#[derive(Clone, Copy, Debug, PartialEq, Eq, Structural)]
pub enum ConnectionState {
    /// The link is up.
    Online,
    /// The link went down in an orderly way.
    Offline,
    /// The link ended unexpectedly.
    ConnectionBroken,
}

} // verus!
