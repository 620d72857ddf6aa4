use vstd::prelude::*;

use crate::common::{AgvPosition, HeaderId, Velocity};

verus! {

/// Position report, sent more often than the state.
#[derive(Clone, Debug)]
pub struct Visualization {
    pub header_id: HeaderId,
    pub timestamp: String,
    pub version: String,
    pub manufacturer: String,
    pub serial_number: String,
    pub agv_position: Option<AgvPosition>,
    pub velocity: Option<Velocity>,
}

} // verus!
