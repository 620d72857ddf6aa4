use vstd::prelude::*;

use crate::action::Action;
use crate::common::HeaderId;

verus! {

/// Actions that the vehicle is to run as soon as they arrive, outside any order.
#[derive(Clone, Debug)]
pub struct InstantActions {
    pub header_id: HeaderId,
    pub timestamp: String,
    pub version: String,
    pub manufacturer: String,
    pub serial_number: String,
    pub actions: Vec<Action>,
}

} // verus!
