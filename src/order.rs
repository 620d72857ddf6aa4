use vstd::prelude::*;

use crate::action::Action;
use crate::common::{HeaderId, NodePosition, Scalar, Trajectory};

verus! {

/// A point of an order's path.
#[derive(Clone, Debug)]
pub struct Node {
    pub node_id: String,
    /// Position in the order: nodes take the odd numbers, edges the even ones.
    pub sequence_id: u32,
    pub node_description: Option<String>,
    /// Whether the master has allowed the vehicle to go there.
    pub released: bool,
    pub node_position: Option<NodePosition>,
    pub actions: Vec<Action>,
}

/// A connection between two consecutive nodes of an order.
#[derive(Clone, Debug)]
pub struct Edge {
    pub edge_id: String,
    pub sequence_id: u32,
    pub edge_description: Option<String>,
    pub released: bool,
    pub start_node_id: String,
    pub end_node_id: String,
    pub max_speed: Option<Scalar>,
    pub max_height: Option<Scalar>,
    pub min_height: Option<Scalar>,
    pub orientation: Option<Scalar>,
    pub orientation_type: Option<String>,
    pub direction: Option<String>,
    pub rotation_allowed: Option<bool>,
    pub max_rotation_speed: Option<Scalar>,
    pub length: Option<Scalar>,
    pub trajectory: Option<Trajectory>,
    pub actions: Vec<Action>,
}

/// A path for the vehicle, as nodes joined by edges.
#[derive(Clone, Debug)]
pub struct Order {
    pub header_id: HeaderId,
    pub timestamp: String,
    pub version: String,
    pub manufacturer: String,
    pub serial_number: String,
    pub order_id: String,
    pub order_update_id: u32,
    pub zone_set_id: Option<String>,
    pub nodes: Vec<Node>,
    pub edges: Vec<Edge>,
}

} // verus!
