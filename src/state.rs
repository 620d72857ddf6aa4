use vstd::prelude::*;

use crate::action::Action;
use crate::common::{same_trajectory, AgvPosition, HeaderId, NodePosition, Scalar, Trajectory, Velocity};
use crate::order::{Edge, Node};

verus! {

/// Progress of one action.
#[derive(Clone, Copy, Debug, PartialEq, Eq, Structural)]
pub enum ActionStatus {
    Waiting,
    Initializing,
    Running,
    Paused,
    Finished,
    Failed,
}

/// Progress report of one action of the order or of the instant actions.
#[derive(Clone, Debug)]
pub struct ActionState {
    pub action_id: String,
    pub action_type: Option<String>,
    pub action_description: Option<String>,
    pub action_status: ActionStatus,
    pub result_description: Option<String>,
}

/// A node of the current order that the vehicle has not passed yet.
#[derive(Clone, Debug)]
pub struct NodeState {
    pub node_id: String,
    pub sequence_id: u32,
    pub node_description: Option<String>,
    pub released: bool,
    pub node_position: Option<NodePosition>,
}

/// An edge of the current order that the vehicle has not passed yet.
#[derive(Clone, Debug)]
pub struct EdgeState {
    pub edge_id: String,
    pub sequence_id: u32,
    pub edge_description: Option<String>,
    pub released: bool,
    pub trajectory: Option<Trajectory>,
}

/// Who is in control of the vehicle.
#[derive(Clone, Copy, Debug, PartialEq, Eq, Structural)]
pub enum OperatingMode {
    Automatic,
    Semiautomatic,
    Manual,
    Service,
    Teachin,
}

#[derive(Clone, Copy, Debug, PartialEq, Eq, Structural)]
pub struct BatteryState {
    /// State of charge, in percent.
    pub battery_charge: Scalar,
    pub battery_voltage: Option<Scalar>,
    pub battery_health: Option<i8>,
    pub charging: bool,
    /// Reach with the present charge, in metres.
    pub reach: Option<u32>,
}

/// Emergency stop in effect.
#[derive(Clone, Copy, Debug, PartialEq, Eq, Structural)]
pub enum EStop {
    Autoack,
    Manual,
    Remote,
    /// No emergency stop (`NONE` on the wire).
    NoStop,
}

#[derive(Clone, Copy, Debug, PartialEq, Eq, Structural)]
pub struct SafetyState {
    pub e_stop: EStop,
    pub field_violation: bool,
}

/// An information entry of the state message.
#[derive(Clone, Debug)]
pub struct Information {
    pub info_type: String,
    pub info_description: Option<String>,
    pub info_level: String,
}

/// A load on the vehicle.
#[derive(Clone, Debug)]
pub struct Load {
    pub load_id: Option<String>,
    pub load_type: Option<String>,
    pub load_position: Option<String>,
}

/// An error entry of the state message.
#[derive(Clone, Debug)]
pub struct ErrorEntry {
    pub error_type: String,
    pub error_description: Option<String>,
    pub error_level: String,
}

/// State message of a vehicle.
#[derive(Clone, Debug)]
pub struct State {
    pub header_id: HeaderId,
    pub timestamp: String,
    pub version: String,
    pub manufacturer: String,
    pub serial_number: String,
    pub driving: bool,
    pub distance_since_last_node: Option<Scalar>,
    pub operating_mode: OperatingMode,
    pub node_states: Vec<NodeState>,
    pub edge_states: Vec<EdgeState>,
    pub last_node_id: String,
    pub order_id: String,
    pub order_update_id: u32,
    pub last_node_sequence_id: u32,
    pub action_states: Vec<ActionState>,
    pub information: Vec<Information>,
    pub loads: Vec<Load>,
    pub errors: Vec<ErrorEntry>,
    pub battery_state: BatteryState,
    pub safety_state: SafetyState,
    pub paused: Option<bool>,
    pub new_base_request: Option<bool>,
    pub agv_position: Option<AgvPosition>,
    pub velocity: Option<Velocity>,
    pub zone_set_id: Option<String>,
}

/// The node state that an accepted order's node becomes.
pub open spec fn node_state_of(n: Node) -> NodeState {
    NodeState {
        node_id: n.node_id,
        sequence_id: n.sequence_id,
        node_description: n.node_description,
        released: n.released,
        node_position: n.node_position,
    }
}

/// `s` is the edge state that the accepted order's edge `e` becomes.
pub open spec fn is_edge_state_of(s: EdgeState, e: Edge) -> bool {
    &&& s.edge_id == e.edge_id
    &&& s.sequence_id == e.sequence_id
    &&& s.edge_description == e.edge_description
    &&& s.released == e.released
    &&& same_trajectory(s.trajectory, e.trajectory)
}

/// The waiting action state that an action of an accepted order starts with.
pub open spec fn order_action_state(a: Action) -> ActionState {
    ActionState {
        action_id: a.action_id,
        action_type: Some(a.action_type),
        action_description: a.action_description,
        action_status: ActionStatus::Waiting,
        result_description: None,
    }
}

/// The waiting action state that an instant action starts with.
pub open spec fn instant_action_state(a: Action) -> ActionState {
    ActionState {
        action_id: a.action_id,
        action_type: Some(a.action_type),
        action_description: None,
        action_status: ActionStatus::Waiting,
        result_description: None,
    }
}

/// The action states of the nodes' actions, node by node, in order.
pub open spec fn node_action_states(nodes: Seq<Node>) -> Seq<ActionState>
    decreases nodes.len(),
{
    if nodes.len() == 0 {
        Seq::empty()
    } else {
        node_action_states(nodes.drop_last()) + nodes.last().actions@.map_values(
            |a: Action| order_action_state(a),
        )
    }
}

/// The action states of the edges' actions, edge by edge, in order.
pub open spec fn edge_action_states(edges: Seq<Edge>) -> Seq<ActionState>
    decreases edges.len(),
{
    if edges.len() == 0 {
        Seq::empty()
    } else {
        edge_action_states(edges.drop_last()) + edges.last().actions@.map_values(
            |a: Action| order_action_state(a),
        )
    }
}

impl NodeState {
    /// The node state of an order's node.
    pub fn from_node(n: &Node) -> (r: NodeState)
        ensures
            r == node_state_of(*n),
    {
        NodeState {
            node_id: n.node_id.clone(),
            sequence_id: n.sequence_id,
            node_description: n.node_description.clone(),
            released: n.released,
            node_position: match &n.node_position {
                Some(p) => Some(p.clone()),
                None => None,
            },
        }
    }
}

impl EdgeState {
    /// The edge state of an order's edge.
    pub fn from_edge(e: &Edge) -> (r: EdgeState)
        ensures
            is_edge_state_of(r, *e),
    {
        EdgeState {
            edge_id: e.edge_id.clone(),
            sequence_id: e.sequence_id,
            edge_description: e.edge_description.clone(),
            released: e.released,
            trajectory: match &e.trajectory {
                Some(t) => Some(t.clone()),
                None => None,
            },
        }
    }
}

/// `s` with status `status`.
pub open spec fn with_status(s: ActionState, status: ActionStatus) -> ActionState {
    ActionState { action_status: status, ..s }
}

impl ActionState {
    /// A copy of this state with status `status`.
    pub fn with_status(&self, status: ActionStatus) -> (r: ActionState)
        ensures
            r == with_status(*self, status),
    {
        ActionState {
            action_id: self.action_id.clone(),
            action_type: self.action_type.clone(),
            action_description: self.action_description.clone(),
            action_status: status,
            result_description: self.result_description.clone(),
        }
    }

    /// The waiting state of an action of an order.
    pub fn for_order_action(a: &Action) -> (r: ActionState)
        ensures
            r == order_action_state(*a),
    {
        ActionState {
            action_id: a.action_id.clone(),
            action_type: Some(a.action_type.clone()),
            action_description: a.action_description.clone(),
            action_status: ActionStatus::Waiting,
            result_description: None,
        }
    }

    /// The waiting state of an instant action.
    pub fn for_instant_action(a: &Action) -> (r: ActionState)
        ensures
            r == instant_action_state(*a),
    {
        ActionState {
            action_id: a.action_id.clone(),
            action_type: Some(a.action_type.clone()),
            action_description: None,
            action_status: ActionStatus::Waiting,
            result_description: None,
        }
    }
}

} // verus!
