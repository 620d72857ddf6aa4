use vstd::prelude::*;

use crate::action::{real_param, text_param, Action};
use crate::common::{position_view, AgvPosition, NodePosition, PositionView, Scalar, Trajectory};
use crate::config::Config;
use crate::connection::{Connection, ConnectionState};
use crate::instant_actions::InstantActions;
use crate::mqtt_utils::Topics;
use crate::order::{Edge, Node, Order};
use crate::state::{
    instant_action_state, ActionState, ActionStatus, BatteryState, EStop, EdgeState, NodeState,
    OperatingMode, SafetyState, State, with_status, node_state_of, is_edge_state_of,
    order_action_state, node_action_states, edge_action_states,
};
use crate::utils::{first_index, get_timestamp, now_seconds, str_eq};
use crate::visualization::Visualization;

verus! {

/// Bit pattern of the real number one hundred: a full battery, in percent.
pub const FULL_CHARGE_BITS: u32 = 0x42c8_0000;

/// One simulated vehicle: its messages, the order it follows and the
/// instant actions it was sent.
pub struct VehicleSimulator {
    pub topics: Topics,
    pub connection: Connection,
    pub state: State,
    pub visualization: Visualization,
    pub order: Option<Order>,
    pub instant_actions: Option<InstantActions>,
    pub config: Config,
    /// When the node action now running started, in seconds since the epoch.
    pub action_start_time: Option<i64>,
}

/// The part of a vehicle that orders, actions and motion change.
pub struct EngineModel {
    pub action_states: Seq<ActionState>,
    pub node_states: Seq<NodeState>,
    pub edge_states: Seq<EdgeState>,
    pub agv_position: Option<PositionView>,
    /// The position that the visualization message reports.
    pub shown_position: Option<PositionView>,
    pub last_node_id: Seq<char>,
    pub last_node_sequence_id: u32,
    pub order_id: Seq<char>,
    pub order_update_id: u32,
    pub action_start_time: Option<i64>,
}

impl View for VehicleSimulator {
    type V = EngineModel;

    open spec fn view(&self) -> EngineModel {
        EngineModel {
            action_states: self.state.action_states@,
            node_states: self.state.node_states@,
            edge_states: self.state.edge_states@,
            agv_position: position_view(self.state.agv_position),
            shown_position: position_view(self.visualization.agv_position),
            last_node_id: self.state.last_node_id@,
            last_node_sequence_id: self.state.last_node_sequence_id,
            order_id: self.state.order_id@,
            order_update_id: self.state.order_update_id,
            action_start_time: self.action_start_time,
        }
    }
}

/// Whether the vehicle knows where it is.
pub open spec fn position_initialized(m: EngineModel) -> bool {
    match m.agv_position {
        Some(p) => p.position_initialized,
        None => false,
    }
}

/// The three header counters: connection, state, visualization.
pub open spec fn header_ids(v: VehicleSimulator) -> (u32, u32, u32) {
    (v.connection.header_id, v.state.header_id, v.visualization.header_id)
}

/// What no order, action or motion step touches: the messages' headers and
/// identity, the fixed parts of the state, the order and instant actions
/// held, and the configuration.
pub open spec fn same_frame(a: VehicleSimulator, b: VehicleSimulator) -> bool {
    &&& a.topics == b.topics
    &&& a.connection == b.connection
    &&& a.config == b.config
    &&& a.state.header_id == b.state.header_id
    &&& a.state.timestamp == b.state.timestamp
    &&& a.state.version == b.state.version
    &&& a.state.manufacturer == b.state.manufacturer
    &&& a.state.serial_number == b.state.serial_number
    &&& a.state.driving == b.state.driving
    &&& a.state.distance_since_last_node == b.state.distance_since_last_node
    &&& a.state.operating_mode == b.state.operating_mode
    &&& a.state.information == b.state.information
    &&& a.state.loads == b.state.loads
    &&& a.state.errors == b.state.errors
    &&& a.state.battery_state == b.state.battery_state
    &&& a.state.safety_state == b.state.safety_state
    &&& a.state.paused == b.state.paused
    &&& a.state.new_base_request == b.state.new_base_request
    &&& a.state.velocity == b.state.velocity
    &&& a.state.zone_set_id == b.state.zone_set_id
    &&& a.visualization.header_id == b.visualization.header_id
    &&& a.visualization.timestamp == b.visualization.timestamp
    &&& a.visualization.version == b.visualization.version
    &&& a.visualization.manufacturer == b.visualization.manufacturer
    &&& a.visualization.serial_number == b.visualization.serial_number
    &&& a.visualization.velocity == b.visualization.velocity
}

/// The position that a vehicle of `config` starts from: the given point,
/// heading zero, not initialized, on the configured map.
pub open spec fn start_position(config: Config, x: Scalar, y: Scalar) -> PositionView {
    PositionView {
        x,
        y,
        theta: Scalar { bits: 0 },
        position_initialized: false,
        map_id: config.settings.map_id@,
        deviation_range: None,
        map_description: None,
        localization_score: None,
    }
}

/// A fresh vehicle: no order, no actions, no nodes passed.
pub open spec fn initial_model(config: Config, x: Scalar, y: Scalar) -> EngineModel {
    EngineModel {
        action_states: Seq::empty(),
        node_states: Seq::empty(),
        edge_states: Seq::empty(),
        agv_position: Some(start_position(config, x, y)),
        shown_position: Some(start_position(config, x, y)),
        last_node_id: Seq::empty(),
        last_node_sequence_id: 0,
        order_id: Seq::empty(),
        order_update_id: 0,
        action_start_time: None,
    }
}

/// Whether an order with another id may start: nothing left of the last
/// order, and the vehicle knows where it is.
pub open spec fn ready_for_new_order(m: EngineModel) -> bool {
    m.node_states.len() == 0 && m.edge_states.len() == 0 && position_initialized(m)
}

/// Index of the first action state with id `id`.
pub open spec fn action_state_index(states: Seq<ActionState>, id: Seq<char>) -> Option<int> {
    first_index(states, |s: ActionState| s.action_id@ == id)
}

/// Where an `initPosition` action puts the vehicle: at the action's `x`,
/// `y` and `theta` on map `mapId`, initialized.
pub open spec fn init_position_of(a: Action) -> PositionView {
    PositionView {
        x: real_param(a, "x"@),
        y: real_param(a, "y"@),
        theta: real_param(a, "theta"@),
        position_initialized: true,
        map_id: text_param(a, "mapId"@),
        deviation_range: None,
        map_description: None,
        localization_score: None,
    }
}

/// Running action `a`: its state (the first with its id) ends finished; an
/// `initPosition` action also sets the position, shown and reported, and
/// the last node. Without a state of its id nothing happens.
pub open spec fn run_action_model(m: EngineModel, a: Action) -> EngineModel {
    match action_state_index(m.action_states, a.action_id@) {
        None => m,
        Some(i) => {
            let done = EngineModel {
                action_states: m.action_states.update(
                    i,
                    with_status(m.action_states[i], ActionStatus::Finished),
                ),
                ..m
            };
            if a.action_type@ == "initPosition"@ {
                EngineModel {
                    agv_position: Some(init_position_of(a)),
                    shown_position: Some(init_position_of(a)),
                    last_node_id: text_param(a, "lastNodeId"@),
                    ..done
                }
            } else {
                done
            }
        },
    }
}

/// Going through `acts` in order and running each whose state is waiting.
pub open spec fn instant_actions_model(m: EngineModel, acts: Seq<Action>) -> EngineModel
    decreases acts.len(),
{
    if acts.len() == 0 {
        m
    } else {
        let before = instant_actions_model(m, acts.drop_last());
        let a = acts.last();
        match action_state_index(before.action_states, a.action_id@) {
            Some(i) => if before.action_states[i].action_status == ActionStatus::Waiting {
                run_action_model(before, a)
            } else {
                before
            },
            None => before,
        }
    }
}

/// The instant actions that a vehicle holds.
pub open spec fn held_instant_actions(v: VehicleSimulator) -> Seq<Action> {
    match v.instant_actions {
        Some(ia) => ia.actions@,
        None => Seq::empty(),
    }
}

/// Some node of the order is not released yet.
pub open spec fn has_unreleased_node(m: EngineModel) -> bool {
    exists|i: int| 0 <= i < m.node_states.len() && !m.node_states[i].released
}

/// Where some node is not released yet, the vehicle stands at the first
/// node left.
pub open spec fn arrived_at_released_node(m: EngineModel) -> bool {
    has_unreleased_node(m) ==> m.node_states[0].sequence_id == m.last_node_sequence_id
}

/// The vehicle's and the first released node's coordinates, `(x, y, node x,
/// node y)`, where there is a released node with a position (and a vehicle
/// position). A new order waits until the vehicle is near that node.
pub open spec fn proximity_query(m: EngineModel) -> Option<(Scalar, Scalar, Scalar, Scalar)> {
    match first_index(m.node_states, |n: NodeState| n.released) {
        Some(i) => match (m.node_states[i].node_position, m.agv_position) {
            (Some(np), Some(vp)) => Some((vp.x, vp.y, np.x, np.y)),
            _ => None,
        },
        None => None,
    }
}

/// Whether the vehicle takes order `o`, given whether it stands within
/// reach of the first released node (`near`, which matters only where
/// `proximity_query` has something to measure).
///
/// An order with a new id needs a vehicle ready for it; an order with the
/// current id is an update and needs a greater update id.
pub open spec fn order_accepted(m: EngineModel, o: Order, near: bool) -> bool {
    let is_new = o.order_id@ != m.order_id;
    &&& is_new || o.order_update_id > m.order_update_id
    &&& arrived_at_released_node(m)
    &&& proximity_query(m) is None || near
    &&& is_new ==> ready_for_new_order(m)
}

/// `after` is `before` with order `o` taken: its ids, one node state per
/// node and one edge state per edge, a waiting action state per action of
/// the nodes and then of the edges; a first version of an order restarts
/// the count of nodes passed.
pub open spec fn took_order(before: EngineModel, o: Order, after: EngineModel) -> bool {
    &&& after.order_id == o.order_id@
    &&& after.order_update_id == o.order_update_id
    &&& after.last_node_sequence_id == (if o.order_update_id == 0 {
        0
    } else {
        before.last_node_sequence_id
    })
    &&& after.node_states == o.nodes@.map_values(|n: Node| node_state_of(n))
    &&& after.edge_states.len() == o.edges@.len()
    &&& forall|i: int|
        0 <= i < o.edges@.len() ==> #[trigger] is_edge_state_of(after.edge_states[i], o.edges@[i])
    &&& after.action_states == node_action_states(o.nodes@) + edge_action_states(o.edges@)
    &&& after.agv_position == before.agv_position
    &&& after.shown_position == before.shown_position
    &&& after.last_node_id == before.last_node_id
    &&& after.action_start_time == before.action_start_time
}

/// Adds a waiting action state for each of `acts`.
fn push_order_action_states(acts: &Vec<Action>, out: &mut Vec<ActionState>)
    ensures
        final(out)@ == old(out)@ + acts@.map_values(|a: Action| order_action_state(a)),
{
    let mut i: usize = 0;
    while i < acts.len()
        invariant
            i <= acts@.len(),
            out@ == old(out)@ + acts@.subrange(0, i as int).map_values(
                |a: Action| order_action_state(a),
            ),
        decreases acts.len() - i,
    {
        out.push(ActionState::for_order_action(&acts[i]));
        i = i + 1;
        proof {
            assert(out@ =~= old(out)@ + acts@.subrange(0, i as int).map_values(
                |a: Action| order_action_state(a),
            ));
        }
    }
    proof {
        assert(acts@.subrange(0, i as int) =~= acts@);
    }
}

/// The node states of `nodes`; adds the action states of their actions.
fn project_nodes(nodes: &Vec<Node>, out: &mut Vec<ActionState>) -> (r: Vec<NodeState>)
    ensures
        r@ == nodes@.map_values(|n: Node| node_state_of(n)),
        final(out)@ == old(out)@ + node_action_states(nodes@),
{
    let mut r: Vec<NodeState> = Vec::new();
    let mut i: usize = 0;
    while i < nodes.len()
        invariant
            i <= nodes@.len(),
            r@ == nodes@.subrange(0, i as int).map_values(|n: Node| node_state_of(n)),
            out@ == old(out)@ + node_action_states(nodes@.subrange(0, i as int)),
        decreases nodes.len() - i,
    {
        r.push(NodeState::from_node(&nodes[i]));
        push_order_action_states(&nodes[i].actions, out);
        proof {
            let next = nodes@.subrange(0, i + 1);
            assert(next.drop_last() =~= nodes@.subrange(0, i as int));
            assert(next.last() == nodes@[i as int]);
        }
        i = i + 1;
        proof {
            assert(r@ =~= nodes@.subrange(0, i as int).map_values(|n: Node| node_state_of(n)));
            assert(out@ =~= old(out)@ + node_action_states(nodes@.subrange(0, i as int)));
        }
    }
    proof {
        assert(nodes@.subrange(0, i as int) =~= nodes@);
    }
    r
}

/// The edge states of `edges`; adds the action states of their actions.
fn project_edges(edges: &Vec<Edge>, out: &mut Vec<ActionState>) -> (r: Vec<EdgeState>)
    ensures
        r@.len() == edges@.len(),
        forall|i: int| 0 <= i < edges@.len() ==> #[trigger] is_edge_state_of(r@[i], edges@[i]),
        final(out)@ == old(out)@ + edge_action_states(edges@),
{
    let mut r: Vec<EdgeState> = Vec::new();
    let mut i: usize = 0;
    while i < edges.len()
        invariant
            i <= edges@.len(),
            r@.len() == i,
            forall|j: int| 0 <= j < i ==> #[trigger] is_edge_state_of(r@[j], edges@[j]),
            out@ == old(out)@ + edge_action_states(edges@.subrange(0, i as int)),
        decreases edges.len() - i,
    {
        r.push(EdgeState::from_edge(&edges[i]));
        push_order_action_states(&edges[i].actions, out);
        proof {
            let next = edges@.subrange(0, i + 1);
            assert(next.drop_last() =~= edges@.subrange(0, i as int));
            assert(next.last() == edges@[i as int]);
        }
        i = i + 1;
        proof {
            assert(out@ =~= old(out)@ + edge_action_states(edges@.subrange(0, i as int)));
        }
    }
    proof {
        assert(edges@.subrange(0, i as int) =~= edges@);
    }
    r
}

/// A step of the vehicle towards the next node, for the caller to compute:
/// from the vehicle's position towards `target`, along `trajectory` where the
/// edge to that node has one and straight on otherwise, by `speed`.
#[derive(Clone, Debug)]
pub struct MotionPlan {
    /// Index of the target among the node states.
    pub node_index: usize,
    pub node_id: String,
    pub sequence_id: u32,
    pub from_x: Scalar,
    pub from_y: Scalar,
    pub target: NodePosition,
    pub trajectory: Option<Trajectory>,
    pub speed: Scalar,
}

/// The outcome of a motion step: the new pose, and whether the vehicle was
/// within reach of the target node before the step (its distance then below
/// `speed + 0.1`).
#[derive(Clone, Copy, Debug, PartialEq, Eq, Structural)]
pub struct MotionStep {
    pub x: Scalar,
    pub y: Scalar,
    pub theta: Scalar,
    pub arrived: bool,
}

/// Whether a node action started at `start` still blocks the vehicle at
/// time `now` (seconds), for actions that take `action_time` seconds.
pub open spec fn action_in_progress(start: Option<i64>, action_time: i64, now: i64) -> bool {
    match start {
        Some(t) => now < t + action_time,
        None => false,
    }
}

/// A node with sequence id `seq`.
pub open spec fn node_with_sequence(seq: u32) -> spec_fn(Node) -> bool {
    |n: Node| n.sequence_id == seq
}

/// A node state with sequence id `seq`.
pub open spec fn node_state_with_sequence(seq: u32) -> spec_fn(NodeState) -> bool {
    |n: NodeState| n.sequence_id == seq
}

/// An edge state just before sequence id `seq`.
pub open spec fn edge_state_before(seq: u32) -> spec_fn(EdgeState) -> bool {
    |e: EdgeState| e.sequence_id + 1 == seq
}

/// Index of the order's node with sequence id `seq`, the first such.
pub open spec fn order_node_index(o: Order, seq: u32) -> Option<int> {
    first_index(o.nodes@, node_with_sequence(seq))
}

/// `s` waits and belongs to one of `acts`.
pub open spec fn is_due_among(acts: Seq<Action>, s: ActionState) -> bool {
    s.action_status == ActionStatus::Waiting && exists|k: int|
        0 <= k < acts.len() && #[trigger] acts[k].action_id@ == s.action_id@
}

/// An action state that waits and belongs to one of `acts`.
pub open spec fn due_among(acts: Seq<Action>) -> spec_fn(ActionState) -> bool {
    |s: ActionState| is_due_among(acts, s)
}

/// The actions of the order's node where the vehicle last stopped finish one
/// per tick: the first waiting action state of one of them finishes, and the
/// vehicle then waits for the action time from `now` on.
pub open spec fn node_actions_model(m: EngineModel, o: Order, now: i64) -> EngineModel {
    match order_node_index(o, m.last_node_sequence_id) {
        Some(n) => match first_index(m.action_states, due_among(o.nodes@[n].actions@)) {
            Some(i) => EngineModel {
                action_states: m.action_states.update(
                    i,
                    with_status(m.action_states[i], ActionStatus::Finished),
                ),
                action_start_time: Some(now),
                ..m
            },
            None => m,
        },
        None => m,
    }
}

/// Index of the node state where the vehicle last stopped; the first
/// node state where none matches.
pub open spec fn last_node_index(m: EngineModel) -> int {
    match first_index(m.node_states, node_state_with_sequence(m.last_node_sequence_id)) {
        Some(i) => i,
        None => 0,
    }
}

/// Index of the node state to drive to: the one after the node where the
/// vehicle last stopped, if it is released and has a position.
pub open spec fn next_node_index(m: EngineModel) -> Option<int> {
    if m.agv_position is None || m.node_states.len() <= 1 {
        None
    } else {
        let k = last_node_index(m) + 1;
        if k >= m.node_states.len() {
            None
        } else if !m.node_states[k].released || m.node_states[k].node_position is None {
            None
        } else {
            Some(k)
        }
    }
}

/// Index of the edge state that leads to node state `k`.
pub open spec fn edge_into(m: EngineModel, k: int) -> Option<int> {
    first_index(m.edge_states, edge_state_before(m.node_states[k].sequence_id))
}

/// Planning a step: where a single node state is left, the vehicle counts
/// as there and it goes; nothing else changes.
pub open spec fn plan_model(m: EngineModel) -> EngineModel {
    if m.agv_position is Some && m.node_states.len() == 1 {
        EngineModel { node_states: m.node_states.drop_first(), ..m }
    } else {
        m
    }
}

/// `p` is the plan for driving to node state `k` of `m` at `speed`.
pub open spec fn plan_for(p: MotionPlan, m: EngineModel, speed: Scalar, k: int) -> bool {
    &&& p.node_index == k
    &&& p.node_id == m.node_states[k].node_id
    &&& p.sequence_id == m.node_states[k].sequence_id
    &&& Some(p.target) == m.node_states[k].node_position
    &&& p.from_x == m.agv_position.unwrap().x
    &&& p.from_y == m.agv_position.unwrap().y
    &&& p.speed == speed
    &&& match edge_into(m, k) {
        Some(e) => crate::common::same_trajectory(p.trajectory, m.edge_states[e].trajectory),
        None => p.trajectory is None,
    }
}

/// `s` without its head, where it has one.
pub open spec fn without_head<T>(s: Seq<T>) -> Seq<T> {
    if s.len() > 0 {
        s.drop_first()
    } else {
        s
    }
}

/// After a step: the new pose, reported and shown; where the vehicle
/// arrived, the heads of the node and edge states go and the target is the
/// last node passed.
pub open spec fn moved_model(m: EngineModel, node_id: Seq<char>, sequence_id: u32, step: MotionStep) -> EngineModel {
    let posed = match m.agv_position {
        Some(p) => {
            let q = PositionView { x: step.x, y: step.y, theta: step.theta, ..p };
            EngineModel { agv_position: Some(q), shown_position: Some(q), ..m }
        },
        None => m,
    };
    if step.arrived {
        EngineModel {
            node_states: without_head(posed.node_states),
            edge_states: without_head(posed.edge_states),
            last_node_id: node_id,
            last_node_sequence_id: sequence_id,
            ..posed
        }
    } else {
        posed
    }
}

/// One tick up to the motion step: nothing while a node action runs; else
/// the waiting instant actions run and, with an order, one node action and
/// the planning of a step.
pub open spec fn tick_model(v: VehicleSimulator, now: i64) -> EngineModel {
    if action_in_progress(v.action_start_time, v.config.settings.action_time, now) {
        v@
    } else {
        let m = instant_actions_model(v@, held_instant_actions(v));
        match v.order {
            Some(o) => plan_model(node_actions_model(m, o, now)),
            None => m,
        }
    }
}

/// The state from which a tick at `now` plans its step, where it plans one.
pub open spec fn planning_model(v: VehicleSimulator, now: i64) -> Option<EngineModel> {
    if action_in_progress(v.action_start_time, v.config.settings.action_time, now) {
        None
    } else {
        match v.order {
            Some(o) => Some(
                node_actions_model(instant_actions_model(v@, held_instant_actions(v)), o, now),
            ),
            None => None,
        }
    }
}

/// Running an action never takes back an initialized position.
pub proof fn lemma_run_action_keeps_initialized(m: EngineModel, a: Action)
    ensures
        position_initialized(m) ==> position_initialized(run_action_model(m, a)),
{
}

/// Running actions never takes back an initialized position.
pub proof fn lemma_instant_actions_keep_initialized(m: EngineModel, acts: Seq<Action>)
    ensures
        position_initialized(m) ==> position_initialized(instant_actions_model(m, acts)),
    decreases acts.len(),
{
    if acts.len() > 0 {
        lemma_instant_actions_keep_initialized(m, acts.drop_last());
        lemma_run_action_keeps_initialized(instant_actions_model(m, acts.drop_last()), acts.last());
    }
}

/// Whatever keeps the frame keeps the three header counters: only the
/// snapshot operations move them, each by one.
pub proof fn lemma_frame_keeps_header_ids(a: VehicleSimulator, b: VehicleSimulator)
    requires
        same_frame(b, a),
    ensures
        header_ids(b) == header_ids(a),
{
}

/// A taken order sets the order id and update id, and gives one node state
/// per node and one edge state per edge.
pub proof fn lemma_taken_order_shape(before: EngineModel, o: Order, after: EngineModel)
    requires
        took_order(before, o, after),
    ensures
        after.order_id == o.order_id@,
        after.order_update_id == o.order_update_id,
        after.node_states.len() == o.nodes@.len(),
        after.edge_states.len() == o.edges@.len(),
{
}

/// A fresh vehicle, whose position is not initialized, takes no order,
/// except an update (a greater update id) of the empty order id.
pub proof fn lemma_fresh_vehicle_refuses_orders(
    config: Config,
    x: Scalar,
    y: Scalar,
    o: Order,
    near: bool,
)
    requires
        o.order_id@ != Seq::<char>::empty() || o.order_update_id == 0,
    ensures
        !order_accepted(initial_model(config, x, y), o, near),
{
}

/// An order with the current order id and an update id no greater than the
/// current one is refused.
pub proof fn lemma_stale_update_refused(m: EngineModel, o: Order, near: bool)
    requires
        o.order_id@ == m.order_id,
        o.order_update_id <= m.order_update_id,
    ensures
        !order_accepted(m, o, near),
{
}

/// Index of the first node of `order` with sequence id `seq`.
fn find_order_node(order: &Order, seq: u32) -> (r: Option<usize>)
    ensures
        match r {
            Some(n) => order_node_index(*order, seq) == Some(n as int) && n < order.nodes@.len(),
            None => order_node_index(*order, seq) is None,
        },
{
    let mut n: usize = 0;
    while n < order.nodes.len()
        invariant
            n <= order.nodes@.len(),
            order_node_index(*order, seq) == crate::utils::first_from(
                order.nodes@,
                node_with_sequence(seq),
                n as int,
            ),
        decreases order.nodes.len() - n,
    {
        if order.nodes[n].sequence_id == seq {
            return Some(n);
        }
        n = n + 1;
    }
    None
}

/// Index of the first node state with sequence id `seq`.
fn find_node_state(states: &Vec<NodeState>, seq: u32) -> (r: Option<usize>)
    ensures
        match r {
            Some(n) => first_index(states@, node_state_with_sequence(seq)) == Some(n as int) && n
                < states@.len(),
            None => first_index(states@, node_state_with_sequence(seq)) is None,
        },
{
    let mut n: usize = 0;
    while n < states.len()
        invariant
            n <= states@.len(),
            first_index(states@, node_state_with_sequence(seq)) == crate::utils::first_from(
                states@,
                node_state_with_sequence(seq),
                n as int,
            ),
        decreases states.len() - n,
    {
        if states[n].sequence_id == seq {
            return Some(n);
        }
        n = n + 1;
    }
    None
}

/// Index of the first edge state just before sequence id `seq`.
fn find_edge_into(states: &Vec<EdgeState>, seq: u32) -> (r: Option<usize>)
    ensures
        match r {
            Some(n) => first_index(states@, edge_state_before(seq)) == Some(n as int) && n
                < states@.len(),
            None => first_index(states@, edge_state_before(seq)) is None,
        },
{
    let mut n: usize = 0;
    while n < states.len()
        invariant
            n <= states@.len(),
            first_index(states@, edge_state_before(seq)) == crate::utils::first_from(
                states@,
                edge_state_before(seq),
                n as int,
            ),
        decreases states.len() - n,
    {
        if states[n].sequence_id as u64 + 1 == seq as u64 {
            return Some(n);
        }
        n = n + 1;
    }
    None
}

/// Whether `s` waits and belongs to one of `acts`.
fn is_due(acts: &Vec<Action>, s: &ActionState) -> (r: bool)
    ensures
        r == is_due_among(acts@, *s),
{
    if s.action_status != ActionStatus::Waiting {
        return false;
    }
    let mut j: usize = 0;
    while j < acts.len()
        invariant
            j <= acts@.len(),
            s.action_status == ActionStatus::Waiting,
            forall|k: int| 0 <= k < j ==> #[trigger] acts@[k].action_id@ != s.action_id@,
        decreases acts.len() - j,
    {
        if acts[j].action_id == s.action_id {
            assert(acts@[j as int].action_id@ == s.action_id@);
            return true;
        }
        j = j + 1;
    }
    false
}

/// Index of the first action state that waits and belongs to one of `acts`.
fn first_due_state(states: &Vec<ActionState>, acts: &Vec<Action>) -> (r: Option<usize>)
    ensures
        match r {
            Some(i) => first_index(states@, due_among(acts@)) == Some(i as int) && i
                < states@.len(),
            None => first_index(states@, due_among(acts@)) is None,
        },
{
    let mut i: usize = 0;
    while i < states.len()
        invariant
            i <= states@.len(),
            first_index(states@, due_among(acts@)) == crate::utils::first_from(
                states@,
                due_among(acts@),
                i as int,
            ),
        decreases states.len() - i,
    {
        if is_due(acts, &states[i]) {
            return Some(i);
        }
        i = i + 1;
    }
    None
}

impl VehicleSimulator {
    /// Index of the first action state with id `action_id`.
    fn find_action_state_index(&self, action_id: &String) -> (r: Option<usize>)
        ensures
            match r {
                Some(i) => action_state_index(self@.action_states, action_id@) == Some(i as int)
                    && i < self@.action_states.len(),
                None => action_state_index(self@.action_states, action_id@) is None,
            },
    {
        proof {
            crate::utils::lemma_first_from(
                self@.action_states,
                |s: ActionState| s.action_id@ == action_id@,
                0,
            );
        }
        let mut i: usize = 0;
        while i < self.state.action_states.len()
            invariant
                i <= self.state.action_states@.len(),
                action_state_index(self@.action_states, action_id@) == crate::utils::first_from(
                    self@.action_states,
                    |s: ActionState| s.action_id@ == action_id@,
                    i as int,
                ),
            decreases self.state.action_states.len() - i,
        {
            if self.state.action_states[i].action_id == *action_id {
                return Some(i);
            }
            i = i + 1;
        }
        None
    }

    /// Keeps `instant_action_request` as the instant actions to run, and adds
    /// a waiting action state for each of its actions.
    pub fn accept_instant_actions(&mut self, instant_action_request: InstantActions)
        ensures
            final(self)@ == (EngineModel {
                action_states: old(self)@.action_states + instant_action_request.actions@.map_values(
                    |a: Action| instant_action_state(a),
                ),
                ..old(self)@
            }),
            final(self).instant_actions == Some(instant_action_request),
            final(self).order == old(self).order,
            same_frame(*final(self), *old(self)),
            position_initialized(old(self)@) ==> position_initialized(final(self)@),
    {
        let mut added: Vec<ActionState> = Vec::new();
        let mut i: usize = 0;
        while i < instant_action_request.actions.len()
            invariant
                i <= instant_action_request.actions@.len(),
                added@ == instant_action_request.actions@.subrange(0, i as int).map_values(
                    |a: Action| instant_action_state(a),
                ),
            decreases instant_action_request.actions.len() - i,
        {
            added.push(ActionState::for_instant_action(&instant_action_request.actions[i]));
            i = i + 1;
            proof {
                assert(added@ =~= instant_action_request.actions@.subrange(0, i as int).map_values(
                    |a: Action| instant_action_state(a),
                ));
            }
        }
        proof {
            assert(instant_action_request.actions@.subrange(0, i as int)
                =~= instant_action_request.actions@);
        }
        self.state.action_states.append(&mut added);
        self.instant_actions = Some(instant_action_request);
    }

    /// Runs `action`: the first action state with its id goes to running and,
    /// once the action is done, to finished. `initPosition` is the one action
    /// that does something: it sets the position from the action's
    /// parameters. An action without a state is not run.
    pub fn run_action(&mut self, action: Action)
        ensures
            final(self)@ == run_action_model(old(self)@, action),
            final(self).order == old(self).order,
            final(self).instant_actions == old(self).instant_actions,
            same_frame(*final(self), *old(self)),
            position_initialized(old(self)@) ==> position_initialized(final(self)@),
    {
        proof {
            lemma_run_action_keeps_initialized(self@, action);
        }
        self.run_action_ref(&action);
    }

    fn run_action_ref(&mut self, action: &Action)
        ensures
            final(self)@ == run_action_model(old(self)@, *action),
            final(self).order == old(self).order,
            final(self).instant_actions == old(self).instant_actions,
            same_frame(*final(self), *old(self)),
    {
        if let Some(i) = self.find_action_state_index(&action.action_id) {
            let running = self.state.action_states[i].with_status(ActionStatus::Running);
            self.state.action_states.set(i, running);
            if str_eq(action.action_type.as_str(), "initPosition") {
                self.handle_init_position_action(action);
            }
            let finished = self.state.action_states[i].with_status(ActionStatus::Finished);
            self.state.action_states.set(i, finished);
            proof {
                let m = old(self)@;
                assert(self@.action_states =~= m.action_states.update(
                    i as int,
                    with_status(m.action_states[i as int], ActionStatus::Finished),
                ));
            }
        }
    }

    fn handle_init_position_action(&mut self, action: &Action)
        ensures
            final(self)@ == (EngineModel {
                agv_position: Some(init_position_of(*action)),
                shown_position: Some(init_position_of(*action)),
                last_node_id: text_param(*action, "lastNodeId"@),
                ..old(self)@
            }),
            final(self).order == old(self).order,
            final(self).instant_actions == old(self).instant_actions,
            same_frame(*final(self), *old(self)),
    {
        let position = AgvPosition {
            x: action.real_parameter("x"),
            y: action.real_parameter("y"),
            theta: action.real_parameter("theta"),
            position_initialized: true,
            map_id: action.text_parameter("mapId"),
            deviation_range: None,
            map_description: None,
            localization_score: None,
        };
        self.state.agv_position = Some(position.clone());
        self.state.last_node_id = action.text_parameter("lastNodeId");
        self.visualization.agv_position = Some(position);
    }

    /// The coordinates that decide whether the vehicle is near enough to the
    /// first released node to take an order (see `proximity_query`).
    pub fn released_node_proximity(&self) -> (r: Option<(Scalar, Scalar, Scalar, Scalar)>)
        ensures
            r == proximity_query(self@),
    {
        let mut i: usize = 0;
        while i < self.state.node_states.len()
            invariant
                i <= self.state.node_states@.len(),
                first_index(self@.node_states, |n: NodeState| n.released) == crate::utils::first_from(
                    self@.node_states,
                    |n: NodeState| n.released,
                    i as int,
                ),
            decreases self.state.node_states.len() - i,
        {
            if self.state.node_states[i].released {
                return match (&self.state.node_states[i].node_position, &self.state.agv_position) {
                    (Some(np), Some(vp)) => Some((vp.x, vp.y, np.x, np.y)),
                    _ => None,
                };
            }
            i = i + 1;
        }
        None
    }

    fn has_unreleased_nodes(&self) -> (r: bool)
        ensures
            r == has_unreleased_node(self@),
    {
        let mut i: usize = 0;
        while i < self.state.node_states.len()
            invariant
                i <= self.state.node_states@.len(),
                forall|j: int| 0 <= j < i ==> self@.node_states[j].released,
            decreases self.state.node_states.len() - i,
        {
            if !self.state.node_states[i].released {
                return true;
            }
            i = i + 1;
        }
        false
    }

    /// Whether the vehicle may take an order at all: where some node is not
    /// released it must stand at the first node left, and it must be near
    /// the first released node.
    fn can_accept_new_order(&self, near_released_node: bool) -> (r: bool)
        ensures
            r == (arrived_at_released_node(self@) && (proximity_query(self@) is None
                || near_released_node)),
    {
        if self.has_unreleased_nodes()
            && self.state.node_states[0].sequence_id != self.state.last_node_sequence_id {
            return false;
        }
        match self.released_node_proximity() {
            Some(_) => near_released_node,
            None => true,
        }
    }

    /// Takes `order_request` if the vehicle may (see `order_accepted`), and
    /// leaves the vehicle as it was if not.
    ///
    /// `near_released_node` tells whether the vehicle stands within 0.1 of
    /// the first released node, measured on `released_node_proximity`.
    pub fn process_order(&mut self, order_request: Order, near_released_node: bool)
        ensures
            order_accepted(old(self)@, order_request, near_released_node) ==> {
                &&& took_order(old(self)@, order_request, final(self)@)
                &&& final(self).order == Some(order_request)
                &&& final(self).instant_actions == old(self).instant_actions
                &&& same_frame(*final(self), *old(self))
            },
            !order_accepted(old(self)@, order_request, near_released_node) ==> *final(self)
                == *old(self),
            position_initialized(old(self)@) ==> position_initialized(final(self)@),
    {
        let is_new = !(order_request.order_id == self.state.order_id);
        if !is_new && order_request.order_update_id <= self.state.order_update_id {
            return;
        }
        if !self.can_accept_new_order(near_released_node) {
            return;
        }
        if is_new && !self.is_vehicle_ready_for_new_order() {
            return;
        }
        self.accept_order(order_request);
    }

    fn accept_order(&mut self, order_request: Order)
        ensures
            took_order(old(self)@, order_request, final(self)@),
            final(self).order == Some(order_request),
            final(self).instant_actions == old(self).instant_actions,
            same_frame(*final(self), *old(self)),
    {
        let mut action_states: Vec<ActionState> = Vec::new();
        let node_states = project_nodes(&order_request.nodes, &mut action_states);
        let edge_states = project_edges(&order_request.edges, &mut action_states);
        self.state.order_id = order_request.order_id.clone();
        self.state.order_update_id = order_request.order_update_id;
        if order_request.order_update_id == 0 {
            self.state.last_node_sequence_id = 0;
        }
        self.state.action_states = action_states;
        self.state.node_states = node_states;
        self.state.edge_states = edge_states;
        self.order = Some(order_request);
        proof {
            assert(self@.action_states =~= node_action_states(order_request.nodes@)
                + edge_action_states(order_request.edges@));
        }
    }

    /// Whether a node action still blocks the vehicle at time `now`.
    fn is_action_in_progress(&self, now: i64) -> (r: bool)
        ensures
            r == action_in_progress(self.action_start_time, self.config.settings.action_time, now),
    {
        match self.action_start_time {
            Some(t) => (now as i128) < (t as i128) + (self.config.settings.action_time as i128),
            None => false,
        }
    }

    /// Finishes the next due action of the node where the vehicle last
    /// stopped (see `node_actions_model`).
    fn process_node_actions(&mut self, now: i64)
        requires
            old(self).order is Some,
        ensures
            final(self)@ == node_actions_model(old(self)@, old(self).order.unwrap(), now),
            final(self).order == old(self).order,
            final(self).instant_actions == old(self).instant_actions,
            same_frame(*final(self), *old(self)),
    {
        let held = self.order.take();
        if let Some(order) = &held {
            if let Some(n) = find_order_node(order, self.state.last_node_sequence_id) {
                if let Some(i) = first_due_state(&self.state.action_states, &order.nodes[n].actions) {
                    let finished = self.state.action_states[i].with_status(ActionStatus::Finished);
                    self.state.action_states.set(i, finished);
                    self.action_start_time = Some(now);
                    proof {
                        let m = old(self)@;
                        assert(self@.action_states =~= m.action_states.update(
                            i as int,
                            with_status(m.action_states[i as int], ActionStatus::Finished),
                        ));
                    }
                }
            }
        }
        self.order = held;
    }

    /// Plans the next motion step (see `next_node_index`); where a single
    /// node state is left, removes it instead.
    fn plan_motion(&mut self) -> (r: Option<MotionPlan>)
        ensures
            final(self)@ == plan_model(old(self)@),
            final(self).order == old(self).order,
            final(self).instant_actions == old(self).instant_actions,
            same_frame(*final(self), *old(self)),
            r is Some <==> next_node_index(old(self)@) is Some,
            r matches Some(p) ==> plan_for(
                p,
                old(self)@,
                old(self).config.settings.speed,
                next_node_index(old(self)@).unwrap(),
            ),
    {
        if self.state.agv_position.is_none() || self.state.node_states.len() == 0 {
            return None;
        }
        if self.state.node_states.len() == 1 {
            self.state.node_states.remove(0);
            proof {
                assert(self@.node_states =~= old(self)@.node_states.drop_first());
            }
            return None;
        }
        let last = match find_node_state(&self.state.node_states, self.state.last_node_sequence_id) {
            Some(i) => i,
            None => 0,
        };
        if last >= self.state.node_states.len() - 1 {
            return None;
        }
        let k = last + 1;
        let next = &self.state.node_states[k];
        if !next.released {
            return None;
        }
        let target = match &next.node_position {
            Some(p) => p.clone(),
            None => {
                return None;
            },
        };
        let trajectory = match find_edge_into(&self.state.edge_states, next.sequence_id) {
            Some(e) => match &self.state.edge_states[e].trajectory {
                Some(t) => Some(t.clone()),
                None => None,
            },
            None => None,
        };
        let (from_x, from_y) = match &self.state.agv_position {
            Some(p) => (p.x, p.y),
            None => (Scalar::zero(), Scalar::zero()),
        };
        Some(MotionPlan {
            node_index: k,
            node_id: next.node_id.clone(),
            sequence_id: next.sequence_id,
            from_x,
            from_y,
            target,
            trajectory,
            speed: self.config.settings.speed,
        })
    }

    /// One tick at time `now`, up to the motion step: returns the step to
    /// compute, if the vehicle is to move (see `tick_model`).
    pub fn update_state_at(&mut self, now: i64) -> (r: Option<MotionPlan>)
        ensures
            final(self)@ == tick_model(*old(self), now),
            final(self).order == old(self).order,
            final(self).instant_actions == old(self).instant_actions,
            same_frame(*final(self), *old(self)),
            position_initialized(old(self)@) ==> position_initialized(final(self)@),
            match planning_model(*old(self), now) {
                Some(m) => (r is Some <==> next_node_index(m) is Some) && (r matches Some(p)
                    ==> plan_for(p, m, old(self).config.settings.speed, next_node_index(m).unwrap())),
                None => r is None,
            },
    {
        if self.is_action_in_progress(now) {
            return None;
        }
        self.process_instant_actions();
        proof {
            lemma_instant_actions_keep_initialized(old(self)@, held_instant_actions(*old(self)));
        }
        if self.order.is_none() {
            return None;
        }
        self.process_node_actions(now);
        self.plan_motion()
    }

    /// One tick at the present time (see `update_state_at`).
    pub fn update_state(&mut self) -> (r: Option<MotionPlan>)
        ensures
            exists|now: i64| final(self)@ == #[trigger] tick_model(*old(self), now),
            final(self).order == old(self).order,
            final(self).instant_actions == old(self).instant_actions,
            same_frame(*final(self), *old(self)),
            position_initialized(old(self)@) ==> position_initialized(final(self)@),
    {
        let now = now_seconds();
        let r = self.update_state_at(now);
        assert(self@ == tick_model(*old(self), now));
        r
    }

    /// Completes a step of `plan` with its outcome `step` (see `moved_model`).
    pub fn apply_motion(&mut self, plan: &MotionPlan, step: MotionStep)
        ensures
            final(self)@ == moved_model(old(self)@, plan.node_id@, plan.sequence_id, step),
            final(self).order == old(self).order,
            final(self).instant_actions == old(self).instant_actions,
            same_frame(*final(self), *old(self)),
            position_initialized(old(self)@) ==> position_initialized(final(self)@),
    {
        if let Some(p) = &mut self.state.agv_position {
            p.x = step.x;
            p.y = step.y;
            p.theta = step.theta;
        }
        if self.state.agv_position.is_some() {
            self.visualization.agv_position = self.state.agv_position.clone();
        }
        if step.arrived {
            if self.state.node_states.len() > 0 {
                self.state.node_states.remove(0);
            }
            if self.state.edge_states.len() > 0 {
                self.state.edge_states.remove(0);
            }
            self.state.last_node_id = plan.node_id.clone();
            self.state.last_node_sequence_id = plan.sequence_id;
            proof {
                assert(self@.node_states =~= without_head(old(self)@.node_states));
                assert(self@.edge_states =~= without_head(old(self)@.edge_states));
            }
        }
    }

    /// Runs each held instant action whose state is still waiting, in the
    /// order in which they came.
    pub fn process_instant_actions(&mut self)
        ensures
            final(self)@ == instant_actions_model(old(self)@, held_instant_actions(*old(self))),
            final(self).order == old(self).order,
            final(self).instant_actions == old(self).instant_actions,
            same_frame(*final(self), *old(self)),
            position_initialized(old(self)@) ==> position_initialized(final(self)@),
    {
        proof {
            lemma_instant_actions_keep_initialized(self@, held_instant_actions(*self));
        }
        let held = self.instant_actions.take();
        if let Some(ia) = &held {
            let mut i: usize = 0;
            while i < ia.actions.len()
                invariant
                    held == old(self).instant_actions,
                    held == Some(*ia),
                    i <= ia.actions@.len(),
                    self@ == instant_actions_model(old(self)@, ia.actions@.subrange(0, i as int)),
                    self.order == old(self).order,
                    self.instant_actions is None,
                    same_frame(*self, *old(self)),
                decreases ia.actions.len() - i,
            {
                let action = &ia.actions[i];
                proof {
                    assert(ia.actions@.subrange(0, i + 1).drop_last() =~= ia.actions@.subrange(0, i as int));
                    assert(ia.actions@.subrange(0, i + 1).last() == ia.actions@[i as int]);
                }
                if let Some(k) = self.find_action_state_index(&action.action_id) {
                    if self.state.action_states[k].action_status == ActionStatus::Waiting {
                        self.run_action_ref(action);
                    }
                }
                i = i + 1;
            }
            proof {
                assert(ia.actions@.subrange(0, i as int) =~= ia.actions@);
            }
        } else {
            proof {
                assert(held_instant_actions(*old(self)) =~= Seq::<Action>::empty());
            }
        }
        self.instant_actions = held;
    }

    /// A vehicle of `config` standing at (`initial_x`, `initial_y`), its
    /// connection reported broken until it goes online.
    pub fn new(config: Config, initial_x: Scalar, initial_y: Scalar) -> (r: VehicleSimulator)
        ensures
            r@ == initial_model(config, initial_x, initial_y),
            header_ids(r) == (0u32, 0u32, 0u32),
            r.connection.connection_state == ConnectionState::ConnectionBroken,
            r.config == config,
            r.order is None,
            r.instant_actions is None,
            r.state.version == config.vehicle.vda_full_version,
            r.state.manufacturer == config.vehicle.manufacturer,
            r.state.serial_number == config.vehicle.serial_number,
            r.connection.version == config.vehicle.vda_full_version,
            r.connection.manufacturer == config.vehicle.manufacturer,
            r.connection.serial_number == config.vehicle.serial_number,
            r.visualization.version == config.vehicle.vda_full_version,
            r.visualization.manufacturer == config.vehicle.manufacturer,
            r.visualization.serial_number == config.vehicle.serial_number,
            !r.state.driving,
            r.state.operating_mode == OperatingMode::Automatic,
            r.state.information@.len() == 0,
            r.state.loads@.len() == 0,
            r.state.errors@.len() == 0,
            r.state.battery_state == (BatteryState {
                battery_charge: Scalar { bits: FULL_CHARGE_BITS },
                battery_voltage: None,
                battery_health: None,
                charging: false,
                reach: None,
            }),
            r.state.safety_state == (SafetyState { e_stop: EStop::NoStop, field_violation: false }),
    {
        let topics = Topics::new(&config);
        let connection = Connection {
            header_id: 0,
            timestamp: get_timestamp(),
            version: config.vehicle.vda_full_version.clone(),
            manufacturer: config.vehicle.manufacturer.clone(),
            serial_number: config.vehicle.serial_number.clone(),
            connection_state: ConnectionState::ConnectionBroken,
        };
        let position = AgvPosition {
            x: initial_x,
            y: initial_y,
            theta: Scalar::zero(),
            position_initialized: false,
            map_id: config.settings.map_id.clone(),
            deviation_range: None,
            map_description: None,
            localization_score: None,
        };
        let state = State {
            header_id: 0,
            timestamp: get_timestamp(),
            version: config.vehicle.vda_full_version.clone(),
            manufacturer: config.vehicle.manufacturer.clone(),
            serial_number: config.vehicle.serial_number.clone(),
            driving: false,
            distance_since_last_node: None,
            operating_mode: OperatingMode::Automatic,
            node_states: Vec::new(),
            edge_states: Vec::new(),
            last_node_id: String::new(),
            order_id: String::new(),
            order_update_id: 0,
            last_node_sequence_id: 0,
            action_states: Vec::new(),
            information: Vec::new(),
            loads: Vec::new(),
            errors: Vec::new(),
            battery_state: BatteryState {
                battery_charge: Scalar { bits: FULL_CHARGE_BITS },
                battery_voltage: None,
                battery_health: None,
                charging: false,
                reach: None,
            },
            safety_state: SafetyState { e_stop: EStop::NoStop, field_violation: false },
            paused: None,
            new_base_request: None,
            agv_position: Some(position.clone()),
            velocity: None,
            zone_set_id: None,
        };
        let visualization = Visualization {
            header_id: 0,
            timestamp: get_timestamp(),
            version: config.vehicle.vda_full_version.clone(),
            manufacturer: config.vehicle.manufacturer.clone(),
            serial_number: config.vehicle.serial_number.clone(),
            agv_position: Some(position),
            velocity: None,
        };
        let r = VehicleSimulator {
            topics,
            connection,
            state,
            visualization,
            order: None,
            instant_actions: None,
            config,
            action_start_time: None,
        };
        proof {
            assert(r@.last_node_id =~= Seq::<char>::empty());
            assert(r@.order_id =~= Seq::<char>::empty());
        }
        r
    }

    /// True iff no node or edge of an order is left and the position is initialized.
    pub fn is_vehicle_ready_for_new_order(&self) -> (r: bool)
        ensures
            r == ready_for_new_order(self@),
    {
        self.state.node_states.len() == 0 && self.state.edge_states.len() == 0 && match &self.state.agv_position {
            Some(p) => p.position_initialized,
            None => false,
        }
    }

    /// Marks the connection online for its next message: a new header id and
    /// a fresh timestamp.
    pub fn snapshot_connection_online(&mut self)
        requires
            old(self).connection.header_id < u32::MAX,
        ensures
            final(self).connection.header_id == old(self).connection.header_id + 1,
            final(self).connection.connection_state == ConnectionState::Online,
            final(self).connection.version == old(self).connection.version,
            final(self).connection.manufacturer == old(self).connection.manufacturer,
            final(self).connection.serial_number == old(self).connection.serial_number,
            final(self).state == old(self).state,
            final(self).visualization == old(self).visualization,
            final(self)@ == old(self)@,
    {
        self.connection.header_id = self.connection.header_id + 1;
        self.connection.timestamp = get_timestamp();
        self.connection.connection_state = ConnectionState::Online;
    }

    /// Readies the state message for sending: a new header id and a fresh
    /// timestamp; nothing else changes.
    pub fn snapshot_state(&mut self)
        requires
            old(self).state.header_id < u32::MAX,
        ensures
            final(self).state.header_id == old(self).state.header_id + 1,
            final(self).connection == old(self).connection,
            final(self).visualization == old(self).visualization,
            final(self)@ == old(self)@,
    {
        self.state.header_id = self.state.header_id + 1;
        self.state.timestamp = get_timestamp();
    }

    /// Readies the visualization message for sending: a new header id and a
    /// fresh timestamp; nothing else changes.
    pub fn snapshot_visualization(&mut self)
        requires
            old(self).visualization.header_id < u32::MAX,
        ensures
            final(self).visualization.header_id == old(self).visualization.header_id + 1,
            final(self).connection == old(self).connection,
            final(self).state == old(self).state,
            final(self)@ == old(self)@,
    {
        self.visualization.header_id = self.visualization.header_id + 1;
        self.visualization.timestamp = get_timestamp();
    }
}

} // verus!
