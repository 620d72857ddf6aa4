use vda5050_vehicle_simulator::action::{Action, ActionParameter, ActionParameterValue, BlockingType};
use vda5050_vehicle_simulator::common::{ControlPoint, NodePosition, Scalar, StepMethod, Trajectory};
use vda5050_vehicle_simulator::config::{Config, MqttBrokerConfig, Settings, VehicleConfig};
use vda5050_vehicle_simulator::connection::ConnectionState;
use vda5050_vehicle_simulator::instant_actions::InstantActions;
use vda5050_vehicle_simulator::order::{Edge, Node, Order};
use vda5050_vehicle_simulator::state::{ActionStatus, EStop, OperatingMode};
use vda5050_vehicle_simulator::vehicle_simulator::{MotionStep, VehicleSimulator, FULL_CHARGE_BITS};

fn scalar(v: f32) -> Scalar {
    Scalar { bits: v.to_bits() }
}

fn value(s: Scalar) -> f32 {
    f32::from_bits(s.bits)
}

fn config(action_time: i64, speed: f32) -> Config {
    Config {
        mqtt_broker: MqttBrokerConfig {
            host: "localhost".to_string(),
            port: "1883".to_string(),
            vda_interface: "uagv".to_string(),
        },
        vehicle: VehicleConfig {
            serial_number: "AGV-7".to_string(),
            manufacturer: "ACME".to_string(),
            vda_version: "v2".to_string(),
            vda_full_version: "2.0.0".to_string(),
        },
        settings: Settings {
            map_id: "floor".to_string(),
            state_frequency: 1,
            visualization_frequency: 5,
            action_time,
            robot_count: 1,
            speed: scalar(speed),
        },
    }
}

fn param(key: &str, v: ActionParameterValue) -> ActionParameter {
    ActionParameter { key: key.to_string(), value: v }
}

fn text(s: &str) -> ActionParameterValue {
    ActionParameterValue::Str(s.to_string(), s.parse::<f32>().ok().map(scalar))
}

fn action(id: &str, kind: &str, params: Option<Vec<ActionParameter>>) -> Action {
    Action {
        action_type: kind.to_string(),
        action_id: id.to_string(),
        action_description: Some(format!("{} action", kind)),
        blocking_type: BlockingType::NonBlocking,
        action_parameters: params,
    }
}

fn init_at(x: f32, y: f32) -> Action {
    action(
        "init",
        "initPosition",
        Some(vec![
            param("x", ActionParameterValue::Float(scalar(x))),
            param("y", ActionParameterValue::Float(scalar(y))),
            param("theta", ActionParameterValue::Float(scalar(0.5))),
            param("mapId", text("floor")),
            param("lastNodeId", text("n0")),
        ]),
    )
}

fn instant(actions: Vec<Action>) -> InstantActions {
    InstantActions {
        header_id: 0,
        timestamp: "2024-01-01T00:00:00.000Z".to_string(),
        version: "2.0.0".to_string(),
        manufacturer: "ACME".to_string(),
        serial_number: "AGV-7".to_string(),
        actions,
    }
}

fn node(id: &str, seq: u32, released: bool, pos: Option<(f32, f32)>, actions: Vec<Action>) -> Node {
    Node {
        node_id: id.to_string(),
        sequence_id: seq,
        node_description: None,
        released,
        node_position: pos.map(|(x, y)| NodePosition {
            x: scalar(x),
            y: scalar(y),
            theta: None,
            allowed_deviation_xy: None,
            allowed_deviation_theta: None,
            map_id: "floor".to_string(),
            map_description: None,
        }),
        actions,
    }
}

fn edge(id: &str, seq: u32, trajectory: Option<Trajectory>, actions: Vec<Action>) -> Edge {
    Edge {
        edge_id: id.to_string(),
        sequence_id: seq,
        edge_description: None,
        released: true,
        start_node_id: String::new(),
        end_node_id: String::new(),
        max_speed: None,
        max_height: None,
        min_height: None,
        orientation: None,
        orientation_type: None,
        direction: None,
        rotation_allowed: None,
        max_rotation_speed: None,
        length: None,
        trajectory,
        actions,
    }
}

fn order(id: &str, update: u32, nodes: Vec<Node>, edges: Vec<Edge>) -> Order {
    Order {
        header_id: 0,
        timestamp: "2024-01-01T00:00:00.000Z".to_string(),
        version: "2.0.0".to_string(),
        manufacturer: "ACME".to_string(),
        serial_number: "AGV-7".to_string(),
        order_id: id.to_string(),
        order_update_id: update,
        zone_set_id: None,
        nodes,
        edges,
    }
}

fn initialized(action_time: i64, speed: f32, x: f32, y: f32) -> VehicleSimulator {
    let mut sim = VehicleSimulator::new(config(action_time, speed), scalar(0.0), scalar(0.0));
    sim.accept_instant_actions(instant(vec![init_at(x, y)]));
    sim.process_instant_actions();
    sim
}

fn two_node_order(id: &str, update: u32) -> Order {
    order(
        id,
        update,
        vec![node("n1", 1, true, Some((0.0, 0.0)), vec![]), node("n2", 3, true, Some((5.0, 0.0)), vec![])],
        vec![edge("e1", 2, None, vec![])],
    )
}

#[test]
fn fresh_vehicle_starts_broken_and_uninitialized() {
    let sim = VehicleSimulator::new(config(1, 0.1), scalar(1.5), scalar(-2.25));
    assert_eq!(sim.connection.header_id, 0);
    assert_eq!(sim.connection.connection_state, ConnectionState::ConnectionBroken);
    assert_eq!(sim.connection.serial_number, "AGV-7");
    assert_eq!(sim.state.header_id, 0);
    assert_eq!(sim.state.version, "2.0.0");
    assert_eq!(sim.state.operating_mode, OperatingMode::Automatic);
    assert_eq!(sim.state.battery_state.battery_charge.bits, FULL_CHARGE_BITS);
    assert_eq!(value(sim.state.battery_state.battery_charge), 100.0);
    assert_eq!(sim.state.safety_state.e_stop, EStop::NoStop);
    let p = sim.state.agv_position.as_ref().unwrap();
    assert!(!p.position_initialized);
    assert_eq!(value(p.x), 1.5);
    assert_eq!(value(p.y), -2.25);
    assert_eq!(p.map_id, "floor");
    let v = sim.visualization.agv_position.as_ref().unwrap();
    assert_eq!(value(v.x), 1.5);
    assert_eq!(sim.topics.state, "uagv/v2/ACME/AGV-7/state");
    assert_eq!(sim.state.timestamp.len(), 24);
    assert!(sim.state.timestamp.ends_with('Z'));
    assert_eq!(&sim.state.timestamp[10..11], "T");
}

#[test]
fn snapshots_raise_their_own_header_only() {
    let mut sim = VehicleSimulator::new(config(1, 0.1), scalar(0.0), scalar(0.0));
    sim.snapshot_state();
    sim.snapshot_state();
    sim.snapshot_visualization();
    sim.snapshot_connection_online();
    assert_eq!(sim.state.header_id, 2);
    assert_eq!(sim.visualization.header_id, 1);
    assert_eq!(sim.connection.header_id, 1);
    assert_eq!(sim.connection.connection_state, ConnectionState::Online);
    sim.accept_instant_actions(instant(vec![init_at(0.0, 0.0)]));
    sim.process_instant_actions();
    sim.process_order(two_node_order("o", 0), true);
    assert_eq!(sim.state.header_id, 2);
    assert_eq!(sim.visualization.header_id, 1);
    assert_eq!(sim.connection.header_id, 1);
}

#[test]
fn accepted_order_projects_nodes_edges_and_actions() {
    let mut sim = initialized(1, 0.1, 0.0, 0.0);
    let o = order(
        "o1",
        0,
        vec![
            node("n1", 1, true, Some((0.0, 0.0)), vec![action("a1", "pick", None)]),
            node("n2", 3, true, Some((5.0, 0.0)), vec![action("a2", "drop", None), action("a3", "beep", None)]),
        ],
        vec![edge("e1", 2, None, vec![action("a4", "light", None)])],
    );
    sim.process_order(o, true);
    assert_eq!(sim.state.order_id, "o1");
    assert_eq!(sim.state.node_states.len(), 2);
    assert_eq!(sim.state.edge_states.len(), 1);
    assert_eq!(sim.state.node_states[1].node_id, "n2");
    assert_eq!(sim.state.edge_states[0].edge_id, "e1");
    let ids: Vec<&str> = sim.state.action_states.iter().map(|s| s.action_id.as_str()).collect();
    assert_eq!(ids, vec!["a1", "a2", "a3", "a4"]);
    assert!(sim.state.action_states.iter().all(|s| s.action_status == ActionStatus::Waiting));
    assert_eq!(sim.state.action_states[1].action_type, Some("drop".to_string()));
    assert_eq!(sim.state.action_states[1].action_description, Some("drop action".to_string()));
    assert!(sim.order.is_some());
}

#[test]
fn stale_update_is_refused_and_newer_one_taken() {
    let mut sim = initialized(1, 0.1, 0.0, 0.0);
    sim.process_order(two_node_order("o", 3), true);
    assert_eq!(sim.state.order_update_id, 3);
    sim.state.last_node_sequence_id = 1;
    for stale in [0u32, 2, 3] {
        let mut o = two_node_order("o", stale);
        o.nodes.pop();
        sim.process_order(o, true);
        assert_eq!(sim.state.order_update_id, 3);
        assert_eq!(sim.state.node_states.len(), 2);
    }
    let mut newer = two_node_order("o", 4);
    newer.nodes.push(node("n3", 5, true, Some((9.0, 0.0)), vec![]));
    sim.process_order(newer, true);
    assert_eq!(sim.state.order_update_id, 4);
    assert_eq!(sim.state.node_states.len(), 3);
    // an update keeps the count of nodes passed
    assert_eq!(sim.state.last_node_sequence_id, 1);
}

#[test]
fn new_order_waits_for_the_old_one() {
    let mut sim = initialized(1, 0.1, 0.0, 0.0);
    sim.process_order(two_node_order("first", 0), true);
    sim.process_order(two_node_order("second", 0), true);
    assert_eq!(sim.state.order_id, "first");
}

#[test]
fn order_refused_when_far_from_released_node() {
    let mut sim = initialized(1, 0.1, 0.0, 0.0);
    sim.process_order(two_node_order("first", 0), true);
    let q = sim.released_node_proximity().unwrap();
    assert_eq!(value(q.0), 0.0);
    assert_eq!(value(q.2), 0.0);
    sim.process_order(two_node_order("first", 1), false);
    assert_eq!(sim.state.order_update_id, 0);
    sim.process_order(two_node_order("first", 1), true);
    assert_eq!(sim.state.order_update_id, 1);
}

#[test]
fn order_refused_before_reaching_horizon_start() {
    let mut sim = initialized(1, 0.1, 0.0, 0.0);
    let o = order(
        "o",
        0,
        vec![node("n1", 1, true, Some((0.0, 0.0)), vec![]), node("n2", 3, false, Some((5.0, 0.0)), vec![])],
        vec![edge("e1", 2, None, vec![])],
    );
    sim.process_order(o, true);
    assert_eq!(sim.state.last_node_sequence_id, 0);
    // first node state has sequence id 1, the vehicle last stopped at 0
    sim.process_order(two_node_order("o", 1), true);
    assert_eq!(sim.state.order_update_id, 0);
    sim.state.last_node_sequence_id = 1;
    sim.process_order(two_node_order("o", 1), true);
    assert_eq!(sim.state.order_update_id, 1);
}

#[test]
fn fresh_vehicle_ignores_orders() {
    let mut sim = VehicleSimulator::new(config(1, 0.1), scalar(0.0), scalar(0.0));
    sim.process_order(two_node_order("o", 0), true);
    assert_eq!(sim.state.order_id, "");
    assert!(sim.state.node_states.is_empty());
    assert!(sim.state.action_states.is_empty());
    assert!(sim.order.is_none());
}

#[test]
fn string_coordinates_and_missing_parameters() {
    let mut sim = VehicleSimulator::new(config(1, 0.1), scalar(0.0), scalar(0.0));
    let a = action(
        "i",
        "initPosition",
        Some(vec![param("x", text("3.5")), param("y", ActionParameterValue::Int(7)), param("theta", text("abc"))]),
    );
    sim.accept_instant_actions(instant(vec![a]));
    sim.process_instant_actions();
    let p = sim.state.agv_position.as_ref().unwrap();
    assert_eq!(value(p.x), 3.5);
    assert_eq!(value(p.y), 0.0);
    assert_eq!(value(p.theta), 0.0);
    assert_eq!(p.map_id, "");
    assert!(p.position_initialized);
    assert_eq!(sim.state.last_node_id, "");
}

#[test]
fn unknown_action_still_finishes() {
    let mut sim = VehicleSimulator::new(config(1, 0.1), scalar(2.0), scalar(3.0));
    sim.accept_instant_actions(instant(vec![action("w", "wave", None)]));
    sim.process_instant_actions();
    assert_eq!(sim.state.action_states[0].action_status, ActionStatus::Finished);
    assert_eq!(sim.state.action_states[0].action_description, None);
    let p = sim.state.agv_position.as_ref().unwrap();
    assert!(!p.position_initialized);
    assert_eq!(value(p.x), 2.0);
}

#[test]
fn finished_actions_do_not_run_again() {
    let mut sim = initialized(1, 0.1, 4.0, 4.0);
    sim.state.agv_position.as_mut().unwrap().x = scalar(9.0);
    sim.process_instant_actions();
    assert_eq!(value(sim.state.agv_position.as_ref().unwrap().x), 9.0);
    sim.run_action(init_at(1.0, 1.0));
    assert_eq!(value(sim.state.agv_position.as_ref().unwrap().x), 1.0);
}

#[test]
fn node_action_blocks_motion_for_action_time() {
    let mut sim = initialized(10, 0.1, 0.0, 0.0);
    let o = order(
        "o",
        0,
        vec![node("n0", 0, true, Some((0.0, 0.0)), vec![action("load", "pick", None)]), node("n2", 2, true, Some((5.0, 0.0)), vec![])],
        vec![edge("e1", 1, None, vec![])],
    );
    sim.process_order(o, true);
    let plan = sim.update_state_at(1000).unwrap();
    assert_eq!(sim.state.action_states[0].action_status, ActionStatus::Finished);
    assert_eq!(sim.action_start_time, Some(1000));
    assert_eq!(plan.node_id, "n2");
    assert_eq!(plan.node_index, 1);
    let before = value(sim.state.agv_position.as_ref().unwrap().x);
    assert!(sim.update_state_at(1005).is_none());
    assert!(sim.update_state_at(1009).is_none());
    assert_eq!(value(sim.state.agv_position.as_ref().unwrap().x), before);
    assert!(sim.update_state_at(1010).is_some());
}

#[test]
fn arrival_pops_heads_and_records_node() {
    let mut sim = initialized(1, 0.1, 0.0, 0.0);
    sim.process_order(two_node_order("o", 0), true);
    let plan = sim.update_state_at(0).unwrap();
    assert_eq!(plan.node_id, "n2");
    assert_eq!(value(plan.target.x), 5.0);
    assert!(plan.trajectory.is_none());
    sim.apply_motion(&plan, MotionStep { x: scalar(0.1), y: scalar(0.0), theta: scalar(0.0), arrived: false });
    assert_eq!(sim.state.node_states.len(), 2);
    assert_eq!(value(sim.visualization.agv_position.as_ref().unwrap().x), 0.1);
    sim.apply_motion(&plan, MotionStep { x: scalar(5.0), y: scalar(0.0), theta: scalar(0.0), arrived: true });
    assert_eq!(sim.state.node_states.len(), 1);
    assert_eq!(sim.state.edge_states.len(), 0);
    assert_eq!(sim.state.last_node_id, "n2");
    assert_eq!(sim.state.last_node_sequence_id, 3);
    assert!(sim.update_state_at(1).is_none());
    assert!(sim.state.node_states.is_empty());
    assert!(sim.is_vehicle_ready_for_new_order());
}

#[test]
fn straight_trajectory_edge_is_planned_as_line() {
    let mut sim = initialized(1, 1.0, 0.0, 0.0);
    let line = Trajectory {
        degree: 1,
        knot_vector: vec![scalar(0.0), scalar(0.0), scalar(1.0), scalar(1.0)],
        control_points: vec![
            ControlPoint { x: scalar(0.0), y: scalar(0.0), orientation: None, weight: None },
            ControlPoint { x: scalar(10.0), y: scalar(0.0), orientation: None, weight: None },
        ],
    };
    let o = order(
        "o",
        0,
        vec![node("n1", 1, true, Some((0.0, 0.0)), vec![]), node("n2", 3, true, Some((10.0, 0.0)), vec![])],
        vec![edge("e1", 2, Some(line), vec![])],
    );
    sim.process_order(o, true);
    let plan = sim.update_state_at(0).unwrap();
    let t = plan.trajectory.as_ref().unwrap();
    assert_eq!(t.step_method(), StepMethod::StraightLine);
    assert_eq!(t.control_points.len(), 2);
    assert_eq!(value(t.control_points[1].x), 10.0);
    assert_eq!(value(plan.speed), 1.0);
    assert_eq!(value(plan.from_x), 0.0);
}

#[test]
fn unreleased_next_node_stops_motion() {
    let mut sim = initialized(1, 0.1, 0.0, 0.0);
    let o = order(
        "o",
        0,
        vec![node("n1", 1, true, Some((0.0, 0.0)), vec![]), node("n2", 3, false, Some((5.0, 0.0)), vec![])],
        vec![edge("e1", 2, None, vec![])],
    );
    sim.process_order(o, true);
    assert!(sim.update_state_at(0).is_none());
    assert_eq!(sim.state.node_states.len(), 2);
}
