//! Verified core of a simulated VDA 5050 vehicle: the protocol model, the
//! topic layout, the publication cadence and the vehicle engine that accepts
//! orders and instant actions and walks along the nodes of an order.

pub mod utils;
pub mod common;
pub mod action;
pub mod connection;
pub mod instant_actions;
pub mod order;
pub mod visualization;
pub mod state;
pub mod config;
pub mod mqtt_utils;
pub mod vehicle_simulator;
pub mod schedule;
