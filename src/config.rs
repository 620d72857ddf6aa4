use vstd::prelude::*;

use crate::common::Scalar;

verus! {

/// Where the broker is, and the prefix of every topic.
#[derive(Debug)]
pub struct MqttBrokerConfig {
    pub host: String,
    pub port: String,
    pub vda_interface: String,
}

/// Identity of the simulated vehicle.
#[derive(Debug)]
pub struct VehicleConfig {
    pub manufacturer: String,
    pub serial_number: String,
    /// Version segment of the topics, e.g. `v2`.
    pub vda_version: String,
    /// Version carried by every message, e.g. `2.0.0`.
    pub vda_full_version: String,
}

/// Behaviour of the simulation.
#[derive(Debug)]
pub struct Settings {
    /// How long a node action blocks the vehicle, in whole seconds.
    pub action_time: i64,
    /// Distance driven in one tick.
    pub speed: Scalar,
    pub robot_count: u32,
    /// State messages per second.
    pub state_frequency: u64,
    /// Visualization messages per second.
    pub visualization_frequency: u64,
    /// Map on which the vehicle starts.
    pub map_id: String,
}

#[derive(Debug)]
pub struct Config {
    pub mqtt_broker: MqttBrokerConfig,
    pub vehicle: VehicleConfig,
    pub settings: Settings,
}

impl Clone for MqttBrokerConfig {
    fn clone(&self) -> (r: Self)
        ensures
            r == *self,
    {
        MqttBrokerConfig {
            host: self.host.clone(),
            port: self.port.clone(),
            vda_interface: self.vda_interface.clone(),
        }
    }
}

impl Clone for VehicleConfig {
    fn clone(&self) -> (r: Self)
        ensures
            r == *self,
    {
        VehicleConfig {
            manufacturer: self.manufacturer.clone(),
            serial_number: self.serial_number.clone(),
            vda_version: self.vda_version.clone(),
            vda_full_version: self.vda_full_version.clone(),
        }
    }
}

impl Clone for Settings {
    fn clone(&self) -> (r: Self)
        ensures
            r == *self,
    {
        Settings {
            action_time: self.action_time,
            speed: self.speed,
            robot_count: self.robot_count,
            state_frequency: self.state_frequency,
            visualization_frequency: self.visualization_frequency,
            map_id: self.map_id.clone(),
        }
    }
}

impl Clone for Config {
    fn clone(&self) -> (r: Self)
        ensures
            r == *self,
    {
        Config {
            mqtt_broker: self.mqtt_broker.clone(),
            vehicle: self.vehicle.clone(),
            settings: self.settings.clone(),
        }
    }
}

/// The character of a decimal digit.
pub open spec fn digit_char(d: nat) -> char {
    if d == 0 {
        '0'
    } else if d == 1 {
        '1'
    } else if d == 2 {
        '2'
    } else if d == 3 {
        '3'
    } else if d == 4 {
        '4'
    } else if d == 5 {
        '5'
    } else if d == 6 {
        '6'
    } else if d == 7 {
        '7'
    } else if d == 8 {
        '8'
    } else {
        '9'
    }
}

/// The decimal notation of `n`, without leading zeros.
pub open spec fn decimal(n: nat) -> Seq<char>
    decreases n,
{
    if n < 10 {
        seq![digit_char(n)]
    } else {
        decimal(n / 10).push(digit_char(n % 10))
    }
}

/// Relies on std's `Display` for `u64` (through `format!`): an integer is
/// written in decimal, without sign or leading zeros.
#[verifier::external_body]
fn append_decimal(base: &str, n: u64) -> (r: String)
    ensures
        r@ == base@ + decimal(n as nat),
{
    format!("{}{}", base, n)
}

impl Config {
    /// The configuration of robot `robot_index` (counted from zero) of the
    /// fleet: the serial number gets the robot's number, counted from one,
    /// appended in decimal.
    pub fn for_robot(&self, robot_index: u32) -> (r: Config)
        requires
            robot_index < u32::MAX,
        ensures
            r.vehicle.serial_number@ == self.vehicle.serial_number@ + decimal(
                robot_index as nat + 1,
            ),
            r.vehicle.manufacturer == self.vehicle.manufacturer,
            r.vehicle.vda_version == self.vehicle.vda_version,
            r.vehicle.vda_full_version == self.vehicle.vda_full_version,
            r.mqtt_broker == self.mqtt_broker,
            r.settings == self.settings,
    {
        let mut r = self.clone();
        r.vehicle.serial_number = append_decimal(
            self.vehicle.serial_number.as_str(),
            robot_index as u64 + 1,
        );
        r
    }
}

} // verus!
