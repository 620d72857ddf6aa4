use vstd::prelude::*;

use crate::config::Config;
use crate::utils::{str_eq, topic_type};

verus! {

/// `{interface}/{version}/{manufacturer}/{serial}`.
pub open spec fn base_topic(
    interface: Seq<char>,
    version: Seq<char>,
    manufacturer: Seq<char>,
    serial: Seq<char>,
) -> Seq<char> {
    interface + seq!['/'] + version + seq!['/'] + manufacturer + seq!['/'] + serial
}

/// The prefix shared by all topics of one vehicle:
/// `{vda_interface}/{vda_version}/{manufacturer}/{serial_number}`.
pub fn generate_vda_mqtt_base_topic(
    vda_interface: &str,
    vda_version: &str,
    manufacturer: &str,
    serial_number: &str,
) -> (r: String)
    ensures
        r@ == base_topic(vda_interface@, vda_version@, manufacturer@, serial_number@),
{
    proof {
        reveal_strlit("/");
    }
    let mut r = String::from_str(vda_interface);
    r.append("/");
    r.append(vda_version);
    r.append("/");
    r.append(manufacturer);
    r.append("/");
    r.append(serial_number);
    proof {
        assert(r@ =~= base_topic(vda_interface@, vda_version@, manufacturer@, serial_number@));
    }
    r
}

/// The base topic of a configured vehicle.
pub open spec fn config_base_topic(c: Config) -> Seq<char> {
    base_topic(
        c.mqtt_broker.vda_interface@,
        c.vehicle.vda_version@,
        c.vehicle.manufacturer@,
        c.vehicle.serial_number@,
    )
}

/// The five topics of one vehicle.
#[derive(Clone, Debug)]
pub struct Topics {
    pub connection: String,
    pub state: String,
    pub visualization: String,
    pub order: String,
    pub instant_actions: String,
}

fn topic_with_suffix(base: &String, suffix: &str) -> (r: String)
    ensures
        r@ == base@ + seq!['/'] + suffix@,
{
    proof {
        reveal_strlit("/");
    }
    let mut r = base.clone();
    r.append("/");
    r.append(suffix);
    r
}

impl Topics {
    /// The topics of the vehicle that `config` describes: its base topic
    /// followed by `/connection`, `/state`, `/visualization`, `/order` and
    /// `/instantActions`.
    pub fn new(config: &Config) -> (r: Topics)
        ensures
            r.connection@ == config_base_topic(*config) + seq!['/'] + "connection"@,
            r.state@ == config_base_topic(*config) + seq!['/'] + "state"@,
            r.visualization@ == config_base_topic(*config) + seq!['/'] + "visualization"@,
            r.order@ == config_base_topic(*config) + seq!['/'] + "order"@,
            r.instant_actions@ == config_base_topic(*config) + seq!['/'] + "instantActions"@,
    {
        let base = generate_vda_mqtt_base_topic(
            config.mqtt_broker.vda_interface.as_str(),
            config.vehicle.vda_version.as_str(),
            config.vehicle.manufacturer.as_str(),
            config.vehicle.serial_number.as_str(),
        );
        Topics {
            connection: topic_with_suffix(&base, "connection"),
            state: topic_with_suffix(&base, "state"),
            visualization: topic_with_suffix(&base, "visualization"),
            order: topic_with_suffix(&base, "order"),
            instant_actions: topic_with_suffix(&base, "instantActions"),
        }
    }
}

/// What an inbound message is, by the last segment of its topic.
#[derive(Clone, Copy, Debug, PartialEq, Eq, Structural)]
pub enum InboundKind {
    Order,
    InstantActions,
    Unknown,
}

/// The kind of an inbound message with topic `topic`.
pub open spec fn inbound_kind(topic: Seq<char>) -> InboundKind {
    if topic_type(topic) == "order"@ {
        InboundKind::Order
    } else if topic_type(topic) == "instantActions"@ {
        InboundKind::InstantActions
    } else {
        InboundKind::Unknown
    }
}

/// Tells an order from instant actions by the last segment of the topic.
pub fn classify_topic(topic: &str) -> (r: InboundKind)
    ensures
        r == inbound_kind(topic@),
{
    let t = crate::utils::get_topic_type(topic);
    if str_eq(t, "order") {
        InboundKind::Order
    } else if str_eq(t, "instantActions") {
        InboundKind::InstantActions
    } else {
        InboundKind::Unknown
    }
}

} // verus!
