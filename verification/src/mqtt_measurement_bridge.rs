//! The bridge that publishes measurements, encoded as JSON, on an MQTT
//! topic.
use vstd::prelude::*;

use crate::mqtt::OutgoingMessage;
use crate::mqtt::QoS;

verus! {

/// The configuration of the bridge.
pub struct MqttMeasurementBridgeConfig {
    pub mqtt_plugin_name: String,
    pub topic: String,
}

pub struct MqttMeasurementBridgePlugin {
    pub mqtt_plugin_addr: String,
    pub topic: String,
}

impl MqttMeasurementBridgePlugin {
    pub fn new(mqtt_plugin_addr: String, topic: String) -> (p: Self)
        ensures
            p.mqtt_plugin_addr == mqtt_plugin_addr,
            p.topic == topic,
    {
        MqttMeasurementBridgePlugin { mqtt_plugin_addr, topic }
    }

    /// The MQTT message that publishes a measurement's JSON encoding on the
    /// configured topic.
    pub fn handle_message(&self, json: Vec<u8>) -> (m: OutgoingMessage)
        ensures
            m.payload == json,
            m.topic == self.topic,
            m.qos == QoS::AtLeastOnce,
    {
        OutgoingMessage::new(json, self.topic.clone())
    }
}

pub struct MqttMeasurementBridgePluginBuilder;

impl MqttMeasurementBridgePluginBuilder {
    pub fn new() -> (b: Self) {
        MqttMeasurementBridgePluginBuilder
    }

    pub fn kind_name() -> (s: &'static str)
        ensures
            s@ == "mqtt_measurement_bridge"@,
    {
        "mqtt_measurement_bridge"
    }

    /// Builds the plugin that a configuration describes.
    pub fn instantiate(config: MqttMeasurementBridgeConfig) -> (p: MqttMeasurementBridgePlugin)
        ensures
            p.mqtt_plugin_addr == config.mqtt_plugin_name,
            p.topic == config.topic,
    {
        MqttMeasurementBridgePlugin::new(config.mqtt_plugin_name, config.topic)
    }
}

} // verus!
