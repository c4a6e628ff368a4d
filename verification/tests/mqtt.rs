use tedge_plugins::mqtt::next_reconnect_interval;
use tedge_plugins::mqtt::RECONNECT_INITIAL_INTERVAL_MS;
use tedge_plugins::mqtt::RECONNECT_MAX_INTERVAL_MS;
use tedge_plugins::mqtt::main_step;
use tedge_plugins::mqtt::Error;
use tedge_plugins::mqtt::LoopAction;
use tedge_plugins::mqtt::StreamEvent;
use tedge_plugins::mqtt::IncomingMessage;
use tedge_plugins::mqtt::InvalidQoS;
use tedge_plugins::mqtt::MqttConfig;
use tedge_plugins::mqtt::MqttPluginBuilder;
use tedge_plugins::mqtt::OutgoingMessage;
use tedge_plugins::mqtt::QoS;
use tedge_plugins::mqtt::Subscription;
use tedge_plugins::mqtt_measurement_bridge::MqttMeasurementBridgeConfig;
use tedge_plugins::mqtt_measurement_bridge::MqttMeasurementBridgePluginBuilder;

#[test]
fn qos_roundtrip() {
    for q in [QoS::AtMostOnce, QoS::AtLeastOnce, QoS::ExactlyOnce] {
        assert_eq!(QoS::try_from(q.into()), Ok(q));
    }
    assert_eq!(QoS::AtMostOnce.into(), 0);
    assert_eq!(QoS::AtLeastOnce.into(), 1);
    assert_eq!(QoS::ExactlyOnce.into(), 2);
    assert_eq!(QoS::try_from(3), Err(InvalidQoS(3)));
    assert_eq!(QoS::try_from(-1), Err(InvalidQoS(-1)));
}

#[test]
fn incoming_message_accessors() {
    let m = IncomingMessage::new(vec![1, 2, 3], 2, true, "a/b".to_string());
    assert_eq!(m.payload(), &[1, 2, 3]);
    assert_eq!(m.qos(), Ok(QoS::ExactlyOnce));
    assert!(m.retain());
    assert_eq!(m.topic(), "a/b");
    assert_eq!(m.into_payload(), vec![1, 2, 3]);
    let m = IncomingMessage::new(vec![], 7, false, String::new());
    assert_eq!(m.qos(), Err(InvalidQoS(7)));
}

#[test]
fn outgoing_message_qos() {
    let m = OutgoingMessage::new(vec![9], "t".to_string());
    assert_eq!(m.qos, QoS::AtLeastOnce);
    let m = m.with_qos(QoS::AtMostOnce);
    assert_eq!(m.qos, QoS::AtMostOnce);
    assert_eq!(m.payload, vec![9]);
    assert_eq!(m.topic, "t");
}

#[test]
fn subscriptions_in_order() {
    let c = MqttConfig {
        host: "tcp://localhost:1883".to_string(),
        subscriptions: vec![
            Subscription { topic: "a".to_string(), qos: QoS::ExactlyOnce },
            Subscription { topic: "b".to_string(), qos: QoS::AtMostOnce },
        ],
        target: "t".to_string(),
    };
    assert_eq!(c.subscription_requests(), vec![("a".to_string(), 2), ("b".to_string(), 0)]);
    let _ = MqttPluginBuilder::new();
    assert_eq!(MqttPluginBuilder::kind_name(), "mqtt");
}

#[test]
fn bridge_publishes_on_topic() {
    let _ = MqttMeasurementBridgePluginBuilder::new();
    let p = MqttMeasurementBridgePluginBuilder::instantiate(MqttMeasurementBridgeConfig {
        mqtt_plugin_name: "mqtt".to_string(),
        topic: "tedge/measurements".to_string(),
    });
    let m = p.handle_message(b"{}".to_vec());
    assert_eq!(m.topic, "tedge/measurements");
    assert_eq!(m.payload, b"{}".to_vec());
    assert_eq!(m.qos, QoS::AtLeastOnce);
    assert_eq!(MqttMeasurementBridgePluginBuilder::kind_name(), "mqtt_measurement_bridge");
}

#[test]
fn main_loop_steps() {
    let m = IncomingMessage::new(vec![4], 1, false, "x/y".to_string());
    match main_step(StreamEvent::Received(m)) {
        LoopAction::Forward(f) => {
            assert_eq!(f.payload(), &[4]);
            assert_eq!(f.topic(), "x/y");
            assert_eq!(f.qos(), Ok(QoS::AtLeastOnce));
        }
        other => panic!("unexpected {:?}", other),
    }
    assert!(matches!(main_step(StreamEvent::Disconnected), LoopAction::Reconnect));
    assert!(matches!(main_step(StreamEvent::Ended), LoopAction::Continue));
    assert!(matches!(main_step(StreamEvent::Cancelled), LoopAction::Stop));
}

#[test]
fn publishing_needs_a_client() {
    let c = MqttConfig {
        host: "tcp://localhost:1883".to_string(),
        subscriptions: vec![],
        target: "collectd".to_string(),
    };
    let mut p = MqttPluginBuilder::instantiate(c);
    assert_eq!(p.target_addr, "collectd");
    assert!(!p.connected);
    let m = OutgoingMessage::new(vec![1, 2], "out".to_string());
    assert_eq!(p.handle_message(m), Err(Error::NoClient));
    p.set_connected();
    let m = OutgoingMessage::new(vec![1, 2], "out".to_string()).with_qos(QoS::ExactlyOnce);
    assert_eq!(p.handle_message(m), Ok(("out".to_string(), vec![1, 2], 2)));
    assert!(p.shutdown());
    assert!(!p.shutdown());
    let m = OutgoingMessage::new(vec![3], "out".to_string());
    assert_eq!(p.handle_message(m), Err(Error::NoClient));
}

#[test]
fn reconnect_waits_double_up_to_the_limit() {
    let mut w = RECONNECT_INITIAL_INTERVAL_MS;
    let mut waits = vec![w];
    for _ in 0..7 {
        w = next_reconnect_interval(w);
        waits.push(w);
    }
    assert_eq!(waits, vec![100, 200, 400, 800, 1600, 3200, 5000, 5000]);
    assert_eq!(RECONNECT_MAX_INTERVAL_MS, 5000);
    assert_eq!(next_reconnect_interval(u64::MAX), 5000);
}
