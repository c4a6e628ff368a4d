use tedge_plugins::collectd::payload_text;
use tedge_plugins::collectd::CollectdMeasurement;
use tedge_plugins::collectd::CollectdPayload;
use tedge_plugins::collectd::CollectdPlugin;
use tedge_plugins::collectd::CollectdPluginBuilder;
use tedge_plugins::collectd::CollectdTopic;
use tedge_plugins::collectd::Error;
use tedge_plugins::measurement::MeasurementValue;

fn numbers(payload: &str) -> Vec<Option<u64>> {
    CollectdPayload::fields(payload)
        .iter()
        .map(|s| s.parse::<f64>().ok().map(f64::to_bits))
        .collect()
}

#[test]
fn topic_with_four_parts() {
    let t = CollectdTopic::parse("collectd/localhost/temperature/value").unwrap();
    assert_eq!(t.metric_group_key, "temperature");
    assert_eq!(t.metric_key, "value");
}

#[test]
fn topic_with_other_part_counts() {
    for s in ["collectd/localhost/temperature", "collectd/localhost/temperature/value/x", "", "a/b/c/d/"] {
        match CollectdTopic::parse(s) {
            Err(Error::InvalidCollectdTopicName(n)) => assert_eq!(n, s),
            other => panic!("unexpected {:?}", other),
        }
    }
    let t = CollectdTopic::parse("///").unwrap();
    assert_eq!(t.metric_group_key, "");
    assert_eq!(t.metric_key, "");
}

#[test]
fn payload_parse() {
    let s = "123.5:1.25:-3";
    let p = CollectdPayload::parse(s, &numbers(s)).unwrap();
    assert_eq!(p.timestamp(), 123.5f64.to_bits());
    assert_eq!(p.iter_metric_values(), &vec![1.25f64.to_bits(), (-3.0f64).to_bits()]);
}

#[test]
fn payload_errors() {
    let s = "123";
    match CollectdPayload::parse(s, &numbers(s)) {
        Err(Error::InvalidMeasurementPayloadFormat(t)) => assert_eq!(t, "123"),
        other => panic!("unexpected {:?}", other),
    }
    let s = "abc:1";
    match CollectdPayload::parse(s, &numbers(s)) {
        Err(Error::InvalidMeasurementTimestamp(t)) => assert_eq!(t, "abc"),
        other => panic!("unexpected {:?}", other),
    }
    let s = "1:2:x:y";
    match CollectdPayload::parse(s, &numbers(s)) {
        Err(Error::InvalidMeasurementValue(t)) => assert_eq!(t, "x"),
        other => panic!("unexpected {:?}", other),
    }
    match CollectdPayload::parse("1:2", &vec![Some(1)]) {
        Err(Error::InvalidMeasurementValue(t)) => assert_eq!(t, "2"),
        other => panic!("unexpected {:?}", other),
    }
}

#[test]
fn measurements_of_a_message() {
    let topic = CollectdTopic::parse("collectd/host/cpu/user").unwrap();
    let s = "1:2:3";
    let payload = CollectdPayload::parse(s, &numbers(s)).unwrap();
    let ms = CollectdMeasurement::new(topic, payload).into_measurements();
    assert_eq!(ms.len(), 2);
    assert_eq!(ms[0].name, "cpu/user");
    assert_eq!(ms[0].value, MeasurementValue::Float(2.0f64.to_bits()));
    assert_eq!(ms[1].value, MeasurementValue::Float(3.0f64.to_bits()));
}

#[test]
fn plugin_handles_message() {
    let p = CollectdPlugin::new("target".to_string());
    let text = payload_text(b"10:20").unwrap();
    let ms = p.handle_message("collectd/h/g/k", b"10:20", &numbers(&text)).unwrap();
    assert_eq!(ms.len(), 1);
    assert_eq!(ms[0].name, "g/k");
    // the topic is read before the payload
    assert!(matches!(
        p.handle_message("collectd/h/g", &[0xff, 0xfe], &vec![]),
        Err(Error::InvalidCollectdTopicName(_))
    ));
    assert!(matches!(
        p.handle_message("collectd/h/g/k", &[0xff, 0xfe], &vec![]),
        Err(Error::MessagePayloadNotUtf8)
    ));
    match p.handle_message("collectd/h/g/k", b"10:x", &numbers("10:x")) {
        Err(Error::InvalidMeasurementValue(t)) => assert_eq!(t, "x"),
        other => panic!("unexpected {:?}", other),
    }
    match p.handle_message("collectd/h/g/k", b"t:1", &numbers("t:1")) {
        Err(Error::InvalidMeasurementTimestamp(t)) => assert_eq!(t, "t"),
        other => panic!("unexpected {:?}", other),
    }
    match p.handle_message("collectd/h/g/k", b"10", &numbers("10")) {
        Err(Error::InvalidMeasurementPayloadFormat(t)) => assert_eq!(t, "10"),
        other => panic!("unexpected {:?}", other),
    }
    assert!(matches!(payload_text(&[0xff, 0xfe]), Err(Error::MessagePayloadNotUtf8)));
    assert_eq!(payload_text("héllo".as_bytes()).unwrap(), "héllo");
    assert_eq!(CollectdPluginBuilder::kind_name(), "collectd");
}
