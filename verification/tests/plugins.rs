use tedge_plugins::avg::avg_measurement;
use tedge_plugins::avg::AvgConfig;
use tedge_plugins::avg::AvgPluginBuilder;
use tedge_plugins::c8y::C8yConfig;
use tedge_plugins::c8y::C8yPlugin;
use tedge_plugins::c8y::C8yPluginBuilder;
use tedge_plugins::collectd::CollectdConfig;
use tedge_plugins::collectd::CollectdPluginBuilder;
use tedge_plugins::httpstop::HttpStopPluginBuilder;
use tedge_plugins::inotify::InotifyConfig;
use tedge_plugins::inotify::Watchmode;
use tedge_plugins::inotify::event_measurement;
use tedge_plugins::inotify::fail_on_err_default;
use tedge_plugins::inotify::mask_to_string;
use tedge_plugins::inotify::watch_step;
use tedge_plugins::inotify::InotifyEvent;
use tedge_plugins::inotify::InotifyPluginBuilder;
use tedge_plugins::inotify::WatchAction;
use tedge_plugins::inotify::WatchEvent;
use tedge_plugins::log::LogConfig;
use tedge_plugins::log::LogLevel;
use tedge_plugins::log::LogPluginBuilder;
use tedge_plugins::measurement::Measurement;
use tedge_plugins::measurement::MeasurementValue;
use tedge_plugins::mqtt::QoS;
use tedge_plugins::mqtt_sm::Config as SmConfig;
use tedge_plugins::mqtt_sm::InstallResponse;
use tedge_plugins::mqtt_sm::ListResponse;
use tedge_plugins::mqtt_sm::MqttSMPluginBuilder;
use tedge_plugins::mqtt_sm::SmRequest;
use tedge_plugins::mqtt_sm::SmResponse;
use tedge_plugins::mqtt_sm::SoftwareRequest;
use tedge_plugins::mqtt_sm::UninstallResponse;
use tedge_plugins::mqtt_sm::UpdateResponse;
use tedge_plugins::notification::Config as NotificationConfig;
use tedge_plugins::notification::NotificationLevel;
use tedge_plugins::notification::NotificationPluginBuilder;
use tedge_plugins::notification::NotificationType;
use tedge_plugins::sm_apt::Config as AptConfig;
use tedge_plugins::sm_apt::SmAptPluginBuilder;
use tedge_plugins::thin_edge_json::thin_edge_json_of;
use tedge_plugins::thin_edge_json::Error as TejError;
use tedge_plugins::thin_edge_json::JsonValue;
use tedge_plugins::thin_edge_json::MultiValueMeasurement;
use tedge_plugins::thin_edge_json::ThinEdgeJsonPlugin;
use tedge_plugins::thin_edge_json::SingleValueMeasurement;
use tedge_plugins::thin_edge_json::ThinEdgeJson;
use tedge_plugins::thin_edge_json::ThinEdgeJsonConfig;
use tedge_plugins::thin_edge_json::ThinEdgeJsonMessage;
use tedge_plugins::thin_edge_json::ThinEdgeJsonPluginBuilder;
use tedge_plugins::thin_edge_json::ThinEdgeJsonToMeasurementMapperConfig;
use tedge_plugins::thin_edge_json::ThinEdgeJsonToMeasurementMapperPlugin;
use tedge_plugins::thin_edge_json::ThinEdgeValue;

fn sm_plugin() -> tedge_plugins::mqtt_sm::MqttSMPlugin {
    MqttSMPluginBuilder::instantiate(SmConfig {
        target: "apt".to_string(),
        mqtt_plugin_addr: "mqtt".to_string(),
        result_topic: "tedge/sm/result".to_string(),
    })
}

#[test]
fn sm_requests_are_forwarded() {
    let p = sm_plugin();
    assert_eq!(p.target, "apt");
    assert_eq!(p.mqtt_addr, "mqtt");
    let f = p.handle_request(SmRequest::Install { package_name: "curl".to_string() });
    assert!(matches!(f.request, SoftwareRequest::Install { ref package_name } if package_name == "curl"));
    assert!(f.publish_reply);
    let f = p.handle_request(SmRequest::Update { package_name: "vim".to_string() });
    assert!(matches!(f.request, SoftwareRequest::Update { ref package_name } if package_name == "vim"));
    assert!(!f.publish_reply);
    let f = p.handle_request(SmRequest::Uninstall { package_name: "vim".to_string() });
    assert!(matches!(f.request, SoftwareRequest::Uninstall { ref package_name } if package_name == "vim"));
    assert!(!f.publish_reply);
    let f = p.handle_request(SmRequest::List);
    assert!(matches!(f.request, SoftwareRequest::List));
    assert!(!f.publish_reply);
    assert_eq!(MqttSMPluginBuilder::kind_name(), "mqtt_sm");
}

#[test]
fn sm_responses_keep_their_content() {
    let p = sm_plugin();
    let r = p.install_response(InstallResponse::InstallProgress { package_name: "a".to_string(), progress: 40 });
    assert!(matches!(r, SmResponse::InstallingState { ref package_name, progress: 40 } if package_name == "a"));
    let r = p.install_response(InstallResponse::InstallLogLine {
        package_name: "a".to_string(),
        log_line: "unpacking".to_string(),
    });
    assert!(matches!(r, SmResponse::InstallingLogLine { ref log_line, .. } if log_line == "unpacking"));
    let r = p.install_response(InstallResponse::InstallSucceeded { package_name: "a".to_string() });
    assert!(matches!(r, SmResponse::InstallSucceeded { ref package_name } if package_name == "a"));
    let r = p.install_response(InstallResponse::InstallFailed {
        package_name: "a".to_string(),
        failure_message: "no space".to_string(),
    });
    assert!(matches!(r, SmResponse::InstallFailed { ref failure_message, .. } if failure_message == "no space"));
    let r = p.list_response(ListResponse::List { list: vec!["a".to_string(), "b".to_string()] });
    assert!(matches!(r, SmResponse::List { ref list } if list.len() == 2 && list[1] == "b"));
    let r = p.list_response(ListResponse::ListFailed { message: "m".to_string() });
    assert!(matches!(r, SmResponse::ListFailed { ref message } if message == "m"));
    let r = p.update_response(UpdateResponse::UpdateProgress { package_name: "u".to_string(), progress: 7 });
    assert!(matches!(r, SmResponse::UpdatingState { progress: 7, .. }));
    let r = p.update_response(UpdateResponse::UpdateFailed {
        package_name: "u".to_string(),
        failure_message: "f".to_string(),
    });
    assert!(matches!(r, SmResponse::UpdateFailed { ref package_name, .. } if package_name == "u"));
    let r = p.uninstall_response(UninstallResponse::UninstallSucceeded { package_name: "x".to_string() });
    assert!(matches!(r, SmResponse::UninstallSucceeded { ref package_name } if package_name == "x"));
    let r = p.uninstall_response(UninstallResponse::UninstallLogLine {
        package_name: "x".to_string(),
        log_line: "l".to_string(),
    });
    assert!(matches!(r, SmResponse::UninstallLogLine { ref log_line, .. } if log_line == "l"));
}

#[test]
fn sm_response_is_published_on_result_topic() {
    let p = sm_plugin();
    let m = p.response_message(b"{\"type\":\"InstallSucceeded\"}".to_vec());
    assert_eq!(m.topic, "tedge/sm/result");
    assert_eq!(m.payload, b"{\"type\":\"InstallSucceeded\"}".to_vec());
    assert_eq!(m.qos, QoS::AtLeastOnce);
}

#[test]
fn apt_only_answers_installations() {
    let p = SmAptPluginBuilder::instantiate(AptConfig { apt_binary: None });
    assert_eq!(p.apt_binary_path, None);
    let r = p.handle_message(SoftwareRequest::Install { package_name: "curl".to_string() });
    assert!(matches!(r, Some(InstallResponse::InstallSucceeded { ref package_name }) if package_name == "curl"));
    assert!(p.handle_message(SoftwareRequest::List).is_none());
    assert!(p.handle_message(SoftwareRequest::Update { package_name: "a".to_string() }).is_none());
    assert!(p.handle_message(SoftwareRequest::Uninstall { package_name: "a".to_string() }).is_none());
    assert_eq!(SmAptPluginBuilder::kind_name(), "sm_apt");
}

#[test]
fn notification_raised_for_every_measurement() {
    let p = NotificationPluginBuilder::instantiate(NotificationConfig {
        forward_to: "foo".to_string(),
        notify: "bar".to_string(),
        raise: NotificationType::Warning,
        raise_message: "it is getting warm here".to_string(),
    });
    assert_eq!(p.target_addr, "foo");
    assert_eq!(p.notify_addr, "bar");
    let m = Measurement::new("temp".to_string(), MeasurementValue::Float(30f64.to_bits()));
    let a = p.handle_message(m);
    assert_eq!(a.notification.level, NotificationLevel::Warning);
    assert_eq!(a.notification.message, "it is getting warm here");
    assert_eq!(a.forward, Measurement::new("temp".to_string(), MeasurementValue::Float(30f64.to_bits())));
    assert_eq!(NotificationPluginBuilder::kind_name(), "notification");
}

#[test]
fn notification_types_raise_their_levels() {
    assert_eq!(NotificationType::Info.into_notification("i".to_string()).level, NotificationLevel::Info);
    assert_eq!(NotificationType::Warning.into_notification("w".to_string()).level, NotificationLevel::Warning);
    let n = NotificationType::Error.into_notification("e".to_string());
    assert_eq!(n.level, NotificationLevel::Error);
    assert_eq!(n.message, "e");
}

fn avg_config(report_on_zero_elements: bool) -> AvgConfig {
    AvgConfig { timeframe_ms: 1000, target: "log".to_string(), report_on_zero_elements }
}

#[test]
fn avg_collects_numbers_of_a_window() {
    let mut p = AvgPluginBuilder::instantiate(avg_config(false));
    assert_eq!(p.addr, "log");
    assert_eq!(p.handle_message(&Measurement::new("a".to_string(), MeasurementValue::Float(1f64.to_bits()))), Ok(()));
    assert_eq!(p.handle_message(&Measurement::new("b".to_string(), MeasurementValue::Float(3f64.to_bits()))), Ok(()));
    assert_eq!(p.handle_message(&Measurement::new("c".to_string(), MeasurementValue::Bool(true))), Err("Bool"));
    assert_eq!(
        p.handle_message(&Measurement::new("d".to_string(), MeasurementValue::Text("x".to_string()))),
        Err("Str")
    );
    assert_eq!(p.handle_message(&Measurement::new("e".to_string(), MeasurementValue::Dict(vec![]))), Err("Map"));
    assert_eq!(p.handle_message(&Measurement::new("f".to_string(), MeasurementValue::List(vec![]))), Err("List"));
    assert_eq!(p.end_window(), Some(vec![1f64.to_bits(), 3f64.to_bits()]));
    assert_eq!(p.end_window(), None);
    assert_eq!(AvgPluginBuilder::kind_name(), "avg");
}

#[test]
fn avg_reports_empty_window_when_configured() {
    let mut p = AvgPluginBuilder::instantiate(avg_config(true));
    assert_eq!(p.end_window(), Some(vec![]));
    let m = avg_measurement(2f64.to_bits());
    assert_eq!(m.name, "avg");
    assert_eq!(m.value, MeasurementValue::Float(2f64.to_bits()));
}

#[test]
fn inotify_event_names() {
    assert_eq!(mask_to_string(InotifyEvent::CLOSE_WRITE), "CLOSE_WRITE");
    assert_eq!(mask_to_string(InotifyEvent::Q_OVERFLOW), "Q_OVERFLOW");
    assert_eq!(mask_to_string(InotifyEvent::Unknown), "unknown");
    let m = event_measurement(&"/tmp/x".to_string(), InotifyEvent::MODIFY);
    assert_eq!(m, Measurement::new("MODIFY".to_string(), MeasurementValue::Text("/tmp/x".to_string())));
    assert!(fail_on_err_default());
    assert_eq!(InotifyPluginBuilder::kind_name(), "inotify");
}

#[test]
fn inotify_loop_steps() {
    let a = watch_step(true, WatchEvent::Event { path: Some("/etc".to_string()), event: InotifyEvent::CREATE });
    match a {
        WatchAction::Send(m) => {
            assert_eq!(m, Measurement::new("CREATE".to_string(), MeasurementValue::Text("/etc".to_string())))
        }
        other => panic!("unexpected {:?}", other),
    }
    assert!(matches!(watch_step(true, WatchEvent::Event { path: None, event: InotifyEvent::OPEN }), WatchAction::Continue));
    assert!(matches!(watch_step(true, WatchEvent::Failed), WatchAction::Fail));
    assert!(matches!(watch_step(false, WatchEvent::Failed), WatchAction::Continue));
    assert!(matches!(watch_step(false, WatchEvent::Ended), WatchAction::Stop));
    assert!(matches!(watch_step(false, WatchEvent::Cancelled), WatchAction::Stop));
}

#[test]
fn thin_edge_json_documents() {
    let doc = ThinEdgeJson {
        values: vec![
            ThinEdgeValue::Single(SingleValueMeasurement { name: "temp".to_string(), value: 21f64.to_bits() }),
            ThinEdgeValue::Multi(MultiValueMeasurement {
                name: "location".to_string(),
                values: vec![
                    SingleValueMeasurement { name: "lat".to_string(), value: 1.5f64.to_bits() },
                    SingleValueMeasurement { name: "lon".to_string(), value: 2.5f64.to_bits() },
                ],
            }),
            ThinEdgeValue::Multi(MultiValueMeasurement { name: "empty".to_string(), values: vec![] }),
            ThinEdgeValue::Single(SingleValueMeasurement { name: "hum".to_string(), value: 40f64.to_bits() }),
        ],
    };
    let msg = ThinEdgeJsonMessage::from(doc);
    assert_eq!(msg.inner().values.len(), 4);
    let p = ThinEdgeJsonToMeasurementMapperPlugin::new("log".to_string());
    assert_eq!(p.target_addr, "log");
    let ms = p.handle_message(msg);
    assert_eq!(
        ms,
        vec![
            Measurement::new("temp".to_string(), MeasurementValue::Float(21f64.to_bits())),
            Measurement::new("lat".to_string(), MeasurementValue::Float(1.5f64.to_bits())),
            Measurement::new("lon".to_string(), MeasurementValue::Float(2.5f64.to_bits())),
            Measurement::new("hum".to_string(), MeasurementValue::Float(40f64.to_bits())),
        ]
    );
    let empty = ThinEdgeJsonMessage::from(ThinEdgeJson { values: vec![] });
    assert!(p.handle_message(empty).is_empty());
    assert_eq!(ThinEdgeJsonConfig::new("x".to_string()).target(), "x");
    assert_eq!(ThinEdgeJsonToMeasurementMapperConfig::new("y".to_string()).target(), "y");
    assert_eq!(ThinEdgeJsonPluginBuilder::kind_name(), "thin_edge_json");
    let inner = ThinEdgeJsonMessage::from(ThinEdgeJson { values: vec![] }).into_inner();
    assert!(inner.values.is_empty());
}

#[test]
fn small_plugins() {
    let l = LogPluginBuilder::instantiate(LogConfig { level: LogLevel::Warn, acknowledge: true });
    assert_eq!(l.level(), LogLevel::Warn);
    assert!(l.config.acknowledge);
    let _ = LogPluginBuilder::new();
    assert_eq!(LogPluginBuilder::kind_name(), "log");
    let c = C8yPlugin::new(C8yConfig { sm_plugin_name: "sm".to_string() });
    assert_eq!(c.config.sm_plugin_name, "sm");
    assert_eq!(C8yPluginBuilder::kind_name(), "c8y");
    assert_eq!(HttpStopPluginBuilder::kind_name(), "httpstop");
}

#[test]
fn httpstop_answer() {
    assert_eq!(tedge_plugins::httpstop::stop_response(), "shutdown initiated");
}

#[test]
fn thin_edge_json_payload_must_be_utf8() {
    let p = ThinEdgeJsonPluginBuilder::instantiate(ThinEdgeJsonConfig::new("mapper".to_string()));
    assert_eq!(p.target_addr, "mapper");
    assert_eq!(p.payload_text(b"{\"temp\": 21}").unwrap(), "{\"temp\": 21}");
    assert!(matches!(p.payload_text(&[0xff, 0xfe]), Err(TejError::ParseUtf8Error)));
    let _ = ThinEdgeJsonPlugin::new("x".to_string());
}

#[test]
fn builders_take_their_targets() {
    let c = CollectdPluginBuilder::instantiate(CollectdConfig { target: "filter".to_string() });
    assert_eq!(c.target, "filter");
    let c8y = C8yPluginBuilder::instantiate(C8yConfig { sm_plugin_name: "apt".to_string() });
    assert_eq!(c8y.config.sm_plugin_name, "apt");
    let i = InotifyPluginBuilder::instantiate(InotifyConfig {
        target: "log".to_string(),
        fail_on_err: false,
        pathes: vec![("/tmp".to_string(), vec![Watchmode::CREATE, Watchmode::DELETE])],
    });
    assert_eq!(i.addr, "log");
    assert_eq!(i.config.pathes.len(), 1);
    assert_eq!(i.config.pathes[0].1, vec![Watchmode::CREATE, Watchmode::DELETE]);
}

#[test]
fn plugin_constants() {
    assert_eq!(tedge_plugins::mqtt::CONNECT_TIMEOUT_SECS, 10);
    assert_eq!(tedge_plugins::mqtt::STREAM_BUFFER_SIZE, 100);
    assert_eq!(tedge_plugins::mqtt_sm::REPLY_TIMEOUT_SECS, 10);
    assert_eq!(tedge_plugins::inotify::EVENT_BUFFER_SIZE, 1024);
}

#[test]
fn thin_edge_json_documents_from_json_trees() {
    let n = |x: f64| JsonValue::Number(x.to_bits());
    let doc = JsonValue::Object(vec![
        ("time".to_string(), JsonValue::Text("2021-01-01T00:00:00Z".to_string())),
        ("temp".to_string(), n(21.0)),
        ("loc".to_string(), JsonValue::Object(vec![("lat".to_string(), n(1.5)), ("lon".to_string(), n(2.5))])),
    ]);
    let t = thin_edge_json_of(&doc).unwrap();
    assert_eq!(t.values.len(), 2);
    assert!(matches!(&t.values[0], ThinEdgeValue::Single(s) if s.name == "temp" && s.value == 21f64.to_bits()));
    match &t.values[1] {
        ThinEdgeValue::Multi(m) => {
            assert_eq!(m.name, "loc");
            assert_eq!(m.values.len(), 2);
            assert_eq!(m.values[1].name, "lon");
            assert_eq!(m.values[1].value, 2.5f64.to_bits());
        }
        other => panic!("unexpected {:?}", other),
    }
    let bad = JsonValue::Object(vec![("temp".to_string(), JsonValue::Text("hot".to_string()))]);
    assert!(matches!(thin_edge_json_of(&bad), Err(TejError::ThinEdgeJsonBuilderError(_))));
    let nested = JsonValue::Object(vec![(
        "g".to_string(),
        JsonValue::Object(vec![("x".to_string(), JsonValue::Object(vec![]))]),
    )]);
    assert!(matches!(thin_edge_json_of(&nested), Err(TejError::ThinEdgeJsonBuilderError(_))));
    assert!(matches!(thin_edge_json_of(&n(1.0)), Err(TejError::ThinEdgeJsonBuilderError(_))));
    assert!(thin_edge_json_of(&JsonValue::Object(vec![])).unwrap().values.is_empty());
}
