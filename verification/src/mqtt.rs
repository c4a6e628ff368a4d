//! MQTT messages as other plugins see them, the quality-of-service levels,
//! and the configuration of the MQTT plugin.
use vstd::prelude::*;

verus! {

/// MQTT quality-of-service level 0 ("at most once").
pub const QOS_0: i32 = 0;

/// MQTT quality-of-service level 1 ("at least once").
pub const QOS_1: i32 = 1;

/// MQTT quality-of-service level 2 ("exactly once").
pub const QOS_2: i32 = 2;

#[derive(Debug, Clone, Copy, PartialEq, Eq, Structural)]
pub enum QoS {
    AtMostOnce,
    AtLeastOnce,
    ExactlyOnce,
}

/// An integer that is no MQTT quality-of-service level.
#[derive(Debug, Clone, Copy, PartialEq, Eq, Structural)]
pub struct InvalidQoS(pub i32);

/// The number of a quality-of-service level.
pub open spec fn qos_number(q: QoS) -> i32 {
    match q {
        QoS::AtMostOnce => QOS_0,
        QoS::AtLeastOnce => QOS_1,
        QoS::ExactlyOnce => QOS_2,
    }
}

/// The quality-of-service level a number stands for, if any.
pub open spec fn qos_of_number(i: i32) -> Option<QoS> {
    if i == QOS_0 {
        Some(QoS::AtMostOnce)
    } else if i == QOS_1 {
        Some(QoS::AtLeastOnce)
    } else if i == QOS_2 {
        Some(QoS::ExactlyOnce)
    } else {
        None
    }
}

impl QoS {
    pub fn into(self) -> (i: i32)
        ensures
            i == qos_number(self),
    {
        match self {
            QoS::AtMostOnce => QOS_0,
            QoS::AtLeastOnce => QOS_1,
            QoS::ExactlyOnce => QOS_2,
        }
    }

    pub fn try_from(i: i32) -> (r: Result<QoS, InvalidQoS>)
        ensures
            match qos_of_number(i) {
                Some(q) => r == Ok::<QoS, InvalidQoS>(q),
                None => r == Err::<QoS, InvalidQoS>(InvalidQoS(i)),
            },
    {
        if i == QOS_0 {
            Ok(QoS::AtMostOnce)
        } else if i == QOS_1 {
            Ok(QoS::AtLeastOnce)
        } else if i == QOS_2 {
            Ok(QoS::ExactlyOnce)
        } else {
            Err(InvalidQoS(i))
        }
    }
}

/// Reading back the number of a level gives the level.
pub proof fn lemma_qos_roundtrip(q: QoS)
    ensures
        qos_of_number(qos_number(q)) == Some(q),
{
}

/// A number that stands for a level is that level's number.
pub proof fn lemma_qos_number_roundtrip(i: i32)
    ensures
        qos_of_number(i) matches Some(q) ==> qos_number(q) == i,
        qos_of_number(i) is Some <==> 0 <= i <= 2,
{
}

/// The MQTT numbers of the levels: 0 for "at most once", 1 for "at least
/// once", 2 for "exactly once".
pub proof fn lemma_qos_numbers()
    ensures
        qos_number(QoS::AtMostOnce) == 0,
        qos_number(QoS::AtLeastOnce) == 1,
        qos_number(QoS::ExactlyOnce) == 2,
        qos_of_number(0) == Some(QoS::AtMostOnce),
        qos_of_number(1) == Some(QoS::AtLeastOnce),
        qos_of_number(2) == Some(QoS::ExactlyOnce),
{
}

/// A message that was received over MQTT and is handed to another plugin.
#[derive(Debug)]
pub struct IncomingMessage {
    pub payload: Vec<u8>,
    pub qos: i32,
    pub retain: bool,
    pub topic: String,
}

impl IncomingMessage {
    pub fn new(payload: Vec<u8>, qos: i32, retain: bool, topic: String) -> (m: Self)
        ensures
            m.payload == payload,
            m.qos == qos,
            m.retain == retain,
            m.topic == topic,
    {
        IncomingMessage { payload, qos, retain, topic }
    }

    pub fn payload(&self) -> (p: &[u8])
        ensures
            p@ == self.payload@,
    {
        self.payload.as_slice()
    }

    pub fn into_payload(self) -> (p: Vec<u8>)
        ensures
            p == self.payload,
    {
        self.payload
    }

    pub fn qos(&self) -> (r: Result<QoS, InvalidQoS>)
        ensures
            match qos_of_number(self.qos) {
                Some(q) => r == Ok::<QoS, InvalidQoS>(q),
                None => r == Err::<QoS, InvalidQoS>(InvalidQoS(self.qos)),
            },
    {
        QoS::try_from(self.qos)
    }

    pub fn retain(&self) -> (b: bool)
        ensures
            b == self.retain,
    {
        self.retain
    }

    pub fn topic(&self) -> (t: &str)
        ensures
            t@ == self.topic@,
    {
        self.topic.as_str()
    }
}

/// A message that another plugin asks the MQTT plugin to publish.
#[derive(Debug)]
pub struct OutgoingMessage {
    pub payload: Vec<u8>,
    pub topic: String,
    pub qos: QoS,
}

impl OutgoingMessage {
    /// A message to publish with quality of service "at least once".
    pub fn new(payload: Vec<u8>, topic: String) -> (m: Self)
        ensures
            m.payload == payload,
            m.topic == topic,
            m.qos == QoS::AtLeastOnce,
    {
        OutgoingMessage { payload, topic, qos: QoS::AtLeastOnce }
    }

    /// The same message with another quality of service.
    pub fn with_qos(self, qos: QoS) -> (m: Self)
        ensures
            m.payload == self.payload,
            m.topic == self.topic,
            m.qos == qos,
    {
        let mut m = self;
        m.qos = qos;
        m
    }
}

/// A topic to subscribe to, with its quality of service.
pub struct Subscription {
    /// The topic to connect to
    pub topic: String,
    /// The Quality of Service to use for the subscribed topic
    pub qos: QoS,
}

/// The configuration of the MQTT plugin.
pub struct MqttConfig {
    /// MQTT host to connect to
    pub host: String,
    /// The list of topics to subscribe to on connect
    pub subscriptions: Vec<Subscription>,
    /// Name of the plugin to send messages to
    pub target: String,
}

impl MqttConfig {
    /// The topics to subscribe to on connect, each with the number of its
    /// quality of service, in the order of the configuration.
    pub fn subscription_requests(&self) -> (r: Vec<(String, i32)>)
        ensures
            r@.len() == self.subscriptions@.len(),
            forall|i: int|
                0 <= i < r@.len() ==> (#[trigger] r@[i]).0 == self.subscriptions@[i].topic && r@[i].1
                    == qos_number(self.subscriptions@[i].qos),
    {
        let mut r: Vec<(String, i32)> = Vec::new();
        for i in 0..self.subscriptions.len()
            invariant
                r@.len() == i,
                forall|j: int|
                    0 <= j < i ==> (#[trigger] r@[j]).0 == self.subscriptions@[j].topic && r@[j].1
                        == qos_number(self.subscriptions@[j].qos),
        {
            let s = &self.subscriptions[i];
            r.push((s.topic.clone(), s.qos.into()));
        }
        r
    }
}

/// How long connecting the client may take, in seconds.
pub const CONNECT_TIMEOUT_SECS: u64 = 10;

/// How many incoming messages the client's stream holds.
pub const STREAM_BUFFER_SIZE: usize = 100;

/// The first wait before reconnecting a client that lost its connection, in
/// milliseconds.
pub const RECONNECT_INITIAL_INTERVAL_MS: u64 = 100;

/// The factor by which the wait grows after each failed reconnection.
pub const RECONNECT_MULTIPLIER: u64 = 2;

/// The longest wait between two reconnection attempts, in milliseconds.
pub const RECONNECT_MAX_INTERVAL_MS: u64 = 5000;

/// The wait before the next reconnection attempt, after one that followed a
/// wait of `interval_ms` failed: the wait times the multiplier, but no more
/// than the longest wait.
pub fn next_reconnect_interval(interval_ms: u64) -> (r: u64)
    ensures
        r == if interval_ms * RECONNECT_MULTIPLIER <= RECONNECT_MAX_INTERVAL_MS {
            interval_ms * RECONNECT_MULTIPLIER
        } else {
            RECONNECT_MAX_INTERVAL_MS as int
        },
{
    if interval_ms <= RECONNECT_MAX_INTERVAL_MS / RECONNECT_MULTIPLIER {
        interval_ms * RECONNECT_MULTIPLIER
    } else {
        RECONNECT_MAX_INTERVAL_MS
    }
}

/// The errors of the MQTT plugin.
#[derive(Debug, Clone, Copy, PartialEq, Eq, Structural)]
pub enum Error {
    ConfigParseFailed,
    FailedToPublish,
    NoClient,
    FailedToStopMqttMainloop,
    FailedToDisconnectMqttClient,
}

/// What the MQTT client's message stream gives the main loop.
#[derive(Debug)]
pub enum StreamEvent {
    /// A message arrived on a subscribed topic.
    Received(IncomingMessage),
    /// The client lost its connection.
    Disconnected,
    /// The stream has nothing more.
    Ended,
    /// The plugin is shutting down.
    Cancelled,
}

/// What the main loop does next.
#[derive(Debug)]
pub enum LoopAction {
    /// Send the message to the target plugin.
    Forward(IncomingMessage),
    /// Reconnect the client, retrying with backoff.
    Reconnect,
    /// Wait for the next event.
    Continue,
    /// Leave the loop.
    Stop,
}

/// One turn of the main loop: a received message is forwarded as it came, a
/// lost connection is re-established, the end of the stream is waited out,
/// and shutting down ends the loop.
pub fn main_step(event: StreamEvent) -> (a: LoopAction)
    ensures
        match event {
            StreamEvent::Received(m) => a == LoopAction::Forward(m),
            StreamEvent::Disconnected => a is Reconnect,
            StreamEvent::Ended => a is Continue,
            StreamEvent::Cancelled => a is Stop,
        },
{
    match event {
        StreamEvent::Received(m) => LoopAction::Forward(m),
        StreamEvent::Disconnected => LoopAction::Reconnect,
        StreamEvent::Ended => LoopAction::Continue,
        StreamEvent::Cancelled => LoopAction::Stop,
    }
}

/// The MQTT plugin: its configuration, the plugin it hands incoming
/// messages to, and whether its client is connected.
pub struct MqttPlugin {
    pub config: MqttConfig,
    pub target_addr: String,
    pub connected: bool,
}

impl MqttPlugin {
    /// A plugin whose client is not connected yet.
    pub fn new(config: MqttConfig, target_addr: String) -> (p: Self)
        ensures
            p.config == config,
            p.target_addr == target_addr,
            !p.connected,
    {
        MqttPlugin { config, target_addr, connected: false }
    }

    /// Records that starting the plugin connected its client.
    pub fn set_connected(&mut self)
        ensures
            final(self).config == old(self).config,
            final(self).target_addr == old(self).target_addr,
            final(self).connected,
    {
        self.connected = true;
    }

    /// What publishing an outgoing message hands the client: its topic, its
    /// payload and the number of its quality of service; without a connected
    /// client the message cannot be sent.
    pub fn handle_message(&self, message: OutgoingMessage) -> (r: Result<(String, Vec<u8>, i32), Error>)
        ensures
            self.connected ==> r == Ok::<(String, Vec<u8>, i32), Error>(
                (message.topic, message.payload, qos_number(message.qos)),
            ),
            !self.connected ==> r == Err::<(String, Vec<u8>, i32), Error>(Error::NoClient),
    {
        if self.connected {
            let q: i32 = message.qos.into();
            Ok((message.topic, message.payload, q))
        } else {
            Err(Error::NoClient)
        }
    }

    /// Shutting down: whether there is a client to disconnect. Afterwards
    /// there is none.
    pub fn shutdown(&mut self) -> (had_client: bool)
        ensures
            had_client == old(self).connected,
            final(self).config == old(self).config,
            final(self).target_addr == old(self).target_addr,
            !final(self).connected,
    {
        let had_client = self.connected;
        self.connected = false;
        had_client
    }
}

pub struct MqttPluginBuilder;

impl MqttPluginBuilder {
    pub fn new() -> (b: Self) {
        MqttPluginBuilder
    }

    pub fn kind_name() -> (s: &'static str)
        ensures
            s@ == "mqtt"@,
    {
        "mqtt"
    }

    /// Builds the plugin that a configuration describes; incoming messages go
    /// to the configured target.
    pub fn instantiate(config: MqttConfig) -> (p: MqttPlugin)
        ensures
            p.config == config,
            p.target_addr == config.target,
            !p.connected,
    {
        let target = config.target.clone();
        MqttPlugin::new(config, target)
    }
}

} // verus!
