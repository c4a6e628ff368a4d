//! The collectd plugin: it turns the messages that collectd publishes over
//! MQTT (topic `collectd/<host>/<group>/<key>`, payload
//! `<timestamp>:<value>[:<value>...]`) into measurements.
use vstd::prelude::*;
use vstd::utf8::decode_utf8;
use vstd::utf8::valid_utf8;

use crate::measurement::Measurement;
use crate::measurement::MeasurementValue;
use crate::text::concat_strings;
use crate::text::utf8_decode;
use crate::text::split_seq;
use crate::text::split_str;
use crate::text::views;

verus! {

#[derive(Debug)]
pub enum Error {
    ConfigParseFailed(String),
    FailedToSendMeasurement,
    InvalidCollectdTopicName(String),
    InvalidMeasurementPayloadFormat(String),
    InvalidMeasurementTimestamp(String),
    InvalidMeasurementValue(String),
    MessagePayloadNotUtf8,
}

/// The configuration of the collectd plugin.
pub struct CollectdConfig {
    /// Name of the plugin to send measurements received from collectd to
    pub target: String,
}

/// The metric group and metric key named by a collectd topic.
#[derive(Debug)]
pub struct CollectdTopic {
    pub metric_group_key: String,
    pub metric_key: String,
}

impl CollectdTopic {
    /// Reads a topic of exactly four `/`-separated parts: a prefix, a host
    /// name, the metric group and the metric key.
    pub fn parse(s: &str) -> (r: Result<CollectdTopic, Error>)
        ensures
            r is Ok <==> split_seq(s@, '/').len() == 4,
            r matches Ok(t) ==> t.metric_group_key@ == split_seq(s@, '/')[2] && t.metric_key@
                == split_seq(s@, '/')[3],
            r matches Err(e) ==> e matches Error::InvalidCollectdTopicName(n) && n@ == s@,
    {
        let parts = split_str(s, '/');
        if parts.len() != 4 {
            return Err(Error::InvalidCollectdTopicName(s.to_string()));
        }
        assert(parts@[2]@ == split_seq(s@, '/')[2]);
        assert(parts@[3]@ == split_seq(s@, '/')[3]);
        Ok(CollectdTopic { metric_group_key: parts[2].clone(), metric_key: parts[3].clone() })
    }
}

/// The payload of a collectd message as text.
pub fn payload_text(bytes: &[u8]) -> (r: Result<String, Error>)
    ensures
        r is Ok <==> valid_utf8(bytes@),
        r matches Ok(s) ==> s@ == decode_utf8(bytes@),
        r matches Err(e) ==> e is MessagePayloadNotUtf8,
{
    match utf8_decode(bytes) {
        Some(s) => Ok(s),
        None => Err(Error::MessagePayloadNotUtf8),
    }
}

/// A parsed payload: a timestamp and one or more values, each an IEEE-754
/// binary64 bit pattern.
#[derive(Debug)]
pub struct CollectdPayload {
    pub timestamp: u64,
    pub metric_values: Vec<u64>,
}

/// The number read from field `i`, as the caller of `CollectdPayload::parse`
/// provides it (missing entries count as unreadable).
pub open spec fn number_at(numbers: Seq<Option<u64>>, i: int) -> Option<u64> {
    if 0 <= i < numbers.len() {
        numbers[i]
    } else {
        None
    }
}

/// The numbers of fields `1..n` are all readable.
pub open spec fn values_readable(numbers: Seq<Option<u64>>, n: int) -> bool {
    forall|i: int| 1 <= i < n ==> #[trigger] number_at(numbers, i) is Some
}

/// `e` is the error that reading `payload` gives: a payload with fewer than
/// two fields is refused as a whole; then an unreadable timestamp (field 0)
/// is reported; then the first unreadable value.
pub open spec fn payload_error_of(e: Error, payload: Seq<char>, numbers: Seq<Option<u64>>) -> bool {
    let fields = split_seq(payload, ':');
    let n = fields.len() as int;
    match e {
        Error::InvalidMeasurementPayloadFormat(t) => n <= 1 && t@ == payload,
        Error::InvalidMeasurementTimestamp(t) => n > 1 && number_at(numbers, 0) is None && t@ == fields[0],
        Error::InvalidMeasurementValue(t) => n > 1 && number_at(numbers, 0) is Some && exists|i: int|
            1 <= i < n && number_at(numbers, i) is None && values_readable(numbers, i) && t@ == fields[i],
        _ => false,
    }
}

impl CollectdPayload {
    /// The `:`-separated fields of a payload.
    pub fn fields(payload: &str) -> (f: Vec<String>)
        ensures
            views(f@) == split_seq(payload@, ':'),
    {
        split_str(payload, ':')
    }

    /// Reads a payload, given the number that each of its fields denotes
    /// (`numbers[i]` for field `i`; `None` where the field is no number).
    ///
    /// A payload with fewer than two fields is refused as a whole; then the
    /// timestamp (field 0) must be a number, then each value in turn.
    pub fn parse(payload: &str, numbers: &Vec<Option<u64>>) -> (r: Result<CollectdPayload, Error>)
        ensures
            ({
                let fields = split_seq(payload@, ':');
                let n = fields.len() as int;
                &&& r is Ok <==> (n > 1 && number_at(numbers@, 0) is Some && values_readable(numbers@, n))
                &&& r matches Ok(p) ==> p.timestamp == number_at(numbers@, 0)->0 && p.metric_values@.len()
                    == n - 1 && forall|i: int|
                    0 <= i < n - 1 ==> Some(#[trigger] p.metric_values@[i]) == number_at(numbers@, i + 1)
                &&& r matches Err(e) ==> payload_error_of(e, payload@, numbers@)
            }),
    {
        let fields = split_str(payload, ':');
        let n = fields.len();
        if n <= 1 {
            return Err(Error::InvalidMeasurementPayloadFormat(payload.to_string()));
        }
        let timestamp = if 0 < numbers.len() {
            numbers[0]
        } else {
            None
        };
        let timestamp = match timestamp {
            Some(t) => t,
            None => {
                assert(fields@[0]@ == split_seq(payload@, ':')[0]);
                return Err(Error::InvalidMeasurementTimestamp(fields[0].clone()));
            },
        };
        let mut metric_values: Vec<u64> = Vec::new();
        for i in 1..n
            invariant
                n == fields@.len(),
                n > 1,
                number_at(numbers@, 0) == Some(timestamp),
                views(fields@) == split_seq(payload@, ':'),
                metric_values@.len() == i - 1,
                values_readable(numbers@, i as int),
                forall|j: int|
                    0 <= j < i - 1 ==> Some(#[trigger] metric_values@[j]) == number_at(numbers@, j + 1),
        {
            let value = if i < numbers.len() {
                numbers[i]
            } else {
                None
            };
            match value {
                Some(v) => {
                    metric_values.push(v);
                },
                None => {
                    assert(fields@[i as int]@ == split_seq(payload@, ':')[i as int]);
                    assert(number_at(numbers@, i as int) is None);
                    assert(!values_readable(numbers@, n as int));
                    let t = fields[i].clone();
                    assert(1 <= i < n && number_at(numbers@, i as int) is None && values_readable(numbers@, i as int)
                        && t@ == split_seq(payload@, ':')[i as int]);
                    return Err(Error::InvalidMeasurementValue(t));
                },
            }
        }
        Ok(CollectdPayload { timestamp, metric_values })
    }

    pub fn timestamp(&self) -> (t: u64)
        ensures
            t == self.timestamp,
    {
        self.timestamp
    }

    pub fn iter_metric_values(&self) -> (v: &Vec<u64>)
        ensures
            v@ == self.metric_values@,
    {
        &self.metric_values
    }
}

/// A collectd message: its topic and its payload.
pub struct CollectdMeasurement {
    pub topic: CollectdTopic,
    pub payload: CollectdPayload,
}

impl CollectdMeasurement {
    pub fn new(topic: CollectdTopic, payload: CollectdPayload) -> (m: Self)
        ensures
            m.topic == topic,
            m.payload == payload,
    {
        CollectdMeasurement { topic, payload }
    }

    /// One measurement per value, each named `<group>/<key>`.
    pub fn into_measurements(&self) -> (ms: Vec<Measurement>)
        ensures
            ms@.len() == self.payload.metric_values@.len(),
            forall|i: int|
                0 <= i < ms@.len() ==> (#[trigger] ms@[i]).name@ == self.topic.metric_group_key@
                    + "/"@ + self.topic.metric_key@ && ms@[i].value == MeasurementValue::Float(
                    self.payload.metric_values@[i],
                ),
    {
        let prefix = concat_strings(self.topic.metric_group_key.as_str(), "/");
        let name = concat_strings(prefix.as_str(), self.topic.metric_key.as_str());
        let mut ms: Vec<Measurement> = Vec::new();
        let values = &self.payload.metric_values;
        for i in 0..values.len()
            invariant
                name@ == self.topic.metric_group_key@ + "/"@ + self.topic.metric_key@,
                values == &self.payload.metric_values,
                ms@.len() == i,
                forall|j: int|
                    0 <= j < i ==> (#[trigger] ms@[j]).name@ == name@ && ms@[j].value
                        == MeasurementValue::Float(values@[j]),
        {
            ms.push(Measurement::new(name.clone(), MeasurementValue::Float(values[i])));
        }
        ms
    }
}

/// The collectd plugin: it sends the measurements it reads to `target`.
pub struct CollectdPlugin {
    pub target: String,
}

impl CollectdPlugin {
    pub fn new(target: String) -> (p: Self)
        ensures
            p.target == target,
    {
        CollectdPlugin { target }
    }

    /// The measurements carried by a collectd message with the given topic
    /// and payload (`numbers` as for `CollectdPayload::parse`, for the text
    /// of the payload): the topic is read first, then the payload must be
    /// UTF-8, then its text is read.
    pub fn handle_message(&self, topic: &str, payload: &[u8], numbers: &Vec<Option<u64>>) -> (r:
        Result<Vec<Measurement>, Error>)
        ensures
            split_seq(topic@, '/').len() != 4 ==> (r matches Err(Error::InvalidCollectdTopicName(t))
                && t@ == topic@),
            split_seq(topic@, '/').len() == 4 && !valid_utf8(payload@) ==> (r matches Err(
                Error::MessagePayloadNotUtf8,
            )),
            split_seq(topic@, '/').len() == 4 && valid_utf8(payload@) ==> (r matches Err(e)
                ==> payload_error_of(e, decode_utf8(payload@), numbers@)),
            r is Ok <==> (split_seq(topic@, '/').len() == 4 && valid_utf8(payload@) && split_seq(
                decode_utf8(payload@),
                ':',
            ).len() > 1 && number_at(numbers@, 0) is Some && values_readable(
                numbers@,
                split_seq(decode_utf8(payload@), ':').len() as int,
            )),
            r matches Ok(ms) ==> ms@.len() == split_seq(decode_utf8(payload@), ':').len() - 1 && forall|
                i: int,
            |
                0 <= i < ms@.len() ==> (#[trigger] ms@[i]).name@ == split_seq(topic@, '/')[2] + "/"@
                    + split_seq(topic@, '/')[3] && Some(ms@[i].value->Float_0) == number_at(
                    numbers@,
                    i + 1,
                ) && ms@[i].value is Float,
    {
        let t = CollectdTopic::parse(topic)?;
        let text = payload_text(payload)?;
        let p = CollectdPayload::parse(text.as_str(), numbers)?;
        let m = CollectdMeasurement::new(t, p);
        Ok(m.into_measurements())
    }
}

pub struct CollectdPluginBuilder;

impl CollectdPluginBuilder {
    pub fn kind_name() -> (s: &'static str)
        ensures
            s@ == "collectd"@,
    {
        "collectd"
    }

    /// Builds the plugin that a configuration describes.
    pub fn instantiate(config: CollectdConfig) -> (p: CollectdPlugin)
        ensures
            p.target == config.target,
    {
        CollectdPlugin::new(config.target)
    }
}

/// A topic built from four parts without `/` reads back as its metric group
/// and key.
pub proof fn lemma_topic_roundtrip(prefix: Seq<char>, host: Seq<char>, group: Seq<char>, key: Seq<char>)
    requires
        !prefix.contains('/'),
        !host.contains('/'),
        !group.contains('/'),
        !key.contains('/'),
    ensures
        ({
            let s = prefix.push('/') + host.push('/') + group.push('/') + key;
            split_seq(s, '/') == seq![prefix, host, group, key]
        }),
{
    crate::text::lemma_split_without_sep(prefix, '/');
    crate::text::lemma_split_without_sep(host, '/');
    crate::text::lemma_split_without_sep(group, '/');
    crate::text::lemma_split_without_sep(key, '/');
    let a = prefix.push('/') + host.push('/') + group;
    crate::text::lemma_split_append(group, key, '/');
    crate::text::lemma_split_append(host, group.push('/') + key, '/');
    crate::text::lemma_split_append(prefix, host.push('/') + group.push('/') + key, '/');
    assert(prefix.push('/') + host.push('/') + group.push('/') + key == prefix.push('/') + (host.push(
        '/',
    ) + (group.push('/') + key)));
    assert(host.push('/') + (group.push('/') + key) == host.push('/') + group.push('/') + key);
    assert(seq![prefix] + (seq![host] + (seq![group] + seq![key])) == seq![prefix, host, group, key]);
}

} // verus!
