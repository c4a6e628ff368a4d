//! Thin-edge JSON documents as the plugins exchange them, and the plugins
//! around them: the one that turns MQTT messages into documents and the one
//! that turns documents into measurements.
use vstd::prelude::*;

use crate::measurement::Measurement;
use crate::measurement::MeasurementValue;
use crate::text::utf8_decode;
use vstd::utf8::decode_utf8;
use vstd::utf8::valid_utf8;

verus! {

/// A single named value (an IEEE-754 binary64 bit pattern).
#[derive(Debug)]
pub struct SingleValueMeasurement {
    pub name: String,
    pub value: u64,
}

/// A named group of values.
#[derive(Debug)]
pub struct MultiValueMeasurement {
    pub name: String,
    pub values: Vec<SingleValueMeasurement>,
}

#[derive(Debug)]
pub enum ThinEdgeValue {
    Single(SingleValueMeasurement),
    Multi(MultiValueMeasurement),
}

/// A thin-edge JSON document: its values in order.
#[derive(Debug)]
pub struct ThinEdgeJson {
    pub values: Vec<ThinEdgeValue>,
}

/// A thin-edge JSON document passed between plugins.
#[derive(Debug)]
pub struct ThinEdgeJsonMessage(pub ThinEdgeJson);

impl ThinEdgeJsonMessage {
    pub fn from(tejson: ThinEdgeJson) -> (m: Self)
        ensures
            m.0 == tejson,
    {
        ThinEdgeJsonMessage(tejson)
    }

    pub fn inner(&self) -> (j: &ThinEdgeJson)
        ensures
            *j == self.0,
    {
        &self.0
    }

    pub fn into_inner(self) -> (j: ThinEdgeJson)
        ensures
            j == self.0,
    {
        self.0
    }
}

/// A JSON document as plain values; numbers are IEEE-754 binary64 bit
/// patterns, and an object is the list of its members in order.
#[derive(Debug)]
pub enum JsonValue {
    Null,
    Bool(bool),
    Number(u64),
    Text(String),
    Array(Vec<JsonValue>),
    Object(Vec<(String, JsonValue)>),
}

/// The member `time` carries the document's timestamp and is no value.
pub open spec fn is_time(name: Seq<char>) -> bool {
    name == "time"@
}

/// A member's value can stand in a document: a number, or an object whose
/// members are all numbers.
pub open spec fn member_ok(j: JsonValue) -> bool {
    match j {
        JsonValue::Number(_) => true,
        JsonValue::Object(ms) => forall|i: int| 0 <= i < ms@.len() ==> (#[trigger] ms@[i]).1 is Number,
        _ => false,
    }
}

/// Every member of a document other than `time` can stand in it.
pub open spec fn members_ok(ms: Seq<(String, JsonValue)>) -> bool {
    forall|i: int| 0 <= i < ms.len() ==> is_time((#[trigger] ms[i]).0@) || member_ok(ms[i].1)
}

/// `v` is the document value of the member `name` with value `j`: a number
/// is a single value, an object a group of single values in its order.
pub open spec fn member_value(v: ThinEdgeValue, name: String, j: JsonValue) -> bool {
    match j {
        JsonValue::Number(n) => v matches ThinEdgeValue::Single(s) && s.name == name && s.value == n,
        JsonValue::Object(ms) => v matches ThinEdgeValue::Multi(m) && m.name == name && m.values@.len()
            == ms@.len() && forall|i: int|
            0 <= i < ms@.len() ==> (#[trigger] m.values@[i]).name == ms@[i].0 && ms@[i].1
                == JsonValue::Number(m.values@[i].value),
        _ => false,
    }
}

/// `out` are the document values of the members `ms`, in their order, with
/// `time` left out.
pub open spec fn values_of(out: Seq<ThinEdgeValue>, ms: Seq<(String, JsonValue)>) -> bool
    decreases ms.len(),
{
    if ms.len() == 0 {
        out.len() == 0
    } else if is_time(ms.last().0@) {
        values_of(out, ms.drop_last())
    } else {
        out.len() > 0 && member_value(out.last(), ms.last().0, ms.last().1) && values_of(
            out.drop_last(),
            ms.drop_last(),
        )
    }
}

fn group_of(name: &String, ms: &Vec<(String, JsonValue)>) -> (r: Option<ThinEdgeValue>)
    ensures
        r is Some <==> member_ok(JsonValue::Object(*ms)),
        r matches Some(v) ==> member_value(v, *name, JsonValue::Object(*ms)),
{
    let mut values: Vec<SingleValueMeasurement> = Vec::new();
    for i in 0..ms.len()
        invariant
            values@.len() == i,
            forall|k: int| 0 <= k < i ==> (#[trigger] ms@[k]).1 is Number,
            forall|k: int|
                0 <= k < i ==> (#[trigger] values@[k]).name == ms@[k].0 && ms@[k].1 == JsonValue::Number(
                    values@[k].value,
                ),
    {
        match &ms[i].1 {
            JsonValue::Number(n) => {
                values.push(SingleValueMeasurement { name: ms[i].0.clone(), value: *n });
            },
            _ => {
                return None;
            },
        }
    }
    Some(ThinEdgeValue::Multi(MultiValueMeasurement { name: name.clone(), values }))
}

/// The thin-edge JSON document that a JSON document holds: it must be an
/// object whose members other than `time` are numbers or objects of numbers.
pub fn thin_edge_json_of(doc: &JsonValue) -> (r: Result<ThinEdgeJson, Error>)
    ensures
        r is Ok <==> (doc is Object && members_ok(doc->Object_0@)),
        r matches Ok(t) ==> values_of(t.values@, doc->Object_0@),
        r matches Err(e) ==> e is ThinEdgeJsonBuilderError,
{
    let ms = match doc {
        JsonValue::Object(ms) => ms,
        _ => {
            return Err(Error::ThinEdgeJsonBuilderError("not a JSON object".to_string()));
        },
    };
    let time = "time".to_string();
    proof {
        reveal_strlit("time");
    }
    let mut values: Vec<ThinEdgeValue> = Vec::new();
    for i in 0..ms.len()
        invariant
            time@ == "time"@,
            *doc == JsonValue::Object(*ms),
            members_ok(ms@.take(i as int)),
            values_of(values@, ms@.take(i as int)),
    {
        assert(ms@.take(i + 1).drop_last() == ms@.take(i as int));
        assert(ms@.take(i + 1).last() == ms@[i as int]);
        let name = &ms[i].0;
        if *name == time {
            assert(members_ok(ms@.take(i + 1)));
        } else {
            match &ms[i].1 {
                JsonValue::Number(n) => {
                    let ghost before = values@;
                    values.push(ThinEdgeValue::Single(SingleValueMeasurement { name: name.clone(), value: *n }));
                    assert(values@.drop_last() == before);
                    assert(members_ok(ms@.take(i + 1)));
                },
                JsonValue::Object(inner) => {
                    match group_of(name, inner) {
                        Some(v) => {
                            let ghost before = values@;
                            values.push(v);
                            assert(values@.drop_last() == before);
                            assert(members_ok(ms@.take(i + 1)));
                        },
                        None => {
                            assert(!members_ok(ms@)) by {
                                assert(!member_ok(ms@[i as int].1));
                                assert(!is_time(ms@[i as int].0@));
                            }
                            return Err(Error::ThinEdgeJsonBuilderError(name.clone()));
                        },
                    }
                },
                _ => {
                    assert(!members_ok(ms@)) by {
                        assert(!member_ok(ms@[i as int].1));
                        assert(!is_time(ms@[i as int].0@));
                    }
                    return Err(Error::ThinEdgeJsonBuilderError(name.clone()));
                },
            }
        }
    }
    assert(ms@.take(ms@.len() as int) == ms@);
    Ok(ThinEdgeJson { values })
}

/// The configuration of the thin-edge JSON plugin.
pub struct ThinEdgeJsonConfig {
    /// The name of the plugin to send the parsed ThinEdgeJsonMessage to
    target: String,
}

impl ThinEdgeJsonConfig {
    pub fn new(target: String) -> (c: Self)
        ensures
            c.spec_target() == target,
    {
        ThinEdgeJsonConfig { target }
    }

    pub closed spec fn spec_target(&self) -> String {
        self.target
    }

    pub fn target(&self) -> (t: &str)
        ensures
            t@ == self.spec_target()@,
    {
        self.target.as_str()
    }
}

/// The errors of the thin-edge JSON plugin.
#[derive(Debug)]
pub enum Error {
    ConfigParseFailed(String),
    ParseUtf8Error,
    ThinEdgeJsonParserError(String),
    ThinEdgeJsonBuilderError(String),
    FailedToSend,
}

/// The plugin that reads thin-edge JSON documents from MQTT messages and
/// sends them to `target_addr`.
pub struct ThinEdgeJsonPlugin {
    pub target_addr: String,
}

impl ThinEdgeJsonPlugin {
    pub fn new(target_addr: String) -> (p: Self)
        ensures
            p.target_addr == target_addr,
    {
        ThinEdgeJsonPlugin { target_addr }
    }

    /// The text of a message's payload, which must be UTF-8.
    pub fn payload_text(&self, payload: &[u8]) -> (r: Result<String, Error>)
        ensures
            r is Ok <==> valid_utf8(payload@),
            r matches Ok(s) ==> s@ == decode_utf8(payload@),
            r matches Err(e) ==> e is ParseUtf8Error,
    {
        match utf8_decode(payload) {
            Some(s) => Ok(s),
            None => Err(Error::ParseUtf8Error),
        }
    }
}

pub struct ThinEdgeJsonPluginBuilder;

impl ThinEdgeJsonPluginBuilder {
    pub fn kind_name() -> (s: &'static str)
        ensures
            s@ == "thin_edge_json"@,
    {
        "thin_edge_json"
    }

    /// Builds the plugin that a configuration describes.
    pub fn instantiate(config: ThinEdgeJsonConfig) -> (p: ThinEdgeJsonPlugin)
        ensures
            p.target_addr == config.spec_target(),
    {
        ThinEdgeJsonPlugin::new(config.target)
    }
}

/// The configuration of the plugin that turns documents into measurements.
pub struct ThinEdgeJsonToMeasurementMapperConfig {
    /// The name of the plugin to send the parsed ThinEdgeJsonToMeasurementMapperMessage to
    target: String,
}

impl ThinEdgeJsonToMeasurementMapperConfig {
    pub fn new(target: String) -> (c: Self)
        ensures
            c.spec_target() == target,
    {
        ThinEdgeJsonToMeasurementMapperConfig { target }
    }

    pub closed spec fn spec_target(&self) -> String {
        self.target
    }

    pub fn target(&self) -> (t: &str)
        ensures
            t@ == self.spec_target()@,
    {
        self.target.as_str()
    }
}

/// All single values of a list of document values, in order: a group
/// contributes its values (its own name is not kept).
pub open spec fn flat_values(values: Seq<ThinEdgeValue>) -> Seq<SingleValueMeasurement>
    decreases values.len(),
{
    if values.len() == 0 {
        Seq::empty()
    } else {
        flat_values(values.drop_last()) + match values.last() {
            ThinEdgeValue::Single(s) => seq![s],
            ThinEdgeValue::Multi(m) => m.values@,
        }
    }
}

pub struct ThinEdgeJsonToMeasurementMapperPlugin {
    pub target_addr: String,
}

impl ThinEdgeJsonToMeasurementMapperPlugin {
    pub fn new(target_addr: String) -> (p: Self)
        ensures
            p.target_addr == target_addr,
    {
        ThinEdgeJsonToMeasurementMapperPlugin { target_addr }
    }

    /// One measurement per single value of the document, in order, each with
    /// the value's name and number.
    pub fn handle_message(&self, message: ThinEdgeJsonMessage) -> (ms: Vec<Measurement>)
        ensures
            ms@.len() == flat_values(message.0.values@).len(),
            forall|i: int|
                0 <= i < ms@.len() ==> (#[trigger] ms@[i]).name == flat_values(message.0.values@)[i].name
                    && ms@[i].value == MeasurementValue::Float(flat_values(message.0.values@)[i].value),
    {
        let doc = message.into_inner();
        let values = &doc.values;
        let mut ms: Vec<Measurement> = Vec::new();
        for i in 0..values.len()
            invariant
                ms@.len() == flat_values(values@.take(i as int)).len(),
                forall|j: int|
                    0 <= j < ms@.len() ==> (#[trigger] ms@[j]).name == flat_values(values@.take(i as int))[j].name
                        && ms@[j].value == MeasurementValue::Float(flat_values(values@.take(i as int))[j].value),
        {
            let ghost before = flat_values(values@.take(i as int));
            assert(values@.take(i + 1).drop_last() == values@.take(i as int));
            assert(values@.take(i + 1).last() == values@[i as int]);
            match &values[i] {
                ThinEdgeValue::Single(s) => {
                    ms.push(Measurement::new(s.name.clone(), MeasurementValue::Float(s.value)));
                    assert(flat_values(values@.take(i + 1)) == before + seq![*s]);
                },
                ThinEdgeValue::Multi(m) => {
                    let ghost start = ms@.len();
                    assert(flat_values(values@.take(i + 1)) == before + m.values@);
                    for k in 0..m.values.len()
                        invariant
                            start == before.len(),
                            ms@.len() == start + k,
                            flat_values(values@.take(i + 1)) == before + m.values@,
                            forall|j: int|
                                0 <= j < start ==> (#[trigger] ms@[j]).name == before[j].name && ms@[j].value
                                    == MeasurementValue::Float(before[j].value),
                            forall|j: int|
                                0 <= j < k ==> (#[trigger] ms@[start + j]).name == m.values@[j].name
                                    && ms@[start + j].value == MeasurementValue::Float(m.values@[j].value),
                    {
                        let s = &m.values[k];
                        ms.push(Measurement::new(s.name.clone(), MeasurementValue::Float(s.value)));
                    }
                    assert forall|j: int| 0 <= j < ms@.len() implies (#[trigger] ms@[j]).name == flat_values(
                        values@.take(i + 1),
                    )[j].name && ms@[j].value == MeasurementValue::Float(
                        flat_values(values@.take(i + 1))[j].value,
                    ) by {
                        if j >= start {
                            assert(ms@[start + (j - start)] == ms@[j]);
                        }
                    }
                },
            }
        }
        assert(values@.take(values@.len() as int) == values@);
        ms
    }
}

} // verus!
