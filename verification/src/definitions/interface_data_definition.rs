//! Interface data definitions: how the system under test is reached and the
//! messages it exchanges.

use vstd::prelude::*;
use vstd::string::*;

use crate::definitions::yaml_value::{string_pairs, string_pairs_only, YamlValue};
use crate::definitions::{is_run, items_walk, Visitor};

verus! {

/// The kind of connection an interface is reached by.
#[allow(non_camel_case_types)]
#[derive(PartialEq, Eq, Structural)]
pub enum ConnectionType {
    mqtt,
    rest,
    tcp,
}

impl ConnectionType {
    /// Visits the connection type.
    pub fn accept<V: Visitor>(&mut self, visitor: &mut V)
        ensures
            old(visitor).connection_type_step(*old(self), *final(visitor), *final(self)),
    {
        visitor.visit_connection_type_def(self);
    }
}

/// An MQTT message: its name, its parameters (mappings from parameter name
/// to type name, both strings), and the topic and payload templates that
/// name them.
pub struct MqttMessage {
    name: String,
    parameter: Vec<YamlValue>,
    topic: String,
    payload: String,
}

/// What an MQTT message holds.
pub struct MqttMessageView {
    pub name: Seq<char>,
    pub parameter: Seq<YamlValue>,
    pub topic: Seq<char>,
    pub payload: Seq<char>,
}

impl View for MqttMessage {
    type V = MqttMessageView;

    closed spec fn view(&self) -> MqttMessageView {
        MqttMessageView {
            name: self.name@,
            parameter: self.parameter@,
            topic: self.topic@,
            payload: self.payload@,
        }
    }
}

impl MqttMessage {
    /// The message with these parts.
    pub fn new(name: String, parameter: Vec<YamlValue>, topic: String, payload: String) -> (r:
        MqttMessage)
        ensures
            r@ == (MqttMessageView {
                name: name@,
                parameter: parameter@,
                topic: topic@,
                payload: payload@,
            }),
    {
        MqttMessage { name, parameter, topic, payload }
    }

    pub fn name(&self) -> (r: &String)
        ensures
            r@ == self@.name,
    {
        &self.name
    }

    pub fn parameter(&self) -> (r: &Vec<YamlValue>)
        ensures
            r@ == self@.parameter,
    {
        &self.parameter
    }

    pub fn topic(&self) -> (r: &String)
        ensures
            r@ == self@.topic,
    {
        &self.topic
    }

    pub fn payload(&self) -> (r: &String)
        ensures
            r@ == self@.payload,
    {
        &self.payload
    }

    /// Visits the message.
    pub fn accept<V: Visitor>(&mut self, visitor: &mut V)
        requires
            V::takes_mqtt_message(*old(self)),
        ensures
            old(visitor).mqtt_message_step(*old(self), *final(visitor), *final(self)),
    {
        visitor.visit_mqtt_message_def(self);
    }
}

/// Whether every entry of every mapping among `items` is a pair of strings.
pub fn all_string_pairs(items: &Vec<YamlValue>) -> (r: bool)
    ensures
        r == string_pairs_only(items@),
{
    let mut i: usize = 0;
    while i < items.len()
        invariant
            i <= items.len(),
            forall|a: int, b: int|
                0 <= a < i && items@[a].mapping_of() is Some
                    && 0 <= b < items@[a].mapping_of().unwrap().len() ==> {
                    &&& (#[trigger] items@[a].mapping_of().unwrap()[b]).0.str_of() is Some
                    &&& items@[a].mapping_of().unwrap()[b].1.str_of() is Some
                },
        decreases items.len() - i,
    {
        if let Some(entries) = items[i].as_mapping() {
            let mut j: usize = 0;
            while j < entries.len()
                invariant
                    j <= entries.len(),
                    i < items.len(),
                    items@[i as int].mapping_of() == Some(entries@),
                    forall|a: int, b: int|
                        0 <= a < i && items@[a].mapping_of() is Some
                            && 0 <= b < items@[a].mapping_of().unwrap().len() ==> {
                            &&& (#[trigger] items@[a].mapping_of().unwrap()[b]).0.str_of() is Some
                            &&& items@[a].mapping_of().unwrap()[b].1.str_of() is Some
                        },
                    forall|b: int|
                        0 <= b < j ==> {
                            &&& (#[trigger] entries@[b]).0.str_of() is Some
                            &&& entries@[b].1.str_of() is Some
                        },
                decreases entries.len() - j,
            {
                if entries[j].0.as_str().is_none() || entries[j].1.as_str().is_none() {
                    assert(items@[i as int].mapping_of().unwrap()[j as int] == entries@[j as int]);
                    return false;
                }
                j = j + 1;
            }
        }
        i = i + 1;
    }
    true
}

/// The description of one message of a protocol.
#[allow(non_camel_case_types)]
pub enum ProtocolDataDescription {
    mqtt_message(MqttMessage),
}

/// A pass over one message description: the message it holds is visited.
pub open spec fn protocol_data_description_walk<V: Visitor>(
    v0: V,
    d0: ProtocolDataDescription,
    v1: V,
    d1: ProtocolDataDescription,
) -> bool {
    match (d0, d1) {
        (
            ProtocolDataDescription::mqtt_message(m0),
            ProtocolDataDescription::mqtt_message(m1),
        ) => v0.mqtt_message_step(m0, v1, m1),
    }
}

/// Whether the visitor can take the message a description holds.
pub open spec fn description_taken<V: Visitor>(d: ProtocolDataDescription) -> bool {
    match d {
        ProtocolDataDescription::mqtt_message(m) => V::takes_mqtt_message(m),
    }
}

impl ProtocolDataDescription {
    /// Lets the message it holds accept the visitor.
    pub fn accept<V: Visitor>(&mut self, visitor: &mut V)
        requires
            description_taken::<V>(*old(self)),
        ensures
            protocol_data_description_walk(*old(visitor), *old(self), *final(visitor), *final(self)),
    {
        match self {
            ProtocolDataDescription::mqtt_message(value) => {
                value.accept(visitor);
            },
        }
    }
}

/// One interface: its connection type and the messages it carries.
pub struct Definition {
    pub connection_type: ConnectionType,
    pub protocol_data_description: Vec<ProtocolDataDescription>,
}

/// The sentence that names a connection type in the documentation.
pub open spec fn connection_type_text(t: ConnectionType) -> Seq<char> {
    match t {
        ConnectionType::mqtt => "The used connection type is MQTT \n\n  \n"@,
        ConnectionType::rest => "The used connection type is REST \n"@,
        ConnectionType::tcp => "The uses connection type is TCP \n"@,
    }
}

/// One documentation line per parameter: "- `name`: type".
pub open spec fn parameter_lines(pairs: Seq<(Seq<char>, Seq<char>)>) -> Seq<char>
    decreases pairs.len(),
{
    if pairs.len() == 0 {
        seq![]
    } else {
        parameter_lines(pairs.drop_last()) + "- `"@ + pairs.last().0 + "`: "@ + pairs.last().1
            + "\n"@
    }
}

/// The documentation section of one MQTT message.
pub open spec fn mqtt_message_text(m: MqttMessageView) -> Seq<char> {
    "### MQTT-Message "@ + m.name + "\n\n"@ + "**Parameters:**\n\n"@ + parameter_lines(
        string_pairs(m.parameter),
    ) + "\n\n**Topic:**\n - `"@ + m.topic + "`\n\n"@ + "**Payload:**\n - `"@ + m.payload
        + "`\n\n"@
}

/// Every message among `descs` names its parameters and their types by
/// strings.
pub open spec fn parameters_named(descs: Seq<ProtocolDataDescription>) -> bool {
    forall|i: int|
        0 <= i < descs.len() ==> match #[trigger] descs[i] {
            ProtocolDataDescription::mqtt_message(m) => string_pairs_only(m@.parameter),
        }
}

/// The documentation sections of the messages, in order.
pub open spec fn protocol_definition_text(descs: Seq<ProtocolDataDescription>) -> Seq<char>
    decreases descs.len(),
{
    if descs.len() == 0 {
        seq![]
    } else {
        protocol_definition_text(descs.drop_last()) + match descs.last() {
            ProtocolDataDescription::mqtt_message(m) => mqtt_message_text(m@),
        }
    }
}

/// The (key, value) string pairs of the mappings among `items`, in order.
pub fn collect_string_pairs(items: &Vec<YamlValue>) -> (r: Vec<(String, String)>)
    requires
        string_pairs_only(items@),
    ensures
        r@.map_values(|p: (String, String)| (p.0@, p.1@)) == string_pairs(items@),
{
    let mut r: Vec<(String, String)> = Vec::new();
    let mut i: usize = 0;
    while i < items.len()
        invariant
            i <= items.len(),
            string_pairs_only(items@),
            r@.map_values(|p: (String, String)| (p.0@, p.1@)) == string_pairs(items@.take(i as int)),
        decreases items.len() - i,
    {
        assert(items@.take(i + 1).drop_last() =~= items@.take(i as int));
        assert(items@.take(i + 1).last() == items@[i as int]);
        let ghost before = r@;
        if let Some(entries) = items[i].as_mapping() {
            let mut j: usize = 0;
            while j < entries.len()
                invariant
                    j <= entries.len(),
                    string_pairs_only(items@),
                    i < items.len(),
                    items@[i as int].mapping_of() == Some(entries@),
                    r@.map_values(|p: (String, String)| (p.0@, p.1@))
                        == before.map_values(|p: (String, String)| (p.0@, p.1@))
                        + entries@.take(j as int).map_values(
                            |e: (YamlValue, YamlValue)| (e.0.str_of().unwrap(), e.1.str_of().unwrap()),
                        ),
                decreases entries.len() - j,
            {
                assert(items@[i as int].mapping_of().unwrap()[j as int] == entries@[j as int]);
                let key = entries[j].0.as_str().unwrap();
                let value = entries[j].1.as_str().unwrap();
                let ghost old_r = r@;
                let k2 = key.clone();
                let v2 = value.clone();
                r.push((k2, v2));
                assert(entries@.take(j + 1) =~= entries@.take(j as int).push(entries@[j as int]));
                assert(r@.map_values(|p: (String, String)| (p.0@, p.1@))
                    =~= old_r.map_values(|p: (String, String)| (p.0@, p.1@)).push((k2@, v2@)));
                assert((k2@, v2@) == (|e: (YamlValue, YamlValue)| (e.0.str_of().unwrap(), e.1.str_of().unwrap()))(entries@[j as int]));
                assert(r@.map_values(|p: (String, String)| (p.0@, p.1@))
                    =~= before.map_values(|p: (String, String)| (p.0@, p.1@))
                    + entries@.take(j + 1).map_values(
                        |e: (YamlValue, YamlValue)| (e.0.str_of().unwrap(), e.1.str_of().unwrap()),
                    ));
                j = j + 1;
            }
            assert(entries@.take(entries@.len() as int) =~= entries@);
        } else {
            assert(r@ == before);
        }
        i = i + 1;
    }
    assert(items@.take(items@.len() as int) =~= items@);
    r
}

impl Definition {
    /// The documentation sentence naming this interface's connection type.
    pub fn generate_connection_type(&self) -> (r: String)
        ensures
            r@ == connection_type_text(self.connection_type),
    {
        match self.connection_type {
            ConnectionType::mqtt => "The used connection type is MQTT \n\n  \n".to_string(),
            ConnectionType::rest => "The used connection type is REST \n".to_string(),
            ConnectionType::tcp => "The uses connection type is TCP \n".to_string(),
        }
    }

    /// The documentation sections of this interface's messages: name,
    /// parameter lines, topic and payload of each, in order.
    pub fn generate_protocol_definition(&self) -> (r: String)
        requires
            parameters_named(self.protocol_data_description@),
        ensures
            r@ == protocol_definition_text(self.protocol_data_description@),
    {
        let descs = &self.protocol_data_description;
        let mut r = String::new();
        let mut i: usize = 0;
        while i < descs.len()
            invariant
                i <= descs.len(),
                parameters_named(descs@),
                r@ == protocol_definition_text(descs@.take(i as int)),
            decreases descs.len() - i,
        {
            assert(descs@.take(i + 1).drop_last() =~= descs@.take(i as int));
            assert(descs@.take(i + 1).last() == descs@[i as int]);
            match &descs[i] {
                ProtocolDataDescription::mqtt_message(value) => {
                    assert(string_pairs_only(value@.parameter));
                    r.append("### MQTT-Message ");
                    r.append(value.name().as_str());
                    r.append("\n\n");
                    r.append("**Parameters:**\n\n");
                    let ghost head = r@;
                    let pairs = collect_string_pairs(value.parameter());
                    let ghost pv = pairs@.map_values(|p: (String, String)| (p.0@, p.1@));
                    let mut k: usize = 0;
                    while k < pairs.len()
                        invariant
                            k <= pairs.len(),
                            pv == pairs@.map_values(|p: (String, String)| (p.0@, p.1@)),
                            r@ == head + parameter_lines(pv.take(k as int)),
                        decreases pairs.len() - k,
                    {
                        assert(pv.take(k + 1).drop_last() =~= pv.take(k as int));
                        assert(pv.take(k + 1).last() == pv[k as int]);
                        r.append("- `");
                        r.append(pairs[k].0.as_str());
                        r.append("`: ");
                        r.append(pairs[k].1.as_str());
                        r.append("\n");
                        k = k + 1;
                    }
                    assert(pv.take(pv.len() as int) =~= pv);
                    r.append("\n\n**Topic:**\n - `");
                    r.append(value.topic().as_str());
                    r.append("`\n\n");
                    r.append("**Payload:**\n - `");
                    r.append(value.payload().as_str());
                    r.append("`\n\n");
                },
            }
            i = i + 1;
        }
        assert(descs@.take(descs@.len() as int) =~= descs@);
        r
    }

    /// Visits the interface, then its connection type. Its messages are not
    /// visited from here.
    pub fn accept<V: Visitor>(&mut self, visitor: &mut V)
        ensures
            definition_walk(*old(visitor), *old(self), *final(visitor), *final(self)),
    {
        visitor.visit_definition(self);
        let ghost v1 = *visitor;
        let ghost d1 = *self;
        self.connection_type.accept(visitor);
        assert(definition_walk_via(*old(visitor), *old(self), v1, d1, *visitor, *self));
    }
}

/// A pass over one interface that goes through the visitor `v1` and the
/// interface `d1`: the interface is visited, then its connection type; its
/// messages are left as the visit left them.
pub open spec fn definition_walk_via<V: Visitor>(
    v0: V,
    d0: Definition,
    v1: V,
    d1: Definition,
    v2: V,
    d2: Definition,
) -> bool {
    &&& v0.definition_step(d0, v1, d1)
    &&& v1.connection_type_step(d1.connection_type, v2, d2.connection_type)
    &&& d2.protocol_data_description == d1.protocol_data_description
}

/// A pass over one interface, from the visitor `v0` and the interface `d0`
/// to `v2` and `d2`.
pub open spec fn definition_walk<V: Visitor>(v0: V, d0: Definition, v2: V, d2: Definition) -> bool {
    exists|v1: V, d1: Definition| definition_walk_via(v0, d0, v1, d1, v2, d2)
}

/// The pass over one interface, as a relation to run over a list of them.
pub open spec fn definition_walks<V: Visitor>() -> spec_fn(V, Definition, V, Definition) -> bool {
    |a: V, x: Definition, b: V, y: Definition| definition_walk(a, x, b, y)
}

/// All interfaces of the system under test.
pub struct InterfaceDataDefinition {
    pub data_def: Vec<Definition>,
}

/// A pass over all interfaces that goes through the visitor `v1` and the
/// interfaces `d1`: the whole is visited, then each interface in order.
pub open spec fn interface_data_walk_via<V: Visitor>(
    v0: V,
    d0: InterfaceDataDefinition,
    v1: V,
    d1: InterfaceDataDefinition,
    v2: V,
    d2: InterfaceDataDefinition,
) -> bool {
    &&& v0.interface_data_step(d0, v1, d1)
    &&& items_walk(v1, d1.data_def@, v2, d2.data_def@, definition_walks::<V>())
}

/// A pass over all interfaces, from the visitor `v0` and the interfaces
/// `d0` to `v2` and `d2`.
pub open spec fn interface_data_walk<V: Visitor>(
    v0: V,
    d0: InterfaceDataDefinition,
    v2: V,
    d2: InterfaceDataDefinition,
) -> bool {
    exists|v1: V, d1: InterfaceDataDefinition| interface_data_walk_via(v0, d0, v1, d1, v2, d2)
}

impl InterfaceDataDefinition {
    /// Visits the whole, then lets each interface accept the visitor, in
    /// order.
    pub fn accept<V: Visitor>(&mut self, visitor: &mut V)
        requires
            V::takes_interface_data(*old(self)),
        ensures
            interface_data_walk(*old(visitor), *old(self), *final(visitor), *final(self)),
    {
        visitor.visit_interface_data_def(self);
        let ghost v1 = *visitor;
        let ghost d1 = *self;
        let ghost mut states: Seq<V> = seq![v1];
        let n = self.data_def.len();
        let mut i: usize = 0;
        while i < n
            invariant
                n == self.data_def.len(),
                n == d1.data_def@.len(),
                i <= n,
                states.len() == i + 1,
                states[0] == v1,
                states[i as int] == *visitor,
                forall|j: int|
                    #![trigger d1.data_def@[j]]
                    0 <= j < i ==> definition_walk(states[j], d1.data_def@[j], states[j + 1], self.data_def@[j]),
                forall|j: int| i <= j < n ==> self.data_def@[j] == d1.data_def@[j],
            decreases n - i,
        {
            self.data_def[i].accept(visitor);
            proof {
                states = states.push(*visitor);
            }
            i = i + 1;
        }
        assert(is_run(states, v1, d1.data_def@, *visitor, self.data_def@, definition_walks::<V>()));
        assert(interface_data_walk_via(*old(visitor), *old(self), v1, d1, *visitor, *self));
    }
}

} // verus!
