//! The playbook of a test: the messages to send and to await, in order, and
//! the checks on what was received.

use std::rc::Rc;

use vstd::prelude::*;
use vstd::string::*;

use crate::definitions::test_definition::{IsEqualDefintion, RecvMqttDefinition, SendMqttDefinition};
use crate::runtime::{RunTimeData, RuntimeEnvironment};
use crate::text::owned;
use crate::visitors::generate_communication_protocol::{
    filled, keys_of, texts_of, GenerateCommunicationProtocol, MqttProtocol, Parameter, ParameterType,
    ParameterValue, ProtocolType,
};
use crate::visitors::generate_setup_environment::GenerateSetupEnvironmentVisitor;

verus! {

/// A check kind bound to a message.
#[allow(non_camel_case_types)]
pub enum VerifierKind {
    is_equal_mqtt_message(MqttProtocol, Vec<Parameter>),
}

/// A check on the values of a test run: `IsEqual(left, right, allow_failure)`.
pub enum Verifier {
    IsEqual(String, String, bool),
}

/// The address of a message broker.
pub struct BrokerConnection {
    pub host: String,
    pub port: String,
}

/// The value named `k`, if there is one.
pub open spec fn value_named(env: Map<Seq<char>, RunTimeData>, k: Seq<char>) -> Option<RunTimeData> {
    if env.contains_key(k) {
        Some(env[k])
    } else {
        None
    }
}

/// Whether the equality check of `left` and `right` holds. Each side stands
/// for the value of that name where there is one, and for itself otherwise:
/// two names without values are compared as texts; a string value on one
/// side only matches either name; two string values are compared; any other
/// value fails the check.
pub open spec fn is_equal_holds(env: Map<Seq<char>, RunTimeData>, left: Seq<char>, right: Seq<char>) -> bool {
    match (value_named(env, left), value_named(env, right)) {
        (None, None) => left == right,
        (Some(RunTimeData::String(v)), None) => v@ == right || v@ == left,
        (None, Some(RunTimeData::String(v))) => v@ == right || v@ == left,
        (Some(RunTimeData::String(lv)), Some(RunTimeData::String(rv))) => lv@ == rv@,
        _ => false,
    }
}

/// A step of the playbook.
pub trait PlaybookItem {
    /// Checks the outcome of the step against the values of the run. A step
    /// without a check of its own passes, and changes neither itself nor the
    /// values of the run.
    fn verify(&mut self, env: &mut RuntimeEnvironment) -> (r: Result<bool, String>) where Self: Sized
        default_ensures
            r == Ok::<bool, String>(true),
            *final(self) == *old(self),
            final(env)@ == old(env)@,
    {
        Ok(true)
    }

    /// Sets the check of the step. A step without a check of its own is
    /// left as it is.
    fn set_verifier(&mut self, verifier: Verifier) where Self: Sized
        default_ensures
            *final(self) == *old(self),
    {
    }
}

/// Sending a message to a broker.
pub struct MqttSendPlaybookItem {
    pub item: MqttProtocol,
    pub parameters: Vec<Parameter>,
    pub broker_connection: BrokerConnection,
}

impl MqttSendPlaybookItem {
    /// The topic and the payload to send: the message's templates filled with
    /// the step's parameters; both are filled from the topic template, as
    /// `create_payload` does.
    pub fn outgoing(&self) -> (r: (String, String))
        requires
            self.parameters.len() == self.item.parameters.len(),
        ensures
            r.0@ == filled(
                self.item.topic@,
                keys_of(self.item.parameters@),
                texts_of(self.parameters@),
                self.parameters.len() as nat,
            ),
            r.1@ == r.0@,
    {
        let payload = self.item.create_payload(&self.parameters).unwrap();
        let topic = self.item.create_topic(&self.parameters).unwrap();
        (topic, payload)
    }
}

impl PlaybookItem for MqttSendPlaybookItem {
    /// A sent message has nothing to check: the step passes.
    fn verify(&mut self, env: &mut RuntimeEnvironment) -> (r: Result<bool, String>)
        ensures
            r == Ok::<bool, String>(true),
            *final(self) == *old(self),
            final(env)@ == old(env)@,
    {
        Ok(true)
    }
}

/// Awaiting a message from a broker, and checking it.
pub struct MqttRecvPlaybookItem {
    pub item: MqttProtocol,
    pub parameters: Vec<Parameter>,
    pub broker_connection: BrokerConnection,
    pub verifier: Option<Verifier>,
}

impl MqttRecvPlaybookItem {
    /// Takes in the outcome of awaiting the message: its payload is kept
    /// under `$PAYLOAD`, and a failure is passed on.
    pub fn receive(&mut self, env: &mut RuntimeEnvironment, received: Result<String, String>) -> (r:
        Result<bool, String>)
        ensures
            match received {
                Ok(payload) => r == Ok::<bool, String>(true) && final(env)@ == old(env)@.insert(
                    "$PAYLOAD"@,
                    RunTimeData::String(payload),
                ),
                Err(e) => r == Err::<bool, String>(e) && final(env)@ == old(env)@,
            },
    {
        match received {
            Ok(payload) => {
                env.insert(owned("$PAYLOAD"), RunTimeData::String(payload));
                Ok(true)
            },
            Err(err) => Err(err),
        }
    }
}

/// Whether two strings hold the same text.
fn same_text(a: &String, b: &String) -> (r: bool)
    ensures
        r == (a@ == b@),
{
    *a == *b
}

impl PlaybookItem for MqttRecvPlaybookItem {
    /// The outcome of the step's equality check on the values of the run;
    /// `false` for a step without a check.
    fn verify(&mut self, env: &mut RuntimeEnvironment) -> (r: Result<bool, String>)
        ensures
            match old(self).verifier {
                Some(Verifier::IsEqual(left, right, _)) => r == Ok::<bool, String>(
                    is_equal_holds(old(env)@, left@, right@),
                ),
                None => r == Ok::<bool, String>(false),
            },
            *final(self) == *old(self),
            final(env)@ == old(env)@,
    {
        if let Some(Verifier::IsEqual(left, right, _allow)) = &self.verifier {
            let l = env.get(left);
            let r = env.get(right);
            return Ok(
                match (l, r) {
                    (None, None) => same_text(left, right),
                    (Some(RunTimeData::String(v)), None) => same_text(v, right) || same_text(v, left),
                    (None, Some(RunTimeData::String(v))) => same_text(v, right) || same_text(v, left),
                    (Some(RunTimeData::String(lv)), Some(RunTimeData::String(rv))) => same_text(lv, rv),
                    _ => false,
                },
            );
        }
        Ok(false)
    }

    /// Sets the check of the step.
    fn set_verifier(&mut self, verifier: Verifier)
        ensures
            final(self).verifier == Some(verifier),
            final(self).item == old(self).item,
            final(self).parameters == old(self).parameters,
            final(self).broker_connection == old(self).broker_connection,
    {
        self.verifier = Some(verifier);
    }
}

/// A step of the playbook.
pub enum PlaybookStep {
    Send(MqttSendPlaybookItem),
    Recv(MqttRecvPlaybookItem),
}

/// The arguments of a message: the step's values, as strings, under the
/// names of the message's declared parameters at the same positions.
pub open spec fn arguments_of(declared: Seq<Parameter>, values: Seq<String>, args: Seq<Parameter>) -> bool {
    &&& args.len() == values.len()
    &&& forall|i: int|
        0 <= i < args.len() ==> {
            &&& (#[trigger] args[i]).key == declared[i].key
            &&& args[i].typ == ParameterType::Str
            &&& args[i].value == ParameterValue::Str(values[i])
        }
}

/// The step's values fit the declared parameters of the message it names:
/// there are no more of them, where the message is an MQTT message.
pub open spec fn arguments_fit(idd: Map<Seq<char>, ProtocolType>, message: Seq<char>, values: Seq<String>) -> bool {
    idd.contains_key(message) ==> match idd[message] {
        ProtocolType::Mqtt(p) => values.len() <= p.parameters@.len(),
        _ => true,
    }
}

/// The playbook of a test, with the protocol and the environment it uses.
pub struct GenerateTest {
    pub playbook: Vec<PlaybookStep>,
    pub idd: Rc<GenerateCommunicationProtocol>,
    pub setup: Rc<GenerateSetupEnvironmentVisitor>,
    pub environment: RuntimeEnvironment,
}

impl GenerateTest {
    /// An empty playbook over this setup, protocol and environment.
    pub fn new(
        setup: Rc<GenerateSetupEnvironmentVisitor>,
        idd: Rc<GenerateCommunicationProtocol>,
        env: RuntimeEnvironment,
    ) -> (r: GenerateTest)
        ensures
            r.playbook@ == Seq::<PlaybookStep>::empty(),
            r.idd == idd,
            r.setup == setup,
            r.environment == env,
    {
        GenerateTest { playbook: Vec::new(), idd, setup, environment: env }
    }

    /// The arguments of a message for the step's values.
    pub fn arguments(declared: &Vec<Parameter>, values: &Vec<String>) -> (r: Vec<Parameter>)
        requires
            values.len() <= declared.len(),
        ensures
            arguments_of(declared@, values@, r@),
    {
        let mut r: Vec<Parameter> = Vec::new();
        let mut i: usize = 0;
        while i < values.len()
            invariant
                i <= values.len(),
                values.len() <= declared.len(),
                r@.len() == i,
                forall|j: int|
                    0 <= j < i ==> {
                        &&& (#[trigger] r@[j]).key == declared@[j].key
                        &&& r@[j].typ == ParameterType::Str
                        &&& r@[j].value == ParameterValue::Str(values@[j])
                    },
            decreases values.len() - i,
        {
            r.push(
                Parameter {
                    key: declared[i].key.clone(),
                    typ: ParameterType::Str,
                    value: ParameterValue::Str(values[i].clone()),
                },
            );
            i = i + 1;
        }
        r
    }

    /// Whether the step's values fit the message it names.
    pub fn values_fit(&self, message: &String, values: &Vec<String>) -> (r: bool)
        ensures
            r == arguments_fit(self.idd@, message@, values@),
    {
        match self.idd.protocol_type.get(message) {
            Some(ProtocolType::Mqtt(p)) => values.len() <= p.parameters.len(),
            _ => true,
        }
    }

    /// Plans sending a message: where the message is an MQTT message of the
    /// protocol and its connection is a started broker, the step is appended
    /// and the broker's address returned; otherwise nothing changes.
    pub fn add_send_step(&mut self, def: &SendMqttDefinition) -> (r: Option<BrokerConnection>)
        requires
            arguments_fit(old(self).idd@, def.message@, def.parameters@),
        ensures
            final(self).idd == old(self).idd,
            final(self).setup == old(self).setup,
            final(self).environment == old(self).environment,
            match r {
                Some(c) => {
                    &&& old(self).idd@.contains_key(def.message@)
                    &&& old(self).setup.connections@.contains_key(def.used_connection@)
                    &&& c == old(self).setup.connections@[def.used_connection@]
                    &&& final(self).playbook@.len() == old(self).playbook@.len() + 1
                    &&& final(self).playbook@.drop_last() == old(self).playbook@
                    &&& old(self).idd@[def.message@] matches ProtocolType::Mqtt(p)
                    &&& final(self).playbook@.last() matches PlaybookStep::Send(s)
                    &&& s.item.topic == p.topic && s.item.payload == p.payload
                    &&& s.item.parameters@ == p.parameters@
                    &&& arguments_of(p.parameters@, def.parameters@, s.parameters@)
                    &&& s.broker_connection == c
                },
                None => {
                    &&& final(self).playbook == old(self).playbook
                    &&& !(old(self).idd@.contains_key(def.message@)
                        && old(self).idd@[def.message@] is Mqtt
                        && old(self).setup.connections@.contains_key(def.used_connection@))
                },
            },
    {
        if let Some(ProtocolType::Mqtt(p)) = self.idd.protocol_type.get(&def.message) {
            let arguments = GenerateTest::arguments(&p.parameters, &def.parameters);
            if let Some(connection_prop) = self.setup.get_connection_property_by_id(&def.used_connection) {
                let host = connection_prop.host.clone();
                let port = connection_prop.port.clone();
                let item = MqttSendPlaybookItem {
                    item: p.clone(),
                    parameters: arguments,
                    broker_connection: BrokerConnection { host: host.clone(), port: port.clone() },
                };
                self.playbook.push(PlaybookStep::Send(item));
                return Some(BrokerConnection { host, port });
            }
        }
        None
    }

    /// Plans awaiting a message: where the message is an MQTT message of the
    /// protocol and its connection is a started broker, the step is appended
    /// and the broker's address returned with the topic to subscribe to: the
    /// filled topic, or the empty text where the values are fewer than the
    /// declared parameters; otherwise nothing changes.
    pub fn add_recv_step(&mut self, def: &RecvMqttDefinition) -> (r: Option<(BrokerConnection, String)>)
        requires
            arguments_fit(old(self).idd@, def.message@, def.parameters@),
        ensures
            final(self).idd == old(self).idd,
            final(self).setup == old(self).setup,
            final(self).environment == old(self).environment,
            match r {
                Some((c, topic)) => {
                    &&& old(self).idd@.contains_key(def.message@)
                    &&& old(self).setup.connections@.contains_key(def.used_connection@)
                    &&& c == old(self).setup.connections@[def.used_connection@]
                    &&& final(self).playbook@.len() == old(self).playbook@.len() + 1
                    &&& final(self).playbook@.drop_last() == old(self).playbook@
                    &&& old(self).idd@[def.message@] matches ProtocolType::Mqtt(p)
                    &&& final(self).playbook@.last() matches PlaybookStep::Recv(s)
                    &&& s.item.topic == p.topic && s.item.payload == p.payload
                    &&& s.item.parameters@ == p.parameters@
                    &&& arguments_of(p.parameters@, def.parameters@, s.parameters@)
                    &&& s.broker_connection == c
                    &&& s.verifier is None
                    &&& topic@ == if def.parameters.len() == p.parameters.len() {
                        filled(p.topic@, keys_of(p.parameters@), texts_of(s.parameters@), def.parameters.len() as nat)
                    } else {
                        Seq::<char>::empty()
                    }
                },
                None => {
                    &&& final(self).playbook == old(self).playbook
                    &&& !(old(self).idd@.contains_key(def.message@)
                        && old(self).idd@[def.message@] is Mqtt
                        && old(self).setup.connections@.contains_key(def.used_connection@))
                },
            },
    {
        if let Some(ProtocolType::Mqtt(p)) = self.idd.protocol_type.get(&def.message) {
            let arguments = GenerateTest::arguments(&p.parameters, &def.parameters);
            if let Some(connection_prop) = self.setup.get_connection_property_by_id(&def.used_connection) {
                let host = connection_prop.host.clone();
                let port = connection_prop.port.clone();
                let topic = match p.create_topic(&arguments) {
                    Ok(t) => t,
                    Err(_) => String::new(),
                };
                let item = MqttRecvPlaybookItem {
                    item: p.clone(),
                    parameters: arguments,
                    broker_connection: BrokerConnection { host: host.clone(), port: port.clone() },
                    verifier: None,
                };
                self.playbook.push(PlaybookStep::Recv(item));
                return Some((BrokerConnection { host, port }, topic));
            }
        }
        None
    }

    /// Sets the check of the last step, where that step awaits a message.
    pub fn set_last_verifier(&mut self, verifier: Verifier)
        ensures
            final(self).idd == old(self).idd,
            final(self).setup == old(self).setup,
            final(self).environment == old(self).environment,
            final(self).playbook@.len() == old(self).playbook@.len(),
            forall|i: int| 0 <= i < old(self).playbook@.len() - 1 ==> final(self).playbook@[i] == old(self).playbook@[i],
            old(self).playbook@.len() > 0 ==> match old(self).playbook@.last() {
                PlaybookStep::Recv(s) => final(self).playbook@.last() == PlaybookStep::Recv(
                    MqttRecvPlaybookItem { verifier: Some(verifier), ..s },
                ),
                PlaybookStep::Send(s) => final(self).playbook@.last() == PlaybookStep::Send(s),
            },
    {
        let n = self.playbook.len();
        if n > 0 {
            match &mut self.playbook[n - 1] {
                PlaybookStep::Recv(item) => item.set_verifier(verifier),
                PlaybookStep::Send(_) => {},
            }
        }
    }

    /// Gives the last step the equality check of `def`.
    pub fn visit_is_equal_def(&mut self, def: &IsEqualDefintion)
        ensures
            final(self).idd == old(self).idd,
            final(self).setup == old(self).setup,
            final(self).environment == old(self).environment,
            final(self).playbook@.len() == old(self).playbook@.len(),
            forall|i: int| 0 <= i < old(self).playbook@.len() - 1 ==> final(self).playbook@[i] == old(self).playbook@[i],
            old(self).playbook@.len() > 0 ==> match old(self).playbook@.last() {
                PlaybookStep::Recv(s) => final(self).playbook@.last() == PlaybookStep::Recv(
                    MqttRecvPlaybookItem {
                        verifier: Some(Verifier::IsEqual(def.left, def.right, def.allow_failure)),
                        ..s
                    },
                ),
                PlaybookStep::Send(s) => final(self).playbook@.last() == PlaybookStep::Send(s),
            },
    {
        self.set_last_verifier(Verifier::IsEqual(def.left.clone(), def.right.clone(), def.allow_failure));
    }
}

} // verus!

verus! {

/// The equality check does not depend on which side a name stands.
pub proof fn law_is_equal_symmetric(env: Map<Seq<char>, RunTimeData>, left: Seq<char>, right: Seq<char>)
    ensures
        is_equal_holds(env, left, right) == is_equal_holds(env, right, left),
{
}

/// A name compared with itself passes the check, unless it names a value
/// that is not a string.
pub proof fn law_is_equal_reflexive(env: Map<Seq<char>, RunTimeData>, name: Seq<char>)
    requires
        env.contains_key(name) ==> env[name] is String,
    ensures
        is_equal_holds(env, name, name),
{
}

/// Once a message was received, checking `$PAYLOAD` against an expected text
/// that names no value passes exactly where the payload is that text (or
/// is `$PAYLOAD` itself).
pub proof fn law_received_payload_check(
    env: Map<Seq<char>, RunTimeData>,
    payload: String,
    expected: Seq<char>,
)
    requires
        expected != "$PAYLOAD"@,
        !env.contains_key(expected),
    ensures
        is_equal_holds(env.insert("$PAYLOAD"@, RunTimeData::String(payload)), "$PAYLOAD"@, expected)
            <==> (payload@ == expected || payload@ == "$PAYLOAD"@),
{
    let after = env.insert("$PAYLOAD"@, RunTimeData::String(payload));
    assert(after.contains_key("$PAYLOAD"@));
    assert(!after.contains_key(expected));
}

/// Where both names hold string values, the check holds exactly when the two
/// values are the same text.
pub proof fn law_is_equal_compares_string_values(
    env: Map<Seq<char>, RunTimeData>,
    left: Seq<char>,
    right: Seq<char>,
    a: String,
    b: String,
)
    requires
        env.contains_key(left),
        env.contains_key(right),
        env[left] == RunTimeData::String(a),
        env[right] == RunTimeData::String(b),
    ensures
        is_equal_holds(env, left, right) <==> a@ == b@,
{
}

/// A name holding a value that is not a string fails the check, whatever it
/// is compared with.
pub proof fn law_is_equal_fails_on_other_values(
    env: Map<Seq<char>, RunTimeData>,
    left: Seq<char>,
    right: Seq<char>,
)
    requires
        env.contains_key(left),
        !(env[left] is String),
    ensures
        !is_equal_holds(env, left, right),
        !is_equal_holds(env, right, left),
{
}

} // verus!
