//! The communication protocol of the system under test: its messages, their
//! typed parameters, and the filling of topic templates with parameter values.

use vstd::prelude::*;
use vstd::string::*;

use crate::definitions::interface_data_definition::{
    collect_string_pairs, ConnectionType, Definition, InterfaceDataDefinition, MqttMessage,
    MqttMessageView, ProtocolDataDescription,
};
use crate::definitions::program_configuration::Config;
use crate::definitions::setup_definition::{
    ConnectionCmd, CreateDockerMongoDbCmd, DataEntry, InitMongoDbCmd, Setup, SetupCommand,
};
use crate::definitions::test_definition::{
    IsEqualDefintion, RecvMqttDefinition, RegexDefinition, RunDefinition, SendMqttDefinition,
    TestDefinition,
};
use crate::definitions::yaml_value::{string_pairs, string_pairs_only};
use crate::definitions::Visitor;
use crate::named_table::NamedTable;
use crate::text::{
    decimal, decimal_text, law_replace_absent, law_replace_with_itself, owned, push_char, replace_all,
    replaced,
};

verus! {

/// The value of a message parameter. A real number is held as the text that
/// its `f64` value is written as.
pub enum ParameterValue {
    Int(u32),
    Real(String),
    Str(String),
    Bool(bool),
    NoValue,
}

/// The text a parameter value is written as.
pub open spec fn value_text(v: ParameterValue) -> Seq<char> {
    match v {
        ParameterValue::Int(n) => decimal(n as nat),
        ParameterValue::Real(t) => t@,
        ParameterValue::Str(s) => s@,
        ParameterValue::Bool(b) => if b { "true"@ } else { "false"@ },
        ParameterValue::NoValue => "None"@,
    }
}

impl ParameterValue {
    /// The text this value is written as: an integer in decimal, a real as
    /// held, a string as it is, a boolean as `true` or `false`, and no value as
    /// `None`.
    pub fn to_string(&self) -> (r: String)
        ensures
            r@ == value_text(*self),
    {
        match self {
            ParameterValue::Int(v) => decimal_text(*v),
            ParameterValue::Real(v) => v.clone(),
            ParameterValue::Str(v) => v.clone(),
            ParameterValue::Bool(v) => if *v { owned("true") } else { owned("false") },
            ParameterValue::NoValue => owned("None"),
        }
    }
}

impl Clone for ParameterValue {
    fn clone(&self) -> (r: Self)
        ensures
            r == *self,
    {
        match self {
            ParameterValue::Int(v) => ParameterValue::Int(*v),
            ParameterValue::Real(v) => ParameterValue::Real(v.clone()),
            ParameterValue::Str(v) => ParameterValue::Str(v.clone()),
            ParameterValue::Bool(v) => ParameterValue::Bool(*v),
            ParameterValue::NoValue => ParameterValue::NoValue,
        }
    }
}

/// The declared type of a message parameter.
#[derive(PartialEq, Eq, Structural, Clone, Copy)]
pub enum ParameterType {
    Int,
    Real,
    Str,
    Bool,
    NoType,
}

/// Whether `value` is of type `typ`. No value is of type `NoType`.
pub open spec fn value_fits(typ: ParameterType, value: ParameterValue) -> bool {
    match typ {
        ParameterType::Int => value is Int,
        ParameterType::Real => value is Real,
        ParameterType::Str => value is Str,
        ParameterType::Bool => value is Bool,
        ParameterType::NoType => false,
    }
}

/// The message that rejects a value not of type `typ`.
pub open spec fn type_error_text(typ: ParameterType) -> Seq<char> {
    match typ {
        ParameterType::Int => "Expected type int"@,
        ParameterType::Real => "Expected type real"@,
        ParameterType::Str => "Expected type str"@,
        ParameterType::Bool => "Expected type bool"@,
        ParameterType::NoType => "Expected type"@,
    }
}

/// The type named by a type name of the interface definition: `int`,
/// `real`, `bool` or `string`; any other name gives `NoType`.
pub open spec fn parameter_type_named(name: Seq<char>) -> ParameterType {
    if name == "int"@ {
        ParameterType::Int
    } else if name == "real"@ {
        ParameterType::Real
    } else if name == "bool"@ {
        ParameterType::Bool
    } else if name == "string"@ {
        ParameterType::Str
    } else {
        ParameterType::NoType
    }
}

/// A message parameter: its name, its type and its value.
pub struct Parameter {
    pub key: String,
    pub typ: ParameterType,
    pub value: ParameterValue,
}

impl Clone for Parameter {
    fn clone(&self) -> (r: Self)
        ensures
            r == *self,
    {
        Parameter { key: self.key.clone(), typ: self.typ, value: self.value.clone() }
    }
}

impl Parameter {
    /// The parameter `key` of type `typ` holding `value`, where `value` is of
    /// that type; otherwise the message naming the expected type.
    pub fn new(key: String, typ: ParameterType, value: ParameterValue) -> (r: Result<
        Parameter,
        String,
    >)
        ensures
            r is Ok <==> value_fits(typ, value),
            r matches Ok(p) ==> p.key == key && p.typ == typ && p.value == value,
            r matches Err(e) ==> e@ == type_error_text(typ),
    {
        match typ {
            ParameterType::Int => {
                match &value {
                    ParameterValue::Int(x) => {},
                    _ => {
                        return Err(owned("Expected type int"));
                    },
                }
            },
            ParameterType::Real => {
                match &value {
                    ParameterValue::Real(x) => {},
                    _ => {
                        return Err(owned("Expected type real"));
                    },
                }
            },
            ParameterType::Str => {
                match &value {
                    ParameterValue::Str(x) => {},
                    _ => {
                        return Err(owned("Expected type str"));
                    },
                }
            },
            ParameterType::Bool => {
                match &value {
                    ParameterValue::Bool(x) => {},
                    _ => {
                        return Err(owned("Expected type bool"));
                    },
                }
            },
            ParameterType::NoType => {
                return Err(owned("Expected type"));
            },
        }
        Ok(Parameter { key, typ, value })
    }
}

/// The placeholder that stands for the parameter `key` in a template: `$key`.
pub open spec fn placeholder(key: Seq<char>) -> Seq<char> {
    seq!['$'] + key
}

/// The names of the parameters.
pub open spec fn keys_of(ps: Seq<Parameter>) -> Seq<Seq<char>> {
    ps.map_values(|p: Parameter| p.key@)
}

/// The texts of the values of the parameters.
pub open spec fn texts_of(ps: Seq<Parameter>) -> Seq<Seq<char>> {
    ps.map_values(|p: Parameter| value_text(p.value))
}

/// `template` after the first `n` substitutions: the i-th replaces every
/// placeholder of `keys[i]` by `texts[i]`, in the text the earlier ones left.
pub open spec fn filled(
    template: Seq<char>,
    keys: Seq<Seq<char>>,
    texts: Seq<Seq<char>>,
    n: nat,
) -> Seq<char>
    decreases n,
{
    if n == 0 {
        template
    } else {
        replaced(
            filled(template, keys, texts, (n - 1) as nat),
            placeholder(keys[n - 1]),
            texts[n - 1],
        )
    }
}

/// The text of the placeholder for `key`.
pub fn placeholder_text(key: &String) -> (r: String)
    ensures
        r@ == placeholder(key@),
{
    let mut r = String::new();
    push_char(&mut r, '$');
    r.append(key.as_str());
    assert(r@ =~= placeholder(key@));
    r
}

/// An MQTT message of the protocol: its topic and payload templates and its
/// declared parameters.
pub struct MqttProtocol {
    pub topic: String,
    pub payload: String,
    pub parameters: Vec<Parameter>,
}

impl Clone for MqttProtocol {
    fn clone(&self) -> (r: Self)
        ensures
            r.topic == self.topic,
            r.payload == self.payload,
            r.parameters@ == self.parameters@,
    {
        let parameters = self.parameters.clone();
        assert(parameters@ =~= self.parameters@);
        MqttProtocol { topic: self.topic.clone(), payload: self.payload.clone(), parameters }
    }
}

/// The error of a parameter list whose length differs from the declared one.
pub open spec fn length_error_text() -> Seq<char> {
    "parameter list and expected list size aren't equal"@
}

impl MqttProtocol {
    /// `template` with the placeholder of each declared parameter, in turn,
    /// replaced by the text of the value at the same position of `input`.
    fn fill(&self, template: &String, input: &Vec<Parameter>) -> (r: String)
        requires
            input.len() == self.parameters.len(),
        ensures
            r@ == filled(
                template@,
                keys_of(self.parameters@),
                texts_of(input@),
                input.len() as nat,
            ),
    {
        let mut out = template.clone();
        let mut i: usize = 0;
        while i < input.len()
            invariant
                i <= input.len(),
                input.len() == self.parameters.len(),
                out@ == filled(template@, keys_of(self.parameters@), texts_of(input@), i as nat),
            decreases input.len() - i,
        {
            let ph = placeholder_text(&self.parameters[i].key);
            let value = input[i].value.to_string();
            assert(keys_of(self.parameters@)[i as int] == self.parameters@[i as int].key@);
            assert(texts_of(input@)[i as int] == value_text(input@[i as int].value));
            out = replace_all(out.as_str(), ph.as_str(), value.as_str());
            i = i + 1;
        }
        out
    }

    /// The topic with the placeholder `$key` of each declared parameter, in
    /// order, replaced by the text of the value at the same position of
    /// `input`; an error where `input` and the declared parameters differ in
    /// number.
    pub fn create_topic(&self, input: &Vec<Parameter>) -> (r: Result<String, String>)
        ensures
            r is Ok <==> input.len() == self.parameters.len(),
            r matches Ok(t) ==> t@ == filled(
                self.topic@,
                keys_of(self.parameters@),
                texts_of(input@),
                input.len() as nat,
            ),
            r matches Err(e) ==> e@ == length_error_text(),
    {
        if input.len() == self.parameters.len() {
            let topic = self.fill(&self.topic, input);
            return Ok(topic);
        }
        Err(owned("parameter list and expected list size aren't equal"))
    }

    /// The payload of a message: the same filling as `create_topic`, applied
    /// to the topic template (the `payload` template is not read here).
    pub fn create_payload(&self, input: &Vec<Parameter>) -> (r: Result<String, String>)
        ensures
            r is Ok <==> input.len() == self.parameters.len(),
            r matches Ok(t) ==> t@ == filled(
                self.topic@,
                keys_of(self.parameters@),
                texts_of(input@),
                input.len() as nat,
            ),
            r matches Err(e) ==> e@ == length_error_text(),
    {
        if input.len() == self.parameters.len() {
            let payload = self.fill(&self.topic, input);
            return Ok(payload);
        }
        Err(owned("parameter list and expected list size aren't equal"))
    }
}

/// A message of some protocol.
pub enum ProtocolType {
    Mqtt(MqttProtocol),
    NoProtocol,
}

impl Clone for ProtocolType {
    fn clone(&self) -> (r: Self)
        ensures
            match (*self, r) {
                (ProtocolType::Mqtt(a), ProtocolType::Mqtt(b)) => a.topic == b.topic
                    && a.payload == b.payload && a.parameters@ == b.parameters@,
                (ProtocolType::NoProtocol, ProtocolType::NoProtocol) => true,
                _ => false,
            },
    {
        match self {
            ProtocolType::Mqtt(p) => ProtocolType::Mqtt(p.clone()),
            ProtocolType::NoProtocol => ProtocolType::NoProtocol,
        }
    }
}

/// The type named by `name`: `int`, `real`, `bool` and `string` name the
/// four types, and any other name gives `NoType`.
pub fn parameter_type_named_by(name: &String) -> (r: ParameterType)
    ensures
        r == parameter_type_named(name@),
{
    if *name == owned("int") {
        ParameterType::Int
    } else if *name == owned("real") {
        ParameterType::Real
    } else if *name == owned("bool") {
        ParameterType::Bool
    } else if *name == owned("string") {
        ParameterType::Str
    } else {
        ParameterType::NoType
    }
}

/// `ps` declares, in order, the parameters named by `pairs`: each with the
/// name of its pair, the type its pair's type name names, and no value.
pub open spec fn declares(ps: Seq<Parameter>, pairs: Seq<(Seq<char>, Seq<char>)>) -> bool {
    &&& ps.len() == pairs.len()
    &&& forall|i: int|
        0 <= i < ps.len() ==> {
            &&& (#[trigger] ps[i]).key@ == pairs[i].0
            &&& ps[i].typ == parameter_type_named(pairs[i].1)
            &&& ps[i].value == ParameterValue::NoValue
        }
}

/// `p` is the protocol entry of the message `m`: its topic, its payload and
/// the parameters its entries declare.
pub open spec fn protocol_of(p: MqttProtocol, m: MqttMessageView) -> bool {
    &&& p.topic@ == m.topic
    &&& p.payload@ == m.payload
    &&& declares(p.parameters@, string_pairs(m.parameter))
}

/// The declared parameters of a message, in the order of its entries, each
/// without a value.
pub fn declared_parameters(def: &MqttMessage) -> (r: Vec<Parameter>)
    requires
        string_pairs_only(def@.parameter),
    ensures
        declares(r@, string_pairs(def@.parameter)),
{
    let pairs = collect_string_pairs(def.parameter());
    let ghost pv = pairs@.map_values(|p: (String, String)| (p.0@, p.1@));
    let mut r: Vec<Parameter> = Vec::new();
    let mut i: usize = 0;
    while i < pairs.len()
        invariant
            i <= pairs.len(),
            pv == pairs@.map_values(|p: (String, String)| (p.0@, p.1@)),
            declares(r@, pv.take(i as int)),
        decreases pairs.len() - i,
    {
        let typ = parameter_type_named_by(&pairs[i].1);
        r.push(Parameter { key: pairs[i].0.clone(), typ, value: ParameterValue::NoValue });
        assert(pv.take(i + 1)[i as int] == pv[i as int]);
        assert forall|k: int| 0 <= k < i implies pv.take(i + 1)[k] == pv.take(i as int)[k] by {}
        i = i + 1;
    }
    assert(pv.take(pv.len() as int) =~= pv);
    r
}

/// The messages of the protocol, by name.
pub struct GenerateCommunicationProtocol {
    pub protocol_type: NamedTable<ProtocolType>,
}

impl View for GenerateCommunicationProtocol {
    type V = Map<Seq<char>, ProtocolType>;

    open spec fn view(&self) -> Map<Seq<char>, ProtocolType> {
        self.protocol_type@
    }
}

impl GenerateCommunicationProtocol {
    /// A protocol without messages.
    pub fn new() -> (r: GenerateCommunicationProtocol)
        ensures
            r@ == Map::<Seq<char>, ProtocolType>::empty(),
    {
        GenerateCommunicationProtocol { protocol_type: NamedTable::new() }
    }
}

impl Visitor for GenerateCommunicationProtocol {
    /// A message is recorded only where its parameter entries name each
    /// parameter and its type by strings.
    open spec fn takes_mqtt_message(def: MqttMessage) -> bool {
        string_pairs_only(def@.parameter)
    }

    /// The protocol starts afresh, without messages.
    open spec fn interface_data_step(
        self,
        def: InterfaceDataDefinition,
        after: Self,
        def_after: InterfaceDataDefinition,
    ) -> bool {
        &&& after@ == Map::<Seq<char>, ProtocolType>::empty()
        &&& def_after == def
    }

    /// The message is recorded under its name, with its topic, its payload
    /// and its declared parameters, in place of any message of that name;
    /// the other messages stay.
    open spec fn mqtt_message_step(self, def: MqttMessage, after: Self, def_after: MqttMessage) -> bool {
        &&& after@.dom() == self@.dom().insert(def@.name)
        &&& forall|k: Seq<char>|
            k != def@.name && #[trigger] self@.contains_key(k) ==> after@[k] == self@[k]
        &&& after@[def@.name] matches ProtocolType::Mqtt(p) && protocol_of(p, def@)
        &&& def_after == def
    }

    /// Starts the protocol afresh.
    fn visit_interface_data_def(&mut self, def: &mut InterfaceDataDefinition) {
        self.protocol_type = NamedTable::new();
    }

    /// Records the message under its name, with its topic, its payload and
    /// its declared parameters, in place of any message of that name.
    fn visit_mqtt_message_def(&mut self, def: &mut MqttMessage) {
        let parameters = declared_parameters(def);
        let p = MqttProtocol { topic: def.topic().clone(), payload: def.payload().clone(), parameters };
        self.protocol_type.insert(def.name().clone(), ProtocolType::Mqtt(p));
    }

    fn visit_config(&mut self, config: &mut Config) {
    }

    fn visit_test_def(&mut self, def: &mut TestDefinition) {
    }

    fn visit_run_def(&mut self, def: &mut RunDefinition) {
    }

    fn visit_send_mqtt_def(&mut self, def: &mut SendMqttDefinition) {
    }

    fn visit_recv_mqtt_dev(&mut self, def: &mut RecvMqttDefinition) {
    }

    fn visit_is_equal_def(&mut self, def: &mut IsEqualDefintion) {
    }

    fn visit_regex_def(&mut self, def: &mut RegexDefinition) {
    }

    fn visit_create_docker_mongo(&mut self, def: &mut CreateDockerMongoDbCmd) {
    }

    fn visit_data_entry(&mut self, def: &mut DataEntry) {
    }

    fn visit_init_mongo(&mut self, def: &mut InitMongoDbCmd) {
    }

    fn visit_connection_def(&mut self, def: &mut ConnectionCmd) {
    }

    fn visit_setup_command_def(&mut self, def: &mut SetupCommand) {
    }

    fn visit_setup_def(&mut self, def: &mut Setup) {
    }

    fn visit_definition(&mut self, def: &mut Definition) {
    }

    fn visit_protocol_data_description_def(&mut self, def: &mut ProtocolDataDescription) {
    }

    fn visit_connection_type_def(&mut self, def: &mut ConnectionType) {
    }
}

} // verus!

verus! {

/// A template without `$` names no parameter: filling it gives it back
/// unchanged, whatever the parameters and values.
pub proof fn law_fill_without_placeholders(
    template: Seq<char>,
    keys: Seq<Seq<char>>,
    texts: Seq<Seq<char>>,
    n: nat,
)
    requires
        !template.contains('$'),
    ensures
        filled(template, keys, texts, n) == template,
    decreases n,
{
    if n > 0 {
        law_fill_without_placeholders(template, keys, texts, (n - 1) as nat);
        let pat = placeholder(keys[n - 1]);
        assert forall|i: int| 0 <= i && i + pat.len() <= template.len() implies #[trigger] template.subrange(i, i + pat.len()) != pat by {
            if template.subrange(i, i + pat.len()) == pat {
                assert(template.subrange(i, i + pat.len())[0] == '$');
                assert(template[i] == '$');
            }
        }
        law_replace_absent(template, pat, texts[n - 1]);
    }
}

/// Filling each placeholder with its own text gives the template back
/// unchanged.
pub proof fn law_fill_with_own_placeholders(
    template: Seq<char>,
    keys: Seq<Seq<char>>,
    texts: Seq<Seq<char>>,
    n: nat,
)
    requires
        n <= keys.len(),
        n <= texts.len(),
        forall|i: int| 0 <= i < n ==> texts[i] == placeholder(keys[i]),
    ensures
        filled(template, keys, texts, n) == template,
    decreases n,
{
    if n > 0 {
        law_fill_with_own_placeholders(template, keys, texts, (n - 1) as nat);
        law_replace_with_itself(template, placeholder(keys[n - 1]));
    }
}

/// A value is of one type at most: a parameter of one type refuses the
/// values a parameter of any other type takes.
pub proof fn law_value_fits_one_type(t1: ParameterType, t2: ParameterType, value: ParameterValue)
    requires
        value_fits(t1, value),
        value_fits(t2, value),
    ensures
        t1 == t2,
{
}

/// A value fits a declared type exactly when it is of that kind: an `Int`
/// value fits `Int`, a `Real` one `Real`, a `Str` one `Str`, a `Bool` one
/// `Bool`; an absent value fits no type, and no value fits `NoType`.
pub proof fn law_value_fits_its_kind(value: ParameterValue)
    ensures
        value_fits(ParameterType::Int, value) <==> value is Int,
        value_fits(ParameterType::Real, value) <==> value is Real,
        value_fits(ParameterType::Str, value) <==> value is Str,
        value_fits(ParameterType::Bool, value) <==> value is Bool,
        !value_fits(ParameterType::NoType, value),
        value is NoValue ==> forall|t: ParameterType| !#[trigger] value_fits(t, value),
{
}

} // verus!
