use protocol_testbench::definitions::interface_data_definition::{
    all_string_pairs, ConnectionType, Definition, InterfaceDataDefinition, MqttMessage,
    ProtocolDataDescription,
};
use protocol_testbench::definitions::program_configuration::Config;
use protocol_testbench::definitions::setup_definition::{
    has_string_keys, ConnectionCmd, CreateDockerMongoDbCmd, DataEntry, InitMongoDbCmd, Setup, SetupCommand,
};
use protocol_testbench::definitions::test_definition::{
    IsEqualDefintion, RecvMqttDefinition, RegexDefinition, RunDefinition, SendMqttDefinition,
    TestDefinition, VerificationDefinition,
};
use protocol_testbench::definitions::yaml_value::YamlValue;
use protocol_testbench::definitions::Visitor;
use protocol_testbench::visitors::generate_communication_protocol::{
    GenerateCommunicationProtocol, ParameterType, ParameterValue, ProtocolType,
};
use protocol_testbench::visitors::generate_mark_down::GenerateMarkDownVisitor;

fn s(x: &str) -> YamlValue {
    YamlValue::String(x.to_string())
}

fn pair(k: &str, v: &str) -> YamlValue {
    YamlValue::Mapping(vec![(s(k), s(v))])
}

fn message(name: &str, params: Vec<YamlValue>, topic: &str, payload: &str) -> MqttMessage {
    MqttMessage::new(name.to_string(), params, topic.to_string(), payload.to_string())
}

fn mongo_cmd() -> CreateDockerMongoDbCmd {
    CreateDockerMongoDbCmd {
        host: "localhost".to_string(),
        port: "27017".to_string(),
        user: "root".to_string(),
        password: "secret".to_string(),
        database: "plant".to_string(),
        docker_host: None,
        docker_port: None,
        docker_id: None,
        name: "db".to_string(),
    }
}

fn sample_config() -> Config {
    let msg = message(
        "temperature",
        vec![pair("room", "string"), pair("value", "real")],
        "home/$room/temp",
        "$value",
    );
    let doc = DataEntry::new(YamlValue::Mapping(vec![
        (s("name"), s("pump")),
        (s("power"), YamlValue::Number { text: "1.5".to_string(), float_text: "1.5".to_string() }),
        (s("on"), YamlValue::Bool(true)),
    ]));
    Config {
        name: "Plant".to_string(),
        description: "A plant controller".to_string(),
        interface_data_definition: InterfaceDataDefinition {
            data_def: vec![Definition {
                connection_type: ConnectionType::mqtt,
                protocol_data_description: vec![ProtocolDataDescription::mqtt_message(msg)],
            }],
        },
        setup: Setup {
            entries: vec![
                SetupCommand::create_docker_mongodb(mongo_cmd()),
                SetupCommand::init_mongodb(InitMongoDbCmd {
                    name: "db".to_string(),
                    database: "plant".to_string(),
                    collection: "devices".to_string(),
                    data: vec![doc],
                }),
                SetupCommand::connection(ConnectionCmd {
                    name: "broker".to_string(),
                    connection_type: ConnectionType::mqtt,
                    host: "localhost".to_string(),
                    port: "1883".to_string(),
                }),
            ],
        },
        test: TestDefinition {
            run: vec![
                RunDefinition::send_mqtt(SendMqttDefinition {
                    used_connection: "broker".to_string(),
                    message: "temperature".to_string(),
                    parameters: vec!["kitchen".to_string(), "21.5".to_string()],
                }),
                RunDefinition::recv_mqtt(RecvMqttDefinition {
                    used_connection: "broker".to_string(),
                    message: "temperature".to_string(),
                    parameters: vec!["kitchen".to_string(), "21.5".to_string()],
                    verify: vec![VerificationDefinition::is_eq(IsEqualDefintion {
                        left: "$PAYLOAD".to_string(),
                        right: "21.5".to_string(),
                        allow_failure: false,
                    })],
                }),
            ],
        },
    }
}

struct Recorder {
    visits: Vec<String>,
}

impl Visitor for Recorder {
    fn visit_config(&mut self, _: &mut Config) {
        self.visits.push("config".to_string());
    }
    fn visit_test_def(&mut self, _: &mut TestDefinition) {
        self.visits.push("test".to_string());
    }
    fn visit_send_mqtt_def(&mut self, _: &mut SendMqttDefinition) {
        self.visits.push("send".to_string());
    }
    fn visit_recv_mqtt_dev(&mut self, _: &mut RecvMqttDefinition) {
        self.visits.push("recv".to_string());
    }
    fn visit_is_equal_def(&mut self, _: &mut IsEqualDefintion) {
        self.visits.push("is_equal".to_string());
    }
    fn visit_create_docker_mongo(&mut self, _: &mut CreateDockerMongoDbCmd) {
        self.visits.push("create_mongo".to_string());
    }
    fn visit_data_entry(&mut self, _: &mut DataEntry) {
        self.visits.push("data".to_string());
    }
    fn visit_init_mongo(&mut self, _: &mut InitMongoDbCmd) {
        self.visits.push("init_mongo".to_string());
    }
    fn visit_connection_def(&mut self, _: &mut ConnectionCmd) {
        self.visits.push("connection".to_string());
    }
    fn visit_setup_def(&mut self, _: &mut Setup) {
        self.visits.push("setup".to_string());
    }
    fn visit_definition(&mut self, _: &mut Definition) {
        self.visits.push("definition".to_string());
    }
    fn visit_interface_data_def(&mut self, _: &mut InterfaceDataDefinition) {
        self.visits.push("interfaces".to_string());
    }
    fn visit_mqtt_message_def(&mut self, _: &mut MqttMessage) {
        self.visits.push("message".to_string());
    }
    fn visit_connection_type_def(&mut self, _: &mut ConnectionType) {
        self.visits.push("connection_type".to_string());
    }
    fn visit_run_def(&mut self, _: &mut RunDefinition) {}
    fn visit_regex_def(&mut self, _: &mut RegexDefinition) {}
    fn visit_setup_command_def(&mut self, _: &mut SetupCommand) {}
    fn visit_protocol_data_description_def(&mut self, _: &mut ProtocolDataDescription) {}
}

#[test]
fn config_accept_visits_interfaces_then_setup_in_order() {
    let mut config = sample_config();
    let mut r = Recorder { visits: vec![] };
    config.accept(&mut r);
    assert_eq!(
        r.visits,
        vec![
            "config", "interfaces", "definition", "connection_type", "setup", "create_mongo",
            "init_mongo", "data", "connection"
        ]
    );
}

#[test]
fn test_accept_visits_runs_and_checks_in_order() {
    let mut config = sample_config();
    let mut r = Recorder { visits: vec![] };
    config.test.accept(&mut r);
    assert_eq!(r.visits, vec!["test", "send", "recv", "is_equal"]);
}

#[test]
fn message_accept_reaches_the_message_visitor() {
    let mut d = ProtocolDataDescription::mqtt_message(message("m", vec![], "t", "p"));
    let mut r = Recorder { visits: vec![] };
    d.accept(&mut r);
    assert_eq!(r.visits, vec!["message"]);
}

#[test]
fn messages_keep_any_parameter_entries() {
    let bad_key = YamlValue::Mapping(vec![(YamlValue::Bool(true), s("int"))]);
    let m = MqttMessage::new("m".to_string(), vec![bad_key], "t".to_string(), "p".to_string());
    assert!(!all_string_pairs(m.parameter()));
    let bad_type = YamlValue::Mapping(vec![(s("x"), YamlValue::Null)]);
    assert!(!all_string_pairs(&vec![bad_type]));
    let not_a_mapping = YamlValue::Sequence(vec![YamlValue::Null]);
    assert!(all_string_pairs(&vec![not_a_mapping, pair("x", "int")]));
}

#[test]
fn data_entries_keep_any_keys() {
    let bad = DataEntry::new(YamlValue::Mapping(vec![(YamlValue::Null, s("x"))]));
    assert!(!has_string_keys(bad.data_entry()));
    assert!(has_string_keys(&YamlValue::Mapping(vec![(s("k"), YamlValue::Null)])));
    assert!(has_string_keys(&YamlValue::Null));
}

#[test]
fn description_with_unnamed_parameters_is_not_documented() {
    let mut config = sample_config();
    config.interface_data_definition.data_def[0].protocol_data_description.push(
        ProtocolDataDescription::mqtt_message(MqttMessage::new(
            "odd".to_string(),
            vec![YamlValue::Mapping(vec![(YamlValue::Bool(true), s("int"))])],
            "t".to_string(),
            "p".to_string(),
        )),
    );
    let mut v = GenerateMarkDownVisitor::new();
    assert!(!v.document(&mut config));
    assert_eq!(v.text, "");
}

#[test]
fn description_with_a_document_keyed_by_a_number_is_not_documented() {
    let mut config = sample_config();
    config.setup.entries.push(SetupCommand::init_mongodb(InitMongoDbCmd {
        name: "db".to_string(),
        database: "plant".to_string(),
        collection: "c".to_string(),
        data: vec![DataEntry::new(YamlValue::Mapping(vec![(
            YamlValue::Number { text: "1".to_string(), float_text: "1".to_string() },
            s("x"),
        )]))],
    }));
    let mut v = GenerateMarkDownVisitor::new();
    assert!(!v.document(&mut config));
    assert_eq!(v.text, "");
}

#[test]
fn documenting_a_description_writes_its_markdown() {
    let mut a = sample_config();
    let mut b = sample_config();
    let mut v = GenerateMarkDownVisitor::new();
    let mut w = GenerateMarkDownVisitor::new();
    assert!(v.document(&mut a));
    b.accept(&mut w);
    assert_eq!(v.text, w.text);
}

#[test]
fn protocol_visitor_records_typed_parameters() {
    let mut msg = message(
        "cmd",
        vec![
            YamlValue::Mapping(vec![(s("a"), s("int")), (s("b"), s("real"))]),
            YamlValue::Null,
            pair("c", "bool"),
            pair("d", "string"),
            pair("e", "complex"),
        ],
        "dev/$a",
        "{$b}",
    );
    let mut v = GenerateCommunicationProtocol::new();
    v.visit_mqtt_message_def(&mut msg);
    match v.protocol_type.get(&"cmd".to_string()) {
        Some(ProtocolType::Mqtt(p)) => {
            assert_eq!(p.topic, "dev/$a");
            assert_eq!(p.payload, "{$b}");
            let keys: Vec<&str> = p.parameters.iter().map(|x| x.key.as_str()).collect();
            assert_eq!(keys, vec!["a", "b", "c", "d", "e"]);
            let types: Vec<ParameterType> = p.parameters.iter().map(|x| x.typ).collect();
            assert!(types == vec![ParameterType::Int, ParameterType::Real, ParameterType::Bool, ParameterType::Str, ParameterType::NoType]);
            assert!(p.parameters.iter().all(|x| matches!(x.value, ParameterValue::NoValue)));
        }
        _ => panic!("message not recorded"),
    }
    assert!(v.protocol_type.get(&"other".to_string()).is_none());
}

#[test]
fn protocol_visitor_replaces_a_message_of_the_same_name_and_restarts_per_interface() {
    let mut v = GenerateCommunicationProtocol::new();
    v.visit_mqtt_message_def(&mut message("m", vec![], "first", ""));
    v.visit_mqtt_message_def(&mut message("n", vec![], "other", ""));
    v.visit_mqtt_message_def(&mut message("m", vec![], "second", ""));
    match v.protocol_type.get(&"m".to_string()) {
        Some(ProtocolType::Mqtt(p)) => assert_eq!(p.topic, "second"),
        _ => panic!("message not recorded"),
    }
    assert_eq!(v.protocol_type.entries().len(), 2);
    v.visit_interface_data_def(&mut InterfaceDataDefinition { data_def: vec![] });
    assert!(v.protocol_type.get(&"m".to_string()).is_none());
    assert!(v.protocol_type.get(&"n".to_string()).is_none());
}

#[test]
fn connection_type_sentences() {
    let d = |t| Definition { connection_type: t, protocol_data_description: vec![] };
    assert_eq!(d(ConnectionType::mqtt).generate_connection_type(), "The used connection type is MQTT \n\n  \n");
    assert_eq!(d(ConnectionType::rest).generate_connection_type(), "The used connection type is REST \n");
    assert_eq!(d(ConnectionType::tcp).generate_connection_type(), "The uses connection type is TCP \n");
}

#[test]
fn protocol_definition_documents_each_message() {
    let d = Definition {
        connection_type: ConnectionType::mqtt,
        protocol_data_description: vec![
            ProtocolDataDescription::mqtt_message(message("a", vec![pair("x", "int")], "t/$x", "p")),
            ProtocolDataDescription::mqtt_message(message("b", vec![], "u", "q")),
        ],
    };
    assert_eq!(
        d.generate_protocol_definition(),
        "### MQTT-Message a\n\n**Parameters:**\n\n- `x`: int\n\n\n**Topic:**\n - `t/$x`\n\n**Payload:**\n - `p`\n\n\
         ### MQTT-Message b\n\n**Parameters:**\n\n\n\n**Topic:**\n - `u`\n\n**Payload:**\n - `q`\n\n"
    );
}

#[test]
fn markdown_of_a_whole_description() {
    let mut config = sample_config();
    let mut v = GenerateMarkDownVisitor::new();
    config.accept(&mut v);
    let expected = "# Plant\nA plant controller\n\n---\n\n\
        ## IDD - Interface Data Definition \n\n --- \n\
        The used connection type is MQTT \n\n  \n\
        ### MQTT-Message temperature\n\n**Parameters:**\n\n- `room`: string\n- `value`: real\n\n\n\
        **Topic:**\n - `home/$room/temp`\n\n**Payload:**\n - `$value`\n\n\
        --- \n\
        ## Setup Environment Description \n\n --- \n\
        ### Create Mongo Database \n\n --- \n\
        - `host`: localhost\n- `port`: 27017\n- `user`: root\n- `password`: secret\n- `database`: plant\n\
        ### Create MONGO Collection devices \n\n ---\n\
        \n**Data**\n\n- `name`: pump\n- `power`: 1.5\n- `on`: \n\
        ### Create Connection Server  \n\n --- \n\
        - `name`: broker\n- `connection type`: mqtt\n- `host`: localhost\n- `port`: 1883\n";
    assert_eq!(v.text, expected);
}

#[test]
fn markdown_of_a_data_entry_that_is_not_a_mapping() {
    let mut v = GenerateMarkDownVisitor::new();
    v.visit_data_entry(&mut DataEntry::new(YamlValue::String("x".to_string())));
    assert_eq!(v.text, "\n**Data**\n\n");
}
