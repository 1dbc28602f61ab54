//! The Markdown documentation of a test description.

use vstd::prelude::*;
use vstd::string::*;

use crate::definitions::interface_data_definition::{
    all_string_pairs, connection_type_text, parameters_named, protocol_definition_text, ConnectionType, Definition,
    InterfaceDataDefinition, MqttMessage, ProtocolDataDescription,
};
use crate::definitions::program_configuration::{config_walk, Config};
use crate::definitions::setup_definition::{
    has_string_keys, setup_command_taken, setup_taken, string_keys_only, ConnectionCmd,
    CreateDockerMongoDbCmd, DataEntry, InitMongoDbCmd, Setup, SetupCommand,
};
use crate::definitions::test_definition::{
    IsEqualDefintion, RecvMqttDefinition, RegexDefinition, RunDefinition, SendMqttDefinition,
    TestDefinition,
};
use crate::definitions::yaml_value::{string_pairs_only, YamlValue};
use crate::definitions::Visitor;

verus! {

/// Builds the Markdown documentation of a test description; `text` holds the
/// document written so far.
pub struct GenerateMarkDownVisitor {
    pub text: String,
}

/// The text a value of a data entry is documented by: a number or a string
/// as it is, anything else as nothing.
pub open spec fn data_value_text(v: YamlValue) -> Seq<char> {
    match v {
        YamlValue::Number { float_text, .. } => float_text@,
        YamlValue::String(s) => s@,
        _ => seq![],
    }
}

/// One line per entry of a data entry's mapping: "- `key`: value".
pub open spec fn data_lines(entries: Seq<(YamlValue, YamlValue)>) -> Seq<char>
    decreases entries.len(),
{
    if entries.len() == 0 {
        seq![]
    } else {
        data_lines(entries.drop_last()) + "- `"@ + entries.last().0.str_of().unwrap() + "`: "@
            + data_value_text(entries.last().1) + "\n"@
    }
}

/// The documentation of a data entry.
pub open spec fn data_entry_text(v: YamlValue) -> Seq<char> {
    "\n**Data**\n\n"@ + match v.mapping_of() {
        Some(entries) => data_lines(entries),
        None => seq![],
    }
}

/// The documentation of the interfaces: for each, its connection type and
/// the sections of its messages.
pub open spec fn definitions_text(defs: Seq<Definition>) -> Seq<char>
    decreases defs.len(),
{
    if defs.len() == 0 {
        seq![]
    } else {
        definitions_text(defs.drop_last()) + connection_type_text(defs.last().connection_type)
            + protocol_definition_text(defs.last().protocol_data_description@)
    }
}

/// The documentation of a database server to start.
pub open spec fn create_docker_mongo_text(def: CreateDockerMongoDbCmd) -> Seq<char> {
    "### Create Mongo Database \n\n --- \n"@ + "- `host`: "@ + def.host@ + "\n- `port`: "@
        + def.port@ + "\n- `user`: "@ + def.user@ + "\n- `password`: "@ + def.password@
        + "\n- `database`: "@ + def.database@ + "\n"@
}

/// The documentation of a broker connection.
pub open spec fn connection_text(def: ConnectionCmd) -> Seq<char> {
    "### Create Connection Server  \n\n --- \n"@ + "- `name`: "@ + def.name@ + "\n"@
        + "- `connection type`: "@ + "mqtt"@ + "\n"@ + "- `host`: "@ + def.host@ + "\n"@
        + "- `port`: "@ + def.port@ + "\n"@
}

/// Whether every document of the setup has string keys wherever it is a
/// mapping.
pub open spec fn documents_keyed(s: Setup) -> bool {
    forall|j: int|
        0 <= j < s.entries@.len() ==> match #[trigger] s.entries@[j] {
            SetupCommand::init_mongodb(m) => forall|k: int|
                0 <= k < m.data@.len() ==> string_keys_only(#[trigger] m.data@[k].document()),
            _ => true,
        }
}

/// Whether a configuration can be documented: the parameter entries of its
/// messages name parameters and types by strings, and the keys of its
/// documents are strings.
pub open spec fn documentable(c: Config) -> bool {
    &&& GenerateMarkDownVisitor::takes_interface_data(c.interface_data_definition)
    &&& documents_keyed(c.setup)
}

impl GenerateMarkDownVisitor {
    /// A visitor with an empty document.
    pub fn new() -> (r: GenerateMarkDownVisitor)
        ensures
            r.text@ == Seq::<char>::empty(),
    {
        GenerateMarkDownVisitor { text: String::new() }
    }

    /// Documents the configuration where it can be documented, and says
    /// whether it was; where not, the visitor and the configuration are
    /// left as they are.
    pub fn document(&mut self, config: &mut Config) -> (r: bool)
        ensures
            r == documentable(*old(config)),
            r ==> config_walk(*old(self), *old(config), *final(self), *final(config)),
            !r ==> *final(self) == *old(self) && *final(config) == *old(config),
    {
        if !can_document(config) {
            return false;
        }
        proof {
            let c = *config;
            assert forall|v1: GenerateMarkDownVisitor, c1: Config|
                #[trigger] self.config_step(c, v1, c1) implies GenerateMarkDownVisitor::takes_interface_data(
                c1.interface_data_definition,
            ) && setup_taken::<GenerateMarkDownVisitor>(c1.setup) by {
                assert(c1 == c);
                assert forall|v0: GenerateMarkDownVisitor, v2: GenerateMarkDownVisitor, s1: Setup|
                    #[trigger] v0.setup_step(c.setup, v2, s1) implies forall|j: int|
                    0 <= j < s1.entries@.len() ==> #[trigger] setup_command_taken::<
                        GenerateMarkDownVisitor,
                    >(s1.entries@[j]) by {
                    assert(s1 == c.setup);
                    assert forall|j: int| 0 <= j < s1.entries@.len() implies #[trigger] setup_command_taken::<
                        GenerateMarkDownVisitor,
                    >(s1.entries@[j]) by {
                        match s1.entries@[j] {
                            SetupCommand::init_mongodb(m) => {
                                assert forall|w0: GenerateMarkDownVisitor, w1: GenerateMarkDownVisitor, m1: InitMongoDbCmd|
                                    #[trigger] w0.init_mongo_step(m, w1, m1) implies forall|k: int|
                                    0 <= k < m1.data@.len() ==> #[trigger] GenerateMarkDownVisitor::takes_data_entry(
                                        m1.data@[k],
                                    ) by {
                                    assert(m1 == m);
                                    assert forall|k: int| 0 <= k < m1.data@.len() implies #[trigger] GenerateMarkDownVisitor::takes_data_entry(
                                        m1.data@[k],
                                    ) by {
                                        assert(string_keys_only(m.data@[k].document()));
                                    }
                                }
                            },
                            _ => {},
                        }
                    }
                }
            }
        }
        config.accept(self);
        true
    }
}

/// Whether a configuration can be documented.
fn can_document(config: &Config) -> (r: bool)
    ensures
        r == documentable(*config),
{
    let defs = &config.interface_data_definition.data_def;
    let mut i: usize = 0;
    while i < defs.len()
        invariant
            i <= defs.len(),
            defs == &config.interface_data_definition.data_def,
            forall|j: int|
                0 <= j < i ==> parameters_named((#[trigger] defs@[j]).protocol_data_description@),
        decreases defs.len() - i,
    {
        let descs = &defs[i].protocol_data_description;
        let mut k: usize = 0;
        while k < descs.len()
            invariant
                i < defs.len(),
                defs == &config.interface_data_definition.data_def,
                k <= descs.len(),
                descs == &defs@[i as int].protocol_data_description,
                forall|b: int|
                    0 <= b < k ==> match #[trigger] descs@[b] {
                        ProtocolDataDescription::mqtt_message(m) => string_pairs_only(m@.parameter),
                    },
            decreases descs.len() - k,
        {
            match &descs[k] {
                ProtocolDataDescription::mqtt_message(m) => {
                    if !all_string_pairs(m.parameter()) {
                        assert(!parameters_named(descs@));
                        assert(!parameters_named(
                            config.interface_data_definition.data_def@[i as int].protocol_data_description@,
                        ));
                        return false;
                    }
                },
            }
            k = k + 1;
        }
        i = i + 1;
    }
    let entries = &config.setup.entries;
    let mut i: usize = 0;
    while i < entries.len()
        invariant
            i <= entries.len(),
            entries == &config.setup.entries,
            GenerateMarkDownVisitor::takes_interface_data(config.interface_data_definition),
            forall|j: int|
                0 <= j < i ==> match #[trigger] entries@[j] {
                    SetupCommand::init_mongodb(m) => forall|k: int|
                        0 <= k < m.data@.len() ==> string_keys_only(#[trigger] m.data@[k].document()),
                    _ => true,
                },
        decreases entries.len() - i,
    {
        match &entries[i] {
            SetupCommand::init_mongodb(m) => {
                let mut k: usize = 0;
                while k < m.data.len()
                    invariant
                        i < entries.len(),
                        entries == &config.setup.entries,
                        k <= m.data.len(),
                        entries@[i as int] == SetupCommand::init_mongodb(*m),
                        forall|b: int|
                            0 <= b < k ==> string_keys_only(#[trigger] m.data@[b].document()),
                    decreases m.data.len() - k,
                {
                    if !has_string_keys(m.data[k].data_entry()) {
                        assert(!string_keys_only(m.data@[k as int].document()));
                        assert(!documents_keyed(config.setup)) by {
                            if documents_keyed(config.setup) {
                                let e = config.setup.entries@[i as int];
                                assert(e == SetupCommand::init_mongodb(*m));
                                if let SetupCommand::init_mongodb(mm) = e {
                                    assert(string_keys_only(mm.data@[k as int].document()));
                                }
                            }
                        }
                        return false;
                    }
                    k = k + 1;
                }
            },
            _ => {},
        }
        i = i + 1;
    }
    true
}

fn data_value_string(v: &YamlValue) -> (r: String)
    ensures
        r@ == data_value_text(*v),
{
    match v {
        YamlValue::Number { float_text, .. } => float_text.clone(),
        YamlValue::String(s) => s.clone(),
        _ => String::new(),
    }
}

impl Visitor for GenerateMarkDownVisitor {
    /// The interfaces are documented only where the parameter entries of
    /// every message name each parameter and its type by strings.
    open spec fn takes_interface_data(def: InterfaceDataDefinition) -> bool {
        forall|j: int|
            0 <= j < def.data_def@.len() ==> parameters_named(
                (#[trigger] def.data_def@[j]).protocol_data_description@,
            )
    }

    /// A document is documented only where its keys, if it is a mapping,
    /// are strings.
    open spec fn takes_data_entry(def: DataEntry) -> bool {
        string_keys_only(def.document())
    }

    /// The title and the description are written; the configuration is
    /// left as it is.
    open spec fn config_step(self, def: Config, after: Self, def_after: Config) -> bool {
        &&& after.text@ == self.text@ + "# "@ + def.name@ + "\n"@ + def.description@
            + "\n\n---\n\n"@
        &&& def_after == def
    }

    /// The parameters of the database server are written.
    open spec fn create_docker_mongo_step(
        self,
        def: CreateDockerMongoDbCmd,
        after: Self,
        def_after: CreateDockerMongoDbCmd,
    ) -> bool {
        &&& after.text@ == self.text@ + create_docker_mongo_text(def)
        &&& def_after == def
    }

    /// The fields of the document are written, one line each.
    open spec fn data_entry_step(self, def: DataEntry, after: Self, def_after: DataEntry) -> bool {
        &&& after.text@ == self.text@ + data_entry_text(def.document())
        &&& def_after == def
    }

    /// The heading of the collection is written.
    open spec fn init_mongo_step(self, def: InitMongoDbCmd, after: Self, def_after: InitMongoDbCmd) -> bool {
        &&& after.text@ == self.text@ + "### Create MONGO Collection "@ + def.collection@
            + " \n\n ---\n"@
        &&& def_after == def
    }

    /// The parameters of the broker connection are written.
    open spec fn connection_step(self, def: ConnectionCmd, after: Self, def_after: ConnectionCmd) -> bool {
        &&& after.text@ == self.text@ + connection_text(def)
        &&& def_after == def
    }

    /// The heading of the setup is written.
    open spec fn setup_step(self, def: Setup, after: Self, def_after: Setup) -> bool {
        &&& after.text@ == self.text@ + "## Setup Environment Description \n\n --- \n"@
        &&& def_after == def
    }

    /// The heading of the interfaces is written, then for each interface its
    /// connection type and its messages, then a rule.
    open spec fn interface_data_step(
        self,
        def: InterfaceDataDefinition,
        after: Self,
        def_after: InterfaceDataDefinition,
    ) -> bool {
        &&& after.text@ == self.text@ + "## IDD - Interface Data Definition \n\n --- \n"@
            + definitions_text(def.data_def@) + "--- \n"@
        &&& def_after == def
    }

    /// Writes the title and the description.
    fn visit_config(&mut self, config: &mut Config) {
        self.text.append("# ");
        self.text.append(config.name.as_str());
        self.text.append("\n");
        self.text.append(config.description.as_str());
        self.text.append("\n\n---\n\n");
    }

    /// Writes the parameters of a database server to start.
    fn visit_create_docker_mongo(&mut self, def: &mut CreateDockerMongoDbCmd) {
        self.text.append("### Create Mongo Database \n\n --- \n");
        self.text.append("- `host`: ");
        self.text.append(def.host.as_str());
        self.text.append("\n- `port`: ");
        self.text.append(def.port.as_str());
        self.text.append("\n- `user`: ");
        self.text.append(def.user.as_str());
        self.text.append("\n- `password`: ");
        self.text.append(def.password.as_str());
        self.text.append("\n- `database`: ");
        self.text.append(def.database.as_str());
        self.text.append("\n");
        assert(self.text@ == old(self).text@ + create_docker_mongo_text(*old(def)));
    }

    /// Writes the fields of a document, one line each.
    fn visit_data_entry(&mut self, def: &mut DataEntry) {
        self.text.append("\n**Data**\n\n");
        let doc = def.data_entry();
        let ghost head = self.text@;
        if let Some(entries) = doc.as_mapping() {
            let mut j: usize = 0;
            while j < entries.len()
                invariant
                    j <= entries.len(),
                    string_keys_only(*doc),
                    doc.mapping_of() == Some(entries@),
                    self.text@ == head + data_lines(entries@.take(j as int)),
                decreases entries.len() - j,
            {
                assert(entries@.take(j + 1).drop_last() =~= entries@.take(j as int));
                assert(entries@.take(j + 1).last() == entries@[j as int]);
                assert(entries@[j as int].0.str_of() is Some);
                let key = entries[j].0.as_str().unwrap();
                let value = data_value_string(&entries[j].1);
                self.text.append("- `");
                self.text.append(key.as_str());
                self.text.append("`: ");
                self.text.append(value.as_str());
                self.text.append("\n");
                j = j + 1;
            }
            assert(entries@.take(entries@.len() as int) =~= entries@);
        }
        assert(self.text@ == old(self).text@ + data_entry_text(old(def).document()));
    }

    /// Writes the heading of a collection to fill.
    fn visit_init_mongo(&mut self, def: &mut InitMongoDbCmd) {
        self.text.append("### Create MONGO Collection ");
        self.text.append(def.collection.as_str());
        self.text.append(" \n\n ---\n");
    }

    /// Writes the parameters of a broker connection.
    fn visit_connection_def(&mut self, def: &mut ConnectionCmd) {
        self.text.append("### Create Connection Server  \n\n --- \n");
        self.text.append("- `name`: ");
        self.text.append(def.name.as_str());
        self.text.append("\n");
        self.text.append("- `connection type`: ");
        self.text.append("mqtt");
        self.text.append("\n");
        self.text.append("- `host`: ");
        self.text.append(def.host.as_str());
        self.text.append("\n");
        self.text.append("- `port`: ");
        self.text.append(def.port.as_str());
        self.text.append("\n");
        assert(self.text@ == old(self).text@ + connection_text(*old(def)));
    }

    /// Writes the heading of the setup.
    fn visit_setup_def(&mut self, def: &mut Setup) {
        self.text.append("## Setup Environment Description \n\n --- \n");
    }

    /// Writes the heading of the interfaces, then for each its connection
    /// type and its messages, then a rule.
    fn visit_interface_data_def(&mut self, def: &mut InterfaceDataDefinition) {
        self.text.append("## IDD - Interface Data Definition \n\n --- \n");
        let ghost head = self.text@;
        let defs = &def.data_def;
        let mut i: usize = 0;
        while i < defs.len()
            invariant
                i <= defs.len(),
                forall|j: int|
                    0 <= j < defs@.len() ==> parameters_named((#[trigger] defs@[j]).protocol_data_description@),
                self.text@ == head + definitions_text(defs@.take(i as int)),
            decreases defs.len() - i,
        {
            assert(defs@.take(i + 1).drop_last() =~= defs@.take(i as int));
            assert(defs@.take(i + 1).last() == defs@[i as int]);
            let connection = defs[i].generate_connection_type();
            assert(parameters_named(defs@[i as int].protocol_data_description@));
            let protocol = defs[i].generate_protocol_definition();
            self.text.append(connection.as_str());
            self.text.append(protocol.as_str());
            i = i + 1;
        }
        assert(defs@.take(defs@.len() as int) =~= defs@);
        self.text.append("--- \n");
    }

    fn visit_test_def(&mut self, def: &mut TestDefinition) {
    }

    fn visit_run_def(&mut self, def: &mut RunDefinition) {
    }

    fn visit_send_mqtt_def(&mut self, def: &mut SendMqttDefinition) {
    }

    fn visit_recv_mqtt_dev(&mut self, def: &mut RecvMqttDefinition) {
    }

    fn visit_is_equal_def(&mut self, def: &mut IsEqualDefintion) {
    }

    fn visit_regex_def(&mut self, def: &mut RegexDefinition) {
    }

    fn visit_setup_command_def(&mut self, def: &mut SetupCommand) {
    }

    fn visit_definition(&mut self, def: &mut Definition) {
    }

    fn visit_protocol_data_description_def(&mut self, def: &mut ProtocolDataDescription) {
    }

    fn visit_mqtt_message_def(&mut self, def: &mut MqttMessage) {
    }

    fn visit_connection_type_def(&mut self, def: &mut ConnectionType) {
    }
}

/// A configuration is documented exactly when the parameter entries of all
/// its messages name each parameter and its type by strings and all its
/// documents have string keys, whatever the number of messages, parameters
/// and documents.
pub proof fn law_documentable_exactly_when_named(c: Config)
    ensures
        documentable(c) <==> {
            &&& forall|j: int, b: int|
                0 <= j < c.interface_data_definition.data_def@.len() && 0 <= b
                    < c.interface_data_definition.data_def@[j].protocol_data_description@.len()
                    ==> match #[trigger] c.interface_data_definition.data_def@[j].protocol_data_description@[b] {
                    ProtocolDataDescription::mqtt_message(m) => string_pairs_only(m@.parameter),
                }
            &&& forall|j: int|
                0 <= j < c.setup.entries@.len() ==> match #[trigger] c.setup.entries@[j] {
                    SetupCommand::init_mongodb(m) => forall|k: int|
                        0 <= k < m.data@.len() ==> string_keys_only(#[trigger] m.data@[k].document()),
                    _ => true,
                }
        },
{
    let defs = c.interface_data_definition.data_def@;
    let entries = c.setup.entries@;
    if documentable(c) {
        assert forall|j: int, b: int|
            0 <= j < defs.len() && 0 <= b < defs[j].protocol_data_description@.len() implies match #[trigger] defs[j].protocol_data_description@[b] {
            ProtocolDataDescription::mqtt_message(m) => string_pairs_only(m@.parameter),
        } by {
            assert(parameters_named(defs[j].protocol_data_description@));
        }
    }
}

} // verus!
