//! The test description: interface data definitions, the setup of the test
//! environment and the test runs, with the visitor that walks them.

use vstd::prelude::*;

pub mod interface_data_definition;
pub mod program_configuration;
pub mod setup_definition;
pub mod test_definition;
pub mod yaml_value;

use crate::definitions::interface_data_definition::{
    ConnectionType, Definition, InterfaceDataDefinition, MqttMessage, ProtocolDataDescription,
};
use crate::definitions::program_configuration::Config;
use crate::definitions::setup_definition::{
    ConnectionCmd, CreateDockerMongoDbCmd, DataEntry, InitMongoDbCmd, Setup, SetupCommand,
};
use crate::definitions::test_definition::{
    IsEqualDefintion, RecvMqttDefinition, RegexDefinition, RunDefinition, SendMqttDefinition,
    TestDefinition,
};

verus! {

/// A pass over the test description. Each `accept` method calls the visit
/// method of its node and then lets its children accept the visitor.
///
/// Every visit method is described by a step relation between the visitor
/// and the node before the call and after it. A visitor that leaves a node
/// alone keeps the default step, which changes neither; one that handles
/// the node states what its visit does by giving the step of its own.
///
/// A visitor that can handle only some interface definitions, documents or
/// messages says which by the `takes_` relations; by default it takes all.
pub trait Visitor: Sized {
    /// The interface definitions `visit_interface_data_def` can handle.
    open spec fn takes_interface_data(def: InterfaceDataDefinition) -> bool {
        true
    }

    /// The documents `visit_data_entry` can handle.
    open spec fn takes_data_entry(def: DataEntry) -> bool {
        true
    }

    /// The messages `visit_mqtt_message_def` can handle.
    open spec fn takes_mqtt_message(def: MqttMessage) -> bool {
        true
    }

    /// What `visit_config` does.
    open spec fn config_step(self, def: Config, after: Self, def_after: Config) -> bool {
        after == self && def_after == def
    }

    /// What `visit_test_def` does.
    open spec fn test_def_step(self, def: TestDefinition, after: Self, def_after: TestDefinition) -> bool {
        after == self && def_after == def
    }

    /// What `visit_run_def` does.
    open spec fn run_def_step(self, def: RunDefinition, after: Self, def_after: RunDefinition) -> bool {
        after == self && def_after == def
    }

    /// What `visit_send_mqtt_def` does.
    open spec fn send_mqtt_step(self, def: SendMqttDefinition, after: Self, def_after: SendMqttDefinition) -> bool {
        after == self && def_after == def
    }

    /// What `visit_recv_mqtt_dev` does.
    open spec fn recv_mqtt_step(self, def: RecvMqttDefinition, after: Self, def_after: RecvMqttDefinition) -> bool {
        after == self && def_after == def
    }

    /// What `visit_is_equal_def` does.
    open spec fn is_equal_step(self, def: IsEqualDefintion, after: Self, def_after: IsEqualDefintion) -> bool {
        after == self && def_after == def
    }

    /// What `visit_regex_def` does.
    open spec fn regex_step(self, def: RegexDefinition, after: Self, def_after: RegexDefinition) -> bool {
        after == self && def_after == def
    }

    /// What `visit_create_docker_mongo` does.
    open spec fn create_docker_mongo_step(self, def: CreateDockerMongoDbCmd, after: Self, def_after: CreateDockerMongoDbCmd) -> bool {
        after == self && def_after == def
    }

    /// What `visit_data_entry` does.
    open spec fn data_entry_step(self, def: DataEntry, after: Self, def_after: DataEntry) -> bool {
        after == self && def_after == def
    }

    /// What `visit_init_mongo` does.
    open spec fn init_mongo_step(self, def: InitMongoDbCmd, after: Self, def_after: InitMongoDbCmd) -> bool {
        after == self && def_after == def
    }

    /// What `visit_connection_def` does.
    open spec fn connection_step(self, def: ConnectionCmd, after: Self, def_after: ConnectionCmd) -> bool {
        after == self && def_after == def
    }

    /// What `visit_setup_command_def` does.
    open spec fn setup_command_step(self, def: SetupCommand, after: Self, def_after: SetupCommand) -> bool {
        after == self && def_after == def
    }

    /// What `visit_setup_def` does.
    open spec fn setup_step(self, def: Setup, after: Self, def_after: Setup) -> bool {
        after == self && def_after == def
    }

    /// What `visit_definition` does.
    open spec fn definition_step(self, def: Definition, after: Self, def_after: Definition) -> bool {
        after == self && def_after == def
    }

    /// What `visit_interface_data_def` does.
    open spec fn interface_data_step(self, def: InterfaceDataDefinition, after: Self, def_after: InterfaceDataDefinition) -> bool {
        after == self && def_after == def
    }

    /// What `visit_protocol_data_description_def` does.
    open spec fn protocol_data_description_step(self, def: ProtocolDataDescription, after: Self, def_after: ProtocolDataDescription) -> bool {
        after == self && def_after == def
    }

    /// What `visit_mqtt_message_def` does.
    open spec fn mqtt_message_step(self, def: MqttMessage, after: Self, def_after: MqttMessage) -> bool {
        after == self && def_after == def
    }

    /// What `visit_connection_type_def` does.
    open spec fn connection_type_step(self, def: ConnectionType, after: Self, def_after: ConnectionType) -> bool {
        after == self && def_after == def
    }

    fn visit_config(&mut self, config: &mut Config)
        ensures
            old(self).config_step(*old(config), *final(self), *final(config)),
    ;

    fn visit_test_def(&mut self, def: &mut TestDefinition)
        ensures
            old(self).test_def_step(*old(def), *final(self), *final(def)),
    ;

    fn visit_run_def(&mut self, def: &mut RunDefinition)
        ensures
            old(self).run_def_step(*old(def), *final(self), *final(def)),
    ;

    fn visit_send_mqtt_def(&mut self, def: &mut SendMqttDefinition)
        ensures
            old(self).send_mqtt_step(*old(def), *final(self), *final(def)),
    ;

    fn visit_recv_mqtt_dev(&mut self, def: &mut RecvMqttDefinition)
        ensures
            old(self).recv_mqtt_step(*old(def), *final(self), *final(def)),
    ;

    fn visit_is_equal_def(&mut self, def: &mut IsEqualDefintion)
        ensures
            old(self).is_equal_step(*old(def), *final(self), *final(def)),
    ;

    fn visit_regex_def(&mut self, def: &mut RegexDefinition)
        ensures
            old(self).regex_step(*old(def), *final(self), *final(def)),
    ;

    fn visit_create_docker_mongo(&mut self, def: &mut CreateDockerMongoDbCmd)
        ensures
            old(self).create_docker_mongo_step(*old(def), *final(self), *final(def)),
    ;

    fn visit_data_entry(&mut self, def: &mut DataEntry)
        requires
            Self::takes_data_entry(*old(def)),
        ensures
            old(self).data_entry_step(*old(def), *final(self), *final(def)),
    ;

    fn visit_init_mongo(&mut self, def: &mut InitMongoDbCmd)
        ensures
            old(self).init_mongo_step(*old(def), *final(self), *final(def)),
    ;

    fn visit_connection_def(&mut self, def: &mut ConnectionCmd)
        ensures
            old(self).connection_step(*old(def), *final(self), *final(def)),
    ;

    fn visit_setup_command_def(&mut self, def: &mut SetupCommand)
        ensures
            old(self).setup_command_step(*old(def), *final(self), *final(def)),
    ;

    fn visit_setup_def(&mut self, def: &mut Setup)
        ensures
            old(self).setup_step(*old(def), *final(self), *final(def)),
    ;

    fn visit_definition(&mut self, def: &mut Definition)
        ensures
            old(self).definition_step(*old(def), *final(self), *final(def)),
    ;

    fn visit_interface_data_def(&mut self, def: &mut InterfaceDataDefinition)
        requires
            Self::takes_interface_data(*old(def)),
        ensures
            old(self).interface_data_step(*old(def), *final(self), *final(def)),
    ;

    fn visit_protocol_data_description_def(&mut self, def: &mut ProtocolDataDescription)
        ensures
            old(self).protocol_data_description_step(*old(def), *final(self), *final(def)),
    ;

    fn visit_mqtt_message_def(&mut self, def: &mut MqttMessage)
        requires
            Self::takes_mqtt_message(*old(def)),
        ensures
            old(self).mqtt_message_step(*old(def), *final(self), *final(def)),
    ;

    fn visit_connection_type_def(&mut self, def: &mut ConnectionType)
        ensures
            old(self).connection_type_step(*old(def), *final(self), *final(def)),
    ;
}

/// `states` are the visitors of a pass over the items `xs`, from `v0` to
/// `v1`: item `j` takes the visitor from `states[j]` to `states[j + 1]`
/// while it goes itself from `xs[j]` to `ys[j]`, as `step` relates them.
pub open spec fn is_run<V, T>(
    states: Seq<V>,
    v0: V,
    xs: Seq<T>,
    v1: V,
    ys: Seq<T>,
    step: spec_fn(V, T, V, T) -> bool,
) -> bool {
    &&& states.len() == xs.len() + 1
    &&& ys.len() == xs.len()
    &&& states[0] == v0
    &&& states[xs.len() as int] == v1
    &&& forall|j: int| #![trigger xs[j]] 0 <= j < xs.len() ==> step(states[j], xs[j], states[j + 1], ys[j])
}

/// A pass over the items `xs`, one after the other in order, takes the
/// visitor from `v0` to `v1` and leaves the items as `ys`.
pub open spec fn items_walk<V, T>(
    v0: V,
    xs: Seq<T>,
    v1: V,
    ys: Seq<T>,
    step: spec_fn(V, T, V, T) -> bool,
) -> bool {
    exists|states: Seq<V>| is_run(states, v0, xs, v1, ys, step)
}

} // verus!
