//! The whole test description.

use vstd::prelude::*;

use crate::definitions::interface_data_definition::{interface_data_walk, InterfaceDataDefinition};
use crate::definitions::setup_definition::{setup_taken, setup_walk, Setup};
use crate::definitions::test_definition::TestDefinition;
use crate::definitions::Visitor;

verus! {

/// A test description: its name and description, the interfaces of the
/// system under test, the environment to set up and the test runs.
pub struct Config {
    pub name: String,
    pub description: String,
    pub interface_data_definition: InterfaceDataDefinition,
    pub setup: Setup,
    pub test: TestDefinition,
}

/// A pass over the configuration that goes through the visitor `v1` and
/// the configuration `c1` after its own visit, and through the visitor `v2`
/// after its interfaces: the configuration is visited, then its interfaces,
/// then its setup; its name, its description and its test runs are left as
/// the visit left them.
pub open spec fn config_walk_via<V: Visitor>(
    v0: V,
    c0: Config,
    v1: V,
    c1: Config,
    v2: V,
    v3: V,
    c3: Config,
) -> bool {
    &&& v0.config_step(c0, v1, c1)
    &&& interface_data_walk(v1, c1.interface_data_definition, v2, c3.interface_data_definition)
    &&& setup_walk(v2, c1.setup, v3, c3.setup)
    &&& c3.name == c1.name
    &&& c3.description == c1.description
    &&& c3.test == c1.test
}

/// Whether the visitor `v0` can take the interfaces and the documents of the
/// configuration, as its visit of the configuration leaves them.
pub open spec fn config_taken<V: Visitor>(v0: V, c: Config) -> bool {
    forall|v1: V, c1: Config|
        #[trigger] v0.config_step(c, v1, c1) ==> V::takes_interface_data(c1.interface_data_definition)
            && setup_taken::<V>(c1.setup)
}

/// A pass over the configuration, from the visitor `v0` and the
/// configuration `c0` to `v3` and `c3`.
pub open spec fn config_walk<V: Visitor>(v0: V, c0: Config, v3: V, c3: Config) -> bool {
    exists|v1: V, c1: Config, v2: V| config_walk_via(v0, c0, v1, c1, v2, v3, c3)
}

impl Config {
    /// Visits the configuration, then its interfaces, then its setup. The
    /// test runs are not visited from here.
    pub fn accept<V: Visitor>(&mut self, visitor: &mut V)
        requires
            config_taken(*old(visitor), *old(self)),
        ensures
            config_walk(*old(visitor), *old(self), *final(visitor), *final(self)),
    {
        visitor.visit_config(self);
        let ghost v1 = *visitor;
        let ghost c1 = *self;
        self.interface_data_definition.accept(visitor);
        let ghost v2 = *visitor;
        self.setup.accept(visitor);
        assert(config_walk_via(*old(visitor), *old(self), v1, c1, v2, *visitor, *self));
    }
}

} // verus!
