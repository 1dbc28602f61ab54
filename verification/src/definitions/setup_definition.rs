//! The environment a test needs: databases, their data and broker connections.

use vstd::prelude::*;

use crate::definitions::interface_data_definition::ConnectionType;
use crate::definitions::yaml_value::YamlValue;
use crate::definitions::{is_run, items_walk, Visitor};

verus! {

/// A MongoDB server to start in a Docker container.
pub struct CreateDockerMongoDbCmd {
    pub host: String,
    pub port: String,
    pub user: String,
    pub password: String,
    pub database: String,
    pub docker_host: Option<String>,
    pub docker_port: Option<String>,
    pub docker_id: Option<String>,
    pub name: String,
}

impl CreateDockerMongoDbCmd {
    /// Visits the command.
    pub fn accept<V: Visitor>(&mut self, visitor: &mut V)
        ensures
            old(visitor).create_docker_mongo_step(*old(self), *final(visitor), *final(self)),
    {
        visitor.visit_create_docker_mongo(self);
    }
}

/// One document to put into a collection.
pub struct DataEntry {
    data_entry: YamlValue,
}

/// A value whose mapping entries, if it is a mapping, all have string keys.
pub open spec fn string_keys_only(v: YamlValue) -> bool {
    match v.mapping_of() {
        Some(entries) => forall|j: int|
            0 <= j < entries.len() ==> (#[trigger] entries[j]).0.str_of() is Some,
        None => true,
    }
}

/// Whether the keys of `v`, if it is a mapping, are all strings.
pub fn has_string_keys(v: &YamlValue) -> (r: bool)
    ensures
        r == string_keys_only(*v),
{
    match v.as_mapping() {
        Some(entries) => {
            let mut j: usize = 0;
            while j < entries.len()
                invariant
                    j <= entries.len(),
                    v.mapping_of() == Some(entries@),
                    forall|b: int| 0 <= b < j ==> (#[trigger] entries@[b]).0.str_of() is Some,
                decreases entries.len() - j,
            {
                if entries[j].0.as_str().is_none() {
                    return false;
                }
                j = j + 1;
            }
            true
        },
        None => true,
    }
}

impl DataEntry {
    /// The document held by this entry.
    pub closed spec fn document(self) -> YamlValue {
        self.data_entry
    }

    /// The entry for `data_entry`.
    pub fn new(data_entry: YamlValue) -> (r: DataEntry)
        ensures
            r.document() == data_entry,
    {
        DataEntry { data_entry }
    }

    pub fn data_entry(&self) -> (r: &YamlValue)
        ensures
            *r == self.document(),
    {
        &self.data_entry
    }

    /// Visits the document.
    pub fn accept<V: Visitor>(&mut self, visitor: &mut V)
        requires
            V::takes_data_entry(*old(self)),
        ensures
            old(visitor).data_entry_step(*old(self), *final(visitor), *final(self)),
    {
        visitor.visit_data_entry(self);
    }
}

/// The visit of one document, as a relation to run over a list of them.
pub open spec fn data_entry_steps<V: Visitor>() -> spec_fn(V, DataEntry, V, DataEntry) -> bool {
    |a: V, x: DataEntry, b: V, y: DataEntry| a.data_entry_step(x, b, y)
}

/// A collection to fill with documents, on the database server named `name`.
pub struct InitMongoDbCmd {
    pub name: String,
    pub database: String,
    pub collection: String,
    pub data: Vec<DataEntry>,
}

/// A pass over a command to fill a collection that goes through the visitor
/// `v1` and the command `d1`: the command is visited, then each of its
/// documents in order; its other fields are left as the visit left them.
pub open spec fn init_mongo_walk_via<V: Visitor>(
    v0: V,
    d0: InitMongoDbCmd,
    v1: V,
    d1: InitMongoDbCmd,
    v2: V,
    d2: InitMongoDbCmd,
) -> bool {
    &&& v0.init_mongo_step(d0, v1, d1)
    &&& items_walk(v1, d1.data@, v2, d2.data@, data_entry_steps::<V>())
    &&& d2.name == d1.name
    &&& d2.database == d1.database
    &&& d2.collection == d1.collection
}

/// Whether the visitor can take every document of the command, as any visit
/// of the command leaves it.
pub open spec fn init_mongo_taken<V: Visitor>(c: InitMongoDbCmd) -> bool {
    forall|v0: V, v1: V, c1: InitMongoDbCmd|
        #[trigger] v0.init_mongo_step(c, v1, c1) ==> forall|j: int|
            0 <= j < c1.data@.len() ==> #[trigger] V::takes_data_entry(c1.data@[j])
}

/// A pass over a command to fill a collection, from the visitor `v0` and
/// the command `d0` to `v2` and `d2`.
pub open spec fn init_mongo_walk<V: Visitor>(
    v0: V,
    d0: InitMongoDbCmd,
    v2: V,
    d2: InitMongoDbCmd,
) -> bool {
    exists|v1: V, d1: InitMongoDbCmd| init_mongo_walk_via(v0, d0, v1, d1, v2, d2)
}

impl InitMongoDbCmd {
    /// Visits the command, then each of its documents in order.
    pub fn accept<V: Visitor>(&mut self, visitor: &mut V)
        requires
            init_mongo_taken::<V>(*old(self)),
        ensures
            init_mongo_walk(*old(visitor), *old(self), *final(visitor), *final(self)),
    {
        visitor.visit_init_mongo(self);
        let ghost v1 = *visitor;
        let ghost d1 = *self;
        let ghost mut states: Seq<V> = seq![v1];
        let n = self.data.len();
        let mut i: usize = 0;
        while i < n
            invariant
                n == self.data.len(),
                n == d1.data@.len(),
                i <= n,
                states.len() == i + 1,
                states[0] == v1,
                states[i as int] == *visitor,
                forall|j: int|
                    #![trigger d1.data@[j]]
                    0 <= j < i ==> states[j].data_entry_step(d1.data@[j], states[j + 1], self.data@[j]),
                forall|j: int| i <= j < n ==> self.data@[j] == d1.data@[j],
                forall|j: int| 0 <= j < n ==> #[trigger] V::takes_data_entry(d1.data@[j]),
                self.name == d1.name,
                self.database == d1.database,
                self.collection == d1.collection,
            decreases n - i,
        {
            assert(V::takes_data_entry(d1.data@[i as int]));
            self.data[i].accept(visitor);
            proof {
                states = states.push(*visitor);
            }
            i = i + 1;
        }
        assert(is_run(states, v1, d1.data@, *visitor, self.data@, data_entry_steps::<V>()));
        assert(init_mongo_walk_via(*old(visitor), *old(self), v1, d1, *visitor, *self));
    }
}

/// A message broker to start, reachable at `host`:`port`.
pub struct ConnectionCmd {
    pub name: String,
    pub connection_type: ConnectionType,
    pub host: String,
    pub port: String,
}

impl ConnectionCmd {
    /// Visits the command.
    pub fn accept<V: Visitor>(&mut self, visitor: &mut V)
        ensures
            old(visitor).connection_step(*old(self), *final(visitor), *final(self)),
    {
        visitor.visit_connection_def(self);
    }
}

/// One step of the setup.
#[allow(non_camel_case_types)]
pub enum SetupCommand {
    create_docker_mongodb(CreateDockerMongoDbCmd),
    init_mongodb(InitMongoDbCmd),
    connection(ConnectionCmd),
}

/// Whether the visitor can take the documents of a setup step.
pub open spec fn setup_command_taken<V: Visitor>(c: SetupCommand) -> bool {
    match c {
        SetupCommand::init_mongodb(m) => init_mongo_taken::<V>(m),
        _ => true,
    }
}

/// A pass over one setup step: the command it holds accepts the visitor.
pub open spec fn setup_command_walk<V: Visitor>(
    v0: V,
    d0: SetupCommand,
    v1: V,
    d1: SetupCommand,
) -> bool {
    match (d0, d1) {
        (
            SetupCommand::create_docker_mongodb(c0),
            SetupCommand::create_docker_mongodb(c1),
        ) => v0.create_docker_mongo_step(c0, v1, c1),
        (SetupCommand::init_mongodb(c0), SetupCommand::init_mongodb(c1)) => init_mongo_walk(
            v0,
            c0,
            v1,
            c1,
        ),
        (SetupCommand::connection(c0), SetupCommand::connection(c1)) => v0.connection_step(
            c0,
            v1,
            c1,
        ),
        _ => false,
    }
}

/// The pass over one setup step, as a relation to run over a list of them.
pub open spec fn setup_command_walks<V: Visitor>() -> spec_fn(V, SetupCommand, V, SetupCommand) -> bool {
    |a: V, x: SetupCommand, b: V, y: SetupCommand| setup_command_walk(a, x, b, y)
}

impl SetupCommand {
    /// Lets the command it holds accept the visitor.
    pub fn accept<V: Visitor>(&mut self, visitor: &mut V)
        requires
            setup_command_taken::<V>(*old(self)),
        ensures
            setup_command_walk(*old(visitor), *old(self), *final(visitor), *final(self)),
    {
        match self {
            SetupCommand::create_docker_mongodb(value) => {
                value.accept(visitor);
            },
            SetupCommand::init_mongodb(value) => {
                value.accept(visitor);
            },
            SetupCommand::connection(value) => {
                value.accept(visitor);
            },
        }
    }
}

/// The setup steps, in the order they are carried out.
pub struct Setup {
    pub entries: Vec<SetupCommand>,
}

/// A pass over the setup that goes through the visitor `v1` and the setup
/// `d1`: the setup is visited, then each step in order.
pub open spec fn setup_walk_via<V: Visitor>(
    v0: V,
    d0: Setup,
    v1: V,
    d1: Setup,
    v2: V,
    d2: Setup,
) -> bool {
    &&& v0.setup_step(d0, v1, d1)
    &&& items_walk(v1, d1.entries@, v2, d2.entries@, setup_command_walks::<V>())
}

/// Whether the visitor can take the documents of every step of the setup,
/// as any visit of the setup leaves it.
pub open spec fn setup_taken<V: Visitor>(s: Setup) -> bool {
    forall|v0: V, v1: V, s1: Setup|
        #[trigger] v0.setup_step(s, v1, s1) ==> forall|j: int|
            0 <= j < s1.entries@.len() ==> #[trigger] setup_command_taken::<V>(s1.entries@[j])
}

/// A pass over the setup, from the visitor `v0` and the setup `d0` to `v2`
/// and `d2`.
pub open spec fn setup_walk<V: Visitor>(v0: V, d0: Setup, v2: V, d2: Setup) -> bool {
    exists|v1: V, d1: Setup| setup_walk_via(v0, d0, v1, d1, v2, d2)
}

impl Setup {
    /// Visits the setup, then each step in order.
    pub fn accept<V: Visitor>(&mut self, visitor: &mut V)
        requires
            setup_taken::<V>(*old(self)),
        ensures
            setup_walk(*old(visitor), *old(self), *final(visitor), *final(self)),
    {
        visitor.visit_setup_def(self);
        let ghost v1 = *visitor;
        let ghost d1 = *self;
        let ghost mut states: Seq<V> = seq![v1];
        let n = self.entries.len();
        let mut i: usize = 0;
        while i < n
            invariant
                n == self.entries.len(),
                n == d1.entries@.len(),
                i <= n,
                states.len() == i + 1,
                states[0] == v1,
                states[i as int] == *visitor,
                forall|j: int|
                    #![trigger d1.entries@[j]]
                    0 <= j < i ==> setup_command_walk(states[j], d1.entries@[j], states[j + 1], self.entries@[j]),
                forall|j: int| i <= j < n ==> self.entries@[j] == d1.entries@[j],
                forall|j: int| 0 <= j < n ==> #[trigger] setup_command_taken::<V>(d1.entries@[j]),
            decreases n - i,
        {
            assert(setup_command_taken::<V>(d1.entries@[i as int]));
            self.entries[i].accept(visitor);
            proof {
                states = states.push(*visitor);
            }
            i = i + 1;
        }
        assert(is_run(states, v1, d1.entries@, *visitor, self.entries@, setup_command_walks::<V>()));
        assert(setup_walk_via(*old(visitor), *old(self), v1, d1, *visitor, *self));
    }
}

} // verus!
