//! The values a test run keeps by name while it runs.

use vstd::prelude::*;

use crate::named_table::NamedTable;

verus! {

/// A value of a test run. A number is held by the bits of its `f64` value.
pub enum RunTimeData {
    Number(u64),
    String(String),
    Bool(bool),
}

/// The values of a test run, by name.
pub struct RuntimeEnvironment {
    pub environment: NamedTable<RunTimeData>,
}

impl View for RuntimeEnvironment {
    type V = Map<Seq<char>, RunTimeData>;

    open spec fn view(&self) -> Map<Seq<char>, RunTimeData> {
        self.environment@
    }
}

impl RuntimeEnvironment {
    /// An environment without values.
    pub fn new() -> (r: RuntimeEnvironment)
        ensures
            r@ == Map::<Seq<char>, RunTimeData>::empty(),
    {
        RuntimeEnvironment { environment: NamedTable::new() }
    }

    /// Keeps `data` under `key`, in place of any value of that name.
    pub fn insert(&mut self, key: String, data: RunTimeData)
        ensures
            final(self)@ == old(self)@.insert(key@, data),
    {
        self.environment.insert(key, data);
    }

    /// The value named `key`, if there is one.
    pub fn get(&self, key: &String) -> (r: Option<&RunTimeData>)
        ensures
            r matches Some(d) ==> self@.contains_key(key@) && self@[key@] == *d,
            r is None ==> !self@.contains_key(key@),
    {
        self.environment.get(key)
    }
}

} // verus!
