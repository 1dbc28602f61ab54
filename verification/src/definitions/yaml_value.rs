//! A YAML value as the test description holds it.

use vstd::prelude::*;

verus! {

/// A YAML value. A number is held twice as text: `text` as `serde_yaml`
/// writes the number, and `float_text` as its value taken as an `f64` is
/// written; the documentation shows `float_text`.
pub enum YamlValue {
    Null,
    Bool(bool),
    Number { text: String, float_text: String },
    String(String),
    Sequence(Vec<YamlValue>),
    Mapping(Vec<(YamlValue, YamlValue)>),
}

impl YamlValue {
    /// The entries of a mapping, `None` for any other value.
    pub open spec fn mapping_of(self) -> Option<Seq<(YamlValue, YamlValue)>> {
        match self {
            YamlValue::Mapping(entries) => Some(entries@),
            _ => None,
        }
    }

    /// The text of a string value, `None` for any other value.
    pub open spec fn str_of(self) -> Option<Seq<char>> {
        match self {
            YamlValue::String(s) => Some(s@),
            _ => None,
        }
    }

    /// The entries of a mapping, `None` for any other value.
    pub fn as_mapping(&self) -> (r: Option<&Vec<(YamlValue, YamlValue)>>)
        ensures
            match r {
                Some(entries) => self.mapping_of() == Some(entries@),
                None => self.mapping_of() is None,
            },
    {
        match self {
            YamlValue::Mapping(entries) => Some(entries),
            _ => None,
        }
    }

    /// The text of a string value, `None` for any other value.
    pub fn as_str(&self) -> (r: Option<&String>)
        ensures
            match r {
                Some(s) => self.str_of() == Some(s@),
                None => self.str_of() is None,
            },
    {
        match self {
            YamlValue::String(s) => Some(s),
            _ => None,
        }
    }
}

/// Every entry of every mapping among `items` has a string key and a string value.
pub open spec fn string_pairs_only(items: Seq<YamlValue>) -> bool {
    forall|i: int, j: int|
        0 <= i < items.len() && items[i].mapping_of() is Some
            && 0 <= j < items[i].mapping_of().unwrap().len() ==> {
            &&& (#[trigger] items[i].mapping_of().unwrap()[j]).0.str_of() is Some
            &&& items[i].mapping_of().unwrap()[j].1.str_of() is Some
        }
}

/// The (key, value) texts of the entries of the mappings among `items`, in
/// order; values that are not mappings contribute nothing.
pub open spec fn string_pairs(items: Seq<YamlValue>) -> Seq<(Seq<char>, Seq<char>)>
    decreases items.len(),
{
    if items.len() == 0 {
        seq![]
    } else {
        let last = items.last();
        let pairs = match last.mapping_of() {
            Some(entries) => entries.map_values(
                |e: (YamlValue, YamlValue)| (e.0.str_of().unwrap(), e.1.str_of().unwrap()),
            ),
            None => seq![],
        };
        string_pairs(items.drop_last()) + pairs
    }
}

} // verus!
