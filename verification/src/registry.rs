//! Configuration registries: immutable mappings from language code to a
//! configuration value, each read once from a JSON resource.

use crate::json::{json_object, members, parse_object};
use vstd::hash_map::StringHashMap;
use vstd::prelude::*;

verus! {

/// The mapping that a sequence of members stands for: each key is mapped to
/// the value of the last member that carries it.
pub open spec fn mapping_of(entries: Seq<(Seq<char>, serde_json::Value)>) -> Map<
    Seq<char>,
    serde_json::Value,
>
    decreases entries.len(),
{
    if entries.len() == 0 {
        Map::empty()
    } else {
        mapping_of(entries.drop_last()).insert(entries.last().0, entries.last().1)
    }
}

/// The registry that a resource holds: the mapping of the members of its
/// JSON object, or `None` where the resource is no JSON object.
pub open spec fn registry_of(resource: Seq<u8>) -> Option<Map<Seq<char>, serde_json::Value>> {
    match json_object(resource) {
        Some(entries) => Some(mapping_of(entries)),
        None => None,
    }
}

/// What a lookup of `lang_code` in a mapping gives.
pub open spec fn lookup(
    mapping: Map<Seq<char>, serde_json::Value>,
    lang_code: Seq<char>,
) -> Option<serde_json::Value> {
    if mapping.contains_key(lang_code) {
        Some(mapping[lang_code])
    } else {
        None
    }
}

/// The value behind an optional reference.
pub open spec fn pointee(found: Option<&serde_json::Value>) -> Option<serde_json::Value> {
    match found {
        Some(value) => Some(*value),
        None => None,
    }
}

/// A code that no member carries is not a key of the mapping.
pub proof fn lemma_mapping_without(entries: Seq<(Seq<char>, serde_json::Value)>, code: Seq<char>)
    requires
        forall|i: int| 0 <= i < entries.len() ==> entries[i].0 != code,
    ensures
        !mapping_of(entries).contains_key(code),
    decreases entries.len(),
{
    if entries.len() > 0 {
        lemma_mapping_without(entries.drop_last(), code);
    }
}

/// The code of a member is a key of the mapping, and is mapped to the value
/// of that member unless a later member carries the same code.
pub proof fn lemma_mapping_with(entries: Seq<(Seq<char>, serde_json::Value)>, i: int)
    requires
        0 <= i < entries.len(),
    ensures
        mapping_of(entries).contains_key(entries[i].0),
        (forall|j: int| i < j < entries.len() ==> entries[j].0 != entries[i].0) ==> mapping_of(
            entries,
        )[entries[i].0] == entries[i].1,
    decreases entries.len(),
{
    if i < entries.len() - 1 {
        lemma_mapping_with(entries.drop_last(), i);
    }
}

/// Why a registry could not be built.
#[derive(Debug, PartialEq, Eq, Clone, Copy, Structural)]
pub enum ConfigError {
    /// The resource is no JSON object.
    Malformed,
}

/// An immutable mapping from language code to configuration value.
pub struct ConfigRegistry {
    configs: StringHashMap<serde_json::Value>,
}

impl View for ConfigRegistry {
    type V = Map<Seq<char>, serde_json::Value>;

    closed spec fn view(&self) -> Self::V {
        self.configs@
    }
}

impl ConfigRegistry {
    /// Builds the registry of the given entries. Where a code occurs more
    /// than once, its last entry counts.
    pub fn from_entries(entries: Vec<(String, serde_json::Value)>) -> (registry: Self)
        ensures
            registry@ == mapping_of(members(entries@)),
    {
        let ghost all = members(entries@);
        let mut configs: StringHashMap<serde_json::Value> = StringHashMap::new();
        for entry in it: entries.into_iter()
            invariant
                it.seq().len() == all.len(),
                forall|i: int| 0 <= i < all.len() ==> all[i] == (it.seq()[i].0@, it.seq()[i].1),
                configs@ == mapping_of(all.take(it.index() as int)),
        {
            proof {
                let n = it.index() as int;
                assert(all.take(n + 1).drop_last() == all.take(n));
            }
            configs.insert(entry.0, entry.1);
        }
        proof {
            assert(all.take(all.len() as int) == all);
        }
        ConfigRegistry { configs }
    }

    /// Reads a registry from a resource: a JSON object whose keys are
    /// language codes. Fails exactly where the resource is no JSON object.
    pub fn load(resource: &[u8]) -> (loaded: Result<Self, ConfigError>)
        ensures
            match loaded {
                Ok(registry) => registry_of(resource@) == Some(registry@),
                Err(error) => registry_of(resource@) is None && error == ConfigError::Malformed,
            },
    {
        match parse_object(resource) {
            Ok(entries) => Ok(Self::from_entries(entries)),
            Err(_) => Err(ConfigError::Malformed),
        }
    }

    /// Gets the configuration of a language code, if the registry has one.
    pub fn get<'a>(&'a self, lang_code: &str) -> (found: Option<&'a serde_json::Value>)
        ensures
            pointee(found) == lookup(self@, lang_code@),
    {
        self.configs.get(lang_code)
    }
}

} // verus!
