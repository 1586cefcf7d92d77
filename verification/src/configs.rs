//! The language configuration of a build: the tokenizer registry and the
//! rules registry, each read from a resource of its own.

use crate::registry::{lookup, pointee, registry_of, ConfigError, ConfigRegistry};
use vstd::prelude::*;

verus! {

/// The two registries. Each is read on its own: a resource that cannot be
/// read leaves its registry missing and the other one untouched.
pub struct LanguageConfigs {
    tokenizer: Option<ConfigRegistry>,
    rules: Option<ConfigRegistry>,
}

/// The view of an optional registry.
pub open spec fn mapping(registry: Option<ConfigRegistry>) -> Option<
    Map<Seq<char>, serde_json::Value>,
> {
    match registry {
        Some(registry) => Some(registry@),
        None => None,
    }
}

/// Reads one registry, and keeps nothing where the resource cannot be read.
fn read(resource: &[u8]) -> (registry: Option<ConfigRegistry>)
    ensures
        mapping(registry) == registry_of(resource@),
{
    match ConfigRegistry::load(resource) {
        Ok(registry) => Some(registry),
        Err(_) => None,
    }
}

impl LanguageConfigs {
    /// The tokenizer registry, or `None` where its resource could not be read.
    pub closed spec fn tokenizer(&self) -> Option<Map<Seq<char>, serde_json::Value>> {
        mapping(self.tokenizer)
    }

    /// The rules registry, or `None` where its resource could not be read.
    pub closed spec fn rules(&self) -> Option<Map<Seq<char>, serde_json::Value>> {
        mapping(self.rules)
    }

    /// Says that the registries are those of the two resources.
    pub open spec fn holds(&self, tokenizer_resource: Seq<u8>, rules_resource: Seq<u8>) -> bool {
        &&& self.tokenizer() == registry_of(tokenizer_resource)
        &&& self.rules() == registry_of(rules_resource)
    }

    /// Reads both registries, each from its own resource.
    pub fn load(tokenizer_resource: &[u8], rules_resource: &[u8]) -> (configs: Self)
        ensures
            configs.holds(tokenizer_resource@, rules_resource@),
    {
        LanguageConfigs { tokenizer: read(tokenizer_resource), rules: read(rules_resource) }
    }

    /// Says whether the tokenizer resource could be read.
    pub fn has_tokenizer(&self) -> (ready: bool)
        ensures
            ready == self.tokenizer() is Some,
    {
        self.tokenizer.is_some()
    }

    /// Says whether the rules resource could be read.
    pub fn has_rules(&self) -> (ready: bool)
        ensures
            ready == self.rules() is Some,
    {
        self.rules.is_some()
    }
}

/// Gets the tokenizer language options for the language code. The tokenizer
/// resource must have been readable.
pub fn tokenizer_options<'a>(configs: &'a LanguageConfigs, lang_code: &str) -> (found: Option<
    &'a serde_json::Value,
>)
    requires
        configs.tokenizer() is Some,
    ensures
        pointee(found) == lookup(configs.tokenizer()->0, lang_code@),
{
    match &configs.tokenizer {
        Some(registry) => registry.get(lang_code),
        None => None,
    }
}

/// Gets the rules language options for the language code. The rules resource
/// must have been readable.
pub fn rules_options<'a>(configs: &'a LanguageConfigs, lang_code: &str) -> (found: Option<
    &'a serde_json::Value,
>)
    requires
        configs.rules() is Some,
    ensures
        pointee(found) == lookup(configs.rules()->0, lang_code@),
{
    match &configs.rules {
        Some(registry) => registry.get(lang_code),
        None => None,
    }
}

/// Gets the tokenizer language options for the language code, or the error
/// where the tokenizer resource could not be read.
pub fn try_tokenizer_options<'a>(configs: &'a LanguageConfigs, lang_code: &str) -> (found: Result<
    Option<&'a serde_json::Value>,
    ConfigError,
>)
    ensures
        match found {
            Ok(found) => configs.tokenizer() is Some && pointee(found) == lookup(
                configs.tokenizer()->0,
                lang_code@,
            ),
            Err(error) => configs.tokenizer() is None && error == ConfigError::Malformed,
        },
{
    if configs.has_tokenizer() {
        Ok(tokenizer_options(configs, lang_code))
    } else {
        Err(ConfigError::Malformed)
    }
}

/// Gets the rules language options for the language code, or the error where
/// the rules resource could not be read.
pub fn try_rules_options<'a>(configs: &'a LanguageConfigs, lang_code: &str) -> (found: Result<
    Option<&'a serde_json::Value>,
    ConfigError,
>)
    ensures
        match found {
            Ok(found) => configs.rules() is Some && pointee(found) == lookup(
                configs.rules()->0,
                lang_code@,
            ),
            Err(error) => configs.rules() is None && error == ConfigError::Malformed,
        },
{
    if configs.has_rules() {
        Ok(rules_options(configs, lang_code))
    } else {
        Err(ConfigError::Malformed)
    }
}

} // verus!
