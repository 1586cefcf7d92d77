//! What holds of the catalog and of the registries, whatever the resources.

use crate::catalog::{lines_of, texts};
use crate::configs::LanguageConfigs;
use crate::json::json_object;
use crate::registry::{lemma_mapping_with, lemma_mapping_without, lookup};
use vstd::prelude::*;

verus! {

/// Listing the codes of one catalog text twice gives the same codes in the
/// same order.
pub proof fn law_catalog_is_deterministic(text: Seq<char>, first: Seq<&str>, second: Seq<&str>)
    requires
        texts(first) == lines_of(text),
        texts(second) == lines_of(text),
    ensures
        first.len() == second.len(),
        forall|i: int| 0 <= i < first.len() ==> first[i]@ == second[i]@,
{
    assert(texts(first).len() == first.len());
    assert(texts(second).len() == second.len());
    assert forall|i: int| 0 <= i < first.len() implies first[i]@ == second[i]@ by {
        assert(texts(first)[i] == first[i]@);
        assert(texts(second)[i] == second[i]@);
    }
}

/// A code that a member of the tokenizer resource carries is found in the
/// tokenizer registry, with the value that reading the resource gives for
/// it: the value of the last member that carries the code.
pub proof fn law_tokenizer_lookup_agrees(
    configs: LanguageConfigs,
    tokenizer_resource: Seq<u8>,
    rules_resource: Seq<u8>,
    i: int,
)
    requires
        configs.holds(tokenizer_resource, rules_resource),
        json_object(tokenizer_resource) is Some,
        0 <= i < json_object(tokenizer_resource)->0.len(),
        forall|j: int|
            i < j < json_object(tokenizer_resource)->0.len() ==> json_object(
                tokenizer_resource,
            )->0[j].0 != json_object(tokenizer_resource)->0[i].0,
    ensures
        configs.tokenizer() is Some,
        lookup(configs.tokenizer()->0, json_object(tokenizer_resource)->0[i].0) == Some(
            json_object(tokenizer_resource)->0[i].1,
        ),
{
    lemma_mapping_with(json_object(tokenizer_resource)->0, i);
}

/// A code that a member of the rules resource carries is found in the rules
/// registry, with the value that reading the resource gives for it: the
/// value of the last member that carries the code.
pub proof fn law_rules_lookup_agrees(
    configs: LanguageConfigs,
    tokenizer_resource: Seq<u8>,
    rules_resource: Seq<u8>,
    i: int,
)
    requires
        configs.holds(tokenizer_resource, rules_resource),
        json_object(rules_resource) is Some,
        0 <= i < json_object(rules_resource)->0.len(),
        forall|j: int|
            i < j < json_object(rules_resource)->0.len() ==> json_object(rules_resource)->0[j].0
                != json_object(rules_resource)->0[i].0,
    ensures
        configs.rules() is Some,
        lookup(configs.rules()->0, json_object(rules_resource)->0[i].0) == Some(
            json_object(rules_resource)->0[i].1,
        ),
{
    lemma_mapping_with(json_object(rules_resource)->0, i);
}

/// A code that no member of either resource carries is found in neither
/// registry.
pub proof fn law_unknown_code_is_absent(
    configs: LanguageConfigs,
    tokenizer_resource: Seq<u8>,
    rules_resource: Seq<u8>,
    code: Seq<char>,
)
    requires
        configs.holds(tokenizer_resource, rules_resource),
        json_object(tokenizer_resource) is Some,
        json_object(rules_resource) is Some,
        forall|i: int|
            0 <= i < json_object(tokenizer_resource)->0.len() ==> json_object(
                tokenizer_resource,
            )->0[i].0 != code,
        forall|i: int|
            0 <= i < json_object(rules_resource)->0.len() ==> json_object(rules_resource)->0[i].0
                != code,
    ensures
        lookup(configs.tokenizer()->0, code) is None,
        lookup(configs.rules()->0, code) is None,
{
    lemma_mapping_without(json_object(tokenizer_resource)->0, code);
    lemma_mapping_without(json_object(rules_resource)->0, code);
}

/// Each registry depends on its own resource alone: with the same rules
/// resource the rules registries are the same, whatever the tokenizer
/// resources hold, and the other way round.
pub proof fn law_registries_are_independent(
    first: LanguageConfigs,
    second: LanguageConfigs,
    first_tokenizer: Seq<u8>,
    first_rules: Seq<u8>,
    second_tokenizer: Seq<u8>,
    second_rules: Seq<u8>,
)
    requires
        first.holds(first_tokenizer, first_rules),
        second.holds(second_tokenizer, second_rules),
    ensures
        first_rules == second_rules ==> first.rules() == second.rules(),
        first_tokenizer == second_tokenizer ==> first.tokenizer() == second.tokenizer(),
{
}

} // verus!
