//! YAML documents as `serde_yaml` holds them, and what is known of them here.
//!
//! A mapping is described by its entries under string keys; a value by what
//! it holds once its tags are taken off. Everything below is believed of
//! `serde_yaml`, not proved.

use vstd::prelude::*;

verus! {

/// `serde_yaml::Mapping`: an ordered map from YAML values to YAML values.
#[verifier::external_type_specification]
#[verifier::external_body]
pub struct ExMapping(serde_yaml::Mapping);

/// `serde_yaml::Value`: any YAML node.
#[verifier::external_type_specification]
#[verifier::external_body]
pub struct ExValue(serde_yaml::Value);

/// What a YAML value holds, as far as it is read here.
pub enum YamlModel {
    Bool(bool),
    Text(Seq<char>),
    /// A sequence of strings.
    TextList(Seq<Seq<char>>),
    /// A mapping, by its entries under string keys.
    Section(Map<Seq<char>, YamlModel>),
    /// Anything else: null, a number, a sequence that holds more than
    /// strings.
    Other,
}

/// The entries a mapping holds under keys that are strings: each key's text
/// with what its value holds. The order of the entries and the entries under
/// other keys are not told.
pub uninterp spec fn yaml_entries(mapping: serde_yaml::Mapping) -> Map<Seq<char>, YamlModel>;

/// What a value holds once its tags are taken off.
pub uninterp spec fn yaml_value(value: serde_yaml::Value) -> YamlModel;

pub open spec fn no_entries() -> Map<Seq<char>, YamlModel> {
    Map::empty()
}

pub open spec fn texts_of(items: Seq<&'static str>) -> Seq<Seq<char>> {
    Seq::new(items.len(), |i: int| items[i]@)
}

/// `Mapping::new`: a mapping without entries.
#[verifier::external_body]
pub(crate) fn yaml_mapping_new() -> (out: serde_yaml::Mapping)
    ensures
        yaml_entries(out) == no_entries(),
{
    serde_yaml::Mapping::new()
}

/// `Mapping::get` with a string: the value stored under the key that is this
/// string, if there is one.
#[verifier::external_body]
pub(crate) fn yaml_get<'a>(mapping: &'a serde_yaml::Mapping, key: &str) -> (out: Option<
    &'a serde_yaml::Value,
>)
    ensures
        out is Some <==> yaml_entries(*mapping).contains_key(key@),
        out matches Some(value) ==> yaml_value(*value) == yaml_entries(*mapping)[key@],
{
    mapping.get(key)
}

/// `Mapping::contains_key` with a string: whether a key is this string.
#[verifier::external_body]
pub(crate) fn yaml_contains_key(mapping: &serde_yaml::Mapping, key: &str) -> (out: bool)
    ensures
        out == yaml_entries(*mapping).contains_key(key@),
{
    mapping.contains_key(key)
}

/// `Mapping::insert` with a string key: the value is stored under the key,
/// in place of the one that was there; the other entries stay.
#[verifier::external_body]
pub(crate) fn yaml_insert(mapping: &mut serde_yaml::Mapping, key: &str, value: serde_yaml::Value)
    ensures
        yaml_entries(*final(mapping)) == yaml_entries(*old(mapping)).insert(
            key@,
            yaml_value(value),
        ),
{
    mapping.insert(serde_yaml::Value::String(key.to_string()), value);
}

/// `Mapping::remove` with a string: the entry under the key leaves, if there
/// is one; the other entries stay.
#[verifier::external_body]
pub(crate) fn yaml_remove(mapping: &mut serde_yaml::Mapping, key: &str)
    ensures
        yaml_entries(*final(mapping)) == yaml_entries(*old(mapping)).remove(key@),
{
    mapping.remove(key);
}

/// `Value::as_mapping`: the mapping a value holds, if it holds one.
#[verifier::external_body]
pub(crate) fn yaml_as_mapping<'a>(value: &'a serde_yaml::Value) -> (out: Option<
    &'a serde_yaml::Mapping,
>)
    ensures
        out is Some <==> yaml_value(*value) is Section,
        out matches Some(mapping) ==> yaml_value(*value) == YamlModel::Section(
            yaml_entries(*mapping),
        ),
{
    value.as_mapping()
}

/// `Value::as_str`: the string a value holds, if it holds one.
#[verifier::external_body]
pub(crate) fn yaml_as_str<'a>(value: &'a serde_yaml::Value) -> (out: Option<&'a str>)
    ensures
        out is Some <==> yaml_value(*value) is Text,
        out matches Some(text) ==> yaml_value(*value) == YamlModel::Text(text@),
{
    value.as_str()
}

/// `Mapping::clone`: a mapping with the same entries.
#[verifier::external_body]
pub(crate) fn yaml_clone_mapping(mapping: &serde_yaml::Mapping) -> (out: serde_yaml::Mapping)
    ensures
        yaml_entries(out) == yaml_entries(*mapping),
{
    mapping.clone()
}

/// `Value::from` a `bool`: the value that holds it.
#[verifier::external_body]
pub(crate) fn yaml_bool(flag: bool) -> (out: serde_yaml::Value)
    ensures
        yaml_value(out) == YamlModel::Bool(flag),
{
    serde_yaml::Value::from(flag)
}

/// `Value::from` a string slice: the value that holds its text.
#[verifier::external_body]
pub(crate) fn yaml_text(text: &str) -> (out: serde_yaml::Value)
    ensures
        yaml_value(out) == YamlModel::Text(text@),
{
    serde_yaml::Value::from(text)
}

/// `Value::from` a vector of string slices: the sequence of the values that
/// hold their texts, in order.
#[verifier::external_body]
pub(crate) fn yaml_text_list(items: Vec<&'static str>) -> (out: serde_yaml::Value)
    ensures
        yaml_value(out) == YamlModel::TextList(texts_of(items@)),
{
    serde_yaml::Value::from(items)
}

/// `Value::from` a mapping: the value that holds it.
#[verifier::external_body]
pub(crate) fn yaml_section(mapping: serde_yaml::Mapping) -> (out: serde_yaml::Value)
    ensures
        yaml_value(out) == YamlModel::Section(yaml_entries(mapping)),
{
    serde_yaml::Value::from(mapping)
}

} // verus!
