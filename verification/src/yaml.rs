//! Agent configurations are YAML mappings; this is where text is parsed as
//! YAML.
use vstd::prelude::*;

verus! {

/// A YAML value (`serde_yaml::Value`), carried through unread.
#[verifier::external_type_specification]
#[verifier::external_body]
pub struct ExValue(serde_yaml::Value);

/// What a text is as YAML, as far as agent configurations go.
pub enum YamlShape {
    /// A mapping.
    Mapping,
    /// A valid YAML value that is not a mapping.
    OtherValue,
    /// Not valid YAML; the text of the parser's error.
    Invalid(Seq<char>),
}

/// What `serde_yaml::from_str` makes of a text when parsing a
/// `serde_yaml::Value`.
pub uninterp spec fn yaml_shape(text: Seq<char>) -> YamlShape;

/// The value that `serde_yaml::from_str` parses from a text, when the text is
/// valid YAML.
pub uninterp spec fn yaml_value(text: Seq<char>) -> serde_yaml::Value;

/// A text parsed as YAML.
pub enum ParsedYaml {
    /// A mapping, with its value.
    Mapping(serde_yaml::Value),
    /// A valid YAML value that is not a mapping.
    OtherValue,
    /// Not valid YAML, with the parser's error text.
    Invalid(String),
}

/// Calls `serde_yaml::from_str` for a `serde_yaml::Value` and tells a mapping
/// apart from the other kinds of value.
///
/// Its contract claims that the outcome depends on the text alone, and that
/// a mapping is handed back as the value that the parser made of the text;
/// what that value holds is not stated.
#[verifier::external_body]
pub(crate) fn parse_yaml(text: &str) -> (r: ParsedYaml)
    ensures
        match yaml_shape(text@) {
            YamlShape::Mapping => r is Mapping,
            YamlShape::OtherValue => r is OtherValue,
            YamlShape::Invalid(m) => r matches ParsedYaml::Invalid(e) && e@ == m,
        },
        r matches ParsedYaml::Mapping(v) ==> v == yaml_value(text@),
{
    match serde_yaml::from_str::<serde_yaml::Value>(text) {
        Ok(serde_yaml::Value::Mapping(m)) => ParsedYaml::Mapping(serde_yaml::Value::Mapping(m)),
        Ok(serde_yaml::Value::Null) => ParsedYaml::OtherValue,
        Ok(serde_yaml::Value::Bool(_)) => ParsedYaml::OtherValue,
        Ok(serde_yaml::Value::Number(_)) => ParsedYaml::OtherValue,
        Ok(serde_yaml::Value::String(_)) => ParsedYaml::OtherValue,
        Ok(serde_yaml::Value::Sequence(_)) => ParsedYaml::OtherValue,
        Ok(serde_yaml::Value::Tagged(_)) => ParsedYaml::OtherValue,
        Err(err) => ParsedYaml::Invalid(err.to_string()),
    }
}

} // verus!
