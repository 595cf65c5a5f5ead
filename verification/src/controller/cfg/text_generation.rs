//! Text-generation settings (`config room|global text-generation ...`).
use vstd::prelude::*;

use super::{
    check_getter, choice_setter_result, getter_result, is_error_result, lemma_choice_setter_name,
};
use crate::controller::ControllerType;
use crate::number;
use crate::roomconfig::{TextGenerationAutoUsage, TextGenerationPrefixRequirementType};
use crate::strings;
use crate::text::{self, command_with_value, lemma_command_with_value, lemma_differs_at};

verus! {

/// Which text-generation setting a command shows or changes.
#[derive(Debug, PartialEq)]
pub enum ConfigTextGenerationSettingRelatedControllerType {
    /// Show whether long conversations are shortened to fit the model.
    GetContextManagementEnabled,
    /// Set (or unset) whether long conversations are shortened.
    SetContextManagementEnabled(Option<bool>),
    /// Show whether messages need the command prefix to be answered.
    GetPrefixRequirementType,
    /// Set (or unset) whether messages need the command prefix.
    SetPrefixRequirementType(Option<TextGenerationPrefixRequirementType>),
    /// Show when text generation runs by itself.
    GetAutoUsage,
    /// Set (or unset) when text generation runs by itself.
    SetAutoUsage(Option<TextGenerationAutoUsage>),
    /// Show the prompt that replaces the agent's own.
    GetPromptOverride,
    /// Set (or unset) the prompt that replaces the agent's own.
    SetPromptOverride(Option<String>),
    /// Show the temperature that replaces the agent's own.
    GetTemperatureOverride,
    /// Set (or unset) that temperature; the text is a floating-point number.
    SetTemperatureOverride(Option<String>),
}

/// The boolean that a lower-cased setting value names.
pub open spec fn parse_bool(s: Seq<char>) -> Option<bool> {
    if s == "true"@ {
        Some(true)
    } else if s == "false"@ {
        Some(false)
    } else {
        None
    }
}

/// The setting that a text-generation command (the text after
/// `text-generation`) selects, or the controller that reports why it cannot.
pub open spec fn text_generation_command(
    t: Seq<char>,
    r: Result<ConfigTextGenerationSettingRelatedControllerType, ControllerType>,
) -> bool {
    if "context-management-enabled"@.is_prefix_of(t) {
        getter_result(
            "context-management-enabled"@,
            t.skip("context-management-enabled"@.len() as int),
            ConfigTextGenerationSettingRelatedControllerType::GetContextManagementEnabled,
            r,
        )
    } else if "set-context-management-enabled"@.is_prefix_of(t) {
        choice_setter_result(
            text::trimmed(t.skip("set-context-management-enabled"@.len() as int)),
            |s: Seq<char>| parse_bool(s),
            |o: Option<bool>| ConfigTextGenerationSettingRelatedControllerType::SetContextManagementEnabled(o),
            r,
        )
    } else if "prefix-requirement-type"@.is_prefix_of(t) {
        getter_result(
            "prefix-requirement-type"@,
            t.skip("prefix-requirement-type"@.len() as int),
            ConfigTextGenerationSettingRelatedControllerType::GetPrefixRequirementType,
            r,
        )
    } else if "set-prefix-requirement-type"@.is_prefix_of(t) {
        choice_setter_result(
            text::trimmed(t.skip("set-prefix-requirement-type"@.len() as int)),
            |s: Seq<char>| TextGenerationPrefixRequirementType::parse(s),
            |o: Option<TextGenerationPrefixRequirementType>|
                ConfigTextGenerationSettingRelatedControllerType::SetPrefixRequirementType(o),
            r,
        )
    } else if "auto-usage"@.is_prefix_of(t) {
        getter_result(
            "auto-usage"@,
            t.skip("auto-usage"@.len() as int),
            ConfigTextGenerationSettingRelatedControllerType::GetAutoUsage,
            r,
        )
    } else if "set-auto-usage"@.is_prefix_of(t) {
        choice_setter_result(
            text::trimmed(t.skip("set-auto-usage"@.len() as int)),
            |s: Seq<char>| TextGenerationAutoUsage::parse(s),
            |o: Option<TextGenerationAutoUsage>| ConfigTextGenerationSettingRelatedControllerType::SetAutoUsage(o),
            r,
        )
    } else if "prompt-override"@.is_prefix_of(t) {
        getter_result(
            "prompt-override"@,
            t.skip("prompt-override"@.len() as int),
            ConfigTextGenerationSettingRelatedControllerType::GetPromptOverride,
            r,
        )
    } else if "set-prompt-override"@.is_prefix_of(t) {
        let v = text::trimmed(t.skip("set-prompt-override"@.len() as int));
        if v.len() == 0 {
            r == Ok::<ConfigTextGenerationSettingRelatedControllerType, ControllerType>(
                ConfigTextGenerationSettingRelatedControllerType::SetPromptOverride(None),
            )
        } else {
            r matches Ok(ConfigTextGenerationSettingRelatedControllerType::SetPromptOverride(Some(p)))
                && p@ == v
        }
    } else if "temperature-override"@.is_prefix_of(t) {
        getter_result(
            "temperature-override"@,
            t.skip("temperature-override"@.len() as int),
            ConfigTextGenerationSettingRelatedControllerType::GetTemperatureOverride,
            r,
        )
    } else if "set-temperature-override"@.is_prefix_of(t) {
        let v = text::trimmed(t.skip("set-temperature-override"@.len() as int));
        if v.len() == 0 {
            r == Ok::<ConfigTextGenerationSettingRelatedControllerType, ControllerType>(
                ConfigTextGenerationSettingRelatedControllerType::SetTemperatureOverride(None),
            )
        } else if !number::is_number_text(v) {
            is_error_result(r, strings::cfg::configuration_value_not_f32_text(v))
        } else {
            r matches Ok(
                ConfigTextGenerationSettingRelatedControllerType::SetTemperatureOverride(Some(p)),
            ) && p@ == v
        }
    } else {
        r == Err::<ConfigTextGenerationSettingRelatedControllerType, ControllerType>(
            ControllerType::Unknown,
        )
    }
}

/// Selects the text-generation setting for the text after `text-generation`.
pub fn determine(text: &str) -> (r: Result<ConfigTextGenerationSettingRelatedControllerType, ControllerType>)
    ensures
        text_generation_command(text@, r),
{
    if let Some(remaining_text) = text::strip_prefix(text, "context-management-enabled") {
        if let Some(e) = check_getter("context-management-enabled", remaining_text) {
            return Err(e);
        }
        return Ok(ConfigTextGenerationSettingRelatedControllerType::GetContextManagementEnabled);
    }
    if let Some(value_string) = text::strip_prefix(text, "set-context-management-enabled") {
        let value_string = text::trim(value_string);
        if value_string.is_empty() {
            return Ok(ConfigTextGenerationSettingRelatedControllerType::SetContextManagementEnabled(None));
        }
        let lowercase = text::lowercase_of(value_string);
        let value = if text::equals(lowercase.as_str(), "true") {
            true
        } else if text::equals(lowercase.as_str(), "false") {
            false
        } else {
            return Err(ControllerType::Error(strings::cfg::configuration_value_unrecognized(value_string)));
        };
        return Ok(ConfigTextGenerationSettingRelatedControllerType::SetContextManagementEnabled(Some(value)));
    }
    if let Some(remaining_text) = text::strip_prefix(text, "prefix-requirement-type") {
        if let Some(e) = check_getter("prefix-requirement-type", remaining_text) {
            return Err(e);
        }
        return Ok(ConfigTextGenerationSettingRelatedControllerType::GetPrefixRequirementType);
    }
    if let Some(value_string) = text::strip_prefix(text, "set-prefix-requirement-type") {
        let value_string = text::trim(value_string);
        if value_string.is_empty() {
            return Ok(ConfigTextGenerationSettingRelatedControllerType::SetPrefixRequirementType(None));
        }
        let lowercase = text::lowercase_of(value_string);
        return match TextGenerationPrefixRequirementType::from_str(lowercase.as_str()) {
            Some(value) => Ok(
                ConfigTextGenerationSettingRelatedControllerType::SetPrefixRequirementType(Some(value)),
            ),
            None => Err(ControllerType::Error(strings::cfg::configuration_value_unrecognized(value_string))),
        };
    }
    if let Some(remaining_text) = text::strip_prefix(text, "auto-usage") {
        if let Some(e) = check_getter("auto-usage", remaining_text) {
            return Err(e);
        }
        return Ok(ConfigTextGenerationSettingRelatedControllerType::GetAutoUsage);
    }
    if let Some(value_string) = text::strip_prefix(text, "set-auto-usage") {
        let value_string = text::trim(value_string);
        if value_string.is_empty() {
            return Ok(ConfigTextGenerationSettingRelatedControllerType::SetAutoUsage(None));
        }
        let lowercase = text::lowercase_of(value_string);
        return match TextGenerationAutoUsage::from_str(lowercase.as_str()) {
            Some(value) => Ok(ConfigTextGenerationSettingRelatedControllerType::SetAutoUsage(Some(value))),
            None => Err(ControllerType::Error(strings::cfg::configuration_value_unrecognized(value_string))),
        };
    }
    if let Some(remaining_text) = text::strip_prefix(text, "prompt-override") {
        if let Some(e) = check_getter("prompt-override", remaining_text) {
            return Err(e);
        }
        return Ok(ConfigTextGenerationSettingRelatedControllerType::GetPromptOverride);
    }
    if let Some(value_string) = text::strip_prefix(text, "set-prompt-override") {
        let value_string = text::trim(value_string);
        if value_string.is_empty() {
            return Ok(ConfigTextGenerationSettingRelatedControllerType::SetPromptOverride(None));
        }
        return Ok(ConfigTextGenerationSettingRelatedControllerType::SetPromptOverride(Some(value_string.to_owned())));
    }
    if let Some(remaining_text) = text::strip_prefix(text, "temperature-override") {
        if let Some(e) = check_getter("temperature-override", remaining_text) {
            return Err(e);
        }
        return Ok(ConfigTextGenerationSettingRelatedControllerType::GetTemperatureOverride);
    }
    if let Some(value_string) = text::strip_prefix(text, "set-temperature-override") {
        let value_string = text::trim(value_string);
        if value_string.is_empty() {
            return Ok(ConfigTextGenerationSettingRelatedControllerType::SetTemperatureOverride(None));
        }
        if !number::is_number(value_string) {
            return Err(ControllerType::Error(strings::cfg::configuration_value_not_f32(value_string)));
        }
        return Ok(
            ConfigTextGenerationSettingRelatedControllerType::SetTemperatureOverride(Some(value_string.to_owned())),
        );
    }
    Err(ControllerType::Unknown)
}


/// The name of a boolean setting value.
pub open spec fn bool_text(b: bool) -> Seq<char> {
    if b {
        "true"@
    } else {
        "false"@
    }
}

/// A setter of a text-generation setting with fixed choices, given the name
/// of a value, sets that value: `set-prefix-requirement-type NAME`,
/// `set-auto-usage NAME` and `set-context-management-enabled true|false`.
pub proof fn lemma_setters_accept_value_names(
    p: TextGenerationPrefixRequirementType,
    a: TextGenerationAutoUsage,
    b: bool,
)
    ensures
        forall|r| #[trigger]
            text_generation_command(command_with_value("set-prefix-requirement-type"@, p.text()), r)
                ==> r == Ok::<ConfigTextGenerationSettingRelatedControllerType, ControllerType>(
                ConfigTextGenerationSettingRelatedControllerType::SetPrefixRequirementType(Some(p)),
            ),
        forall|r| #[trigger]
            text_generation_command(command_with_value("set-auto-usage"@, a.text()), r)
                ==> r == Ok::<ConfigTextGenerationSettingRelatedControllerType, ControllerType>(
                ConfigTextGenerationSettingRelatedControllerType::SetAutoUsage(Some(a)),
            ),
        forall|r| #[trigger]
            text_generation_command(
                command_with_value("set-context-management-enabled"@, bool_text(b)),
                r,
            ) ==> r == Ok::<ConfigTextGenerationSettingRelatedControllerType, ControllerType>(
                ConfigTextGenerationSettingRelatedControllerType::SetContextManagementEnabled(Some(b)),
            ),
{
    reveal_strlit("context-management-enabled");
    reveal_strlit("set-context-management-enabled");
    reveal_strlit("prefix-requirement-type");
    reveal_strlit("set-prefix-requirement-type");
    reveal_strlit("auto-usage");
    reveal_strlit("set-auto-usage");
    reveal_strlit("true");
    reveal_strlit("false");
    p.lemma_names();
    a.lemma_names();
    let tp = command_with_value("set-prefix-requirement-type"@, p.text());
    let ta = command_with_value("set-auto-usage"@, a.text());
    let tb = command_with_value("set-context-management-enabled"@, bool_text(b));
    assert(text::is_word(bool_text(b))) by {
        assert(text::is_word_char(bool_text(b)[0]));
    }
    lemma_command_with_value("set-prefix-requirement-type"@, p.text());
    lemma_command_with_value("set-auto-usage"@, a.text());
    lemma_command_with_value("set-context-management-enabled"@, bool_text(b));
    lemma_differs_at("context-management-enabled"@, tp, 0);
    lemma_differs_at("set-context-management-enabled"@, tp, 4);
    lemma_differs_at("prefix-requirement-type"@, tp, 0);
    lemma_differs_at("context-management-enabled"@, ta, 0);
    lemma_differs_at("set-context-management-enabled"@, ta, 4);
    lemma_differs_at("prefix-requirement-type"@, ta, 0);
    lemma_differs_at("set-prefix-requirement-type"@, ta, 4);
    lemma_differs_at("auto-usage"@, ta, 0);
    lemma_differs_at("context-management-enabled"@, tb, 0);
    assert forall|r| #[trigger]
        text_generation_command(tp, r) implies r == Ok::<
        ConfigTextGenerationSettingRelatedControllerType,
        ControllerType,
    >(ConfigTextGenerationSettingRelatedControllerType::SetPrefixRequirementType(Some(p))) by {
        lemma_choice_setter_name(
            "set-prefix-requirement-type"@,
            p.text(),
            p,
            |s: Seq<char>| TextGenerationPrefixRequirementType::parse(s),
            |o: Option<TextGenerationPrefixRequirementType>|
                ConfigTextGenerationSettingRelatedControllerType::SetPrefixRequirementType(o),
            r,
        );
    }
    assert forall|r| #[trigger]
        text_generation_command(ta, r) implies r == Ok::<
        ConfigTextGenerationSettingRelatedControllerType,
        ControllerType,
    >(ConfigTextGenerationSettingRelatedControllerType::SetAutoUsage(Some(a))) by {
        lemma_choice_setter_name(
            "set-auto-usage"@,
            a.text(),
            a,
            |s: Seq<char>| TextGenerationAutoUsage::parse(s),
            |o: Option<TextGenerationAutoUsage>|
                ConfigTextGenerationSettingRelatedControllerType::SetAutoUsage(o),
            r,
        );
    }
    assert forall|r| #[trigger]
        text_generation_command(tb, r) implies r == Ok::<
        ConfigTextGenerationSettingRelatedControllerType,
        ControllerType,
    >(ConfigTextGenerationSettingRelatedControllerType::SetContextManagementEnabled(Some(b))) by {
        lemma_choice_setter_name(
            "set-context-management-enabled"@,
            bool_text(b),
            b,
            |s: Seq<char>| parse_bool(s),
            |o: Option<bool>| ConfigTextGenerationSettingRelatedControllerType::SetContextManagementEnabled(o),
            r,
        );
    }
}

} // verus!
