//! Text-to-speech settings (`config room|global text-to-speech ...`).
use vstd::prelude::*;

use super::{
    check_getter, choice_setter_result, getter_result, is_error_result, lemma_choice_setter_name,
};
use crate::controller::ControllerType;
use crate::number;
use crate::roomconfig::{TextToSpeechBotMessagesFlowType, TextToSpeechUserMessagesFlowType};
use crate::strings;
use crate::text::{self, command_with_value, lemma_command_with_value, lemma_differs_at};

verus! {

/// Which text-to-speech setting a command shows or changes.
#[derive(Debug, PartialEq)]
pub enum ConfigTextToSpeechSettingRelatedControllerType {
    /// Show when the bot's messages are turned into speech.
    GetBotMessagesFlowType,
    /// Set (or unset) when the bot's messages are turned into speech.
    SetBotMessagesFlowType(Option<TextToSpeechBotMessagesFlowType>),
    /// Show when users' messages are turned into speech.
    GetUserMessagesFlowType,
    /// Set (or unset) when users' messages are turned into speech.
    SetUserMessagesFlowType(Option<TextToSpeechUserMessagesFlowType>),
    /// Show the speed that replaces the agent's own.
    GetSpeedOverride,
    /// Set (or unset) that speed; the text is a floating-point number.
    SetSpeedOverride(Option<String>),
    /// Show the voice that replaces the agent's own.
    GetVoiceOverride,
    /// Set (or unset) that voice.
    SetVoiceOverride(Option<String>),
}

/// The setting that a text-to-speech command (the text after
/// `text-to-speech`) selects, or the controller that reports why it cannot.
pub open spec fn text_to_speech_command(
    t: Seq<char>,
    r: Result<ConfigTextToSpeechSettingRelatedControllerType, ControllerType>,
) -> bool {
    if "bot-msgs-flow-type"@.is_prefix_of(t) {
        getter_result(
            "bot-msgs-flow-type"@,
            t.skip("bot-msgs-flow-type"@.len() as int),
            ConfigTextToSpeechSettingRelatedControllerType::GetBotMessagesFlowType,
            r,
        )
    } else if "set-bot-msgs-flow-type"@.is_prefix_of(t) {
        choice_setter_result(
            text::trimmed(t.skip("set-bot-msgs-flow-type"@.len() as int)),
            |s: Seq<char>| TextToSpeechBotMessagesFlowType::parse(s),
            |o: Option<TextToSpeechBotMessagesFlowType>|
                ConfigTextToSpeechSettingRelatedControllerType::SetBotMessagesFlowType(o),
            r,
        )
    } else if "user-msgs-flow-type"@.is_prefix_of(t) {
        getter_result(
            "user-msgs-flow-type"@,
            t.skip("user-msgs-flow-type"@.len() as int),
            ConfigTextToSpeechSettingRelatedControllerType::GetUserMessagesFlowType,
            r,
        )
    } else if "set-user-msgs-flow-type"@.is_prefix_of(t) {
        choice_setter_result(
            text::trimmed(t.skip("set-user-msgs-flow-type"@.len() as int)),
            |s: Seq<char>| TextToSpeechUserMessagesFlowType::parse(s),
            |o: Option<TextToSpeechUserMessagesFlowType>|
                ConfigTextToSpeechSettingRelatedControllerType::SetUserMessagesFlowType(o),
            r,
        )
    } else if "speed-override"@.is_prefix_of(t) {
        getter_result(
            "speed-override"@,
            t.skip("speed-override"@.len() as int),
            ConfigTextToSpeechSettingRelatedControllerType::GetSpeedOverride,
            r,
        )
    } else if "set-speed-override"@.is_prefix_of(t) {
        let v = text::trimmed(t.skip("set-speed-override"@.len() as int));
        if v.len() == 0 {
            r == Ok::<ConfigTextToSpeechSettingRelatedControllerType, ControllerType>(
                ConfigTextToSpeechSettingRelatedControllerType::SetSpeedOverride(None),
            )
        } else if !number::is_number_text(v) {
            is_error_result(r, strings::cfg::configuration_value_not_f32_text(v))
        } else {
            r matches Ok(ConfigTextToSpeechSettingRelatedControllerType::SetSpeedOverride(Some(p)))
                && p@ == v
        }
    } else if "voice-override"@.is_prefix_of(t) {
        getter_result(
            "voice-override"@,
            t.skip("voice-override"@.len() as int),
            ConfigTextToSpeechSettingRelatedControllerType::GetVoiceOverride,
            r,
        )
    } else if "set-voice-override"@.is_prefix_of(t) {
        let v = text::trimmed(t.skip("set-voice-override"@.len() as int));
        if v.len() == 0 {
            r == Ok::<ConfigTextToSpeechSettingRelatedControllerType, ControllerType>(
                ConfigTextToSpeechSettingRelatedControllerType::SetVoiceOverride(None),
            )
        } else {
            r matches Ok(ConfigTextToSpeechSettingRelatedControllerType::SetVoiceOverride(Some(p)))
                && p@ == v
        }
    } else {
        r == Err::<ConfigTextToSpeechSettingRelatedControllerType, ControllerType>(
            ControllerType::Unknown,
        )
    }
}

/// Selects the text-to-speech setting for the text after `text-to-speech`.
pub fn determine(text: &str) -> (r: Result<ConfigTextToSpeechSettingRelatedControllerType, ControllerType>)
    ensures
        text_to_speech_command(text@, r),
{
    if let Some(remaining_text) = text::strip_prefix(text, "bot-msgs-flow-type") {
        if let Some(e) = check_getter("bot-msgs-flow-type", remaining_text) {
            return Err(e);
        }
        return Ok(ConfigTextToSpeechSettingRelatedControllerType::GetBotMessagesFlowType);
    }
    if let Some(value_string) = text::strip_prefix(text, "set-bot-msgs-flow-type") {
        let value_string = text::trim(value_string);
        if value_string.is_empty() {
            return Ok(ConfigTextToSpeechSettingRelatedControllerType::SetBotMessagesFlowType(None));
        }
        let lowercase = text::lowercase_of(value_string);
        return match TextToSpeechBotMessagesFlowType::from_str(lowercase.as_str()) {
            Some(value) => Ok(
                ConfigTextToSpeechSettingRelatedControllerType::SetBotMessagesFlowType(Some(value)),
            ),
            None => Err(ControllerType::Error(strings::cfg::configuration_value_unrecognized(value_string))),
        };
    }
    if let Some(remaining_text) = text::strip_prefix(text, "user-msgs-flow-type") {
        if let Some(e) = check_getter("user-msgs-flow-type", remaining_text) {
            return Err(e);
        }
        return Ok(ConfigTextToSpeechSettingRelatedControllerType::GetUserMessagesFlowType);
    }
    if let Some(value_string) = text::strip_prefix(text, "set-user-msgs-flow-type") {
        let value_string = text::trim(value_string);
        if value_string.is_empty() {
            return Ok(ConfigTextToSpeechSettingRelatedControllerType::SetUserMessagesFlowType(None));
        }
        let lowercase = text::lowercase_of(value_string);
        return match TextToSpeechUserMessagesFlowType::from_str(lowercase.as_str()) {
            Some(value) => Ok(
                ConfigTextToSpeechSettingRelatedControllerType::SetUserMessagesFlowType(Some(value)),
            ),
            None => Err(ControllerType::Error(strings::cfg::configuration_value_unrecognized(value_string))),
        };
    }
    if let Some(remaining_text) = text::strip_prefix(text, "speed-override") {
        if let Some(e) = check_getter("speed-override", remaining_text) {
            return Err(e);
        }
        return Ok(ConfigTextToSpeechSettingRelatedControllerType::GetSpeedOverride);
    }
    if let Some(value_string) = text::strip_prefix(text, "set-speed-override") {
        let value_string = text::trim(value_string);
        if value_string.is_empty() {
            return Ok(ConfigTextToSpeechSettingRelatedControllerType::SetSpeedOverride(None));
        }
        if !number::is_number(value_string) {
            return Err(ControllerType::Error(strings::cfg::configuration_value_not_f32(value_string)));
        }
        return Ok(ConfigTextToSpeechSettingRelatedControllerType::SetSpeedOverride(Some(value_string.to_owned())));
    }
    if let Some(remaining_text) = text::strip_prefix(text, "voice-override") {
        if let Some(e) = check_getter("voice-override", remaining_text) {
            return Err(e);
        }
        return Ok(ConfigTextToSpeechSettingRelatedControllerType::GetVoiceOverride);
    }
    if let Some(value_string) = text::strip_prefix(text, "set-voice-override") {
        let value_string = text::trim(value_string);
        if value_string.is_empty() {
            return Ok(ConfigTextToSpeechSettingRelatedControllerType::SetVoiceOverride(None));
        }
        return Ok(ConfigTextToSpeechSettingRelatedControllerType::SetVoiceOverride(Some(value_string.to_owned())));
    }
    Err(ControllerType::Unknown)
}

/// A setter of a text-to-speech setting with fixed choices, given the name
/// of a value, sets that value: `set-bot-msgs-flow-type NAME` and
/// `set-user-msgs-flow-type NAME`.
pub proof fn lemma_setters_accept_value_names(
    b: TextToSpeechBotMessagesFlowType,
    u: TextToSpeechUserMessagesFlowType,
)
    ensures
        forall|r| #[trigger]
            text_to_speech_command(command_with_value("set-bot-msgs-flow-type"@, b.text()), r)
                ==> r == Ok::<ConfigTextToSpeechSettingRelatedControllerType, ControllerType>(
                ConfigTextToSpeechSettingRelatedControllerType::SetBotMessagesFlowType(Some(b)),
            ),
        forall|r| #[trigger]
            text_to_speech_command(command_with_value("set-user-msgs-flow-type"@, u.text()), r)
                ==> r == Ok::<ConfigTextToSpeechSettingRelatedControllerType, ControllerType>(
                ConfigTextToSpeechSettingRelatedControllerType::SetUserMessagesFlowType(Some(u)),
            ),
{
    reveal_strlit("bot-msgs-flow-type");
    reveal_strlit("set-bot-msgs-flow-type");
    reveal_strlit("user-msgs-flow-type");
    reveal_strlit("set-user-msgs-flow-type");
    b.lemma_names();
    lemma_command_with_value("set-bot-msgs-flow-type"@, b.text());
    u.lemma_names();
    lemma_command_with_value("set-user-msgs-flow-type"@, u.text());
    lemma_differs_at("bot-msgs-flow-type"@, command_with_value("set-bot-msgs-flow-type"@, b.text()), 0);
    lemma_differs_at("bot-msgs-flow-type"@, command_with_value("set-user-msgs-flow-type"@, u.text()), 0);
    lemma_differs_at("set-bot-msgs-flow-type"@, command_with_value("set-user-msgs-flow-type"@, u.text()), 4);
    lemma_differs_at("user-msgs-flow-type"@, command_with_value("set-user-msgs-flow-type"@, u.text()), 0);
    assert forall|r| #[trigger]
        text_to_speech_command(command_with_value("set-bot-msgs-flow-type"@, b.text()), r) implies r == Ok::<
        ConfigTextToSpeechSettingRelatedControllerType,
        ControllerType,
    >(ConfigTextToSpeechSettingRelatedControllerType::SetBotMessagesFlowType(Some(b))) by {
        lemma_choice_setter_name(
            "set-bot-msgs-flow-type"@,
            b.text(),
            b,
            |s: Seq<char>| TextToSpeechBotMessagesFlowType::parse(s),
            |o: Option<TextToSpeechBotMessagesFlowType>| ConfigTextToSpeechSettingRelatedControllerType::SetBotMessagesFlowType(o),
            r,
        );
    }
    assert forall|r| #[trigger]
        text_to_speech_command(command_with_value("set-user-msgs-flow-type"@, u.text()), r) implies r == Ok::<
        ConfigTextToSpeechSettingRelatedControllerType,
        ControllerType,
    >(ConfigTextToSpeechSettingRelatedControllerType::SetUserMessagesFlowType(Some(u))) by {
        lemma_choice_setter_name(
            "set-user-msgs-flow-type"@,
            u.text(),
            u,
            |s: Seq<char>| TextToSpeechUserMessagesFlowType::parse(s),
            |o: Option<TextToSpeechUserMessagesFlowType>| ConfigTextToSpeechSettingRelatedControllerType::SetUserMessagesFlowType(o),
            r,
        );
    }
}

} // verus!
