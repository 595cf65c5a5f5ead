//! Speech-to-text settings (`config room|global speech-to-text ...`).
use vstd::prelude::*;

use super::{
    check_getter, choice_setter_result, getter_result, is_error_result, lemma_choice_setter_name,
};
use crate::controller::ControllerType;
use crate::roomconfig::{SpeechToTextFlowType, SpeechToTextMessageTypeForNonThreadedOnlyTranscribedMessages};
use crate::strings;
use crate::text::{self, command_with_value, lemma_command_with_value, lemma_differs_at};

verus! {

/// Which speech-to-text setting a command shows or changes.
#[derive(Debug, PartialEq)]
pub enum ConfigSpeechToTextSettingRelatedControllerType {
    /// Show what happens with voice messages.
    GetFlowType,
    /// Set (or unset) what happens with voice messages.
    SetFlowType(Option<SpeechToTextFlowType>),
    /// Show the kind of message that transcriptions outside threads are posted as.
    GetMsgTypeForNonThreadedOnlyTranscribedMessages,
    /// Set (or unset) that kind of message.
    SetMsgTypeForNonThreadedOnlyTranscribedMessages(
        Option<SpeechToTextMessageTypeForNonThreadedOnlyTranscribedMessages>,
    ),
    /// Show the language that voice messages are assumed to be in.
    GetLanguage,
    /// Set (or unset) that language, as a 2-letter code.
    SetLanguage(Option<String>),
}

/// The number of bytes that the text takes in UTF-8.
pub open spec fn utf8_len(s: Seq<char>) -> int {
    vstd::utf8::encode_utf8(s).len() as int
}

/// The setting that a speech-to-text command (the text after
/// `speech-to-text`) selects, or the controller that reports why it cannot.
pub open spec fn speech_to_text_command(
    t: Seq<char>,
    r: Result<ConfigSpeechToTextSettingRelatedControllerType, ControllerType>,
) -> bool {
    if "flow-type"@.is_prefix_of(t) {
        getter_result(
            "flow-type"@,
            t.skip("flow-type"@.len() as int),
            ConfigSpeechToTextSettingRelatedControllerType::GetFlowType,
            r,
        )
    } else if "set-flow-type"@.is_prefix_of(t) {
        choice_setter_result(
            text::trimmed(t.skip("set-flow-type"@.len() as int)),
            |s: Seq<char>| SpeechToTextFlowType::parse(s),
            |o: Option<SpeechToTextFlowType>| ConfigSpeechToTextSettingRelatedControllerType::SetFlowType(o),
            r,
        )
    } else if "msg-type-for-non-threaded-only-transcribed-messages"@.is_prefix_of(t) {
        getter_result(
            "msg-type-for-non-threaded-only-transcribed-messages"@,
            t.skip("msg-type-for-non-threaded-only-transcribed-messages"@.len() as int),
            ConfigSpeechToTextSettingRelatedControllerType::GetMsgTypeForNonThreadedOnlyTranscribedMessages,
            r,
        )
    } else if "set-msg-type-for-non-threaded-only-transcribed-messages"@.is_prefix_of(t) {
        choice_setter_result(
            text::trimmed(t.skip("set-msg-type-for-non-threaded-only-transcribed-messages"@.len() as int)),
            |s: Seq<char>| SpeechToTextMessageTypeForNonThreadedOnlyTranscribedMessages::parse(s),
            |o: Option<SpeechToTextMessageTypeForNonThreadedOnlyTranscribedMessages>|
                ConfigSpeechToTextSettingRelatedControllerType::SetMsgTypeForNonThreadedOnlyTranscribedMessages(o),
            r,
        )
    } else if "language"@.is_prefix_of(t) {
        getter_result(
            "language"@,
            t.skip("language"@.len() as int),
            ConfigSpeechToTextSettingRelatedControllerType::GetLanguage,
            r,
        )
    } else if "set-language"@.is_prefix_of(t) {
        let v = text::trimmed(t.skip("set-language"@.len() as int));
        if v.len() == 0 {
            r == Ok::<ConfigSpeechToTextSettingRelatedControllerType, ControllerType>(
                ConfigSpeechToTextSettingRelatedControllerType::SetLanguage(None),
            )
        } else if utf8_len(v) != 2 {
            is_error_result(r, strings::speech_to_text::language_code_invalid_text(v))
        } else {
            r matches Ok(ConfigSpeechToTextSettingRelatedControllerType::SetLanguage(Some(l)))
                && l@ == v
        }
    } else {
        r == Err::<ConfigSpeechToTextSettingRelatedControllerType, ControllerType>(
            ControllerType::Unknown,
        )
    }
}

/// Selects the speech-to-text setting for the text after `speech-to-text`.
pub fn determine(text: &str) -> (r: Result<ConfigSpeechToTextSettingRelatedControllerType, ControllerType>)
    ensures
        speech_to_text_command(text@, r),
{
    if let Some(remaining_text) = text::strip_prefix(text, "flow-type") {
        if let Some(e) = check_getter("flow-type", remaining_text) {
            return Err(e);
        }
        return Ok(ConfigSpeechToTextSettingRelatedControllerType::GetFlowType);
    }
    if let Some(value_string) = text::strip_prefix(text, "set-flow-type") {
        let value_string = text::trim(value_string);
        if value_string.is_empty() {
            return Ok(ConfigSpeechToTextSettingRelatedControllerType::SetFlowType(None));
        }
        let lowercase = text::lowercase_of(value_string);
        return match SpeechToTextFlowType::from_str(lowercase.as_str()) {
            Some(value) => Ok(ConfigSpeechToTextSettingRelatedControllerType::SetFlowType(Some(value))),
            None => Err(ControllerType::Error(strings::cfg::configuration_value_unrecognized(value_string))),
        };
    }
    if let Some(remaining_text) = text::strip_prefix(
        text,
        "msg-type-for-non-threaded-only-transcribed-messages",
    ) {
        if let Some(e) = check_getter(
            "msg-type-for-non-threaded-only-transcribed-messages",
            remaining_text,
        ) {
            return Err(e);
        }
        return Ok(
            ConfigSpeechToTextSettingRelatedControllerType::GetMsgTypeForNonThreadedOnlyTranscribedMessages,
        );
    }
    if let Some(value_string) = text::strip_prefix(
        text,
        "set-msg-type-for-non-threaded-only-transcribed-messages",
    ) {
        let value_string = text::trim(value_string);
        if value_string.is_empty() {
            return Ok(
                ConfigSpeechToTextSettingRelatedControllerType::SetMsgTypeForNonThreadedOnlyTranscribedMessages(
                    None,
                ),
            );
        }
        let lowercase = text::lowercase_of(value_string);
        return match SpeechToTextMessageTypeForNonThreadedOnlyTranscribedMessages::from_str(
            lowercase.as_str(),
        ) {
            Some(value) => Ok(
                ConfigSpeechToTextSettingRelatedControllerType::SetMsgTypeForNonThreadedOnlyTranscribedMessages(
                    Some(value),
                ),
            ),
            None => Err(ControllerType::Error(strings::cfg::configuration_value_unrecognized(value_string))),
        };
    }
    if let Some(remaining_text) = text::strip_prefix(text, "language") {
        if let Some(e) = check_getter("language", remaining_text) {
            return Err(e);
        }
        return Ok(ConfigSpeechToTextSettingRelatedControllerType::GetLanguage);
    }
    if let Some(value_string) = text::strip_prefix(text, "set-language") {
        let value_string = text::trim(value_string);
        if value_string.is_empty() {
            return Ok(ConfigSpeechToTextSettingRelatedControllerType::SetLanguage(None));
        }
        if value_string.as_bytes().len() != 2 {
            return Err(ControllerType::Error(strings::speech_to_text::language_code_invalid(value_string)));
        }
        return Ok(ConfigSpeechToTextSettingRelatedControllerType::SetLanguage(Some(value_string.to_owned())));
    }
    Err(ControllerType::Unknown)
}

/// A setter of a speech-to-text setting with fixed choices, given the name
/// of a value, sets that value: `set-flow-type NAME` and
/// `set-msg-type-for-non-threaded-only-transcribed-messages NAME`.
pub proof fn lemma_setters_accept_value_names(
    f: SpeechToTextFlowType,
    m: SpeechToTextMessageTypeForNonThreadedOnlyTranscribedMessages,
)
    ensures
        forall|r| #[trigger]
            speech_to_text_command(command_with_value("set-flow-type"@, f.text()), r)
                ==> r == Ok::<ConfigSpeechToTextSettingRelatedControllerType, ControllerType>(
                ConfigSpeechToTextSettingRelatedControllerType::SetFlowType(Some(f)),
            ),
        forall|r| #[trigger]
            speech_to_text_command(command_with_value("set-msg-type-for-non-threaded-only-transcribed-messages"@, m.text()), r)
                ==> r == Ok::<ConfigSpeechToTextSettingRelatedControllerType, ControllerType>(
                ConfigSpeechToTextSettingRelatedControllerType::SetMsgTypeForNonThreadedOnlyTranscribedMessages(Some(m)),
            ),
{
    reveal_strlit("flow-type");
    reveal_strlit("set-flow-type");
    reveal_strlit("msg-type-for-non-threaded-only-transcribed-messages");
    reveal_strlit("set-msg-type-for-non-threaded-only-transcribed-messages");
    f.lemma_names();
    lemma_command_with_value("set-flow-type"@, f.text());
    m.lemma_names();
    lemma_command_with_value("set-msg-type-for-non-threaded-only-transcribed-messages"@, m.text());
    lemma_differs_at("flow-type"@, command_with_value("set-flow-type"@, f.text()), 0);
    lemma_differs_at("flow-type"@, command_with_value("set-msg-type-for-non-threaded-only-transcribed-messages"@, m.text()), 0);
    lemma_differs_at("set-flow-type"@, command_with_value("set-msg-type-for-non-threaded-only-transcribed-messages"@, m.text()), 4);
    lemma_differs_at("msg-type-for-non-threaded-only-transcribed-messages"@, command_with_value("set-msg-type-for-non-threaded-only-transcribed-messages"@, m.text()), 0);
    assert forall|r| #[trigger]
        speech_to_text_command(command_with_value("set-flow-type"@, f.text()), r) implies r == Ok::<
        ConfigSpeechToTextSettingRelatedControllerType,
        ControllerType,
    >(ConfigSpeechToTextSettingRelatedControllerType::SetFlowType(Some(f))) by {
        lemma_choice_setter_name(
            "set-flow-type"@,
            f.text(),
            f,
            |s: Seq<char>| SpeechToTextFlowType::parse(s),
            |o: Option<SpeechToTextFlowType>| ConfigSpeechToTextSettingRelatedControllerType::SetFlowType(o),
            r,
        );
    }
    assert forall|r| #[trigger]
        speech_to_text_command(command_with_value("set-msg-type-for-non-threaded-only-transcribed-messages"@, m.text()), r) implies r == Ok::<
        ConfigSpeechToTextSettingRelatedControllerType,
        ControllerType,
    >(ConfigSpeechToTextSettingRelatedControllerType::SetMsgTypeForNonThreadedOnlyTranscribedMessages(Some(m))) by {
        lemma_choice_setter_name(
            "set-msg-type-for-non-threaded-only-transcribed-messages"@,
            m.text(),
            m,
            |s: Seq<char>| SpeechToTextMessageTypeForNonThreadedOnlyTranscribedMessages::parse(s),
            |o: Option<SpeechToTextMessageTypeForNonThreadedOnlyTranscribedMessages>| ConfigSpeechToTextSettingRelatedControllerType::SetMsgTypeForNonThreadedOnlyTranscribedMessages(o),
            r,
        );
    }
}

} // verus!
