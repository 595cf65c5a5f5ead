//! Configuration commands (`config ...`): showing and changing room and
//! global settings.
pub mod dispatching;
pub mod help;
pub mod speech_to_text;
pub mod status;
pub mod text_generation;
pub mod text_to_speech;

use vstd::prelude::*;

use self::speech_to_text::{speech_to_text_command, ConfigSpeechToTextSettingRelatedControllerType};
use self::text_generation::{
    text_generation_command, ConfigTextGenerationSettingRelatedControllerType,
};
use self::text_to_speech::{text_to_speech_command, ConfigTextToSpeechSettingRelatedControllerType};
use super::{is_error, ControllerType};
use crate::agent::{AgentPurpose, IdentifierView, PublicIdentifier};
use crate::strings;
use crate::text;

verus! {

/// Where a setting is stored.
#[derive(Debug, Clone, Copy, PartialEq, Eq, Structural)]
pub enum SettingsStorageSource {
    /// In the room's configuration.
    Room,
    /// In the global configuration, which rooms fall back to.
    Global,
}

/// What a configuration command asks for.
#[derive(Debug, PartialEq)]
pub enum ConfigControllerType {
    /// Explain configuration.
    Help,
    /// Show the effective configuration of the room.
    Status,
    /// Show or change a setting stored in the given place.
    SettingsRelated(SettingsStorageSource, ConfigSettingRelatedControllerType),
}

/// Which setting a configuration command shows or changes.
#[derive(Debug, PartialEq)]
pub enum ConfigSettingRelatedControllerType {
    /// Show the agent that handles a purpose.
    GetHandler(AgentPurpose),
    /// Set (or, with `None`, unset) the agent that handles a purpose.
    SetHandler(AgentPurpose, Option<PublicIdentifier>),
    /// A text-generation setting.
    TextGeneration(ConfigTextGenerationSettingRelatedControllerType),
    /// A speech-to-text setting.
    SpeechToText(ConfigSpeechToTextSettingRelatedControllerType),
    /// A text-to-speech setting.
    TextToSpeech(ConfigTextToSpeechSettingRelatedControllerType),
}

/// Whether `r` is an error result with the given text.
pub open spec fn is_error_result<T>(r: Result<T, ControllerType>, message: Seq<char>) -> bool {
    r matches Err(e) && is_error(e, message)
}

/// What the text after a getter's name makes of the command: nothing when it
/// is blank, else the text of the error that reports it.
pub open spec fn getter_error(setting_name: Seq<char>, rest: Seq<char>) -> Option<Seq<char>> {
    let t = text::trimmed(rest);
    if t.len() == 0 {
        None
    } else {
        Some(strings::cfg::configuration_getter_used_with_extra_text_text(setting_name, t))
    }
}

/// The result of a getter: `ok` when nothing follows its name, else the error.
pub open spec fn getter_result<T>(
    setting_name: Seq<char>,
    rest: Seq<char>,
    ok: T,
    r: Result<T, ControllerType>,
) -> bool {
    match getter_error(setting_name, rest) {
        None => r == Ok::<T, ControllerType>(ok),
        Some(m) => is_error_result(r, m),
    }
}

/// Checks that nothing but white space follows a getter's name.
pub fn check_getter(setting_name: &str, rest: &str) -> (r: Option<ControllerType>)
    ensures
        match getter_error(setting_name@, rest@) {
            None => r is None,
            Some(m) => r matches Some(e) && is_error(e, m),
        },
{
    let remaining_text = text::trim(rest);
    if remaining_text.is_empty() {
        None
    } else {
        Some(
            ControllerType::Error(
                strings::cfg::configuration_getter_used_with_extra_text(
                    setting_name,
                    remaining_text,
                ),
            ),
        )
    }
}

/// What the setter of a setting with fixed choices makes of its value text
/// `v`: `Some(None)` unsets the setting, `Some(Some(x))` sets it to the choice
/// that the lower-cased text names, `None` means the text names no choice.
pub open spec fn choice_value<E>(v: Seq<char>, parse: spec_fn(Seq<char>) -> Option<E>) -> Option<Option<E>> {
    if v.len() == 0 {
        Some(None)
    } else {
        match parse(text::lowercased(v)) {
            Some(x) => Some(Some(x)),
            None => None,
        }
    }
}

/// The result of the setter of a setting with fixed choices: the setting
/// command built by `make`, or the error that reports an unknown value.
pub open spec fn choice_setter_result<E, T>(
    v: Seq<char>,
    parse: spec_fn(Seq<char>) -> Option<E>,
    make: spec_fn(Option<E>) -> T,
    r: Result<T, ControllerType>,
) -> bool {
    match choice_value(v, parse) {
        Some(o) => r == Ok::<T, ControllerType>(make(o)),
        None => is_error_result(r, strings::cfg::configuration_value_unrecognized_text(v)),
    }
}

/// The setter of a setting with fixed choices sets the choice whose name it
/// is given.
pub proof fn lemma_choice_setter_name<E, T>(
    word: Seq<char>,
    name: Seq<char>,
    x: E,
    parse: spec_fn(Seq<char>) -> Option<E>,
    make: spec_fn(Option<E>) -> T,
    r: Result<T, ControllerType>,
)
    requires
        text::is_word(name),
        parse(name) == Some(x),
        choice_setter_result(
            text::trimmed(text::command_with_value(word, name).skip(word.len() as int)),
            parse,
            make,
            r,
        ),
    ensures
        r == Ok::<T, ControllerType>(make(Some(x))),
{
    text::lemma_command_with_value(word, name);
}

/// The purpose and the optional identifier text of a `set-handler` command.
pub open spec fn handler_args(rest: Seq<char>) -> (Seq<char>, Option<Seq<char>>) {
    match text::split_at_first(rest, ' ') {
        Some((p, id)) => (p, Some(id)),
        None => (rest, None),
    }
}

/// The setting that a setting command (the text after `room` or `global`)
/// selects, or the controller that reports why it cannot.
pub open spec fn setting_command(
    t: Seq<char>,
    r: Result<ConfigSettingRelatedControllerType, ControllerType>,
) -> bool {
    if "handler"@.is_prefix_of(t) {
        let p = text::trimmed(t.skip("handler"@.len() as int));
        if p.len() == 0 {
            is_error_result(r, strings::cfg::configuration_invocation_incorrect_more_values_expected_text())
        } else {
            match AgentPurpose::parse(p) {
                None => is_error_result(r, strings::agent::purpose_unrecognized_text(p)),
                Some(purpose) => r == Ok::<ConfigSettingRelatedControllerType, ControllerType>(
                    ConfigSettingRelatedControllerType::GetHandler(purpose),
                ),
            }
        }
    } else if "set-handler"@.is_prefix_of(t) {
        let rest = text::trimmed(t.skip("set-handler"@.len() as int));
        if rest.len() == 0 {
            is_error_result(r, strings::cfg::configuration_invocation_incorrect_more_values_expected_text())
        } else {
            let (p, id) = handler_args(rest);
            match AgentPurpose::parse(p) {
                None => is_error_result(r, strings::agent::purpose_unrecognized_text(p)),
                Some(purpose) => match id {
                    None => r == Ok::<ConfigSettingRelatedControllerType, ControllerType>(
                        ConfigSettingRelatedControllerType::SetHandler(purpose, None),
                    ),
                    Some(id_text) => match IdentifierView::parse(id_text) {
                        None => is_error_result(r, strings::agent::invalid_id_generic_text()),
                        Some(v) => r matches Ok(
                            ConfigSettingRelatedControllerType::SetHandler(q, Some(ident)),
                        ) && q == purpose && ident@ == v,
                    },
                },
            }
        }
    } else if "text-generation"@.is_prefix_of(t) {
        let rest = text::trimmed(t.skip("text-generation"@.len() as int));
        ||| r matches Ok(ConfigSettingRelatedControllerType::TextGeneration(h))
            && text_generation_command(rest, Ok(h))
        ||| r matches Err(e) && text_generation_command(rest, Err(e))
    } else if "text-to-speech"@.is_prefix_of(t) {
        let rest = text::trimmed(t.skip("text-to-speech"@.len() as int));
        ||| r matches Ok(ConfigSettingRelatedControllerType::TextToSpeech(h))
            && text_to_speech_command(rest, Ok(h))
        ||| r matches Err(e) && text_to_speech_command(rest, Err(e))
    } else if "speech-to-text"@.is_prefix_of(t) {
        let rest = text::trimmed(t.skip("speech-to-text"@.len() as int));
        ||| r matches Ok(ConfigSettingRelatedControllerType::SpeechToText(h))
            && speech_to_text_command(rest, Ok(h))
        ||| r matches Err(e) && speech_to_text_command(rest, Err(e))
    } else {
        r == Err::<ConfigSettingRelatedControllerType, ControllerType>(ControllerType::Unknown)
    }
}

/// The controller for a setting command stored in `source`.
pub open spec fn settings_related(source: SettingsStorageSource, rest: Seq<char>, r: ControllerType) -> bool {
    ||| r matches ControllerType::Config(ConfigControllerType::SettingsRelated(s, h)) && s == source
        && setting_command(rest, Ok(h))
    ||| setting_command(rest, Err(r))
}

/// The controller that a configuration command (the text after `config`)
/// selects.
pub open spec fn config_command(t: Seq<char>, r: ControllerType) -> bool {
    if "status"@.is_prefix_of(t) {
        r == ControllerType::Config(ConfigControllerType::Status)
    } else if "CONFIG_TYPE"@.is_prefix_of(t) {
        is_error(r, strings::cfg::error_config_type_not_replaced_text())
    } else if "room "@.is_prefix_of(t) {
        settings_related(SettingsStorageSource::Room, text::trimmed(t.skip("room "@.len() as int)), r)
    } else if "global "@.is_prefix_of(t) {
        settings_related(SettingsStorageSource::Global, text::trimmed(t.skip("global "@.len() as int)), r)
    } else {
        r == ControllerType::Config(ConfigControllerType::Help)
    }
}

/// Whether a setting command's result selects a setting, or else reports
/// something other than a configuration controller.
pub open spec fn selects_setting(r: Result<ConfigSettingRelatedControllerType, ControllerType>) -> bool {
    r is Ok
}

/// A setting command either selects a setting for every result that its
/// description allows, or for none; and what it reports when it selects none
/// is never a configuration controller.
pub proof fn lemma_setting_command_outcome_kind(
    t: Seq<char>,
    a: Result<ConfigSettingRelatedControllerType, ControllerType>,
    b: Result<ConfigSettingRelatedControllerType, ControllerType>,
)
    requires
        setting_command(t, a),
        setting_command(t, b),
    ensures
        selects_setting(a) == selects_setting(b),
        a matches Err(e) ==> !(e is Config),
{
}

/// A setting command means the same for the room and for the global
/// configuration: `room REST` selects a setting of the room exactly when
/// `global REST` selects one of the global configuration, both selections
/// are the one that REST describes, and when REST selects no setting, both
/// answer what REST describes (the same error, or an unknown command).
pub proof fn lemma_room_and_global_commands_agree(rest: Seq<char>, r1: ControllerType, r2: ControllerType)
    requires
        config_command("room "@ + rest, r1),
        config_command("global "@ + rest, r2),
    ensures
        (r1 matches ControllerType::Config(ConfigControllerType::SettingsRelated(s1, _))
            && s1 == SettingsStorageSource::Room) <==> (r2 matches ControllerType::Config(
            ConfigControllerType::SettingsRelated(s2, _),
        ) && s2 == SettingsStorageSource::Global),
        r1 matches ControllerType::Config(ConfigControllerType::SettingsRelated(_, h1)) ==> setting_command(
            text::trimmed(rest),
            Ok(h1),
        ),
        r2 matches ControllerType::Config(ConfigControllerType::SettingsRelated(_, h2)) ==> setting_command(
            text::trimmed(rest),
            Ok(h2),
        ),
        !(r1 is Config) ==> setting_command(text::trimmed(rest), Err(r1)) && setting_command(
            text::trimmed(rest),
            Err(r2),
        ),
        r1 is Config || r2 is Config ==> r1 is Config && r2 is Config,
{
    reveal_strlit("room ");
    reveal_strlit("global ");
    reveal_strlit("status");
    reveal_strlit("CONFIG_TYPE");
    let tr = "room "@ + rest;
    let tg = "global "@ + rest;
    text::lemma_differs_at("status"@, tr, 0);
    text::lemma_differs_at("CONFIG_TYPE"@, tr, 0);
    text::lemma_differs_at("status"@, tg, 0);
    text::lemma_differs_at("CONFIG_TYPE"@, tg, 0);
    text::lemma_differs_at("room "@, tg, 0);
    assert(tr.subrange(0, 5) =~= "room "@);
    assert(tr.skip(5) =~= rest);
    assert(tg.subrange(0, 7) =~= "global "@);
    assert(tg.skip(7) =~= rest);
    let t = text::trimmed(rest);
    if let ControllerType::Config(ConfigControllerType::SettingsRelated(_, h1)) = r1 {
        if setting_command(t, Err(r1)) {
            lemma_setting_command_outcome_kind(t, Err(r1), Err(r1));
        }
        if let ControllerType::Config(ConfigControllerType::SettingsRelated(_, _)) = r2 {
            if setting_command(t, Err(r2)) {
                lemma_setting_command_outcome_kind(t, Err(r2), Err(r2));
            }
        } else {
            lemma_setting_command_outcome_kind(t, Ok(h1), Err(r2));
        }
    } else {
        if let ControllerType::Config(ConfigControllerType::SettingsRelated(_, h2)) = r2 {
            if setting_command(t, Err(r2)) {
                lemma_setting_command_outcome_kind(t, Err(r2), Err(r2));
            }
            lemma_setting_command_outcome_kind(t, Ok(h2), Err(r1));
        } else {
            lemma_setting_command_outcome_kind(t, Err(r1), Err(r2));
        }
    }
}

/// Selects the configuration controller for the text that follows `config`.
pub fn determine_controller(text: &str) -> (r: ControllerType)
    ensures
        config_command(text@, r),
{
    if text::starts_with(text, "status") {
        return ControllerType::Config(ConfigControllerType::Status);
    }
    if text::starts_with(text, "CONFIG_TYPE") {
        return ControllerType::Error(strings::cfg::error_config_type_not_replaced());
    }
    if let Some(remaining_text) = text::strip_prefix(text, "room ") {
        return match do_determine_controller(text::trim(remaining_text)) {
            Ok(handler) => ControllerType::Config(
                ConfigControllerType::SettingsRelated(SettingsStorageSource::Room, handler),
            ),
            Err(controller_type) => controller_type,
        };
    }
    if let Some(remaining_text) = text::strip_prefix(text, "global ") {
        return match do_determine_controller(text::trim(remaining_text)) {
            Ok(handler) => ControllerType::Config(
                ConfigControllerType::SettingsRelated(SettingsStorageSource::Global, handler),
            ),
            Err(controller_type) => controller_type,
        };
    }
    ControllerType::Config(ConfigControllerType::Help)
}

fn more_values_expected<T>() -> (r: Result<T, ControllerType>)
    ensures
        is_error_result(r, strings::cfg::configuration_invocation_incorrect_more_values_expected_text()),
{
    Err(ControllerType::Error(strings::cfg::configuration_invocation_incorrect_more_values_expected()))
}

/// Selects the setting for the text that follows `room` or `global`.
pub fn do_determine_controller(text: &str) -> (r: Result<
    ConfigSettingRelatedControllerType,
    ControllerType,
>)
    ensures
        setting_command(text@, r),
{
    if let Some(purpose_str) = text::strip_prefix(text, "handler") {
        let purpose_str = text::trim(purpose_str);
        if purpose_str.is_empty() {
            return more_values_expected();
        }
        let Some(purpose) = AgentPurpose::from_str(purpose_str) else {
            return Err(ControllerType::Error(strings::agent::purpose_unrecognized(purpose_str)));
        };
        return Ok(ConfigSettingRelatedControllerType::GetHandler(purpose));
    }
    if let Some(remaining_text) = text::strip_prefix(text, "set-handler") {
        let remaining_text = text::trim(remaining_text);
        if remaining_text.is_empty() {
            return more_values_expected();
        }
        let (purpose_str, agent_id_string_option) = match text::split_once_char(
            remaining_text,
            ' ',
        ) {
            Some((purpose_str, agent_id_string)) => (purpose_str, Some(agent_id_string)),
            None => (remaining_text, None),
        };
        let Some(purpose) = AgentPurpose::from_str(purpose_str) else {
            return Err(ControllerType::Error(strings::agent::purpose_unrecognized(purpose_str)));
        };
        let agent_identifier = match agent_id_string_option {
            Some(agent_id_string) => {
                let Some(agent_identifier) = PublicIdentifier::from_str(agent_id_string) else {
                    return Err(ControllerType::Error(strings::agent::invalid_id_generic()));
                };
                Some(agent_identifier)
            },
            None => None,
        };
        return Ok(ConfigSettingRelatedControllerType::SetHandler(purpose, agent_identifier));
    }
    if let Some(remaining_text) = text::strip_prefix(text, "text-generation") {
        return match text_generation::determine(text::trim(remaining_text)) {
            Ok(handler) => Ok(ConfigSettingRelatedControllerType::TextGeneration(handler)),
            Err(controller_type) => Err(controller_type),
        };
    }
    if let Some(remaining_text) = text::strip_prefix(text, "text-to-speech") {
        return match text_to_speech::determine(text::trim(remaining_text)) {
            Ok(handler) => Ok(ConfigSettingRelatedControllerType::TextToSpeech(handler)),
            Err(controller_type) => Err(controller_type),
        };
    }
    if let Some(remaining_text) = text::strip_prefix(text, "speech-to-text") {
        return match speech_to_text::determine(text::trim(remaining_text)) {
            Ok(handler) => Ok(ConfigSettingRelatedControllerType::SpeechToText(handler)),
            Err(controller_type) => Err(controller_type),
        };
    }
    Err(ControllerType::Unknown)
}

} // verus!
