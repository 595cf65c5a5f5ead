//! What a setting command does to the settings it addresses: the room's, or
//! the global ones that rooms fall back to. A getter reads a setting and
//! changes nothing; a setter changes exactly its setting. Storing the changed
//! settings and answering the user is left to the caller.
use vstd::prelude::*;

use super::speech_to_text::ConfigSpeechToTextSettingRelatedControllerType;
use super::text_generation::ConfigTextGenerationSettingRelatedControllerType;
use super::text_to_speech::ConfigTextToSpeechSettingRelatedControllerType;
use super::speech_to_text::speech_to_text_command;
use super::text_generation::text_generation_command;
use super::text_to_speech::text_to_speech_command;
use super::{ConfigSettingRelatedControllerType, SettingsStorageSource};
use crate::controller::ControllerType;
use crate::text::lemma_differs_at;
use crate::agent::{contains_agent, has_agent, AgentPurpose, IdentifierView, PublicIdentifier};
use crate::roomconfig::{
    RoomSettings, RoomSettingsHandler, SpeechToTextFlowType,
    SpeechToTextMessageTypeForNonThreadedOnlyTranscribedMessages, SpeechToTextSettings,
    TextGenerationAutoUsage, TextGenerationPrefixRequirementType, TextGenerationSettings,
    TextToSpeechBotMessagesFlowType, TextToSpeechSettings, TextToSpeechUserMessagesFlowType,
};
use crate::text;

verus! {

/// The value of a setting, as a command shows or sets it.
#[derive(Debug, PartialEq)]
pub enum SettingValue {
    /// An on/off setting.
    Flag(bool),
    /// Whether messages need the command prefix.
    PrefixRequirementType(TextGenerationPrefixRequirementType),
    /// When text generation runs by itself.
    AutoUsage(TextGenerationAutoUsage),
    /// What happens to voice messages.
    FlowType(SpeechToTextFlowType),
    /// The message type of transcriptions outside threads.
    MsgType(SpeechToTextMessageTypeForNonThreadedOnlyTranscribedMessages),
    /// When the bot's messages are turned into voice.
    BotMsgsFlowType(TextToSpeechBotMessagesFlowType),
    /// When users' messages are turned into voice.
    UserMsgsFlowType(TextToSpeechUserMessagesFlowType),
    /// A text (a prompt, a language code, a voice, or the text of a number).
    Text(String),
}

/// What a setting command did.
#[derive(Debug, PartialEq)]
pub enum SettingOutcome {
    /// A getter: the value stored, `None` when the setting is unset.
    Current(Option<SettingValue>),
    /// A setter: the value now stored, `None` when the setting was unset.
    Changed(Option<SettingValue>),
}

/// An optional setting as an optional value.
pub open spec fn value_of<T>(o: Option<T>, f: spec_fn(T) -> SettingValue) -> Option<SettingValue> {
    match o {
        Some(x) => Some(f(x)),
        None => None,
    }
}

/// An optional text setting as an optional value.
pub open spec fn text_value(o: Option<String>) -> Option<SettingValue> {
    value_of(o, |s: String| SettingValue::Text(s))
}

fn shown_text(o: &Option<String>) -> (r: Option<SettingValue>)
    ensures
        r == text_value(*o),
{
    match o {
        Some(s) => Some(SettingValue::Text(s.clone())),
        None => None,
    }
}

/// What a text-generation setting command does to the text-generation
/// settings, and what it reports.
pub open spec fn text_generation_effect(
    h: ConfigTextGenerationSettingRelatedControllerType,
    before: TextGenerationSettings,
    after: TextGenerationSettings,
    r: SettingOutcome,
) -> bool {
    match h {
        ConfigTextGenerationSettingRelatedControllerType::GetContextManagementEnabled => after
            == before && r == SettingOutcome::Current(
            value_of(before.context_management_enabled, |x: bool| SettingValue::Flag(x)),
        ),
        ConfigTextGenerationSettingRelatedControllerType::SetContextManagementEnabled(v) => after
            == TextGenerationSettings { context_management_enabled: v, ..before } && r
            == SettingOutcome::Changed(value_of(v, |x: bool| SettingValue::Flag(x))),
        ConfigTextGenerationSettingRelatedControllerType::GetPrefixRequirementType => after
            == before && r == SettingOutcome::Current(
            value_of(
                before.prefix_requirement_type,
                |x: TextGenerationPrefixRequirementType| SettingValue::PrefixRequirementType(x),
            ),
        ),
        ConfigTextGenerationSettingRelatedControllerType::SetPrefixRequirementType(v) => after
            == TextGenerationSettings { prefix_requirement_type: v, ..before } && r
            == SettingOutcome::Changed(
            value_of(
                v,
                |x: TextGenerationPrefixRequirementType| SettingValue::PrefixRequirementType(x),
            ),
        ),
        ConfigTextGenerationSettingRelatedControllerType::GetAutoUsage => after == before && r
            == SettingOutcome::Current(
            value_of(before.auto_usage, |x: TextGenerationAutoUsage| SettingValue::AutoUsage(x)),
        ),
        ConfigTextGenerationSettingRelatedControllerType::SetAutoUsage(v) => after
            == TextGenerationSettings { auto_usage: v, ..before } && r == SettingOutcome::Changed(
            value_of(v, |x: TextGenerationAutoUsage| SettingValue::AutoUsage(x)),
        ),
        ConfigTextGenerationSettingRelatedControllerType::GetPromptOverride => after == before
            && r == SettingOutcome::Current(text_value(before.prompt_override)),
        ConfigTextGenerationSettingRelatedControllerType::SetPromptOverride(v) => after
            == TextGenerationSettings { prompt_override: v, ..before } && r
            == SettingOutcome::Changed(text_value(v)),
        ConfigTextGenerationSettingRelatedControllerType::GetTemperatureOverride => after == before
            && r == SettingOutcome::Current(text_value(before.temperature_override)),
        ConfigTextGenerationSettingRelatedControllerType::SetTemperatureOverride(v) => after
            == TextGenerationSettings { temperature_override: v, ..before } && r
            == SettingOutcome::Changed(text_value(v)),
    }
}

/// Carries out a text-generation setting command on the text-generation
/// settings.
pub fn dispatch_text_generation(
    handler: ConfigTextGenerationSettingRelatedControllerType,
    settings: &mut TextGenerationSettings,
) -> (r: SettingOutcome)
    ensures
        text_generation_effect(handler, *old(settings), *final(settings), r),
{
    match handler {
        ConfigTextGenerationSettingRelatedControllerType::GetContextManagementEnabled => {
            SettingOutcome::Current(
                match settings.context_management_enabled {
                    Some(x) => Some(SettingValue::Flag(x)),
                    None => None,
                },
            )
        },
        ConfigTextGenerationSettingRelatedControllerType::SetContextManagementEnabled(v) => {
            settings.context_management_enabled = v;
            SettingOutcome::Changed(
                match v {
                    Some(x) => Some(SettingValue::Flag(x)),
                    None => None,
                },
            )
        },
        ConfigTextGenerationSettingRelatedControllerType::GetPrefixRequirementType => {
            SettingOutcome::Current(
                match settings.prefix_requirement_type {
                    Some(x) => Some(SettingValue::PrefixRequirementType(x)),
                    None => None,
                },
            )
        },
        ConfigTextGenerationSettingRelatedControllerType::SetPrefixRequirementType(v) => {
            settings.prefix_requirement_type = v;
            SettingOutcome::Changed(
                match v {
                    Some(x) => Some(SettingValue::PrefixRequirementType(x)),
                    None => None,
                },
            )
        },
        ConfigTextGenerationSettingRelatedControllerType::GetAutoUsage => {
            SettingOutcome::Current(
                match settings.auto_usage {
                    Some(x) => Some(SettingValue::AutoUsage(x)),
                    None => None,
                },
            )
        },
        ConfigTextGenerationSettingRelatedControllerType::SetAutoUsage(v) => {
            settings.auto_usage = v;
            SettingOutcome::Changed(
                match v {
                    Some(x) => Some(SettingValue::AutoUsage(x)),
                    None => None,
                },
            )
        },
        ConfigTextGenerationSettingRelatedControllerType::GetPromptOverride => {
            SettingOutcome::Current(shown_text(&settings.prompt_override))
        },
        ConfigTextGenerationSettingRelatedControllerType::SetPromptOverride(v) => {
            let shown = shown_text(&v);
            settings.prompt_override = v;
            SettingOutcome::Changed(shown)
        },
        ConfigTextGenerationSettingRelatedControllerType::GetTemperatureOverride => {
            SettingOutcome::Current(shown_text(&settings.temperature_override))
        },
        ConfigTextGenerationSettingRelatedControllerType::SetTemperatureOverride(v) => {
            let shown = shown_text(&v);
            settings.temperature_override = v;
            SettingOutcome::Changed(shown)
        },
    }
}

/// What a speech-to-text setting command does to the speech-to-text settings, and
/// what it reports.
pub open spec fn speech_to_text_effect(
    h: ConfigSpeechToTextSettingRelatedControllerType,
    before: SpeechToTextSettings,
    after: SpeechToTextSettings,
    r: SettingOutcome,
) -> bool {
    match h {
        ConfigSpeechToTextSettingRelatedControllerType::GetFlowType => after == before && r == SettingOutcome::Current(
            value_of(before.flow_type, |x: SpeechToTextFlowType| SettingValue::FlowType(x)),
        ),
        ConfigSpeechToTextSettingRelatedControllerType::SetFlowType(v) => after == SpeechToTextSettings { flow_type: v, ..before } && r
            == SettingOutcome::Changed(value_of(v, |x: SpeechToTextFlowType| SettingValue::FlowType(x))),
        ConfigSpeechToTextSettingRelatedControllerType::GetMsgTypeForNonThreadedOnlyTranscribedMessages => after == before && r == SettingOutcome::Current(
            value_of(before.msg_type_for_non_threaded_only_transcribed_messages, |x: SpeechToTextMessageTypeForNonThreadedOnlyTranscribedMessages| SettingValue::MsgType(x)),
        ),
        ConfigSpeechToTextSettingRelatedControllerType::SetMsgTypeForNonThreadedOnlyTranscribedMessages(v) => after == SpeechToTextSettings { msg_type_for_non_threaded_only_transcribed_messages: v, ..before } && r
            == SettingOutcome::Changed(value_of(v, |x: SpeechToTextMessageTypeForNonThreadedOnlyTranscribedMessages| SettingValue::MsgType(x))),
        ConfigSpeechToTextSettingRelatedControllerType::GetLanguage => after == before && r == SettingOutcome::Current(
            text_value(before.language),
        ),
        ConfigSpeechToTextSettingRelatedControllerType::SetLanguage(v) => after == SpeechToTextSettings { language: v, ..before } && r
            == SettingOutcome::Changed(text_value(v)),
    }
}

/// Carries out a speech-to-text setting command on the speech-to-text settings.
pub fn dispatch_speech_to_text(
    handler: ConfigSpeechToTextSettingRelatedControllerType,
    settings: &mut SpeechToTextSettings,
) -> (r: SettingOutcome)
    ensures
        speech_to_text_effect(handler, *old(settings), *final(settings), r),
{
    match handler {
        ConfigSpeechToTextSettingRelatedControllerType::GetFlowType => {
            SettingOutcome::Current(
                match settings.flow_type {
                    Some(x) => Some(SettingValue::FlowType(x)),
                    None => None,
                },
            )
        },
        ConfigSpeechToTextSettingRelatedControllerType::SetFlowType(v) => {
            settings.flow_type = v;
            SettingOutcome::Changed(
                match v {
                    Some(x) => Some(SettingValue::FlowType(x)),
                    None => None,
                },
            )
        },
        ConfigSpeechToTextSettingRelatedControllerType::GetMsgTypeForNonThreadedOnlyTranscribedMessages => {
            SettingOutcome::Current(
                match settings.msg_type_for_non_threaded_only_transcribed_messages {
                    Some(x) => Some(SettingValue::MsgType(x)),
                    None => None,
                },
            )
        },
        ConfigSpeechToTextSettingRelatedControllerType::SetMsgTypeForNonThreadedOnlyTranscribedMessages(v) => {
            settings.msg_type_for_non_threaded_only_transcribed_messages = v;
            SettingOutcome::Changed(
                match v {
                    Some(x) => Some(SettingValue::MsgType(x)),
                    None => None,
                },
            )
        },
        ConfigSpeechToTextSettingRelatedControllerType::GetLanguage => {
            SettingOutcome::Current(shown_text(&settings.language))
        },
        ConfigSpeechToTextSettingRelatedControllerType::SetLanguage(v) => {
            let shown = shown_text(&v);
            settings.language = v;
            SettingOutcome::Changed(shown)
        },
    }
}

/// What a text-to-speech setting command does to the text-to-speech settings, and
/// what it reports.
pub open spec fn text_to_speech_effect(
    h: ConfigTextToSpeechSettingRelatedControllerType,
    before: TextToSpeechSettings,
    after: TextToSpeechSettings,
    r: SettingOutcome,
) -> bool {
    match h {
        ConfigTextToSpeechSettingRelatedControllerType::GetBotMessagesFlowType => after == before && r == SettingOutcome::Current(
            value_of(before.bot_msgs_flow_type, |x: TextToSpeechBotMessagesFlowType| SettingValue::BotMsgsFlowType(x)),
        ),
        ConfigTextToSpeechSettingRelatedControllerType::SetBotMessagesFlowType(v) => after == TextToSpeechSettings { bot_msgs_flow_type: v, ..before } && r
            == SettingOutcome::Changed(value_of(v, |x: TextToSpeechBotMessagesFlowType| SettingValue::BotMsgsFlowType(x))),
        ConfigTextToSpeechSettingRelatedControllerType::GetUserMessagesFlowType => after == before && r == SettingOutcome::Current(
            value_of(before.user_msgs_flow_type, |x: TextToSpeechUserMessagesFlowType| SettingValue::UserMsgsFlowType(x)),
        ),
        ConfigTextToSpeechSettingRelatedControllerType::SetUserMessagesFlowType(v) => after == TextToSpeechSettings { user_msgs_flow_type: v, ..before } && r
            == SettingOutcome::Changed(value_of(v, |x: TextToSpeechUserMessagesFlowType| SettingValue::UserMsgsFlowType(x))),
        ConfigTextToSpeechSettingRelatedControllerType::GetSpeedOverride => after == before && r == SettingOutcome::Current(
            text_value(before.speed_override),
        ),
        ConfigTextToSpeechSettingRelatedControllerType::SetSpeedOverride(v) => after == TextToSpeechSettings { speed_override: v, ..before } && r
            == SettingOutcome::Changed(text_value(v)),
        ConfigTextToSpeechSettingRelatedControllerType::GetVoiceOverride => after == before && r == SettingOutcome::Current(
            text_value(before.voice_override),
        ),
        ConfigTextToSpeechSettingRelatedControllerType::SetVoiceOverride(v) => after == TextToSpeechSettings { voice_override: v, ..before } && r
            == SettingOutcome::Changed(text_value(v)),
    }
}

/// Carries out a text-to-speech setting command on the text-to-speech settings.
pub fn dispatch_text_to_speech(
    handler: ConfigTextToSpeechSettingRelatedControllerType,
    settings: &mut TextToSpeechSettings,
) -> (r: SettingOutcome)
    ensures
        text_to_speech_effect(handler, *old(settings), *final(settings), r),
{
    match handler {
        ConfigTextToSpeechSettingRelatedControllerType::GetBotMessagesFlowType => {
            SettingOutcome::Current(
                match settings.bot_msgs_flow_type {
                    Some(x) => Some(SettingValue::BotMsgsFlowType(x)),
                    None => None,
                },
            )
        },
        ConfigTextToSpeechSettingRelatedControllerType::SetBotMessagesFlowType(v) => {
            settings.bot_msgs_flow_type = v;
            SettingOutcome::Changed(
                match v {
                    Some(x) => Some(SettingValue::BotMsgsFlowType(x)),
                    None => None,
                },
            )
        },
        ConfigTextToSpeechSettingRelatedControllerType::GetUserMessagesFlowType => {
            SettingOutcome::Current(
                match settings.user_msgs_flow_type {
                    Some(x) => Some(SettingValue::UserMsgsFlowType(x)),
                    None => None,
                },
            )
        },
        ConfigTextToSpeechSettingRelatedControllerType::SetUserMessagesFlowType(v) => {
            settings.user_msgs_flow_type = v;
            SettingOutcome::Changed(
                match v {
                    Some(x) => Some(SettingValue::UserMsgsFlowType(x)),
                    None => None,
                },
            )
        },
        ConfigTextToSpeechSettingRelatedControllerType::GetSpeedOverride => {
            SettingOutcome::Current(shown_text(&settings.speed_override))
        },
        ConfigTextToSpeechSettingRelatedControllerType::SetSpeedOverride(v) => {
            let shown = shown_text(&v);
            settings.speed_override = v;
            SettingOutcome::Changed(shown)
        },
        ConfigTextToSpeechSettingRelatedControllerType::GetVoiceOverride => {
            SettingOutcome::Current(shown_text(&settings.voice_override))
        },
        ConfigTextToSpeechSettingRelatedControllerType::SetVoiceOverride(v) => {
            let shown = shown_text(&v);
            settings.voice_override = v;
            SettingOutcome::Changed(shown)
        },
    }
}

/// What showing the agent configured for a purpose finds.
#[derive(Debug, PartialEq)]
pub enum HandlerGetOutcome {
    /// No agent is configured for the purpose.
    NotConfigured(AgentPurpose),
    /// What is configured is not an agent identifier.
    InvalidIdentifier,
    /// This agent is configured for the purpose; `exists` tells whether an
    /// available agent has its identifier.
    Configured { agent: PublicIdentifier, purpose: AgentPurpose, exists: bool },
}

/// What showing the agent configured for `purpose` finds.
pub open spec fn handler_get_result(
    handler: RoomSettingsHandler,
    purpose: AgentPurpose,
    available: Seq<PublicIdentifier>,
    o: HandlerGetOutcome,
) -> bool {
    match handler.by_purpose(purpose) {
        None => o == HandlerGetOutcome::NotConfigured(purpose),
        Some(t) => match IdentifierView::parse(t) {
            None => o == HandlerGetOutcome::InvalidIdentifier,
            Some(v) => o matches HandlerGetOutcome::Configured { agent, purpose: p, exists }
                && agent@ == v && p == purpose && exists == has_agent(available, v),
        },
    }
}

/// Shows the agent configured for a purpose, among the available agents.
pub fn handle_get(
    handler: &RoomSettingsHandler,
    purpose: AgentPurpose,
    available: &Vec<PublicIdentifier>,
) -> (r: HandlerGetOutcome)
    ensures
        handler_get_result(*handler, purpose, available@, r),
{
    let agent_id = match handler.get_by_purpose(purpose) {
        Some(agent_id) => agent_id,
        None => {
            return HandlerGetOutcome::NotConfigured(purpose);
        },
    };
    let agent = match PublicIdentifier::from_str(agent_id.as_str()) {
        Some(agent) => agent,
        None => {
            return HandlerGetOutcome::InvalidIdentifier;
        },
    };
    let exists = contains_agent(available, &agent);
    HandlerGetOutcome::Configured { agent, purpose, exists }
}

/// What configuring the agent for a purpose did.
#[derive(Debug, PartialEq)]
pub enum HandlerSetOutcome {
    /// Room-local agents cannot be configured in the global configuration.
    NotAllowedInGlobalConfig(PublicIdentifier),
    /// No available agent has this identifier.
    AgentMissing(PublicIdentifier),
    /// The purpose is now handled by this agent (`None`: by no agent of its
    /// own).
    Changed(AgentPurpose, Option<PublicIdentifier>),
}

/// Whether `after` configures `agent` (an identifier text) for `purpose`
/// and leaves the other purposes as `before` configures them.
pub open spec fn handler_after(
    before: RoomSettingsHandler,
    after: RoomSettingsHandler,
    purpose: AgentPurpose,
    agent: Option<Seq<char>>,
) -> bool {
    forall|p: AgentPurpose|
        #[trigger] after.by_purpose(p) == if p == purpose {
            agent
        } else {
            before.by_purpose(p)
        }
}

/// What configuring `agent` for `purpose` does: in the global
/// configuration a room-local agent is refused; an agent that is not
/// available is refused; otherwise the purpose is configured with it.
/// Configuring no agent always succeeds.
pub open spec fn handler_set_effect(
    before: RoomSettingsHandler,
    after: RoomSettingsHandler,
    purpose: AgentPurpose,
    agent: Option<PublicIdentifier>,
    available: Seq<PublicIdentifier>,
    is_for_global_config: bool,
    o: HandlerSetOutcome,
) -> bool {
    match agent {
        Some(id) => if is_for_global_config && id is DynamicRoomLocal {
            o == HandlerSetOutcome::NotAllowedInGlobalConfig(id) && after == before
        } else if !has_agent(available, id@) {
            o == HandlerSetOutcome::AgentMissing(id) && after == before
        } else {
            o == HandlerSetOutcome::Changed(purpose, Some(id)) && handler_after(
                before,
                after,
                purpose,
                Some(id@.text()),
            )
        },
        None => o == HandlerSetOutcome::Changed(purpose, None) && handler_after(
            before,
            after,
            purpose,
            None,
        ),
    }
}

/// Configures the agent for a purpose in the room's (or, with
/// `is_for_global_config`, the global) handler settings.
pub fn handle_set(
    handler: &mut RoomSettingsHandler,
    purpose: AgentPurpose,
    agent: Option<PublicIdentifier>,
    available: &Vec<PublicIdentifier>,
    is_for_global_config: bool,
) -> (r: HandlerSetOutcome)
    ensures
        handler_set_effect(
            *old(handler),
            *final(handler),
            purpose,
            agent,
            available@,
            is_for_global_config,
            r,
        ),
{
    match agent {
        Some(id) => {
            if is_for_global_config {
                if let PublicIdentifier::DynamicRoomLocal(_) = &id {
                    return HandlerSetOutcome::NotAllowedInGlobalConfig(id);
                }
            }
            if !contains_agent(available, &id) {
                return HandlerSetOutcome::AgentMissing(id);
            }
            let agent_id = id.as_string();
            handler.set_by_purpose(purpose, Some(agent_id));
            HandlerSetOutcome::Changed(purpose, Some(id))
        },
        None => {
            handler.set_by_purpose(purpose, None);
            HandlerSetOutcome::Changed(purpose, None)
        },
    }
}

/// What a setting command did to the settings it addresses.
#[derive(Debug, PartialEq)]
pub enum ConfigOutcome {
    /// The sender may not administer the global configuration.
    NotPermittedToAdministrate,
    /// The agent configured for a purpose was looked up.
    HandlerShown(HandlerGetOutcome),
    /// The agent for a purpose was configured, or refused.
    HandlerSet(HandlerSetOutcome),
    /// Any other setting was read or changed.
    Setting(SettingOutcome),
}

/// What a setting command does to one set of settings: it reads or changes
/// one setting, and leaves every other setting as it is.
pub open spec fn settings_effect(
    h: ConfigSettingRelatedControllerType,
    before: RoomSettings,
    after: RoomSettings,
    available: Seq<PublicIdentifier>,
    is_for_global_config: bool,
    r: ConfigOutcome,
) -> bool {
    match h {
        ConfigSettingRelatedControllerType::GetHandler(p) => after == before && (
        r matches ConfigOutcome::HandlerShown(o) && handler_get_result(
            before.handler,
            p,
            available,
            o,
        )),
        ConfigSettingRelatedControllerType::SetHandler(p, id) => r matches ConfigOutcome::HandlerSet(o)
            && handler_set_effect(
            before.handler,
            after.handler,
            p,
            id,
            available,
            is_for_global_config,
            o,
        ) && after.text_generation == before.text_generation && after.speech_to_text
            == before.speech_to_text && after.text_to_speech == before.text_to_speech,
        ConfigSettingRelatedControllerType::TextGeneration(t) => r matches ConfigOutcome::Setting(o)
            && text_generation_effect(t, before.text_generation, after.text_generation, o)
            && after.handler == before.handler && after.speech_to_text == before.speech_to_text
            && after.text_to_speech == before.text_to_speech,
        ConfigSettingRelatedControllerType::SpeechToText(t) => r matches ConfigOutcome::Setting(o)
            && speech_to_text_effect(t, before.speech_to_text, after.speech_to_text, o)
            && after.handler == before.handler && after.text_generation == before.text_generation
            && after.text_to_speech == before.text_to_speech,
        ConfigSettingRelatedControllerType::TextToSpeech(t) => r matches ConfigOutcome::Setting(o)
            && text_to_speech_effect(t, before.text_to_speech, after.text_to_speech, o)
            && after.handler == before.handler && after.text_generation == before.text_generation
            && after.speech_to_text == before.speech_to_text,
    }
}

fn apply_to_settings(
    handler: ConfigSettingRelatedControllerType,
    settings: &mut RoomSettings,
    available: &Vec<PublicIdentifier>,
    is_for_global_config: bool,
) -> (r: ConfigOutcome)
    ensures
        settings_effect(handler, *old(settings), *final(settings), available@, is_for_global_config, r),
{
    match handler {
        ConfigSettingRelatedControllerType::GetHandler(purpose) => {
            ConfigOutcome::HandlerShown(handle_get(&settings.handler, purpose, available))
        },
        ConfigSettingRelatedControllerType::SetHandler(purpose, agent) => {
            ConfigOutcome::HandlerSet(
                handle_set(&mut settings.handler, purpose, agent, available, is_for_global_config),
            )
        },
        ConfigSettingRelatedControllerType::TextGeneration(h) => {
            ConfigOutcome::Setting(dispatch_text_generation(h, &mut settings.text_generation))
        },
        ConfigSettingRelatedControllerType::SpeechToText(h) => {
            ConfigOutcome::Setting(dispatch_speech_to_text(h, &mut settings.speech_to_text))
        },
        ConfigSettingRelatedControllerType::TextToSpeech(h) => {
            ConfigOutcome::Setting(dispatch_text_to_speech(h, &mut settings.text_to_speech))
        },
    }
}

/// Carries out a setting command on the room's settings or on the global
/// ones, which only senders who may administer the global configuration
/// reach; the other set of settings is left as it is.
pub fn dispatch_config_related_handler(
    config_type: SettingsStorageSource,
    handler: ConfigSettingRelatedControllerType,
    sender_can_manage_global_config: bool,
    room: &mut RoomSettings,
    global: &mut RoomSettings,
    available_agents: &Vec<PublicIdentifier>,
) -> (r: ConfigOutcome)
    ensures
        match config_type {
            SettingsStorageSource::Room => *final(global) == *old(global) && settings_effect(
                handler,
                *old(room),
                *final(room),
                available_agents@,
                false,
                r,
            ),
            SettingsStorageSource::Global => *final(room) == *old(room) && if sender_can_manage_global_config {
                settings_effect(handler, *old(global), *final(global), available_agents@, true, r)
            } else {
                r == ConfigOutcome::NotPermittedToAdministrate && *final(global) == *old(global)
            },
        },
{
    match config_type {
        SettingsStorageSource::Room => apply_to_settings(handler, room, available_agents, false),
        SettingsStorageSource::Global => {
            if !sender_can_manage_global_config {
                return ConfigOutcome::NotPermittedToAdministrate;
            }
            apply_to_settings(handler, global, available_agents, true)
        },
    }
}

/// The getter that shows the setting a setter changes; `None` for a getter.
pub open spec fn getter_of(h: ConfigSettingRelatedControllerType) -> Option<
    ConfigSettingRelatedControllerType,
> {
    match h {
        ConfigSettingRelatedControllerType::GetHandler(_) => None,
        ConfigSettingRelatedControllerType::SetHandler(p, _) => Some(
            ConfigSettingRelatedControllerType::GetHandler(p),
        ),
        ConfigSettingRelatedControllerType::TextGeneration(t) => match t {
            ConfigTextGenerationSettingRelatedControllerType::SetContextManagementEnabled(_) => Some(
                ConfigSettingRelatedControllerType::TextGeneration(ConfigTextGenerationSettingRelatedControllerType::GetContextManagementEnabled),
            ),
            ConfigTextGenerationSettingRelatedControllerType::SetPrefixRequirementType(_) => Some(
                ConfigSettingRelatedControllerType::TextGeneration(ConfigTextGenerationSettingRelatedControllerType::GetPrefixRequirementType),
            ),
            ConfigTextGenerationSettingRelatedControllerType::SetAutoUsage(_) => Some(
                ConfigSettingRelatedControllerType::TextGeneration(ConfigTextGenerationSettingRelatedControllerType::GetAutoUsage),
            ),
            ConfigTextGenerationSettingRelatedControllerType::SetPromptOverride(_) => Some(
                ConfigSettingRelatedControllerType::TextGeneration(ConfigTextGenerationSettingRelatedControllerType::GetPromptOverride),
            ),
            ConfigTextGenerationSettingRelatedControllerType::SetTemperatureOverride(_) => Some(
                ConfigSettingRelatedControllerType::TextGeneration(ConfigTextGenerationSettingRelatedControllerType::GetTemperatureOverride),
            ),
            _ => None,
        },
        ConfigSettingRelatedControllerType::SpeechToText(t) => match t {
            ConfigSpeechToTextSettingRelatedControllerType::SetFlowType(_) => Some(
                ConfigSettingRelatedControllerType::SpeechToText(ConfigSpeechToTextSettingRelatedControllerType::GetFlowType),
            ),
            ConfigSpeechToTextSettingRelatedControllerType::SetMsgTypeForNonThreadedOnlyTranscribedMessages(_) => Some(
                ConfigSettingRelatedControllerType::SpeechToText(ConfigSpeechToTextSettingRelatedControllerType::GetMsgTypeForNonThreadedOnlyTranscribedMessages),
            ),
            ConfigSpeechToTextSettingRelatedControllerType::SetLanguage(_) => Some(
                ConfigSettingRelatedControllerType::SpeechToText(ConfigSpeechToTextSettingRelatedControllerType::GetLanguage),
            ),
            _ => None,
        },
        ConfigSettingRelatedControllerType::TextToSpeech(t) => match t {
            ConfigTextToSpeechSettingRelatedControllerType::SetBotMessagesFlowType(_) => Some(
                ConfigSettingRelatedControllerType::TextToSpeech(ConfigTextToSpeechSettingRelatedControllerType::GetBotMessagesFlowType),
            ),
            ConfigTextToSpeechSettingRelatedControllerType::SetUserMessagesFlowType(_) => Some(
                ConfigSettingRelatedControllerType::TextToSpeech(ConfigTextToSpeechSettingRelatedControllerType::GetUserMessagesFlowType),
            ),
            ConfigTextToSpeechSettingRelatedControllerType::SetSpeedOverride(_) => Some(
                ConfigSettingRelatedControllerType::TextToSpeech(ConfigTextToSpeechSettingRelatedControllerType::GetSpeedOverride),
            ),
            ConfigTextToSpeechSettingRelatedControllerType::SetVoiceOverride(_) => Some(
                ConfigSettingRelatedControllerType::TextToSpeech(ConfigTextToSpeechSettingRelatedControllerType::GetVoiceOverride),
            ),
            _ => None,
        },
    }
}

/// A read gives back what a write wrote: after a setter changes a setting,
/// the getter of that setting, on the settings it left, shows the value that
/// the setter reported, and leaves the settings as they are. After an agent
/// was configured for a purpose, showing that purpose's agent finds it, and
/// finds it available; after the agent was unset, it finds none.
pub proof fn lemma_read_after_write(
    set: ConfigSettingRelatedControllerType,
    get: ConfigSettingRelatedControllerType,
    s0: RoomSettings,
    s1: RoomSettings,
    s2: RoomSettings,
    available: Seq<PublicIdentifier>,
    is_for_global_config: bool,
    r1: ConfigOutcome,
    r2: ConfigOutcome,
)
    requires
        getter_of(set) == Some(get),
        settings_effect(set, s0, s1, available, is_for_global_config, r1),
        settings_effect(get, s1, s2, available, is_for_global_config, r2),
    ensures
        s2 == s1,
        r1 matches ConfigOutcome::Setting(SettingOutcome::Changed(v)) ==> r2 == ConfigOutcome::Setting(
            SettingOutcome::Current(v),
        ),
        r1 matches ConfigOutcome::HandlerSet(HandlerSetOutcome::Changed(p, Some(id))) ==> (
        r2 matches ConfigOutcome::HandlerShown(
            HandlerGetOutcome::Configured { agent, purpose, exists },
        ) && agent@ == id@ && purpose == p && exists),
        r1 matches ConfigOutcome::HandlerSet(HandlerSetOutcome::Changed(p, None)) ==> r2
            == ConfigOutcome::HandlerShown(HandlerGetOutcome::NotConfigured(p)),
{
    if let ConfigSettingRelatedControllerType::SetHandler(p, Some(id)) = set {
        crate::agent::lemma_identifier_text_parses(id@);
        assert(s1.handler.by_purpose(p) == s1.handler.by_purpose(p));
    }
    if let ConfigSettingRelatedControllerType::SetHandler(p, None) = set {
        assert(s1.handler.by_purpose(p) == s1.handler.by_purpose(p));
    }
}

/// Each text-generation getter's command word, with nothing after it, selects the
/// getter of its own setting: the one that shows what the setter of the same
/// name changes.
pub proof fn lemma_text_generation_getter_words_select_their_setting()
    ensures
        forall|r| #[trigger]
            text_generation_command("context-management-enabled"@, r) ==> r == Ok::<ConfigTextGenerationSettingRelatedControllerType, ControllerType>(
                ConfigTextGenerationSettingRelatedControllerType::GetContextManagementEnabled,
            ) && getter_of(
                ConfigSettingRelatedControllerType::TextGeneration(ConfigTextGenerationSettingRelatedControllerType::SetContextManagementEnabled(None)),
            ) == Some(ConfigSettingRelatedControllerType::TextGeneration(ConfigTextGenerationSettingRelatedControllerType::GetContextManagementEnabled)),
        forall|r| #[trigger]
            text_generation_command("prefix-requirement-type"@, r) ==> r == Ok::<ConfigTextGenerationSettingRelatedControllerType, ControllerType>(
                ConfigTextGenerationSettingRelatedControllerType::GetPrefixRequirementType,
            ) && getter_of(
                ConfigSettingRelatedControllerType::TextGeneration(ConfigTextGenerationSettingRelatedControllerType::SetPrefixRequirementType(None)),
            ) == Some(ConfigSettingRelatedControllerType::TextGeneration(ConfigTextGenerationSettingRelatedControllerType::GetPrefixRequirementType)),
        forall|r| #[trigger]
            text_generation_command("auto-usage"@, r) ==> r == Ok::<ConfigTextGenerationSettingRelatedControllerType, ControllerType>(
                ConfigTextGenerationSettingRelatedControllerType::GetAutoUsage,
            ) && getter_of(
                ConfigSettingRelatedControllerType::TextGeneration(ConfigTextGenerationSettingRelatedControllerType::SetAutoUsage(None)),
            ) == Some(ConfigSettingRelatedControllerType::TextGeneration(ConfigTextGenerationSettingRelatedControllerType::GetAutoUsage)),
        forall|r| #[trigger]
            text_generation_command("prompt-override"@, r) ==> r == Ok::<ConfigTextGenerationSettingRelatedControllerType, ControllerType>(
                ConfigTextGenerationSettingRelatedControllerType::GetPromptOverride,
            ) && getter_of(
                ConfigSettingRelatedControllerType::TextGeneration(ConfigTextGenerationSettingRelatedControllerType::SetPromptOverride(None)),
            ) == Some(ConfigSettingRelatedControllerType::TextGeneration(ConfigTextGenerationSettingRelatedControllerType::GetPromptOverride)),
        forall|r| #[trigger]
            text_generation_command("temperature-override"@, r) ==> r == Ok::<ConfigTextGenerationSettingRelatedControllerType, ControllerType>(
                ConfigTextGenerationSettingRelatedControllerType::GetTemperatureOverride,
            ) && getter_of(
                ConfigSettingRelatedControllerType::TextGeneration(ConfigTextGenerationSettingRelatedControllerType::SetTemperatureOverride(None)),
            ) == Some(ConfigSettingRelatedControllerType::TextGeneration(ConfigTextGenerationSettingRelatedControllerType::GetTemperatureOverride)),
{
    reveal_strlit("context-management-enabled");
    reveal_strlit("set-context-management-enabled");
    reveal_strlit("prefix-requirement-type");
    reveal_strlit("set-prefix-requirement-type");
    reveal_strlit("auto-usage");
    reveal_strlit("set-auto-usage");
    reveal_strlit("prompt-override");
    reveal_strlit("set-prompt-override");
    reveal_strlit("temperature-override");
    reveal_strlit("set-temperature-override");
    assert("context-management-enabled"@.skip("context-management-enabled"@.len() as int) =~= Seq::<char>::empty());
    lemma_differs_at("context-management-enabled"@, "prefix-requirement-type"@, 0);
    lemma_differs_at("set-context-management-enabled"@, "prefix-requirement-type"@, 0);
    assert("prefix-requirement-type"@.skip("prefix-requirement-type"@.len() as int) =~= Seq::<char>::empty());
    lemma_differs_at("context-management-enabled"@, "auto-usage"@, 0);
    lemma_differs_at("set-context-management-enabled"@, "auto-usage"@, 0);
    lemma_differs_at("prefix-requirement-type"@, "auto-usage"@, 0);
    lemma_differs_at("set-prefix-requirement-type"@, "auto-usage"@, 0);
    assert("auto-usage"@.skip("auto-usage"@.len() as int) =~= Seq::<char>::empty());
    lemma_differs_at("context-management-enabled"@, "prompt-override"@, 0);
    lemma_differs_at("set-context-management-enabled"@, "prompt-override"@, 0);
    lemma_differs_at("prefix-requirement-type"@, "prompt-override"@, 2);
    lemma_differs_at("set-prefix-requirement-type"@, "prompt-override"@, 0);
    lemma_differs_at("auto-usage"@, "prompt-override"@, 0);
    lemma_differs_at("set-auto-usage"@, "prompt-override"@, 0);
    assert("prompt-override"@.skip("prompt-override"@.len() as int) =~= Seq::<char>::empty());
    lemma_differs_at("context-management-enabled"@, "temperature-override"@, 0);
    lemma_differs_at("set-context-management-enabled"@, "temperature-override"@, 0);
    lemma_differs_at("prefix-requirement-type"@, "temperature-override"@, 0);
    lemma_differs_at("set-prefix-requirement-type"@, "temperature-override"@, 0);
    lemma_differs_at("auto-usage"@, "temperature-override"@, 0);
    lemma_differs_at("set-auto-usage"@, "temperature-override"@, 0);
    lemma_differs_at("prompt-override"@, "temperature-override"@, 0);
    lemma_differs_at("set-prompt-override"@, "temperature-override"@, 0);
    assert("temperature-override"@.skip("temperature-override"@.len() as int) =~= Seq::<char>::empty());
}

/// Each speech-to-text getter's command word, with nothing after it, selects the
/// getter of its own setting: the one that shows what the setter of the same
/// name changes.
pub proof fn lemma_speech_to_text_getter_words_select_their_setting()
    ensures
        forall|r| #[trigger]
            speech_to_text_command("flow-type"@, r) ==> r == Ok::<ConfigSpeechToTextSettingRelatedControllerType, ControllerType>(
                ConfigSpeechToTextSettingRelatedControllerType::GetFlowType,
            ) && getter_of(
                ConfigSettingRelatedControllerType::SpeechToText(ConfigSpeechToTextSettingRelatedControllerType::SetFlowType(None)),
            ) == Some(ConfigSettingRelatedControllerType::SpeechToText(ConfigSpeechToTextSettingRelatedControllerType::GetFlowType)),
        forall|r| #[trigger]
            speech_to_text_command("msg-type-for-non-threaded-only-transcribed-messages"@, r) ==> r == Ok::<ConfigSpeechToTextSettingRelatedControllerType, ControllerType>(
                ConfigSpeechToTextSettingRelatedControllerType::GetMsgTypeForNonThreadedOnlyTranscribedMessages,
            ) && getter_of(
                ConfigSettingRelatedControllerType::SpeechToText(ConfigSpeechToTextSettingRelatedControllerType::SetMsgTypeForNonThreadedOnlyTranscribedMessages(None)),
            ) == Some(ConfigSettingRelatedControllerType::SpeechToText(ConfigSpeechToTextSettingRelatedControllerType::GetMsgTypeForNonThreadedOnlyTranscribedMessages)),
        forall|r| #[trigger]
            speech_to_text_command("language"@, r) ==> r == Ok::<ConfigSpeechToTextSettingRelatedControllerType, ControllerType>(
                ConfigSpeechToTextSettingRelatedControllerType::GetLanguage,
            ) && getter_of(
                ConfigSettingRelatedControllerType::SpeechToText(ConfigSpeechToTextSettingRelatedControllerType::SetLanguage(None)),
            ) == Some(ConfigSettingRelatedControllerType::SpeechToText(ConfigSpeechToTextSettingRelatedControllerType::GetLanguage)),
{
    reveal_strlit("flow-type");
    reveal_strlit("set-flow-type");
    reveal_strlit("msg-type-for-non-threaded-only-transcribed-messages");
    reveal_strlit("set-msg-type-for-non-threaded-only-transcribed-messages");
    reveal_strlit("language");
    reveal_strlit("set-language");
    assert("flow-type"@.skip("flow-type"@.len() as int) =~= Seq::<char>::empty());
    lemma_differs_at("flow-type"@, "msg-type-for-non-threaded-only-transcribed-messages"@, 0);
    lemma_differs_at("set-flow-type"@, "msg-type-for-non-threaded-only-transcribed-messages"@, 0);
    assert("msg-type-for-non-threaded-only-transcribed-messages"@.skip("msg-type-for-non-threaded-only-transcribed-messages"@.len() as int) =~= Seq::<char>::empty());
    lemma_differs_at("flow-type"@, "language"@, 0);
    lemma_differs_at("set-flow-type"@, "language"@, 0);
    lemma_differs_at("msg-type-for-non-threaded-only-transcribed-messages"@, "language"@, 0);
    lemma_differs_at("set-msg-type-for-non-threaded-only-transcribed-messages"@, "language"@, 0);
    assert("language"@.skip("language"@.len() as int) =~= Seq::<char>::empty());
}

/// Each text-to-speech getter's command word, with nothing after it, selects the
/// getter of its own setting: the one that shows what the setter of the same
/// name changes.
pub proof fn lemma_text_to_speech_getter_words_select_their_setting()
    ensures
        forall|r| #[trigger]
            text_to_speech_command("bot-msgs-flow-type"@, r) ==> r == Ok::<ConfigTextToSpeechSettingRelatedControllerType, ControllerType>(
                ConfigTextToSpeechSettingRelatedControllerType::GetBotMessagesFlowType,
            ) && getter_of(
                ConfigSettingRelatedControllerType::TextToSpeech(ConfigTextToSpeechSettingRelatedControllerType::SetBotMessagesFlowType(None)),
            ) == Some(ConfigSettingRelatedControllerType::TextToSpeech(ConfigTextToSpeechSettingRelatedControllerType::GetBotMessagesFlowType)),
        forall|r| #[trigger]
            text_to_speech_command("user-msgs-flow-type"@, r) ==> r == Ok::<ConfigTextToSpeechSettingRelatedControllerType, ControllerType>(
                ConfigTextToSpeechSettingRelatedControllerType::GetUserMessagesFlowType,
            ) && getter_of(
                ConfigSettingRelatedControllerType::TextToSpeech(ConfigTextToSpeechSettingRelatedControllerType::SetUserMessagesFlowType(None)),
            ) == Some(ConfigSettingRelatedControllerType::TextToSpeech(ConfigTextToSpeechSettingRelatedControllerType::GetUserMessagesFlowType)),
        forall|r| #[trigger]
            text_to_speech_command("speed-override"@, r) ==> r == Ok::<ConfigTextToSpeechSettingRelatedControllerType, ControllerType>(
                ConfigTextToSpeechSettingRelatedControllerType::GetSpeedOverride,
            ) && getter_of(
                ConfigSettingRelatedControllerType::TextToSpeech(ConfigTextToSpeechSettingRelatedControllerType::SetSpeedOverride(None)),
            ) == Some(ConfigSettingRelatedControllerType::TextToSpeech(ConfigTextToSpeechSettingRelatedControllerType::GetSpeedOverride)),
        forall|r| #[trigger]
            text_to_speech_command("voice-override"@, r) ==> r == Ok::<ConfigTextToSpeechSettingRelatedControllerType, ControllerType>(
                ConfigTextToSpeechSettingRelatedControllerType::GetVoiceOverride,
            ) && getter_of(
                ConfigSettingRelatedControllerType::TextToSpeech(ConfigTextToSpeechSettingRelatedControllerType::SetVoiceOverride(None)),
            ) == Some(ConfigSettingRelatedControllerType::TextToSpeech(ConfigTextToSpeechSettingRelatedControllerType::GetVoiceOverride)),
{
    reveal_strlit("bot-msgs-flow-type");
    reveal_strlit("set-bot-msgs-flow-type");
    reveal_strlit("user-msgs-flow-type");
    reveal_strlit("set-user-msgs-flow-type");
    reveal_strlit("speed-override");
    reveal_strlit("set-speed-override");
    reveal_strlit("voice-override");
    reveal_strlit("set-voice-override");
    assert("bot-msgs-flow-type"@.skip("bot-msgs-flow-type"@.len() as int) =~= Seq::<char>::empty());
    lemma_differs_at("bot-msgs-flow-type"@, "user-msgs-flow-type"@, 0);
    lemma_differs_at("set-bot-msgs-flow-type"@, "user-msgs-flow-type"@, 0);
    assert("user-msgs-flow-type"@.skip("user-msgs-flow-type"@.len() as int) =~= Seq::<char>::empty());
    lemma_differs_at("bot-msgs-flow-type"@, "speed-override"@, 0);
    lemma_differs_at("set-bot-msgs-flow-type"@, "speed-override"@, 1);
    lemma_differs_at("user-msgs-flow-type"@, "speed-override"@, 0);
    lemma_differs_at("set-user-msgs-flow-type"@, "speed-override"@, 1);
    assert("speed-override"@.skip("speed-override"@.len() as int) =~= Seq::<char>::empty());
    lemma_differs_at("bot-msgs-flow-type"@, "voice-override"@, 0);
    lemma_differs_at("set-bot-msgs-flow-type"@, "voice-override"@, 0);
    lemma_differs_at("user-msgs-flow-type"@, "voice-override"@, 0);
    lemma_differs_at("set-user-msgs-flow-type"@, "voice-override"@, 0);
    lemma_differs_at("speed-override"@, "voice-override"@, 0);
    lemma_differs_at("set-speed-override"@, "voice-override"@, 0);
    assert("voice-override"@.skip("voice-override"@.len() as int) =~= Seq::<char>::empty());
}

/// Configuring the agent for a purpose: an available agent is configured,
/// its identifier text stored for that purpose and the other purposes left
/// as they were, except that the global configuration refuses room-local
/// agents (and only those: static and global agents are accepted there); an
/// agent that is not available is refused; a refusal changes nothing; and
/// unsetting the agent of a purpose always succeeds.
pub proof fn lemma_handler_set_outcomes(
    before: RoomSettingsHandler,
    after: RoomSettingsHandler,
    purpose: AgentPurpose,
    agent: Option<PublicIdentifier>,
    available: Seq<PublicIdentifier>,
    is_for_global_config: bool,
    o: HandlerSetOutcome,
)
    requires
        handler_set_effect(before, after, purpose, agent, available, is_for_global_config, o),
    ensures
        o matches HandlerSetOutcome::NotAllowedInGlobalConfig(id) ==> (is_for_global_config
            && id is DynamicRoomLocal && agent == Some(id) && after == before),
        o matches HandlerSetOutcome::AgentMissing(id) ==> (agent == Some(id) && !has_agent(
            available,
            id@,
        ) && after == before),
        agent matches Some(id) ==> (has_agent(available, id@) && !(is_for_global_config
            && id is DynamicRoomLocal) ==> (o == HandlerSetOutcome::Changed(purpose, Some(id))
            && after.by_purpose(purpose) == Some(id@.text()))),
        agent matches Some(id) ==> (is_for_global_config && has_agent(available, id@) && (
        id is Static || id is DynamicGlobal) ==> o == HandlerSetOutcome::Changed(purpose, Some(id))),
        agent is None ==> (o == HandlerSetOutcome::Changed(purpose, None) && after.by_purpose(
            purpose,
        ) is None),
        !is_for_global_config ==> !(o is NotAllowedInGlobalConfig),
        o is Changed ==> forall|p: AgentPurpose|
            p != purpose ==> #[trigger] after.by_purpose(p) == before.by_purpose(p),
{
}

/// Each text-generation setter's command word, with nothing after it, unsets its own
/// setting.
pub proof fn lemma_text_generation_setter_words_alone_unset()
    ensures
        forall|r| #[trigger]
            text_generation_command("set-context-management-enabled"@, r) ==> r == Ok::<ConfigTextGenerationSettingRelatedControllerType, ControllerType>(
                ConfigTextGenerationSettingRelatedControllerType::SetContextManagementEnabled(None),
            ),
        forall|r| #[trigger]
            text_generation_command("set-prefix-requirement-type"@, r) ==> r == Ok::<ConfigTextGenerationSettingRelatedControllerType, ControllerType>(
                ConfigTextGenerationSettingRelatedControllerType::SetPrefixRequirementType(None),
            ),
        forall|r| #[trigger]
            text_generation_command("set-auto-usage"@, r) ==> r == Ok::<ConfigTextGenerationSettingRelatedControllerType, ControllerType>(
                ConfigTextGenerationSettingRelatedControllerType::SetAutoUsage(None),
            ),
        forall|r| #[trigger]
            text_generation_command("set-prompt-override"@, r) ==> r == Ok::<ConfigTextGenerationSettingRelatedControllerType, ControllerType>(
                ConfigTextGenerationSettingRelatedControllerType::SetPromptOverride(None),
            ),
        forall|r| #[trigger]
            text_generation_command("set-temperature-override"@, r) ==> r == Ok::<ConfigTextGenerationSettingRelatedControllerType, ControllerType>(
                ConfigTextGenerationSettingRelatedControllerType::SetTemperatureOverride(None),
            ),
{
    reveal_strlit("context-management-enabled");
    reveal_strlit("set-context-management-enabled");
    reveal_strlit("prefix-requirement-type");
    reveal_strlit("set-prefix-requirement-type");
    reveal_strlit("auto-usage");
    reveal_strlit("set-auto-usage");
    reveal_strlit("prompt-override");
    reveal_strlit("set-prompt-override");
    reveal_strlit("temperature-override");
    reveal_strlit("set-temperature-override");
    lemma_differs_at("context-management-enabled"@, "set-context-management-enabled"@, 0);
    assert("set-context-management-enabled"@.skip("set-context-management-enabled"@.len() as int) =~= Seq::<char>::empty());
    lemma_differs_at("context-management-enabled"@, "set-prefix-requirement-type"@, 0);
    lemma_differs_at("set-context-management-enabled"@, "set-prefix-requirement-type"@, 4);
    lemma_differs_at("prefix-requirement-type"@, "set-prefix-requirement-type"@, 0);
    assert("set-prefix-requirement-type"@.skip("set-prefix-requirement-type"@.len() as int) =~= Seq::<char>::empty());
    lemma_differs_at("context-management-enabled"@, "set-auto-usage"@, 0);
    lemma_differs_at("set-context-management-enabled"@, "set-auto-usage"@, 4);
    lemma_differs_at("prefix-requirement-type"@, "set-auto-usage"@, 0);
    lemma_differs_at("set-prefix-requirement-type"@, "set-auto-usage"@, 4);
    lemma_differs_at("auto-usage"@, "set-auto-usage"@, 0);
    assert("set-auto-usage"@.skip("set-auto-usage"@.len() as int) =~= Seq::<char>::empty());
    lemma_differs_at("context-management-enabled"@, "set-prompt-override"@, 0);
    lemma_differs_at("set-context-management-enabled"@, "set-prompt-override"@, 4);
    lemma_differs_at("prefix-requirement-type"@, "set-prompt-override"@, 0);
    lemma_differs_at("set-prefix-requirement-type"@, "set-prompt-override"@, 6);
    lemma_differs_at("auto-usage"@, "set-prompt-override"@, 0);
    lemma_differs_at("set-auto-usage"@, "set-prompt-override"@, 4);
    lemma_differs_at("prompt-override"@, "set-prompt-override"@, 0);
    assert("set-prompt-override"@.skip("set-prompt-override"@.len() as int) =~= Seq::<char>::empty());
    lemma_differs_at("context-management-enabled"@, "set-temperature-override"@, 0);
    lemma_differs_at("set-context-management-enabled"@, "set-temperature-override"@, 4);
    lemma_differs_at("prefix-requirement-type"@, "set-temperature-override"@, 0);
    lemma_differs_at("set-prefix-requirement-type"@, "set-temperature-override"@, 4);
    lemma_differs_at("auto-usage"@, "set-temperature-override"@, 0);
    lemma_differs_at("set-auto-usage"@, "set-temperature-override"@, 4);
    lemma_differs_at("prompt-override"@, "set-temperature-override"@, 0);
    lemma_differs_at("set-prompt-override"@, "set-temperature-override"@, 4);
    lemma_differs_at("temperature-override"@, "set-temperature-override"@, 0);
    assert("set-temperature-override"@.skip("set-temperature-override"@.len() as int) =~= Seq::<char>::empty());
}

/// The setter `set-prompt-override VALUE` sets its setting to the value given, for any value
/// that neither begins nor ends with white space.
pub proof fn lemma_text_generation_prompt_override_setter_stores_the_value(v: Seq<char>)
    requires
        v.len() > 0,
        !text::is_white_space(v[0]),
        !text::is_white_space(v.last()),
    ensures
        forall|r| #[trigger]
            text_generation_command(text::command_with_value("set-prompt-override"@, v), r) ==> (r matches Ok(
                ConfigTextGenerationSettingRelatedControllerType::SetPromptOverride(Some(p)),
            ) && p@ == v),
{
    reveal_strlit("context-management-enabled");
    reveal_strlit("set-context-management-enabled");
    reveal_strlit("prefix-requirement-type");
    reveal_strlit("set-prefix-requirement-type");
    reveal_strlit("auto-usage");
    reveal_strlit("set-auto-usage");
    reveal_strlit("prompt-override");
    reveal_strlit("set-prompt-override");
    reveal_strlit("temperature-override");
    reveal_strlit("set-temperature-override");
    reveal_strlit(" ");
    let t = text::command_with_value("set-prompt-override"@, v);
    lemma_differs_at("context-management-enabled"@, t, 0);
    lemma_differs_at("set-context-management-enabled"@, t, 4);
    lemma_differs_at("prefix-requirement-type"@, t, 0);
    lemma_differs_at("set-prefix-requirement-type"@, t, 6);
    lemma_differs_at("auto-usage"@, t, 0);
    lemma_differs_at("set-auto-usage"@, t, 4);
    lemma_differs_at("prompt-override"@, t, 0);
    assert(t.subrange(0, "set-prompt-override"@.len() as int) =~= "set-prompt-override"@);
    assert(t.skip("set-prompt-override"@.len() as int) =~= " "@ + v);
    text::lemma_trimmed_fixed(v);
}

/// The setter `set-temperature-override VALUE` sets its setting to the value given, for any value
/// that neither begins nor ends with white space and is a floating-point number.
pub proof fn lemma_text_generation_temperature_override_setter_stores_the_value(v: Seq<char>)
    requires
        v.len() > 0,
        !text::is_white_space(v[0]),
        !text::is_white_space(v.last()),
        crate::number::is_number_text(v),
    ensures
        forall|r| #[trigger]
            text_generation_command(text::command_with_value("set-temperature-override"@, v), r) ==> (r matches Ok(
                ConfigTextGenerationSettingRelatedControllerType::SetTemperatureOverride(Some(p)),
            ) && p@ == v),
{
    reveal_strlit("context-management-enabled");
    reveal_strlit("set-context-management-enabled");
    reveal_strlit("prefix-requirement-type");
    reveal_strlit("set-prefix-requirement-type");
    reveal_strlit("auto-usage");
    reveal_strlit("set-auto-usage");
    reveal_strlit("prompt-override");
    reveal_strlit("set-prompt-override");
    reveal_strlit("temperature-override");
    reveal_strlit("set-temperature-override");
    reveal_strlit(" ");
    let t = text::command_with_value("set-temperature-override"@, v);
    lemma_differs_at("context-management-enabled"@, t, 0);
    lemma_differs_at("set-context-management-enabled"@, t, 4);
    lemma_differs_at("prefix-requirement-type"@, t, 0);
    lemma_differs_at("set-prefix-requirement-type"@, t, 4);
    lemma_differs_at("auto-usage"@, t, 0);
    lemma_differs_at("set-auto-usage"@, t, 4);
    lemma_differs_at("prompt-override"@, t, 0);
    lemma_differs_at("set-prompt-override"@, t, 4);
    lemma_differs_at("temperature-override"@, t, 0);
    assert(t.subrange(0, "set-temperature-override"@.len() as int) =~= "set-temperature-override"@);
    assert(t.skip("set-temperature-override"@.len() as int) =~= " "@ + v);
    text::lemma_trimmed_fixed(v);
}

/// Each speech-to-text setter's command word, with nothing after it, unsets its own
/// setting.
pub proof fn lemma_speech_to_text_setter_words_alone_unset()
    ensures
        forall|r| #[trigger]
            speech_to_text_command("set-flow-type"@, r) ==> r == Ok::<ConfigSpeechToTextSettingRelatedControllerType, ControllerType>(
                ConfigSpeechToTextSettingRelatedControllerType::SetFlowType(None),
            ),
        forall|r| #[trigger]
            speech_to_text_command("set-msg-type-for-non-threaded-only-transcribed-messages"@, r) ==> r == Ok::<ConfigSpeechToTextSettingRelatedControllerType, ControllerType>(
                ConfigSpeechToTextSettingRelatedControllerType::SetMsgTypeForNonThreadedOnlyTranscribedMessages(None),
            ),
        forall|r| #[trigger]
            speech_to_text_command("set-language"@, r) ==> r == Ok::<ConfigSpeechToTextSettingRelatedControllerType, ControllerType>(
                ConfigSpeechToTextSettingRelatedControllerType::SetLanguage(None),
            ),
{
    reveal_strlit("flow-type");
    reveal_strlit("set-flow-type");
    reveal_strlit("msg-type-for-non-threaded-only-transcribed-messages");
    reveal_strlit("set-msg-type-for-non-threaded-only-transcribed-messages");
    reveal_strlit("language");
    reveal_strlit("set-language");
    lemma_differs_at("flow-type"@, "set-flow-type"@, 0);
    assert("set-flow-type"@.skip("set-flow-type"@.len() as int) =~= Seq::<char>::empty());
    lemma_differs_at("flow-type"@, "set-msg-type-for-non-threaded-only-transcribed-messages"@, 0);
    lemma_differs_at("set-flow-type"@, "set-msg-type-for-non-threaded-only-transcribed-messages"@, 4);
    lemma_differs_at("msg-type-for-non-threaded-only-transcribed-messages"@, "set-msg-type-for-non-threaded-only-transcribed-messages"@, 0);
    assert("set-msg-type-for-non-threaded-only-transcribed-messages"@.skip("set-msg-type-for-non-threaded-only-transcribed-messages"@.len() as int) =~= Seq::<char>::empty());
    lemma_differs_at("flow-type"@, "set-language"@, 0);
    lemma_differs_at("set-flow-type"@, "set-language"@, 4);
    lemma_differs_at("msg-type-for-non-threaded-only-transcribed-messages"@, "set-language"@, 0);
    lemma_differs_at("set-msg-type-for-non-threaded-only-transcribed-messages"@, "set-language"@, 4);
    lemma_differs_at("language"@, "set-language"@, 0);
    assert("set-language"@.skip("set-language"@.len() as int) =~= Seq::<char>::empty());
}

/// The setter `set-language VALUE` sets its setting to the value given, for any value
/// that neither begins nor ends with white space and is a two-letter code (two bytes in UTF-8).
pub proof fn lemma_speech_to_text_language_setter_stores_the_value(v: Seq<char>)
    requires
        v.len() > 0,
        !text::is_white_space(v[0]),
        !text::is_white_space(v.last()),
        super::speech_to_text::utf8_len(v) == 2,
    ensures
        forall|r| #[trigger]
            speech_to_text_command(text::command_with_value("set-language"@, v), r) ==> (r matches Ok(
                ConfigSpeechToTextSettingRelatedControllerType::SetLanguage(Some(p)),
            ) && p@ == v),
{
    reveal_strlit("flow-type");
    reveal_strlit("set-flow-type");
    reveal_strlit("msg-type-for-non-threaded-only-transcribed-messages");
    reveal_strlit("set-msg-type-for-non-threaded-only-transcribed-messages");
    reveal_strlit("language");
    reveal_strlit("set-language");
    reveal_strlit(" ");
    let t = text::command_with_value("set-language"@, v);
    lemma_differs_at("flow-type"@, t, 0);
    lemma_differs_at("set-flow-type"@, t, 4);
    lemma_differs_at("msg-type-for-non-threaded-only-transcribed-messages"@, t, 0);
    lemma_differs_at("set-msg-type-for-non-threaded-only-transcribed-messages"@, t, 4);
    lemma_differs_at("language"@, t, 0);
    assert(t.subrange(0, "set-language"@.len() as int) =~= "set-language"@);
    assert(t.skip("set-language"@.len() as int) =~= " "@ + v);
    text::lemma_trimmed_fixed(v);
}

/// Each text-to-speech setter's command word, with nothing after it, unsets its own
/// setting.
pub proof fn lemma_text_to_speech_setter_words_alone_unset()
    ensures
        forall|r| #[trigger]
            text_to_speech_command("set-bot-msgs-flow-type"@, r) ==> r == Ok::<ConfigTextToSpeechSettingRelatedControllerType, ControllerType>(
                ConfigTextToSpeechSettingRelatedControllerType::SetBotMessagesFlowType(None),
            ),
        forall|r| #[trigger]
            text_to_speech_command("set-user-msgs-flow-type"@, r) ==> r == Ok::<ConfigTextToSpeechSettingRelatedControllerType, ControllerType>(
                ConfigTextToSpeechSettingRelatedControllerType::SetUserMessagesFlowType(None),
            ),
        forall|r| #[trigger]
            text_to_speech_command("set-speed-override"@, r) ==> r == Ok::<ConfigTextToSpeechSettingRelatedControllerType, ControllerType>(
                ConfigTextToSpeechSettingRelatedControllerType::SetSpeedOverride(None),
            ),
        forall|r| #[trigger]
            text_to_speech_command("set-voice-override"@, r) ==> r == Ok::<ConfigTextToSpeechSettingRelatedControllerType, ControllerType>(
                ConfigTextToSpeechSettingRelatedControllerType::SetVoiceOverride(None),
            ),
{
    reveal_strlit("bot-msgs-flow-type");
    reveal_strlit("set-bot-msgs-flow-type");
    reveal_strlit("user-msgs-flow-type");
    reveal_strlit("set-user-msgs-flow-type");
    reveal_strlit("speed-override");
    reveal_strlit("set-speed-override");
    reveal_strlit("voice-override");
    reveal_strlit("set-voice-override");
    lemma_differs_at("bot-msgs-flow-type"@, "set-bot-msgs-flow-type"@, 0);
    assert("set-bot-msgs-flow-type"@.skip("set-bot-msgs-flow-type"@.len() as int) =~= Seq::<char>::empty());
    lemma_differs_at("bot-msgs-flow-type"@, "set-user-msgs-flow-type"@, 0);
    lemma_differs_at("set-bot-msgs-flow-type"@, "set-user-msgs-flow-type"@, 4);
    lemma_differs_at("user-msgs-flow-type"@, "set-user-msgs-flow-type"@, 0);
    assert("set-user-msgs-flow-type"@.skip("set-user-msgs-flow-type"@.len() as int) =~= Seq::<char>::empty());
    lemma_differs_at("bot-msgs-flow-type"@, "set-speed-override"@, 0);
    lemma_differs_at("set-bot-msgs-flow-type"@, "set-speed-override"@, 4);
    lemma_differs_at("user-msgs-flow-type"@, "set-speed-override"@, 0);
    lemma_differs_at("set-user-msgs-flow-type"@, "set-speed-override"@, 4);
    lemma_differs_at("speed-override"@, "set-speed-override"@, 1);
    assert("set-speed-override"@.skip("set-speed-override"@.len() as int) =~= Seq::<char>::empty());
    lemma_differs_at("bot-msgs-flow-type"@, "set-voice-override"@, 0);
    lemma_differs_at("set-bot-msgs-flow-type"@, "set-voice-override"@, 4);
    lemma_differs_at("user-msgs-flow-type"@, "set-voice-override"@, 0);
    lemma_differs_at("set-user-msgs-flow-type"@, "set-voice-override"@, 4);
    lemma_differs_at("speed-override"@, "set-voice-override"@, 1);
    lemma_differs_at("set-speed-override"@, "set-voice-override"@, 4);
    lemma_differs_at("voice-override"@, "set-voice-override"@, 0);
    assert("set-voice-override"@.skip("set-voice-override"@.len() as int) =~= Seq::<char>::empty());
}

/// The setter `set-speed-override VALUE` sets its setting to the value given, for any value
/// that neither begins nor ends with white space and is a floating-point number.
pub proof fn lemma_text_to_speech_speed_override_setter_stores_the_value(v: Seq<char>)
    requires
        v.len() > 0,
        !text::is_white_space(v[0]),
        !text::is_white_space(v.last()),
        crate::number::is_number_text(v),
    ensures
        forall|r| #[trigger]
            text_to_speech_command(text::command_with_value("set-speed-override"@, v), r) ==> (r matches Ok(
                ConfigTextToSpeechSettingRelatedControllerType::SetSpeedOverride(Some(p)),
            ) && p@ == v),
{
    reveal_strlit("bot-msgs-flow-type");
    reveal_strlit("set-bot-msgs-flow-type");
    reveal_strlit("user-msgs-flow-type");
    reveal_strlit("set-user-msgs-flow-type");
    reveal_strlit("speed-override");
    reveal_strlit("set-speed-override");
    reveal_strlit("voice-override");
    reveal_strlit("set-voice-override");
    reveal_strlit(" ");
    let t = text::command_with_value("set-speed-override"@, v);
    lemma_differs_at("bot-msgs-flow-type"@, t, 0);
    lemma_differs_at("set-bot-msgs-flow-type"@, t, 4);
    lemma_differs_at("user-msgs-flow-type"@, t, 0);
    lemma_differs_at("set-user-msgs-flow-type"@, t, 4);
    lemma_differs_at("speed-override"@, t, 1);
    assert(t.subrange(0, "set-speed-override"@.len() as int) =~= "set-speed-override"@);
    assert(t.skip("set-speed-override"@.len() as int) =~= " "@ + v);
    text::lemma_trimmed_fixed(v);
}

/// The setter `set-voice-override VALUE` sets its setting to the value given, for any value
/// that neither begins nor ends with white space.
pub proof fn lemma_text_to_speech_voice_override_setter_stores_the_value(v: Seq<char>)
    requires
        v.len() > 0,
        !text::is_white_space(v[0]),
        !text::is_white_space(v.last()),
    ensures
        forall|r| #[trigger]
            text_to_speech_command(text::command_with_value("set-voice-override"@, v), r) ==> (r matches Ok(
                ConfigTextToSpeechSettingRelatedControllerType::SetVoiceOverride(Some(p)),
            ) && p@ == v),
{
    reveal_strlit("bot-msgs-flow-type");
    reveal_strlit("set-bot-msgs-flow-type");
    reveal_strlit("user-msgs-flow-type");
    reveal_strlit("set-user-msgs-flow-type");
    reveal_strlit("speed-override");
    reveal_strlit("set-speed-override");
    reveal_strlit("voice-override");
    reveal_strlit("set-voice-override");
    reveal_strlit(" ");
    let t = text::command_with_value("set-voice-override"@, v);
    lemma_differs_at("bot-msgs-flow-type"@, t, 0);
    lemma_differs_at("set-bot-msgs-flow-type"@, t, 4);
    lemma_differs_at("user-msgs-flow-type"@, t, 0);
    lemma_differs_at("set-user-msgs-flow-type"@, t, 4);
    lemma_differs_at("speed-override"@, t, 1);
    lemma_differs_at("set-speed-override"@, t, 4);
    lemma_differs_at("voice-override"@, t, 0);
    assert(t.subrange(0, "set-voice-override"@.len() as int) =~= "set-voice-override"@);
    assert(t.skip("set-voice-override"@.len() as int) =~= " "@ + v);
    text::lemma_trimmed_fixed(v);
}

/// Showing the agent configured for a purpose reads that purpose's
/// configured identifier text: nothing configured is reported as such; a
/// text that is no identifier as invalid; otherwise the agent written by
/// that text, and whether an available agent has it.
pub proof fn lemma_handler_get_outcomes(
    handler: RoomSettingsHandler,
    purpose: AgentPurpose,
    available: Seq<PublicIdentifier>,
    o: HandlerGetOutcome,
)
    requires
        handler_get_result(handler, purpose, available, o),
    ensures
        o matches HandlerGetOutcome::NotConfigured(p) ==> (p == purpose && handler.by_purpose(
            purpose,
        ) is None),
        (o is NotConfigured) <==> handler.by_purpose(purpose) is None,
        o is InvalidIdentifier ==> (handler.by_purpose(purpose) matches Some(t)
            && IdentifierView::parse(t) is None),
        o matches HandlerGetOutcome::Configured { agent, purpose: p, exists } ==> (p == purpose
            && handler.by_purpose(purpose) == Some(agent@.text()) && exists == has_agent(
            available,
            agent@,
        )),
{
    if let Some(t) = handler.by_purpose(purpose) {
        if IdentifierView::parse(t) is Some {
            crate::agent::lemma_identifier_parse_text(t);
        }
    }
}

} // verus!
