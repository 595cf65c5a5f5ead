use baibot::agent::{AgentDefinition, AgentPurpose, PublicIdentifier};
use baibot::controller::cfg::status::{
    generate_global_config_handlers_section, generate_handler_line_for_purpose,
    generate_room_agents_section, generate_room_handlers_section, generate_speech_to_text_section,
    generate_text_generation_section, generate_text_to_speech_section, override_agent_or_default,
    generate_image_generation_section, override_or_agent, prompt_status, setting_source,
    EffectiveAgentLine, FoundAgent, HandlerLine, RoomAgentsSection, SettingSource, TextGenerationAgent,
    TextToSpeechAgent,
};
use baibot::roomconfig::{
    SpeechToTextDefaults, SpeechToTextMessageTypeForNonThreadedOnlyTranscribedMessages,
    TextGenerationDefaults, TextGenerationPrefixRequirementType, TextToSpeechDefaults,
    TextToSpeechUserMessagesFlowType, RoomSettingsHandler, SpeechToTextFlowType, SpeechToTextSettings, TextGenerationAutoUsage, TextGenerationSettings,
    TextToSpeechBotMessagesFlowType, TextToSpeechSettings,
};

fn no_handlers() -> RoomSettingsHandler {
    RoomSettingsHandler {
        catch_all: None,
        text_generation: None,
        speech_to_text: None,
        text_to_speech: None,
        image_generation: None,
    }
}

fn available_agents() -> Vec<PublicIdentifier> {
    vec![
        PublicIdentifier::Static("openai".to_owned()),
        PublicIdentifier::DynamicGlobal("shared".to_owned()),
        PublicIdentifier::DynamicRoomLocal("mine".to_owned()),
        PublicIdentifier::DynamicRoomLocal("other".to_owned()),
    ]
}

#[test]
fn setting_source_prefers_room_then_global_then_default() {
    assert_eq!(setting_source(&Some(1), &Some(2)), SettingSource::RoomConfig);
    assert_eq!(setting_source(&None, &Some(2)), SettingSource::GlobalConfig);
    assert_eq!(setting_source::<u8>(&None, &None), SettingSource::HardcodedDefault);
}

#[test]
fn override_falls_back_to_the_agent() {
    assert_eq!(override_or_agent(Some(1), Some(2), Some(3)), (Some(1), SettingSource::RoomConfig));
    assert_eq!(override_or_agent(None, Some(2), Some(3)), (Some(2), SettingSource::GlobalConfig));
    assert_eq!(override_or_agent(None, None, Some(3)), (Some(3), SettingSource::AgentConfig));
    assert_eq!(override_or_agent::<u8>(None, None, None), (None, SettingSource::AgentConfig));
}

#[test]
fn override_falls_back_to_the_agent_then_the_default() {
    assert_eq!(
        override_agent_or_default(Some(1), None, Some(3)),
        (Some(1), SettingSource::RoomConfig)
    );
    assert_eq!(
        override_agent_or_default(None, Some(2), None),
        (Some(2), SettingSource::GlobalConfig)
    );
    assert_eq!(override_agent_or_default(None, None, Some(3)), (Some(3), SettingSource::AgentConfig));
    assert_eq!(
        override_agent_or_default::<u8>(None, None, None),
        (None, SettingSource::HardcodedDefault)
    );
}

#[test]
fn prompt_without_any_source_is_empty() {
    assert_eq!(
        prompt_status(None, None, None),
        (String::new(), SettingSource::AgentConfig)
    );
    assert_eq!(
        prompt_status(None, Some("global".to_owned()), Some("agent".to_owned())),
        ("global".to_owned(), SettingSource::GlobalConfig)
    );
    assert_eq!(
        prompt_status(None, None, Some("agent".to_owned())),
        ("agent".to_owned(), SettingSource::AgentConfig)
    );
}

#[test]
fn handler_lines_for_unset_purposes() {
    let agents = available_agents();
    let room = generate_room_handlers_section(&no_handlers(), &agents);
    assert_eq!(
        room,
        vec![
            HandlerLine::CatchAllNotSetInRoomDefaultToGlobal,
            HandlerLine::NotSetInRoomDefaultToGlobal(AgentPurpose::TextGeneration),
            HandlerLine::NotSetInRoomDefaultToGlobal(AgentPurpose::SpeechToText),
            HandlerLine::NotSetInRoomDefaultToGlobal(AgentPurpose::TextToSpeech),
            HandlerLine::NotSetInRoomDefaultToGlobal(AgentPurpose::ImageGeneration),
        ]
    );
    let global = generate_global_config_handlers_section(&no_handlers(), &agents);
    assert_eq!(
        global,
        vec![
            HandlerLine::CatchAllNotSetGlobally,
            HandlerLine::NotSetGlobally(AgentPurpose::TextGeneration),
            HandlerLine::NotSetGlobally(AgentPurpose::SpeechToText),
            HandlerLine::NotSetGlobally(AgentPurpose::TextToSpeech),
            HandlerLine::NotSetGlobally(AgentPurpose::ImageGeneration),
        ]
    );
}

#[test]
fn handler_line_finds_the_configured_agent() {
    let agents = available_agents();
    let mut handlers = no_handlers();
    handlers.catch_all = Some("room-local/mine".to_owned());
    handlers.text_to_speech = Some("global/gone".to_owned());
    assert_eq!(
        generate_handler_line_for_purpose(AgentPurpose::CatchAll, &handlers, &agents, false),
        HandlerLine::AgentFound {
            purpose: AgentPurpose::CatchAll,
            agent_id: "room-local/mine".to_owned(),
            agent: Some(2),
        }
    );
    assert_eq!(
        generate_handler_line_for_purpose(AgentPurpose::TextToSpeech, &handlers, &agents, true),
        HandlerLine::AgentFound {
            purpose: AgentPurpose::TextToSpeech,
            agent_id: "global/gone".to_owned(),
            agent: None,
        }
    );
    assert_eq!(handlers.get_by_purpose(AgentPurpose::CatchAll), Some("room-local/mine".to_owned()));
    assert_eq!(handlers.get_by_purpose(AgentPurpose::ImageGeneration), None);
}

#[test]
fn room_agents_section_lists_room_local_agents() {
    let agents = available_agents();
    assert_eq!(generate_room_agents_section(&vec![], &agents), RoomAgentsSection::Empty);
    let definitions = vec![AgentDefinition {
        id: "mine".to_owned(),
        provider: "openai".to_owned(),
        config: serde_yaml::Value::Null,
    }];
    assert_eq!(
        generate_room_agents_section(&definitions, &agents),
        RoomAgentsSection::Listed(vec![2, 3])
    );
}

#[test]
fn text_generation_status() {
    let room = TextGenerationSettings {
        prefix_requirement_type: None,
        auto_usage: Some(TextGenerationAutoUsage::Always),
        context_management_enabled: None,
        prompt_override: None,
        temperature_override: Some("0.5".to_owned()),
    };
    let global = TextGenerationSettings {
        prefix_requirement_type: None,
        auto_usage: None,
        context_management_enabled: Some(true),
        prompt_override: Some("Be brief.".to_owned()),
        temperature_override: None,
    };
    let agent = TextGenerationAgent {
        agent: FoundAgent {
            identifier: PublicIdentifier::Static("openai".to_owned()),
            configuration_source: "room",
        },
        prompt: Some("Agent prompt".to_owned()),
        temperature: Some("1.0".to_owned()),
    };
    let status = generate_text_generation_section(&room, &global, &tg_defaults(), Some(agent));
    assert_eq!(
        status.effective_agent,
        EffectiveAgentLine::Agent(PublicIdentifier::Static("openai".to_owned()), "room")
    );
    assert_eq!(status.prefix_requirement_type, TextGenerationPrefixRequirementType::CommandPrefix);
    assert_eq!(status.auto_usage, TextGenerationAutoUsage::Always);
    assert!(status.context_management_enabled);
    assert_eq!(status.prefix_requirement_type_source, SettingSource::HardcodedDefault);
    assert_eq!(status.auto_usage_source, SettingSource::RoomConfig);
    assert_eq!(status.context_management_source, SettingSource::GlobalConfig);
    assert_eq!(status.prompt, "Be brief.");
    assert_eq!(status.prompt_source, SettingSource::GlobalConfig);
    assert_eq!(status.temperature, Some("0.5".to_owned()));
    assert_eq!(status.temperature_source, SettingSource::RoomConfig);
}

#[test]
fn speech_to_text_status() {
    let room = SpeechToTextSettings {
        flow_type: Some(SpeechToTextFlowType::OnlyTranscribe),
        msg_type_for_non_threaded_only_transcribed_messages: None,
        language: None,
    };
    let global = SpeechToTextSettings {
        flow_type: None,
        msg_type_for_non_threaded_only_transcribed_messages: None,
        language: Some("ja".to_owned()),
    };
    let status = generate_speech_to_text_section::<()>(&room, &global, &stt_defaults(), None);
    assert_eq!(status.flow_type, SpeechToTextFlowType::OnlyTranscribe);
    assert_eq!(
        status.msg_type_for_non_threaded_only_transcribed_messages,
        SpeechToTextMessageTypeForNonThreadedOnlyTranscribedMessages::Notice
    );
    assert_eq!(status.language, Some("ja".to_owned()));
    assert_eq!(status.effective_agent, EffectiveAgentLine::LookupFailed);
    assert_eq!(status.flow_type_source, SettingSource::RoomConfig);
    assert_eq!(
        status.msg_type_for_non_threaded_only_transcribed_messages_source,
        SettingSource::HardcodedDefault
    );
    assert_eq!(status.language_source, SettingSource::GlobalConfig);
}

#[test]
fn text_to_speech_status() {
    let room = TextToSpeechSettings {
        bot_msgs_flow_type: None,
        user_msgs_flow_type: None,
        speed_override: None,
        voice_override: None,
    };
    let global = TextToSpeechSettings {
        bot_msgs_flow_type: Some(TextToSpeechBotMessagesFlowType::Always),
        user_msgs_flow_type: None,
        speed_override: None,
        voice_override: Some("alex".to_owned()),
    };
    let agent = TextToSpeechAgent {
        agent: FoundAgent {
            identifier: PublicIdentifier::DynamicGlobal("voice".to_owned()),
            configuration_source: 1u8,
        },
        speed: None,
        voice: Some("onyx".to_owned()),
    };
    let status = generate_text_to_speech_section(&room, &global, &tts_defaults(), Some(agent));
    assert_eq!(status.bot_msgs_flow_type, TextToSpeechBotMessagesFlowType::Always);
    assert_eq!(status.user_msgs_flow_type, TextToSpeechUserMessagesFlowType::Never);
    assert_eq!(
        status.effective_agent,
        EffectiveAgentLine::Agent(PublicIdentifier::DynamicGlobal("voice".to_owned()), 1u8)
    );
    assert_eq!(status.bot_msgs_flow_type_source, SettingSource::GlobalConfig);
    assert_eq!(status.user_msgs_flow_type_source, SettingSource::HardcodedDefault);
    assert_eq!(status.speed, None);
    assert_eq!(status.speed_source, SettingSource::HardcodedDefault);
    assert_eq!(status.voice, Some("alex".to_owned()));
    assert_eq!(status.voice_source, SettingSource::GlobalConfig);
}

#[test]
fn statuses_without_an_agent() {
    let room = TextGenerationSettings {
        prefix_requirement_type: None,
        auto_usage: None,
        context_management_enabled: None,
        prompt_override: None,
        temperature_override: None,
    };
    let status = generate_text_generation_section::<()>(&room, &room, &tg_defaults(), None);
    assert_eq!(status.prefix_requirement_type, TextGenerationPrefixRequirementType::CommandPrefix);
    assert_eq!(status.auto_usage, TextGenerationAutoUsage::Never);
    assert!(!status.context_management_enabled);
    assert_eq!(status.effective_agent, EffectiveAgentLine::LookupFailed);
    assert_eq!(status.prompt, "");
    assert_eq!(status.prompt_source, SettingSource::AgentConfig);
    assert_eq!(status.temperature, None);
    assert_eq!(generate_image_generation_section::<()>(None), EffectiveAgentLine::LookupFailed);
    let found = FoundAgent { identifier: PublicIdentifier::Static("dalle".to_owned()), configuration_source: () };
    assert_eq!(
        generate_image_generation_section(Some(found)),
        EffectiveAgentLine::Agent(PublicIdentifier::Static("dalle".to_owned()), ())
    );
}

fn tg_defaults() -> TextGenerationDefaults {
    TextGenerationDefaults {
        prefix_requirement_type: TextGenerationPrefixRequirementType::CommandPrefix,
        auto_usage: TextGenerationAutoUsage::Never,
        context_management_enabled: false,
    }
}

fn stt_defaults() -> SpeechToTextDefaults {
    SpeechToTextDefaults {
        flow_type: SpeechToTextFlowType::Ignore,
        msg_type_for_non_threaded_only_transcribed_messages:
            SpeechToTextMessageTypeForNonThreadedOnlyTranscribedMessages::Notice,
    }
}

fn tts_defaults() -> TextToSpeechDefaults {
    TextToSpeechDefaults {
        bot_msgs_flow_type: TextToSpeechBotMessagesFlowType::Never,
        user_msgs_flow_type: TextToSpeechUserMessagesFlowType::Never,
    }
}
