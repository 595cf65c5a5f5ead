use baibot::agent::{AgentPurpose, PublicIdentifier};
use baibot::controller::cfg::dispatching::{
    dispatch_config_related_handler, ConfigOutcome, HandlerGetOutcome, HandlerSetOutcome,
    SettingOutcome, SettingValue,
};
use baibot::controller::cfg::text_generation::ConfigTextGenerationSettingRelatedControllerType;
use baibot::controller::cfg::{
    determine_controller, do_determine_controller, ConfigControllerType,
    ConfigSettingRelatedControllerType, SettingsStorageSource,
};
use baibot::controller::ControllerType;
use baibot::roomconfig::{
    RoomSettings, RoomSettingsHandler, SpeechToTextSettings, TextGenerationAutoUsage,
    TextGenerationSettings, TextToSpeechBotMessagesFlowType, TextToSpeechSettings,
};

fn empty_settings() -> RoomSettings {
    RoomSettings {
        handler: RoomSettingsHandler {
            catch_all: None,
            text_generation: None,
            speech_to_text: None,
            text_to_speech: None,
            image_generation: None,
        },
        text_generation: TextGenerationSettings {
            prefix_requirement_type: None,
            auto_usage: None,
            context_management_enabled: None,
            prompt_override: None,
            temperature_override: None,
        },
        speech_to_text: SpeechToTextSettings {
            flow_type: None,
            msg_type_for_non_threaded_only_transcribed_messages: None,
            language: None,
        },
        text_to_speech: TextToSpeechSettings {
            bot_msgs_flow_type: None,
            user_msgs_flow_type: None,
            speed_override: None,
            voice_override: None,
        },
    }
}

fn agents() -> Vec<PublicIdentifier> {
    vec![
        PublicIdentifier::Static("openai".to_owned()),
        PublicIdentifier::DynamicRoomLocal("mine".to_owned()),
    ]
}

/// Runs a command (the text after `room` or `global`) on the given settings.
fn run(
    command: &str,
    source: SettingsStorageSource,
    can_administrate: bool,
    room: &mut RoomSettings,
    global: &mut RoomSettings,
) -> ConfigOutcome {
    let handler = do_determine_controller(command).expect("the command was not understood");
    dispatch_config_related_handler(source, handler, can_administrate, room, global, &agents())
}

#[test]
fn a_setting_reads_back_what_was_written() {
    let mut room = empty_settings();
    let mut global = empty_settings();
    let cases = [
        ("text-generation set-prompt-override Be brief.", "text-generation prompt-override",
            SettingValue::Text("Be brief.".to_owned())),
        ("text-generation set-auto-usage only_for_voice", "text-generation auto-usage",
            SettingValue::AutoUsage(TextGenerationAutoUsage::OnlyForVoice)),
        ("text-generation set-context-management-enabled TRUE",
            "text-generation context-management-enabled", SettingValue::Flag(true)),
        ("text-generation set-temperature-override 0.5", "text-generation temperature-override",
            SettingValue::Text("0.5".to_owned())),
        ("speech-to-text set-language ja", "speech-to-text language",
            SettingValue::Text("ja".to_owned())),
        ("text-to-speech set-bot-msgs-flow-type on_demand_always",
            "text-to-speech bot-msgs-flow-type",
            SettingValue::BotMsgsFlowType(TextToSpeechBotMessagesFlowType::OnDemandAlways)),
        ("text-to-speech set-voice-override Alex", "text-to-speech voice-override",
            SettingValue::Text("Alex".to_owned())),
    ];
    for (set, get, value) in cases {
        let written = run(set, SettingsStorageSource::Room, false, &mut room, &mut global);
        assert_eq!(written, ConfigOutcome::Setting(SettingOutcome::Changed(Some(value))), "{}", set);
        let read = run(get, SettingsStorageSource::Room, false, &mut room, &mut global);
        match (written, read) {
            (
                ConfigOutcome::Setting(SettingOutcome::Changed(w)),
                ConfigOutcome::Setting(SettingOutcome::Current(r)),
            ) => assert_eq!(w, r, "{}", get),
            _ => panic!("unexpected outcomes for {}", set),
        }
    }
    // The global settings were not touched.
    assert_eq!(global.text_generation.prompt_override, None);
    assert_eq!(room.text_generation.prompt_override, Some("Be brief.".to_owned()));
    assert_eq!(room.speech_to_text.language, Some("ja".to_owned()));
}

#[test]
fn unsetting_a_setting() {
    let mut room = empty_settings();
    let mut global = empty_settings();
    run("text-to-speech set-speed-override 1.5", SettingsStorageSource::Global, true, &mut room, &mut global);
    assert_eq!(global.text_to_speech.speed_override, Some("1.5".to_owned()));
    let outcome = run("text-to-speech set-speed-override", SettingsStorageSource::Global, true, &mut room, &mut global);
    assert_eq!(outcome, ConfigOutcome::Setting(SettingOutcome::Changed(None)));
    assert_eq!(
        run("text-to-speech speed-override", SettingsStorageSource::Global, true, &mut room, &mut global),
        ConfigOutcome::Setting(SettingOutcome::Current(None))
    );
}

#[test]
fn global_settings_need_administrators() {
    let mut room = empty_settings();
    let mut global = empty_settings();
    let outcome = run(
        "text-generation set-prompt-override Hi",
        SettingsStorageSource::Global,
        false,
        &mut room,
        &mut global,
    );
    assert_eq!(outcome, ConfigOutcome::NotPermittedToAdministrate);
    assert_eq!(global.text_generation.prompt_override, None);
    assert_eq!(
        run("text-generation prompt-override", SettingsStorageSource::Global, false, &mut room, &mut global),
        ConfigOutcome::NotPermittedToAdministrate
    );
}

#[test]
fn configuring_handlers() {
    let mut room = empty_settings();
    let mut global = empty_settings();
    assert_eq!(
        run("handler catch-all", SettingsStorageSource::Room, false, &mut room, &mut global),
        ConfigOutcome::HandlerShown(HandlerGetOutcome::NotConfigured(AgentPurpose::CatchAll))
    );
    assert_eq!(
        run("set-handler catch-all room-local/mine", SettingsStorageSource::Room, false, &mut room, &mut global),
        ConfigOutcome::HandlerSet(HandlerSetOutcome::Changed(
            AgentPurpose::CatchAll,
            Some(PublicIdentifier::DynamicRoomLocal("mine".to_owned()))
        ))
    );
    assert_eq!(room.handler.catch_all, Some("room-local/mine".to_owned()));
    assert_eq!(
        run("handler catch-all", SettingsStorageSource::Room, false, &mut room, &mut global),
        ConfigOutcome::HandlerShown(HandlerGetOutcome::Configured {
            agent: PublicIdentifier::DynamicRoomLocal("mine".to_owned()),
            purpose: AgentPurpose::CatchAll,
            exists: true,
        })
    );
    assert_eq!(
        run("set-handler text-generation global/absent", SettingsStorageSource::Room, false, &mut room, &mut global),
        ConfigOutcome::HandlerSet(HandlerSetOutcome::AgentMissing(PublicIdentifier::DynamicGlobal(
            "absent".to_owned()
        )))
    );
    assert_eq!(room.handler.text_generation, None);
    assert_eq!(
        run("set-handler catch-all room-local/mine", SettingsStorageSource::Global, true, &mut room, &mut global),
        ConfigOutcome::HandlerSet(HandlerSetOutcome::NotAllowedInGlobalConfig(
            PublicIdentifier::DynamicRoomLocal("mine".to_owned())
        ))
    );
    assert_eq!(global.handler.catch_all, None);
    assert_eq!(
        run("set-handler catch-all static/openai", SettingsStorageSource::Global, true, &mut room, &mut global),
        ConfigOutcome::HandlerSet(HandlerSetOutcome::Changed(
            AgentPurpose::CatchAll,
            Some(PublicIdentifier::Static("openai".to_owned()))
        ))
    );
    assert_eq!(global.handler.catch_all, Some("static/openai".to_owned()));
    assert_eq!(
        run("set-handler catch-all", SettingsStorageSource::Room, false, &mut room, &mut global),
        ConfigOutcome::HandlerSet(HandlerSetOutcome::Changed(AgentPurpose::CatchAll, None))
    );
    assert_eq!(room.handler.catch_all, None);
}

#[test]
fn a_stored_handler_that_is_no_identifier() {
    let mut room = empty_settings();
    let mut global = empty_settings();
    room.handler.image_generation = Some("not-an-identifier".to_owned());
    room.handler.speech_to_text = Some("global/gone".to_owned());
    assert_eq!(
        run("handler image-generation", SettingsStorageSource::Room, false, &mut room, &mut global),
        ConfigOutcome::HandlerShown(HandlerGetOutcome::InvalidIdentifier)
    );
    assert_eq!(
        run("handler speech-to-text", SettingsStorageSource::Room, false, &mut room, &mut global),
        ConfigOutcome::HandlerShown(HandlerGetOutcome::Configured {
            agent: PublicIdentifier::DynamicGlobal("gone".to_owned()),
            purpose: AgentPurpose::SpeechToText,
            exists: false,
        })
    );
}

#[test]
fn dispatching_a_handler_built_by_hand() {
    let mut room = empty_settings();
    let mut global = empty_settings();
    let outcome = dispatch_config_related_handler(
        SettingsStorageSource::Room,
        ConfigSettingRelatedControllerType::TextGeneration(
            ConfigTextGenerationSettingRelatedControllerType::SetPromptOverride(None),
        ),
        false,
        &mut room,
        &mut global,
        &agents(),
    );
    assert_eq!(outcome, ConfigOutcome::Setting(SettingOutcome::Changed(None)));
}

#[test]
fn room_and_global_commands_agree() {
    use_both("text-generation set-auto-usage always");
    use_both("handler catch-all");
    use_both("handler nonsense");
    use_both("set-handler");
    use_both("whatever");
    use_both("speech-to-text set-language jpn");
}

fn use_both(rest: &str) {
    let room = determine_controller(&format!("room {}", rest));
    let global = determine_controller(&format!("global {}", rest));
    match (room, global) {
        (
            ControllerType::Config(ConfigControllerType::SettingsRelated(SettingsStorageSource::Room, a)),
            ControllerType::Config(ConfigControllerType::SettingsRelated(SettingsStorageSource::Global, b)),
        ) => assert_eq!(a, b, "{}", rest),
        (a, b) => assert_eq!(a, b, "{}", rest),
    }
}
