use baibot::agent::{AgentPurpose, PublicIdentifier};
use baibot::controller::access::{
    self, check_patterns, dispatch_access, AccessConfig, AccessControllerType, AccessOutcome,
};
use baibot::controller::cfg::speech_to_text::{self, ConfigSpeechToTextSettingRelatedControllerType};
use baibot::controller::cfg::text_generation::{self, ConfigTextGenerationSettingRelatedControllerType};
use baibot::controller::cfg::text_to_speech::{self, ConfigTextToSpeechSettingRelatedControllerType};
use baibot::controller::chat_completion::{
    answer_text, audio_handling, audio_mime_type, bot_message_speech, user_message_speech,
    AudioHandling, ResponsePlacement,
    TextToSpeechAction,
};
use baibot::controller::determination::{determine_controller, MessagePayload};
use baibot::controller::reaction::{
    is_allowed_to_tts_for_event, reaction_action, reaction_response_placement, speech_text,
    ReactionAction,
};
use baibot::controller::utils::{
    complaint_for_agent_error, error_reply, get_text_body_or_complain, AgentComplaint,
    AgentForPurposeDeterminationError,
};
use baibot::controller::{ControllerType, ThreadInfo};
use baibot::number::is_number;
use baibot::roomconfig::{
    SpeechToTextFlowType, SpeechToTextMessageTypeForNonThreadedOnlyTranscribedMessages,
    TextGenerationAutoUsage, TextGenerationPrefixRequirementType, TextToSpeechBotMessagesFlowType,
    TextToSpeechUserMessagesFlowType,
};
use baibot::strings;

#[test]
fn text_body_or_complaint() {
    let text = MessagePayload::Text("hello".to_owned());
    assert_eq!(get_text_body_or_complain(&text), Ok("hello"));
    assert_eq!(
        get_text_body_or_complain(&MessagePayload::Audio),
        Err("This command only works with text messages.".to_owned())
    );
}

#[test]
fn complaints_about_missing_agents() {
    let id = PublicIdentifier::DynamicGlobal("gone".to_owned());
    assert_eq!(
        complaint_for_agent_error(
            AgentForPurposeDeterminationError::NoneConfigured,
            AgentPurpose::TextGeneration,
            true
        ),
        None
    );
    assert_eq!(
        complaint_for_agent_error(
            AgentForPurposeDeterminationError::Unknown("boom".to_owned()),
            AgentPurpose::TextGeneration,
            false
        ),
        Some(AgentComplaint::Unknown("boom".to_owned()))
    );
    assert_eq!(
        complaint_for_agent_error(
            AgentForPurposeDeterminationError::ConfiguredButMissing(id.clone()),
            AgentPurpose::SpeechToText,
            false
        ),
        Some(AgentComplaint::ConfiguredButMissing(id.clone(), AgentPurpose::SpeechToText))
    );
    assert_eq!(
        complaint_for_agent_error(
            AgentForPurposeDeterminationError::ConfiguredButLacksSupport(id.clone()),
            AgentPurpose::TextToSpeech,
            false
        ),
        None
    );
    assert_eq!(
        complaint_for_agent_error(
            AgentForPurposeDeterminationError::ConfiguredButLacksSupport(id.clone()),
            AgentPurpose::TextToSpeech,
            true
        ),
        Some(AgentComplaint::ConfiguredButLacksSupport(id, AgentPurpose::TextToSpeech))
    );
}

#[test]
fn user_patterns_are_checked() {
    assert_eq!(check_patterns(&None), None);
    let good = Some(vec!["@user:example.com".to_owned(), "@bot.*:example.org".to_owned()]);
    assert_eq!(check_patterns(&good), None);
    let bad = Some(vec!["@user:example.com".to_owned(), "user".to_owned()]);
    let message = check_patterns(&bad).expect("a pattern without @ was accepted");
    assert!(!message.is_empty());
    let no_server = Some(vec!["@user".to_owned()]);
    assert!(check_patterns(&no_server).is_some());
}

#[test]
fn written_patterns_are_stored_as_written() {
    let patterns = vec!["@a:x.org".to_owned(), "@*:y.org".to_owned(), "@b.*:z".to_owned()];
    let input = format!("set-users {}", patterns.join(" "));
    assert_eq!(
        access::determine_controller(&input),
        ControllerType::Access(AccessControllerType::SetUsers(Some(patterns.clone())))
    );
    let input = format!("set-room-local-agent-managers {}", patterns.join(" "));
    assert_eq!(
        access::determine_controller(&input),
        ControllerType::Access(AccessControllerType::SetRoomLocalAgentManagers(Some(patterns)))
    );
    assert_eq!(
        access::determine_controller("set-users   "),
        ControllerType::Access(AccessControllerType::SetUsers(None))
    );
}

#[test]
fn setters_accept_every_listed_value_name() {
    for value in TextGenerationPrefixRequirementType::choices() {
        let input = format!("set-prefix-requirement-type {}", value.as_str());
        assert_eq!(
            text_generation::determine(&input),
            Ok(ConfigTextGenerationSettingRelatedControllerType::SetPrefixRequirementType(Some(value)))
        );
    }
    for value in TextGenerationAutoUsage::choices() {
        let input = format!("set-auto-usage {}", value.as_str().to_uppercase());
        assert_eq!(
            text_generation::determine(&input),
            Ok(ConfigTextGenerationSettingRelatedControllerType::SetAutoUsage(Some(value)))
        );
    }
    for value in SpeechToTextFlowType::choices() {
        let input = format!("set-flow-type {}", value.as_str());
        assert_eq!(
            speech_to_text::determine(&input),
            Ok(ConfigSpeechToTextSettingRelatedControllerType::SetFlowType(Some(value)))
        );
    }
    for value in SpeechToTextMessageTypeForNonThreadedOnlyTranscribedMessages::choices() {
        let input = format!(
            "set-msg-type-for-non-threaded-only-transcribed-messages {}",
            value.as_str()
        );
        assert_eq!(
            speech_to_text::determine(&input),
            Ok(ConfigSpeechToTextSettingRelatedControllerType::SetMsgTypeForNonThreadedOnlyTranscribedMessages(Some(value)))
        );
    }
    for value in TextToSpeechBotMessagesFlowType::choices() {
        let input = format!("set-bot-msgs-flow-type {}", value.as_str());
        assert_eq!(
            text_to_speech::determine(&input),
            Ok(ConfigTextToSpeechSettingRelatedControllerType::SetBotMessagesFlowType(Some(value)))
        );
    }
    for value in TextToSpeechUserMessagesFlowType::choices() {
        let input = format!("set-user-msgs-flow-type {}", value.as_str());
        assert_eq!(
            text_to_speech::determine(&input),
            Ok(ConfigTextToSpeechSettingRelatedControllerType::SetUserMessagesFlowType(Some(value)))
        );
    }
    assert_eq!(
        text_generation::determine("set-context-management-enabled false"),
        Ok(ConfigTextGenerationSettingRelatedControllerType::SetContextManagementEnabled(Some(false)))
    );
}

#[test]
fn setting_value_names_round_trip() {
    for value in TextToSpeechBotMessagesFlowType::choices() {
        assert_eq!(TextToSpeechBotMessagesFlowType::from_str(value.as_str()), Some(value));
    }
    assert_eq!(TextToSpeechBotMessagesFlowType::choices().len(), 5);
    assert_eq!(TextGenerationAutoUsage::from_str("ALWAYS"), None);
    assert_eq!(TextGenerationAutoUsage::from_str("always"), Some(TextGenerationAutoUsage::Always));
}

#[test]
fn unknown_setting_values_are_errors() {
    assert_eq!(
        text_to_speech::determine("set-speed-override fast"),
        Err(ControllerType::Error(strings::cfg::configuration_value_not_f32("fast")))
    );
    assert_eq!(
        speech_to_text::determine("set-flow-type sometimes"),
        Err(ControllerType::Error(strings::cfg::configuration_value_unrecognized("sometimes")))
    );
    assert_eq!(
        speech_to_text::determine("flow-type now"),
        Err(ControllerType::Error(strings::cfg::configuration_getter_used_with_extra_text(
            "flow-type",
            "now"
        )))
    );
    assert_eq!(speech_to_text::determine("whatever"), Err(ControllerType::Unknown));
}

#[test]
fn number_syntax() {
    for accepted in ["0.5", "1", "-2.", ".5", "+3.25e-2", "1E5", "inf", "-Infinity", "NaN", "7e+3"] {
        assert!(is_number(accepted), "{} was refused", accepted);
        assert!(accepted.parse::<f32>().is_ok());
    }
    for refused in ["", ".", "e5", "1e", "1.2.3", "--1", "0x10", "one", "1 ", "infinit"] {
        assert!(!is_number(refused), "{} was accepted", refused);
        assert!(refused.parse::<f32>().is_err());
    }
}

#[test]
fn first_message_of_a_thread() {
    let root_only = ThreadInfo { root_event_id: "$a".to_owned(), last_event_id: "$a".to_owned() };
    let in_thread = ThreadInfo { root_event_id: "$a".to_owned(), last_event_id: "$b".to_owned() };
    assert_eq!(
        determine_controller(
            "!bai",
            &MessagePayload::Encrypted(root_only),
            false,
            TextGenerationPrefixRequirementType::No
        ),
        ControllerType::Error(strings::error::message_is_encrypted())
    );
    assert_eq!(
        determine_controller(
            "!bai",
            &MessagePayload::Encrypted(in_thread.clone()),
            false,
            TextGenerationPrefixRequirementType::No
        ),
        ControllerType::ErrorInThread(strings::error::first_message_in_thread_is_encrypted(), in_thread)
    );
    assert_eq!(
        determine_controller(
            "!bai",
            &MessagePayload::Audio,
            false,
            TextGenerationPrefixRequirementType::CommandPrefix
        ),
        ControllerType::ChatCompletion(
            baibot::controller::chat_completion::ChatCompletionControllerType::ViaAudio
        )
    );
    assert_eq!(
        determine_controller(
            "!bai",
            &MessagePayload::Text("!bai usage".to_owned()),
            false,
            TextGenerationPrefixRequirementType::CommandPrefix
        ),
        ControllerType::UsageHelp
    );
}

#[test]
fn voice_message_handling() {
    assert_eq!(audio_handling(SpeechToTextFlowType::Ignore, true), AudioHandling::Ignore);
    assert_eq!(
        audio_handling(SpeechToTextFlowType::TranscribeAndGenerateText, true),
        AudioHandling::Transcribe { placement: ResponsePlacement::InThread, then_generate_text: true }
    );
    assert_eq!(
        audio_handling(SpeechToTextFlowType::OnlyTranscribe, true),
        AudioHandling::Transcribe {
            placement: ResponsePlacement::ReplyToThreadRoot,
            then_generate_text: false
        }
    );
    assert_eq!(
        audio_handling(SpeechToTextFlowType::OnlyTranscribe, false),
        AudioHandling::Transcribe { placement: ResponsePlacement::InThread, then_generate_text: false }
    );
}

#[test]
fn speech_for_messages() {
    assert_eq!(bot_message_speech(TextToSpeechBotMessagesFlowType::Never, true), None);
    assert_eq!(
        bot_message_speech(TextToSpeechBotMessagesFlowType::OnDemandForVoice, true),
        Some(TextToSpeechAction::Offer)
    );
    assert_eq!(bot_message_speech(TextToSpeechBotMessagesFlowType::OnDemandForVoice, false), None);
    assert_eq!(
        bot_message_speech(TextToSpeechBotMessagesFlowType::OnlyForVoice, true),
        Some(TextToSpeechAction::Perform)
    );
    assert_eq!(
        bot_message_speech(TextToSpeechBotMessagesFlowType::Always, false),
        Some(TextToSpeechAction::Perform)
    );
    assert_eq!(user_message_speech(TextToSpeechUserMessagesFlowType::Never), None);
    assert_eq!(
        user_message_speech(TextToSpeechUserMessagesFlowType::OnDemand),
        Some(TextToSpeechAction::Offer)
    );
}

#[test]
fn speech_given_can_be_asked_for() {
    for bot_flow in TextToSpeechBotMessagesFlowType::choices() {
        for user_flow in TextToSpeechUserMessagesFlowType::choices() {
            for audio in [false, true] {
                if bot_message_speech(bot_flow, audio).is_some() {
                    assert!(is_allowed_to_tts_for_event("@bot:x", "@bot:x", bot_flow, user_flow));
                }
                if user_message_speech(user_flow).is_some() {
                    assert!(is_allowed_to_tts_for_event("@user:x", "@bot:x", bot_flow, user_flow));
                }
            }
        }
    }
}

#[test]
fn reactions_ask_for_speech() {
    assert!(!is_allowed_to_tts_for_event(
        "@bot:x",
        "@bot:x",
        TextToSpeechBotMessagesFlowType::Never,
        TextToSpeechUserMessagesFlowType::Always
    ));
    assert!(is_allowed_to_tts_for_event(
        "@user:x",
        "@bot:x",
        TextToSpeechBotMessagesFlowType::Never,
        TextToSpeechUserMessagesFlowType::OnDemand
    ));
    assert_eq!(reaction_response_placement(true), ResponsePlacement::ReplyToThreadRoot);
    assert_eq!(reaction_response_placement(false), ResponsePlacement::InThread);
    assert_eq!(speech_text("!bai", "!bai   say this  "), "say this");
    assert_eq!(speech_text("!bai", "plain text"), "plain text");
}

#[test]
fn access_settings_read_back_what_was_written() {
    let mut access = AccessConfig { user_patterns: None, room_local_agent_manager_patterns: None };
    assert_eq!(
        dispatch_access(AccessControllerType::GetUsers, false, &mut access),
        AccessOutcome::NotPermittedToAdministrate
    );
    assert_eq!(dispatch_access(AccessControllerType::Help, false, &mut access), AccessOutcome::Help);
    assert_eq!(
        dispatch_access(AccessControllerType::GetUsers, true, &mut access),
        AccessOutcome::Current(None)
    );
    let patterns = vec!["@*:example.com".to_owned()];
    assert_eq!(
        dispatch_access(AccessControllerType::SetUsers(Some(patterns.clone())), true, &mut access),
        AccessOutcome::Changed(Some(patterns.clone()))
    );
    assert_eq!(
        dispatch_access(AccessControllerType::GetUsers, true, &mut access),
        AccessOutcome::Current(Some(patterns.clone()))
    );
    match dispatch_access(
        AccessControllerType::SetRoomLocalAgentManagers(Some(vec!["nobody".to_owned()])),
        true,
        &mut access,
    ) {
        AccessOutcome::InvalidPatterns(message) => assert!(!message.is_empty()),
        other => panic!("unexpected outcome {:?}", other),
    }
    assert_eq!(access.room_local_agent_manager_patterns, None);
    assert_eq!(
        dispatch_access(AccessControllerType::SetUsers(None), true, &mut access),
        AccessOutcome::Changed(None)
    );
    assert_eq!(access.user_patterns, None);
}

#[test]
fn generated_answers_and_voice_media_types() {
    assert_eq!(answer_text("  Hello there.\n"), Some("Hello there."));
    assert_eq!(answer_text(" \n\t "), None);
    assert_eq!(answer_text(""), None);
    assert_eq!(audio_mime_type(None), "audio/ogg");
    assert_eq!(audio_mime_type(Some("audio/mpeg".to_owned())), "audio/mpeg");
}

#[test]
fn what_reactions_ask_for() {
    let tts = MessagePayload::Reaction { key: "🗣️".to_owned(), reacted_to_text: Some("Hi".to_owned()) };
    assert_eq!(reaction_action(&tts, "🗣️"), Ok(ReactionAction::TextToSpeech("Hi".to_owned())));
    let other = MessagePayload::Reaction { key: "👍".to_owned(), reacted_to_text: Some("Hi".to_owned()) };
    assert_eq!(reaction_action(&other, "🗣️"), Ok(ReactionAction::Ignore));
    let to_voice = MessagePayload::Reaction { key: "🗣️".to_owned(), reacted_to_text: None };
    assert_eq!(reaction_action(&to_voice, "🗣️"), Ok(ReactionAction::Ignore));
    assert_eq!(
        reaction_action(&MessagePayload::Audio, "🗣️"),
        Err("Reaction controller called with a non-reaction message".to_owned())
    );
}

#[test]
fn errors_are_replied_where_they_belong() {
    assert_eq!(
        error_reply(&ControllerType::Unknown, "!bai"),
        Some((strings::error::unknown_command_see_help("!bai"), ResponsePlacement::ReplyToThreadRoot))
    );
    assert_eq!(
        error_reply(&ControllerType::Error("bad".to_owned()), "!bai"),
        Some(("bad".to_owned(), ResponsePlacement::ReplyToThreadRoot))
    );
    let thread = ThreadInfo { root_event_id: "$a".to_owned(), last_event_id: "$b".to_owned() };
    assert_eq!(
        error_reply(&ControllerType::ErrorInThread("bad".to_owned(), thread), "!bai"),
        Some(("bad".to_owned(), ResponsePlacement::InThread))
    );
    assert_eq!(error_reply(&ControllerType::Help, "!bai"), None);
}
