use baibot::controller::cfg::speech_to_text::{self, ConfigSpeechToTextSettingRelatedControllerType};
use baibot::controller::cfg::text_generation::{self, ConfigTextGenerationSettingRelatedControllerType};
use baibot::controller::cfg::text_to_speech::{self, ConfigTextToSpeechSettingRelatedControllerType};
use baibot::controller::ControllerType;
use baibot::roomconfig::{
    SpeechToTextFlowType, TextGenerationAutoUsage, TextGenerationPrefixRequirementType,
    TextToSpeechBotMessagesFlowType, TextToSpeechUserMessagesFlowType,
};
use baibot::strings;

#[test]
fn tests_determine_controller_other() {
    {

    struct TestCase {
        name: &'static str,
        input: &'static str,
        expected: Result<ConfigSpeechToTextSettingRelatedControllerType, ControllerType>,
    }

    let test_cases = vec![TestCase {
        name: "Unknown",
        input: "whatever",
        expected: Err(ControllerType::Unknown),
    }];

    for test_case in test_cases {
        let result = speech_to_text::determine(test_case.input);
        assert_eq!(result, test_case.expected, "Test case: {}", test_case.name);
    }
    }
    {

    struct TestCase {
        name: &'static str,
        input: &'static str,
        expected: Result<ConfigTextGenerationSettingRelatedControllerType, ControllerType>,
    }

    let test_cases = vec![TestCase {
        name: "Unknown",
        input: "whatever",
        expected: Err(ControllerType::Unknown),
    }];

    for test_case in test_cases {
        let result = text_generation::determine(test_case.input);
        assert_eq!(result, test_case.expected, "Test case: {}", test_case.name);
    }
    }
    {

    struct TestCase {
        name: &'static str,
        input: &'static str,
        expected: Result<ConfigTextToSpeechSettingRelatedControllerType, ControllerType>,
    }

    let test_cases = vec![TestCase {
        name: "Unknown",
        input: "whatever",
        expected: Err(ControllerType::Unknown),
    }];

    for test_case in test_cases {
        let result = text_to_speech::determine(test_case.input);
        assert_eq!(result, test_case.expected, "Test case: {}", test_case.name);
    }
    }
}

#[test]
fn determine_controller_flow_type() {

    struct TestCase {
        name: &'static str,
        input: &'static str,
        expected: Result<ConfigSpeechToTextSettingRelatedControllerType, ControllerType>,
    }

    let test_cases = vec![
        TestCase {
            name: "flow-type getter ok",
            input: "flow-type",
            expected: Ok(ConfigSpeechToTextSettingRelatedControllerType::GetFlowType),
        },
        TestCase {
            name: "flow-type getter extra args",
            input: "flow-type some values here",
            expected: Err(ControllerType::Error(
                strings::cfg::configuration_getter_used_with_extra_text(
                    "flow-type",
                    "some values here",
                ),
            )),
        },
        TestCase {
            name: "flow-type setter",
            input: "set-flow-type transcribe_and_generate_text",
            expected: Ok(ConfigSpeechToTextSettingRelatedControllerType::SetFlowType(
                Some(SpeechToTextFlowType::TranscribeAndGenerateText),
            )),
        },
        TestCase {
            name: "flow-type setter",
            input: "set-flow-type unknown-Value",
            expected: Err(ControllerType::Error(
                strings::cfg::configuration_value_unrecognized("unknown-Value"),
            )),
        },
        TestCase {
            name: "flow-type unsetter",
            input: "set-flow-type",
            expected: Ok(ConfigSpeechToTextSettingRelatedControllerType::SetFlowType(
                None,
            )),
        },
    ];

    for test_case in test_cases {
        let result = speech_to_text::determine(test_case.input);
        assert_eq!(result, test_case.expected, "Test case: {}", test_case.name);
    }
}


#[test]
fn determine_controller_language() {

    struct TestCase {
        name: &'static str,
        input: &'static str,
        expected: Result<ConfigSpeechToTextSettingRelatedControllerType, ControllerType>,
    }

    let test_cases = vec![
        TestCase {
            name: "language getter ok",
            input: "language",
            expected: Ok(ConfigSpeechToTextSettingRelatedControllerType::GetLanguage),
        },
        TestCase {
            name: "language getter extra args",
            input: "language some values here",
            expected: Err(ControllerType::Error(
                strings::cfg::configuration_getter_used_with_extra_text(
                    "language",
                    "some values here",
                ),
            )),
        },
        TestCase {
            name: "language setter 2-letter code (ja)",
            input: "set-language ja",
            expected: Ok(ConfigSpeechToTextSettingRelatedControllerType::SetLanguage(
                Some("ja".to_owned()),
            )),
        },
        // OpenAI does not support 3-letter codes, so we won't be allowing it either
        TestCase {
            name: "language setter 3-letter code (jpn) fails",
            input: "set-language jpn",
            expected: Err(ControllerType::Error(
                strings::speech_to_text::language_code_invalid("jpn"),
            )),
        },
        TestCase {
            name: "language unsetter",
            input: "set-language",
            expected: Ok(ConfigSpeechToTextSettingRelatedControllerType::SetLanguage(
                None,
            )),
        },
    ];

    for test_case in test_cases {
        let result = speech_to_text::determine(test_case.input);
        assert_eq!(result, test_case.expected, "Test case: {}", test_case.name);
    }
}

#[test]
fn determine_controller_context_management() {

    struct TestCase {
        name: &'static str,
        input: &'static str,
        expected: Result<ConfigTextGenerationSettingRelatedControllerType, ControllerType>,
    }

    let test_cases = vec![
        TestCase {
            name: "context-management-enabled getter ok",
            input: "context-management-enabled",
            expected: Ok(
                ConfigTextGenerationSettingRelatedControllerType::GetContextManagementEnabled,
            ),
        },
        TestCase {
            name: "context-management-enabled getter extra args",
            input: "context-management-enabled some values here",
            expected: Err(ControllerType::Error(
                strings::cfg::configuration_getter_used_with_extra_text(
                    "context-management-enabled",
                    "some values here",
                ),
            )),
        },
        TestCase {
            name: "context-management-enabled setter",
            input: "set-context-management-enabled true",
            expected: Ok(
                ConfigTextGenerationSettingRelatedControllerType::SetContextManagementEnabled(
                    Some(true),
                ),
            ),
        },
        TestCase {
            name: "context-management-enabled setter uppercase",
            input: "set-context-management-enabled TRUE",
            expected: Ok(
                ConfigTextGenerationSettingRelatedControllerType::SetContextManagementEnabled(
                    Some(true),
                ),
            ),
        },
        TestCase {
            name: "context-management-enabled setter non-bool",
            input: "set-context-management-enabled non-Bool-Value",
            expected: Err(ControllerType::Error(
                strings::cfg::configuration_value_unrecognized("non-Bool-Value"),
            )),
        },
        TestCase {
            name: "context-management-enabled unsetter",
            input: "set-context-management-enabled",
            expected: Ok(
                ConfigTextGenerationSettingRelatedControllerType::SetContextManagementEnabled(None),
            ),
        },
    ];

    for test_case in test_cases {
        let result = text_generation::determine(test_case.input);
        assert_eq!(result, test_case.expected, "Test case: {}", test_case.name);
    }
}


#[test]
fn determine_controller_prefix_requirement_type() {

    struct TestCase {
        name: &'static str,
        input: &'static str,
        expected: Result<ConfigTextGenerationSettingRelatedControllerType, ControllerType>,
    }

    let test_cases = vec![
        TestCase {
            name: "prefix-requirement-type getter ok",
            input: "prefix-requirement-type",
            expected: Ok(
                ConfigTextGenerationSettingRelatedControllerType::GetPrefixRequirementType,
            ),
        },
        TestCase {
            name: "prefix-requirement-type getter extra args",
            input: "prefix-requirement-type some values here",
            expected: Err(ControllerType::Error(
                strings::cfg::configuration_getter_used_with_extra_text(
                    "prefix-requirement-type",
                    "some values here",
                ),
            )),
        },
        TestCase {
            name: "prefix-requirement-type setter (command_prefix)",
            input: "set-prefix-requirement-type command_prefix",
            expected: Ok(
                ConfigTextGenerationSettingRelatedControllerType::SetPrefixRequirementType(Some(
                    TextGenerationPrefixRequirementType::CommandPrefix,
                )),
            ),
        },
        TestCase {
            name: "prefix-requirement-type setter (no)",
            input: "set-prefix-requirement-type no",
            expected: Ok(
                ConfigTextGenerationSettingRelatedControllerType::SetPrefixRequirementType(Some(
                    TextGenerationPrefixRequirementType::No,
                )),
            ),
        },
        TestCase {
            name: "prefix-requirement-type setter",
            input: "set-prefix-requirement-type unknown-Value",
            expected: Err(ControllerType::Error(
                strings::cfg::configuration_value_unrecognized("unknown-Value"),
            )),
        },
        TestCase {
            name: "prefix-requirement-type unsetter",
            input: "set-prefix-requirement-type",
            expected: Ok(
                ConfigTextGenerationSettingRelatedControllerType::SetPrefixRequirementType(None),
            ),
        },
    ];

    for test_case in test_cases {
        let result = text_generation::determine(test_case.input);
        assert_eq!(result, test_case.expected, "Test case: {}", test_case.name);
    }
}


#[test]
fn determine_controller_auto_usage() {

    struct TestCase {
        name: &'static str,
        input: &'static str,
        expected: Result<ConfigTextGenerationSettingRelatedControllerType, ControllerType>,
    }

    let test_cases = vec![
        TestCase {
            name: "auto-usage getter ok",
            input: "auto-usage",
            expected: Ok(ConfigTextGenerationSettingRelatedControllerType::GetAutoUsage),
        },
        TestCase {
            name: "auto-usage getter extra args",
            input: "auto-usage some values here",
            expected: Err(ControllerType::Error(
                strings::cfg::configuration_getter_used_with_extra_text(
                    "auto-usage",
                    "some values here",
                ),
            )),
        },
        TestCase {
            name: "auto-usage setter",
            input: "set-auto-usage only_for_voice",
            expected: Ok(
                ConfigTextGenerationSettingRelatedControllerType::SetAutoUsage(Some(
                    TextGenerationAutoUsage::OnlyForVoice,
                )),
            ),
        },
        TestCase {
            name: "auto-usage setter",
            input: "set-auto-usage unknown-Value",
            expected: Err(ControllerType::Error(
                strings::cfg::configuration_value_unrecognized("unknown-Value"),
            )),
        },
        TestCase {
            name: "auto-usage unsetter",
            input: "set-auto-usage",
            expected: Ok(ConfigTextGenerationSettingRelatedControllerType::SetAutoUsage(None)),
        },
    ];

    for test_case in test_cases {
        let result = text_generation::determine(test_case.input);
        assert_eq!(result, test_case.expected, "Test case: {}", test_case.name);
    }
}


#[test]
fn determine_controller_prompt_override() {

    struct TestCase {
        name: &'static str,
        input: &'static str,
        expected: Result<ConfigTextGenerationSettingRelatedControllerType, ControllerType>,
    }

    let test_cases = vec![
        TestCase {
            name: "prompt-override getter ok",
            input: "prompt-override",
            expected: Ok(ConfigTextGenerationSettingRelatedControllerType::GetPromptOverride),
        },
        TestCase {
            name: "prompt-override getter extra args",
            input: "prompt-override some values here",
            expected: Err(ControllerType::Error(
                strings::cfg::configuration_getter_used_with_extra_text(
                    "prompt-override",
                    "some values here",
                ),
            )),
        },
        TestCase {
            name: "prompt-override setter with multiple words",
            input: "set-prompt-override Hello! You are a bot",
            expected: Ok(
                ConfigTextGenerationSettingRelatedControllerType::SetPromptOverride(Some(
                    "Hello! You are a bot".to_owned(),
                )),
            ),
        },
        TestCase {
            name: "prompt-override setter with multi-line",
            input: "set-prompt-override Hello!\n\nYou are a bot",
            expected: Ok(
                ConfigTextGenerationSettingRelatedControllerType::SetPromptOverride(Some(
                    "Hello!\n\nYou are a bot".to_owned(),
                )),
            ),
        },
        TestCase {
            name: "prompt-override unsetter",
            input: "set-prompt-override",
            expected: Ok(ConfigTextGenerationSettingRelatedControllerType::SetPromptOverride(None)),
        },
    ];

    for test_case in test_cases {
        let result = text_generation::determine(test_case.input);
        assert_eq!(result, test_case.expected, "Test case: {}", test_case.name);
    }
}


#[test]
fn determine_controller_temperature_override() {
    // The number is carried as its text; it stands for 0.5.
    assert_eq!("0.5".parse::<f32>(), Ok(0.5));


    struct TestCase {
        name: &'static str,
        input: &'static str,
        expected: Result<ConfigTextGenerationSettingRelatedControllerType, ControllerType>,
    }

    let test_cases = vec![
        TestCase {
            name: "temperature-override getter ok",
            input: "temperature-override",
            expected: Ok(ConfigTextGenerationSettingRelatedControllerType::GetTemperatureOverride),
        },
        TestCase {
            name: "temperature-override getter extra args",
            input: "temperature-override some values here",
            expected: Err(ControllerType::Error(
                strings::cfg::configuration_getter_used_with_extra_text(
                    "temperature-override",
                    "some values here",
                ),
            )),
        },
        TestCase {
            name: "temperature-override setter",
            input: "set-temperature-override 0.5",
            expected: Ok(
                ConfigTextGenerationSettingRelatedControllerType::SetTemperatureOverride(Some("0.5".to_owned())),
            ),
        },
        TestCase {
            name: "temperature-override setter",
            input: "set-temperature-override unknown-Value",
            expected: Err(ControllerType::Error(
                strings::cfg::configuration_value_not_f32("unknown-Value"),
            )),
        },
        TestCase {
            name: "temperature-override unsetter",
            input: "set-temperature-override",
            expected: Ok(
                ConfigTextGenerationSettingRelatedControllerType::SetTemperatureOverride(None),
            ),
        },
    ];

    for test_case in test_cases {
        let result = text_generation::determine(test_case.input);
        assert_eq!(result, test_case.expected, "Test case: {}", test_case.name);
    }
}

#[test]
fn determine_controller_bot_msgs_flow_type() {

    struct TestCase {
        name: &'static str,
        input: &'static str,
        expected: Result<ConfigTextToSpeechSettingRelatedControllerType, ControllerType>,
    }

    let test_cases = vec![
        TestCase {
            name: "bot-msgs-flow-type getter ok",
            input: "bot-msgs-flow-type",
            expected: Ok(ConfigTextToSpeechSettingRelatedControllerType::GetBotMessagesFlowType),
        },
        TestCase {
            name: "bot-msgs-flow-type getter extra args",
            input: "bot-msgs-flow-type some values here",
            expected: Err(ControllerType::Error(
                strings::cfg::configuration_getter_used_with_extra_text(
                    "bot-msgs-flow-type",
                    "some values here",
                ),
            )),
        },
        TestCase {
            name: "bot-msgs-flow-type setter",
            input: "set-bot-msgs-flow-type only_for_voice",
            expected: Ok(
                ConfigTextToSpeechSettingRelatedControllerType::SetBotMessagesFlowType(Some(
                    TextToSpeechBotMessagesFlowType::OnlyForVoice,
                )),
            ),
        },
        TestCase {
            name: "bot-msgs-flow-type setter",
            input: "set-bot-msgs-flow-type unknown-Value",
            expected: Err(ControllerType::Error(
                strings::cfg::configuration_value_unrecognized("unknown-Value"),
            )),
        },
        TestCase {
            name: "bot-msgs-flow-type unsetter",
            input: "set-bot-msgs-flow-type",
            expected: Ok(
                ConfigTextToSpeechSettingRelatedControllerType::SetBotMessagesFlowType(None),
            ),
        },
    ];

    for test_case in test_cases {
        let result = text_to_speech::determine(test_case.input);
        assert_eq!(result, test_case.expected, "Test case: {}", test_case.name);
    }
}


#[test]
fn determine_controller_user_msgs_flow_type() {

    struct TestCase {
        name: &'static str,
        input: &'static str,
        expected: Result<ConfigTextToSpeechSettingRelatedControllerType, ControllerType>,
    }

    let test_cases = vec![
        TestCase {
            name: "user-msgs-flow-type getter ok",
            input: "user-msgs-flow-type",
            expected: Ok(ConfigTextToSpeechSettingRelatedControllerType::GetUserMessagesFlowType),
        },
        TestCase {
            name: "user-msgs-flow-type getter extra args",
            input: "user-msgs-flow-type some values here",
            expected: Err(ControllerType::Error(
                strings::cfg::configuration_getter_used_with_extra_text(
                    "user-msgs-flow-type",
                    "some values here",
                ),
            )),
        },
        TestCase {
            name: "user-msgs-flow-type setter",
            input: "set-user-msgs-flow-type on_demand",
            expected: Ok(
                ConfigTextToSpeechSettingRelatedControllerType::SetUserMessagesFlowType(Some(
                    TextToSpeechUserMessagesFlowType::OnDemand,
                )),
            ),
        },
        TestCase {
            name: "user-msgs-flow-type setter",
            input: "set-user-msgs-flow-type unknown-Value",
            expected: Err(ControllerType::Error(
                strings::cfg::configuration_value_unrecognized("unknown-Value"),
            )),
        },
        TestCase {
            name: "user-msgs-flow-type unsetter",
            input: "set-user-msgs-flow-type",
            expected: Ok(
                ConfigTextToSpeechSettingRelatedControllerType::SetUserMessagesFlowType(None),
            ),
        },
    ];

    for test_case in test_cases {
        let result = text_to_speech::determine(test_case.input);
        assert_eq!(result, test_case.expected, "Test case: {}", test_case.name);
    }
}


#[test]
fn determine_controller_speed_override() {
    // The number is carried as its text; it stands for 0.5.
    assert_eq!("0.5".parse::<f32>(), Ok(0.5));


    struct TestCase {
        name: &'static str,
        input: &'static str,
        expected: Result<ConfigTextToSpeechSettingRelatedControllerType, ControllerType>,
    }

    let test_cases = vec![
        TestCase {
            name: "speed-override getter ok",
            input: "speed-override",
            expected: Ok(ConfigTextToSpeechSettingRelatedControllerType::GetSpeedOverride),
        },
        TestCase {
            name: "speed-override getter extra args",
            input: "speed-override some values here",
            expected: Err(ControllerType::Error(
                strings::cfg::configuration_getter_used_with_extra_text(
                    "speed-override",
                    "some values here",
                ),
            )),
        },
        TestCase {
            name: "speed-override setter",
            input: "set-speed-override 0.5",
            expected: Ok(
                ConfigTextToSpeechSettingRelatedControllerType::SetSpeedOverride(Some("0.5".to_owned())),
            ),
        },
        TestCase {
            name: "speed-override setter",
            input: "set-speed-override unknown-Value",
            expected: Err(ControllerType::Error(
                strings::cfg::configuration_value_not_f32("unknown-Value"),
            )),
        },
        TestCase {
            name: "speed-override unsetter",
            input: "set-speed-override",
            expected: Ok(ConfigTextToSpeechSettingRelatedControllerType::SetSpeedOverride(None)),
        },
    ];

    for test_case in test_cases {
        let result = text_to_speech::determine(test_case.input);
        assert_eq!(result, test_case.expected, "Test case: {}", test_case.name);
    }
}


#[test]
fn determine_controller_voice_override() {

    struct TestCase {
        name: &'static str,
        input: &'static str,
        expected: Result<ConfigTextToSpeechSettingRelatedControllerType, ControllerType>,
    }

    let test_cases = vec![
        TestCase {
            name: "voice-override getter ok",
            input: "voice-override",
            expected: Ok(ConfigTextToSpeechSettingRelatedControllerType::GetVoiceOverride),
        },
        TestCase {
            name: "voice-override getter extra args",
            input: "voice-override some values here",
            expected: Err(ControllerType::Error(
                strings::cfg::configuration_getter_used_with_extra_text(
                    "voice-override",
                    "some values here",
                ),
            )),
        },
        TestCase {
            name: "voice-override setter",
            input: "set-voice-override alex",
            expected: Ok(
                ConfigTextToSpeechSettingRelatedControllerType::SetVoiceOverride(Some(
                    "alex".to_owned(),
                )),
            ),
        },
        TestCase {
            name: "voice-override setter preserves case",
            input: "set-voice-override Alex",
            expected: Ok(
                ConfigTextToSpeechSettingRelatedControllerType::SetVoiceOverride(Some(
                    "Alex".to_owned(),
                )),
            ),
        },
        TestCase {
            name: "voice-override unsetter",
            input: "set-voice-override",
            expected: Ok(ConfigTextToSpeechSettingRelatedControllerType::SetVoiceOverride(None)),
        },
    ];

    for test_case in test_cases {
        let result = text_to_speech::determine(test_case.input);
        assert_eq!(result, test_case.expected, "Test case: {}", test_case.name);
    }
}
