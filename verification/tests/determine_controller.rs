use baibot::agent::{AgentPurpose, PublicIdentifier};
use baibot::controller::access::AccessControllerType;
use baibot::controller::agent::AgentControllerType;
use baibot::controller::cfg::speech_to_text::ConfigSpeechToTextSettingRelatedControllerType;
use baibot::controller::cfg::text_generation::ConfigTextGenerationSettingRelatedControllerType;
use baibot::controller::cfg::text_to_speech::ConfigTextToSpeechSettingRelatedControllerType;
use baibot::controller::cfg::{
    ConfigControllerType, ConfigSettingRelatedControllerType, SettingsStorageSource,
};
use baibot::controller::{access, agent, image, ControllerType};
use baibot::strings;

struct TestCase {
    name: &'static str,
    input: &'static str,
    expected: ControllerType,
}

#[test]
fn tests_determine_controller() {
    // Access commands
    let test_cases = vec![
        TestCase {
            name: "Top-level is help",
            input: "",
            expected: ControllerType::Access(AccessControllerType::Help),
        },
        TestCase {
            name: "Anything else goes to top-level",
            input: "whatever",
            expected: ControllerType::Access(AccessControllerType::Help),
        },
        TestCase {
            name: "Users",
            input: "users",
            expected: ControllerType::Access(AccessControllerType::GetUsers),
        },
        TestCase {
            name: "Set-users",
            input: "set-users @user:example.com @bot.*:example.org",
            expected: ControllerType::Access(AccessControllerType::SetUsers(Some(
                vec![
                    "@user:example.com".to_owned(),
                    "@bot.*:example.org".to_owned(),
                ],
            ))),
        },
        TestCase {
            name: "Room-local-agent-managers",
            input: "room-local-agent-managers",
            expected: ControllerType::Access(
                AccessControllerType::GetRoomLocalAgentManagers,
            ),
        },
        TestCase {
            name: "Set-room-local-agent-managers",
            input: "set-room-local-agent-managers @user:example.com @bot.*:example.org",
            expected: ControllerType::Access(
                AccessControllerType::SetRoomLocalAgentManagers(Some(vec![
                    "@user:example.com".to_owned(),
                    "@bot.*:example.org".to_owned(),
                ])),
            ),
        },
    ];

    for test_case in test_cases {
        let result = access::determine_controller(test_case.input);
        assert_eq!(result, test_case.expected, "Test case: {}", test_case.name);
    }

    // Agent commands
    let command_prefix = "!bai";

    let test_cases = vec![
        TestCase {
            name: "Top-level is help",
            input: "",
            expected: ControllerType::Agent(AgentControllerType::Help),
        },
        TestCase {
            name: "Anything else goes to top-level",
            input: "whatever",
            expected: ControllerType::Agent(AgentControllerType::Help),
        },
        TestCase {
            name: "List",
            input: "list",
            expected: ControllerType::Agent(AgentControllerType::List),
        },
        TestCase {
            name: "details",
            input: "details static/agent-id",
            expected: ControllerType::Agent(AgentControllerType::Details(
                PublicIdentifier::Static("agent-id".to_owned()),
            )),
        },
        TestCase {
            name: "details with invalid agent identifier",
            input: "details agent-id",
            expected: ControllerType::Error(strings::agent::invalid_id_generic()),
        },
        TestCase {
            name: "create-room-local no arguments",
            input: "create-room-local",
            expected: ControllerType::Error(
                strings::agent::incorrect_creation_invocation(command_prefix),
            ),
        },
        TestCase {
            name: "create-room-local only with provider",
            input: "create-room-local openai",
            expected: ControllerType::Error(
                strings::agent::incorrect_creation_invocation(command_prefix),
            ),
        },
        TestCase {
            name: "create-room-local correct",
            input: "create-room-local openai my-agent-id",
            expected: ControllerType::Agent(AgentControllerType::CreateRoomLocal {
                provider: "openai".to_owned(),
                agent_id: "my-agent-id".trim().to_owned(),
            }),
        },
        TestCase {
            name: "create-global extra arguments",
            input: "create-global openai my-agent-id more arguments here",
            expected: ControllerType::Error(
                strings::agent::incorrect_creation_invocation(command_prefix),
            ),
        },
        TestCase {
            name: "create-global no arguments",
            input: "create-global",
            expected: ControllerType::Error(
                strings::agent::incorrect_creation_invocation(command_prefix),
            ),
        },
        TestCase {
            name: "create-global only with provider",
            input: "create-global openai",
            expected: ControllerType::Error(
                strings::agent::incorrect_creation_invocation(command_prefix),
            ),
        },
        TestCase {
            name: "create-global correct",
            input: "create-global openai my-agent-id",
            expected: ControllerType::Agent(AgentControllerType::CreateGlobal {
                provider: "openai".to_owned(),
                agent_id: "my-agent-id".trim().to_owned(),
            }),
        },
        TestCase {
            name: "create-global extra arguments",
            input: "create-global openai my-agent-id more arguments here",
            expected: ControllerType::Error(
                strings::agent::incorrect_creation_invocation(command_prefix),
            ),
        },
        TestCase {
            name: "delete no arguments",
            input: "delete",
            expected: ControllerType::Error(
                strings::agent::incorrect_invocation_expects_agent_id_arg(command_prefix),
            ),
        },
        TestCase {
            name: "delete too many arguments",
            input: "delete agent-id extra arguments",
            expected: ControllerType::Error(
                strings::agent::incorrect_invocation_expects_agent_id_arg(command_prefix),
            ),
        },
        TestCase {
            name: "delete",
            input: "delete static/agent-id",
            expected: ControllerType::Agent(AgentControllerType::Delete(
                PublicIdentifier::Static("agent-id".to_owned()),
            )),
        },
        TestCase {
            name: "delete with invalid agent identifier",
            input: "delete agent-id",
            expected: ControllerType::Error(strings::agent::invalid_id_generic()),
        },
    ];

    for test_case in test_cases {
        let result = agent::determine_controller(command_prefix, test_case.input);
        assert_eq!(result, test_case.expected, "Test case: {}", test_case.name);
    }

    // Image commands
    let test_cases = vec![
        TestCase {
            name: "Top-level is usage help",
            input: "",
            expected: ControllerType::UsageHelp,
        },
        TestCase {
            name: "Top-level with some text is usage help",
            input: "Some text",
            expected: ControllerType::UsageHelp,
        },
        TestCase {
            name: "Image generation triggered by create prefix",
            input: "create Some prompt",
            expected: ControllerType::ImageGeneration("Some prompt".to_owned()),
        },

        TestCase {
            name: "Image edit triggered by edit prefix",
            input: "edit Turn this into an anime-style image",
            expected: ControllerType::ImageEdit("Turn this into an anime-style image".to_owned()),
        },
    ];

    for test_case in test_cases {
        let result = image::determine_controller(test_case.input);
        assert_eq!(result, test_case.expected, "Test case: {}", test_case.name);
    }

    // Configuration commands
    let test_cases = vec![
        TestCase {
            name: "Top-level is help",
            input: "",
            expected: ControllerType::Config(ConfigControllerType::Help),
        },
        TestCase {
            name: "unknown commands is help",
            input: "whatever",
            expected: ControllerType::Config(ConfigControllerType::Help),
        },

        TestCase {
            name: "Status",
            input: "status",
            expected: ControllerType::Config(ConfigControllerType::Status),
        },


        TestCase {
            name: "per-room handler getter - catch-all",
            input: "room handler catch-all",
            expected: ControllerType::Config(ConfigControllerType::SettingsRelated(
                SettingsStorageSource::Room,
                ConfigSettingRelatedControllerType::GetHandler(AgentPurpose::CatchAll),
            )),
        },
        TestCase {
            name: "per-room handler getter - text-generation",
            input: "room handler text-generation",
            expected: ControllerType::Config(ConfigControllerType::SettingsRelated(
                SettingsStorageSource::Room,
                ConfigSettingRelatedControllerType::GetHandler(AgentPurpose::TextGeneration),
            )),
        },
        TestCase {
            name: "per-room handler getter - invalid purpose",
            input: "room handler invalid-purpose-here",
            expected: ControllerType::Error(
                strings::agent::purpose_unrecognized("invalid-purpose-here").to_owned()
            ),
        },
        TestCase {
            name: "per-room handler getter - invalid purpose with spaces",
            input: "room handler invalid purpose here",
            expected: ControllerType::Error(
                strings::agent::purpose_unrecognized("invalid purpose here").to_owned()
            ),
        },
        TestCase {
            name: "per-room handler setter - too few values",
            input: "room set-handler",
            expected: ControllerType::Error(
                strings::cfg::configuration_invocation_incorrect_more_values_expected().to_owned()
            ),
        },
        TestCase {
            name: "per-room handler setter - catch-all",
            input: "room set-handler catch-all static/agent-id",
            expected: ControllerType::Config(ConfigControllerType::SettingsRelated(
                SettingsStorageSource::Room,
                ConfigSettingRelatedControllerType::SetHandler(AgentPurpose::CatchAll, Some(
                    PublicIdentifier::Static("agent-id".to_owned())
                )),
            )),
        },
        TestCase {
            name: "per-room handler setter - catch-all with bare agent id",
            input: "room set-handler catch-all agent-id",
            expected: ControllerType::Error(
                strings::agent::invalid_id_generic().to_owned()
            ),
        },
        TestCase {
            name: "per-room handler setter - catch-all unsetter",
            input: "room set-handler catch-all",
            expected: ControllerType::Config(ConfigControllerType::SettingsRelated(
                SettingsStorageSource::Room,
                ConfigSettingRelatedControllerType::SetHandler(AgentPurpose::CatchAll, None),
            )),
        },
        TestCase {
            name: "per-room handler setter - text-generation",
            input: "room set-handler text-generation room-local/agent-id",
            expected: ControllerType::Config(ConfigControllerType::SettingsRelated(
                SettingsStorageSource::Room,
                ConfigSettingRelatedControllerType::SetHandler(AgentPurpose::TextGeneration, Some(
                    PublicIdentifier::DynamicRoomLocal("agent-id".to_owned())
                )),
            )),
        },
        TestCase {
            name: "per-room handler setter - too many values",
            input: "room set-handler text-generation agent-id more values here",
            expected: ControllerType::Error(
                strings::agent::invalid_id_generic().to_owned()
            ),
        },

        // We have few global handler test cases. We've exercised the per-room handlers enough.
        // These share the same code path, so we don't need to test all the permutations again.
        TestCase {
            name: "global handler getter - catch-all",
            input: "global handler catch-all",
            expected: ControllerType::Config(ConfigControllerType::SettingsRelated(
                SettingsStorageSource::Global,
                ConfigSettingRelatedControllerType::GetHandler(AgentPurpose::CatchAll),
            )),
        },
        TestCase {
            name: "global handler setter - text-generation with global agent",
            input: "global set-handler text-generation global/agent-id",
            expected: ControllerType::Config(ConfigControllerType::SettingsRelated(
                SettingsStorageSource::Global,
                ConfigSettingRelatedControllerType::SetHandler(AgentPurpose::TextGeneration, Some(
                    PublicIdentifier::DynamicGlobal("agent-id".to_owned())
                )),
            )),
        },
        // This test case passes, even though the handler function will subsequently reject using room-local agents for global handlers.
        TestCase {
            name: "global handler setter - text-generation with room-local agent",
            input: "global set-handler text-generation room-local/agent-id",
            expected: ControllerType::Config(ConfigControllerType::SettingsRelated(
                SettingsStorageSource::Global,
                ConfigSettingRelatedControllerType::SetHandler(AgentPurpose::TextGeneration, Some(
                    PublicIdentifier::DynamicRoomLocal("agent-id".to_owned())
                )),
            )),
        },

        // We'll only test one handler per sub-category to ensure proper routing is done here.
        // Extensive tests for each sub-category are done in their respective modules.

        TestCase {
            name: "per-room text-generation/context-management-enabled getter",
            input: "room text-generation context-management-enabled",
            expected: ControllerType::Config(ConfigControllerType::SettingsRelated(
                SettingsStorageSource::Room,
                ConfigSettingRelatedControllerType::TextGeneration(
                    ConfigTextGenerationSettingRelatedControllerType::GetContextManagementEnabled,
                ),
            )),
        },
        TestCase {
            name: "global text-generation/context-management-enabled getter",
            input: "global text-generation context-management-enabled",
            expected: ControllerType::Config(ConfigControllerType::SettingsRelated(
                SettingsStorageSource::Global,
                ConfigSettingRelatedControllerType::TextGeneration(
                    ConfigTextGenerationSettingRelatedControllerType::GetContextManagementEnabled,
                ),
            )),
        },
        TestCase {
            name: "per-room text-to-speech/speed-override getter",
            input: "room text-to-speech speed-override",
            expected: ControllerType::Config(ConfigControllerType::SettingsRelated(
                SettingsStorageSource::Room,
                ConfigSettingRelatedControllerType::TextToSpeech(
                    ConfigTextToSpeechSettingRelatedControllerType::GetSpeedOverride,
                ),
            )),
        },
        TestCase {
            name: "global text-to-speech/speed-override getter",
            input: "global text-to-speech speed-override",
            expected: ControllerType::Config(ConfigControllerType::SettingsRelated(
                SettingsStorageSource::Global,
                ConfigSettingRelatedControllerType::TextToSpeech(
                    ConfigTextToSpeechSettingRelatedControllerType::GetSpeedOverride,
                ),
            )),
        },
        TestCase {
            name: "room speech-to-text/flow-type getter",
            input: "room speech-to-text flow-type",
            expected: ControllerType::Config(ConfigControllerType::SettingsRelated(
                SettingsStorageSource::Room,
                ConfigSettingRelatedControllerType::SpeechToText(
                    ConfigSpeechToTextSettingRelatedControllerType::GetFlowType,
                ),
            )),
        },
        TestCase {
            name: "global speech-to-text/flow-type getter",
            input: "global speech-to-text flow-type",
            expected: ControllerType::Config(ConfigControllerType::SettingsRelated(
                SettingsStorageSource::Global,
                ConfigSettingRelatedControllerType::SpeechToText(
                    ConfigSpeechToTextSettingRelatedControllerType::GetFlowType,
                ),
            )),
        },
    ];

    for test_case in test_cases {
        let result = baibot::controller::cfg::determine_controller(test_case.input);
        assert_eq!(result, test_case.expected, "Test case: {}", test_case.name);
    }
}
