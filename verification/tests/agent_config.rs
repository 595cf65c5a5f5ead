use baibot::agent::{remove_agent_definitions, AgentDefinition, AgentPurpose, PublicIdentifier};
use baibot::controller::agent::parse_from_message_to_yaml_value;
use serde_yaml::{Mapping, Number, Value};

fn entry(map: &mut Mapping, key: &str, value: Value) {
    map.insert(Value::String(key.to_owned()), value);
}

fn text(s: &str) -> Value {
    Value::String(s.to_owned())
}

/// A configuration of the shape that an OpenAI agent has.
fn sample_openai_config() -> Value {
    let mut text_generation = Mapping::new();
    entry(&mut text_generation, "model_id", text("gpt-4o"));
    entry(&mut text_generation, "prompt", text("You are a brief, but helpful bot."));
    entry(&mut text_generation, "temperature", Value::Number(Number::from(1.0f64)));
    entry(&mut text_generation, "max_response_tokens", Value::Number(Number::from(4096u64)));
    entry(&mut text_generation, "max_context_tokens", Value::Number(Number::from(128000u64)));

    let mut speech_to_text = Mapping::new();
    entry(&mut speech_to_text, "model_id", text("whisper-1"));

    let mut text_to_speech = Mapping::new();
    entry(&mut text_to_speech, "model_id", text("tts-1-hd"));
    entry(&mut text_to_speech, "voice", text("onyx"));

    let mut config = Mapping::new();
    entry(&mut config, "base_url", text("https://api.openai.com/v1"));
    entry(&mut config, "api_key", text("YOUR_API_KEY_HERE"));
    entry(&mut config, "text_generation", Value::Mapping(text_generation));
    entry(&mut config, "speech_to_text", Value::Mapping(speech_to_text));
    entry(&mut config, "text_to_speech", Value::Mapping(text_to_speech));
    Value::Mapping(config)
}

#[test]
fn agent_config_parsing_works() {
    struct TestCase {
        input: String,
        expected: Option<serde_yaml::Value>,
    }

    let sample_config = sample_openai_config();
    let sample_config_pretty_yaml = serde_yaml::to_string(&sample_config).unwrap();

    let test_cases = vec![
        // Invalid input
        TestCase {
            input: r#"Hello"#.to_owned(),
            expected: None,
        },
        // Plain text
        TestCase {
            input: sample_config_pretty_yaml.clone(),
            expected: Some(sample_config.clone()),
        },
        // Generic code block
        TestCase {
            input: format!("```\n{}```", sample_config_pretty_yaml),
            expected: Some(sample_config.clone()),
        },
        // YAML code block (yaml)
        TestCase {
            input: format!("```yaml\n{}```", sample_config_pretty_yaml),
            expected: Some(sample_config.clone()),
        },
        // YAML code block (yml)
        TestCase {
            input: format!("```yml\n{}```", sample_config_pretty_yaml),
            expected: Some(sample_config.clone()),
        },
        // JSON code block
        TestCase {
            input: format!("```json\n{}```", sample_config_pretty_yaml),
            expected: None,
        },
    ];

    for (i, test_case) in test_cases.iter().enumerate() {
        let result = parse_from_message_to_yaml_value(&test_case.input);
        match result {
            Ok(config) => {
                assert_eq!(
                    config,
                    test_case.expected.clone().unwrap(),
                    "Test case {} failed",
                    i
                );
            }
            Err(_) => {
                assert_eq!(test_case.expected, None, "Test case {} failed", i);
            }
        }
    }
}

#[test]
fn agent_config_that_is_not_a_mapping_is_refused() {
    assert_eq!(
        parse_from_message_to_yaml_value("Hello"),
        Err("Not a valid YAML hashmap".to_owned())
    );
    assert_eq!(
        parse_from_message_to_yaml_value("```\n- a\n- b\n```"),
        Err("Not a valid YAML hashmap".to_owned())
    );
}

#[test]
fn agent_config_that_is_not_yaml_reports_the_parser_error() {
    let result = parse_from_message_to_yaml_value("key: [unclosed");
    match result {
        Err(message) => {
            assert!(!message.is_empty());
            assert_ne!(message, "Not a valid YAML hashmap");
        }
        Ok(_) => panic!("invalid YAML was accepted"),
    }
}

#[test]
fn agent_config_in_surrounding_white_space_is_read() {
    let parsed = parse_from_message_to_yaml_value("  \n```yaml\nmodel: x\n```\n  ").unwrap();
    let mut expected = Mapping::new();
    entry(&mut expected, "model", text("x"));
    assert_eq!(parsed, Value::Mapping(expected));
}

fn definition(id: &str) -> AgentDefinition {
    AgentDefinition {
        id: id.to_owned(),
        provider: "openai".to_owned(),
        config: sample_openai_config(),
    }
}

#[test]
fn removing_agent_definitions_keeps_the_others_in_order() {
    let agents = vec![definition("a"), definition("b"), definition("a"), definition("c")];
    let (kept, was_deleted) = remove_agent_definitions(agents, "a");
    assert!(was_deleted);
    let ids: Vec<&str> = kept.iter().map(|a| a.id.as_str()).collect();
    assert_eq!(ids, vec!["b", "c"]);

    let (kept, was_deleted) = remove_agent_definitions(kept, "missing");
    assert!(!was_deleted);
    assert_eq!(kept.len(), 2);
}

#[test]
fn identifiers_round_trip_through_their_text() {
    for text in ["static/one", "global/two", "room-local/three/with/slashes"] {
        let identifier = PublicIdentifier::from_str(text).unwrap();
        assert_eq!(identifier.as_string(), text);
    }
    assert_eq!(
        PublicIdentifier::from_str("room-local/a").unwrap().prefixless(),
        "a"
    );
    assert_eq!(PublicIdentifier::from_str("local/a"), None);
    assert_eq!(PublicIdentifier::from_str("no-slash"), None);
}

#[test]
fn purposes_round_trip_through_their_names() {
    for purpose in AgentPurpose::choices() {
        assert_eq!(AgentPurpose::from_str(purpose.as_str()), Some(purpose));
    }
    assert_eq!(AgentPurpose::choices().len(), 5);
    assert_eq!(AgentPurpose::from_str("Catch-All"), None);
}
