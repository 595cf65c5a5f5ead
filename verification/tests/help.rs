use baibot::controller::access::{patterns_help, PatternsHelp};
use baibot::controller::cfg::help::{
    build_section_speech_to_text, build_section_text_generation, build_section_text_to_speech,
};
use baibot::controller::provider::help_presents_providers;

#[test]
fn text_generation_help() {
    let help = build_section_text_generation("!bai", "baibot");
    assert!(help.starts_with("### Text Generation\n\n"));
    assert!(help.contains(
        "#### Prefix requirement\n\nWhether messages need the command prefix in front of them to be answered.\nThe following values are recognized: `no`, `command_prefix`.\n\nMessages that mention the bot (`@baibot`) are answered in either case.\n- To show it: `!bai config CONFIG_TYPE text-generation prefix-requirement-type`\n"
    ));
    assert!(help.contains("The following values are recognized: `never`, `always`, `only_for_voice`, `only_for_text`."));
    assert!(help.contains("The following values are recognized: `true`, `false`."));
    assert!(help.contains("- To set it: `!bai config CONFIG_TYPE text-generation set-temperature-override VALUE`\n"));
    assert!(help.ends_with("- To unset it: `!bai config CONFIG_TYPE text-generation set-temperature-override`"));
    assert_eq!(help.matches("#### ").count(), 5);
}

#[test]
fn speech_help() {
    let stt = build_section_speech_to_text("!x");
    assert!(stt.starts_with("### Speech-to-Text\n\n"));
    assert!(stt.contains("`ignore`, `transcribe_and_generate_text`, `only_transcribe`"));
    assert!(stt.contains("`text`, `notice`"));
    assert!(stt.contains("#### Language\n\nThe language spoken in voice messages, as a 2-letter code.\n\n- To show it: `!x config CONFIG_TYPE speech-to-text language`\n"));
    let tts = build_section_text_to_speech("!x");
    assert!(tts.contains("`never`, `on_demand_for_voice`, `on_demand_always`, `only_for_voice`, `always`"));
    assert!(tts.contains("`never`, `on_demand`, `always`"));
    assert!(tts.ends_with("- To unset it: `!x config CONFIG_TYPE text-to-speech set-voice-override`\n\n"));
    assert!(stt.ends_with("- To unset it: `!x config CONFIG_TYPE speech-to-text set-language`\n\n"));
}

#[test]
fn help_sections_that_depend_on_the_sender() {
    assert!(!help_presents_providers(false, false));
    assert!(help_presents_providers(true, false));
    assert!(help_presents_providers(false, true));
    assert_eq!(
        patterns_help(&Some(vec![]), false),
        PatternsHelp { patterns: None, lists_commands: false }
    );
    assert_eq!(
        patterns_help(&Some(vec!["@*:x.org".to_owned()]), true),
        PatternsHelp { patterns: Some(vec!["@*:x.org".to_owned()]), lists_commands: true }
    );
    assert_eq!(patterns_help(&None, true), PatternsHelp { patterns: None, lists_commands: true });
}
