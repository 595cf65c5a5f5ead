//! The help about configuration settings: for each area, its settings, the
//! values they take and the commands that show, set and unset them.
use vstd::prelude::*;

use crate::roomconfig::{
    SpeechToTextFlowType, SpeechToTextMessageTypeForNonThreadedOnlyTranscribedMessages,
    TextGenerationAutoUsage, TextGenerationPrefixRequirementType, TextToSpeechBotMessagesFlowType,
    TextToSpeechUserMessagesFlowType,
};
use crate::text;

verus! {

/// The line that lists the values a setting takes.
pub open spec fn values_line(names: Seq<Seq<char>>) -> Seq<char> {
    "The following values are recognized: `"@ + text::join(names, "`, `"@) + "`."@
}

/// The three command lines of a setting: to show it, to set it, to unset it.
/// `CONFIG_TYPE` stands for `room` or `global`, for the room's settings or
/// the global ones.
pub open spec fn command_lines(command_prefix: Seq<char>, getter: Seq<char>, setter: Seq<char>) -> Seq<char> {
    "- To show it: `"@ + command_prefix + " config CONFIG_TYPE "@ + getter + "`\n"@ + "- To set it: `"@
        + command_prefix + " config CONFIG_TYPE "@ + setter + " VALUE`\n"@ + "- To unset it: `"@
        + command_prefix + " config CONFIG_TYPE "@ + setter + "`"@
}

/// The help about one setting: its heading, what it does, the values it
/// takes (when they are fixed), a remark (for some settings), and its
/// commands.
pub open spec fn setting_help(
    heading: Seq<char>,
    intro: Seq<char>,
    values: Option<Seq<Seq<char>>>,
    outro: Option<Seq<char>>,
    command_prefix: Seq<char>,
    getter: Seq<char>,
    setter: Seq<char>,
) -> Seq<char> {
    "#### "@ + heading + "\n\n"@ + intro + match values {
        Some(vs) => "\n"@ + values_line(vs),
        None => Seq::empty(),
    } + "\n\n"@ + match outro {
        Some(o) => o + "\n"@,
        None => Seq::empty(),
    } + command_lines(command_prefix, getter, setter)
}

/// The names of the two boolean values.
pub open spec fn bool_names() -> Seq<Seq<char>> {
    seq!["true"@, "false"@]
}

fn values_text(names: &Vec<String>) -> (r: String)
    ensures
        r@ == values_line(text::views(names@)),
{
    let mut r = "The following values are recognized: `".to_owned();
    let joined = text::join_strings(names, "`, `");
    r.append(joined.as_str());
    r.append("`.");
    r
}

fn command_lines_text(command_prefix: &str, getter: &str, setter: &str) -> (r: String)
    ensures
        r@ == command_lines(command_prefix@, getter@, setter@),
{
    let mut r = "- To show it: `".to_owned();
    r.append(command_prefix);
    r.append(" config CONFIG_TYPE ");
    r.append(getter);
    r.append("`\n");
    r.append("- To set it: `");
    r.append(command_prefix);
    r.append(" config CONFIG_TYPE ");
    r.append(setter);
    r.append(" VALUE`\n");
    r.append("- To unset it: `");
    r.append(command_prefix);
    r.append(" config CONFIG_TYPE ");
    r.append(setter);
    r.append("`");
    r
}

fn setting_help_text(
    heading: &str,
    intro: &str,
    values: Option<Vec<String>>,
    outro: Option<String>,
    command_prefix: &str,
    getter: &str,
    setter: &str,
) -> (r: String)
    ensures
        r@ == setting_help(
            heading@,
            intro@,
            match values {
                Some(vs) => Some(text::views(vs@)),
                None => None,
            },
            text::opt_view(outro),
            command_prefix@,
            getter@,
            setter@,
        ),
{
    let mut r = "#### ".to_owned();
    r.append(heading);
    r.append("\n\n");
    r.append(intro);
    let vpart = match &values {
        Some(vs) => {
            let mut v = "\n".to_owned();
            let line = values_text(vs);
            v.append(line.as_str());
            v
        },
        None => String::new(),
    };
    r.append(vpart.as_str());
    r.append("\n\n");
    let opart = match &outro {
        Some(o) => {
            let mut v = o.clone();
            v.append("\n");
            v
        },
        None => String::new(),
    };
    r.append(opart.as_str());
    let lines = command_lines_text(command_prefix, getter, setter);
    r.append(lines.as_str());
    r
}

/// The help about the text-generation settings.
pub open spec fn section_text_generation_text(command_prefix: Seq<char>, bot_username: Seq<char>) -> Seq<char> {
    "### "@ + "Text Generation"@ + "\n\n"@ + "These settings affect how the bot answers with generated text. In the commands below, replace `CONFIG_TYPE` with `room` to change the room's settings or, as an administrator, with `global` to change the settings of every room that does not set its own."@ + "\n\n"@
        + setting_help(
            "Prefix requirement"@,
            "Whether messages need the command prefix in front of them to be answered."@,
            Some(TextGenerationPrefixRequirementType::all().map_values(|x: TextGenerationPrefixRequirementType| x.text())),
            Some(prefix_requirement_outro(bot_username)),
            command_prefix,
            "text-generation prefix-requirement-type"@,
            "text-generation set-prefix-requirement-type"@,
        ) + "\n\n"@
        + setting_help(
            "Automatic usage"@,
            "When text generation runs without being asked for explicitly."@,
            Some(TextGenerationAutoUsage::all().map_values(|x: TextGenerationAutoUsage| x.text())),
            None,
            command_prefix,
            "text-generation auto-usage"@,
            "text-generation set-auto-usage"@,
        ) + "\n\n"@
        + setting_help(
            "Context management"@,
            "Whether long conversations are shortened to fit what the model can take."@,
            Some(bool_names()),
            None,
            command_prefix,
            "text-generation context-management-enabled"@,
            "text-generation set-context-management-enabled"@,
        ) + "\n\n"@
        + setting_help(
            "Prompt override"@,
            "A prompt that replaces the one of the agent."@,
            None,
            None,
            command_prefix,
            "text-generation prompt-override"@,
            "text-generation set-prompt-override"@,
        ) + "\n\n"@
        + setting_help(
            "Temperature override"@,
            "A temperature (a floating-point number) that replaces the one of the agent."@,
            None,
            None,
            command_prefix,
            "text-generation temperature-override"@,
            "text-generation set-temperature-override"@,
        )
}


/// The remark on the prefix requirement: a mention of the bot is answered
/// whatever it says.
pub open spec fn prefix_requirement_outro(bot_username: Seq<char>) -> Seq<char> {
    "Messages that mention the bot (`@"@ + bot_username + "`) are answered in either case."@
}

/// Builds the help about the text-generation settings.
pub fn build_section_text_generation(command_prefix: &str, bot_username: &str) -> (r: String)
    ensures
        r@ == section_text_generation_text(command_prefix@, bot_username@),
{
    let mut r = "### ".to_owned();
    r.append("Text Generation");
    r.append("\n\n");
    r.append("These settings affect how the bot answers with generated text. In the commands below, replace `CONFIG_TYPE` with `room` to change the room's settings or, as an administrator, with `global` to change the settings of every room that does not set its own.");
    r.append("\n\n");
    let part = setting_help_text(
        "Prefix requirement",
        "Whether messages need the command prefix in front of them to be answered.",
        Some(TextGenerationPrefixRequirementType::names()),
        Some({
            let mut o = "Messages that mention the bot (`@".to_owned();
            o.append(bot_username);
            o.append("`) are answered in either case.");
            o
        }),
        command_prefix,
        "text-generation prefix-requirement-type",
        "text-generation set-prefix-requirement-type",
    );
    r.append(part.as_str());
    r.append("\n\n");
    let part = setting_help_text(
        "Automatic usage",
        "When text generation runs without being asked for explicitly.",
        Some(TextGenerationAutoUsage::names()),
        None,
        command_prefix,
        "text-generation auto-usage",
        "text-generation set-auto-usage",
    );
    r.append(part.as_str());
    r.append("\n\n");
    let part = setting_help_text(
        "Context management",
        "Whether long conversations are shortened to fit what the model can take.",
        Some({
            let v = vec!["true".to_owned(), "false".to_owned()];
            assert(text::views(v@) =~= bool_names());
            v
        }),
        None,
        command_prefix,
        "text-generation context-management-enabled",
        "text-generation set-context-management-enabled",
    );
    r.append(part.as_str());
    r.append("\n\n");
    let part = setting_help_text(
        "Prompt override",
        "A prompt that replaces the one of the agent.",
        None,
        None,
        command_prefix,
        "text-generation prompt-override",
        "text-generation set-prompt-override",
    );
    r.append(part.as_str());
    r.append("\n\n");
    let part = setting_help_text(
        "Temperature override",
        "A temperature (a floating-point number) that replaces the one of the agent.",
        None,
        None,
        command_prefix,
        "text-generation temperature-override",
        "text-generation set-temperature-override",
    );
    r.append(part.as_str());
    r
}


/// The help about the speech-to-text settings.
pub open spec fn section_speech_to_text_text(command_prefix: Seq<char>) -> Seq<char> {
    "### "@ + "Speech-to-Text"@ + "\n\n"@ + "These settings affect how voice messages are turned into text. In the commands below, replace `CONFIG_TYPE` with `room` to change the room's settings or, as an administrator, with `global` to change the settings of every room that does not set its own."@ + "\n\n"@
        + setting_help(
            "Flow type"@,
            "What happens to voice messages."@,
            Some(SpeechToTextFlowType::all().map_values(|x: SpeechToTextFlowType| x.text())),
            None,
            command_prefix,
            "speech-to-text flow-type"@,
            "speech-to-text set-flow-type"@,
        ) + "\n\n"@
        + setting_help(
            "Message type of transcriptions outside threads"@,
            "The kind of message that a transcription is posted as when no text generation follows it outside a thread."@,
            Some(SpeechToTextMessageTypeForNonThreadedOnlyTranscribedMessages::all().map_values(|x: SpeechToTextMessageTypeForNonThreadedOnlyTranscribedMessages| x.text())),
            None,
            command_prefix,
            "speech-to-text msg-type-for-non-threaded-only-transcribed-messages"@,
            "speech-to-text set-msg-type-for-non-threaded-only-transcribed-messages"@,
        ) + "\n\n"@
        + setting_help(
            "Language"@,
            "The language spoken in voice messages, as a 2-letter code."@,
            None,
            None,
            command_prefix,
            "speech-to-text language"@,
            "speech-to-text set-language"@,
        ) + "\n\n"@
}

/// Builds the help about the speech-to-text settings.
pub fn build_section_speech_to_text(command_prefix: &str) -> (r: String)
    ensures
        r@ == section_speech_to_text_text(command_prefix@),
{
    let mut r = "### ".to_owned();
    r.append("Speech-to-Text");
    r.append("\n\n");
    r.append("These settings affect how voice messages are turned into text. In the commands below, replace `CONFIG_TYPE` with `room` to change the room's settings or, as an administrator, with `global` to change the settings of every room that does not set its own.");
    r.append("\n\n");
    let part = setting_help_text(
        "Flow type",
        "What happens to voice messages.",
        Some(SpeechToTextFlowType::names()),
        None,
        command_prefix,
        "speech-to-text flow-type",
        "speech-to-text set-flow-type",
    );
    r.append(part.as_str());
    r.append("\n\n");
    let part = setting_help_text(
        "Message type of transcriptions outside threads",
        "The kind of message that a transcription is posted as when no text generation follows it outside a thread.",
        Some(SpeechToTextMessageTypeForNonThreadedOnlyTranscribedMessages::names()),
        None,
        command_prefix,
        "speech-to-text msg-type-for-non-threaded-only-transcribed-messages",
        "speech-to-text set-msg-type-for-non-threaded-only-transcribed-messages",
    );
    r.append(part.as_str());
    r.append("\n\n");
    let part = setting_help_text(
        "Language",
        "The language spoken in voice messages, as a 2-letter code.",
        None,
        None,
        command_prefix,
        "speech-to-text language",
        "speech-to-text set-language",
    );
    r.append(part.as_str());
    r.append("\n\n");
    r
}


/// The help about the text-to-speech settings.
pub open spec fn section_text_to_speech_text(command_prefix: Seq<char>) -> Seq<char> {
    "### "@ + "Text-to-Speech"@ + "\n\n"@ + "These settings affect how text is turned into voice. In the commands below, replace `CONFIG_TYPE` with `room` to change the room's settings or, as an administrator, with `global` to change the settings of every room that does not set its own."@ + "\n\n"@
        + setting_help(
            "Flow type for the bot's messages"@,
            "When the bot's messages are turned into voice."@,
            Some(TextToSpeechBotMessagesFlowType::all().map_values(|x: TextToSpeechBotMessagesFlowType| x.text())),
            None,
            command_prefix,
            "text-to-speech bot-msgs-flow-type"@,
            "text-to-speech set-bot-msgs-flow-type"@,
        ) + "\n\n"@
        + setting_help(
            "Flow type for users' messages"@,
            "When users' messages are turned into voice."@,
            Some(TextToSpeechUserMessagesFlowType::all().map_values(|x: TextToSpeechUserMessagesFlowType| x.text())),
            None,
            command_prefix,
            "text-to-speech user-msgs-flow-type"@,
            "text-to-speech set-user-msgs-flow-type"@,
        ) + "\n\n"@
        + setting_help(
            "Speed override"@,
            "A speed (a floating-point number) that replaces the one of the agent."@,
            None,
            None,
            command_prefix,
            "text-to-speech speed-override"@,
            "text-to-speech set-speed-override"@,
        ) + "\n\n"@
        + setting_help(
            "Voice override"@,
            "A voice that replaces the one of the agent."@,
            None,
            None,
            command_prefix,
            "text-to-speech voice-override"@,
            "text-to-speech set-voice-override"@,
        ) + "\n\n"@
}

/// Builds the help about the text-to-speech settings.
pub fn build_section_text_to_speech(command_prefix: &str) -> (r: String)
    ensures
        r@ == section_text_to_speech_text(command_prefix@),
{
    let mut r = "### ".to_owned();
    r.append("Text-to-Speech");
    r.append("\n\n");
    r.append("These settings affect how text is turned into voice. In the commands below, replace `CONFIG_TYPE` with `room` to change the room's settings or, as an administrator, with `global` to change the settings of every room that does not set its own.");
    r.append("\n\n");
    let part = setting_help_text(
        "Flow type for the bot's messages",
        "When the bot's messages are turned into voice.",
        Some(TextToSpeechBotMessagesFlowType::names()),
        None,
        command_prefix,
        "text-to-speech bot-msgs-flow-type",
        "text-to-speech set-bot-msgs-flow-type",
    );
    r.append(part.as_str());
    r.append("\n\n");
    let part = setting_help_text(
        "Flow type for users' messages",
        "When users' messages are turned into voice.",
        Some(TextToSpeechUserMessagesFlowType::names()),
        None,
        command_prefix,
        "text-to-speech user-msgs-flow-type",
        "text-to-speech set-user-msgs-flow-type",
    );
    r.append(part.as_str());
    r.append("\n\n");
    let part = setting_help_text(
        "Speed override",
        "A speed (a floating-point number) that replaces the one of the agent.",
        None,
        None,
        command_prefix,
        "text-to-speech speed-override",
        "text-to-speech set-speed-override",
    );
    r.append(part.as_str());
    r.append("\n\n");
    let part = setting_help_text(
        "Voice override",
        "A voice that replaces the one of the agent.",
        None,
        None,
        command_prefix,
        "text-to-speech voice-override",
        "text-to-speech set-voice-override",
    );
    r.append(part.as_str());
    r.append("\n\n");
    r
}

} // verus!
