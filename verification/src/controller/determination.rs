//! Choosing the controller for the first message of a thread.
use vstd::prelude::*;

use super::access::access_command;
use super::agent::agent_command;
use super::cfg::config_command;
use super::chat_completion::ChatCompletionControllerType;
use super::image::image_command;
use super::{is_error, ControllerType, ThreadInfo};
use crate::roomconfig::TextGenerationPrefixRequirementType;
use crate::strings;
use crate::text;

verus! {

/// What the first message of a thread holds, as far as choosing a controller
/// goes.
#[derive(Debug, PartialEq)]
pub enum MessagePayload {
    /// A text message with this body.
    Text(String),
    /// A message that could not be decrypted, in this thread.
    Encrypted(ThreadInfo),
    /// A voice message.
    Audio,
    /// A reaction to another message.
    Reaction {
        /// The reaction's key (an emoji).
        key: String,
        /// The text of the message reacted to, when that is a text message.
        reacted_to_text: Option<String>,
    },
}

/// The text after the command word `word` (which follows the command prefix
/// and a space), if the text is such a command.
pub open spec fn after_command(command_prefix: Seq<char>, word: Seq<char>, t: Seq<char>) -> Option<Seq<char>> {
    text::after_prefix(t, command_prefix + " "@ + word)
}

/// The controller for a text message.
pub open spec fn text_command(
    command_prefix: Seq<char>,
    t0: Seq<char>,
    prefix_requirement_type: TextGenerationPrefixRequirementType,
    is_mentioning_bot: bool,
    r: ControllerType,
) -> bool {
    let t = text::trimmed(t0);
    if after_command(command_prefix, "help"@, t) is Some || t == command_prefix {
        r == ControllerType::Help
    } else if after_command(command_prefix, "access"@, t) is Some {
        access_command(text::trimmed(after_command(command_prefix, "access"@, t)->0), r)
    } else if after_command(command_prefix, "provider"@, t) is Some {
        r == ControllerType::ProviderHelp
    } else if after_command(command_prefix, "agent"@, t) is Some {
        agent_command(command_prefix, text::trimmed(after_command(command_prefix, "agent"@, t)->0), r)
    } else if after_command(command_prefix, "config"@, t) is Some {
        config_command(text::trimmed(after_command(command_prefix, "config"@, t)->0), r)
    } else if after_command(command_prefix, "image"@, t) is Some {
        image_command(text::trimmed(after_command(command_prefix, "image"@, t)->0), r)
    } else if after_command(command_prefix, "sticker"@, t) is Some {
        r matches ControllerType::StickerGeneration(p)
            && p@ == text::trimmed(after_command(command_prefix, "sticker"@, t)->0)
    } else if after_command(command_prefix, "usage"@, t) is Some {
        r == ControllerType::UsageHelp
    } else if is_mentioning_bot {
        r == ControllerType::ChatCompletion(ChatCompletionControllerType::TextMention)
    } else if command_prefix.is_prefix_of(t) {
        r == ControllerType::ChatCompletion(ChatCompletionControllerType::TextCommand)
    } else {
        match prefix_requirement_type {
            TextGenerationPrefixRequirementType::CommandPrefix => r == ControllerType::Ignore,
            TextGenerationPrefixRequirementType::No => r == ControllerType::ChatCompletion(
                ChatCompletionControllerType::TextDirect,
            ),
        }
    }
}

fn command_text(command_prefix: &str, word: &str) -> (r: String)
    ensures
        r@ == command_prefix@ + " "@ + word@,
{
    let with_space = text::concat(command_prefix, " ");
    text::concat(with_space.as_str(), word)
}

/// Chooses the controller for a text message: commands first, then chat
/// completion for mentions and prefixed messages, and otherwise what the
/// room's prefix requirement says.
pub fn determine_text_controller(
    command_prefix: &str,
    text: &str,
    room_text_generation_prefix_requirement_type: TextGenerationPrefixRequirementType,
    is_mentioning_bot: bool,
) -> (r: ControllerType)
    ensures
        text_command(
            command_prefix@,
            text@,
            room_text_generation_prefix_requirement_type,
            is_mentioning_bot,
            r,
        ),
{
    let text = text::trim(text);
    if text::starts_with(text, command_text(command_prefix, "help").as_str()) || text::equals(
        text,
        command_prefix,
    ) {
        return ControllerType::Help;
    }
    if let Some(remaining) = text::strip_prefix(text, command_text(command_prefix, "access").as_str()) {
        return super::access::determine_controller(text::trim(remaining));
    }
    if let Some(remaining) = text::strip_prefix(text, command_text(command_prefix, "provider").as_str()) {
        return super::provider::determine_controller(text::trim(remaining));
    }
    if let Some(remaining) = text::strip_prefix(text, command_text(command_prefix, "agent").as_str()) {
        return super::agent::determine_controller(command_prefix, text::trim(remaining));
    }
    if let Some(remaining) = text::strip_prefix(text, command_text(command_prefix, "config").as_str()) {
        return super::cfg::determine_controller(text::trim(remaining));
    }
    if let Some(remaining) = text::strip_prefix(text, command_text(command_prefix, "image").as_str()) {
        return super::image::determine_controller(text::trim(remaining));
    }
    if let Some(prompt) = text::strip_prefix(text, command_text(command_prefix, "sticker").as_str()) {
        return ControllerType::StickerGeneration(text::trim(prompt).to_owned());
    }
    if let Some(remaining) = text::strip_prefix(text, command_text(command_prefix, "usage").as_str()) {
        return super::usage::determine_controller(text::trim(remaining));
    }
    if is_mentioning_bot {
        return ControllerType::ChatCompletion(ChatCompletionControllerType::TextMention);
    }
    if text::starts_with(text, command_prefix) {
        return ControllerType::ChatCompletion(ChatCompletionControllerType::TextCommand);
    }
    match room_text_generation_prefix_requirement_type {
        TextGenerationPrefixRequirementType::CommandPrefix => ControllerType::Ignore,
        TextGenerationPrefixRequirementType::No => ControllerType::ChatCompletion(
            ChatCompletionControllerType::TextDirect,
        ),
    }
}

/// The controller for the first message of a thread.
pub open spec fn first_message_command(
    command_prefix: Seq<char>,
    payload: MessagePayload,
    is_mentioning_bot: bool,
    prefix_requirement_type: TextGenerationPrefixRequirementType,
    r: ControllerType,
) -> bool {
    match payload {
        MessagePayload::Text(body) => text_command(
            command_prefix,
            body@,
            prefix_requirement_type,
            is_mentioning_bot,
            r,
        ),
        MessagePayload::Encrypted(thread) => if thread.root_event_id@ == thread.last_event_id@ {
            is_error(r, strings::error::message_is_encrypted_text())
        } else {
            r matches ControllerType::ErrorInThread(m, th) && m@
                == strings::error::first_message_in_thread_is_encrypted_text()
                && th.root_event_id@ == thread.root_event_id@ && th.last_event_id@
                == thread.last_event_id@
        },
        MessagePayload::Audio => r == ControllerType::ChatCompletion(
            ChatCompletionControllerType::ViaAudio,
        ),
        MessagePayload::Reaction { .. } => false,
    }
}

/// Chooses the controller for the first message of a thread. A reaction
/// cannot start a thread, so it is not accepted here.
pub fn determine_controller(
    command_prefix: &str,
    first_thread_message: &MessagePayload,
    is_mentioning_bot: bool,
    room_text_generation_prefix_requirement_type: TextGenerationPrefixRequirementType,
) -> (r: ControllerType)
    requires
        !(first_thread_message is Reaction),
    ensures
        first_message_command(
            command_prefix@,
            *first_thread_message,
            is_mentioning_bot,
            room_text_generation_prefix_requirement_type,
            r,
        ),
{
    match first_thread_message {
        MessagePayload::Text(body) => determine_text_controller(
            command_prefix,
            body.as_str(),
            room_text_generation_prefix_requirement_type,
            is_mentioning_bot,
        ),
        MessagePayload::Encrypted(thread_info) => {
            if thread_info.is_thread_root_only() {
                ControllerType::Error(strings::error::message_is_encrypted())
            } else {
                ControllerType::ErrorInThread(
                    strings::error::first_message_in_thread_is_encrypted(),
                    ThreadInfo {
                        root_event_id: thread_info.root_event_id.clone(),
                        last_event_id: thread_info.last_event_id.clone(),
                    },
                )
            }
        },
        MessagePayload::Audio => ControllerType::ChatCompletion(ChatCompletionControllerType::ViaAudio),
        MessagePayload::Reaction { .. } => ControllerType::Ignore,
    }
}

} // verus!
