//! Reactions: asking for speech by reacting to a message.
use vstd::prelude::*;

use super::chat_completion::{bot_message_speech_for, user_message_speech_for, ResponsePlacement};
use super::determination::MessagePayload;
use crate::roomconfig::{TextToSpeechBotMessagesFlowType, TextToSpeechUserMessagesFlowType};
use crate::text;

verus! {

/// Whether speech may be generated on request for a message: for the bot's
/// own messages unless the bot-message flow is `never`, for anyone else's
/// unless the user-message flow is `never`.
pub open spec fn tts_allowed_for(
    sender_is_bot: bool,
    bot_flow: TextToSpeechBotMessagesFlowType,
    user_flow: TextToSpeechUserMessagesFlowType,
) -> bool {
    if sender_is_bot {
        bot_flow != TextToSpeechBotMessagesFlowType::Never
    } else {
        user_flow != TextToSpeechUserMessagesFlowType::Never
    }
}

/// Speech on request by a reaction is allowed for a message exactly when the
/// room's flow for messages of its sender could give speech at all: for the
/// bot's answers, when some answer (to a text or a voice message) gets speech
/// offered or generated; for users' messages, when their flow is not
/// `never`. Each kind of message is governed by its own flow alone.
pub proof fn lemma_speech_given_is_speech_allowed(
    bot_flow: TextToSpeechBotMessagesFlowType,
    user_flow: TextToSpeechUserMessagesFlowType,
    original_message_is_audio: bool,
)
    ensures
        bot_message_speech_for(bot_flow, original_message_is_audio) is Some ==> tts_allowed_for(
            true,
            bot_flow,
            user_flow,
        ),
        user_message_speech_for(user_flow) is Some ==> tts_allowed_for(false, bot_flow, user_flow),
        tts_allowed_for(true, bot_flow, user_flow) <==> (bot_message_speech_for(bot_flow, false) is Some
            || bot_message_speech_for(bot_flow, true) is Some),
        tts_allowed_for(false, bot_flow, user_flow) <==> user_message_speech_for(user_flow) is Some,
        user_flow == TextToSpeechUserMessagesFlowType::Never ==> !tts_allowed_for(
            false,
            bot_flow,
            user_flow,
        ),
        bot_flow == TextToSpeechBotMessagesFlowType::Never ==> !tts_allowed_for(
            true,
            bot_flow,
            user_flow,
        ),
        forall|other_bot_flow: TextToSpeechBotMessagesFlowType|
            #[trigger] tts_allowed_for(false, other_bot_flow, user_flow) == tts_allowed_for(
                false,
                bot_flow,
                user_flow,
            ),
        forall|other_user_flow: TextToSpeechUserMessagesFlowType|
            #[trigger] tts_allowed_for(true, bot_flow, other_user_flow) == tts_allowed_for(
                true,
                bot_flow,
                user_flow,
            ),
{
}

/// Decides whether speech may be generated on request for a message sent by
/// `sender_id`, the bot being `bot_user_id`.
pub fn is_allowed_to_tts_for_event(
    sender_id: &str,
    bot_user_id: &str,
    bot_messages_flow_type: TextToSpeechBotMessagesFlowType,
    user_messages_flow_type: TextToSpeechUserMessagesFlowType,
) -> (r: bool)
    ensures
        r == tts_allowed_for(sender_id@ == bot_user_id@, bot_messages_flow_type, user_messages_flow_type),
{
    if text::equals(sender_id, bot_user_id) {
        match bot_messages_flow_type {
            TextToSpeechBotMessagesFlowType::Never => false,
            TextToSpeechBotMessagesFlowType::OnDemandAlways => true,
            TextToSpeechBotMessagesFlowType::OnDemandForVoice => true,
            TextToSpeechBotMessagesFlowType::OnlyForVoice => true,
            TextToSpeechBotMessagesFlowType::Always => true,
        }
    } else {
        match user_messages_flow_type {
            TextToSpeechUserMessagesFlowType::Never => false,
            TextToSpeechUserMessagesFlowType::OnDemand => true,
            TextToSpeechUserMessagesFlowType::Always => true,
        }
    }
}

/// Where speech asked for by a reaction is posted: in a thread when the
/// reaction is in one (likely the bot's answer), else as a reply to the
/// message reacted to.
pub fn reaction_response_placement(thread_is_root_only: bool) -> (r: ResponsePlacement)
    ensures
        r == (if thread_is_root_only {
            ResponsePlacement::ReplyToThreadRoot
        } else {
            ResponsePlacement::InThread
        }),
{
    if thread_is_root_only {
        ResponsePlacement::ReplyToThreadRoot
    } else {
        ResponsePlacement::InThread
    }
}

/// The text to speak for a message: without the command prefix and the white
/// space around the rest, when the message begins with the prefix.
pub open spec fn speech_text_for(command_prefix: Seq<char>, t: Seq<char>) -> Seq<char> {
    match text::after_prefix(t, command_prefix) {
        Some(rest) => text::trimmed(rest),
        None => t,
    }
}

/// The text to speak for a message (the command prefix is not spoken).
pub fn speech_text<'a>(command_prefix: &str, text_content: &'a str) -> (r: &'a str)
    ensures
        r@ == speech_text_for(command_prefix@, text_content@),
{
    match text::strip_prefix(text_content, command_prefix) {
        Some(rest) => text::trim(rest),
        None => text_content,
    }
}

/// What a reaction asks for.
#[derive(Debug, PartialEq)]
pub enum ReactionAction {
    /// Speech for the text of the message reacted to.
    TextToSpeech(String),
    /// Nothing: the reaction is not the text-to-speech one, or the message
    /// reacted to is not a text message.
    Ignore,
}

/// The text of the error of [`reaction_action`] for a message that is not a
/// reaction.
pub open spec fn not_a_reaction_text() -> Seq<char> {
    "Reaction controller called with a non-reaction message"@
}

/// What a reaction asks for: speech for the text of the message reacted to,
/// when its key is the text-to-speech emoji and that message is a text
/// message; nothing otherwise. Any other message is an error.
pub fn reaction_action(payload: &MessagePayload, text_to_speech_emoji: &str) -> (r: Result<
    ReactionAction,
    String,
>)
    ensures
        match payload {
            MessagePayload::Reaction { key, reacted_to_text } => if key@ == text_to_speech_emoji@ {
                match reacted_to_text {
                    Some(t) => r matches Ok(ReactionAction::TextToSpeech(x)) && x@ == t@,
                    None => r == Ok::<ReactionAction, String>(ReactionAction::Ignore),
                }
            } else {
                r == Ok::<ReactionAction, String>(ReactionAction::Ignore)
            },
            _ => r matches Err(e) && e@ == not_a_reaction_text(),
        },
{
    match payload {
        MessagePayload::Reaction { key, reacted_to_text } => {
            if text::equals(key.as_str(), text_to_speech_emoji) {
                match reacted_to_text {
                    Some(t) => Ok(ReactionAction::TextToSpeech(t.clone())),
                    None => Ok(ReactionAction::Ignore),
                }
            } else {
                Ok(ReactionAction::Ignore)
            }
        },
        _ => Err("Reaction controller called with a non-reaction message".to_owned()),
    }
}

} // verus!
