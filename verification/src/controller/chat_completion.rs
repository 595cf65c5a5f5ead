//! Chat completion: how a message reached the bot, and the decisions taken
//! while answering it.
use vstd::prelude::*;

use crate::roomconfig::{
    SpeechToTextFlowType, TextToSpeechBotMessagesFlowType, TextToSpeechUserMessagesFlowType,
};

verus! {

/// How a message asks for a chat completion.
#[derive(Debug, Clone, Copy, PartialEq, Eq, Structural)]
pub enum ChatCompletionControllerType {
    /// A text message that begins with the command prefix.
    TextCommand,
    /// A text message in a room that answers every message.
    TextDirect,
    /// A text message that mentions the bot.
    TextMention,
    /// A voice message.
    ViaAudio,
}

/// Where an answer is posted.
#[derive(Debug, Clone, Copy, PartialEq, Eq, Structural)]
pub enum ResponsePlacement {
    /// As a reply to the first event of the thread, outside the thread.
    ReplyToThreadRoot,
    /// Inside the thread.
    InThread,
}

/// What is done with a voice message.
#[derive(Debug, Clone, Copy, PartialEq, Eq, Structural)]
pub enum AudioHandling {
    /// Nothing.
    Ignore,
    /// It is transcribed, the transcription posted where `placement` says,
    /// and text generation follows when `then_generate_text` holds.
    Transcribe { placement: ResponsePlacement, then_generate_text: bool },
}

/// What is done with a voice message, given the room's speech-to-text flow
/// and whether the message is alone in its thread.
pub open spec fn audio_handling_for(flow: SpeechToTextFlowType, thread_is_root_only: bool) -> AudioHandling {
    match flow {
        SpeechToTextFlowType::Ignore => AudioHandling::Ignore,
        SpeechToTextFlowType::TranscribeAndGenerateText => AudioHandling::Transcribe {
            placement: ResponsePlacement::InThread,
            then_generate_text: true,
        },
        SpeechToTextFlowType::OnlyTranscribe => AudioHandling::Transcribe {
            placement: if thread_is_root_only {
                ResponsePlacement::ReplyToThreadRoot
            } else {
                ResponsePlacement::InThread
            },
            then_generate_text: false,
        },
    }
}

/// A voice message is ignored exactly when the room's speech-to-text flow is
/// `ignore`; otherwise it is transcribed, and text generation follows exactly
/// for the flow `transcribe_and_generate_text`. The transcription goes into
/// the thread, except when only transcribing a message that is alone in its
/// thread, where it is a reply to that message.
pub proof fn lemma_voice_message_handling(flow: SpeechToTextFlowType, thread_is_root_only: bool)
    ensures
        (audio_handling_for(flow, thread_is_root_only) == AudioHandling::Ignore) <==> flow
            == SpeechToTextFlowType::Ignore,
        audio_handling_for(flow, thread_is_root_only) matches AudioHandling::Transcribe {
            placement,
            then_generate_text,
        } ==> (then_generate_text == (flow == SpeechToTextFlowType::TranscribeAndGenerateText)
            && (placement == ResponsePlacement::ReplyToThreadRoot) == (flow
            == SpeechToTextFlowType::OnlyTranscribe && thread_is_root_only)),
{
}

/// Decides what is done with a voice message.
pub fn audio_handling(flow: SpeechToTextFlowType, thread_is_root_only: bool) -> (r: AudioHandling)
    ensures
        r == audio_handling_for(flow, thread_is_root_only),
{
    match flow {
        SpeechToTextFlowType::Ignore => AudioHandling::Ignore,
        SpeechToTextFlowType::TranscribeAndGenerateText => AudioHandling::Transcribe {
            placement: ResponsePlacement::InThread,
            then_generate_text: true,
        },
        SpeechToTextFlowType::OnlyTranscribe => AudioHandling::Transcribe {
            placement: if thread_is_root_only {
                ResponsePlacement::ReplyToThreadRoot
            } else {
                ResponsePlacement::InThread
            },
            then_generate_text: false,
        },
    }
}

/// What happens about speech for a message.
#[derive(Debug, Clone, Copy, PartialEq, Eq, Structural)]
pub enum TextToSpeechAction {
    /// Speech is generated right away.
    Perform,
    /// Speech is offered, to be generated when someone asks for it.
    Offer,
}

/// What happens about speech for a generated answer.
pub open spec fn bot_message_speech_for(
    flow: TextToSpeechBotMessagesFlowType,
    original_message_is_audio: bool,
) -> Option<TextToSpeechAction> {
    match flow {
        TextToSpeechBotMessagesFlowType::Never => None,
        TextToSpeechBotMessagesFlowType::OnDemandAlways => Some(TextToSpeechAction::Offer),
        TextToSpeechBotMessagesFlowType::OnDemandForVoice => if original_message_is_audio {
            Some(TextToSpeechAction::Offer)
        } else {
            None
        },
        TextToSpeechBotMessagesFlowType::OnlyForVoice => if original_message_is_audio {
            Some(TextToSpeechAction::Perform)
        } else {
            None
        },
        TextToSpeechBotMessagesFlowType::Always => Some(TextToSpeechAction::Perform),
    }
}

/// Speech for a generated answer is generated right away only where the room
/// asks for it on every answer (`always`), or on answers to voice messages
/// (`only_for_voice`, for a voice message); it is only offered where the room
/// asks for speech on demand (`on_demand_always`, or `on_demand_for_voice` for
/// a voice message); otherwise nothing happens. The flow `never` never gives
/// speech, and an answer to a text message gets speech only from `always`
/// (performed) or `on_demand_always` (offered).
pub proof fn lemma_bot_message_speech_actions(
    flow: TextToSpeechBotMessagesFlowType,
    original_message_is_audio: bool,
)
    ensures
        (bot_message_speech_for(flow, original_message_is_audio) == Some(TextToSpeechAction::Perform))
            <==> (flow == TextToSpeechBotMessagesFlowType::Always || (flow
            == TextToSpeechBotMessagesFlowType::OnlyForVoice && original_message_is_audio)),
        (bot_message_speech_for(flow, original_message_is_audio) == Some(TextToSpeechAction::Offer))
            <==> (flow == TextToSpeechBotMessagesFlowType::OnDemandAlways || (flow
            == TextToSpeechBotMessagesFlowType::OnDemandForVoice && original_message_is_audio)),
        flow == TextToSpeechBotMessagesFlowType::Never ==> bot_message_speech_for(
            flow,
            original_message_is_audio,
        ) is None,
        !original_message_is_audio ==> (bot_message_speech_for(flow, original_message_is_audio)
            is Some <==> (flow == TextToSpeechBotMessagesFlowType::Always || flow
            == TextToSpeechBotMessagesFlowType::OnDemandAlways)),
        bot_message_speech_for(flow, false) is Some ==> bot_message_speech_for(flow, true)
            == bot_message_speech_for(flow, false),
{
}

/// Speech for a user's message that is not answered is generated right away
/// only for the flow `always`, offered only for `on_demand`, and nothing
/// happens for `never`.
pub proof fn lemma_user_message_speech_actions(flow: TextToSpeechUserMessagesFlowType)
    ensures
        (user_message_speech_for(flow) == Some(TextToSpeechAction::Perform)) <==> flow
            == TextToSpeechUserMessagesFlowType::Always,
        (user_message_speech_for(flow) == Some(TextToSpeechAction::Offer)) <==> flow
            == TextToSpeechUserMessagesFlowType::OnDemand,
        (user_message_speech_for(flow) is None) <==> flow == TextToSpeechUserMessagesFlowType::Never,
{
}

/// Decides what happens about speech for a generated answer, given the
/// room's flow for the bot's messages and whether the message answered was a
/// voice message.
pub fn bot_message_speech(
    flow: TextToSpeechBotMessagesFlowType,
    original_message_is_audio: bool,
) -> (r: Option<TextToSpeechAction>)
    ensures
        r == bot_message_speech_for(flow, original_message_is_audio),
{
    match flow {
        TextToSpeechBotMessagesFlowType::Never => None,
        TextToSpeechBotMessagesFlowType::OnDemandAlways => Some(TextToSpeechAction::Offer),
        TextToSpeechBotMessagesFlowType::OnDemandForVoice => {
            if original_message_is_audio {
                Some(TextToSpeechAction::Offer)
            } else {
                None
            }
        },
        TextToSpeechBotMessagesFlowType::OnlyForVoice => {
            if original_message_is_audio {
                Some(TextToSpeechAction::Perform)
            } else {
                None
            }
        },
        TextToSpeechBotMessagesFlowType::Always => Some(TextToSpeechAction::Perform),
    }
}

/// What happens about speech for a user's text message that is not answered.
pub open spec fn user_message_speech_for(flow: TextToSpeechUserMessagesFlowType) -> Option<TextToSpeechAction> {
    match flow {
        TextToSpeechUserMessagesFlowType::Never => None,
        TextToSpeechUserMessagesFlowType::OnDemand => Some(TextToSpeechAction::Offer),
        TextToSpeechUserMessagesFlowType::Always => Some(TextToSpeechAction::Perform),
    }
}

/// Decides what happens about speech for a user's text message that is not
/// answered, given the room's flow for users' messages.
pub fn user_message_speech(flow: TextToSpeechUserMessagesFlowType) -> (r: Option<TextToSpeechAction>)
    ensures
        r == user_message_speech_for(flow),
{
    match flow {
        TextToSpeechUserMessagesFlowType::Never => None,
        TextToSpeechUserMessagesFlowType::OnDemand => Some(TextToSpeechAction::Offer),
        TextToSpeechUserMessagesFlowType::Always => Some(TextToSpeechAction::Perform),
    }
}

/// The answer to post for a generated text: the text without white space at
/// its ends; none when nothing is left, which is reported as an empty
/// response instead.
pub fn answer_text(generated: &str) -> (r: Option<&str>)
    ensures
        match r {
            Some(t) => t@ == crate::text::trimmed(generated@) && t@.len() > 0,
            None => crate::text::trimmed(generated@).len() == 0,
        },
{
    let text = crate::text::trim(generated);
    if text.is_empty() {
        None
    } else {
        Some(text)
    }
}

/// The media type under which a voice message is transcribed: the one that
/// the message declares, else `audio/ogg`.
pub fn audio_mime_type(declared: Option<String>) -> (r: String)
    ensures
        r@ == match declared {
            Some(m) => m@,
            None => "audio/ogg"@,
        },
{
    match declared {
        Some(m) => m,
        None => "audio/ogg".to_owned(),
    }
}

} // verus!
