//! Deciding which controller handles a message, and the decisions that the
//! controllers take.
pub mod access;
pub mod agent;
pub mod cfg;
pub mod chat_completion;
pub mod determination;
pub mod image;
pub mod message_aggregator;
pub mod provider;
pub mod reaction;
pub mod usage;
pub mod utils;

use vstd::prelude::*;

use self::access::AccessControllerType;
use self::agent::AgentControllerType;
use self::cfg::ConfigControllerType;
use self::chat_completion::ChatCompletionControllerType;

verus! {

/// The thread that a message belongs to: the event that started it and the
/// last event in it.
#[derive(Debug, Clone, PartialEq, Eq)]
pub struct ThreadInfo {
    /// The first event of the thread.
    pub root_event_id: String,
    /// The latest event of the thread.
    pub last_event_id: String,
}

impl ThreadInfo {
    /// Whether the thread consists of its first event only.
    pub fn is_thread_root_only(&self) -> (r: bool)
        ensures
            r == (self.root_event_id@ == self.last_event_id@),
    {
        self.root_event_id == self.last_event_id
    }
}

/// The controller that handles a message.
#[derive(Debug, PartialEq)]
pub enum ControllerType {
    /// Access control commands.
    Access(AccessControllerType),
    /// Agent management commands.
    Agent(AgentControllerType),
    /// Configuration commands.
    Config(ConfigControllerType),
    /// The general help.
    Help,
    /// A command that is not known.
    Unknown,
    /// Help about providers.
    ProviderHelp,
    /// Help about usage.
    UsageHelp,
    /// A chat completion.
    ChatCompletion(ChatCompletionControllerType),
    /// An error to report, as a reply.
    Error(String),
    /// An error to report inside the given thread.
    ErrorInThread(String, ThreadInfo),
    /// Nothing to do.
    Ignore,
    /// Generate an image for the prompt.
    ImageGeneration(String),
    /// Edit an image following the prompt.
    ImageEdit(String),
    /// Generate a sticker for the prompt.
    StickerGeneration(String),
}

/// Whether `r` reports the error with the given text.
pub open spec fn is_error(r: ControllerType, message: Seq<char>) -> bool {
    r matches ControllerType::Error(m) && m@ == message
}

} // verus!
