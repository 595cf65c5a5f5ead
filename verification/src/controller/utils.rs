//! Checks that command handlers share: that a message holds text, and what
//! to tell the user when no agent can serve a purpose.
use vstd::prelude::*;

use super::chat_completion::ResponsePlacement;
use super::determination::MessagePayload;
use super::ControllerType;
use crate::strings;
use crate::agent::{AgentPurpose, PublicIdentifier};

verus! {

/// The text of the complaint of [`get_text_body_or_complain`].
pub open spec fn only_text_messages_text() -> Seq<char> {
    "This command only works with text messages."@
}

/// The body of a text message, or, for any other message, the complaint
/// to send back.
pub fn get_text_body_or_complain(payload: &MessagePayload) -> (r: Result<&str, String>)
    ensures
        match payload {
            MessagePayload::Text(body) => r matches Ok(t) && t@ == body@,
            _ => r matches Err(e) && e@ == only_text_messages_text(),
        },
{
    match payload {
        MessagePayload::Text(body) => Ok(body.as_str()),
        _ => Err("This command only works with text messages.".to_owned()),
    }
}

/// Why no agent serves a purpose in a room.
#[derive(Debug, PartialEq)]
pub enum AgentForPurposeDeterminationError {
    /// Looking the agent up failed, for this reason.
    Unknown(String),
    /// No agent is configured for the purpose, nor a catch-all one.
    NoneConfigured,
    /// The configured agent does not exist.
    ConfiguredButMissing(PublicIdentifier),
    /// The configured agent exists but cannot serve the purpose.
    ConfiguredButLacksSupport(PublicIdentifier),
}

/// What the user is told when no agent serves a purpose.
#[derive(Debug, PartialEq)]
pub enum AgentComplaint {
    /// The reason why looking the agent up failed.
    Unknown(String),
    /// The room configures an agent for the purpose that does not exist.
    ConfiguredButMissing(PublicIdentifier, AgentPurpose),
    /// The room configures an agent for the purpose that cannot serve it.
    ConfiguredButLacksSupport(PublicIdentifier, AgentPurpose),
}

/// The complaint, if any, for a failure to find an agent for `purpose`: none
/// when nothing is configured, and none for an agent that lacks support
/// unless `complain_when_purpose_unsupported` asks for it.
pub open spec fn agent_complaint(
    err: AgentForPurposeDeterminationError,
    purpose: AgentPurpose,
    complain_when_purpose_unsupported: bool,
) -> Option<AgentComplaint> {
    match err {
        AgentForPurposeDeterminationError::Unknown(m) => Some(AgentComplaint::Unknown(m)),
        AgentForPurposeDeterminationError::NoneConfigured => None,
        AgentForPurposeDeterminationError::ConfiguredButMissing(id) => Some(
            AgentComplaint::ConfiguredButMissing(id, purpose),
        ),
        AgentForPurposeDeterminationError::ConfiguredButLacksSupport(id) => {
            if complain_when_purpose_unsupported {
                Some(AgentComplaint::ConfiguredButLacksSupport(id, purpose))
            } else {
                None
            }
        },
    }
}

/// Decides what to tell the user when no agent serves `purpose`.
pub fn complaint_for_agent_error(
    err: AgentForPurposeDeterminationError,
    purpose: AgentPurpose,
    complain_when_purpose_unsupported: bool,
) -> (r: Option<AgentComplaint>)
    ensures
        r == agent_complaint(err, purpose, complain_when_purpose_unsupported),
{
    match err {
        AgentForPurposeDeterminationError::Unknown(m) => Some(AgentComplaint::Unknown(m)),
        AgentForPurposeDeterminationError::NoneConfigured => None,
        AgentForPurposeDeterminationError::ConfiguredButMissing(id) => Some(
            AgentComplaint::ConfiguredButMissing(id, purpose),
        ),
        AgentForPurposeDeterminationError::ConfiguredButLacksSupport(id) => {
            if complain_when_purpose_unsupported {
                Some(AgentComplaint::ConfiguredButLacksSupport(id, purpose))
            } else {
                None
            }
        },
    }
}

/// The error that a controller reports, and where: an unknown command gets
/// the hint to see the help, and an error its own text, both as a reply to
/// the thread's first event; an error in a thread goes into that thread.
/// Any other controller reports no error.
pub open spec fn error_reply_for(controller: ControllerType, command_prefix: Seq<char>) -> Option<
    (Seq<char>, ResponsePlacement),
> {
    match controller {
        ControllerType::Unknown => Some(
            (
                strings::error::unknown_command_see_help_text(command_prefix),
                ResponsePlacement::ReplyToThreadRoot,
            ),
        ),
        ControllerType::Error(m) => Some((m@, ResponsePlacement::ReplyToThreadRoot)),
        ControllerType::ErrorInThread(m, _) => Some((m@, ResponsePlacement::InThread)),
        _ => None,
    }
}

/// The error that a controller reports, and where.
pub fn error_reply(controller: &ControllerType, command_prefix: &str) -> (r: Option<
    (String, ResponsePlacement),
>)
    ensures
        match r {
            Some((m, p)) => error_reply_for(*controller, command_prefix@) == Some((m@, p)),
            None => error_reply_for(*controller, command_prefix@) is None,
        },
{
    match controller {
        ControllerType::Unknown => Some(
            (strings::error::unknown_command_see_help(command_prefix), ResponsePlacement::ReplyToThreadRoot),
        ),
        ControllerType::Error(m) => Some((m.clone(), ResponsePlacement::ReplyToThreadRoot)),
        ControllerType::ErrorInThread(m, _) => Some((m.clone(), ResponsePlacement::InThread)),
        _ => None,
    }
}

} // verus!
