//! Commands that list, show, create and delete agents (`agent ...`).
use vstd::prelude::*;

use super::{is_error, ControllerType};
use crate::agent::{
    contains_agent, has_agent, has_definition, kept_agents, remove_agent_definitions,
    AgentDefinition, IdentifierView, PublicIdentifier,
};
use crate::strings;
use crate::text;
use crate::yaml::{self, ParsedYaml, YamlShape};

verus! {

/// What an agent command asks for.
#[derive(Debug, PartialEq)]
pub enum AgentControllerType {
    /// List the agents available in the room.
    List,
    /// Show an agent's configuration.
    Details(PublicIdentifier),
    /// Create an agent stored in the room.
    CreateRoomLocal { provider: String, agent_id: String },
    /// Create an agent stored in the global configuration.
    CreateGlobal { provider: String, agent_id: String },
    /// Delete an agent.
    Delete(PublicIdentifier),
    /// Explain agent management.
    Help,
}

/// The controller for a command that takes exactly one agent identifier
/// (`arg` is the text after the command word); `is_delete` tells which of the two
/// such commands it is.
pub open spec fn identifier_command(
    command_prefix: Seq<char>,
    arg: Seq<char>,
    is_delete: bool,
    r: ControllerType,
) -> bool {
    let a = text::trimmed(arg);
    if a.len() == 0 || a.contains(' ') {
        is_error(r, strings::agent::incorrect_invocation_expects_agent_id_arg_text(command_prefix))
    } else {
        match IdentifierView::parse(a) {
            None => is_error(r, strings::agent::invalid_id_generic_text()),
            Some(v) => if is_delete {
                r matches ControllerType::Agent(AgentControllerType::Delete(id)) && id@ == v
            } else {
                r matches ControllerType::Agent(AgentControllerType::Details(id)) && id@ == v
            },
        }
    }
}

/// The controller for an agent-creation command (`arg` is the text after the
/// command word: a provider, one space, an agent id).
pub open spec fn creation_command(
    command_prefix: Seq<char>,
    arg: Seq<char>,
    is_global: bool,
    r: ControllerType,
) -> bool {
    match text::split_at_first(text::trimmed(arg), ' ') {
        None => is_error(r, strings::agent::incorrect_creation_invocation_text(command_prefix)),
        Some((p, a)) => if a.contains(' ') {
            is_error(r, strings::agent::incorrect_creation_invocation_text(command_prefix))
        } else if is_global {
            r matches ControllerType::Agent(AgentControllerType::CreateGlobal { provider, agent_id })
                && provider@ == p && agent_id@ == text::trimmed(a)
        } else {
            r matches ControllerType::Agent(AgentControllerType::CreateRoomLocal { provider, agent_id })
                && provider@ == p && agent_id@ == text::trimmed(a)
        },
    }
}

/// The controller that an agent command (the text after `agent`) selects.
pub open spec fn agent_command(command_prefix: Seq<char>, t: Seq<char>, r: ControllerType) -> bool {
    if "list"@.is_prefix_of(t) {
        r == ControllerType::Agent(AgentControllerType::List)
    } else if "details"@.is_prefix_of(t) {
        identifier_command(command_prefix, t.skip("details"@.len() as int), false, r)
    } else if "create-room-local"@.is_prefix_of(t) {
        creation_command(command_prefix, t.skip("create-room-local"@.len() as int), false, r)
    } else if "create-global"@.is_prefix_of(t) {
        creation_command(command_prefix, t.skip("create-global"@.len() as int), true, r)
    } else if "delete"@.is_prefix_of(t) {
        identifier_command(command_prefix, t.skip("delete"@.len() as int), true, r)
    } else {
        r == ControllerType::Agent(AgentControllerType::Help)
    }
}

fn identifier_arg(command_prefix: &str, arg: &str, is_delete: bool) -> (r: ControllerType)
    ensures
        identifier_command(command_prefix@, arg@, is_delete, r),
{
    let agent_id_string = text::trim(arg);
    if agent_id_string.is_empty() || text::contains_char(agent_id_string, ' ') {
        return ControllerType::Error(
            strings::agent::incorrect_invocation_expects_agent_id_arg(command_prefix),
        );
    }
    let Some(agent_identifier) = PublicIdentifier::from_str(agent_id_string) else {
        return ControllerType::Error(strings::agent::invalid_id_generic());
    };
    if is_delete {
        ControllerType::Agent(AgentControllerType::Delete(agent_identifier))
    } else {
        ControllerType::Agent(AgentControllerType::Details(agent_identifier))
    }
}

fn creation_arg(command_prefix: &str, arg: &str, is_global: bool) -> (r: ControllerType)
    ensures
        creation_command(command_prefix@, arg@, is_global, r),
{
    let remaining_text = text::trim(arg);
    let Some((provider, agent_id_string)) = text::split_once_char(remaining_text, ' ') else {
        return ControllerType::Error(strings::agent::incorrect_creation_invocation(command_prefix));
    };
    if text::contains_char(agent_id_string, ' ') {
        return ControllerType::Error(strings::agent::incorrect_creation_invocation(command_prefix));
    }
    let provider = provider.to_owned();
    let agent_id = text::trim(agent_id_string).to_owned();
    if is_global {
        ControllerType::Agent(AgentControllerType::CreateGlobal { provider, agent_id })
    } else {
        ControllerType::Agent(AgentControllerType::CreateRoomLocal { provider, agent_id })
    }
}

/// Selects the agent controller for the text that follows `agent`.
pub fn determine_controller(command_prefix: &str, text: &str) -> (r: ControllerType)
    ensures
        agent_command(command_prefix@, text@, r),
{
    if text::starts_with(text, "list") {
        return ControllerType::Agent(AgentControllerType::List);
    }
    if let Some(agent_id_string) = text::strip_prefix(text, "details") {
        return identifier_arg(command_prefix, agent_id_string, false);
    }
    if let Some(remaining_text) = text::strip_prefix(text, "create-room-local") {
        return creation_arg(command_prefix, remaining_text, false);
    }
    if let Some(remaining_text) = text::strip_prefix(text, "create-global") {
        return creation_arg(command_prefix, remaining_text, true);
    }
    if let Some(agent_id_string) = text::strip_prefix(text, "delete") {
        return identifier_arg(command_prefix, agent_id_string, true);
    }
    ControllerType::Agent(AgentControllerType::Help)
}

/// An identifier written after `details` or `delete` names that agent,
/// whenever its id holds no white space: `details KIND/ID`, `delete KIND/ID`.
pub proof fn lemma_identifier_commands_name_the_agent(command_prefix: Seq<char>, v: IdentifierView)
    requires
        forall|i: int| 0 <= i < v.id().len() ==> !text::is_white_space(#[trigger] v.id()[i]),
    ensures
        forall|r: ControllerType| #[trigger]
            agent_command(command_prefix, text::command_with_value("details"@, v.text()), r) ==> (
            r matches ControllerType::Agent(AgentControllerType::Details(id)) && id@ == v),
        forall|r: ControllerType| #[trigger]
            agent_command(command_prefix, text::command_with_value("delete"@, v.text()), r) ==> (
            r matches ControllerType::Agent(AgentControllerType::Delete(id)) && id@ == v),
{
    reveal_strlit(" ");
    reveal_strlit("/");
    reveal_strlit("static");
    reveal_strlit("global");
    reveal_strlit("room-local");
    reveal_strlit("list");
    reveal_strlit("details");
    reveal_strlit("delete");
    reveal_strlit("create-room-local");
    reveal_strlit("create-global");
    let k = v.kind_text();
    let t = v.text();
    assert(k.len() > 0);
    assert forall|i: int| 0 <= i < t.len() implies !text::is_white_space(#[trigger] t[i]) by {
        if i < k.len() {
            assert(t[i] == k[i]);
        } else if i == k.len() {
            assert(t[i] == '/');
        } else {
            assert(t[i] == v.id()[i - k.len() - 1]);
        }
    }
    assert(!t.contains(' ')) by {
        if t.contains(' ') {
            let i = choose|i: int| 0 <= i < t.len() && t[i] == ' ';
            assert(!text::is_white_space(t[i]));
        }
    }
    assert(!text::is_white_space(t[0]));
    assert(!text::is_white_space(t[t.len() - 1]));
    text::lemma_trimmed_fixed(t);
    crate::agent::lemma_identifier_text_parses(v);
    let td = text::command_with_value("details"@, t);
    let tx = text::command_with_value("delete"@, t);
    assert(td.subrange(0, 7) =~= "details"@);
    assert(td.skip(7) =~= " "@ + t);
    assert(tx.subrange(0, 6) =~= "delete"@);
    assert(tx.skip(6) =~= " "@ + t);
    text::lemma_differs_at("list"@, td, 0);
    text::lemma_differs_at("list"@, tx, 0);
    text::lemma_differs_at("details"@, tx, 2);
    text::lemma_differs_at("create-room-local"@, tx, 0);
    text::lemma_differs_at("create-global"@, tx, 0);
}

/// The part of a message that holds an agent configuration: the trimmed
/// text, and when it is a code block (it begins with three backticks), what
/// lies between the fences, after the `yml` or `yaml` of the opening fence.
pub open spec fn config_text(t0: Seq<char>) -> Seq<char> {
    let t = text::trimmed(t0);
    if "```"@.is_prefix_of(t) {
        text::trim_end_all(
            text::trim_start_all(
                text::trim_start_all(text::trim_start_all(t, "```yml"@), "```yaml"@),
                "```"@,
            ),
            "```"@,
        )
    } else {
        t
    }
}

/// Reads the agent configuration that a message holds: a YAML mapping, in
/// plain text or in a code block. The error says why there is none.
pub fn parse_from_message_to_yaml_value(text: &str) -> (r: Result<serde_yaml::Value, String>)
    ensures
        match yaml::yaml_shape(config_text(text@)) {
            YamlShape::Mapping => r is Ok,
            YamlShape::OtherValue => r matches Err(e) && e@
                == strings::error::not_a_valid_yaml_hashmap_text(),
            YamlShape::Invalid(m) => r matches Err(e) && e@ == m,
        },
        r matches Ok(v) ==> v == yaml::yaml_value(config_text(text@)),
{
    let mut text = text::trim(text);
    if text::starts_with(text, "```") {
        text = text::trim_start_matches(text, "```yml");
        text = text::trim_start_matches(text, "```yaml");
        text = text::trim_start_matches(text, "```");
        text = text::trim_end_matches(text, "```");
    }
    match yaml::parse_yaml(text) {
        ParsedYaml::Mapping(config) => Ok(config),
        ParsedYaml::OtherValue => Err(strings::error::not_a_valid_yaml_hashmap()),
        ParsedYaml::Invalid(err) => Err(err),
    }
}

/// What may be done about an agent that a command names.
#[derive(Debug, Clone, Copy, PartialEq, Eq, Structural)]
pub enum AgentAccess {
    /// No available agent has the identifier.
    Missing,
    /// The sender may not manage the room's own agents.
    NotAllowedToManageRoomLocalAgents,
    /// The sender may not administer the global configuration.
    NotPermittedToAdministrate,
    /// Agents of the bot's static configuration cannot be changed.
    StaticAgentsNotManageable,
    /// The command may go ahead.
    Allowed,
}

/// What may be done about the agent `id`: it must be available; a
/// room-local agent needs a sender who may manage the room's agents, a
/// global one a sender who may administer the global configuration, and a
/// static one may be looked at but not changed.
pub open spec fn agent_access(
    available: Seq<PublicIdentifier>,
    id: IdentifierView,
    can_manage_room_local_agents: bool,
    can_manage_global_config: bool,
    changes_agent: bool,
) -> AgentAccess {
    if !has_agent(available, id) {
        AgentAccess::Missing
    } else {
        match id {
            IdentifierView::DynamicRoomLocal(_) => if can_manage_room_local_agents {
                AgentAccess::Allowed
            } else {
                AgentAccess::NotAllowedToManageRoomLocalAgents
            },
            IdentifierView::DynamicGlobal(_) => if can_manage_global_config {
                AgentAccess::Allowed
            } else {
                AgentAccess::NotPermittedToAdministrate
            },
            IdentifierView::Static(_) => if changes_agent {
                AgentAccess::StaticAgentsNotManageable
            } else {
                AgentAccess::Allowed
            },
        }
    }
}

/// Decides what may be done about an agent that a command names
/// (`changes_agent` for deleting it, not for showing it).
pub fn check_agent_access(
    available: &Vec<PublicIdentifier>,
    id: &PublicIdentifier,
    sender_can_manage_room_local_agents: bool,
    sender_can_manage_global_config: bool,
    changes_agent: bool,
) -> (r: AgentAccess)
    ensures
        r == agent_access(
            available@,
            id@,
            sender_can_manage_room_local_agents,
            sender_can_manage_global_config,
            changes_agent,
        ),
{
    if !contains_agent(available, id) {
        return AgentAccess::Missing;
    }
    match id {
        PublicIdentifier::DynamicRoomLocal(_) => {
            if sender_can_manage_room_local_agents {
                AgentAccess::Allowed
            } else {
                AgentAccess::NotAllowedToManageRoomLocalAgents
            }
        },
        PublicIdentifier::DynamicGlobal(_) => {
            if sender_can_manage_global_config {
                AgentAccess::Allowed
            } else {
                AgentAccess::NotPermittedToAdministrate
            }
        },
        PublicIdentifier::Static(_) => {
            if changes_agent {
                AgentAccess::StaticAgentsNotManageable
            } else {
                AgentAccess::Allowed
            }
        },
    }
}

/// What deleting an agent did.
#[derive(Debug, PartialEq)]
pub enum DeleteOutcome {
    /// The deletion was not allowed, for this reason.
    Refused(AgentAccess),
    /// No definition with the agent's id was found where it is stored.
    NotFound,
    /// The room's definitions of the agent were removed.
    RemovedRoomLocal,
    /// The global definitions of the agent were removed.
    RemovedGlobal,
}

fn remove_from(agents: &mut Vec<AgentDefinition>, id: &str) -> (r: bool)
    ensures
        r == has_definition(old(agents)@, id@),
        final(agents)@ == kept_agents(old(agents)@, id@),
{
    let mut all: Vec<AgentDefinition> = Vec::new();
    std::mem::swap(&mut all, agents);
    let (kept, removed) = remove_agent_definitions(all, id);
    *agents = kept;
    removed
}

/// Deletes an agent: once allowed, its definitions are removed from the
/// room's definitions (a room-local agent) or the global ones (a global
/// agent); the others stay, in order. Where none has its id, nothing changes.
pub fn delete_agent(
    id: &PublicIdentifier,
    available: &Vec<PublicIdentifier>,
    sender_can_manage_room_local_agents: bool,
    sender_can_manage_global_config: bool,
    room_agents: &mut Vec<AgentDefinition>,
    global_agents: &mut Vec<AgentDefinition>,
) -> (r: DeleteOutcome)
    ensures
        ({
            let access = agent_access(
                available@,
                id@,
                sender_can_manage_room_local_agents,
                sender_can_manage_global_config,
                true,
            );
            if access != AgentAccess::Allowed {
                &&& r == DeleteOutcome::Refused(access)
                &&& final(room_agents)@ == old(room_agents)@
                &&& final(global_agents)@ == old(global_agents)@
            } else {
                match id@ {
                    IdentifierView::DynamicRoomLocal(k) => {
                        &&& final(global_agents)@ == old(global_agents)@
                        &&& final(room_agents)@ == kept_agents(old(room_agents)@, k)
                        &&& r == if has_definition(old(room_agents)@, k) {
                            DeleteOutcome::RemovedRoomLocal
                        } else {
                            DeleteOutcome::NotFound
                        }
                    },
                    IdentifierView::DynamicGlobal(k) => {
                        &&& final(room_agents)@ == old(room_agents)@
                        &&& final(global_agents)@ == kept_agents(old(global_agents)@, k)
                        &&& r == if has_definition(old(global_agents)@, k) {
                            DeleteOutcome::RemovedGlobal
                        } else {
                            DeleteOutcome::NotFound
                        }
                    },
                    IdentifierView::Static(_) => false,
                }
            }
        }),
{
    let access = check_agent_access(
        available,
        id,
        sender_can_manage_room_local_agents,
        sender_can_manage_global_config,
        true,
    );
    if access != AgentAccess::Allowed {
        return DeleteOutcome::Refused(access);
    }
    match id {
        PublicIdentifier::DynamicRoomLocal(k) => {
            if remove_from(room_agents, k.as_str()) {
                DeleteOutcome::RemovedRoomLocal
            } else {
                DeleteOutcome::NotFound
            }
        },
        PublicIdentifier::DynamicGlobal(k) => {
            if remove_from(global_agents, k.as_str()) {
                DeleteOutcome::RemovedGlobal
            } else {
                DeleteOutcome::NotFound
            }
        },
        PublicIdentifier::Static(_) => DeleteOutcome::Refused(AgentAccess::StaticAgentsNotManageable),
    }
}

/// How the creation of an agent proceeds, before its configuration is read.
#[derive(Debug, Clone, Copy, PartialEq, Eq, Structural)]
pub enum CreationCheck {
    /// The sender may not manage the room's own agents.
    NotAllowedToManageRoomLocalAgents,
    /// The sender may not administer the global configuration.
    NotPermittedToAdministrate,
    /// The provider is not one the bot knows.
    UnknownProvider,
    /// The agent's id is not valid.
    InvalidIdentifier,
    /// An available agent already has the identifier.
    AlreadyExists,
    /// The command starts a thread: the guide with a sample configuration is
    /// sent, and the configuration is awaited in the thread.
    SendGuide,
    /// The message in the thread holds the configuration, to be read.
    ReadConfiguration,
}

/// How the creation of the agent `id` proceeds: permission first (for a
/// global agent, administering the global configuration; for a room-local
/// one, managing the room's agents), then the provider, the id, whether the
/// agent exists already, and whether the command is alone in its thread.
pub open spec fn creation_check(
    is_global: bool,
    sender_may_manage: bool,
    provider_is_known: bool,
    id_is_valid: bool,
    available: Seq<PublicIdentifier>,
    id: IdentifierView,
    thread_is_root_only: bool,
) -> CreationCheck {
    if !sender_may_manage {
        if is_global {
            CreationCheck::NotPermittedToAdministrate
        } else {
            CreationCheck::NotAllowedToManageRoomLocalAgents
        }
    } else if !provider_is_known {
        CreationCheck::UnknownProvider
    } else if !id_is_valid {
        CreationCheck::InvalidIdentifier
    } else if has_agent(available, id) {
        CreationCheck::AlreadyExists
    } else if thread_is_root_only {
        CreationCheck::SendGuide
    } else {
        CreationCheck::ReadConfiguration
    }
}

/// Decides how the creation of an agent proceeds.
pub fn check_creation(
    is_global: bool,
    sender_may_manage: bool,
    provider_is_known: bool,
    id_is_valid: bool,
    available: &Vec<PublicIdentifier>,
    id: &PublicIdentifier,
    thread_is_root_only: bool,
) -> (r: CreationCheck)
    ensures
        r == creation_check(
            is_global,
            sender_may_manage,
            provider_is_known,
            id_is_valid,
            available@,
            id@,
            thread_is_root_only,
        ),
{
    if !sender_may_manage {
        if is_global {
            CreationCheck::NotPermittedToAdministrate
        } else {
            CreationCheck::NotAllowedToManageRoomLocalAgents
        }
    } else if !provider_is_known {
        CreationCheck::UnknownProvider
    } else if !id_is_valid {
        CreationCheck::InvalidIdentifier
    } else if contains_agent(available, id) {
        CreationCheck::AlreadyExists
    } else if thread_is_root_only {
        CreationCheck::SendGuide
    } else {
        CreationCheck::ReadConfiguration
    }
}

/// Stores the definition of a newly created agent after the existing ones
/// (the room's definitions for a room-local agent, the global ones for a
/// global agent): its id without its kind, its provider, its configuration.
pub fn add_agent_definition(
    agents: &mut Vec<AgentDefinition>,
    id: &PublicIdentifier,
    provider: String,
    config: serde_yaml::Value,
)
    ensures
        final(agents)@.len() == old(agents)@.len() + 1,
        final(agents)@.take(old(agents)@.len() as int) == old(agents)@,
        final(agents)@.last().id@ == id@.id(),
        final(agents)@.last().provider == provider,
        final(agents)@.last().config == config,
{
    let definition = AgentDefinition { id: id.prefixless(), provider, config };
    agents.push(definition);
    assert(agents@.take(old(agents)@.len() as int) =~= old(agents)@);
}

} // verus!
