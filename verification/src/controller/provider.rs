//! Provider commands (`provider ...`).
use vstd::prelude::*;

use super::ControllerType;

verus! {

/// Every provider command shows the provider help, whatever follows it.
pub fn determine_controller(_text: &str) -> (r: ControllerType)
    ensures
        r == ControllerType::ProviderHelp,
{
    ControllerType::ProviderHelp
}

/// Whether the general help presents the providers: only to senders who may
/// manage the room's agents or administer the global configuration, the
/// ones who can create agents.
pub fn help_presents_providers(
    sender_can_manage_room_local_agents: bool,
    sender_can_manage_global_config: bool,
) -> (r: bool)
    ensures
        r == (sender_can_manage_room_local_agents || sender_can_manage_global_config),
{
    sender_can_manage_room_local_agents || sender_can_manage_global_config
}

} // verus!
