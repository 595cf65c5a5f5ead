use baibot::agent::{AgentDefinition, PublicIdentifier};
use baibot::controller::agent::{
    add_agent_definition, check_agent_access, check_creation, delete_agent, determine_controller,
    AgentAccess,
    AgentControllerType, CreationCheck, DeleteOutcome,
};
use baibot::controller::ControllerType;

fn available() -> Vec<PublicIdentifier> {
    vec![
        PublicIdentifier::Static("openai".to_owned()),
        PublicIdentifier::DynamicGlobal("shared".to_owned()),
        PublicIdentifier::DynamicRoomLocal("mine".to_owned()),
    ]
}

fn definition(id: &str) -> AgentDefinition {
    AgentDefinition { id: id.to_owned(), provider: "openai".to_owned(), config: serde_yaml::Value::Null }
}

fn ids(agents: &[AgentDefinition]) -> Vec<&str> {
    agents.iter().map(|a| a.id.as_str()).collect()
}

#[test]
fn who_may_see_and_change_agents() {
    let agents = available();
    let room_local = PublicIdentifier::DynamicRoomLocal("mine".to_owned());
    let global = PublicIdentifier::DynamicGlobal("shared".to_owned());
    let static_agent = PublicIdentifier::Static("openai".to_owned());
    let absent = PublicIdentifier::DynamicGlobal("absent".to_owned());
    assert_eq!(check_agent_access(&agents, &absent, true, true, false), AgentAccess::Missing);
    assert_eq!(
        check_agent_access(&agents, &room_local, false, true, false),
        AgentAccess::NotAllowedToManageRoomLocalAgents
    );
    assert_eq!(check_agent_access(&agents, &room_local, true, false, true), AgentAccess::Allowed);
    assert_eq!(
        check_agent_access(&agents, &global, true, false, false),
        AgentAccess::NotPermittedToAdministrate
    );
    assert_eq!(check_agent_access(&agents, &static_agent, false, false, false), AgentAccess::Allowed);
    assert_eq!(
        check_agent_access(&agents, &static_agent, true, true, true),
        AgentAccess::StaticAgentsNotManageable
    );
}

#[test]
fn deleting_agents() {
    let agents = available();
    let mut room = vec![definition("mine"), definition("other")];
    let mut global = vec![definition("shared")];

    let refused = delete_agent(
        &PublicIdentifier::DynamicRoomLocal("mine".to_owned()),
        &agents,
        false,
        true,
        &mut room,
        &mut global,
    );
    assert_eq!(refused, DeleteOutcome::Refused(AgentAccess::NotAllowedToManageRoomLocalAgents));
    assert_eq!(ids(&room), vec!["mine", "other"]);

    let removed = delete_agent(
        &PublicIdentifier::DynamicRoomLocal("mine".to_owned()),
        &agents,
        true,
        false,
        &mut room,
        &mut global,
    );
    assert_eq!(removed, DeleteOutcome::RemovedRoomLocal);
    assert_eq!(ids(&room), vec!["other"]);
    assert_eq!(ids(&global), vec!["shared"]);

    let removed = delete_agent(
        &PublicIdentifier::DynamicGlobal("shared".to_owned()),
        &agents,
        false,
        true,
        &mut room,
        &mut global,
    );
    assert_eq!(removed, DeleteOutcome::RemovedGlobal);
    assert!(global.is_empty());

    // Still available (say, from a stale list), but no longer defined.
    let again = delete_agent(
        &PublicIdentifier::DynamicGlobal("shared".to_owned()),
        &agents,
        false,
        true,
        &mut room,
        &mut global,
    );
    assert_eq!(again, DeleteOutcome::NotFound);

    let static_agent = delete_agent(
        &PublicIdentifier::Static("openai".to_owned()),
        &agents,
        true,
        true,
        &mut room,
        &mut global,
    );
    assert_eq!(static_agent, DeleteOutcome::Refused(AgentAccess::StaticAgentsNotManageable));
}

#[test]
fn creating_agents_checks_in_order() {
    let agents = available();
    let new_id = PublicIdentifier::DynamicRoomLocal("new".to_owned());
    let taken = PublicIdentifier::DynamicRoomLocal("mine".to_owned());
    assert_eq!(
        check_creation(false, false, false, false, &agents, &new_id, true),
        CreationCheck::NotAllowedToManageRoomLocalAgents
    );
    assert_eq!(
        check_creation(true, false, true, true, &agents, &new_id, true),
        CreationCheck::NotPermittedToAdministrate
    );
    assert_eq!(
        check_creation(false, true, false, false, &agents, &new_id, true),
        CreationCheck::UnknownProvider
    );
    assert_eq!(
        check_creation(false, true, true, false, &agents, &new_id, true),
        CreationCheck::InvalidIdentifier
    );
    assert_eq!(
        check_creation(false, true, true, true, &agents, &taken, true),
        CreationCheck::AlreadyExists
    );
    assert_eq!(
        check_creation(false, true, true, true, &agents, &new_id, true),
        CreationCheck::SendGuide
    );
    assert_eq!(
        check_creation(false, true, true, true, &agents, &new_id, false),
        CreationCheck::ReadConfiguration
    );
}

#[test]
fn identifier_commands_name_the_agent() {
    use_identifier("static/openai", PublicIdentifier::Static("openai".to_owned()));
    use_identifier("global/a/b", PublicIdentifier::DynamicGlobal("a/b".to_owned()));
    use_identifier("room-local/mine", PublicIdentifier::DynamicRoomLocal("mine".to_owned()));
}

fn use_identifier(text: &str, expected: PublicIdentifier) {
    assert_eq!(
        determine_controller("!bai", &format!("details {}", text)),
        ControllerType::Agent(AgentControllerType::Details(expected.clone()))
    );
    assert_eq!(
        determine_controller("!bai", &format!("delete {}", text)),
        ControllerType::Agent(AgentControllerType::Delete(expected))
    );
}

#[test]
fn new_agents_are_stored_after_the_others() {
    let mut room = vec![definition("first")];
    add_agent_definition(
        &mut room,
        &PublicIdentifier::DynamicRoomLocal("second".to_owned()),
        "anthropic".to_owned(),
        serde_yaml::Value::Bool(true),
    );
    assert_eq!(ids(&room), vec!["first", "second"]);
    assert_eq!(room[1].provider, "anthropic");
    assert_eq!(room[1].config, serde_yaml::Value::Bool(true));
}
