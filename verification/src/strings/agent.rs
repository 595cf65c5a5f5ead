//! Messages of the `agent` area.
use vstd::prelude::*;

verus! {

/// The text of [`incorrect_invocation_expects_agent_id_arg`].
pub open spec fn incorrect_invocation_expects_agent_id_arg_text(command_prefix: Seq<char>) -> Seq<char> {
    "Incorrect invocation: this command expects exactly one agent identifier. Send `"@ + command_prefix + " agent` to learn more."@
}

/// The reply to an agent command that lacks its one identifier argument or has extra ones.
pub fn incorrect_invocation_expects_agent_id_arg(command_prefix: &str) -> (r: String)
    ensures
        r@ == incorrect_invocation_expects_agent_id_arg_text(command_prefix@),
{
    let mut r = "Incorrect invocation: this command expects exactly one agent identifier. Send `".to_owned();
    r.append(command_prefix);
    r.append(" agent` to learn more.");
    r
}

/// The text of [`incorrect_creation_invocation`].
pub open spec fn incorrect_creation_invocation_text(command_prefix: Seq<char>) -> Seq<char> {
    "Incorrect invocation: an agent is created with `"@ + command_prefix + " agent create-room-local PROVIDER AGENT_ID` or `"@ + command_prefix + " agent create-global PROVIDER AGENT_ID`."@
}

/// The reply to an agent-creation command without exactly a provider and an agent id.
pub fn incorrect_creation_invocation(command_prefix: &str) -> (r: String)
    ensures
        r@ == incorrect_creation_invocation_text(command_prefix@),
{
    let mut r = "Incorrect invocation: an agent is created with `".to_owned();
    r.append(command_prefix);
    r.append(" agent create-room-local PROVIDER AGENT_ID` or `");
    r.append(command_prefix);
    r.append(" agent create-global PROVIDER AGENT_ID`.");
    r
}

/// The text of [`invalid_id_generic`].
pub open spec fn invalid_id_generic_text() -> Seq<char> {
    "The agent identifier is invalid. Agent identifiers look like `static/ID`, `global/ID` or `room-local/ID`."@
}

/// The reply to an agent identifier that does not name a kind of agent.
pub fn invalid_id_generic() -> (r: String)
    ensures
        r@ == invalid_id_generic_text(),
{
    "The agent identifier is invalid. Agent identifiers look like `static/ID`, `global/ID` or `room-local/ID`.".to_owned()
}

/// The text of [`purpose_unrecognized`].
pub open spec fn purpose_unrecognized_text(purpose: Seq<char>) -> Seq<char> {
    "The purpose `"@ + purpose + "` is not recognized."@
}

/// The reply to an unknown agent purpose.
pub fn purpose_unrecognized(purpose: &str) -> (r: String)
    ensures
        r@ == purpose_unrecognized_text(purpose@),
{
    let mut r = "The purpose `".to_owned();
    r.append(purpose);
    r.append("` is not recognized.");
    r
}

} // verus!
