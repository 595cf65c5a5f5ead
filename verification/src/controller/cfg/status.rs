//! What the configuration status report (`config status`) shows: where the
//! effective value of each setting comes from, which agent handles each
//! purpose, and which agents the room defines.
use vstd::prelude::*;

use crate::agent::{AgentDefinition, AgentPurpose, PublicIdentifier};
use crate::roomconfig::{
    RoomSettingsHandler, SpeechToTextDefaults, SpeechToTextFlowType,
    SpeechToTextMessageTypeForNonThreadedOnlyTranscribedMessages, SpeechToTextSettings,
    TextGenerationAutoUsage, TextGenerationDefaults, TextGenerationPrefixRequirementType,
    TextGenerationSettings, TextToSpeechBotMessagesFlowType, TextToSpeechDefaults,
    TextToSpeechSettings, TextToSpeechUserMessagesFlowType,
};
use crate::text;

verus! {

/// Where the effective value of a setting comes from.
#[derive(Debug, Clone, Copy, PartialEq, Eq, Structural)]
pub enum SettingSource {
    /// The room's configuration sets it.
    RoomConfig,
    /// The global configuration sets it, and the room's does not.
    GlobalConfig,
    /// Neither configuration overrides it; the agent's own configuration applies.
    AgentConfig,
    /// Nothing sets it; the built-in default applies.
    HardcodedDefault,
}

/// Where a setting with a built-in default takes its value from: the room's
/// configuration comes first, then the global one, then the default.
pub open spec fn set_where(room_is_set: bool, global_is_set: bool) -> SettingSource {
    if room_is_set {
        SettingSource::RoomConfig
    } else if global_is_set {
        SettingSource::GlobalConfig
    } else {
        SettingSource::HardcodedDefault
    }
}

/// Where a setting with a built-in default takes its value from, given what
/// the room's and the global configuration hold for it.
pub fn setting_source<T>(room: &Option<T>, global: &Option<T>) -> (r: SettingSource)
    ensures
        r == set_where(room is Some, global is Some),
{
    if room.is_some() {
        SettingSource::RoomConfig
    } else if global.is_some() {
        SettingSource::GlobalConfig
    } else {
        SettingSource::HardcodedDefault
    }
}

/// The value in effect of a setting with a built-in default: the room's,
/// else the global one, else the default.
pub open spec fn effective_value<T>(room: Option<T>, global: Option<T>, default: T) -> T {
    match room {
        Some(v) => v,
        None => match global {
            Some(v) => v,
            None => default,
        },
    }
}

/// The value in effect of a setting with a built-in default.
pub fn effective_setting<T: Copy>(room: Option<T>, global: Option<T>, default: T) -> (r: T)
    ensures
        r == effective_value(room, global, default),
{
    match room {
        Some(v) => v,
        None => match global {
            Some(v) => v,
            None => default,
        },
    }
}

/// Whether `value` is the one stored where `source` says it comes from: the
/// room's configuration (which sets it), the global one (which sets it while
/// the room does not), the agent's configuration or the built-in default
/// (neither configuration setting it).
pub open spec fn stored_at<T>(
    source: SettingSource,
    room: Option<T>,
    global: Option<T>,
    agent: Option<T>,
    default: Option<T>,
    value: Option<T>,
) -> bool {
    match source {
        SettingSource::RoomConfig => room is Some && value == room,
        SettingSource::GlobalConfig => room is None && global is Some && value == global,
        SettingSource::AgentConfig => room is None && global is None && value == agent,
        SettingSource::HardcodedDefault => room is None && global is None && value == default,
    }
}

/// The value in effect of a setting without a default is the one stored where
/// its source says it comes from: the room's whenever the room sets one, else
/// the global one.
pub proof fn lemma_first_set_comes_from_its_source<T>(room: Option<T>, global: Option<T>)
    ensures
        stored_at(set_where(room is Some, global is Some), room, global, None, None, first_set(room, global)),
        room is Some ==> first_set(room, global) == room,
        room is None ==> first_set(room, global) == global,
{
}

/// The value in effect of a setting with a built-in default is the one stored
/// where its source says it comes from.
pub proof fn lemma_effective_value_comes_from_its_source<T>(room: Option<T>, global: Option<T>, default: T)
    ensures
        match set_where(room is Some, global is Some) {
            SettingSource::RoomConfig => room == Some(effective_value(room, global, default)),
            SettingSource::GlobalConfig => room is None && global == Some(
                effective_value(room, global, default),
            ),
            SettingSource::HardcodedDefault => room is None && global is None && effective_value(
                room,
                global,
                default,
            ) == default,
            SettingSource::AgentConfig => false,
        },
{
}

/// The value in effect of a setting without a default: the room's, else the
/// global one, else none.
pub open spec fn first_set<T>(room: Option<T>, global: Option<T>) -> Option<T> {
    match room {
        Some(v) => Some(v),
        None => global,
    }
}

/// The effective value of an override that falls back to the agent's own
/// configuration, and where it comes from: the room's override, else the
/// global one, else what the agent holds (perhaps nothing).
pub open spec fn override_or_agent_value<T>(room: Option<T>, global: Option<T>, agent: Option<T>) -> (
    Option<T>,
    SettingSource,
) {
    match room {
        Some(v) => (Some(v), SettingSource::RoomConfig),
        None => match global {
            Some(v) => (Some(v), SettingSource::GlobalConfig),
            None => (agent, SettingSource::AgentConfig),
        },
    }
}

/// Resolves an override that falls back to the agent's configuration (the
/// text-generation temperature).
pub fn override_or_agent<T>(room: Option<T>, global: Option<T>, agent: Option<T>) -> (r: (
    Option<T>,
    SettingSource,
))
    ensures
        r == override_or_agent_value(room, global, agent),
{
    match room {
        Some(v) => (Some(v), SettingSource::RoomConfig),
        None => match global {
            Some(v) => (Some(v), SettingSource::GlobalConfig),
            None => (agent, SettingSource::AgentConfig),
        },
    }
}

/// The effective value of an override that falls back to the agent's
/// configuration and then to the built-in default: as
/// [`override_or_agent_value`], except that when the agent holds nothing
/// either, there is no value and the default applies.
pub open spec fn override_agent_or_default_value<T>(
    room: Option<T>,
    global: Option<T>,
    agent: Option<T>,
) -> (Option<T>, SettingSource) {
    match (room, global, agent) {
        (None, None, None) => (None, SettingSource::HardcodedDefault),
        _ => override_or_agent_value(room, global, agent),
    }
}

/// Resolves an override that falls back to the agent's configuration and then
/// to the built-in default (the text-to-speech speed and voice).
pub fn override_agent_or_default<T>(room: Option<T>, global: Option<T>, agent: Option<T>) -> (r: (
    Option<T>,
    SettingSource,
))
    ensures
        r == override_agent_or_default_value(room, global, agent),
{
    match room {
        Some(v) => (Some(v), SettingSource::RoomConfig),
        None => match global {
            Some(v) => (Some(v), SettingSource::GlobalConfig),
            None => match agent {
                Some(v) => (Some(v), SettingSource::AgentConfig),
                None => (None, SettingSource::HardcodedDefault),
            },
        },
    }
}

/// The prompt that text generation uses, and where it comes from: the room's
/// override, else the global one, else the agent's own prompt, which is
/// empty when the agent has none (or there is no agent).
pub fn prompt_status(
    room: Option<String>,
    global: Option<String>,
    agent_prompt: Option<String>,
) -> (r: (String, SettingSource))
    ensures
        ({
            let (v, source) = override_or_agent_value(
                text::opt_view(room),
                text::opt_view(global),
                text::opt_view(agent_prompt),
            );
            &&& r.1 == source
            &&& r.0@ == match v {
                Some(p) => p,
                None => Seq::<char>::empty(),
            }
        }),
{
    let (prompt, source) = override_or_agent(room, global, agent_prompt);
    match prompt {
        Some(p) => (p, source),
        None => (String::new(), source),
    }
}

/// What the status report says of the agent that handles one purpose.
#[derive(Debug, PartialEq)]
pub enum HandlerLine {
    /// An agent is configured; `agent` is the position of the first available
    /// agent with that identifier, or `None` when no available agent has it.
    AgentFound { purpose: AgentPurpose, agent_id: String, agent: Option<usize> },
    /// No catch-all agent is set in the global configuration.
    CatchAllNotSetGlobally,
    /// No catch-all agent is set in the room, so the global one applies.
    CatchAllNotSetInRoomDefaultToGlobal,
    /// No agent for this purpose is set in the global configuration.
    NotSetGlobally(AgentPurpose),
    /// No agent for this purpose is set in the room, so the global one applies.
    NotSetInRoomDefaultToGlobal(AgentPurpose),
}

/// Whether `found` is the position of the first agent whose full identifier
/// is `id`, or `None` when no agent has it.
pub open spec fn first_agent_with(agents: Seq<PublicIdentifier>, id: Seq<char>, found: Option<usize>) -> bool {
    match found {
        Some(i) => {
            &&& i < agents.len()
            &&& agents[i as int]@.text() == id
            &&& forall|j: int| 0 <= j < i ==> agents[j]@.text() != id
        },
        None => forall|j: int| 0 <= j < agents.len() ==> agents[j]@.text() != id,
    }
}

/// The line for `purpose`, given the identifier text configured for it, the
/// available agents, and whether the configuration is the global one.
pub open spec fn handler_line(
    purpose: AgentPurpose,
    configured: Option<Seq<char>>,
    agents: Seq<PublicIdentifier>,
    is_for_global_config: bool,
    r: HandlerLine,
) -> bool {
    match configured {
        Some(id) => r matches HandlerLine::AgentFound { purpose: p, agent_id, agent } && p == purpose
            && agent_id@ == id && first_agent_with(agents, id, agent),
        None => if purpose == AgentPurpose::CatchAll {
            if is_for_global_config {
                r == HandlerLine::CatchAllNotSetGlobally
            } else {
                r == HandlerLine::CatchAllNotSetInRoomDefaultToGlobal
            }
        } else if is_for_global_config {
            r == HandlerLine::NotSetGlobally(purpose)
        } else {
            r == HandlerLine::NotSetInRoomDefaultToGlobal(purpose)
        },
    }
}

/// The position of the first agent whose full identifier is `agent_id`.
fn find_agent(agents: &Vec<PublicIdentifier>, agent_id: &str) -> (r: Option<usize>)
    ensures
        first_agent_with(agents@, agent_id@, r),
{
    let mut i: usize = 0;
    while i < agents.len()
        invariant
            i <= agents.len(),
            forall|j: int| 0 <= j < i ==> agents@[j]@.text() != agent_id@,
        decreases agents.len() - i,
    {
        let identifier = agents[i].as_string();
        if text::equals(identifier.as_str(), agent_id) {
            return Some(i);
        }
        i = i + 1;
    }
    None
}

/// The status line for the agent that handles `purpose`.
pub fn generate_handler_line_for_purpose(
    purpose: AgentPurpose,
    handler_config: &RoomSettingsHandler,
    agents: &Vec<PublicIdentifier>,
    is_for_global_config: bool,
) -> (r: HandlerLine)
    ensures
        handler_line(purpose, handler_config.by_purpose(purpose), agents@, is_for_global_config, r),
{
    match handler_config.get_by_purpose(purpose) {
        Some(agent_id) => {
            let agent = find_agent(agents, agent_id.as_str());
            HandlerLine::AgentFound { purpose, agent_id, agent }
        },
        None => match purpose {
            AgentPurpose::CatchAll => {
                if is_for_global_config {
                    HandlerLine::CatchAllNotSetGlobally
                } else {
                    HandlerLine::CatchAllNotSetInRoomDefaultToGlobal
                }
            },
            _ => {
                if is_for_global_config {
                    HandlerLine::NotSetGlobally(purpose)
                } else {
                    HandlerLine::NotSetInRoomDefaultToGlobal(purpose)
                }
            },
        },
    }
}

/// Whether `lines` holds one line per purpose, in the order in which purposes
/// are listed.
pub open spec fn handler_lines(
    handler_config: RoomSettingsHandler,
    agents: Seq<PublicIdentifier>,
    is_for_global_config: bool,
    lines: Seq<HandlerLine>,
) -> bool {
    &&& lines.len() == AgentPurpose::all().len()
    &&& forall|i: int|
        0 <= i < lines.len() ==> handler_line(
            AgentPurpose::all()[i],
            handler_config.by_purpose(AgentPurpose::all()[i]),
            agents,
            is_for_global_config,
            #[trigger] lines[i],
        )
}

fn lines_for_all_purposes(
    handler_config: &RoomSettingsHandler,
    agents: &Vec<PublicIdentifier>,
    is_for_global_config: bool,
) -> (r: Vec<HandlerLine>)
    ensures
        handler_lines(*handler_config, agents@, is_for_global_config, r@),
{
    let purposes = AgentPurpose::choices();
    let mut lines: Vec<HandlerLine> = Vec::new();
    let mut i: usize = 0;
    while i < purposes.len()
        invariant
            i <= purposes.len(),
            purposes@ == AgentPurpose::all(),
            lines.len() == i,
            forall|k: int|
                0 <= k < i ==> handler_line(
                    AgentPurpose::all()[k],
                    handler_config.by_purpose(AgentPurpose::all()[k]),
                    agents@,
                    is_for_global_config,
                    #[trigger] lines@[k],
                ),
        decreases purposes.len() - i,
    {
        let line = generate_handler_line_for_purpose(
            purposes[i],
            handler_config,
            agents,
            is_for_global_config,
        );
        lines.push(line);
        i = i + 1;
    }
    lines
}

/// The handler lines of the room's configuration, one per purpose.
pub fn generate_room_handlers_section(
    handler_config: &RoomSettingsHandler,
    agents: &Vec<PublicIdentifier>,
) -> (r: Vec<HandlerLine>)
    ensures
        handler_lines(*handler_config, agents@, false, r@),
{
    lines_for_all_purposes(handler_config, agents, false)
}

/// The handler lines of the global configuration, one per purpose.
pub fn generate_global_config_handlers_section(
    handler_config: &RoomSettingsHandler,
    agents: &Vec<PublicIdentifier>,
) -> (r: Vec<HandlerLine>)
    ensures
        handler_lines(*handler_config, agents@, true, r@),
{
    lines_for_all_purposes(handler_config, agents, true)
}

/// The positions of the room-local agents among `agents`, in order.
pub open spec fn room_local_positions(agents: Seq<PublicIdentifier>) -> Seq<usize>
    decreases agents.len(),
{
    if agents.len() == 0 {
        Seq::empty()
    } else {
        let before = room_local_positions(agents.drop_last());
        if agents.last() is DynamicRoomLocal {
            before.push((agents.len() - 1) as usize)
        } else {
            before
        }
    }
}

/// The agents listed in the agents section are exactly the room-local ones
/// among those available, each once, in order (for any list of agents that a
/// vector can hold).
pub proof fn lemma_room_local_positions(agents: Seq<PublicIdentifier>)
    requires
        agents.len() <= usize::MAX,
    ensures
        forall|k: int|
            0 <= k < room_local_positions(agents).len() ==> {
                let i = #[trigger] room_local_positions(agents)[k];
                &&& i < agents.len()
                &&& agents[i as int] is DynamicRoomLocal
            },
        forall|k: int, l: int|
            0 <= k < l < room_local_positions(agents).len() ==> #[trigger] room_local_positions(
                agents,
            )[k] < #[trigger] room_local_positions(agents)[l],
        forall|i: int|
            0 <= i < agents.len() && #[trigger] agents[i] is DynamicRoomLocal ==> room_local_positions(
                agents,
            ).contains(i as usize),
    decreases agents.len(),
{
    if agents.len() > 0 {
        let init = agents.drop_last();
        lemma_room_local_positions(init);
        let before = room_local_positions(init);
        let all = room_local_positions(agents);
        let n = agents.len() as int;
        let last_listed = agents.last() is DynamicRoomLocal;
        if last_listed {
            assert(all == before.push((n - 1) as usize));
        } else {
            assert(all == before);
        }
        assert forall|k: int|
            0 <= k < all.len() implies {
                let i = #[trigger] all[k];
                &&& i < agents.len()
                &&& agents[i as int] is DynamicRoomLocal
            } by {
            if k < before.len() {
                assert(all[k] == before[k]);
                assert(agents[before[k] as int] == init[before[k] as int]);
            } else {
                assert(all[k] == (n - 1) as usize);
                assert(agents[n - 1] == agents.last());
            }
        }
        assert forall|k: int, l: int| 0 <= k < l < all.len() implies #[trigger] all[k] < #[trigger] all[l] by {
            assert(all[k] == before[k]);
            assert(before[k] < init.len());
            if l < before.len() {
                assert(all[l] == before[l]);
            } else {
                assert(all[l] == (n - 1) as usize);
            }
        }
        assert forall|i: int| 0 <= i < agents.len() && #[trigger] agents[i] is DynamicRoomLocal implies all.contains(
            i as usize,
        ) by {
            if i < n - 1 {
                assert(agents[i] == init[i]);
                assert(before.contains(i as usize));
                let k = choose|k: int| 0 <= k < before.len() && before[k] == i as usize;
                assert(all[k] == before[k]);
            } else {
                assert(agents[i] == agents.last());
                assert(all[all.len() - 1] == i as usize);
            }
        }
    }
}

/// What the status report says of the agents that the room defines.
#[derive(Debug, PartialEq)]
pub enum RoomAgentsSection {
    /// The room's configuration defines no agent.
    Empty,
    /// The positions, among the available agents, of the room-local ones.
    Listed(Vec<usize>),
}

/// The agents section of the status report: empty when the room's
/// configuration defines no agent, else the room-local agents among those
/// available.
pub fn generate_room_agents_section(
    room_agents: &Vec<AgentDefinition>,
    agents: &Vec<PublicIdentifier>,
) -> (r: RoomAgentsSection)
    ensures
        room_agents.len() == 0 ==> r == RoomAgentsSection::Empty,
        room_agents.len() > 0 ==> (r matches RoomAgentsSection::Listed(v) && v@
            == room_local_positions(agents@)),
{
    if room_agents.len() == 0 {
        return RoomAgentsSection::Empty;
    }
    let mut positions: Vec<usize> = Vec::new();
    let mut i: usize = 0;
    while i < agents.len()
        invariant
            i <= agents.len(),
            positions@ == room_local_positions(agents@.take(i as int)),
        decreases agents.len() - i,
    {
        proof {
            assert(agents@.take(i + 1).drop_last() =~= agents@.take(i as int));
        }
        if let PublicIdentifier::DynamicRoomLocal(_) = &agents[i] {
            positions.push(i);
        }
        i = i + 1;
    }
    assert(agents@.take(agents.len() as int) =~= agents@);
    RoomAgentsSection::Listed(positions)
}

fn copy_text(o: &Option<String>) -> (r: Option<String>)
    ensures
        r == *o,
{
    match o {
        Some(s) => Some(s.clone()),
        None => None,
    }
}

/// An agent that the lookup for a purpose found, with where it is
/// configured for that purpose.
pub struct FoundAgent<S> {
    /// Its identifier.
    pub identifier: PublicIdentifier,
    /// Where it is configured.
    pub configuration_source: S,
}

/// The status report's line for the agent in effect for a purpose.
#[derive(Debug, PartialEq)]
pub enum EffectiveAgentLine<S> {
    /// This agent, configured there.
    Agent(PublicIdentifier, S),
    /// Looking the agent up failed; the line says so.
    LookupFailed,
}

/// The line for the agent in effect, from what the lookup found (`None` when
/// it failed).
pub open spec fn effective_agent_line<S>(found: Option<FoundAgent<S>>) -> EffectiveAgentLine<S> {
    match found {
        Some(a) => EffectiveAgentLine::Agent(a.identifier, a.configuration_source),
        None => EffectiveAgentLine::LookupFailed,
    }
}

/// The line for the agent in effect for a purpose.
pub fn generate_effective_agent_line<S>(found: Option<FoundAgent<S>>) -> (r: EffectiveAgentLine<S>)
    ensures
        r == effective_agent_line(found),
{
    match found {
        Some(a) => EffectiveAgentLine::Agent(a.identifier, a.configuration_source),
        None => EffectiveAgentLine::LookupFailed,
    }
}

/// The image-generation part of the status report: the line for the
/// image-generation agent in effect.
pub fn generate_image_generation_section<S>(found: Option<FoundAgent<S>>) -> (r: EffectiveAgentLine<S>)
    ensures
        r == effective_agent_line(found),
{
    generate_effective_agent_line(found)
}

/// A text-generation agent that the lookup found, with the prompt and the
/// temperature of its own configuration.
pub struct TextGenerationAgent<S> {
    /// The agent.
    pub agent: FoundAgent<S>,
    /// Its prompt, if it has one.
    pub prompt: Option<String>,
    /// Its temperature, as number text, if it has one.
    pub temperature: Option<String>,
}

/// The agent part of what the lookup found, if anything.
pub open spec fn found_of<S, A>(found: Option<A>, part: spec_fn(A) -> FoundAgent<S>) -> Option<FoundAgent<S>> {
    match found {
        Some(a) => Some(part(a)),
        None => None,
    }
}

/// A value that the agent found (if any) holds.
pub open spec fn agent_value<A, T>(found: Option<A>, value: spec_fn(A) -> Option<T>) -> Option<T> {
    match found {
        Some(a) => value(a),
        None => None,
    }
}

/// The text-generation part of the status report.
pub struct TextGenerationStatus<S> {
    /// The line for the text-generation agent in effect.
    pub effective_agent: EffectiveAgentLine<S>,
    /// The prefix requirement in effect.
    pub prefix_requirement_type: TextGenerationPrefixRequirementType,
    /// The automatic usage in effect.
    pub auto_usage: TextGenerationAutoUsage,
    /// Whether context management is in effect.
    pub context_management_enabled: bool,
    /// Where the prefix requirement comes from.
    pub prefix_requirement_type_source: SettingSource,
    /// Where the automatic usage comes from.
    pub auto_usage_source: SettingSource,
    /// Where the context-management switch comes from.
    pub context_management_source: SettingSource,
    /// The prompt in effect (empty when there is none).
    pub prompt: String,
    /// Where the prompt comes from.
    pub prompt_source: SettingSource,
    /// The temperature in effect, as number text, if any.
    pub temperature: Option<String>,
    /// Where the temperature comes from.
    pub temperature_source: SettingSource,
}

/// The text-generation part of the status report, from the room's and the
/// global settings, the built-in defaults, and the text-generation agent that
/// the lookup found (`None` when it failed), with its prompt and its
/// temperature.
pub fn generate_text_generation_section<S>(
    room: &TextGenerationSettings,
    global: &TextGenerationSettings,
    defaults: &TextGenerationDefaults,
    agent: Option<TextGenerationAgent<S>>,
) -> (r: TextGenerationStatus<S>)
    ensures
        r.prefix_requirement_type == effective_value(
            room.prefix_requirement_type,
            global.prefix_requirement_type,
            defaults.prefix_requirement_type,
        ),
        r.auto_usage == effective_value(room.auto_usage, global.auto_usage, defaults.auto_usage),
        r.context_management_enabled == effective_value(
            room.context_management_enabled,
            global.context_management_enabled,
            defaults.context_management_enabled,
        ),
        stored_at(
            r.prefix_requirement_type_source,
            room.prefix_requirement_type,
            global.prefix_requirement_type,
            None,
            Some(defaults.prefix_requirement_type),
            Some(r.prefix_requirement_type),
        ),
        stored_at(
            r.auto_usage_source,
            room.auto_usage,
            global.auto_usage,
            None,
            Some(defaults.auto_usage),
            Some(r.auto_usage),
        ),
        stored_at(
            r.context_management_source,
            room.context_management_enabled,
            global.context_management_enabled,
            None,
            Some(defaults.context_management_enabled),
            Some(r.context_management_enabled),
        ),
        stored_at(
            r.prompt_source,
            text::opt_view(room.prompt_override),
            text::opt_view(global.prompt_override),
            Some(
                match text::opt_view(agent_value(agent, |a: TextGenerationAgent<S>| a.prompt)) {
                    Some(p) => p,
                    None => Seq::<char>::empty(),
                },
            ),
            None,
            Some(r.prompt@),
        ),
        stored_at(
            r.temperature_source,
            room.temperature_override,
            global.temperature_override,
            agent_value(agent, |a: TextGenerationAgent<S>| a.temperature),
            None,
            r.temperature,
        ),
        r.effective_agent == effective_agent_line(
            found_of(agent, |a: TextGenerationAgent<S>| a.agent),
        ),
        r.prefix_requirement_type_source == set_where(
            room.prefix_requirement_type is Some,
            global.prefix_requirement_type is Some,
        ),
        r.auto_usage_source == set_where(room.auto_usage is Some, global.auto_usage is Some),
        r.context_management_source == set_where(
            room.context_management_enabled is Some,
            global.context_management_enabled is Some,
        ),
        ({
            let (v, source) = override_or_agent_value(
                text::opt_view(room.prompt_override),
                text::opt_view(global.prompt_override),
                text::opt_view(agent_value(agent, |a: TextGenerationAgent<S>| a.prompt)),
            );
            &&& r.prompt_source == source
            &&& r.prompt@ == match v {
                Some(p) => p,
                None => Seq::<char>::empty(),
            }
        }),
        (r.temperature, r.temperature_source) == override_or_agent_value(
            room.temperature_override,
            global.temperature_override,
            agent_value(agent, |a: TextGenerationAgent<S>| a.temperature),
        ),
{
    let (effective_agent, agent_prompt, agent_temperature) = match agent {
        Some(a) => (
            EffectiveAgentLine::Agent(a.agent.identifier, a.agent.configuration_source),
            a.prompt,
            a.temperature,
        ),
        None => (EffectiveAgentLine::LookupFailed, None, None),
    };
    let (prompt, prompt_source) = prompt_status(
        copy_text(&room.prompt_override),
        copy_text(&global.prompt_override),
        agent_prompt,
    );
    let (temperature, temperature_source) = override_or_agent(
        copy_text(&room.temperature_override),
        copy_text(&global.temperature_override),
        agent_temperature,
    );
    TextGenerationStatus {
        effective_agent,
        prefix_requirement_type: effective_setting(
            room.prefix_requirement_type,
            global.prefix_requirement_type,
            defaults.prefix_requirement_type,
        ),
        auto_usage: effective_setting(room.auto_usage, global.auto_usage, defaults.auto_usage),
        context_management_enabled: effective_setting(
            room.context_management_enabled,
            global.context_management_enabled,
            defaults.context_management_enabled,
        ),
        prefix_requirement_type_source: setting_source(
            &room.prefix_requirement_type,
            &global.prefix_requirement_type,
        ),
        auto_usage_source: setting_source(&room.auto_usage, &global.auto_usage),
        context_management_source: setting_source(
            &room.context_management_enabled,
            &global.context_management_enabled,
        ),
        prompt,
        prompt_source,
        temperature,
        temperature_source,
    }
}

/// The speech-to-text part of the status report: each setting in effect and
/// where it comes from.
pub struct SpeechToTextStatus<S> {
    /// The line for the speech-to-text agent in effect.
    pub effective_agent: EffectiveAgentLine<S>,
    /// The flow type in effect.
    pub flow_type: SpeechToTextFlowType,
    /// The message type of transcriptions outside threads in effect.
    pub msg_type_for_non_threaded_only_transcribed_messages:
        SpeechToTextMessageTypeForNonThreadedOnlyTranscribedMessages,
    /// The language in effect, if any.
    pub language: Option<String>,
    /// Where the flow type comes from.
    pub flow_type_source: SettingSource,
    /// Where the message type of transcriptions outside threads comes from.
    pub msg_type_for_non_threaded_only_transcribed_messages_source: SettingSource,
    /// Where the language comes from.
    pub language_source: SettingSource,
}

/// The speech-to-text part of the status report, from the room's and the
/// global settings, the built-in defaults, and the speech-to-text agent that
/// the lookup found (`None` when it failed).
pub fn generate_speech_to_text_section<S>(
    room: &SpeechToTextSettings,
    global: &SpeechToTextSettings,
    defaults: &SpeechToTextDefaults,
    agent: Option<FoundAgent<S>>,
) -> (r: SpeechToTextStatus<S>)
    ensures
        r.flow_type == effective_value(room.flow_type, global.flow_type, defaults.flow_type),
        r.msg_type_for_non_threaded_only_transcribed_messages == effective_value(
            room.msg_type_for_non_threaded_only_transcribed_messages,
            global.msg_type_for_non_threaded_only_transcribed_messages,
            defaults.msg_type_for_non_threaded_only_transcribed_messages,
        ),
        r.language == first_set(room.language, global.language),
        room.language is Some ==> r.language == room.language,
        room.language is None ==> r.language == global.language,
        stored_at(
            r.flow_type_source,
            room.flow_type,
            global.flow_type,
            None,
            Some(defaults.flow_type),
            Some(r.flow_type),
        ),
        stored_at(
            r.msg_type_for_non_threaded_only_transcribed_messages_source,
            room.msg_type_for_non_threaded_only_transcribed_messages,
            global.msg_type_for_non_threaded_only_transcribed_messages,
            None,
            Some(defaults.msg_type_for_non_threaded_only_transcribed_messages),
            Some(r.msg_type_for_non_threaded_only_transcribed_messages),
        ),
        stored_at(r.language_source, room.language, global.language, None, None, r.language),
        r.effective_agent == effective_agent_line(agent),
        r.flow_type_source == set_where(room.flow_type is Some, global.flow_type is Some),
        r.msg_type_for_non_threaded_only_transcribed_messages_source == set_where(
            room.msg_type_for_non_threaded_only_transcribed_messages is Some,
            global.msg_type_for_non_threaded_only_transcribed_messages is Some,
        ),
        r.language_source == set_where(room.language is Some, global.language is Some),
{
    let language = match &room.language {
        Some(l) => Some(l.clone()),
        None => copy_text(&global.language),
    };
    SpeechToTextStatus {
        effective_agent: generate_effective_agent_line(agent),
        flow_type: effective_setting(room.flow_type, global.flow_type, defaults.flow_type),
        msg_type_for_non_threaded_only_transcribed_messages: effective_setting(
            room.msg_type_for_non_threaded_only_transcribed_messages,
            global.msg_type_for_non_threaded_only_transcribed_messages,
            defaults.msg_type_for_non_threaded_only_transcribed_messages,
        ),
        language,
        flow_type_source: setting_source(&room.flow_type, &global.flow_type),
        msg_type_for_non_threaded_only_transcribed_messages_source: setting_source(
            &room.msg_type_for_non_threaded_only_transcribed_messages,
            &global.msg_type_for_non_threaded_only_transcribed_messages,
        ),
        language_source: setting_source(&room.language, &global.language),
    }
}

/// The text-to-speech part of the status report.
pub struct TextToSpeechStatus<S> {
    /// The line for the text-to-speech agent in effect.
    pub effective_agent: EffectiveAgentLine<S>,
    /// The flow type for the bot's messages in effect.
    pub bot_msgs_flow_type: TextToSpeechBotMessagesFlowType,
    /// The flow type for users' messages in effect.
    pub user_msgs_flow_type: TextToSpeechUserMessagesFlowType,
    /// Where the flow type for the bot's messages comes from.
    pub bot_msgs_flow_type_source: SettingSource,
    /// Where the flow type for users' messages comes from.
    pub user_msgs_flow_type_source: SettingSource,
    /// The speed in effect, as number text, if any.
    pub speed: Option<String>,
    /// Where the speed comes from.
    pub speed_source: SettingSource,
    /// The voice in effect, if any.
    pub voice: Option<String>,
    /// Where the voice comes from.
    pub voice_source: SettingSource,
}

/// A text-to-speech agent that the lookup found, with the speed and the voice
/// of its own configuration.
pub struct TextToSpeechAgent<S> {
    /// The agent.
    pub agent: FoundAgent<S>,
    /// Its speed, as number text, if it has one.
    pub speed: Option<String>,
    /// Its voice, if it has one.
    pub voice: Option<String>,
}

/// The text-to-speech part of the status report, from the room's and the
/// global settings, the built-in defaults, and the text-to-speech agent that
/// the lookup found (`None` when it failed), with its speed and its voice.
pub fn generate_text_to_speech_section<S>(
    room: &TextToSpeechSettings,
    global: &TextToSpeechSettings,
    defaults: &TextToSpeechDefaults,
    agent: Option<TextToSpeechAgent<S>>,
) -> (r: TextToSpeechStatus<S>)
    ensures
        r.bot_msgs_flow_type == effective_value(
            room.bot_msgs_flow_type,
            global.bot_msgs_flow_type,
            defaults.bot_msgs_flow_type,
        ),
        r.user_msgs_flow_type == effective_value(
            room.user_msgs_flow_type,
            global.user_msgs_flow_type,
            defaults.user_msgs_flow_type,
        ),
        stored_at(
            r.bot_msgs_flow_type_source,
            room.bot_msgs_flow_type,
            global.bot_msgs_flow_type,
            None,
            Some(defaults.bot_msgs_flow_type),
            Some(r.bot_msgs_flow_type),
        ),
        stored_at(
            r.user_msgs_flow_type_source,
            room.user_msgs_flow_type,
            global.user_msgs_flow_type,
            None,
            Some(defaults.user_msgs_flow_type),
            Some(r.user_msgs_flow_type),
        ),
        stored_at(
            r.speed_source,
            room.speed_override,
            global.speed_override,
            agent_value(agent, |a: TextToSpeechAgent<S>| a.speed),
            None,
            r.speed,
        ),
        stored_at(
            r.voice_source,
            room.voice_override,
            global.voice_override,
            agent_value(agent, |a: TextToSpeechAgent<S>| a.voice),
            None,
            r.voice,
        ),
        r.effective_agent == effective_agent_line(
            found_of(agent, |a: TextToSpeechAgent<S>| a.agent),
        ),
        r.bot_msgs_flow_type_source == set_where(
            room.bot_msgs_flow_type is Some,
            global.bot_msgs_flow_type is Some,
        ),
        r.user_msgs_flow_type_source == set_where(
            room.user_msgs_flow_type is Some,
            global.user_msgs_flow_type is Some,
        ),
        (r.speed, r.speed_source) == override_agent_or_default_value(
            room.speed_override,
            global.speed_override,
            agent_value(agent, |a: TextToSpeechAgent<S>| a.speed),
        ),
        (r.voice, r.voice_source) == override_agent_or_default_value(
            room.voice_override,
            global.voice_override,
            agent_value(agent, |a: TextToSpeechAgent<S>| a.voice),
        ),
{
    let (effective_agent, agent_speed, agent_voice) = match agent {
        Some(a) => (
            EffectiveAgentLine::Agent(a.agent.identifier, a.agent.configuration_source),
            a.speed,
            a.voice,
        ),
        None => (EffectiveAgentLine::LookupFailed, None, None),
    };
    let (speed, speed_source) = override_agent_or_default(
        copy_text(&room.speed_override),
        copy_text(&global.speed_override),
        agent_speed,
    );
    let (voice, voice_source) = override_agent_or_default(
        copy_text(&room.voice_override),
        copy_text(&global.voice_override),
        agent_voice,
    );
    TextToSpeechStatus {
        effective_agent,
        bot_msgs_flow_type: effective_setting(
            room.bot_msgs_flow_type,
            global.bot_msgs_flow_type,
            defaults.bot_msgs_flow_type,
        ),
        user_msgs_flow_type: effective_setting(
            room.user_msgs_flow_type,
            global.user_msgs_flow_type,
            defaults.user_msgs_flow_type,
        ),
        bot_msgs_flow_type_source: setting_source(
            &room.bot_msgs_flow_type,
            &global.bot_msgs_flow_type,
        ),
        user_msgs_flow_type_source: setting_source(
            &room.user_msgs_flow_type,
            &global.user_msgs_flow_type,
        ),
        speed,
        speed_source,
        voice,
        voice_source,
    }
}

} // verus!
