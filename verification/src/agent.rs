//! Agents as commands name them: the purposes an agent can serve and the
//! public identifiers (`static/ID`, `global/ID`, `room-local/ID`).
use vstd::prelude::*;

use crate::text;

verus! {

/// What an agent is used for in a room.
#[derive(Debug, Clone, Copy, PartialEq, Eq, Structural)]
pub enum AgentPurpose {
    /// Used for every purpose that has no agent of its own.
    CatchAll,
    /// Answering messages with generated text.
    TextGeneration,
    /// Turning voice messages into text.
    SpeechToText,
    /// Turning text into voice.
    TextToSpeech,
    /// Creating images.
    ImageGeneration,
}

impl AgentPurpose {
    /// The name of the purpose in commands.
    pub open spec fn text(self) -> Seq<char> {
        match self {
            AgentPurpose::CatchAll => "catch-all"@,
            AgentPurpose::TextGeneration => "text-generation"@,
            AgentPurpose::SpeechToText => "speech-to-text"@,
            AgentPurpose::TextToSpeech => "text-to-speech"@,
            AgentPurpose::ImageGeneration => "image-generation"@,
        }
    }

    /// The purpose that a name stands for, if any.
    pub open spec fn parse(s: Seq<char>) -> Option<AgentPurpose> {
        if s == "catch-all"@ {
            Some(AgentPurpose::CatchAll)
        } else if s == "text-generation"@ {
            Some(AgentPurpose::TextGeneration)
        } else if s == "speech-to-text"@ {
            Some(AgentPurpose::SpeechToText)
        } else if s == "text-to-speech"@ {
            Some(AgentPurpose::TextToSpeech)
        } else if s == "image-generation"@ {
            Some(AgentPurpose::ImageGeneration)
        } else {
            None
        }
    }

    /// All purposes, in the order in which they are listed to users.
    pub open spec fn all() -> Seq<AgentPurpose> {
        seq![
            AgentPurpose::CatchAll,
            AgentPurpose::TextGeneration,
            AgentPurpose::SpeechToText,
            AgentPurpose::TextToSpeech,
            AgentPurpose::ImageGeneration,
        ]
    }

    /// The name of the purpose.
    pub fn as_str(&self) -> (r: &'static str)
        ensures
            r@ == self.text(),
    {
        match self {
            AgentPurpose::CatchAll => "catch-all",
            AgentPurpose::TextGeneration => "text-generation",
            AgentPurpose::SpeechToText => "speech-to-text",
            AgentPurpose::TextToSpeech => "text-to-speech",
            AgentPurpose::ImageGeneration => "image-generation",
        }
    }

    /// The purpose named exactly by `s`.
    pub fn from_str(s: &str) -> (r: Option<AgentPurpose>)
        ensures
            r == AgentPurpose::parse(s@),
    {
        if text::equals(s, "catch-all") {
            Some(AgentPurpose::CatchAll)
        } else if text::equals(s, "text-generation") {
            Some(AgentPurpose::TextGeneration)
        } else if text::equals(s, "speech-to-text") {
            Some(AgentPurpose::SpeechToText)
        } else if text::equals(s, "text-to-speech") {
            Some(AgentPurpose::TextToSpeech)
        } else if text::equals(s, "image-generation") {
            Some(AgentPurpose::ImageGeneration)
        } else {
            None
        }
    }

    /// All purposes.
    pub fn choices() -> (r: Vec<AgentPurpose>)
        ensures
            r@ == AgentPurpose::all(),
    {
        vec![
            AgentPurpose::CatchAll,
            AgentPurpose::TextGeneration,
            AgentPurpose::SpeechToText,
            AgentPurpose::TextToSpeech,
            AgentPurpose::ImageGeneration,
        ]
    }

    /// The name of every purpose parses back to it, every purpose is listed,
    /// and no name holds a space or a slash.
    pub proof fn lemma_names(self)
        ensures
            AgentPurpose::parse(self.text()) == Some(self),
            AgentPurpose::all().contains(self),
            !self.text().contains(' '),
            self.text().len() > 0,
    {
        reveal_strlit("catch-all");
        reveal_strlit("text-generation");
        reveal_strlit("speech-to-text");
        reveal_strlit("text-to-speech");
        reveal_strlit("image-generation");
        assert("catch-all"@.len() == 9);
        assert("text-generation"@.len() == 15);
        assert("speech-to-text"@.len() == 14);
        assert("text-to-speech"@.len() == 14);
        assert("image-generation"@.len() == 16);
        assert("speech-to-text"@[0] != "text-to-speech"@[0]);
        match self {
            AgentPurpose::CatchAll => {
                assert(AgentPurpose::all()[0] == self);
            },
            AgentPurpose::TextGeneration => {
                assert(AgentPurpose::all()[1] == self);
            },
            AgentPurpose::SpeechToText => {
                assert(AgentPurpose::all()[2] == self);
            },
            AgentPurpose::TextToSpeech => {
                assert(AgentPurpose::all()[3] == self);
            },
            AgentPurpose::ImageGeneration => {
                assert(AgentPurpose::all()[4] == self);
            },
        }
    }
}

/// How an agent is named in commands: its kind followed by `/` and its id.
#[derive(Debug, Clone, PartialEq, Eq)]
pub enum PublicIdentifier {
    /// An agent defined in the bot's static configuration (`static/ID`).
    Static(String),
    /// An agent stored in the global configuration (`global/ID`).
    DynamicGlobal(String),
    /// An agent stored in a room's configuration (`room-local/ID`).
    DynamicRoomLocal(String),
}

/// The identifier's kind and id, as characters.
pub enum IdentifierView {
    Static(Seq<char>),
    DynamicGlobal(Seq<char>),
    DynamicRoomLocal(Seq<char>),
}

impl IdentifierView {
    /// The id without its kind.
    pub open spec fn id(self) -> Seq<char> {
        match self {
            IdentifierView::Static(id) => id,
            IdentifierView::DynamicGlobal(id) => id,
            IdentifierView::DynamicRoomLocal(id) => id,
        }
    }

    /// The name of the kind, written before the slash.
    pub open spec fn kind_text(self) -> Seq<char> {
        match self {
            IdentifierView::Static(_) => "static"@,
            IdentifierView::DynamicGlobal(_) => "global"@,
            IdentifierView::DynamicRoomLocal(_) => "room-local"@,
        }
    }

    /// The full identifier: kind, slash, id.
    pub open spec fn text(self) -> Seq<char> {
        self.kind_text() + "/"@ + self.id()
    }

    /// The identifier that a text names: the part before the first slash gives
    /// the kind and must be one of the three names; the rest is the id.
    pub open spec fn parse(s: Seq<char>) -> Option<IdentifierView> {
        match text::split_at_first(s, '/') {
            Some((kind, id)) => {
                if kind == "static"@ {
                    Some(IdentifierView::Static(id))
                } else if kind == "global"@ {
                    Some(IdentifierView::DynamicGlobal(id))
                } else if kind == "room-local"@ {
                    Some(IdentifierView::DynamicRoomLocal(id))
                } else {
                    None
                }
            },
            None => None,
        }
    }
}

impl View for PublicIdentifier {
    type V = IdentifierView;

    open spec fn view(&self) -> IdentifierView {
        match self {
            PublicIdentifier::Static(id) => IdentifierView::Static(id@),
            PublicIdentifier::DynamicGlobal(id) => IdentifierView::DynamicGlobal(id@),
            PublicIdentifier::DynamicRoomLocal(id) => IdentifierView::DynamicRoomLocal(id@),
        }
    }
}

/// Whether an optional identifier holds what an optional view describes.
pub open spec fn same_identifier(a: Option<PublicIdentifier>, b: Option<IdentifierView>) -> bool {
    match (a, b) {
        (Some(x), Some(y)) => x@ == y,
        (None, None) => true,
        _ => false,
    }
}

impl PublicIdentifier {
    /// The identifier written as `KIND/ID`, if `s` is one.
    pub fn from_str(s: &str) -> (r: Option<PublicIdentifier>)
        ensures
            same_identifier(r, IdentifierView::parse(s@)),
    {
        match text::split_once_char(s, '/') {
            Some((kind, id)) => {
                if text::equals(kind, "static") {
                    Some(PublicIdentifier::Static(id.to_owned()))
                } else if text::equals(kind, "global") {
                    Some(PublicIdentifier::DynamicGlobal(id.to_owned()))
                } else if text::equals(kind, "room-local") {
                    Some(PublicIdentifier::DynamicRoomLocal(id.to_owned()))
                } else {
                    None
                }
            },
            None => None,
        }
    }

    /// The id without its kind.
    pub fn prefixless(&self) -> (r: String)
        ensures
            r@ == self@.id(),
    {
        match self {
            PublicIdentifier::Static(id) => id.clone(),
            PublicIdentifier::DynamicGlobal(id) => id.clone(),
            PublicIdentifier::DynamicRoomLocal(id) => id.clone(),
        }
    }

    /// Whether two identifiers name the same agent (`==`).
    pub fn is_same(&self, other: &PublicIdentifier) -> (r: bool)
        ensures
            r == (self@ == other@),
    {
        match (self, other) {
            (PublicIdentifier::Static(a), PublicIdentifier::Static(b)) => text::equals(a, b),
            (PublicIdentifier::DynamicGlobal(a), PublicIdentifier::DynamicGlobal(b)) => text::equals(
                a,
                b,
            ),
            (PublicIdentifier::DynamicRoomLocal(a), PublicIdentifier::DynamicRoomLocal(b)) => {
                text::equals(a, b)
            },
            _ => false,
        }
    }

    /// The full identifier, `KIND/ID`.
    pub fn as_string(&self) -> (r: String)
        ensures
            r@ == self@.text(),
    {
        let kind = match self {
            PublicIdentifier::Static(_) => "static",
            PublicIdentifier::DynamicGlobal(_) => "global",
            PublicIdentifier::DynamicRoomLocal(_) => "room-local",
        };
        let with_slash = text::concat(kind, "/");
        let id = self.prefixless();
        text::concat(with_slash.as_str(), id.as_str())
    }
}

/// Whether an agent with the identifier `id` is among `agents`.
pub open spec fn has_agent(agents: Seq<PublicIdentifier>, id: IdentifierView) -> bool {
    exists|i: int| 0 <= i < agents.len() && (#[trigger] agents[i])@ == id
}

/// Whether an agent with the identifier `id` is among `agents`.
pub fn contains_agent(agents: &Vec<PublicIdentifier>, id: &PublicIdentifier) -> (r: bool)
    ensures
        r == has_agent(agents@, id@),
{
    let mut i: usize = 0;
    while i < agents.len()
        invariant
            i <= agents.len(),
            forall|j: int| 0 <= j < i ==> (#[trigger] agents@[j])@ != id@,
        decreases agents.len() - i,
    {
        if agents[i].is_same(id) {
            return true;
        }
        i = i + 1;
    }
    false
}

/// An agent as a configuration stores it.
pub struct AgentDefinition {
    /// The id, without its kind.
    pub id: String,
    /// The name of the provider that serves the agent.
    pub provider: String,
    /// The provider-specific configuration.
    pub config: serde_yaml::Value,
}

/// The definitions that remain when those with the id `id` are removed, in
/// their order.
pub open spec fn kept_agents(s: Seq<AgentDefinition>, id: Seq<char>) -> Seq<AgentDefinition>
    decreases s.len(),
{
    if s.len() == 0 {
        Seq::empty()
    } else if s.last().id@ == id {
        kept_agents(s.drop_last(), id)
    } else {
        kept_agents(s.drop_last(), id).push(s.last())
    }
}

/// Whether a definition with the id `id` is among `s`.
pub open spec fn has_definition(s: Seq<AgentDefinition>, id: Seq<char>) -> bool {
    exists|i: int| 0 <= i < s.len() && (#[trigger] s[i]).id@ == id
}

/// Deleting an id that no definition has leaves the definitions as they are.
pub proof fn lemma_deleting_absent_id_changes_nothing(s: Seq<AgentDefinition>, id: Seq<char>)
    requires
        !has_definition(s, id),
    ensures
        kept_agents(s, id) == s,
    decreases s.len(),
{
    if s.len() > 0 {
        let init = s.drop_last();
        assert(!has_definition(init, id)) by {
            if has_definition(init, id) {
                let i = choose|i: int| 0 <= i < init.len() && (#[trigger] init[i]).id@ == id;
                assert(s[i] == init[i]);
            }
        }
        lemma_deleting_absent_id_changes_nothing(init, id);
        assert(s.last().id@ != id) by {
            assert(s[s.len() - 1] == s.last());
        }
        assert(init.push(s.last()) =~= s);
    }
}

/// Removes every definition with the id `agent_id_prefixless`, keeping the
/// others in order, and tells whether any was removed.
pub fn remove_agent_definitions(agents: Vec<AgentDefinition>, agent_id_prefixless: &str) -> (r: (
    Vec<AgentDefinition>,
    bool,
))
    ensures
        r.0@ == kept_agents(agents@, agent_id_prefixless@),
        r.1 == has_definition(agents@, agent_id_prefixless@),
{
    let ghost all = agents@;
    let mut rest = agents;
    let mut kept: Vec<AgentDefinition> = Vec::new();
    let mut was_deleted = false;
    let n = rest.len();
    let mut i: usize = 0;
    while i < n
        invariant
            n == all.len(),
            i <= n,
            rest@ == all.skip(i as int),
            kept@ == kept_agents(all.take(i as int), agent_id_prefixless@),
            was_deleted == exists|j: int| 0 <= j < i && (#[trigger] all[j]).id@ == agent_id_prefixless@,
        decreases n - i,
    {
        let agent = rest.remove(0);
        proof {
            assert(agent == all[i as int]);
            assert(all.take(i + 1).drop_last() =~= all.take(i as int));
            assert(all.take(i + 1).last() == all[i as int]);
            assert(rest@ =~= all.skip(i + 1));
        }
        if text::equals(agent.id.as_str(), agent_id_prefixless) {
            was_deleted = true;
        } else {
            kept.push(agent);
        }
        i = i + 1;
    }
    assert(all.take(n as int) =~= all);
    (kept, was_deleted)
}

/// Deleting an agent leaves no definition with its id, and keeps every
/// definition with another id.
pub proof fn lemma_deleted_agent_is_gone(s: Seq<AgentDefinition>, id: Seq<char>)
    ensures
        forall|j: int|
            0 <= j < kept_agents(s, id).len() ==> (#[trigger] kept_agents(s, id)[j]).id@ != id,
        forall|i: int| 0 <= i < s.len() && s[i].id@ != id ==> kept_agents(s, id).contains(#[trigger] s[i]),
    decreases s.len(),
{
    if s.len() > 0 {
        let init = s.drop_last();
        lemma_deleted_agent_is_gone(init, id);
        let k0 = kept_agents(init, id);
        let k = kept_agents(s, id);
        assert forall|j: int| 0 <= j < k.len() implies (#[trigger] k[j]).id@ != id by {
            if j < k0.len() {
                assert(k[j] == k0[j]);
            }
        }
        assert forall|i: int| 0 <= i < s.len() && s[i].id@ != id implies k.contains(#[trigger] s[i]) by {
            if i < s.len() - 1 {
                assert(s[i] == init[i]);
                let m = choose|m: int| 0 <= m < k0.len() && k0[m] == init[i];
                assert(k[m] == k0[m]);
            } else {
                assert(k[k.len() - 1] == s[i]);
            }
        }
    }
}

/// Writing an identifier out and reading it back gives the same identifier,
/// whatever its id holds (slashes included).
pub proof fn lemma_identifier_text_parses(v: IdentifierView)
    ensures
        IdentifierView::parse(v.text()) == Some(v),
{
    reveal_strlit("static");
    reveal_strlit("global");
    reveal_strlit("room-local");
    reveal_strlit("/");
    assert("static"@.len() == 6);
    assert("global"@.len() == 6);
    assert("room-local"@.len() == 10);
    assert("static"@[0] != "global"@[0]);
    let k = v.kind_text();
    let s = v.text();
    assert(!k.contains('/'));
    assert(s[k.len() as int] == '/');
    s.index_of_first_ensures('/');
    let i = s.index_of_first('/').unwrap();
    if i < k.len() {
        assert(s[i] == k[i]);
    }
    assert(i == k.len());
    assert(s.take(i) =~= k);
    assert(s.skip(i + 1) =~= v.id());
}

/// An identifier read from a text writes back out as that same text.
pub proof fn lemma_identifier_parse_text(s: Seq<char>)
    requires
        IdentifierView::parse(s) is Some,
    ensures
        IdentifierView::parse(s).unwrap().text() == s,
{
    reveal_strlit("/");
    s.index_of_first_ensures('/');
    let i = s.index_of_first('/').unwrap();
    assert(s =~= s.take(i) + "/"@ + s.skip(i + 1));
}

} // verus!
