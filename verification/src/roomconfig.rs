//! The values that room and global settings take, with their textual names.
//!
//! Each setting type knows the name under which it is written in commands
//! (`as_str`), parses such a name back (`from_str`) and lists all its values
//! (`choices`). The laws below state that these agree with each other.
use vstd::prelude::*;

use crate::agent::AgentPurpose;
use crate::text;

verus! {

/// Whether text generation in a room needs the command prefix in front of a message.
#[derive(Debug, Clone, Copy, PartialEq, Eq, Structural)]
pub enum TextGenerationPrefixRequirementType {
    /// Every message in the room is answered.
    No,
    /// Only messages that begin with the command prefix are answered.
    CommandPrefix,
}

impl TextGenerationPrefixRequirementType {
    /// The name of the value in commands and messages.
    pub open spec fn text(self) -> Seq<char> {
        match self {
            TextGenerationPrefixRequirementType::No => "no"@,
            TextGenerationPrefixRequirementType::CommandPrefix => "command_prefix"@,
        }
    }

    /// The value that a name stands for, if any.
    pub open spec fn parse(s: Seq<char>) -> Option<Self> {
        if s == "no"@ {
            Some(TextGenerationPrefixRequirementType::No)
        } else if s == "command_prefix"@ {
            Some(TextGenerationPrefixRequirementType::CommandPrefix)
        } else {
            None
        }
    }

    /// All values, in the order in which they are listed to users.
    pub open spec fn all() -> Seq<Self> {
        seq![TextGenerationPrefixRequirementType::No, TextGenerationPrefixRequirementType::CommandPrefix]
    }

    /// The name of the value.
    pub fn as_str(&self) -> (r: &'static str)
        ensures
            r@ == self.text(),
    {
        match self {
            TextGenerationPrefixRequirementType::No => "no",
            TextGenerationPrefixRequirementType::CommandPrefix => "command_prefix",
        }
    }

    /// The value named by `s`; names are matched exactly (callers lower-case first).
    pub fn from_str(s: &str) -> (r: Option<Self>)
        ensures
            r == Self::parse(s@),
    {
        if crate::text::equals(s, "no") {
            Some(TextGenerationPrefixRequirementType::No)
        } else if crate::text::equals(s, "command_prefix") {
            Some(TextGenerationPrefixRequirementType::CommandPrefix)
        } else {
            None
        }
    }

    /// The names of all values, in the order in which they are listed.
    pub fn names() -> (r: Vec<String>)
        ensures
            crate::text::views(r@) == Self::all().map_values(|v: Self| v.text()),
    {
        let choices = Self::choices();
        let mut names: Vec<String> = Vec::new();
        let mut i: usize = 0;
        while i < choices.len()
            invariant
                i <= choices.len(),
                choices@ == Self::all(),
                names@.len() == i,
                forall|k: int| 0 <= k < i ==> #[trigger] names@[k]@ == Self::all()[k].text(),
            decreases choices.len() - i,
        {
            names.push(choices[i].as_str().to_owned());
            i = i + 1;
        }
        assert(crate::text::views(names@) =~= Self::all().map_values(|v: Self| v.text()));
        names
    }

    /// All values.
    pub fn choices() -> (r: Vec<Self>)
        ensures
            r@ == Self::all(),
    {
        vec![TextGenerationPrefixRequirementType::No, TextGenerationPrefixRequirementType::CommandPrefix]
    }

    /// The name of every value parses back to that value, every value is listed,
    /// and every name is a word of lower-case ASCII letters, `_` and `-`.
    pub proof fn lemma_names(self)
        ensures
            Self::parse(self.text()) == Some(self),
            Self::all().contains(self),
            crate::text::is_word(self.text()),
    {
        reveal_strlit("no");
        assert("no"@.len() == 2);
        reveal_strlit("command_prefix");
        assert("command_prefix"@.len() == 14);
        match self {
            TextGenerationPrefixRequirementType::No => {
                assert(Self::all()[0] == self);
            },
            TextGenerationPrefixRequirementType::CommandPrefix => {
                assert(Self::all()[1] == self);
            },
        }
    }
}

/// When text generation runs without being asked for explicitly.
#[derive(Debug, Clone, Copy, PartialEq, Eq, Structural)]
pub enum TextGenerationAutoUsage {
    /// Never.
    Never,
    /// For every message.
    Always,
    /// Only for voice messages.
    OnlyForVoice,
    /// Only for text messages.
    OnlyForText,
}

impl TextGenerationAutoUsage {
    /// The name of the value in commands and messages.
    pub open spec fn text(self) -> Seq<char> {
        match self {
            TextGenerationAutoUsage::Never => "never"@,
            TextGenerationAutoUsage::Always => "always"@,
            TextGenerationAutoUsage::OnlyForVoice => "only_for_voice"@,
            TextGenerationAutoUsage::OnlyForText => "only_for_text"@,
        }
    }

    /// The value that a name stands for, if any.
    pub open spec fn parse(s: Seq<char>) -> Option<Self> {
        if s == "never"@ {
            Some(TextGenerationAutoUsage::Never)
        } else if s == "always"@ {
            Some(TextGenerationAutoUsage::Always)
        } else if s == "only_for_voice"@ {
            Some(TextGenerationAutoUsage::OnlyForVoice)
        } else if s == "only_for_text"@ {
            Some(TextGenerationAutoUsage::OnlyForText)
        } else {
            None
        }
    }

    /// All values, in the order in which they are listed to users.
    pub open spec fn all() -> Seq<Self> {
        seq![TextGenerationAutoUsage::Never, TextGenerationAutoUsage::Always, TextGenerationAutoUsage::OnlyForVoice, TextGenerationAutoUsage::OnlyForText]
    }

    /// The name of the value.
    pub fn as_str(&self) -> (r: &'static str)
        ensures
            r@ == self.text(),
    {
        match self {
            TextGenerationAutoUsage::Never => "never",
            TextGenerationAutoUsage::Always => "always",
            TextGenerationAutoUsage::OnlyForVoice => "only_for_voice",
            TextGenerationAutoUsage::OnlyForText => "only_for_text",
        }
    }

    /// The value named by `s`; names are matched exactly (callers lower-case first).
    pub fn from_str(s: &str) -> (r: Option<Self>)
        ensures
            r == Self::parse(s@),
    {
        if crate::text::equals(s, "never") {
            Some(TextGenerationAutoUsage::Never)
        } else if crate::text::equals(s, "always") {
            Some(TextGenerationAutoUsage::Always)
        } else if crate::text::equals(s, "only_for_voice") {
            Some(TextGenerationAutoUsage::OnlyForVoice)
        } else if crate::text::equals(s, "only_for_text") {
            Some(TextGenerationAutoUsage::OnlyForText)
        } else {
            None
        }
    }

    /// The names of all values, in the order in which they are listed.
    pub fn names() -> (r: Vec<String>)
        ensures
            crate::text::views(r@) == Self::all().map_values(|v: Self| v.text()),
    {
        let choices = Self::choices();
        let mut names: Vec<String> = Vec::new();
        let mut i: usize = 0;
        while i < choices.len()
            invariant
                i <= choices.len(),
                choices@ == Self::all(),
                names@.len() == i,
                forall|k: int| 0 <= k < i ==> #[trigger] names@[k]@ == Self::all()[k].text(),
            decreases choices.len() - i,
        {
            names.push(choices[i].as_str().to_owned());
            i = i + 1;
        }
        assert(crate::text::views(names@) =~= Self::all().map_values(|v: Self| v.text()));
        names
    }

    /// All values.
    pub fn choices() -> (r: Vec<Self>)
        ensures
            r@ == Self::all(),
    {
        vec![TextGenerationAutoUsage::Never, TextGenerationAutoUsage::Always, TextGenerationAutoUsage::OnlyForVoice, TextGenerationAutoUsage::OnlyForText]
    }

    /// The name of every value parses back to that value, every value is listed,
    /// and every name is a word of lower-case ASCII letters, `_` and `-`.
    pub proof fn lemma_names(self)
        ensures
            Self::parse(self.text()) == Some(self),
            Self::all().contains(self),
            crate::text::is_word(self.text()),
    {
        reveal_strlit("never");
        assert("never"@.len() == 5);
        reveal_strlit("always");
        assert("always"@.len() == 6);
        reveal_strlit("only_for_voice");
        assert("only_for_voice"@.len() == 14);
        reveal_strlit("only_for_text");
        assert("only_for_text"@.len() == 13);
        match self {
            TextGenerationAutoUsage::Never => {
                assert(Self::all()[0] == self);
            },
            TextGenerationAutoUsage::Always => {
                assert(Self::all()[1] == self);
            },
            TextGenerationAutoUsage::OnlyForVoice => {
                assert(Self::all()[2] == self);
            },
            TextGenerationAutoUsage::OnlyForText => {
                assert(Self::all()[3] == self);
            },
        }
    }
}

/// What happens with voice messages.
#[derive(Debug, Clone, Copy, PartialEq, Eq, Structural)]
pub enum SpeechToTextFlowType {
    /// They are ignored.
    Ignore,
    /// They are transcribed and then answered.
    TranscribeAndGenerateText,
    /// They are only transcribed.
    OnlyTranscribe,
}

impl SpeechToTextFlowType {
    /// The name of the value in commands and messages.
    pub open spec fn text(self) -> Seq<char> {
        match self {
            SpeechToTextFlowType::Ignore => "ignore"@,
            SpeechToTextFlowType::TranscribeAndGenerateText => "transcribe_and_generate_text"@,
            SpeechToTextFlowType::OnlyTranscribe => "only_transcribe"@,
        }
    }

    /// The value that a name stands for, if any.
    pub open spec fn parse(s: Seq<char>) -> Option<Self> {
        if s == "ignore"@ {
            Some(SpeechToTextFlowType::Ignore)
        } else if s == "transcribe_and_generate_text"@ {
            Some(SpeechToTextFlowType::TranscribeAndGenerateText)
        } else if s == "only_transcribe"@ {
            Some(SpeechToTextFlowType::OnlyTranscribe)
        } else {
            None
        }
    }

    /// All values, in the order in which they are listed to users.
    pub open spec fn all() -> Seq<Self> {
        seq![SpeechToTextFlowType::Ignore, SpeechToTextFlowType::TranscribeAndGenerateText, SpeechToTextFlowType::OnlyTranscribe]
    }

    /// The name of the value.
    pub fn as_str(&self) -> (r: &'static str)
        ensures
            r@ == self.text(),
    {
        match self {
            SpeechToTextFlowType::Ignore => "ignore",
            SpeechToTextFlowType::TranscribeAndGenerateText => "transcribe_and_generate_text",
            SpeechToTextFlowType::OnlyTranscribe => "only_transcribe",
        }
    }

    /// The value named by `s`; names are matched exactly (callers lower-case first).
    pub fn from_str(s: &str) -> (r: Option<Self>)
        ensures
            r == Self::parse(s@),
    {
        if crate::text::equals(s, "ignore") {
            Some(SpeechToTextFlowType::Ignore)
        } else if crate::text::equals(s, "transcribe_and_generate_text") {
            Some(SpeechToTextFlowType::TranscribeAndGenerateText)
        } else if crate::text::equals(s, "only_transcribe") {
            Some(SpeechToTextFlowType::OnlyTranscribe)
        } else {
            None
        }
    }

    /// The names of all values, in the order in which they are listed.
    pub fn names() -> (r: Vec<String>)
        ensures
            crate::text::views(r@) == Self::all().map_values(|v: Self| v.text()),
    {
        let choices = Self::choices();
        let mut names: Vec<String> = Vec::new();
        let mut i: usize = 0;
        while i < choices.len()
            invariant
                i <= choices.len(),
                choices@ == Self::all(),
                names@.len() == i,
                forall|k: int| 0 <= k < i ==> #[trigger] names@[k]@ == Self::all()[k].text(),
            decreases choices.len() - i,
        {
            names.push(choices[i].as_str().to_owned());
            i = i + 1;
        }
        assert(crate::text::views(names@) =~= Self::all().map_values(|v: Self| v.text()));
        names
    }

    /// All values.
    pub fn choices() -> (r: Vec<Self>)
        ensures
            r@ == Self::all(),
    {
        vec![SpeechToTextFlowType::Ignore, SpeechToTextFlowType::TranscribeAndGenerateText, SpeechToTextFlowType::OnlyTranscribe]
    }

    /// The name of every value parses back to that value, every value is listed,
    /// and every name is a word of lower-case ASCII letters, `_` and `-`.
    pub proof fn lemma_names(self)
        ensures
            Self::parse(self.text()) == Some(self),
            Self::all().contains(self),
            crate::text::is_word(self.text()),
    {
        reveal_strlit("ignore");
        assert("ignore"@.len() == 6);
        reveal_strlit("transcribe_and_generate_text");
        assert("transcribe_and_generate_text"@.len() == 28);
        reveal_strlit("only_transcribe");
        assert("only_transcribe"@.len() == 15);
        match self {
            SpeechToTextFlowType::Ignore => {
                assert(Self::all()[0] == self);
            },
            SpeechToTextFlowType::TranscribeAndGenerateText => {
                assert(Self::all()[1] == self);
            },
            SpeechToTextFlowType::OnlyTranscribe => {
                assert(Self::all()[2] == self);
            },
        }
    }
}

/// The kind of message that a transcription outside of a thread is posted as.
#[derive(Debug, Clone, Copy, PartialEq, Eq, Structural)]
pub enum SpeechToTextMessageTypeForNonThreadedOnlyTranscribedMessages {
    /// A regular text message.
    Text,
    /// A notice.
    Notice,
}

impl SpeechToTextMessageTypeForNonThreadedOnlyTranscribedMessages {
    /// The name of the value in commands and messages.
    pub open spec fn text(self) -> Seq<char> {
        match self {
            SpeechToTextMessageTypeForNonThreadedOnlyTranscribedMessages::Text => "text"@,
            SpeechToTextMessageTypeForNonThreadedOnlyTranscribedMessages::Notice => "notice"@,
        }
    }

    /// The value that a name stands for, if any.
    pub open spec fn parse(s: Seq<char>) -> Option<Self> {
        if s == "text"@ {
            Some(SpeechToTextMessageTypeForNonThreadedOnlyTranscribedMessages::Text)
        } else if s == "notice"@ {
            Some(SpeechToTextMessageTypeForNonThreadedOnlyTranscribedMessages::Notice)
        } else {
            None
        }
    }

    /// All values, in the order in which they are listed to users.
    pub open spec fn all() -> Seq<Self> {
        seq![SpeechToTextMessageTypeForNonThreadedOnlyTranscribedMessages::Text, SpeechToTextMessageTypeForNonThreadedOnlyTranscribedMessages::Notice]
    }

    /// The name of the value.
    pub fn as_str(&self) -> (r: &'static str)
        ensures
            r@ == self.text(),
    {
        match self {
            SpeechToTextMessageTypeForNonThreadedOnlyTranscribedMessages::Text => "text",
            SpeechToTextMessageTypeForNonThreadedOnlyTranscribedMessages::Notice => "notice",
        }
    }

    /// The value named by `s`; names are matched exactly (callers lower-case first).
    pub fn from_str(s: &str) -> (r: Option<Self>)
        ensures
            r == Self::parse(s@),
    {
        if crate::text::equals(s, "text") {
            Some(SpeechToTextMessageTypeForNonThreadedOnlyTranscribedMessages::Text)
        } else if crate::text::equals(s, "notice") {
            Some(SpeechToTextMessageTypeForNonThreadedOnlyTranscribedMessages::Notice)
        } else {
            None
        }
    }

    /// The names of all values, in the order in which they are listed.
    pub fn names() -> (r: Vec<String>)
        ensures
            crate::text::views(r@) == Self::all().map_values(|v: Self| v.text()),
    {
        let choices = Self::choices();
        let mut names: Vec<String> = Vec::new();
        let mut i: usize = 0;
        while i < choices.len()
            invariant
                i <= choices.len(),
                choices@ == Self::all(),
                names@.len() == i,
                forall|k: int| 0 <= k < i ==> #[trigger] names@[k]@ == Self::all()[k].text(),
            decreases choices.len() - i,
        {
            names.push(choices[i].as_str().to_owned());
            i = i + 1;
        }
        assert(crate::text::views(names@) =~= Self::all().map_values(|v: Self| v.text()));
        names
    }

    /// All values.
    pub fn choices() -> (r: Vec<Self>)
        ensures
            r@ == Self::all(),
    {
        vec![SpeechToTextMessageTypeForNonThreadedOnlyTranscribedMessages::Text, SpeechToTextMessageTypeForNonThreadedOnlyTranscribedMessages::Notice]
    }

    /// The name of every value parses back to that value, every value is listed,
    /// and every name is a word of lower-case ASCII letters, `_` and `-`.
    pub proof fn lemma_names(self)
        ensures
            Self::parse(self.text()) == Some(self),
            Self::all().contains(self),
            crate::text::is_word(self.text()),
    {
        reveal_strlit("text");
        assert("text"@.len() == 4);
        reveal_strlit("notice");
        assert("notice"@.len() == 6);
        match self {
            SpeechToTextMessageTypeForNonThreadedOnlyTranscribedMessages::Text => {
                assert(Self::all()[0] == self);
            },
            SpeechToTextMessageTypeForNonThreadedOnlyTranscribedMessages::Notice => {
                assert(Self::all()[1] == self);
            },
        }
    }
}

/// When the bot's own messages are turned into speech.
#[derive(Debug, Clone, Copy, PartialEq, Eq, Structural)]
pub enum TextToSpeechBotMessagesFlowType {
    /// Never.
    Never,
    /// Offered for answers to voice messages.
    OnDemandForVoice,
    /// Offered for every answer.
    OnDemandAlways,
    /// Performed for answers to voice messages.
    OnlyForVoice,
    /// Performed for every answer.
    Always,
}

impl TextToSpeechBotMessagesFlowType {
    /// The name of the value in commands and messages.
    pub open spec fn text(self) -> Seq<char> {
        match self {
            TextToSpeechBotMessagesFlowType::Never => "never"@,
            TextToSpeechBotMessagesFlowType::OnDemandForVoice => "on_demand_for_voice"@,
            TextToSpeechBotMessagesFlowType::OnDemandAlways => "on_demand_always"@,
            TextToSpeechBotMessagesFlowType::OnlyForVoice => "only_for_voice"@,
            TextToSpeechBotMessagesFlowType::Always => "always"@,
        }
    }

    /// The value that a name stands for, if any.
    pub open spec fn parse(s: Seq<char>) -> Option<Self> {
        if s == "never"@ {
            Some(TextToSpeechBotMessagesFlowType::Never)
        } else if s == "on_demand_for_voice"@ {
            Some(TextToSpeechBotMessagesFlowType::OnDemandForVoice)
        } else if s == "on_demand_always"@ {
            Some(TextToSpeechBotMessagesFlowType::OnDemandAlways)
        } else if s == "only_for_voice"@ {
            Some(TextToSpeechBotMessagesFlowType::OnlyForVoice)
        } else if s == "always"@ {
            Some(TextToSpeechBotMessagesFlowType::Always)
        } else {
            None
        }
    }

    /// All values, in the order in which they are listed to users.
    pub open spec fn all() -> Seq<Self> {
        seq![TextToSpeechBotMessagesFlowType::Never, TextToSpeechBotMessagesFlowType::OnDemandForVoice, TextToSpeechBotMessagesFlowType::OnDemandAlways, TextToSpeechBotMessagesFlowType::OnlyForVoice, TextToSpeechBotMessagesFlowType::Always]
    }

    /// The name of the value.
    pub fn as_str(&self) -> (r: &'static str)
        ensures
            r@ == self.text(),
    {
        match self {
            TextToSpeechBotMessagesFlowType::Never => "never",
            TextToSpeechBotMessagesFlowType::OnDemandForVoice => "on_demand_for_voice",
            TextToSpeechBotMessagesFlowType::OnDemandAlways => "on_demand_always",
            TextToSpeechBotMessagesFlowType::OnlyForVoice => "only_for_voice",
            TextToSpeechBotMessagesFlowType::Always => "always",
        }
    }

    /// The value named by `s`; names are matched exactly (callers lower-case first).
    pub fn from_str(s: &str) -> (r: Option<Self>)
        ensures
            r == Self::parse(s@),
    {
        if crate::text::equals(s, "never") {
            Some(TextToSpeechBotMessagesFlowType::Never)
        } else if crate::text::equals(s, "on_demand_for_voice") {
            Some(TextToSpeechBotMessagesFlowType::OnDemandForVoice)
        } else if crate::text::equals(s, "on_demand_always") {
            Some(TextToSpeechBotMessagesFlowType::OnDemandAlways)
        } else if crate::text::equals(s, "only_for_voice") {
            Some(TextToSpeechBotMessagesFlowType::OnlyForVoice)
        } else if crate::text::equals(s, "always") {
            Some(TextToSpeechBotMessagesFlowType::Always)
        } else {
            None
        }
    }

    /// The names of all values, in the order in which they are listed.
    pub fn names() -> (r: Vec<String>)
        ensures
            crate::text::views(r@) == Self::all().map_values(|v: Self| v.text()),
    {
        let choices = Self::choices();
        let mut names: Vec<String> = Vec::new();
        let mut i: usize = 0;
        while i < choices.len()
            invariant
                i <= choices.len(),
                choices@ == Self::all(),
                names@.len() == i,
                forall|k: int| 0 <= k < i ==> #[trigger] names@[k]@ == Self::all()[k].text(),
            decreases choices.len() - i,
        {
            names.push(choices[i].as_str().to_owned());
            i = i + 1;
        }
        assert(crate::text::views(names@) =~= Self::all().map_values(|v: Self| v.text()));
        names
    }

    /// All values.
    pub fn choices() -> (r: Vec<Self>)
        ensures
            r@ == Self::all(),
    {
        vec![TextToSpeechBotMessagesFlowType::Never, TextToSpeechBotMessagesFlowType::OnDemandForVoice, TextToSpeechBotMessagesFlowType::OnDemandAlways, TextToSpeechBotMessagesFlowType::OnlyForVoice, TextToSpeechBotMessagesFlowType::Always]
    }

    /// The name of every value parses back to that value, every value is listed,
    /// and every name is a word of lower-case ASCII letters, `_` and `-`.
    pub proof fn lemma_names(self)
        ensures
            Self::parse(self.text()) == Some(self),
            Self::all().contains(self),
            crate::text::is_word(self.text()),
    {
        reveal_strlit("never");
        assert("never"@.len() == 5);
        reveal_strlit("on_demand_for_voice");
        assert("on_demand_for_voice"@.len() == 19);
        reveal_strlit("on_demand_always");
        assert("on_demand_always"@.len() == 16);
        reveal_strlit("only_for_voice");
        assert("only_for_voice"@.len() == 14);
        reveal_strlit("always");
        assert("always"@.len() == 6);
        match self {
            TextToSpeechBotMessagesFlowType::Never => {
                assert(Self::all()[0] == self);
            },
            TextToSpeechBotMessagesFlowType::OnDemandForVoice => {
                assert(Self::all()[1] == self);
            },
            TextToSpeechBotMessagesFlowType::OnDemandAlways => {
                assert(Self::all()[2] == self);
            },
            TextToSpeechBotMessagesFlowType::OnlyForVoice => {
                assert(Self::all()[3] == self);
            },
            TextToSpeechBotMessagesFlowType::Always => {
                assert(Self::all()[4] == self);
            },
        }
    }
}

/// When users' messages are turned into speech.
#[derive(Debug, Clone, Copy, PartialEq, Eq, Structural)]
pub enum TextToSpeechUserMessagesFlowType {
    /// Never.
    Never,
    /// Offered for every message.
    OnDemand,
    /// Performed for every message.
    Always,
}

impl TextToSpeechUserMessagesFlowType {
    /// The name of the value in commands and messages.
    pub open spec fn text(self) -> Seq<char> {
        match self {
            TextToSpeechUserMessagesFlowType::Never => "never"@,
            TextToSpeechUserMessagesFlowType::OnDemand => "on_demand"@,
            TextToSpeechUserMessagesFlowType::Always => "always"@,
        }
    }

    /// The value that a name stands for, if any.
    pub open spec fn parse(s: Seq<char>) -> Option<Self> {
        if s == "never"@ {
            Some(TextToSpeechUserMessagesFlowType::Never)
        } else if s == "on_demand"@ {
            Some(TextToSpeechUserMessagesFlowType::OnDemand)
        } else if s == "always"@ {
            Some(TextToSpeechUserMessagesFlowType::Always)
        } else {
            None
        }
    }

    /// All values, in the order in which they are listed to users.
    pub open spec fn all() -> Seq<Self> {
        seq![TextToSpeechUserMessagesFlowType::Never, TextToSpeechUserMessagesFlowType::OnDemand, TextToSpeechUserMessagesFlowType::Always]
    }

    /// The name of the value.
    pub fn as_str(&self) -> (r: &'static str)
        ensures
            r@ == self.text(),
    {
        match self {
            TextToSpeechUserMessagesFlowType::Never => "never",
            TextToSpeechUserMessagesFlowType::OnDemand => "on_demand",
            TextToSpeechUserMessagesFlowType::Always => "always",
        }
    }

    /// The value named by `s`; names are matched exactly (callers lower-case first).
    pub fn from_str(s: &str) -> (r: Option<Self>)
        ensures
            r == Self::parse(s@),
    {
        if crate::text::equals(s, "never") {
            Some(TextToSpeechUserMessagesFlowType::Never)
        } else if crate::text::equals(s, "on_demand") {
            Some(TextToSpeechUserMessagesFlowType::OnDemand)
        } else if crate::text::equals(s, "always") {
            Some(TextToSpeechUserMessagesFlowType::Always)
        } else {
            None
        }
    }

    /// The names of all values, in the order in which they are listed.
    pub fn names() -> (r: Vec<String>)
        ensures
            crate::text::views(r@) == Self::all().map_values(|v: Self| v.text()),
    {
        let choices = Self::choices();
        let mut names: Vec<String> = Vec::new();
        let mut i: usize = 0;
        while i < choices.len()
            invariant
                i <= choices.len(),
                choices@ == Self::all(),
                names@.len() == i,
                forall|k: int| 0 <= k < i ==> #[trigger] names@[k]@ == Self::all()[k].text(),
            decreases choices.len() - i,
        {
            names.push(choices[i].as_str().to_owned());
            i = i + 1;
        }
        assert(crate::text::views(names@) =~= Self::all().map_values(|v: Self| v.text()));
        names
    }

    /// All values.
    pub fn choices() -> (r: Vec<Self>)
        ensures
            r@ == Self::all(),
    {
        vec![TextToSpeechUserMessagesFlowType::Never, TextToSpeechUserMessagesFlowType::OnDemand, TextToSpeechUserMessagesFlowType::Always]
    }

    /// The name of every value parses back to that value, every value is listed,
    /// and every name is a word of lower-case ASCII letters, `_` and `-`.
    pub proof fn lemma_names(self)
        ensures
            Self::parse(self.text()) == Some(self),
            Self::all().contains(self),
            crate::text::is_word(self.text()),
    {
        reveal_strlit("never");
        assert("never"@.len() == 5);
        reveal_strlit("on_demand");
        assert("on_demand"@.len() == 9);
        reveal_strlit("always");
        assert("always"@.len() == 6);
        match self {
            TextToSpeechUserMessagesFlowType::Never => {
                assert(Self::all()[0] == self);
            },
            TextToSpeechUserMessagesFlowType::OnDemand => {
                assert(Self::all()[1] == self);
            },
            TextToSpeechUserMessagesFlowType::Always => {
                assert(Self::all()[2] == self);
            },
        }
    }
}

/// The text-generation settings that a room or the global configuration holds;
/// `None` leaves a setting to the next place that may set it.
pub struct TextGenerationSettings {
    /// Whether messages need the command prefix.
    pub prefix_requirement_type: Option<TextGenerationPrefixRequirementType>,
    /// When text generation runs by itself.
    pub auto_usage: Option<TextGenerationAutoUsage>,
    /// Whether long conversations are shortened to fit the model.
    pub context_management_enabled: Option<bool>,
    /// The prompt that replaces the agent's own.
    pub prompt_override: Option<String>,
    /// The temperature that replaces the agent's own, as the text of a
    /// floating-point number.
    pub temperature_override: Option<String>,
}

/// The speech-to-text settings that a room or the global configuration holds.
pub struct SpeechToTextSettings {
    /// What happens to voice messages.
    pub flow_type: Option<SpeechToTextFlowType>,
    /// The message type of a transcription sent outside a thread.
    pub msg_type_for_non_threaded_only_transcribed_messages: Option<
        SpeechToTextMessageTypeForNonThreadedOnlyTranscribedMessages,
    >,
    /// The language spoken in voice messages (a two-letter code).
    pub language: Option<String>,
}

/// The text-to-speech settings that a room or the global configuration holds.
pub struct TextToSpeechSettings {
    /// When the bot's own messages are turned into voice.
    pub bot_msgs_flow_type: Option<TextToSpeechBotMessagesFlowType>,
    /// When users' messages are turned into voice.
    pub user_msgs_flow_type: Option<TextToSpeechUserMessagesFlowType>,
    /// The speed that replaces the agent's own, as the text of a
    /// floating-point number.
    pub speed_override: Option<String>,
    /// The voice that replaces the agent's own.
    pub voice_override: Option<String>,
}

/// The agents that a configuration names for each purpose, each as the text
/// of a public identifier (`KIND/ID`).
pub struct RoomSettingsHandler {
    /// For every purpose that has no agent of its own.
    pub catch_all: Option<String>,
    /// For text generation.
    pub text_generation: Option<String>,
    /// For speech-to-text.
    pub speech_to_text: Option<String>,
    /// For text-to-speech.
    pub text_to_speech: Option<String>,
    /// For image generation.
    pub image_generation: Option<String>,
}

impl RoomSettingsHandler {
    /// The identifier text configured for a purpose.
    pub open spec fn by_purpose(self, purpose: AgentPurpose) -> Option<Seq<char>> {
        match purpose {
            AgentPurpose::CatchAll => text::opt_view(self.catch_all),
            AgentPurpose::TextGeneration => text::opt_view(self.text_generation),
            AgentPurpose::SpeechToText => text::opt_view(self.speech_to_text),
            AgentPurpose::TextToSpeech => text::opt_view(self.text_to_speech),
            AgentPurpose::ImageGeneration => text::opt_view(self.image_generation),
        }
    }

    /// The identifier text configured for a purpose, if any.
    pub fn get_by_purpose(&self, purpose: AgentPurpose) -> (r: Option<String>)
        ensures
            text::opt_view(r) == self.by_purpose(purpose),
    {
        let o = match purpose {
            AgentPurpose::CatchAll => &self.catch_all,
            AgentPurpose::TextGeneration => &self.text_generation,
            AgentPurpose::SpeechToText => &self.speech_to_text,
            AgentPurpose::TextToSpeech => &self.text_to_speech,
            AgentPurpose::ImageGeneration => &self.image_generation,
        };
        match o {
            Some(s) => Some(s.clone()),
            None => None,
        }
    }

    /// Configures (or, with `None`, stops configuring) the agent for a purpose.
    pub fn set_by_purpose(&mut self, purpose: AgentPurpose, agent_id: Option<String>)
        ensures
            forall|p: AgentPurpose|
                #[trigger] final(self).by_purpose(p) == if p == purpose {
                    text::opt_view(agent_id)
                } else {
                    old(self).by_purpose(p)
                },
    {
        match purpose {
            AgentPurpose::CatchAll => self.catch_all = agent_id,
            AgentPurpose::TextGeneration => self.text_generation = agent_id,
            AgentPurpose::SpeechToText => self.speech_to_text = agent_id,
            AgentPurpose::TextToSpeech => self.text_to_speech = agent_id,
            AgentPurpose::ImageGeneration => self.image_generation = agent_id,
        }
    }
}

/// The values in effect for text-generation settings that neither the room
/// nor the global configuration sets.
#[derive(Debug, Clone, Copy)]
pub struct TextGenerationDefaults {
    /// Whether messages need the command prefix.
    pub prefix_requirement_type: TextGenerationPrefixRequirementType,
    /// When text generation runs by itself.
    pub auto_usage: TextGenerationAutoUsage,
    /// Whether long conversations are shortened.
    pub context_management_enabled: bool,
}

/// The values in effect for speech-to-text settings that neither the room
/// nor the global configuration sets.
#[derive(Debug, Clone, Copy)]
pub struct SpeechToTextDefaults {
    /// What happens to voice messages.
    pub flow_type: SpeechToTextFlowType,
    /// The message type of a transcription sent outside a thread.
    pub msg_type_for_non_threaded_only_transcribed_messages:
        SpeechToTextMessageTypeForNonThreadedOnlyTranscribedMessages,
}

/// The values in effect for text-to-speech settings that neither the room
/// nor the global configuration sets.
#[derive(Debug, Clone, Copy)]
pub struct TextToSpeechDefaults {
    /// When the bot's messages are turned into voice.
    pub bot_msgs_flow_type: TextToSpeechBotMessagesFlowType,
    /// When users' messages are turned into voice.
    pub user_msgs_flow_type: TextToSpeechUserMessagesFlowType,
}

/// The settings of a room, or the global settings that rooms fall back to.
pub struct RoomSettings {
    /// The agents that handle each purpose.
    pub handler: RoomSettingsHandler,
    /// Text generation.
    pub text_generation: TextGenerationSettings,
    /// Speech-to-text.
    pub speech_to_text: SpeechToTextSettings,
    /// Text-to-speech.
    pub text_to_speech: TextToSpeechSettings,
}

} // verus!
