//! Image commands: choosing between creating and editing, and building the
//! prompt of an image from the conversation around it.
use vstd::prelude::*;

use super::ControllerType;
use crate::text;

verus! {

/// The controller that an image command (the text after `image`) selects:
/// `create PROMPT` creates, `edit PROMPT` edits, anything else gets the usage
/// help.
pub open spec fn image_command(t0: Seq<char>, r: ControllerType) -> bool {
    let t = text::trimmed(t0);
    if "create"@.is_prefix_of(t) {
        r matches ControllerType::ImageGeneration(p) && p@ == text::trimmed(t.skip("create"@.len() as int))
    } else if "edit"@.is_prefix_of(t) {
        r matches ControllerType::ImageEdit(p) && p@ == text::trimmed(t.skip("edit"@.len() as int))
    } else {
        r == ControllerType::UsageHelp
    }
}

/// Selects the image controller for the text that follows `image`.
pub fn determine_controller(text: &str) -> (r: ControllerType)
    ensures
        image_command(text@, r),
{
    let text = text::trim(text);
    if let Some(prompt) = text::strip_prefix(text, "create") {
        return ControllerType::ImageGeneration(text::trim(prompt).to_owned());
    }
    if let Some(prompt) = text::strip_prefix(text, "edit") {
        return ControllerType::ImageEdit(text::trim(prompt).to_owned());
    }
    ControllerType::UsageHelp
}

/// Who wrote a message of a conversation.
#[derive(Debug, Clone, Copy, PartialEq, Eq, Structural)]
pub enum Author {
    /// A person.
    User,
    /// The bot.
    Assistant,
}

/// A message of a conversation, as the prompt builder reads it.
#[derive(Debug, PartialEq)]
pub struct Message {
    /// Who wrote it.
    pub author: Author,
    /// What it says.
    pub message_text: String,
}

/// Whether a message adds a criterion to the prompt: the user wrote it, and
/// it is not "again" (in any case), which only asks to generate once more.
pub open spec fn is_criterion(m: Message) -> bool {
    m.author == Author::User && text::lowercased(m.message_text@) != "again"@
}

/// The texts of the messages that add criteria, in order.
pub open spec fn criteria(ms: Seq<Message>) -> Seq<Seq<char>>
    decreases ms.len(),
{
    if ms.len() == 0 {
        Seq::empty()
    } else if is_criterion(ms.last()) {
        criteria(ms.drop_last()).push(ms.last().message_text@)
    } else {
        criteria(ms.drop_last())
    }
}

/// One line per criterion, each starting with a newline and `- `, with the
/// line breaks inside a criterion replaced by `. `.
pub open spec fn criteria_lines(cs: Seq<Seq<char>>) -> Seq<char>
    decreases cs.len(),
{
    if cs.len() == 0 {
        Seq::empty()
    } else {
        criteria_lines(cs.drop_last()) + "\n- "@ + text::replaced(cs.last(), '\n', ". "@)
    }
}

/// The prompt: the original prompt, and when there are criteria, a line
/// `Other criteria:` followed by them.
pub open spec fn built_prompt(original_prompt: Seq<char>, ms: Seq<Message>) -> Seq<char> {
    let cs = criteria(ms);
    if cs.len() == 0 {
        original_prompt
    } else {
        original_prompt + "\nOther criteria:"@ + criteria_lines(cs)
    }
}

/// The criteria of two stretches of conversation are those of the first
/// followed by those of the second.
pub proof fn lemma_criteria_concat(x: Seq<Message>, y: Seq<Message>)
    ensures
        criteria(x + y) == criteria(x) + criteria(y),
    decreases y.len(),
{
    if y.len() == 0 {
        assert(x + y =~= x);
        assert(criteria(x) + criteria(y) =~= criteria(x));
    } else {
        lemma_criteria_concat(x, y.drop_last());
        assert((x + y).drop_last() =~= x + y.drop_last());
        assert((x + y).last() == y.last());
        if is_criterion(y.last()) {
            assert(criteria(x + y) =~= criteria(x) + criteria(y));
        }
    }
}

/// The prompt begins with the original prompt, and a message that adds no
/// criterion (the bot's own, or "again" in any case), wherever it stands in
/// the conversation, leaves the prompt as it would be without it.
pub proof fn lemma_prompt_ignores_other_messages(
    original_prompt: Seq<char>,
    before: Seq<Message>,
    m: Message,
    after: Seq<Message>,
)
    requires
        !is_criterion(m),
    ensures
        original_prompt.is_prefix_of(built_prompt(original_prompt, before + seq![m] + after)),
        built_prompt(original_prompt, before + seq![m] + after) == built_prompt(
            original_prompt,
            before + after,
        ),
{
    lemma_criteria_concat(before + seq![m], after);
    lemma_criteria_concat(before, seq![m]);
    lemma_criteria_concat(before, after);
    assert(seq![m].drop_last() =~= Seq::<Message>::empty());
    assert(seq![m].last() == m);
    assert(criteria(Seq::<Message>::empty()) =~= Seq::<Seq<char>>::empty());
    assert(criteria(seq![m]) =~= Seq::<Seq<char>>::empty());
    assert(criteria(before + seq![m]) =~= criteria(before));
    let b = built_prompt(original_prompt, before + seq![m] + after);
    assert(b.subrange(0, original_prompt.len() as int) =~= original_prompt);
}

/// The messages of a conversation that add a criterion, in order.
pub open spec fn criterion_messages(ms: Seq<Message>) -> Seq<Message> {
    ms.filter(|m: Message| is_criterion(m))
}

/// The criteria of a conversation are those of its messages that add one.
pub proof fn lemma_criteria_of_criterion_messages(ms: Seq<Message>)
    ensures
        criteria(ms) == criteria(criterion_messages(ms)),
    decreases ms.len(),
{
    reveal(Seq::filter);
    if ms.len() > 0 {
        let init = ms.drop_last();
        lemma_criteria_of_criterion_messages(init);
        let f = criterion_messages(init);
        assert(criterion_messages(ms) == if is_criterion(ms.last()) {
            f.push(ms.last())
        } else {
            f
        });
        if is_criterion(ms.last()) {
            assert(f.push(ms.last()).drop_last() =~= f);
            assert(f.push(ms.last()).last() == ms.last());
        }
    }
}

/// Only the user's messages other than "again" count: two conversations
/// whose messages that add a criterion are the same give the same prompt,
/// whatever other messages (the bot's own, or "again") stand around them, and
/// however many.
pub proof fn lemma_prompt_depends_on_criterion_messages_only(
    original_prompt: Seq<char>,
    ms1: Seq<Message>,
    ms2: Seq<Message>,
)
    requires
        criterion_messages(ms1) == criterion_messages(ms2),
    ensures
        built_prompt(original_prompt, ms1) == built_prompt(original_prompt, ms2),
{
    lemma_criteria_of_criterion_messages(ms1);
    lemma_criteria_of_criterion_messages(ms2);
}

fn adds_criterion(m: &Message) -> (r: bool)
    ensures
        r == is_criterion(*m),
{
    match m.author {
        Author::User => {
            let lowercase = text::lowercase_of(m.message_text.as_str());
            !text::equals(lowercase.as_str(), "again")
        },
        Author::Assistant => false,
    }
}

/// Builds the prompt of an image from the original prompt and the other
/// messages of the conversation.
pub fn build(original_prompt: &str, other_messages: Vec<Message>) -> (r: String)
    ensures
        r@ == built_prompt(original_prompt@, other_messages@),
{
    let mut lines = String::new();
    let mut count: usize = 0;
    let mut i: usize = 0;
    while i < other_messages.len()
        invariant
            i <= other_messages.len(),
            count <= i,
            count == criteria(other_messages@.take(i as int)).len(),
            lines@ == criteria_lines(criteria(other_messages@.take(i as int))),
        decreases other_messages.len() - i,
    {
        let ghost before = other_messages@.take(i as int);
        let m = &other_messages[i];
        proof {
            assert(other_messages@.take(i + 1).drop_last() =~= before);
            assert(other_messages@.take(i + 1).last() == other_messages@[i as int]);
        }
        if adds_criterion(m) {
            let line = text::replace_char(m.message_text.as_str(), '\n', ". ");
            lines.append("\n- ");
            lines.append(line.as_str());
            count = count + 1;
            proof {
                let cs = criteria(other_messages@.take(i + 1));
                assert(cs == criteria(before).push(m.message_text@));
                assert(cs.drop_last() =~= criteria(before));
            }
        }
        i = i + 1;
    }
    assert(other_messages@.take(other_messages.len() as int) =~= other_messages@);
    if count == 0 {
        original_prompt.to_owned()
    } else {
        let mut prompt = original_prompt.to_owned();
        prompt.append("\nOther criteria:");
        prompt.append(lines.as_str());
        prompt
    }
}

/// The prompt for an image from the conversation of its thread, whose first
/// message holds the original prompt: when other messages follow, they add
/// their criteria to it.
pub open spec fn conversation_prompt(original_prompt: Seq<char>, conversation: Seq<Message>) -> Seq<char> {
    if conversation.len() >= 2 {
        built_prompt(original_prompt, conversation.skip(1))
    } else {
        original_prompt
    }
}

/// Builds the prompt for an image from the conversation of its thread.
pub fn prompt_for_conversation(original_prompt: &str, conversation: Vec<Message>) -> (r: String)
    ensures
        r@ == conversation_prompt(original_prompt@, conversation@),
{
    if conversation.len() >= 2 {
        let mut others = conversation;
        let ghost all = others@;
        others.remove(0);
        assert(others@ =~= all.skip(1));
        build(original_prompt, others)
    } else {
        original_prompt.to_owned()
    }
}

/// Whether the guide on how to go on with an image is sent after the image:
/// only when the image was made from the first message of its thread, which
/// is then the whole conversation.
pub fn sends_how_to_proceed_guide(conversation_len: usize) -> (r: bool)
    ensures
        r == (conversation_len == 1),
{
    conversation_len == 1
}

/// The prompt to show as revised: the one the image service reports having
/// used, when it differs from the prompt sent (white space at either end
/// aside).
pub open spec fn revised_prompt_shown(prompt: Seq<char>, revised_prompt: Option<Seq<char>>) -> Option<
    Seq<char>,
> {
    match revised_prompt {
        Some(p) => if text::trimmed(p) != text::trimmed(prompt) {
            Some(p)
        } else {
            None
        },
        None => None,
    }
}

/// Decides whether a revised prompt is shown, and which.
pub fn revised_prompt_to_show(prompt: &str, revised_prompt: Option<String>) -> (r: Option<String>)
    ensures
        text::opt_view(r) == revised_prompt_shown(prompt@, text::opt_view(revised_prompt)),
{
    match revised_prompt {
        Some(p) => {
            if text::equals(text::trim(p.as_str()), text::trim(prompt)) {
                None
            } else {
                Some(p)
            }
        },
        None => None,
    }
}

/// Whether an image edit may go ahead: some message of the thread says "go"
/// (in any case) and the thread holds at least one image.
pub open spec fn edit_may_proceed(texts: Seq<Seq<char>>, image_count: nat) -> bool {
    &&& exists|i: int| 0 <= i < texts.len() && text::lowercased(#[trigger] texts[i]) == "go"@
    &&& image_count > 0
}

/// Decides whether an image edit may go ahead, from the texts of the
/// thread's messages and the number of its images.
pub fn edit_can_proceed(texts: &Vec<String>, image_count: usize) -> (r: bool)
    ensures
        r == edit_may_proceed(text::views(texts@), image_count as nat),
{
    let mut got_go_signal = false;
    let mut i: usize = 0;
    while i < texts.len()
        invariant
            i <= texts.len(),
            got_go_signal == exists|j: int|
                0 <= j < i && text::lowercased(#[trigger] text::views(texts@)[j]) == "go"@,
        decreases texts.len() - i,
    {
        let lowercase = text::lowercase_of(texts[i].as_str());
        if text::equals(lowercase.as_str(), "go") {
            got_go_signal = true;
        }
        proof {
            assert(text::views(texts@)[i as int] == texts@[i as int]@);
        }
        i = i + 1;
    }
    got_go_signal && image_count > 0
}

} // verus!
