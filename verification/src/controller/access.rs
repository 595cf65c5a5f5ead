//! Commands about who may use and administer the bot (`access ...`).
use vstd::prelude::*;

use super::ControllerType;
use crate::strings;
use crate::text;

verus! {

/// What an access command asks for.
#[derive(Debug, PartialEq)]
pub enum AccessControllerType {
    /// Explain access control.
    Help,
    /// Show the user patterns that may use the bot.
    GetUsers,
    /// Replace the user patterns (`None` clears them).
    SetUsers(Option<Vec<String>>),
    /// Show the patterns of users who may manage room-local agents.
    GetRoomLocalAgentManagers,
    /// Replace those patterns (`None` clears them).
    SetRoomLocalAgentManagers(Option<Vec<String>>),
}

/// The patterns given after a setter: the trimmed rest split at each space,
/// or nothing when the rest is blank.
pub open spec fn patterns_of(rest: Seq<char>) -> Option<Seq<Seq<char>>> {
    let t = text::trimmed(rest);
    if t.len() == 0 {
        None
    } else {
        Some(text::split_on(t, ' '))
    }
}

/// Whether a list of patterns holds what the spec describes.
pub open spec fn same_patterns(o: Option<Vec<String>>, p: Option<Seq<Seq<char>>>) -> bool {
    match (o, p) {
        (Some(v), Some(q)) => text::views(v@) == q,
        (None, None) => true,
        _ => false,
    }
}

/// The controller that an access command (the text after `access`) selects.
pub open spec fn access_command(t: Seq<char>, r: ControllerType) -> bool {
    if "users"@.is_prefix_of(t) {
        r == ControllerType::Access(AccessControllerType::GetUsers)
    } else if "set-users"@.is_prefix_of(t) {
        r matches ControllerType::Access(AccessControllerType::SetUsers(o))
            && same_patterns(o, patterns_of(t.skip("set-users"@.len() as int)))
    } else if "room-local-agent-managers"@.is_prefix_of(t) {
        r == ControllerType::Access(AccessControllerType::GetRoomLocalAgentManagers)
    } else if "set-room-local-agent-managers"@.is_prefix_of(t) {
        r matches ControllerType::Access(AccessControllerType::SetRoomLocalAgentManagers(o))
            && same_patterns(o, patterns_of(t.skip("set-room-local-agent-managers"@.len() as int)))
    } else {
        r == ControllerType::Access(AccessControllerType::Help)
    }
}

fn patterns_from(rest: &str) -> (r: Option<Vec<String>>)
    ensures
        same_patterns(r, patterns_of(rest@)),
{
    let patterns_string = text::trim(rest);
    if patterns_string.is_empty() {
        None
    } else {
        Some(text::split_char(patterns_string, ' '))
    }
}

/// Selects the access controller for the text that follows `access`.
pub fn determine_controller(text: &str) -> (r: ControllerType)
    ensures
        access_command(text@, r),
{
    if text::starts_with(text, "users") {
        return ControllerType::Access(AccessControllerType::GetUsers);
    }
    if let Some(patterns_string) = text::strip_prefix(text, "set-users") {
        let patterns_option = patterns_from(patterns_string);
        return ControllerType::Access(AccessControllerType::SetUsers(patterns_option));
    }
    if text::starts_with(text, "room-local-agent-managers") {
        return ControllerType::Access(AccessControllerType::GetRoomLocalAgentManagers);
    }
    if let Some(patterns_string) = text::strip_prefix(text, "set-room-local-agent-managers") {
        let patterns_option = patterns_from(patterns_string);
        return ControllerType::Access(
            AccessControllerType::SetRoomLocalAgentManagers(patterns_option),
        );
    }
    ControllerType::Access(AccessControllerType::Help)
}

/// Whether a user pattern has the shape that patterns must have: `@`, then
/// text without another `@` made of exactly two non-empty parts separated by
/// one `:` (the local part and the server, either of which may use `*`).
pub open spec fn is_user_pattern(p: Seq<char>) -> bool {
    p.len() > 0 && p[0] == '@' && !p.drop_first().contains('@') && {
        let parts = text::split_on(p.drop_first(), ':');
        parts.len() == 2 && parts[0].len() > 0 && parts[1].len() > 0
    }
}

/// What `mxidwc::parse_patterns_vector` makes of a list of patterns: `Ok`
/// when every pattern turned into a regular expression, else the text of the
/// error that it reports.
pub uninterp spec fn user_patterns_parse_result(patterns: Seq<Seq<char>>) -> Result<(), Seq<char>>;

/// Calls `mxidwc::parse_patterns_vector` and keeps only whether it succeeded,
/// with the error's text.
///
/// Its contract claims that the outcome depends on the patterns alone, and
/// that it succeeds only when every pattern has the shape that the crate's
/// source checks before building a regular expression (the converse is not
/// claimed: building the expression may still fail on a size limit).
#[verifier::external_body]
fn parse_patterns_vector(patterns: &Vec<String>) -> (r: Result<(), String>)
    ensures
        match user_patterns_parse_result(text::views(patterns@)) {
            Ok(()) => r is Ok,
            Err(m) => r matches Err(e) && e@ == m,
        },
        r is Ok ==> forall|i: int| 0 <= i < patterns@.len() ==> is_user_pattern(#[trigger] patterns@[i]@),
{
    match mxidwc::parse_patterns_vector(patterns) {
        Ok(_) => Ok(()),
        Err(err) => Err(err.to_string()),
    }
}

/// What replacing a list of user patterns with `patterns` answers: nothing to
/// complain about when the list is cleared or every pattern parses, else the
/// error to report.
pub open spec fn patterns_check(patterns: Option<Seq<Seq<char>>>) -> Option<Seq<char>> {
    match patterns {
        None => None,
        Some(ps) => match user_patterns_parse_result(ps) {
            Ok(()) => None,
            Err(m) => Some(strings::access::failed_to_parse_patterns_text(m)),
        },
    }
}

/// Checks the patterns that a setter is about to store (or `None`, which
/// clears them), returning the error to report if they do not parse.
pub fn check_patterns(patterns: &Option<Vec<String>>) -> (r: Option<String>)
    ensures
        match patterns_check(
            match patterns {
                Some(ps) => Some(text::views(ps@)),
                None => None,
            },
        ) {
            None => r is None,
            Some(m) => r matches Some(e) && e@ == m,
        },
        r is None && patterns is Some ==> forall|i: int|
            0 <= i < patterns->0@.len() ==> is_user_pattern(#[trigger] patterns->0@[i]@),
{
    match patterns {
        Some(patterns) => match parse_patterns_vector(patterns) {
            Ok(()) => None,
            Err(err) => Some(strings::access::failed_to_parse_patterns(err.as_str())),
        },
        None => None,
    }
}

/// Whether every pattern is non-empty and free of white space, as patterns
/// written in a command are.
pub open spec fn are_plain_patterns(patterns: Seq<Seq<char>>) -> bool {
    forall|i: int|
        0 <= i < patterns.len() ==> {
            &&& (#[trigger] patterns[i]).len() > 0
            &&& forall|j: int| 0 <= j < patterns[i].len() ==> !text::is_white_space(patterns[i][j])
        }
}

/// A setter given patterns separated by single spaces stores exactly those
/// patterns, in order: `set-users P1 P2 ...` and
/// `set-room-local-agent-managers P1 P2 ...`.
pub proof fn lemma_setters_store_written_patterns(patterns: Seq<Seq<char>>)
    requires
        patterns.len() > 0,
        are_plain_patterns(patterns),
    ensures
        forall|r| #[trigger]
            access_command(text::command_with_value("set-users"@, text::join(patterns, " "@)), r)
                ==> (r matches ControllerType::Access(AccessControllerType::SetUsers(Some(v)))
                && text::views(v@) == patterns),
        forall|r| #[trigger]
            access_command(
                text::command_with_value("set-room-local-agent-managers"@, text::join(patterns, " "@)),
                r,
            ) ==> (r matches ControllerType::Access(
                AccessControllerType::SetRoomLocalAgentManagers(Some(v)),
            ) && text::views(v@) == patterns),
{
    reveal_strlit(" ");
    reveal_strlit("users");
    reveal_strlit("set-users");
    reveal_strlit("room-local-agent-managers");
    reveal_strlit("set-room-local-agent-managers");
    let joined = text::join(patterns, " "@);
    assert forall|i: int| 0 <= i < patterns.len() implies (#[trigger] patterns[i]).len() > 0 by {}
    assert forall|i: int| 0 <= i < patterns.len() implies !(#[trigger] patterns[i]).contains(' ') by {
        if patterns[i].contains(' ') {
            let j = choose|j: int| 0 <= j < patterns[i].len() && patterns[i][j] == ' ';
            assert(!text::is_white_space(patterns[i][j]));
        }
    }
    text::lemma_join_ends(patterns, " "@);
    assert(!text::is_white_space(patterns[0][0]));
    let last = patterns.last();
    assert(!text::is_white_space(last[last.len() - 1]));
    text::lemma_trimmed_fixed(joined);
    assert(" "@ =~= seq![' ']);
    text::lemma_split_join(patterns, ' ');
    let tu = text::command_with_value("set-users"@, joined);
    let tm = text::command_with_value("set-room-local-agent-managers"@, joined);
    assert(tu.subrange(0, "set-users"@.len() as int) =~= "set-users"@);
    assert(tu.skip("set-users"@.len() as int) =~= " "@ + joined);
    assert(tm.subrange(0, "set-room-local-agent-managers"@.len() as int)
        =~= "set-room-local-agent-managers"@);
    assert(tm.skip("set-room-local-agent-managers"@.len() as int) =~= " "@ + joined);
    text::lemma_differs_at("users"@, tu, 0);
    text::lemma_differs_at("users"@, tm, 0);
    text::lemma_differs_at("set-users"@, tm, 4);
    text::lemma_differs_at("room-local-agent-managers"@, tm, 0);
}

/// The access settings of the global configuration: the patterns of users
/// who may use the bot, and of those who may manage room-local agents.
pub struct AccessConfig {
    /// Who may use the bot (`None`: no patterns stored).
    pub user_patterns: Option<Vec<String>>,
    /// Who may manage the agents of rooms (`None`: no patterns stored).
    pub room_local_agent_manager_patterns: Option<Vec<String>>,
}

/// An optional list of patterns as characters.
pub open spec fn patterns_view(o: Option<Vec<String>>) -> Option<Seq<Seq<char>>> {
    match o {
        Some(v) => Some(text::views(v@)),
        None => None,
    }
}

/// What an access command did.
#[derive(Debug, PartialEq)]
pub enum AccessOutcome {
    /// The help was asked for.
    Help,
    /// The sender may not administer the global configuration.
    NotPermittedToAdministrate,
    /// The patterns stored (`None`: none).
    Current(Option<Vec<String>>),
    /// The patterns given do not parse; the error to report.
    InvalidPatterns(String),
    /// These patterns are now stored (`None`: none).
    Changed(Option<Vec<String>>),
}

/// What storing `patterns` where `before` held `stored` does: patterns that
/// do not parse are refused and nothing changes; otherwise they are stored.
pub open spec fn patterns_set_effect(
    stored_before: Option<Seq<Seq<char>>>,
    stored_after: Option<Seq<Seq<char>>>,
    patterns: Option<Seq<Seq<char>>>,
    r: AccessOutcome,
) -> bool {
    match patterns_check(patterns) {
        Some(m) => r matches AccessOutcome::InvalidPatterns(e) && e@ == m && stored_after
            == stored_before,
        None => r matches AccessOutcome::Changed(o) && patterns_view(o) == patterns && stored_after
            == patterns,
    }
}

/// What an access command does to the access settings: everything but the
/// help needs a sender who may administer the global configuration; a
/// getter shows its patterns; a setter stores patterns that parse.
pub open spec fn access_effect(
    h: AccessControllerType,
    sender_can_manage_global_config: bool,
    before: AccessConfig,
    after: AccessConfig,
    r: AccessOutcome,
) -> bool {
    if h is Help {
        r == AccessOutcome::Help && after == before
    } else if !sender_can_manage_global_config {
        r == AccessOutcome::NotPermittedToAdministrate && after == before
    } else {
        match h {
            AccessControllerType::GetUsers => after == before && (r matches AccessOutcome::Current(o)
                && patterns_view(o) == patterns_view(before.user_patterns)),
            AccessControllerType::SetUsers(ps) => after.room_local_agent_manager_patterns
                == before.room_local_agent_manager_patterns && patterns_set_effect(
                patterns_view(before.user_patterns),
                patterns_view(after.user_patterns),
                patterns_view(ps),
                r,
            ),
            AccessControllerType::GetRoomLocalAgentManagers => after == before && (
            r matches AccessOutcome::Current(o) && patterns_view(o) == patterns_view(
                before.room_local_agent_manager_patterns,
            )),
            AccessControllerType::SetRoomLocalAgentManagers(ps) => after.user_patterns
                == before.user_patterns && patterns_set_effect(
                patterns_view(before.room_local_agent_manager_patterns),
                patterns_view(after.room_local_agent_manager_patterns),
                patterns_view(ps),
                r,
            ),
            AccessControllerType::Help => false,
        }
    }
}

fn copy_patterns(o: &Option<Vec<String>>) -> (r: Option<Vec<String>>)
    ensures
        patterns_view(r) == patterns_view(*o),
{
    match o {
        Some(v) => {
            let mut copy: Vec<String> = Vec::new();
            let mut i: usize = 0;
            while i < v.len()
                invariant
                    i <= v.len(),
                    copy@.len() == i,
                    text::views(copy@) == text::views(v@.take(i as int)),
                decreases v.len() - i,
            {
                let ghost before = copy@;
                copy.push(v[i].clone());
                proof {
                    assert forall|k: int| 0 <= k < i + 1 implies #[trigger] text::views(copy@)[k]
                        == text::views(v@.take(i + 1))[k] by {
                        if k < i {
                            assert(copy@[k] == before[k]);
                            assert(text::views(before)[k] == text::views(v@.take(i as int))[k]);
                        }
                    }
                    assert(text::views(copy@) =~= text::views(v@.take(i + 1)));
                }
                i = i + 1;
            }
            assert(v@.take(v.len() as int) =~= v@);
            Some(copy)
        },
        None => None,
    }
}

fn set_patterns(stored: &mut Option<Vec<String>>, patterns: Option<Vec<String>>) -> (r: AccessOutcome)
    ensures
        patterns_set_effect(
            patterns_view(*old(stored)),
            patterns_view(*final(stored)),
            patterns_view(patterns),
            r,
        ),
{
    if let Some(err) = check_patterns(&patterns) {
        return AccessOutcome::InvalidPatterns(err);
    }
    let shown = copy_patterns(&patterns);
    *stored = patterns;
    AccessOutcome::Changed(shown)
}

/// Carries out an access command on the access settings.
pub fn dispatch_access(
    handler: AccessControllerType,
    sender_can_manage_global_config: bool,
    access: &mut AccessConfig,
) -> (r: AccessOutcome)
    ensures
        access_effect(handler, sender_can_manage_global_config, *old(access), *final(access), r),
{
    if let AccessControllerType::Help = handler {
        return AccessOutcome::Help;
    }
    if !sender_can_manage_global_config {
        return AccessOutcome::NotPermittedToAdministrate;
    }
    match handler {
        AccessControllerType::GetUsers => AccessOutcome::Current(copy_patterns(&access.user_patterns)),
        AccessControllerType::SetUsers(patterns) => set_patterns(&mut access.user_patterns, patterns),
        AccessControllerType::GetRoomLocalAgentManagers => AccessOutcome::Current(
            copy_patterns(&access.room_local_agent_manager_patterns),
        ),
        AccessControllerType::SetRoomLocalAgentManagers(patterns) => set_patterns(
            &mut access.room_local_agent_manager_patterns,
            patterns,
        ),
        AccessControllerType::Help => AccessOutcome::Help,
    }
}

/// A read gives back what a write wrote: after a setter stored patterns, the
/// matching getter shows those patterns, and changes nothing.
pub proof fn lemma_patterns_read_after_write(
    set: AccessControllerType,
    get: AccessControllerType,
    sender_can_manage_global_config: bool,
    a0: AccessConfig,
    a1: AccessConfig,
    a2: AccessConfig,
    r1: AccessOutcome,
    r2: AccessOutcome,
)
    requires
        (set is SetUsers && get is GetUsers) || (set is SetRoomLocalAgentManagers
            && get is GetRoomLocalAgentManagers),
        access_effect(set, sender_can_manage_global_config, a0, a1, r1),
        access_effect(get, sender_can_manage_global_config, a1, a2, r2),
    ensures
        a2 == a1,
        r1 matches AccessOutcome::Changed(w) ==> (r2 matches AccessOutcome::Current(c)
            && patterns_view(c) == patterns_view(w)),
{
}

/// What the access help says about a list of patterns: the patterns when
/// some are stored, and whether the commands that change them are listed
/// (only to senders who may administer the global configuration).
#[derive(Debug, PartialEq)]
pub struct PatternsHelp {
    /// The patterns stored; `None` when none are (an empty list counts as
    /// none).
    pub patterns: Option<Vec<String>>,
    /// Whether the commands that show and change the patterns are listed.
    pub lists_commands: bool,
}

/// The patterns that the access help shows: none when the list is unset or
/// empty.
pub open spec fn shown_patterns(stored: Option<Seq<Seq<char>>>) -> Option<Seq<Seq<char>>> {
    match stored {
        Some(ps) => if ps.len() == 0 {
            None
        } else {
            Some(ps)
        },
        None => None,
    }
}

/// What the access help says about the users, or about the managers of
/// room-local agents, given their stored patterns.
pub fn patterns_help(stored: &Option<Vec<String>>, sender_can_manage_global_config: bool) -> (r:
    PatternsHelp)
    ensures
        patterns_view(r.patterns) == shown_patterns(patterns_view(*stored)),
        r.lists_commands == sender_can_manage_global_config,
{
    let patterns = match stored {
        Some(ps) => {
            if ps.len() == 0 {
                None
            } else {
                copy_patterns(stored)
            }
        },
        None => None,
    };
    PatternsHelp { patterns, lists_commands: sender_can_manage_global_config }
}

/// Only the help is open to everyone: for a sender who may not administer
/// the global configuration every other access command is refused and
/// changes nothing; the help changes nothing either.
pub proof fn lemma_access_needs_administrators(
    h: AccessControllerType,
    sender_can_manage_global_config: bool,
    before: AccessConfig,
    after: AccessConfig,
    r: AccessOutcome,
)
    requires
        access_effect(h, sender_can_manage_global_config, before, after, r),
    ensures
        (h is Help || !sender_can_manage_global_config) ==> after == before,
        !(h is Help) && !sender_can_manage_global_config ==> r == AccessOutcome::NotPermittedToAdministrate,
        r == AccessOutcome::NotPermittedToAdministrate ==> !sender_can_manage_global_config,
        (r is Changed) ==> sender_can_manage_global_config,
{
}

} // verus!
