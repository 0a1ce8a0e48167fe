//! Whitelisting a player by a heart reaction on a message that names them.
use vstd::prelude::*;
use crate::text::concat_str;

verus! {

/// The reaction that asks to whitelist the author of a message: a red heart.
pub const WHITELIST_HEART: &'static str = "\u{2764}\u{fe0f}";

/// Whether a reaction, given by its Unicode emoji if it has one, is the whitelist heart.
pub fn is_whitelist_heart(emoji: Option<&str>) -> (r: bool)
    ensures
        r == match emoji {
            Some(e) => e@ == WHITELIST_HEART@,
            None => false,
        },
{
    match emoji {
        Some(e) => crate::text::str_equal(e, WHITELIST_HEART),
        None => false,
    }
}

/// The server command that whitelists the player named in a message.
pub fn whitelist_command(content: &str) -> (r: String)
    ensures
        r@ == "whitelist add "@ + content@,
{
    concat_str("whitelist add ", content)
}

/// A text in inline code: `` `text` ``.
pub fn inline_code(text: &str) -> (r: String)
    ensures
        r@ == "`"@ + text@ + "`"@,
{
    let mut r = String::from_str("`");
    r.append(text);
    r.append("`");
    r
}

/// Where a whitelist request stands.
pub enum WhitelistState {
    AwaitReaction,
    AwaitRoles,
    AwaitRoleCheck,
    AwaitConnection,
    AwaitMessage,
    AwaitResult,
    Finished,
}

/// What the outside world reports to a whitelist request.
pub enum WhitelistEvent {
    /// A reaction was added: whether it is the heart, and whether its user and server are known.
    Reacted { heart: bool, user_known: bool, guild_known: bool },
    /// The roles of the server were fetched: whether one is named `cmd`.
    RolesFetched { cmd_role_found: bool },
    /// Whether the user who reacted holds the `cmd` role.
    RoleChecked { has_cmd_role: bool },
    /// The RCON connection was made.
    Connected,
    /// The message that was reacted to was fetched.
    MessageFetched,
    /// The Minecraft server answered the whitelist command.
    Answered,
}

/// What a whitelist request asks the outside world to do next.
pub enum WhitelistAction {
    /// Nothing more to do.
    Stop,
    /// Fetch the roles of the server.
    FetchRoles,
    /// Ask whether the user holds the `cmd` role.
    CheckRole,
    /// Connect to the server's RCON port.
    Connect,
    /// Fetch the message that was reacted to.
    FetchMessage,
    /// Run `whitelist_command` of the message's text on the server.
    RunWhitelistAdd,
    /// Reply to the message with the server's answer in `inline_code`.
    ReplyAnswer,
    /// The event does not fit the state; nothing to do.
    Ignore,
}

/// One step of a whitelist request: the next state and what to do.
pub open spec fn whitelist_transition(s: WhitelistState, e: WhitelistEvent) -> (WhitelistState, WhitelistAction) {
    match (s, e) {
        (WhitelistState::AwaitReaction, WhitelistEvent::Reacted { heart, user_known, guild_known }) => {
            if heart && user_known && guild_known {
                (WhitelistState::AwaitRoles, WhitelistAction::FetchRoles)
            } else {
                (WhitelistState::Finished, WhitelistAction::Stop)
            }
        },
        (WhitelistState::AwaitRoles, WhitelistEvent::RolesFetched { cmd_role_found }) => {
            if cmd_role_found {
                (WhitelistState::AwaitRoleCheck, WhitelistAction::CheckRole)
            } else {
                (WhitelistState::Finished, WhitelistAction::Stop)
            }
        },
        (WhitelistState::AwaitRoleCheck, WhitelistEvent::RoleChecked { has_cmd_role }) => {
            if has_cmd_role {
                (WhitelistState::AwaitConnection, WhitelistAction::Connect)
            } else {
                (WhitelistState::Finished, WhitelistAction::Stop)
            }
        },
        (WhitelistState::AwaitConnection, WhitelistEvent::Connected) => (
            WhitelistState::AwaitMessage,
            WhitelistAction::FetchMessage,
        ),
        (WhitelistState::AwaitMessage, WhitelistEvent::MessageFetched) => (
            WhitelistState::AwaitResult,
            WhitelistAction::RunWhitelistAdd,
        ),
        (WhitelistState::AwaitResult, WhitelistEvent::Answered) => (
            WhitelistState::Finished,
            WhitelistAction::ReplyAnswer,
        ),
        (s, _) => (s, WhitelistAction::Ignore),
    }
}

/// One step of a whitelist request.
pub fn whitelist_step(s: WhitelistState, e: WhitelistEvent) -> (r: (WhitelistState, WhitelistAction))
    ensures
        r == whitelist_transition(s, e),
{
    match (s, e) {
        (WhitelistState::AwaitReaction, WhitelistEvent::Reacted { heart, user_known, guild_known }) => {
            if heart && user_known && guild_known {
                (WhitelistState::AwaitRoles, WhitelistAction::FetchRoles)
            } else {
                (WhitelistState::Finished, WhitelistAction::Stop)
            }
        },
        (WhitelistState::AwaitRoles, WhitelistEvent::RolesFetched { cmd_role_found }) => {
            if cmd_role_found {
                (WhitelistState::AwaitRoleCheck, WhitelistAction::CheckRole)
            } else {
                (WhitelistState::Finished, WhitelistAction::Stop)
            }
        },
        (WhitelistState::AwaitRoleCheck, WhitelistEvent::RoleChecked { has_cmd_role }) => {
            if has_cmd_role {
                (WhitelistState::AwaitConnection, WhitelistAction::Connect)
            } else {
                (WhitelistState::Finished, WhitelistAction::Stop)
            }
        },
        (WhitelistState::AwaitConnection, WhitelistEvent::Connected) => (
            WhitelistState::AwaitMessage,
            WhitelistAction::FetchMessage,
        ),
        (WhitelistState::AwaitMessage, WhitelistEvent::MessageFetched) => (
            WhitelistState::AwaitResult,
            WhitelistAction::RunWhitelistAdd,
        ),
        (WhitelistState::AwaitResult, WhitelistEvent::Answered) => (
            WhitelistState::Finished,
            WhitelistAction::ReplyAnswer,
        ),
        (s, _) => (s, WhitelistAction::Ignore),
    }
}

/// The actions of a whitelist request for a run of events from state `s`.
pub open spec fn whitelist_actions(s: WhitelistState, events: Seq<WhitelistEvent>) -> Seq<WhitelistAction>
    decreases events.len(),
{
    if events.len() == 0 {
        Seq::empty()
    } else {
        let (next, a) = whitelist_transition(s, events[0]);
        seq![a] + whitelist_actions(next, events.drop_first())
    }
}

/// The event is a heart reaction.
pub open spec fn is_heart_reaction(e: WhitelistEvent) -> bool {
    match e {
        WhitelistEvent::Reacted { heart, .. } => heart,
        _ => false,
    }
}

/// The states past the role check.
pub open spec fn past_role_check(s: WhitelistState) -> bool {
    s is AwaitConnection || s is AwaitMessage || s is AwaitResult
}

proof fn lemma_finished_does_nothing(events: Seq<WhitelistEvent>)
    ensures
        !whitelist_actions(WhitelistState::Finished, events).contains(
            WhitelistAction::RunWhitelistAdd,
        ),
    decreases events.len(),
{
    if events.len() > 0 {
        lemma_finished_does_nothing(events.drop_first());
        let acts = whitelist_actions(WhitelistState::Finished, events);
        let rest = whitelist_actions(WhitelistState::Finished, events.drop_first());
        assert forall|i: int| 0 <= i < acts.len() implies acts[i] != WhitelistAction::RunWhitelistAdd by {
            if i > 0 {
                assert(acts[i] == rest[i - 1]);
            }
        }
    }
}

proof fn lemma_whitelist_run_needs_role(s: WhitelistState, events: Seq<WhitelistEvent>)
    requires
        !past_role_check(s),
        whitelist_actions(s, events).contains(WhitelistAction::RunWhitelistAdd),
    ensures
        events.contains(WhitelistEvent::RoleChecked { has_cmd_role: true }),
        s is AwaitReaction ==> exists|i: int|
            0 <= i < events.len() && is_heart_reaction(#[trigger] events[i]),
    decreases events.len(),
{
    let (next, a) = whitelist_transition(s, events[0]);
    let rest = events.drop_first();
    if a is RunWhitelistAdd {
        assert(false);
    }
    let i = choose|i: int| 0 <= i < whitelist_actions(s, events).len() && whitelist_actions(s, events)[i]
        == WhitelistAction::RunWhitelistAdd;
    assert(i > 0);
    assert(whitelist_actions(next, rest)[i - 1] == WhitelistAction::RunWhitelistAdd);
    if past_role_check(next) {
        assert(events[0] == WhitelistEvent::RoleChecked { has_cmd_role: true });
    } else {
        lemma_whitelist_run_needs_role(next, rest);
        let j = choose|j: int| 0 <= j < rest.len() && rest[j] == WhitelistEvent::RoleChecked {
            has_cmd_role: true,
        };
        assert(events[j + 1] == rest[j]);
        if s is AwaitReaction {
            if next is AwaitReaction {
                let k = choose|k: int| 0 <= k < rest.len() && is_heart_reaction(#[trigger] rest[k]);
                assert(events[k + 1] == rest[k]);
            } else if next is Finished {
                lemma_finished_does_nothing(rest);
                assert(false);
            } else {
                assert(is_heart_reaction(events[0]));
            }
        }
    }
}

/// A player is whitelisted only on a heart from a member who holds the `cmd` role: in any
/// run of events from the start, the whitelist command runs only if the reaction was the
/// heart and a role check came back positive.
pub proof fn lemma_whitelist_only_for_cmd_role(events: Seq<WhitelistEvent>)
    ensures
        whitelist_actions(WhitelistState::AwaitReaction, events).contains(
            WhitelistAction::RunWhitelistAdd,
        ) ==> {
            &&& events.contains(WhitelistEvent::RoleChecked { has_cmd_role: true })
            &&& exists|i: int| 0 <= i < events.len() && is_heart_reaction(#[trigger] events[i])
        },
{
    if whitelist_actions(WhitelistState::AwaitReaction, events).contains(
        WhitelistAction::RunWhitelistAdd,
    ) {
        lemma_whitelist_run_needs_role(WhitelistState::AwaitReaction, events);
    }
}

} // verus!
