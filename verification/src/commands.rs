//! What the commands `\cmd`, `\say` and the whitelist reaction send.
use vstd::prelude::*;
use crate::send_rule::texts;
use crate::text::concat_str;

verus! {

/// Discord allows 2000 characters in a message; a code block takes 6 of them.
pub const RESPONSE_CHUNK_CHARS: usize = 1994;

/// The reply of `\cmd` once the server has answered.
pub const SUCCESS_REPLY: &'static str = "success";

/// A text cut into pieces of `RESPONSE_CHUNK_CHARS` characters, from the front;
/// the last piece may be shorter, and an empty text gives no piece.
pub open spec fn chunks(s: Seq<char>) -> Seq<Seq<char>>
    decreases s.len(),
{
    if s.len() == 0 {
        Seq::empty()
    } else if s.len() <= RESPONSE_CHUNK_CHARS {
        seq![s]
    } else {
        seq![s.take(RESPONSE_CHUNK_CHARS as int)] + chunks(s.skip(RESPONSE_CHUNK_CHARS as int))
    }
}

/// `text` in a code block.
pub open spec fn code_block(text: Seq<char>) -> Seq<char> {
    "```"@ + text + "```"@
}

/// The messages in which `\cmd` shows the server's answer.
pub open spec fn response_messages(response: Seq<char>) -> Seq<Seq<char>> {
    chunks(response).map_values(|c: Seq<char>| code_block(c))
}

/// The pieces put back together.
pub open spec fn join_all(parts: Seq<Seq<char>>) -> Seq<char>
    decreases parts.len(),
{
    if parts.len() == 0 {
        Seq::empty()
    } else {
        parts[0] + join_all(parts.drop_first())
    }
}

/// Cuts the server's answer into pieces that fit a Discord message.
pub fn response_chunks(response: &str) -> (r: Vec<String>)
    ensures
        texts(r@) == chunks(response@),
{
    let n = response.unicode_len();
    let ghost s = response@;
    let mut out: Vec<String> = Vec::new();
    let mut pos: usize = 0;
    assert(s.skip(0) =~= s);
    while pos < n
        invariant
            n == s.len(),
            s == response@,
            pos <= n,
            texts(out@) + chunks(s.skip(pos as int)) == chunks(s),
        decreases n - pos,
    {
        let end = if n - pos <= RESPONSE_CHUNK_CHARS {
            n
        } else {
            pos + RESPONSE_CHUNK_CHARS
        };
        let ghost rest = s.skip(pos as int);
        let piece = String::from_str(response.substring_char(pos, end));
        proof {
            if n - pos <= RESPONSE_CHUNK_CHARS {
                assert(rest =~= s.subrange(pos as int, end as int));
                assert(s.skip(end as int).len() == 0);
                assert(chunks(rest) == seq![piece@]);
            } else {
                assert(rest.take(RESPONSE_CHUNK_CHARS as int) =~= s.subrange(pos as int, end as int));
                assert(rest.skip(RESPONSE_CHUNK_CHARS as int) =~= s.skip(end as int));
            }
        }
        let ghost before = texts(out@);
        out.push(piece);
        proof {
            assert(texts(out@) =~= before.push(piece@));
            if n - pos > RESPONSE_CHUNK_CHARS {
                assert(before.push(piece@) + chunks(s.skip(end as int)) =~= before + (seq![piece@]
                    + chunks(s.skip(end as int))));
            } else {
                assert(chunks(s.skip(end as int)) =~= Seq::<Seq<char>>::empty());
                assert(before.push(piece@) + chunks(s.skip(end as int)) =~= before + seq![piece@]);
            }
        }
        pos = end;
    }
    assert(chunks(s.skip(n as int)) =~= Seq::<Seq<char>>::empty());
    assert(texts(out@) + Seq::<Seq<char>>::empty() =~= texts(out@));
    out
}

/// The messages in which `\cmd` shows the server's answer: each piece in a code block.
pub fn response_messages_exec(response: &str) -> (r: Vec<String>)
    ensures
        texts(r@) == response_messages(response@),
{
    let pieces = response_chunks(response);
    let mut out: Vec<String> = Vec::new();
    let mut i: usize = 0;
    while i < pieces.len()
        invariant
            i <= pieces.len(),
            texts(pieces@) == chunks(response@),
            texts(out@) == chunks(response@).take(i as int).map_values(
                |c: Seq<char>| code_block(c),
            ),
        decreases pieces.len() - i,
    {
        let mut m = String::from_str("```");
        m.append(pieces[i].as_str());
        m.append("```");
        let ghost before = texts(out@);
        out.push(m);
        proof {
            assert(texts(pieces@)[i as int] == pieces@[i as int]@);
            assert(m@ == code_block(chunks(response@)[i as int]));
            assert(texts(out@) =~= before.push(m@));
            assert(texts(out@) =~= chunks(response@).take(i + 1).map_values(
                |c: Seq<char>| code_block(c),
            ));
        }
        i += 1;
    }
    assert(chunks(response@).take(i as int) =~= chunks(response@));
    out
}

/// Each piece is not empty and at most `RESPONSE_CHUNK_CHARS` long, and the pieces put
/// back together give the whole answer: `\cmd` loses nothing of what the server said.
pub proof fn lemma_chunks_cover(s: Seq<char>)
    ensures
        join_all(chunks(s)) == s,
        forall|i: int|
            0 <= i < chunks(s).len() ==> 0 < #[trigger] chunks(s)[i].len() <= RESPONSE_CHUNK_CHARS,
        chunks(s).len() == (s.len() + RESPONSE_CHUNK_CHARS - 1) / RESPONSE_CHUNK_CHARS as int,
    decreases s.len(),
{
    if s.len() == 0 {
    } else if s.len() <= RESPONSE_CHUNK_CHARS {
        assert(chunks(s).drop_first() =~= Seq::<Seq<char>>::empty());
        assert(join_all(Seq::<Seq<char>>::empty()) == Seq::<char>::empty());
        assert(s + Seq::<char>::empty() =~= s);
    } else {
        let rest = s.skip(RESPONSE_CHUNK_CHARS as int);
        lemma_chunks_cover(rest);
        let c = chunks(s);
        assert(c.drop_first() =~= chunks(rest));
        assert(s.take(RESPONSE_CHUNK_CHARS as int) + rest =~= s);
        assert forall|i: int| 0 <= i < c.len() implies 0 < #[trigger] c[i].len()
            <= RESPONSE_CHUNK_CHARS by {
            if i > 0 {
                assert(c[i] == chunks(rest)[i - 1]);
            }
        }
    }
}

/// Every message of `\cmd` fits in a Discord message of 2000 characters.
pub proof fn lemma_response_messages_fit(s: Seq<char>)
    ensures
        forall|i: int|
            0 <= i < response_messages(s).len() ==> #[trigger] response_messages(s)[i].len() <= 2000,
{
    lemma_chunks_cover(s);
    reveal_strlit("```");
    assert forall|i: int| 0 <= i < response_messages(s).len() implies #[trigger] response_messages(
        s,
    )[i].len() <= 2000 by {
        assert(chunks(s)[i].len() <= RESPONSE_CHUNK_CHARS);
    }
}

/// Why `\cmd` refused to run a command.
pub enum CmdRefusal {
    /// The server of the message could not be fetched.
    NoGuild,
    /// The server has no role named `cmd`.
    NoCmdRole,
    /// The author lacks the `cmd` role.
    NotPermitted,
}

/// The name of the role that may run server commands.
pub const CMD_ROLE: &'static str = "cmd";

/// Where a `\cmd` invocation stands.
pub enum CmdState {
    AwaitGuild,
    AwaitRoleCheck,
    AwaitConnection,
    AwaitResponse,
    Finished,
}

/// What the outside world reports to a `\cmd` invocation.
pub enum CmdEvent {
    /// The server of the message was fetched (or not), and whether it has a `cmd` role.
    GuildFetched { guild_found: bool, cmd_role_found: bool },
    /// Whether the author holds the `cmd` role.
    RoleChecked { has_cmd_role: bool },
    /// Whether the RCON connection was made.
    Connected { ok: bool },
    /// The Minecraft server answered the command.
    Responded,
}

/// What a `\cmd` invocation asks the outside world to do next.
pub enum CmdAction {
    /// Reply the refusal and stop.
    Refuse(CmdRefusal),
    /// Ask whether the author holds the `cmd` role.
    CheckRole,
    /// Connect to the server's RCON port.
    Connect,
    /// Reply the connection error and fail.
    FailConnection,
    /// Run the command on the server.
    Run,
    /// Reply `success`, then send the answer in `response_messages`.
    Report,
    /// The event does not fit the state; nothing to do.
    Ignore,
}

/// One step of `\cmd`: the next state and what to do.
pub open spec fn cmd_transition(s: CmdState, e: CmdEvent) -> (CmdState, CmdAction) {
    match (s, e) {
        (CmdState::AwaitGuild, CmdEvent::GuildFetched { guild_found, cmd_role_found }) => {
            if !guild_found {
                (CmdState::Finished, CmdAction::Refuse(CmdRefusal::NoGuild))
            } else if !cmd_role_found {
                (CmdState::Finished, CmdAction::Refuse(CmdRefusal::NoCmdRole))
            } else {
                (CmdState::AwaitRoleCheck, CmdAction::CheckRole)
            }
        },
        (CmdState::AwaitRoleCheck, CmdEvent::RoleChecked { has_cmd_role }) => {
            if has_cmd_role {
                (CmdState::AwaitConnection, CmdAction::Connect)
            } else {
                (CmdState::Finished, CmdAction::Refuse(CmdRefusal::NotPermitted))
            }
        },
        (CmdState::AwaitConnection, CmdEvent::Connected { ok }) => {
            if ok {
                (CmdState::AwaitResponse, CmdAction::Run)
            } else {
                (CmdState::Finished, CmdAction::FailConnection)
            }
        },
        (CmdState::AwaitResponse, CmdEvent::Responded) => (CmdState::Finished, CmdAction::Report),
        (s, _) => (s, CmdAction::Ignore),
    }
}

/// The actions of `\cmd` for a run of events from state `s`.
pub open spec fn cmd_actions(s: CmdState, events: Seq<CmdEvent>) -> Seq<CmdAction>
    decreases events.len(),
{
    if events.len() == 0 {
        Seq::empty()
    } else {
        let (next, a) = cmd_transition(s, events[0]);
        seq![a] + cmd_actions(next, events.drop_first())
    }
}

/// One step of `\cmd`.
pub fn cmd_step(s: CmdState, e: CmdEvent) -> (r: (CmdState, CmdAction))
    ensures
        r == cmd_transition(s, e),
{
    match (s, e) {
        (CmdState::AwaitGuild, CmdEvent::GuildFetched { guild_found, cmd_role_found }) => {
            if !guild_found {
                (CmdState::Finished, CmdAction::Refuse(CmdRefusal::NoGuild))
            } else if !cmd_role_found {
                (CmdState::Finished, CmdAction::Refuse(CmdRefusal::NoCmdRole))
            } else {
                (CmdState::AwaitRoleCheck, CmdAction::CheckRole)
            }
        },
        (CmdState::AwaitRoleCheck, CmdEvent::RoleChecked { has_cmd_role }) => {
            if has_cmd_role {
                (CmdState::AwaitConnection, CmdAction::Connect)
            } else {
                (CmdState::Finished, CmdAction::Refuse(CmdRefusal::NotPermitted))
            }
        },
        (CmdState::AwaitConnection, CmdEvent::Connected { ok }) => {
            if ok {
                (CmdState::AwaitResponse, CmdAction::Run)
            } else {
                (CmdState::Finished, CmdAction::FailConnection)
            }
        },
        (CmdState::AwaitResponse, CmdEvent::Responded) => (CmdState::Finished, CmdAction::Report),
        (s, _) => (s, CmdAction::Ignore),
    }
}

proof fn lemma_cmd_run_needs_role(s: CmdState, events: Seq<CmdEvent>)
    requires
        !(s is AwaitConnection),
        cmd_actions(s, events).contains(CmdAction::Run),
    ensures
        events.contains(CmdEvent::RoleChecked { has_cmd_role: true }),
    decreases events.len(),
{
    let (next, a) = cmd_transition(s, events[0]);
    let rest = events.drop_first();
    if a is Run {
        assert(false);
    }
    let i = choose|i: int| 0 <= i < cmd_actions(s, events).len() && cmd_actions(s, events)[i]
        == CmdAction::Run;
    assert(i > 0);
    assert(cmd_actions(next, rest)[i - 1] == CmdAction::Run);
    if next is AwaitConnection {
        assert(events[0] == CmdEvent::RoleChecked { has_cmd_role: true });
    } else {
        lemma_cmd_run_needs_role(next, rest);
        let j = choose|j: int| 0 <= j < rest.len() && rest[j] == CmdEvent::RoleChecked {
            has_cmd_role: true,
        };
        assert(events[j + 1] == rest[j]);
    }
}

/// `\cmd` runs a server command only for a member who holds the `cmd` role: in any run of
/// events from the start, the command runs only if a role check came back positive.
pub proof fn lemma_cmd_runs_only_for_cmd_role(events: Seq<CmdEvent>)
    ensures
        cmd_actions(CmdState::AwaitGuild, events).contains(CmdAction::Run) ==> events.contains(
            CmdEvent::RoleChecked { has_cmd_role: true },
        ),
{
    if cmd_actions(CmdState::AwaitGuild, events).contains(CmdAction::Run) {
        lemma_cmd_run_needs_role(CmdState::AwaitGuild, events);
    }
}

impl CmdRefusal {
    /// The reply for a refusal.
    pub fn reply(&self) -> (r: &'static str)
        ensures
            r@ == match self {
                CmdRefusal::NoGuild => "Cannot get partial_guild"@,
                CmdRefusal::NoCmdRole => "Cannot get cmd role"@,
                CmdRefusal::NotPermitted => "You do not have cmd role"@,
            },
    {
        match self {
            CmdRefusal::NoGuild => "Cannot get partial_guild",
            CmdRefusal::NoCmdRole => "Cannot get cmd role",
            CmdRefusal::NotPermitted => "You do not have cmd role",
        }
    }
}

/// The name that `\say` shows: the nickname on the server, else the display name,
/// else the user name.
pub open spec fn say_name(nick: Option<Seq<char>>, global_name: Option<Seq<char>>, name: Seq<char>) -> Seq<char> {
    match nick {
        Some(n) => n,
        None => match global_name {
            Some(g) => g,
            None => name,
        },
    }
}

/// The name that `\say` shows is the member's nickname on the server whenever there is
/// one, whatever the display name; without a nickname it is the display name, and
/// without either the user name.
pub proof fn lemma_say_name(nick: Seq<char>, global_name: Option<Seq<char>>, display: Seq<char>, name: Seq<char>)
    ensures
        say_name(Some(nick), global_name, name) == nick,
        say_name(None, Some(display), name) == display,
        say_name(None, None, name) == name,
{
}

/// The server command that `\say` runs: `say <name> message`.
pub fn say_command(nick: Option<&str>, global_name: Option<&str>, name: &str, message: &str) -> (r: String)
    ensures
        r@ == "say <"@ + say_name(
            match nick {
                Some(n) => Some(n@),
                None => None,
            },
            match global_name {
                Some(g) => Some(g@),
                None => None,
            },
            name@,
        ) + "> "@ + message@,
{
    let who = match nick {
        Some(n) => n,
        None => match global_name {
            Some(g) => g,
            None => name,
        },
    };
    let mut r = String::from_str("say <");
    r.append(who);
    r.append("> ");
    r.append(message);
    r
}

/// The address of the RCON port of the Minecraft server.
pub fn rcon_address(host: &str) -> (r: String)
    ensures
        r@ == host@ + ":25575"@,
{
    concat_str(host, ":25575")
}

/// The activity that the bot shows: `N player(s) online`.
pub fn status_text(online: u32) -> (r: String)
    ensures
        r@ == crate::number::decimal(online as nat) + " player(s) online"@,
{
    let mut r = crate::number::decimal_string(online);
    r.append(" player(s) online");
    r
}

} // verus!
