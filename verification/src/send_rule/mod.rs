//! Rules that turn a server log line into a message for the Discord channel.
use vstd::prelude::*;
use crate::minecraft_line::{lacks, lemma_server_line_parts, log_parts, server_line, LineParts, MinecraftLine};
use crate::text::{contains_str, no_newline, seq_contains, str_equal};
use self::advancement_rule::{advancement_send, AdvancementRule};
use self::chat_rule::{chat_send, lemma_chat_line, ChatRule};
use self::death_rule::{death_send, DeathRule};
use self::login_rule::{lemma_joined_line, login_send, LoginRule};
use self::server_rule::{server_send, ServerRule};

pub mod advancement_rule;
pub mod chat_rule;
pub mod death_rule;
pub mod login_rule;
pub mod server_rule;

verus! {

/// A rule that may turn a log line into a message for the channel.
pub trait SendRule {
    fn send(&self, line: &MinecraftLine) -> Option<String>;
}

/// The text of an optional message.
pub open spec fn opt_view(o: Option<String>) -> Option<Seq<char>> {
    match o {
        Some(s) => Some(s@),
        None => None,
    }
}

/// The line was written by the server thread at level `INFO`.
pub open spec fn from_server_info(caused_at: Seq<char>, level: Seq<char>) -> bool {
    seq_contains(caused_at, "Server thread"@) && level == "INFO"@
}

/// `text` set in bold: `**text**`.
pub open spec fn bold(text: Seq<char>) -> Seq<char> {
    "**"@ + text + "**"@
}

pub fn is_server_info(line: &MinecraftLine) -> (r: bool)
    ensures
        r == from_server_info(line.caused_at@, line.level@),
{
    contains_str(line.caused_at.as_str(), "Server thread") && str_equal(line.level.as_str(), "INFO")
}

pub fn bold_text(text: &str) -> (r: String)
    ensures
        r@ == bold(text@),
{
    let mut r = String::from_str("**");
    r.append(text);
    r.append("**");
    r
}

/// The rules a line is offered to.
#[derive(Clone, Copy)]
pub enum RuleKind {
    Chat,
    Login,
    Advancement,
    Server,
    Death,
}

/// What one rule sends for a line.
pub open spec fn rule_send(kind: RuleKind, parts: LineParts) -> Option<Seq<char>> {
    match kind {
        RuleKind::Chat => chat_send(parts),
        RuleKind::Login => login_send(parts),
        RuleKind::Advancement => advancement_send(parts),
        RuleKind::Server => server_send(parts),
        RuleKind::Death => death_send(parts),
    }
}

/// The messages that a list of rules sends for a line, in the order of the rules.
pub open spec fn rules_send(rules: Seq<RuleKind>, parts: LineParts) -> Seq<Seq<char>>
    decreases rules.len(),
{
    if rules.len() == 0 {
        Seq::empty()
    } else {
        let before = rules_send(rules.drop_last(), parts);
        match rule_send(rules.last(), parts) {
            Some(m) => before.push(m),
            None => before,
        }
    }
}

/// The texts of a list of messages.
pub open spec fn texts(v: Seq<String>) -> Seq<Seq<char>> {
    v.map_values(|s: String| s@)
}

/// The messages that the rules send for a raw log line; none where the line
/// does not follow the log grammar.
pub open spec fn log_line_send(rules: Seq<RuleKind>, line: Seq<char>) -> Seq<Seq<char>> {
    match log_parts(line) {
        Some(parts) => rules_send(rules, parts),
        None => Seq::empty(),
    }
}

impl RuleKind {
    pub fn send(&self, line: &MinecraftLine) -> (r: Option<String>)
        ensures
            opt_view(r) == rule_send(*self, line.parts()),
    {
        match self {
            RuleKind::Chat => ChatRule.send(line),
            RuleKind::Login => LoginRule.send(line),
            RuleKind::Advancement => AdvancementRule.send(line),
            RuleKind::Server => ServerRule.send(line),
            RuleKind::Death => DeathRule.send(line),
        }
    }
}

/// Lines that are not from the server thread, or not at level `INFO`, are sent by no rule
/// but chat.
pub proof fn lemma_only_server_info_lines(parts: LineParts)
    requires
        !seq_contains(parts.1, "Server thread"@) || parts.2 != "INFO"@,
    ensures
        login_send(parts) is None,
        advancement_send(parts) is None,
        server_send(parts) is None,
        death_send(parts) is None,
{
}

/// The rules of the bot, in the order in which they see a line.
pub open spec fn default_rules() -> Seq<RuleKind> {
    seq![RuleKind::Chat, RuleKind::Login, RuleKind::Advancement, RuleKind::Server, RuleKind::Death]
}

proof fn lemma_rules_send_contains(rules: Seq<RuleKind>, parts: LineParts, i: int, m: Seq<char>)
    requires
        0 <= i < rules.len(),
        rule_send(rules[i], parts) == Some(m),
    ensures
        rules_send(rules, parts).contains(m),
    decreases rules.len(),
{
    let before = rules_send(rules.drop_last(), parts);
    if i == rules.len() - 1 {
        assert(rules_send(rules, parts) == before.push(m));
        assert(rules_send(rules, parts)[before.len() as int] == m);
    } else {
        assert(rules.drop_last()[i] == rules[i]);
        lemma_rules_send_contains(rules.drop_last(), parts, i, m);
        let j = choose|j: int| 0 <= j < before.len() && before[j] == m;
        match rule_send(rules.last(), parts) {
            Some(x) => assert(before.push(x)[j] == m),
            None => {},
        }
    }
}

/// What a player says in chat reaches the channel: a log line `[time] [thread/level]: <name> text`
/// yields the message `**name**: text`.
pub proof fn lemma_chat_reaches_channel(
    time: Seq<char>,
    thread: Seq<char>,
    level: Seq<char>,
    name: Seq<char>,
    text: Seq<char>,
)
    requires
        time.len() > 0 && lacks(time, ']'),
        thread.len() > 0 && lacks(thread, '/'),
        level.len() > 0 && lacks(level, ']'),
        forall|i: int| 0 <= i < name.len() ==> name[i] != '>' && name[i] != '\n',
        no_newline(text),
    ensures
        log_line_send(
            default_rules(),
            server_line(time, thread, level, seq!['<'] + name + seq!['>', ' '] + text),
        ).contains("**"@ + name + "**: "@ + text),
{
    let msg = seq!['<'] + name + seq!['>', ' '] + text;
    assert forall|i: int| 0 <= i < msg.len() implies msg[i] != '\n' by {
        if 1 <= i < name.len() + 1 {
            assert(msg[i] == name[i - 1]);
        } else if i >= name.len() + 3 {
            assert(msg[i] == text[i - name.len() - 3]);
        }
    }
    lemma_server_line_parts(time, thread, level, msg);
    lemma_chat_line(name, text);
    lemma_rules_send_contains(default_rules(), (time, thread, level, msg), 0, "**"@ + name + "**: "@ + text);
}

/// A player joining reaches the channel: a log line
/// `[time] [Server thread/INFO]: name joined the game` yields `**name** joined the game`.
pub proof fn lemma_join_reaches_channel(time: Seq<char>, thread: Seq<char>, name: Seq<char>)
    requires
        time.len() > 0 && lacks(time, ']'),
        thread.len() > 0 && lacks(thread, '/'),
        seq_contains(thread, "Server thread"@),
        no_newline(name),
    ensures
        log_line_send(
            default_rules(),
            server_line(time, thread, "INFO"@, name + " joined the game"@),
        ).contains("**"@ + name + "** joined the game"@),
{
    reveal_strlit("INFO");
    reveal_strlit(" joined the game");
    let msg = name + " joined the game"@;
    assert forall|i: int| 0 <= i < msg.len() implies msg[i] != '\n' by {
        if i < name.len() {
            assert(msg[i] == name[i]);
        }
    }
    lemma_server_line_parts(time, thread, "INFO"@, msg);
    lemma_joined_line(name);
    lemma_rules_send_contains(default_rules(), (time, thread, "INFO"@, msg), 1, "**"@ + name + "** joined the game"@);
}

/// The send rules that the log lines pass through, in order.
pub struct SendRules {
    pub rules: Vec<RuleKind>,
}

impl SendRules {
    /// The rules of the bot: chat, joining and leaving, advancements, server events, deaths.
    pub fn new() -> (r: Self)
        ensures
            r.rules@ == default_rules(),
    {
        let mut rules = Vec::new();
        rules.push(RuleKind::Chat);
        rules.push(RuleKind::Login);
        rules.push(RuleKind::Advancement);
        rules.push(RuleKind::Server);
        rules.push(RuleKind::Death);
        SendRules { rules }
    }

    /// The messages for a line: each rule that answers adds its message, in rule order.
    pub fn messages(&self, line: &MinecraftLine) -> (r: Vec<String>)
        ensures
            texts(r@) == rules_send(self.rules@, line.parts()),
    {
        let mut out: Vec<String> = Vec::new();
        let mut i: usize = 0;
        while i < self.rules.len()
            invariant
                i <= self.rules.len(),
                texts(out@) == rules_send(self.rules@.take(i as int), line.parts()),
            decreases self.rules.len() - i,
        {
            let ghost before = out@;
            let m = self.rules[i].send(line);
            assert(self.rules@.take(i + 1).drop_last() == self.rules@.take(i as int));
            match m {
                Some(s) => {
                    out.push(s);
                    assert(texts(out@) == texts(before).push(out@.last()@));
                },
                None => {},
            }
            i += 1;
        }
        assert(self.rules@.take(self.rules.len() as int) == self.rules@);
        out
    }

    /// The messages for a raw line of the server log.
    pub fn log_line_messages(&self, raw: &str) -> (r: Vec<String>)
        ensures
            texts(r@) == log_line_send(self.rules@, raw@),
    {
        match MinecraftLine::from_log_line(raw) {
            Some(line) => self.messages(&line),
            None => Vec::new(),
        }
    }
}

} // verus!
