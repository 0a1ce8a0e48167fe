//! Chat lines: `<player> message`.
use vstd::prelude::*;
use crate::minecraft_line::{LineParts, MinecraftLine};
use crate::send_rule::{from_server_info, is_server_info, opt_view, SendRule};
use crate::text::{chars_of, is_whitespace_char, is_ws, newline_free, no_newline};

verus! {

#[derive(Clone)]
pub struct ChatRule;

/// `t` reads `<name>` + whitespace + text, where the name ends at position `k`
/// (pattern `^<(.*?)>\s(.*)$`).
pub open spec fn chat_split(t: Seq<char>, k: int) -> bool {
    &&& 1 <= k
    &&& k + 2 <= t.len()
    &&& t[0] == '<'
    &&& t[k] == '>'
    &&& is_ws(t[k + 1])
    &&& no_newline(t.subrange(1, k))
    &&& no_newline(t.subrange(k + 2, t.len() as int))
}

/// The name is the shortest one that fits.
pub open spec fn chat_split_first(t: Seq<char>, k: int) -> bool {
    chat_split(t, k) && forall|k2: int| #[trigger] chat_split(t, k2) ==> k <= k2
}

/// `**name**: text` for a chat line, `None` for any other message.
pub open spec fn chat_output(t: Seq<char>) -> Option<Seq<char>> {
    if exists|k: int| chat_split_first(t, k) {
        let k = choose|k: int| chat_split_first(t, k);
        Some("**"@ + t.subrange(1, k) + "**: "@ + t.subrange(k + 2, t.len() as int))
    } else {
        None
    }
}

/// What the chat rule sends for a line: it looks at the message alone.
pub open spec fn chat_send(parts: LineParts) -> Option<Seq<char>> {
    chat_output(parts.3)
}

/// What a player says in chat, `<name> text`, is sent as `**name**: text`, for any name
/// without `>` and any text on one line.
pub proof fn lemma_chat_line(name: Seq<char>, text: Seq<char>)
    requires
        forall|i: int| 0 <= i < name.len() ==> name[i] != '>' && name[i] != '\n',
        no_newline(text),
    ensures
        chat_output(seq!['<'] + name + seq!['>', ' '] + text) == Some(
            "**"@ + name + "**: "@ + text,
        ),
{
    let t = seq!['<'] + name + seq!['>', ' '] + text;
    let k: int = name.len() as int + 1;
    assert(t[k] == '>');
    assert(is_ws(t[k + 1]));
    assert(t.subrange(1, k) =~= name);
    assert(t.subrange(k + 2, t.len() as int) =~= text);
    assert(chat_split(t, k));
    assert forall|k2: int| #[trigger] chat_split(t, k2) implies k <= k2 by {
        if k2 < k {
            assert(t[k2] == name[k2 - 1]);
        }
    }
    assert(chat_split_first(t, k));
    let kc = choose|k: int| chat_split_first(t, k);
    assert(kc == k);
}

/// Only a message that starts with `<` is chat.
pub proof fn lemma_chat_needs_angle(t: Seq<char>)
    requires
        t.len() == 0 || t[0] != '<',
    ensures
        chat_output(t) is None,
{
    assert forall|k: int| !chat_split_first(t, k) by {}
}

impl ChatRule {
    /// Whether the rule would forward the line: a chat line of the server thread at `INFO`.
    pub fn allow_send(&self, line: &MinecraftLine) -> (r: bool)
        ensures
            r == (from_server_info(line.caused_at@, line.level@) && chat_output(line.message@) is Some),
    {
        if !is_server_info(line) {
            return false;
        }
        chat_message(line.message.as_str()).is_some()
    }
}

impl SendRule for ChatRule {
    fn send(&self, line: &MinecraftLine) -> (r: Option<String>)
        ensures
            opt_view(r) == chat_send(line.parts()),
    {
        chat_message(line.message.as_str())
    }
}

/// `**name**: text` for a chat message.
pub fn chat_message(msg: &str) -> (r: Option<String>)
    ensures
        opt_view(r) == chat_output(msg@),
{
    let t = chars_of(msg);
    let n = t.len();
    if n < 3 || t[0] != '<' {
        assert forall|k: int| !chat_split(msg@, k) by {}
        return None;
    }
    let mut k: usize = 1;
    while k <= n - 2
        invariant
            t@ == msg@,
            n == t.len(),
            n >= 3,
            t@[0] == '<',
            1 <= k <= n - 1,
            forall|k2: int| 0 <= k2 < k ==> !chat_split(msg@, k2),
        decreases n - k,
    {
        if t[k] == '>' && is_whitespace_char(t[k + 1]) && newline_free(&t, 1, k) && newline_free(
            &t,
            k + 2,
            n,
        ) {
            assert(chat_split(msg@, k as int));
            assert(chat_split_first(msg@, k as int));
            let ghost kc = choose|k: int| chat_split_first(msg@, k);
            assert(kc == k);
            let mut r = String::from_str("**");
            r.append(msg.substring_char(1, k));
            r.append("**: ");
            r.append(msg.substring_char(k + 2, n));
            return Some(r);
        }
        k += 1;
    }
    assert forall|k2: int| !chat_split_first(msg@, k2) by {
        if chat_split(msg@, k2) {
            assert(k2 < k);
        }
    }
    None
}

} // verus!
