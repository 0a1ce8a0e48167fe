//! Players joining or leaving: `name joined the game`, `name left the game`.
use vstd::prelude::*;
use crate::minecraft_line::{LineParts, MinecraftLine};
use crate::send_rule::{from_server_info, is_server_info, opt_view, SendRule};
use crate::text::{chars_of, elem_matches, newline_free, no_newline, phrase_at, phrase_at_exec};

verus! {

#[derive(Clone)]
pub struct LoginRule;

/// `t` ends with the phrase `p` and what comes before it holds no newline.
pub open spec fn ends_with_phrase(t: Seq<char>, p: Seq<char>) -> bool {
    &&& p.len() <= t.len()
    &&& phrase_at(p, t, t.len() - p.len())
    &&& no_newline(t.subrange(0, t.len() - p.len()))
}

/// `**name** left the game` or `**name** joined the game`
/// (pattern `^(.*)\s(joined|left)\sthe\sgame$`).
pub open spec fn login_output(t: Seq<char>) -> Option<Seq<char>> {
    let left = " left the game"@;
    let joined = " joined the game"@;
    if ends_with_phrase(t, left) {
        Some("**"@ + t.subrange(0, t.len() - left.len()) + "** left the game"@)
    } else if ends_with_phrase(t, joined) {
        Some("**"@ + t.subrange(0, t.len() - joined.len()) + "** joined the game"@)
    } else {
        None
    }
}

/// `name joined the game` is sent as `**name** joined the game`, for any name on one line.
pub proof fn lemma_joined_line(name: Seq<char>)
    requires
        no_newline(name),
    ensures
        login_output(name + " joined the game"@) == Some("**"@ + name + "** joined the game"@),
{
    reveal_strlit(" joined the game");
    reveal_strlit(" left the game");
    let t = name + " joined the game"@;
    assert(t[t.len() - 14] == 'o');
    assert(!elem_matches(" left the game"@[0], t[t.len() - 14 + 0]));
    assert(!ends_with_phrase(t, " left the game"@));
    assert(t.subrange(0, t.len() - 16) =~= name);
    assert forall|k: int| 0 <= k < 16 implies elem_matches(#[trigger] " joined the game"@[k], t[t.len() - 16 + k]) by {
        assert(t[t.len() - 16 + k] == " joined the game"@[k]);
    }
    assert(ends_with_phrase(t, " joined the game"@));
}

/// `name left the game` is sent as `**name** left the game`, for any name on one line.
pub proof fn lemma_left_line(name: Seq<char>)
    requires
        no_newline(name),
    ensures
        login_output(name + " left the game"@) == Some("**"@ + name + "** left the game"@),
{
    reveal_strlit(" left the game");
    let t = name + " left the game"@;
    assert(t.subrange(0, t.len() - 14) =~= name);
    assert forall|k: int| 0 <= k < 14 implies elem_matches(#[trigger] " left the game"@[k], t[t.len() - 14 + k]) by {
        assert(t[t.len() - 14 + k] == " left the game"@[k]);
    }
    assert(ends_with_phrase(t, " left the game"@));
}

/// Whether `t` ends with the phrase `p`, the rest holding no newline.
fn ends_with_phrase_exec(t: &Vec<char>, p: &Vec<char>) -> (r: bool)
    ensures
        r == ends_with_phrase(t@, p@),
{
    p.len() <= t.len() && phrase_at_exec(p, t, t.len() - p.len()) && newline_free(
        t,
        0,
        t.len() - p.len(),
    )
}

/// The message for a line that tells of a player joining or leaving.
pub fn login_message(msg: &str) -> (r: Option<String>)
    ensures
        opt_view(r) == login_output(msg@),
{
    let t = chars_of(msg);
    let left = chars_of(" left the game");
    let joined = chars_of(" joined the game");
    if ends_with_phrase_exec(&t, &left) {
        let mut r = String::from_str("**");
        r.append(msg.substring_char(0, t.len() - left.len()));
        r.append("** left the game");
        Some(r)
    } else if ends_with_phrase_exec(&t, &joined) {
        let mut r = String::from_str("**");
        r.append(msg.substring_char(0, t.len() - joined.len()));
        r.append("** joined the game");
        Some(r)
    } else {
        None
    }
}

/// What the rule sends for a line: only lines of the server thread at `INFO` count.
pub open spec fn login_send(parts: LineParts) -> Option<Seq<char>> {
    if from_server_info(parts.1, parts.2) {
        login_output(parts.3)
    } else {
        None
    }
}

impl SendRule for LoginRule {
    fn send(&self, line: &MinecraftLine) -> (r: Option<String>)
        ensures
            opt_view(r) == login_send(line.parts()),
    {
        if !is_server_info(line) {
            return None;
        }
        login_message(line.message.as_str())
    }
}

} // verus!
