//! Server start and stop lines.
use vstd::prelude::*;
use crate::minecraft_line::{LineParts, MinecraftLine};
use crate::send_rule::{bold, bold_text, from_server_info, is_server_info, opt_view, SendRule};
use crate::text::{
    chars_of, elem_matches, lemma_gap_span, lemma_literal_then, newline_free, no_newline,
    pattern_from, pattern_from_exec, phrase_at, phrase_at_exec,
};

verus! {

#[derive(Clone)]
pub struct ServerRule;

/// `^Starting\sminecraft\sserver\sversion\s.*$`
pub open spec fn is_starting(t: Seq<char>) -> bool {
    let p = "Starting minecraft server version "@;
    phrase_at(p, t, 0) && no_newline(t.subrange(p.len() as int, t.len() as int))
}

/// `^Stopping\sserver$`
pub open spec fn is_stopping(t: Seq<char>) -> bool {
    let p = "Stopping server"@;
    t.len() == p.len() && phrase_at(p, t, 0)
}

/// `^Done\s\(.*s\)!`
pub open spec fn is_done(t: Seq<char>) -> bool {
    pattern_from("Done (|s)!"@, t, 0, 0)
}

/// A line about the server starting, being ready or stopping.
pub open spec fn is_server_event(t: Seq<char>) -> bool {
    is_starting(t) || is_stopping(t) || is_done(t)
}

/// The server's start and stop lines are server events: `Starting minecraft server version
/// V` for any version on one line, `Stopping server`, and `Done (Ts)!` followed by
/// anything, for any time `T` on one line.
pub proof fn lemma_server_events(version: Seq<char>, time: Seq<char>, rest: Seq<char>)
    requires
        no_newline(version),
        no_newline(time),
    ensures
        is_server_event("Starting minecraft server version "@ + version),
        is_server_event("Stopping server"@),
        is_server_event("Done ("@ + time + "s)!"@ + rest),
{
    reveal_strlit("Starting minecraft server version ");
    reveal_strlit("Stopping server");
    reveal_strlit("Done (");
    reveal_strlit("s)!");
    reveal_strlit("Done (|s)!");
    let sp = "Starting minecraft server version "@;
    let st = sp + version;
    assert forall|k: int| 0 <= k < sp.len() implies elem_matches(#[trigger] sp[k], st[0 + k]) by {
        assert(st[k] == sp[k]);
    }
    assert(st.subrange(sp.len() as int, st.len() as int) =~= version);
    assert(is_starting(st));
    let so = "Stopping server"@;
    assert forall|k: int| 0 <= k < so.len() implies elem_matches(#[trigger] so[k], so[0 + k]) by {}
    assert(is_stopping(so));
    let p = "Done (|s)!"@;
    let t = "Done ("@ + time + "s)!"@ + rest;
    let n = time.len() as int;
    assert(pattern_from(p, t, 10, 9 + n));
    assert forall|k: int| 7 <= k < 10 implies p[k] != '|' && elem_matches(#[trigger] p[k], t[6 + n + k - 7]) by {}
    lemma_literal_then(p, t, 7, 6 + n, 10);
    assert(t.subrange(6, 6 + n) =~= time);
    lemma_gap_span(p, t, 6, 6, n);
    assert forall|k: int| 0 <= k < 6 implies p[k] != '|' && elem_matches(#[trigger] p[k], t[0 + k - 0]) by {}
    lemma_literal_then(p, t, 0, 0, 6);
}

pub fn is_server_event_exec(msg: &str) -> (r: bool)
    ensures
        r == is_server_event(msg@),
{
    let t = chars_of(msg);
    let starting = chars_of("Starting minecraft server version ");
    if phrase_at_exec(&starting, &t, 0) && newline_free(&t, starting.len(), t.len()) {
        return true;
    }
    let stopping = chars_of("Stopping server");
    if t.len() == stopping.len() && phrase_at_exec(&stopping, &t, 0) {
        return true;
    }
    let done = chars_of("Done (|s)!");
    pattern_from_exec(&done, &t, 0, 0)
}

/// What the rule sends for a line: the message in bold, for lines of the server
/// thread at `INFO` only.
pub open spec fn server_send(parts: LineParts) -> Option<Seq<char>> {
    if from_server_info(parts.1, parts.2) && is_server_event(parts.3) {
        Some(bold(parts.3))
    } else {
        None
    }
}

impl SendRule for ServerRule {
    fn send(&self, line: &MinecraftLine) -> (r: Option<String>)
        ensures
            opt_view(r) == server_send(line.parts()),
    {
        if !is_server_info(line) {
            return None;
        }
        if is_server_event_exec(line.message.as_str()) {
            Some(bold_text(line.message.as_str()))
        } else {
            None
        }
    }
}

} // verus!
