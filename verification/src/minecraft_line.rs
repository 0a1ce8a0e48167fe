//! One line of the Minecraft server log, split into its parts.
//!
//! The server writes lines such as
//! `[12:34:56] [Server thread/INFO]: <player> message`, or, in the Forge format,
//! `[31Dec2023 03:57:20.886] [Server thread/INFO] [minecraft/Server]: <player> message`.
//! The grammar is
//! `\[(?P<time>[^\]]+)] \[(?P<caused_at>[^/]+)/(?P<level>[^\]]+)](?: \[[^\]]+])?: (?P<message>.*)`,
//! searched for from the left of the line.
use vstd::prelude::*;
use crate::text::{chars_of, first_from, first_index, lemma_first_from, no_newline};

verus! {

#[derive(Debug, Clone)]
pub struct MinecraftLine {
    pub time: String,
    pub caused_at: String,
    pub level: String,
    pub message: String,
}

/// The four parts of a log line: time, thread (`caused_at`), level and message.
pub type LineParts = (Seq<char>, Seq<char>, Seq<char>, Seq<char>);

/// The parts of the line when the grammar matches at position `p` of `t`.
///
/// Each part is forced: the time runs to the first `]`, the thread to the first `/`,
/// the level to the next `]`; an optional `[tag]` follows; the message runs from
/// after `": "` to the first newline.
pub open spec fn log_parts_at(t: Seq<char>, p: int) -> Option<LineParts> {
    let a = first_from(t, p + 1, ']');
    let b = first_from(t, a + 3, '/');
    let c = first_from(t, b + 1, ']');
    let d = first_from(t, c + 3, ']');
    let tagged = c + 2 < t.len() && t[c + 1] == ' ' && t[c + 2] == '[' && d > c + 3 && d + 2
        < t.len() && t[d + 1] == ':' && t[d + 2] == ' ';
    let plain = c + 2 < t.len() && t[c + 1] == ':' && t[c + 2] == ' ';
    if 0 <= p < t.len() && t[p] == '[' && a > p + 1 && a + 2 < t.len() && t[a + 1] == ' ' && t[a
        + 2] == '[' && b > a + 3 && b < t.len() && c > b + 1 && c < t.len() && (tagged || plain) {
        let m = if tagged {
            d + 3
        } else {
            c + 3
        };
        Some(
            (
                t.subrange(p + 1, a),
                t.subrange(a + 3, b),
                t.subrange(b + 1, c),
                t.subrange(m, first_from(t, m, '\n')),
            ),
        )
    } else {
        None
    }
}

/// The leftmost match of the grammar at or after position `p`.
pub open spec fn log_parts_from(t: Seq<char>, p: int) -> Option<LineParts>
    decreases t.len() - p,
{
    if 0 <= p < t.len() {
        match log_parts_at(t, p) {
            Some(parts) => Some(parts),
            None => log_parts_from(t, p + 1),
        }
    } else {
        None
    }
}

/// The parts of a log line, or `None` where the line does not follow the grammar.
pub open spec fn log_parts(t: Seq<char>) -> Option<LineParts> {
    log_parts_from(t, 0)
}

/// No character of `s` is `c`.
pub open spec fn lacks(s: Seq<char>, c: char) -> bool {
    forall|i: int| 0 <= i < s.len() ==> s[i] != c
}

/// A line as the server writes it: `[time] [thread/level]: message`.
pub open spec fn server_line(time: Seq<char>, thread: Seq<char>, level: Seq<char>, message: Seq<char>) -> Seq<char> {
    seq!['['] + time + seq![']', ' ', '['] + thread + seq!['/'] + level + seq![']', ':', ' ']
        + message
}

/// A line as a Forge server writes it: `[time] [thread/level] [tag]: message`.
pub open spec fn forge_line(
    time: Seq<char>,
    thread: Seq<char>,
    level: Seq<char>,
    tag: Seq<char>,
    message: Seq<char>,
) -> Seq<char> {
    seq!['['] + time + seq![']', ' ', '['] + thread + seq!['/'] + level + seq![']', ' ', '[']
        + tag + seq![']', ':', ' '] + message
}

/// The parts that a line may have: none empty, the time and level without `]`,
/// the thread without `/`, the message on one line.
pub open spec fn well_formed_parts(
    time: Seq<char>,
    thread: Seq<char>,
    level: Seq<char>,
    message: Seq<char>,
) -> bool {
    &&& time.len() > 0 && lacks(time, ']')
    &&& thread.len() > 0 && lacks(thread, '/')
    &&& level.len() > 0 && lacks(level, ']')
    &&& no_newline(message)
}

proof fn lemma_first_at(t: Seq<char>, i: int, j: int, c: char)
    requires
        0 <= i <= j <= t.len(),
        j < t.len() ==> t[j] == c,
        forall|k: int| i <= k < j ==> t[k] != c,
    ensures
        first_from(t, i, c) == j,
    decreases j - i,
{
    if i < j {
        lemma_first_at(t, i + 1, j, c);
    }
}

/// Every line that the server writes in its plain format is read back into the parts
/// it was written from.
pub proof fn lemma_server_line_parts(
    time: Seq<char>,
    thread: Seq<char>,
    level: Seq<char>,
    message: Seq<char>,
)
    requires
        well_formed_parts(time, thread, level, message),
    ensures
        log_parts(server_line(time, thread, level, message)) == Some((time, thread, level, message)),
{
    let t = server_line(time, thread, level, message);
    let a: int = time.len() as int + 1;
    let b: int = a + 3 + thread.len();
    let c: int = b + 1 + level.len();
    let m: int = c + 3;
    assert(t.len() == m + message.len());
    assert forall|k: int| 1 <= k < a implies t[k] != ']' by {
        assert(t[k] == time[k - 1]);
    }
    assert(t[a] == ']' && t[a + 1] == ' ' && t[a + 2] == '[');
    assert forall|k: int| a + 3 <= k < b implies t[k] != '/' by {
        assert(t[k] == thread[k - a - 3]);
    }
    assert(t[b] == '/');
    assert forall|k: int| b + 1 <= k < c implies t[k] != ']' by {
        assert(t[k] == level[k - b - 1]);
    }
    assert(t[c] == ']' && t[c + 1] == ':' && t[c + 2] == ' ');
    assert forall|k: int| m <= k < t.len() implies t[k] != '\n' by {
        assert(t[k] == message[k - m]);
    }
    lemma_first_at(t, 1, a, ']');
    lemma_first_at(t, a + 3, b, '/');
    lemma_first_at(t, b + 1, c, ']');
    lemma_first_at(t, m, t.len() as int, '\n');
    assert(t[0] == '[');
    assert(t.subrange(1, a) =~= time);
    assert(t.subrange(a + 3, b) =~= thread);
    assert(t.subrange(b + 1, c) =~= level);
    assert(t.subrange(m, t.len() as int) =~= message);
}

/// Every line that a Forge server writes is read back into the parts it was written
/// from; the tag is dropped.
pub proof fn lemma_forge_line_parts(
    time: Seq<char>,
    thread: Seq<char>,
    level: Seq<char>,
    tag: Seq<char>,
    message: Seq<char>,
)
    requires
        well_formed_parts(time, thread, level, message),
        tag.len() > 0,
        lacks(tag, ']'),
    ensures
        log_parts(forge_line(time, thread, level, tag, message)) == Some(
            (time, thread, level, message),
        ),
{
    let t = forge_line(time, thread, level, tag, message);
    let a: int = time.len() as int + 1;
    let b: int = a + 3 + thread.len();
    let c: int = b + 1 + level.len();
    let d: int = c + 3 + tag.len();
    let m: int = d + 3;
    assert(t.len() == m + message.len());
    assert forall|k: int| 1 <= k < a implies t[k] != ']' by {
        assert(t[k] == time[k - 1]);
    }
    assert(t[a] == ']' && t[a + 1] == ' ' && t[a + 2] == '[');
    assert forall|k: int| a + 3 <= k < b implies t[k] != '/' by {
        assert(t[k] == thread[k - a - 3]);
    }
    assert(t[b] == '/');
    assert forall|k: int| b + 1 <= k < c implies t[k] != ']' by {
        assert(t[k] == level[k - b - 1]);
    }
    assert(t[c] == ']' && t[c + 1] == ' ' && t[c + 2] == '[');
    assert forall|k: int| c + 3 <= k < d implies t[k] != ']' by {
        assert(t[k] == tag[k - c - 3]);
    }
    assert(t[d] == ']' && t[d + 1] == ':' && t[d + 2] == ' ');
    assert forall|k: int| m <= k < t.len() implies t[k] != '\n' by {
        assert(t[k] == message[k - m]);
    }
    lemma_first_at(t, 1, a, ']');
    lemma_first_at(t, a + 3, b, '/');
    lemma_first_at(t, b + 1, c, ']');
    lemma_first_at(t, c + 3, d, ']');
    lemma_first_at(t, m, t.len() as int, '\n');
    assert(t[0] == '[');
    assert(t.subrange(1, a) =~= time);
    assert(t.subrange(a + 3, b) =~= thread);
    assert(t.subrange(b + 1, c) =~= level);
    assert(t.subrange(m, t.len() as int) =~= message);
}

proof fn lemma_no_parts_from(t: Seq<char>, p: int)
    requires
        0 <= p,
        lacks(t, '[') || lacks(t, '/'),
    ensures
        log_parts_from(t, p) is None,
    decreases t.len() - p,
{
    if p < t.len() {
        lemma_no_parts_from(t, p + 1);
        let a = first_from(t, p + 1, ']');
        let b = first_from(t, a + 3, '/');
        if p + 1 <= t.len() {
            lemma_first_from(t, p + 1, ']');
            if 0 <= a + 3 <= t.len() {
                lemma_first_from(t, a + 3, '/');
            }
        }
    }
}

/// A line without `[`, or without `/`, is not a log line: nothing is read from it.
pub proof fn lemma_log_line_needs_brackets(t: Seq<char>)
    requires
        lacks(t, '[') || lacks(t, '/'),
    ensures
        log_parts(t) is None,
{
    lemma_no_parts_from(t, 0);
}

impl MinecraftLine {
    pub open spec fn parts(&self) -> LineParts {
        (self.time@, self.caused_at@, self.level@, self.message@)
    }

    pub fn new(time: String, caused_at: String, level: String, message: String) -> (r: Self)
        ensures
            r.time@ == time@,
            r.caused_at@ == caused_at@,
            r.level@ == level@,
            r.message@ == message@,
    {
        Self { time, caused_at, level, message }
    }

    /// Splits a raw log line into its parts.
    pub fn from_log_line(line: &str) -> (r: Option<Self>)
        ensures
            r is None <==> log_parts(line@) is None,
            r matches Some(l) ==> log_parts(line@) == Some(l.parts()),
    {
        let t = chars_of(line);
        let n = t.len();
        let mut p: usize = 0;
        while p < n
            invariant
                t@ == line@,
                n == t.len(),
                p <= n,
                log_parts(line@) == log_parts_from(line@, p as int),
            decreases n - p,
        {
            if let Some(r) = Self::parts_at(line, &t, p) {
                return Some(r);
            }
            p += 1;
        }
        None
    }

    fn parts_at(line: &str, t: &Vec<char>, p: usize) -> (r: Option<Self>)
        requires
            t@ == line@,
            p < t.len(),
        ensures
            r is None <==> log_parts_at(t@, p as int) is None,
            r matches Some(l) ==> log_parts_at(t@, p as int) == Some(l.parts()),
    {
        let n = t.len();
        if t[p] != '[' {
            return None;
        }
        let a = first_index(t, p + 1, ']');
        proof {
            lemma_first_from(t@, p + 1, ']');
        }
        if !(a > p + 1 && n - a > 2 && t[a + 1] == ' ' && t[a + 2] == '[') {
            return None;
        }
        let b = first_index(t, a + 3, '/');
        proof {
            lemma_first_from(t@, a + 3, '/');
        }
        if !(b > a + 3 && b < n) {
            return None;
        }
        let c = first_index(t, b + 1, ']');
        proof {
            lemma_first_from(t@, b + 1, ']');
        }
        if !(c > b + 1 && c < n) {
            return None;
        }
        let plain = n - c > 2 && t[c + 1] == ':' && t[c + 2] == ' ';
        let mut tagged = false;
        let mut d: usize = 0;
        if n - c >= 3 {
            d = first_index(t, c + 3, ']');
            proof {
                lemma_first_from(t@, c + 3, ']');
            }
            tagged = n - c > 2 && t[c + 1] == ' ' && t[c + 2] == '[' && d > c + 3 && n - d > 2
                && t[d + 1] == ':' && t[d + 2] == ' ';
        }
        if !(tagged || plain) {
            return None;
        }
        let m = if tagged {
            d + 3
        } else {
            c + 3
        };
        let e = first_index(t, m, '\n');
        proof {
            lemma_first_from(t@, m as int, '\n');
        }
        let time = String::from_str(line.substring_char(p + 1, a));
        let caused_at = String::from_str(line.substring_char(a + 3, b));
        let level = String::from_str(line.substring_char(b + 1, c));
        let message = String::from_str(line.substring_char(m, e));
        Some(Self::new(time, caused_at, level, message))
    }
}

} // verus!
