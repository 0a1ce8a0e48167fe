//! Advancements: `name has made the advancement [kind]`.
use vstd::prelude::*;
use crate::minecraft_line::{LineParts, MinecraftLine};
use crate::send_rule::{from_server_info, is_server_info, opt_view, SendRule};
use crate::text::{chars_of, elem_matches, newline_free, no_newline, phrase_at, phrase_at_exec};

verus! {

#[derive(Clone)]
pub struct AdvancementRule;

/// `t` reads name + `"  has made the advancement ["` + kind + `"]"`, the name ending at `k`
/// (pattern `^(.*)\s\shas\smade\sthe\sadvancement\s\[(.*)\]$`).
pub open spec fn advancement_split(t: Seq<char>, k: int) -> bool {
    let p = "  has made the advancement ["@;
    &&& 0 <= k
    &&& k + p.len() < t.len()
    &&& phrase_at(p, t, k)
    &&& t[t.len() - 1] == ']'
    &&& no_newline(t.subrange(0, k))
    &&& no_newline(t.subrange(k + p.len(), t.len() - 1))
}

/// The name is the longest one that fits.
pub open spec fn advancement_split_last(t: Seq<char>, k: int) -> bool {
    advancement_split(t, k) && forall|k2: int| #[trigger] advancement_split(t, k2) ==> k2 <= k
}

/// `**name** has made the advancement _**kind**_`.
pub open spec fn advancement_output(t: Seq<char>) -> Option<Seq<char>> {
    if exists|k: int| advancement_split_last(t, k) {
        let k = choose|k: int| advancement_split_last(t, k);
        let p = "  has made the advancement ["@;
        Some(
            "**"@ + t.subrange(0, k) + "** has made the advancement _**"@ + t.subrange(
                k + p.len(),
                t.len() - 1,
            ) + "**_"@,
        )
    } else {
        None
    }
}

/// `name  has made the advancement [kind]` is sent as
/// `**name** has made the advancement _**kind**_`, for any name on one line and any
/// kind on one line without `[`.
pub proof fn lemma_advancement_line(name: Seq<char>, kind: Seq<char>)
    requires
        no_newline(name),
        no_newline(kind),
        forall|i: int| 0 <= i < kind.len() ==> kind[i] != '[',
    ensures
        advancement_output(name + "  has made the advancement ["@ + kind + seq![']']) == Some(
            "**"@ + name + "** has made the advancement _**"@ + kind + "**_"@,
        ),
{
    let p = "  has made the advancement ["@;
    reveal_strlit("  has made the advancement [");
    assert(p.len() == 28);
    let t = name + p + kind + seq![']'];
    let k = name.len() as int;
    assert(t.len() == k + 28 + kind.len() + 1);
    assert forall|j: int| 0 <= j < p.len() implies elem_matches(#[trigger] p[j], t[k + j]) by {
        assert(t[k + j] == p[j]);
    }
    assert(t.subrange(0, k) =~= name);
    assert(t.subrange(k + p.len(), t.len() - 1) =~= kind);
    assert(t[t.len() - 1] == ']');
    assert(advancement_split(t, k));
    assert forall|k2: int| #[trigger] advancement_split(t, k2) implies k2 <= k by {
        if k2 > k {
            // the phrase at k2 ends with `[`, which would stand in the kind
            assert(elem_matches(p[27], t[k2 + 27]));
            assert(t[k2 + 27] == '[');
            assert(t[k2 + 27] == kind[k2 + 27 - k - 28]);
        }
    }
    assert(advancement_split_last(t, k));
    let kc = choose|k: int| advancement_split_last(t, k);
    assert(kc == k);
}

/// The message for a line that tells of an advancement.
pub fn advancement_message(msg: &str) -> (r: Option<String>)
    ensures
        opt_view(r) == advancement_output(msg@),
{
    let t = chars_of(msg);
    let p = chars_of("  has made the advancement [");
    let n = t.len();
    let pl = p.len();
    if n <= pl || t[n - 1] != ']' {
        assert forall|k: int| !advancement_split_last(msg@, k) by {}
        return None;
    }
    let mut k: usize = n - pl - 1;
    loop
        invariant
            t@ == msg@,
            p@ == "  has made the advancement ["@,
            n == t.len(),
            pl == p.len(),
            pl < n,
            t@[n - 1] == ']',
            k + pl < n,
            forall|k2: int| k < k2 ==> !advancement_split(msg@, k2),
        decreases k,
    {
        if phrase_at_exec(&p, &t, k) && newline_free(&t, 0, k) && newline_free(&t, k + pl, n - 1) {
            assert(advancement_split(msg@, k as int));
            assert(advancement_split_last(msg@, k as int));
            let ghost kc = choose|k: int| advancement_split_last(msg@, k);
            assert(kc == k);
            let mut r = String::from_str("**");
            r.append(msg.substring_char(0, k));
            r.append("** has made the advancement _**");
            r.append(msg.substring_char(k + pl, n - 1));
            r.append("**_");
            return Some(r);
        }
        if k == 0 {
            assert forall|k2: int| !advancement_split_last(msg@, k2) by {
                if advancement_split(msg@, k2) {
                    assert(k2 <= 0);
                }
            }
            return None;
        }
        k -= 1;
    }
}

/// What the rule sends for a line: only lines of the server thread at `INFO` count.
pub open spec fn advancement_send(parts: LineParts) -> Option<Seq<char>> {
    if from_server_info(parts.1, parts.2) {
        advancement_output(parts.3)
    } else {
        None
    }
}

impl SendRule for AdvancementRule {
    fn send(&self, line: &MinecraftLine) -> (r: Option<String>)
        ensures
            opt_view(r) == advancement_send(line.parts()),
    {
        if !is_server_info(line) {
            return None;
        }
        advancement_message(line.message.as_str())
    }
}

} // verus!
