//! Character-level building blocks shared by the log-line grammar and the send rules.
//!
//! Texts are modelled as `Seq<char>`, the view of `str` and `String`.
//! Phrases are written in a small notation: a `' '` in a phrase stands for any
//! whitespace character, `'#'` for one character of the class
//! `[Intentional\sGame\sDesign]`, `'|'` for a (possibly empty) run of characters
//! other than a newline, and every other character stands for itself.
use vstd::prelude::*;

verus! {

/// Unicode `White_Space`, the set that `\s` denotes in a log pattern.
pub open spec fn is_ws(c: char) -> bool {
    let n = c as u32;
    ||| 0x09 <= n <= 0x0d
    ||| n == 0x20
    ||| n == 0x85
    ||| n == 0xa0
    ||| n == 0x1680
    ||| 0x2000 <= n <= 0x200a
    ||| n == 0x2028
    ||| n == 0x2029
    ||| n == 0x202f
    ||| n == 0x205f
    ||| n == 0x3000
}

/// The characters of `[Intentional\sGame\sDesign]`: the letters of those words, or whitespace.
pub open spec fn in_design_class(c: char) -> bool {
    ||| c == 'I' || c == 'n' || c == 't' || c == 'e' || c == 'o' || c == 'a' || c == 'l'
    ||| c == 'G' || c == 'm' || c == 'D' || c == 's' || c == 'i' || c == 'g'
    ||| is_ws(c)
}

/// How one phrase character matches one text character.
pub open spec fn elem_matches(p: char, c: char) -> bool {
    if p == ' ' {
        is_ws(c)
    } else if p == '#' {
        in_design_class(c)
    } else {
        p == c
    }
}

/// No character of `s` is a newline (what `.*` may span).
pub open spec fn no_newline(s: Seq<char>) -> bool {
    forall|i: int| 0 <= i < s.len() ==> s[i] != '\n'
}

/// `t` holds the gap-free phrase `p` starting at position `j`.
pub open spec fn phrase_at(p: Seq<char>, t: Seq<char>, j: int) -> bool {
    &&& 0 <= j
    &&& j + p.len() <= t.len()
    &&& forall|k: int| 0 <= k < p.len() ==> elem_matches(#[trigger] p[k], t[j + k])
}

/// The rest of the phrase, `p[i..]`, matches a stretch of `t` that starts at `j`.
pub open spec fn pattern_from(p: Seq<char>, t: Seq<char>, i: int, j: int) -> bool
    decreases p.len() - i, t.len() - j,
{
    if i >= p.len() {
        true
    } else if i < 0 || j < 0 {
        false
    } else if p[i] == '|' {
        pattern_from(p, t, i + 1, j) || (j < t.len() && t[j] != '\n' && pattern_from(
            p,
            t,
            i,
            j + 1,
        ))
    } else {
        j < t.len() && elem_matches(p[i], t[j]) && pattern_from(p, t, i + 1, j + 1)
    }
}

/// The phrase `p` occurs somewhere in `t`.
pub open spec fn pattern_found(p: Seq<char>, t: Seq<char>) -> bool {
    exists|j: int| 0 <= j <= t.len() && #[trigger] pattern_from(p, t, 0, j)
}

/// `n` occurs in `h` as a contiguous piece.
pub open spec fn seq_contains(h: Seq<char>, n: Seq<char>) -> bool {
    exists|i: int| 0 <= i && i + n.len() <= h.len() && #[trigger] h.subrange(i, i + n.len()) == n
}

/// Index of the first `c` at or after `i`, or `t.len()` when there is none.
pub open spec fn first_from(t: Seq<char>, i: int, c: char) -> int
    decreases t.len() - i,
{
    if 0 <= i < t.len() {
        if t[i] == c {
            i
        } else {
            first_from(t, i + 1, c)
        }
    } else {
        t.len() as int
    }
}

pub proof fn lemma_first_from(t: Seq<char>, i: int, c: char)
    requires
        0 <= i <= t.len(),
    ensures
        i <= first_from(t, i, c) <= t.len(),
        first_from(t, i, c) < t.len() ==> t[first_from(t, i, c)] == c,
        forall|k: int| i <= k < first_from(t, i, c) ==> t[k] != c,
    decreases t.len() - i,
{
    if i < t.len() && t[i] != c {
        lemma_first_from(t, i + 1, c);
    }
}

/// A phrase is found at `j` when its characters up to `m` match there and only gaps follow.
pub proof fn lemma_pattern_prefix(p: Seq<char>, t: Seq<char>, i: int, j: int, m: int)
    requires
        0 <= i <= m <= p.len(),
        0 <= j,
        j + (m - i) <= t.len(),
        forall|k: int| i <= k < m ==> p[k] != '|' && elem_matches(#[trigger] p[k], t[j + k - i]),
        forall|k: int| m <= k < p.len() ==> #[trigger] p[k] == '|',
    ensures
        pattern_from(p, t, i, j),
    decreases p.len() - i,
{
    if i < m {
        lemma_pattern_prefix(p, t, i + 1, j + 1, m);
        assert(p[i] != '|' && elem_matches(p[i], t[j + i - i]));
    } else {
        lemma_trailing_gaps(p, t, i, j);
    }
}

/// Gap-free phrase characters `p[i..m]` that match `t` from `j`, followed by a match of
/// the rest, make a match from `i`.
pub proof fn lemma_literal_then(p: Seq<char>, t: Seq<char>, i: int, j: int, m: int)
    requires
        0 <= i <= m <= p.len(),
        0 <= j,
        j + (m - i) <= t.len(),
        forall|k: int| i <= k < m ==> p[k] != '|' && elem_matches(#[trigger] p[k], t[j + k - i]),
        pattern_from(p, t, m, j + (m - i)),
    ensures
        pattern_from(p, t, i, j),
    decreases m - i,
{
    if i < m {
        lemma_literal_then(p, t, i + 1, j + 1, m);
        assert(p[i] != '|' && elem_matches(p[i], t[j + i - i]));
    }
}

/// A gap spans any run of characters without a newline.
pub proof fn lemma_gap_span(p: Seq<char>, t: Seq<char>, i: int, j: int, n: int)
    requires
        0 <= i < p.len(),
        p[i] == '|',
        0 <= j,
        0 <= n,
        j + n <= t.len(),
        no_newline(t.subrange(j, j + n)),
        pattern_from(p, t, i + 1, j + n),
    ensures
        pattern_from(p, t, i, j),
    decreases n,
{
    if n > 0 {
        assert(t.subrange(j + 1, j + n) =~= t.subrange(j, j + n).subrange(1, n));
        lemma_gap_span(p, t, i, j + 1, n - 1);
        assert(t[j] == t.subrange(j, j + n)[0]);
    }
}

proof fn lemma_trailing_gaps(p: Seq<char>, t: Seq<char>, i: int, j: int)
    requires
        0 <= i <= p.len(),
        0 <= j,
        forall|k: int| i <= k < p.len() ==> #[trigger] p[k] == '|',
    ensures
        pattern_from(p, t, i, j),
    decreases p.len() - i,
{
    if i < p.len() {
        lemma_trailing_gaps(p, t, i + 1, j);
        assert(p[i] == '|');
    }
}

/// The characters of `s`, in order.
pub fn chars_of(s: &str) -> (v: Vec<char>)
    ensures
        v@ == s@,
{
    let mut v: Vec<char> = Vec::new();
    for c in it: s.chars()
        invariant
            v@ == it.seq().take(it.index() as int),
    {
        v.push(c);
    }
    v
}

pub fn is_whitespace_char(c: char) -> (r: bool)
    ensures
        r == is_ws(c),
{
    let n = c as u32;
    (0x09 <= n && n <= 0x0d) || n == 0x20 || n == 0x85 || n == 0xa0 || n == 0x1680 || (0x2000
        <= n && n <= 0x200a) || n == 0x2028 || n == 0x2029 || n == 0x202f || n == 0x205f || n
        == 0x3000
}

pub fn elem_match(p: char, c: char) -> (r: bool)
    ensures
        r == elem_matches(p, c),
{
    if p == ' ' {
        is_whitespace_char(c)
    } else if p == '#' {
        c == 'I' || c == 'n' || c == 't' || c == 'e' || c == 'o' || c == 'a' || c == 'l' || c
            == 'G' || c == 'm' || c == 'D' || c == 's' || c == 'i' || c == 'g'
            || is_whitespace_char(c)
    } else {
        p == c
    }
}

/// Whether `t[lo..hi]` holds no newline.
pub fn newline_free(t: &Vec<char>, lo: usize, hi: usize) -> (r: bool)
    requires
        lo <= hi <= t.len(),
    ensures
        r == no_newline(t@.subrange(lo as int, hi as int)),
{
    let mut k = lo;
    while k < hi
        invariant
            lo <= k <= hi <= t.len(),
            no_newline(t@.subrange(lo as int, k as int)),
        decreases hi - k,
    {
        if t[k] == '\n' {
            assert(t@.subrange(lo as int, hi as int)[k - lo] == '\n');
            return false;
        }
        k += 1;
        assert forall|i: int| 0 <= i < t@.subrange(lo as int, k as int).len() implies t@.subrange(
            lo as int,
            k as int,
        )[i] != '\n' by {
            if i < k - 1 - lo {
                assert(t@.subrange(lo as int, k as int)[i] == t@.subrange(lo as int, k - 1)[i]);
            }
        }
    }
    true
}

/// Whether the gap-free phrase `p` stands in `t` at `j`.
pub fn phrase_at_exec(p: &Vec<char>, t: &Vec<char>, j: usize) -> (r: bool)
    ensures
        r == phrase_at(p@, t@, j as int),
{
    if j > t.len() || p.len() > t.len() - j {
        return false;
    }
    let mut k: usize = 0;
    while k < p.len()
        invariant
            0 <= k <= p.len(),
            j + p.len() <= t.len(),
            forall|m: int| 0 <= m < k ==> elem_matches(#[trigger] p@[m], t@[j + m]),
        decreases p.len() - k,
    {
        if !elem_match(p[k], t[j + k]) {
            return false;
        }
        k += 1;
    }
    true
}

/// Whether `p[i..]` matches a stretch of `t` starting at `j`.
pub fn pattern_from_exec(p: &Vec<char>, t: &Vec<char>, i: usize, j: usize) -> (r: bool)
    requires
        i <= p.len(),
        j <= t.len(),
    ensures
        r == pattern_from(p@, t@, i as int, j as int),
    decreases p.len() - i,
{
    if i >= p.len() {
        return true;
    }
    if p[i] == '|' {
        let mut k = j;
        while k <= t.len()
            invariant
                i < p.len(),
                j <= k <= t.len(),
                p@[i as int] == '|',
                pattern_from(p@, t@, i as int, j as int) == pattern_from(
                    p@,
                    t@,
                    i as int,
                    k as int,
                ),
            decreases t.len() - k,
        {
            if pattern_from_exec(p, t, i + 1, k) {
                return true;
            }
            if k == t.len() || t[k] == '\n' {
                return false;
            }
            k += 1;
        }
        false
    } else {
        if j < t.len() && elem_match(p[i], t[j]) {
            pattern_from_exec(p, t, i + 1, j + 1)
        } else {
            false
        }
    }
}

/// Whether the phrase `p` occurs somewhere in `t`.
pub fn pattern_found_exec(p: &Vec<char>, t: &Vec<char>) -> (r: bool)
    ensures
        r == pattern_found(p@, t@),
{
    let mut j: usize = 0;
    loop
        invariant
            j <= t.len(),
            forall|m: int| 0 <= m < j ==> !pattern_from(p@, t@, 0, m),
        decreases t.len() - j,
    {
        if pattern_from_exec(p, t, 0, j) {
            return true;
        }
        if j == t.len() {
            return false;
        }
        j += 1;
    }
}

/// Whether `n` occurs in `h`.
pub fn contains_str(h: &str, n: &str) -> (r: bool)
    ensures
        r == seq_contains(h@, n@),
{
    let hv = chars_of(h);
    let nv = chars_of(n);
    if nv.len() > hv.len() {
        assert forall|i: int| 0 <= i && i + nv@.len() <= hv@.len() implies #[trigger] hv@.subrange(
            i,
            i + nv@.len(),
        ) != nv@ by {}
        return false;
    }
    let mut i: usize = 0;
    while i <= hv.len() - nv.len()
        invariant
            nv.len() <= hv.len(),
            i <= hv.len() - nv.len(),
            hv@ == h@,
            nv@ == n@,
            forall|m: int| 0 <= m < i ==> #[trigger] hv@.subrange(m, m + nv@.len()) != nv@,
        decreases hv.len() - nv.len() + 1 - i,
    {
        let mut k: usize = 0;
        let mut same = true;
        while k < nv.len()
            invariant
                0 <= k <= nv.len(),
                i + nv.len() <= hv.len(),
                same ==> forall|m: int| 0 <= m < k ==> hv@[i + m] == nv@[m],
                !same ==> hv@.subrange(i as int, i + nv@.len()) != nv@,
            decreases nv.len() - k,
        {
            if hv[i + k] != nv[k] {
                same = false;
                assert(hv@.subrange(i as int, i + nv@.len())[k as int] != nv@[k as int]);
            }
            k += 1;
        }
        if same {
            assert(hv@.subrange(i as int, i + nv@.len()) =~= nv@);
            return true;
        }
        if i == hv.len() - nv.len() {
            return false;
        }
        i += 1;
    }
    false
}

/// Whether two texts are equal.
pub fn str_equal(a: &str, b: &str) -> (r: bool)
    ensures
        r == (a@ == b@),
{
    let av = chars_of(a);
    let bv = chars_of(b);
    if av.len() != bv.len() {
        return false;
    }
    let mut k: usize = 0;
    while k < av.len()
        invariant
            av.len() == bv.len(),
            av@ == a@,
            bv@ == b@,
            0 <= k <= av.len(),
            forall|m: int| 0 <= m < k ==> av@[m] == bv@[m],
        decreases av.len() - k,
    {
        if av[k] != bv[k] {
            return false;
        }
        k += 1;
    }
    assert(av@ =~= bv@);
    true
}

/// Index of the first `c` at or after `i` in `t`, or `t.len()`.
pub fn first_index(t: &Vec<char>, i: usize, c: char) -> (r: usize)
    requires
        i <= t.len(),
    ensures
        r as int == first_from(t@, i as int, c),
{
    let mut k = i;
    while k < t.len()
        invariant
            i <= k <= t.len(),
            first_from(t@, i as int, c) == first_from(t@, k as int, c),
        decreases t.len() - k,
    {
        if t[k] == c {
            return k;
        }
        k += 1;
    }
    k
}

/// `a` followed by `b`.
pub fn concat_str(a: &str, b: &str) -> (r: String)
    ensures
        r@ == a@ + b@,
{
    let mut r = String::from_str(a);
    r.append(b);
    r
}

} // verus!
