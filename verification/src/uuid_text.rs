//! Minecraft UUIDs as text: the forms in which the `uuid` crate reads and writes them.
//!
//! A UUID is held as the `u128` whose big-endian bytes are its 16 bytes.
use vstd::prelude::*;
use vstd::arithmetic::div_mod::lemma_breakdown;
use vstd::arithmetic::power::{lemma_pow_positive, pow};

verus! {

/// The value of a hexadecimal digit, either case.
pub open spec fn hex_val(c: char) -> Option<nat> {
    if '0' <= c && c <= '9' {
        Some((c as u32 - '0' as u32) as nat)
    } else if 'a' <= c && c <= 'f' {
        Some((c as u32 - 'a' as u32 + 10) as nat)
    } else if 'A' <= c && c <= 'F' {
        Some((c as u32 - 'A' as u32 + 10) as nat)
    } else {
        None
    }
}

/// Every character of `s` is a hexadecimal digit.
pub open spec fn all_hex(s: Seq<char>) -> bool {
    forall|i: int| 0 <= i < s.len() ==> #[trigger] hex_val(s[i]) is Some
}

/// The number that a string of hexadecimal digits writes, most significant digit first.
pub open spec fn hex_value(s: Seq<char>) -> nat
    decreases s.len(),
{
    if s.len() == 0 {
        0
    } else {
        hex_value(s.drop_last()) * 16 + hex_val(s.last())->0
    }
}

/// The 32 digits of a hyphenated UUID `xxxxxxxx-xxxx-xxxx-xxxx-xxxxxxxxxxxx`, with the
/// hyphens taken out, if the hyphens stand in their places.
pub open spec fn hyphenated_digits(s: Seq<char>) -> Option<Seq<char>> {
    if s.len() == 36 && s[8] == '-' && s[13] == '-' && s[18] == '-' && s[23] == '-' {
        Some(
            s.subrange(0, 8) + s.subrange(9, 13) + s.subrange(14, 18) + s.subrange(19, 23)
                + s.subrange(24, 36),
        )
    } else {
        None
    }
}

/// `c` equals the lower-case ASCII character `lower`, ignoring ASCII case.
pub open spec fn eq_ignore_ascii_case(c: char, lower: char) -> bool {
    c == lower || ('a' <= lower && lower <= 'z' && c as u32 + 32 == lower as u32)
}

/// `s` starts with `urn:uuid:`, in any ASCII case.
pub open spec fn has_urn_prefix(s: Seq<char>) -> bool {
    let p = seq!['u', 'r', 'n', ':', 'u', 'u', 'i', 'd', ':'];
    s.len() >= 9 && forall|i: int| 0 <= i < 9 ==> eq_ignore_ascii_case(#[trigger] s[i], p[i])
}

/// The hexadecimal digits of a UUID written in one of the four forms that
/// `uuid::Uuid::parse_str` reads: simple (32 digits), hyphenated, braced
/// (`{hyphenated}`) or URN (`urn:uuid:hyphenated`).
pub open spec fn uuid_digits(s: Seq<char>) -> Option<Seq<char>> {
    if s.len() == 32 {
        Some(s)
    } else if s.len() == 36 {
        hyphenated_digits(s)
    } else if s.len() == 38 && s[0] == '{' && s[37] == '}' {
        hyphenated_digits(s.subrange(1, 37))
    } else if s.len() == 45 && has_urn_prefix(s) {
        hyphenated_digits(s.subrange(9, 45))
    } else {
        None
    }
}

/// The UUID that `s` writes, if it is one.
pub open spec fn uuid_parse(s: Seq<char>) -> Option<u128> {
    match uuid_digits(s) {
        Some(d) => if all_hex(d) {
            Some(hex_value(d) as u128)
        } else {
            None
        },
        None => None,
    }
}

/// The lower-case hexadecimal digit for `v < 16`.
pub open spec fn hex_char(v: nat) -> char {
    if v < 10 {
        (v + '0' as u32) as char
    } else {
        (v - 10 + 'a' as u32) as char
    }
}

/// The last `k` hexadecimal digits of `n`, lower case, most significant first.
pub open spec fn hex_digits(n: nat, k: nat) -> Seq<char>
    decreases k,
{
    if k == 0 {
        Seq::empty()
    } else {
        hex_digits(n / 16, (k - 1) as nat).push(hex_char(n % 16))
    }
}

/// 32 hexadecimal digits in groups of 8-4-4-4-12, joined by hyphens.
pub open spec fn insert_hyphens(d: Seq<char>) -> Seq<char> {
    d.subrange(0, 8) + seq!['-'] + d.subrange(8, 12) + seq!['-'] + d.subrange(12, 16) + seq!['-']
        + d.subrange(16, 20) + seq!['-'] + d.subrange(20, 32)
}

/// A UUID written hyphenated in lower case, `xxxxxxxx-xxxx-xxxx-xxxx-xxxxxxxxxxxx`.
pub open spec fn uuid_hyphenated(u: u128) -> Seq<char> {
    insert_hyphens(hex_digits(u as nat, 32))
}

/// `uuid::Uuid::parse_str`: reads a UUID in one of its four text forms.
/// The contract claims that it accepts exactly the strings that `uuid_parse` describes
/// and reads the value given there.
#[verifier::external_body]
fn uuid_parse_str(s: &str) -> (r: Option<u128>)
    ensures
        r == uuid_parse(s@),
{
    match uuid::Uuid::parse_str(s) {
        Ok(u) => Some(u.as_u128()),
        Err(_) => None,
    }
}

/// `uuid::fmt::Hyphenated`'s `Display` (through `Uuid::as_hyphenated`): writes a UUID as
/// 32 lower-case hexadecimal digits in groups of 8-4-4-4-12.
#[verifier::external_body]
fn hyphenated_string(u: u128) -> (r: String)
    ensures
        r@ == uuid_hyphenated(u),
{
    uuid::Uuid::from_u128(u).as_hyphenated().to_string()
}

/// Reads a UUID written in any of the forms that the `uuid` crate accepts.
pub fn parse_uuid(s: &str) -> (r: Option<u128>)
    ensures
        r == uuid_parse(s@),
{
    uuid_parse_str(s)
}

/// Writes a UUID hyphenated, in lower case.
pub fn uuid_to_hyphenated(u: u128) -> (r: String)
    ensures
        r@ == uuid_hyphenated(u),
{
    hyphenated_string(u)
}

proof fn lemma_hex_char(v: nat)
    requires
        v < 16,
    ensures
        hex_val(hex_char(v)) == Some(v),
{
}

proof fn lemma_hex_digits(n: nat, k: nat)
    ensures
        hex_digits(n, k).len() == k,
        all_hex(hex_digits(n, k)),
        hex_value(hex_digits(n, k)) == (n as int) % pow(16, k),
    decreases k,
{
    reveal(pow);
    if k > 0 {
        let k1 = (k - 1) as nat;
        lemma_hex_digits(n / 16, k1);
        lemma_hex_char(n % 16);
        let d = hex_digits(n, k);
        assert(d.drop_last() == hex_digits(n / 16, k1));
        assert forall|i: int| 0 <= i < d.len() implies #[trigger] hex_val(d[i]) is Some by {
            if i < k1 {
                assert(d[i] == hex_digits(n / 16, k1)[i]);
            }
        }
        lemma_pow_positive(16, k1);
        let p = pow(16, k1);
        assert(pow(16, k) == 16 * p);
        lemma_breakdown(n as int, 16, p);
    }
}

proof fn lemma_pow_16_32()
    ensures
        pow(16, 32) == 0x1_0000_0000_0000_0000_0000_0000_0000_0000,
{
    reveal_with_fuel(pow, 33);
}

proof fn lemma_hyphenated_digits(d: Seq<char>)
    requires
        d.len() == 32,
    ensures
        hyphenated_digits(insert_hyphens(d)) == Some(d),
{
    let s = insert_hyphens(d);
    assert(s.len() == 36);
    assert(s[8] == '-');
    assert(s[13] == '-');
    assert(s[18] == '-');
    assert(s[23] == '-');
    assert(s.subrange(0, 8) =~= d.subrange(0, 8));
    assert(s.subrange(9, 13) =~= d.subrange(8, 12));
    assert(s.subrange(14, 18) =~= d.subrange(12, 16));
    assert(s.subrange(19, 23) =~= d.subrange(16, 20));
    assert(s.subrange(24, 36) =~= d.subrange(20, 32));
    assert(d.subrange(0, 8) + d.subrange(8, 12) + d.subrange(12, 16) + d.subrange(16, 20)
        + d.subrange(20, 32) =~= d);
}

/// A hyphenated UUID is 36 characters long.
pub proof fn lemma_hyphenated_len(u: u128)
    ensures
        uuid_hyphenated(u).len() == 36,
{
    lemma_hex_digits(u as nat, 32);
}

/// The hyphens may be left out: 32 digits read as the same UUID as the same digits
/// hyphenated (`\mcuuid` answers both alike).
pub proof fn lemma_hyphens_optional(d: Seq<char>)
    requires
        d.len() == 32,
    ensures
        uuid_parse(d) == uuid_parse(insert_hyphens(d)),
{
    lemma_hyphenated_digits(d);
    assert(insert_hyphens(d).len() == 36);
}

/// The braced form `{hyphenated}` and the URN form `urn:uuid:hyphenated` read as the same
/// UUID as the hyphenated form alone.
pub proof fn lemma_wrapped_forms(h: Seq<char>)
    requires
        h.len() == 36,
    ensures
        uuid_parse(seq!['{'] + h + seq!['}']) == uuid_parse(h),
        uuid_parse(seq!['u', 'r', 'n', ':', 'u', 'u', 'i', 'd', ':'] + h) == uuid_parse(h),
{
    let b = seq!['{'] + h + seq!['}'];
    assert(b.subrange(1, 37) =~= h);
    let u = seq!['u', 'r', 'n', ':', 'u', 'u', 'i', 'd', ':'] + h;
    assert(u.subrange(9, 45) =~= h);
    assert(has_urn_prefix(u));
}

/// A UUID written hyphenated reads back as the same UUID: what `\mcuuid` answers for a
/// name can be asked back to get the name.
pub proof fn lemma_hyphenated_parses_back(u: u128)
    ensures
        uuid_parse(uuid_hyphenated(u)) == Some(u),
{
    let d = hex_digits(u as nat, 32);
    lemma_hex_digits(u as nat, 32);
    lemma_hyphenated_digits(d);
    lemma_pow_16_32();
    assert(uuid_digits(uuid_hyphenated(u)) == Some(d));
}

} // verus!
