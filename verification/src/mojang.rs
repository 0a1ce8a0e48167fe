//! The Mojang API: the addresses that the bot asks, and what it makes of the answers.
use vstd::prelude::*;
use crate::error::Error;
use crate::send_rule::opt_view;
use crate::text::concat_str;
use crate::uuid_text::{
    lemma_hyphenated_len, lemma_hyphenated_parses_back, parse_uuid, uuid_hyphenated, uuid_parse,
    uuid_to_hyphenated,
};

verus! {

pub const MOJANG_API_URL: &'static str = "https://api.mojang.com/";

/// The address that `url::Url::join` gives for `input` against the base address `base`,
/// or `None` where the `url` crate refuses one of them.
pub uninterp spec fn url_join(base: Seq<char>, input: Seq<char>) -> Option<Seq<char>>;

/// `url::Url::join` (with `base` read by `url::Url::parse` first): resolves `input`
/// against `base`. The contract claims only that the call succeeds, and with which text,
/// as a function of the two texts; which `ParseError` comes back is not stated.
#[verifier::external_body]
fn join_url(base: &str, input: &str) -> (r: Result<String, url::ParseError>)
    ensures
        r is Ok <==> url_join(base@, input@) is Some,
        r matches Ok(s) ==> url_join(base@, input@) == Some(s@),
{
    match url::Url::parse(base) {
        Ok(b) => match b.join(input) {
            Ok(u) => Ok(String::from(u.as_str())),
            Err(e) => Err(e),
        },
        Err(e) => Err(e),
    }
}

/// The path of the profile of a player, by name.
pub open spec fn username_path(username: Seq<char>) -> Seq<char> {
    "/users/profiles/minecraft/"@ + username
}

/// The path of the name history of a player, by UUID.
pub open spec fn names_path(uuid: u128) -> Seq<char> {
    "/user/profiles/"@ + uuid_hyphenated(uuid) + "/names"@
}

/// The profile request carries the whole name that was asked about: after the fixed
/// prefix comes exactly the name, so different names are asked at different paths.
pub proof fn lemma_username_path(u: Seq<char>, v: Seq<char>)
    ensures
        username_path(u).len() == 26 + u.len(),
        username_path(u).subrange(26, username_path(u).len() as int) == u,
        username_path(u) == username_path(v) ==> u == v,
{
    reveal_strlit("/users/profiles/minecraft/");
    assert(username_path(u).subrange(26, username_path(u).len() as int) =~= u);
    assert(username_path(v).subrange(26, username_path(v).len() as int) =~= v);
}

/// The name history request carries the UUID that was asked about: the UUID in its
/// path reads back as that UUID.
pub proof fn lemma_names_path(uuid: u128)
    ensures
        names_path(uuid).len() == 57,
        uuid_parse(names_path(uuid).subrange(15, 51)) == Some(uuid),
{
    reveal_strlit("/user/profiles/");
    reveal_strlit("/names");
    lemma_hyphenated_parses_back(uuid);
    lemma_hyphenated_len(uuid);
    assert(names_path(uuid).subrange(15, 51) =~= uuid_hyphenated(uuid));
}

/// The address of `path` on the Mojang API.
pub fn mojang_url(path: &str) -> (r: Result<String, Error>)
    ensures
        r is Ok <==> url_join(MOJANG_API_URL@, path@) is Some,
        r matches Ok(s) ==> url_join(MOJANG_API_URL@, path@) == Some(s@),
        r matches Err(e) ==> e is Url,
{
    match join_url(MOJANG_API_URL, path) {
        Ok(s) => Ok(s),
        Err(e) => Err(Error::Url(e)),
    }
}

/// The address that gives the UUID of a player name.
pub fn username_url(username: &str) -> (r: Result<String, Error>)
    ensures
        r is Ok <==> url_join(MOJANG_API_URL@, username_path(username@)) is Some,
        r matches Ok(s) ==> url_join(MOJANG_API_URL@, username_path(username@)) == Some(s@),
        r matches Err(e) ==> e is Url,
{
    let path = concat_str("/users/profiles/minecraft/", username);
    mojang_url(path.as_str())
}

/// The address that gives the names of a player's UUID.
pub fn names_url(uuid: u128) -> (r: Result<String, Error>)
    ensures
        r is Ok <==> url_join(MOJANG_API_URL@, names_path(uuid)) is Some,
        r matches Ok(s) ==> url_join(MOJANG_API_URL@, names_path(uuid)) == Some(s@),
        r matches Err(e) ==> e is Url,
{
    let id = uuid_to_hyphenated(uuid);
    let path = concat_str("/user/profiles/", id.as_str());
    let path = concat_str(path.as_str(), "/names");
    mojang_url(path.as_str())
}

/// The HTTP status of an answer without a body: nobody has that name or UUID.
pub const NO_CONTENT: u16 = 204;

pub struct UsernameToUUID {
    pub name: String,
    pub id: u128,
}

/// The answer to a profile request: the profile, JSON `null`, or an error object.
pub enum UsernameToUUIDResponse {
    Profile(UsernameToUUID),
    Null,
    Failure { error: String, error_message: String },
}

pub struct UUIDToNameHistory {
    pub name: String,
    pub changed_to_at: Option<usize>,
}

/// The answer to a name history request: the names, JSON `null`, or an error object.
pub enum UUIDToNameHistoryResponse {
    Names(Vec<UUIDToNameHistory>),
    Null,
    Failure { error: String, error_message: String },
}

/// Whether an answer with this status has a body to read.
pub fn has_body(status: u16) -> (r: bool)
    ensures
        r == (status != NO_CONTENT),
{
    status != NO_CONTENT
}

/// The UUID in a profile answer; an error answer counts as no player.
pub fn username_response_id(res: &UsernameToUUIDResponse) -> (r: Option<u128>)
    ensures
        r == match res {
            UsernameToUUIDResponse::Profile(p) => Some(p.id),
            _ => None,
        },
{
    match res {
        UsernameToUUIDResponse::Profile(p) => Some(p.id),
        _ => None,
    }
}

/// The first name in a name history answer; an error answer counts as no player.
pub fn history_first_name(res: &UUIDToNameHistoryResponse) -> (r: Option<String>)
    ensures
        opt_view(r) == match res {
            UUIDToNameHistoryResponse::Names(h) => if h@.len() > 0 {
                Some(h@[0].name@)
            } else {
                None
            },
            _ => None,
        },
{
    match res {
        UUIDToNameHistoryResponse::Names(h) => {
            if h.len() > 0 {
                Some(h[0].name.clone())
            } else {
                None
            }
        },
        _ => None,
    }
}

/// What `\mcuuid` was asked about: a UUID (in any form the `uuid` crate reads), or else a name.
pub enum McuuidQuery {
    Uuid(u128),
    Name(String),
}

/// Reads the argument of `\mcuuid`.
pub fn mcuuid_query(input: &str) -> (r: McuuidQuery)
    ensures
        match uuid_parse(input@) {
            Some(u) => r == McuuidQuery::Uuid(u),
            None => r matches McuuidQuery::Name(n) && n@ == input@,
        },
{
    match parse_uuid(input) {
        Some(u) => McuuidQuery::Uuid(u),
        None => McuuidQuery::Name(String::from_str(input)),
    }
}

/// The answer for a name: its UUID, hyphenated.
pub fn name_answer(id: Option<u128>) -> (r: Option<String>)
    ensures
        opt_view(r) == match id {
            Some(u) => Some(uuid_hyphenated(u)),
            None => None,
        },
{
    match id {
        Some(u) => Some(uuid_to_hyphenated(u)),
        None => None,
    }
}

/// The reply of `\mcuuid`: ``=> `result` `` or `not found`.
pub fn mcuuid_reply(result: Option<String>) -> (r: String)
    ensures
        r@ == match result {
            Some(s) => "=> `"@ + s@ + "`"@,
            None => "not found"@,
        },
{
    match result {
        Some(s) => {
            let mut r = String::from_str("=> `");
            r.append(s.as_str());
            r.append("`");
            r
        },
        None => String::from_str("not found"),
    }
}

} // verus!
