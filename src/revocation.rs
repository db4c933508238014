//! The revocation store's policy: revoked-token markers and reset tickets in a
//! key/value cache with time-to-live, and how lookups there are read.
use vstd::prelude::*;
use vstd::string::*;
use crate::errors::{CheckJwtError, RedisActixError};
use crate::text::{format_i64, signed_decimal};
use crate::token::TOKEN_LIFETIME_SECS;

verus! {

/// How long a revocation marker lives: thirty days, no shorter than any token.
pub const REVOCATION_TTL_SECS: i32 = 2_592_000;

/// The value stored under a revoked token.
pub const REVOKED_MARKER: &'static str = "REVOKED";

/// Store `value` under `key` for `ttl` seconds.
#[derive(Clone, Debug)]
pub struct Setex {
    pub key: String,
    /// time to live, in seconds
    pub ttl: i32,
    pub value: String,
}

/// A command for the key/value cache.
#[derive(Clone, Debug)]
pub enum RedisCommand {
    Setex(Setex),
    SetValue(String, String),
    Get(String),
    Del(String),
}

/// The cache as the core sees it while entries live: keys to values.
pub type CacheModel = Map<Seq<char>, Seq<char>>;

/// The cache after a command.
pub open spec fn apply_command(m: CacheModel, cmd: RedisCommand) -> CacheModel {
    match cmd {
        RedisCommand::Setex(s) => m.insert(s.key@, s.value@),
        RedisCommand::SetValue(k, v) => m.insert(k@, v@),
        RedisCommand::Get(_) => m,
        RedisCommand::Del(k) => m.remove(k@),
    }
}

/// What a lookup of `key` finds in the cache.
pub open spec fn cache_lookup(m: CacheModel, key: Seq<char>) -> Option<Seq<char>> {
    if m.contains_key(key) {
        Some(m[key])
    } else {
        None
    }
}

/// The command that revokes `token`.
pub open spec fn is_revocation_of(cmd: RedisCommand, token: Seq<char>) -> bool {
    cmd matches RedisCommand::Setex(s) && s.key@ == token && s.ttl == REVOCATION_TTL_SECS
        && s.value@ == REVOKED_MARKER@
}

/// The arguments of a command as sent to the cache, verb first.
pub open spec fn command_args(cmd: RedisCommand) -> Seq<Seq<char>> {
    match cmd {
        RedisCommand::Setex(s) => seq!["SETEX"@, s.key@, signed_decimal(s.ttl as int), s.value@],
        RedisCommand::SetValue(k, v) => seq!["SET"@, k@, v@],
        RedisCommand::Get(k) => seq!["GET"@, k@],
        RedisCommand::Del(k) => seq!["DEL"@, k@],
    }
}

pub open spec fn views_of(v: Seq<String>) -> Seq<Seq<char>> {
    v.map_values(|s: String| s@)
}

impl RedisCommand {
    /// The command that revokes `token`: a marker kept thirty days.
    pub fn revoke(token: &str) -> (r: RedisCommand)
        ensures
            is_revocation_of(r, token@),
    {
        RedisCommand::Setex(
            Setex { key: String::from_str(token), ttl: REVOCATION_TTL_SECS, value: String::from_str(REVOKED_MARKER) },
        )
    }

    /// The arguments to send for this command, verb first.
    pub fn to_args(&self) -> (r: Vec<String>)
        ensures
            views_of(r@) == command_args(*self),
    {
        let mut v: Vec<String> = Vec::new();
        match self {
            RedisCommand::Setex(s) => {
                v.push(String::from_str("SETEX"));
                v.push(s.key.clone());
                v.push(format_i64(s.ttl as i64));
                v.push(s.value.clone());
            },
            RedisCommand::SetValue(k, val) => {
                v.push(String::from_str("SET"));
                v.push(k.clone());
                v.push(val.clone());
            },
            RedisCommand::Get(k) => {
                v.push(String::from_str("GET"));
                v.push(k.clone());
            },
            RedisCommand::Del(k) => {
                v.push(String::from_str("DEL"));
                v.push(k.clone());
            },
        }
        assert(views_of(v@) =~= command_args(*self));
        v
    }
}

/// A request to check a session token against the denylist.
#[derive(Clone, Debug)]
pub struct CheckJwt(pub String);

/// The denylist's verdict on a token, given what its lookup found.
pub open spec fn blacklist_verdict(found: Option<Seq<char>>) -> bool {
    found is Some
}

impl CheckJwt {
    /// Reads the cache lookup of the token. Any value found means revoked; no value,
    /// and a failed lookup too, means not revoked (the check fails open).
    pub fn decide(self, lookup: Result<Option<String>, RedisActixError>) -> (r: Result<
        String,
        CheckJwtError,
    >)
        ensures
            r is Err <==> lookup matches Ok(Some(_)),
            r matches Ok(t) ==> t@ == self.0@,
            r matches Err(e) ==> e == CheckJwtError::Revoked,
    {
        match lookup {
            Ok(Some(_)) => Err(CheckJwtError::Revoked),
            _ => Ok(self.0),
        }
    }
}

/// Revocation: once the revocation of `token` is applied, a lookup of that exact
/// token finds a value, so the check reports it revoked; a lookup of any other
/// token finds what it found before. The marker lives at least as long as any
/// token, so no revoked token outlives its marker.
pub proof fn lemma_revocation(m: CacheModel, token: Seq<char>, other: Seq<char>, cmd: RedisCommand)
    requires
        is_revocation_of(cmd, token),
    ensures
        blacklist_verdict(cache_lookup(apply_command(m, cmd), token)),
        other != token ==> cache_lookup(apply_command(m, cmd), other) == cache_lookup(m, other),
        cmd matches RedisCommand::Setex(s) && s.ttl as i64 >= TOKEN_LIFETIME_SECS,
{
}

} // verus!
