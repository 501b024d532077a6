//! Stored OAuth tokens and the rules that decide whether one may be used.

use vstd::prelude::*;
use vstd::string::*;
use crate::text::{append_chars, chars_of, string_of};
use crate::dates::now_timestamp;

verus! {

/// An OAuth token as stored for a service.
#[derive(Clone, Debug, PartialEq, Eq)]
pub struct TokenData {
    pub access_token: String,
    pub refresh_token: String,
    /// Unix time at which the token expires; 0 when unknown.
    pub expires_at: i64,
}

/// Service name under which the Google token is stored.
pub const GOOGLE_SERVICE: &'static str = "google";

/// Message for an expired token.
pub const TOKEN_EXPIRED_MESSAGE: &'static str = "Token expirado. Por favor, vuelve a autenticarte.";

/// Message when no token is stored.
pub const NO_TOKEN_MESSAGE: &'static str = "No hay token de autenticación. Por favor, conéctate primero.";

/// A token counts as connected at time `now`: its expiry is unknown (0) or still ahead.
pub open spec fn token_is_valid(expires_at: i64, now: i64) -> bool {
    expires_at == 0 || expires_at > now
}

/// A token is refused for a request at time `now`: it has a known expiry that has passed.
pub open spec fn token_is_expired(expires_at: i64, now: i64) -> bool {
    expires_at > 0 && expires_at < now
}

/// `prefix` followed by `text`.
pub open spec fn prefixed(prefix: Seq<char>, text: Seq<char>) -> Seq<char> {
    prefix + text
}

/// `prefix` followed by `text`, as a `String`.
pub fn prefixed_string(prefix: &str, text: &str) -> (s: String)
    ensures
        s@ == prefixed(prefix@, text@),
{
    let mut v = chars_of(prefix);
    let t = chars_of(text);
    append_chars(&mut v, &t);
    string_of(&v)
}

/// Whether a Google connection is usable, from the outcome of looking up its
/// token (`Err` carrying the store's message) and the current Unix time.
pub fn has_valid_token(lookup: Result<Option<TokenData>, String>, now: i64) -> (r: Result<
    bool,
    String,
>)
    ensures
        match lookup {
            Ok(Some(t)) => r == Ok::<bool, String>(token_is_valid(t.expires_at, now)),
            Ok(None) => r == Ok::<bool, String>(false),
            Err(e) => r matches Err(m) && m@ == prefixed("Error al verificar token: "@, e@),
        },
{
    match lookup {
        Ok(Some(t)) => Ok(t.expires_at == 0 || t.expires_at > now),
        Ok(None) => Ok(false),
        Err(e) => Err(prefixed_string("Error al verificar token: ", e.as_str())),
    }
}

/// The access token to send with a Google Calendar request, from the outcome
/// of looking up the stored token and the current Unix time.
pub fn request_access_token(lookup: Result<Option<TokenData>, String>, now: i64) -> (r: Result<
    String,
    String,
>)
    ensures
        match lookup {
            Ok(Some(t)) => if token_is_expired(t.expires_at, now) {
                r matches Err(m) && m@ == TOKEN_EXPIRED_MESSAGE@
            } else {
                r matches Ok(a) && a@ == t.access_token@
            },
            Ok(None) => r matches Err(m) && m@ == NO_TOKEN_MESSAGE@,
            Err(e) => r matches Err(m) && m@ == prefixed("Error al obtener token: "@, e@),
        },
{
    match lookup {
        Ok(Some(t)) => {
            if t.expires_at > 0 && t.expires_at < now {
                Err(String::from_str(TOKEN_EXPIRED_MESSAGE))
            } else {
                Ok(t.access_token)
            }
        },
        Ok(None) => Err(String::from_str(NO_TOKEN_MESSAGE)),
        Err(e) => Err(prefixed_string("Error al obtener token: ", e.as_str())),
    }
}

/// `has_valid_token` at the current time of the clock.
pub fn has_valid_token_now(lookup: Result<Option<TokenData>, String>) -> (r: Result<bool, String>)
    ensures
        r is Ok <==> lookup is Ok,
        lookup matches Ok(None) ==> r == Ok::<bool, String>(false),
        lookup matches Ok(Some(t)) && t.expires_at == 0 ==> r == Ok::<bool, String>(true),
        lookup matches Err(e) ==> (r matches Err(m) && m@ == prefixed(
            "Error al verificar token: "@,
            e@,
        )),
{
    let now = now_timestamp();
    has_valid_token(lookup, now)
}

/// `request_access_token` at the current time of the clock.
pub fn request_access_token_now(lookup: Result<Option<TokenData>, String>) -> (r: Result<
    String,
    String,
>)
    ensures
        r is Ok ==> (lookup matches Ok(Some(t)) && r->Ok_0@ == t.access_token@),
        lookup matches Ok(Some(t)) ==> ((r matches Ok(a) && a@ == t.access_token@) || (r matches Err(
            m,
        ) && m@ == TOKEN_EXPIRED_MESSAGE@ && t.expires_at > 0)),
        (lookup matches Ok(Some(t)) && t.expires_at <= 0) ==> (r is Ok && r->Ok_0@
            == lookup->Ok_0->Some_0.access_token@),
        lookup matches Ok(None) ==> (r matches Err(m) && m@ == NO_TOKEN_MESSAGE@),
        lookup matches Err(e) ==> (r matches Err(m) && m@ == prefixed(
            "Error al obtener token: "@,
            e@,
        )),
{
    let now = now_timestamp();
    request_access_token(lookup, now)
}

/// A connection reported as usable is never refused as expired: whenever the
/// token counts as valid at a time, a request made then gets the token.
pub proof fn law_connected_token_is_accepted(expires_at: i64, now: i64)
    requires
        token_is_valid(expires_at, now),
    ensures
        !token_is_expired(expires_at, now),
{
}

} // verus!
