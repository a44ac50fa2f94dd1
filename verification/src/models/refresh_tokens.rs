//! Refresh tokens: what saving one does, and the cookie that carries one.
use crate::common::errors::LocoError;
use crate::common::ids::{is_v4_uuid, new_uuid};
use crate::services::user_agent::{is_unknown_user_agent, spec_browser_label, ua_found, UAParser};
use vstd::prelude::*;

verus! {

/// What saving a refresh token changes in it.
#[derive(Clone, Copy, Debug, PartialEq, Eq, Structural)]
pub enum TokenSaveAction {
    /// Set the update time to now.
    TouchUpdatedAt,
    /// Give the token this new identifier.
    AssignJti(u128),
    /// Change nothing.
    Keep,
}

/// What saving a refresh token changes, given a fresh identifier: a new token
/// gets the fresh identifier; an update that leaves the update time as it was
/// sets it to now; any other update changes nothing.
pub fn refresh_token_save_action(insert: bool, updated_at_unchanged: bool, fresh_jti: u128) -> (r:
    TokenSaveAction)
    ensures
        insert ==> r == TokenSaveAction::AssignJti(fresh_jti),
        !insert && updated_at_unchanged ==> r == TokenSaveAction::TouchUpdatedAt,
        !insert && !updated_at_unchanged ==> r == TokenSaveAction::Keep,
{
    if !insert && updated_at_unchanged {
        TokenSaveAction::TouchUpdatedAt
    } else if insert {
        TokenSaveAction::AssignJti(fresh_jti)
    } else {
        TokenSaveAction::Keep
    }
}

/// What saving a refresh token changes; a new token gets a random (version 4)
/// identifier.
pub fn refresh_token_before_save(insert: bool, updated_at_unchanged: bool) -> (r: TokenSaveAction)
    ensures
        insert ==> (r matches TokenSaveAction::AssignJti(jti) && is_v4_uuid(jti)),
        !insert && updated_at_unchanged ==> r == TokenSaveAction::TouchUpdatedAt,
        !insert && !updated_at_unchanged ==> r == TokenSaveAction::Keep,
{
    if insert {
        refresh_token_save_action(insert, updated_at_unchanged, new_uuid())
    } else {
        refresh_token_save_action(insert, updated_at_unchanged, 0)
    }
}

/// The refresh token cookie, by its attributes.
pub struct RefreshCookie {
    pub name: String,
    pub value: String,
    pub http_only: bool,
    pub same_site_strict: bool,
    pub secure: bool,
    pub path: String,
    /// Seconds from now until the cookie expires.
    pub expires_in: u64,
}

/// The cookie that carries a refresh token: HTTP only, same site strict,
/// secure, for every path, and expiring with the token.
pub fn refresh_cookie(name: &str, token: String, expiration: u64) -> (r: RefreshCookie)
    ensures
        r.name@ == name@,
        r.value == token,
        r.http_only,
        r.same_site_strict,
        r.secure,
        r.path@ == "/"@,
        r.expires_in == expiration,
{
    RefreshCookie {
        name: name.to_owned(),
        value: token,
        http_only: true,
        same_site_strict: true,
        secure: true,
        path: "/".to_owned(),
        expires_in: expiration,
    }
}

/// A refresh token to be stored at a long-session login; its identifier is
/// given when it is saved.
pub struct NewRefreshToken {
    pub user_id: i64,
    /// The label of the browser the user logged in with.
    pub browser: Option<String>,
    /// The client's address, as text.
    pub user_ip: Option<String>,
    /// Seconds from now until the token expires.
    pub expires_in: u64,
    pub revoked: bool,
}

/// The refresh token that a long-session login stores: the user's, labelled
/// with the browser that the parser reads from the User-Agent header, with
/// the client's address, expiring after the configured number of seconds,
/// and not revoked. A header that no rule matches fails as `parse_ua` does.
pub fn login_refresh_token(
    parser: &UAParser,
    user_id: i64,
    user_agent: &str,
    user_ip: String,
    expiration: u64,
) -> (r: Result<NewRefreshToken, LocoError>)
    ensures
        match ua_found(parser.rules(), user_agent@) {
            Some(found) => r matches Ok(t) && t.user_id == user_id && (t.browser matches Some(b)
                && b@ == spec_browser_label(Some(found))) && t.user_ip == Some(user_ip)
                && t.expires_in == expiration && !t.revoked,
            None => r matches Err(e) && is_unknown_user_agent(e),
        },
{
    let browser = parser.parse_ua(user_agent)?;
    Ok(
        NewRefreshToken {
            user_id,
            browser: Some(browser),
            user_ip: Some(user_ip),
            expires_in: expiration,
            revoked: false,
        },
    )
}

/// A stored refresh token, by what the service reads and writes of it.
pub struct TokenRecord {
    pub user_id: i64,
    pub jti: u128,
    pub browser: Option<String>,
    pub user_ip: Option<String>,
    pub revoked: bool,
    /// When the token expires, in seconds since the Unix epoch.
    pub expires_at: i64,
}

fn copy_text(o: &Option<String>) -> (r: Option<String>)
    ensures
        r == *o,
{
    match o {
        Some(s) => Some(s.clone()),
        None => None,
    }
}

/// The rotation of a stored refresh token: the stored token, revoked, and a
/// new token in its place that keeps the user, browser, address, expiry and
/// revocation of the stored one, with a fresh random (version 4) identifier.
pub fn rotate_record(stored: TokenRecord) -> (r: (TokenRecord, TokenRecord))
    ensures
        r.0 == (TokenRecord { revoked: true, ..stored }),
        r.1.user_id == stored.user_id,
        r.1.browser == stored.browser,
        r.1.user_ip == stored.user_ip,
        r.1.revoked == stored.revoked,
        r.1.expires_at == stored.expires_at,
        is_v4_uuid(r.1.jti),
{
    let fresh = TokenRecord {
        user_id: stored.user_id,
        jti: new_uuid(),
        browser: copy_text(&stored.browser),
        user_ip: copy_text(&stored.user_ip),
        revoked: stored.revoked,
        expires_at: stored.expires_at,
    };
    (TokenRecord { revoked: true, ..stored }, fresh)
}

} // verus!
