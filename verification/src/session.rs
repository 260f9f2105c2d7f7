//! Sessions and the life of a session token.
//!
//! A token is absent until a login issues it. From then on it is valid while
//! the current time is before its expiration time and expired from that time
//! on. Expiry is computed when the token is checked; the session row stays in
//! the store until a logout removes it.

use vstd::prelude::*;

verus! {

/// Length of the session window: fourteen days, in seconds.
pub const SESSION_WINDOW_SECONDS: i64 = 1_209_600;

/// One row of the sessions table. Times are seconds since the Unix epoch.
#[derive(Debug, Clone, Copy, PartialEq, Eq, Structural)]
pub struct Session {
    pub user_id: u128,
    pub auth_token: u128,
    pub creation_time: i64,
    pub expiration_time: i64,
}

/// Where a token stands at a given time.
#[derive(Debug, Clone, Copy, PartialEq, Eq, Structural)]
pub enum TokenState {
    /// No session row carries the token.
    Absent,
    /// A session row carries it and has not run out.
    Valid,
    /// A session row carries it and has run out.
    Expired,
}

/// The instant at which a session created at `created` runs out: the end of the
/// session window, or the last representable instant if the window would go
/// past it.
pub open spec fn expiry_of(created: i64) -> i64 {
    if created + SESSION_WINDOW_SECONDS > i64::MAX {
        i64::MAX
    } else {
        (created + SESSION_WINDOW_SECONDS) as i64
    }
}

/// Where the token of `session` stands at time `now`.
pub open spec fn state_at(session: Option<Session>, now: i64) -> TokenState {
    match session {
        None => TokenState::Absent,
        Some(row) => if now < row.expiration_time {
            TokenState::Valid
        } else {
            TokenState::Expired
        },
    }
}

impl Session {
    /// The session that a login at time `now` opens for `user_id` under `token`.
    pub open spec fn issued(user_id: u128, token: u128, now: i64) -> Session {
        Session {
            user_id,
            auth_token: token,
            creation_time: now,
            expiration_time: expiry_of(now),
        }
    }

    /// Opens a session at time `now`.
    pub fn issue(user_id: u128, token: u128, now: i64) -> (session: Session)
        ensures
            session == Session::issued(user_id, token, now),
    {
        let expiration_time = if now > i64::MAX - SESSION_WINDOW_SECONDS {
            i64::MAX
        } else {
            now + SESSION_WINDOW_SECONDS
        };
        Session { user_id, auth_token: token, creation_time: now, expiration_time }
    }

    /// Whether the session has run out at time `now`.
    pub fn is_expired(&self, now: i64) -> (expired: bool)
        ensures
            expired == (now >= self.expiration_time),
    {
        now >= self.expiration_time
    }
}

/// Where a token stands at time `now`, given the session row found for it.
pub fn token_state(session: &Option<Session>, now: i64) -> (state: TokenState)
    ensures
        state == state_at(*session, now),
{
    match session {
        None => TokenState::Absent,
        Some(row) => if row.is_expired(now) {
            TokenState::Expired
        } else {
            TokenState::Valid
        },
    }
}

/// The session that counts for `token`: the one found, if it carries that
/// very token.
pub open spec fn session_for(token: u128, found: Option<Session>) -> Option<Session> {
    match found {
        Some(row) => if row.auth_token == token {
            Some(row)
        } else {
            None
        },
        None => None,
    }
}

/// The session that counts for `token` among what was found.
pub fn pick_session(token: u128, found: Option<Session>) -> (session: Option<Session>)
    ensures
        session == session_for(token, found),
{
    match found {
        Some(row) => if row.auth_token == token {
            Some(row)
        } else {
            None
        },
        None => None,
    }
}

} // verus!
