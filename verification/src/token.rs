//! The bearer credential and its expiry.

use vstd::prelude::*;
use vstd::string::StringExecFns;
use crate::time::{TimeSpan, Timestamp};

verus! {

/// A bearer credential as the provider issued it, with the time it was
/// received.
#[derive(Debug)]
pub struct Token {
    pub access_token: String,
    pub token_type: String,
    pub expires_in: TimeSpan,
    pub time_set: Timestamp,
    pub refresh_token: String,
}

impl Clone for Token {
    fn clone(&self) -> (r: Self)
        ensures
            r == *self,
    {
        Token {
            access_token: self.access_token.clone(),
            token_type: self.token_type.clone(),
            expires_in: self.expires_in,
            time_set: self.time_set,
            refresh_token: self.refresh_token.clone(),
        }
    }
}

impl Token {
    /// The text of the `Authorization` header value that this token stands
    /// for: the token type, one space, the access token.
    pub open spec fn auth_text(self) -> Seq<char> {
        self.token_type@ + seq![' '] + self.access_token@
    }

    /// Whether the token is still valid at `now`: strictly before the end of
    /// its lifetime.
    pub open spec fn valid_at(self, now: Timestamp) -> bool {
        now.as_nanos() < self.time_set.as_nanos() + self.expires_in.as_nanos()
    }

    /// The value of the `Authorization` header for this token.
    pub fn as_auth(&self) -> (r: String)
        ensures
            r@ == self.auth_text(),
    {
        let mut r = self.token_type.clone();
        proof {
            reveal_strlit(" ");
        }
        r.append(" ");
        r.append(self.access_token.as_str());
        assert(r@ =~= self.auth_text());
        r
    }

    /// Whether the token is valid at `now`. A token is invalid from the very
    /// instant its lifetime ends.
    pub fn is_valid(&self, now: Timestamp) -> (r: bool)
        ensures
            r == self.valid_at(now),
    {
        now.is_before_end_of(self.time_set, self.expires_in)
    }
}

/// What the token endpoint answers to an authorization code.
#[derive(Debug)]
pub struct TokenFromApi {
    pub access_token: String,
    pub token_type: String,
    pub expires_in: u64,
    pub refresh_token: String,
}

/// What the token endpoint answers to a refresh token. The provider may
/// leave the refresh token out, and nothing else.
#[derive(Debug)]
pub struct RefreshTokenFromApi {
    pub access_token: String,
    pub token_type: String,
    pub expires_in: u64,
    pub refresh_token: Option<String>,
}

impl TokenFromApi {
    /// The token that the answer stands for, received at `now`.
    pub open spec fn issued(self, now: Timestamp) -> Token {
        Token {
            access_token: self.access_token,
            token_type: self.token_type,
            expires_in: TimeSpan { secs: self.expires_in, nanos: 0 },
            time_set: now,
            refresh_token: self.refresh_token,
        }
    }
}

impl Token {
    /// The token that an answer of the token endpoint stands for, received
    /// at `now`.
    pub fn from_api(value: TokenFromApi, now: Timestamp) -> (r: Token)
        ensures
            r == value.issued(now),
    {
        Token {
            access_token: value.access_token,
            token_type: value.token_type,
            expires_in: TimeSpan::from_secs(value.expires_in),
            time_set: now,
            refresh_token: value.refresh_token,
        }
    }
}

impl RefreshTokenFromApi {
    /// The token that replaces `prev_token`, received at `now`. Where the
    /// answer leaves the refresh token out, the previous one is carried
    /// forward.
    pub open spec fn refreshed(self, prev_token: Token, now: Timestamp) -> Token {
        Token {
            access_token: self.access_token,
            token_type: self.token_type,
            expires_in: TimeSpan { secs: self.expires_in, nanos: 0 },
            time_set: now,
            refresh_token: match self.refresh_token {
                Some(fresh) => fresh,
                None => prev_token.refresh_token,
            },
        }
    }

    /// The token that replaces `prev_token`, received at `now`. Where the
    /// answer leaves the refresh token out, the previous one is carried
    /// forward. The previous token is not changed.
    pub fn to_token(self, prev_token: &Token, now: Timestamp) -> (r: Token)
        ensures
            r == self.refreshed(*prev_token, now),
    {
        let refresh_token = match self.refresh_token {
            Some(fresh) => fresh,
            None => prev_token.refresh_token.clone(),
        };
        Token {
            access_token: self.access_token,
            token_type: self.token_type,
            expires_in: TimeSpan::from_secs(self.expires_in),
            time_set: now,
            refresh_token,
        }
    }
}

/// A token is invalid from the very instant its lifetime ends: at the end
/// itself it is no longer valid.
pub proof fn lemma_invalid_at_the_end(token: Token, now: Timestamp)
    requires
        now.as_nanos() == token.time_set.as_nanos() + token.expires_in.as_nanos(),
    ensures
        !token.valid_at(now),
{
}

/// A refresh whose answer leaves the refresh token out keeps the previous
/// one, and takes everything else from the answer.
pub proof fn lemma_refresh_carries_forward(
    answer: RefreshTokenFromApi,
    prev_token: Token,
    now: Timestamp,
)
    requires
        answer.refresh_token is None,
    ensures
        answer.refreshed(prev_token, now).refresh_token == prev_token.refresh_token,
        answer.refreshed(prev_token, now).access_token == answer.access_token,
        answer.refreshed(prev_token, now).token_type == answer.token_type,
        answer.refreshed(prev_token, now).time_set == now,
        answer.refreshed(prev_token, now).expires_in.as_nanos() == answer.expires_in
            * 1_000_000_000,
{
}

} // verus!
