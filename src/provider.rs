//! The identity providers, and reading their replies.

use vstd::prelude::*;
use crate::github::{AccessTokenResponse, is_token_reply};
use crate::reconcile::AuthError;
use crate::text::{clean_member, read_clean_member};

verus! {

/// An identity provider.
#[derive(Clone, Copy, PartialEq, Eq, Structural)]
pub enum Provider {
    Github,
    Gitlab,
}

/// The access token that `p`'s token reply `body` carries, cleaned; `None`
/// where the reply is not a token reply.
pub open spec fn token_of(p: Provider, body: Seq<char>) -> Option<Seq<char>> {
    match p {
        Provider::Github => if is_token_reply(body) {
            clean_member(body, "access_token"@)
        } else {
            None
        },
        Provider::Gitlab => clean_member(body, "access_token"@),
    }
}

impl Provider {
    /// The key of the provider in the `users` relation.
    pub open spec fn key(self) -> i32 {
        match self {
            Provider::Github => 1,
            Provider::Gitlab => 2,
        }
    }

    /// The provider's name in messages.
    pub open spec fn name(self) -> Seq<char> {
        match self {
            Provider::Github => "Github"@,
            Provider::Gitlab => "Gitlab"@,
        }
    }

    /// Where an authorization code is exchanged for an access token.
    pub open spec fn token_url(self) -> Seq<char> {
        match self {
            Provider::Github => "https://github.com/login/oauth/access_token"@,
            Provider::Gitlab => "https://gitlab.com/oauth/token"@,
        }
    }

    /// Where the signed-in user's profile is read.
    pub open spec fn profile_url(self) -> Seq<char> {
        match self {
            Provider::Github => "https://api.github.com/user"@,
            Provider::Gitlab => "https://gitlab.com/api/v3/user"@,
        }
    }

    /// The scheme of the `Authorization` header of the profile request.
    pub open spec fn scheme(self) -> Seq<char> {
        match self {
            Provider::Github => "token "@,
            Provider::Gitlab => "Bearer "@,
        }
    }

    /// The profile member that holds the username.
    pub open spec fn username_key(self) -> Seq<char> {
        match self {
            Provider::Github => "login"@,
            Provider::Gitlab => "username"@,
        }
    }

    /// The message for a token exchange that got no reply.
    pub open spec fn no_reply_text(self) -> Seq<char> {
        match self {
            Provider::Github => "Github's server did not respond"@,
            Provider::Gitlab => "Gitlab's server did not respond"@,
        }
    }

    /// The message for a token reply that holds no access token.
    pub open spec fn bad_token_text(self) -> Seq<char> {
        match self {
            Provider::Github => "Error contacting Github"@,
            Provider::Gitlab => "Error contacting Gitlab"@,
        }
    }

    /// The message for a profile that could not be read.
    pub open spec fn no_profile_text(self) -> Seq<char> {
        match self {
            Provider::Github => "Failed to get the username from Github"@,
            Provider::Gitlab => "Failed to get the username from Gitlab"@,
        }
    }

    pub fn id(&self) -> (r: i32)
        ensures
            r == self.key(),
    {
        match self {
            Provider::Github => 1,
            Provider::Gitlab => 2,
        }
    }

    pub fn token_endpoint(&self) -> (r: String)
        ensures
            r@ == self.token_url(),
    {
        match self {
            Provider::Github => String::from_str("https://github.com/login/oauth/access_token"),
            Provider::Gitlab => String::from_str("https://gitlab.com/oauth/token"),
        }
    }

    pub fn profile_endpoint(&self) -> (r: String)
        ensures
            r@ == self.profile_url(),
    {
        match self {
            Provider::Github => String::from_str("https://api.github.com/user"),
            Provider::Gitlab => String::from_str("https://gitlab.com/api/v3/user"),
        }
    }

    /// The `Authorization` header value of the profile request.
    pub fn authorization(&self, access_token: &str) -> (r: String)
        ensures
            r@ == self.scheme() + access_token@,
    {
        let mut header = match self {
            Provider::Github => String::from_str("token "),
            Provider::Gitlab => String::from_str("Bearer "),
        };
        header.append(access_token);
        header
    }

    pub fn no_reply_message(&self) -> (r: String)
        ensures
            r@ == self.no_reply_text(),
    {
        match self {
            Provider::Github => String::from_str("Github's server did not respond"),
            Provider::Gitlab => String::from_str("Gitlab's server did not respond"),
        }
    }

    pub fn bad_token_message(&self) -> (r: String)
        ensures
            r@ == self.bad_token_text(),
    {
        match self {
            Provider::Github => String::from_str("Error contacting Github"),
            Provider::Gitlab => String::from_str("Error contacting Gitlab"),
        }
    }

    pub fn no_profile_message(&self) -> (r: String)
        ensures
            r@ == self.no_profile_text(),
    {
        match self {
            Provider::Github => String::from_str("Failed to get the username from Github"),
            Provider::Gitlab => String::from_str("Failed to get the username from Gitlab"),
        }
    }

    /// Reads the access token out of the provider's token reply.
    pub fn parse_access_token(&self, body: &str) -> (r: Result<String, AuthError>)
        ensures
            match token_of(*self, body@) {
                Some(t) => r matches Ok(s) && s@ == t,
                None => r matches Err(AuthError::ProviderError(m)) && m@ == self.bad_token_text(),
            },
    {
        let found = match self {
            Provider::Github => match AccessTokenResponse::from_json(body) {
                Some(reply) => Some(reply.access_token),
                None => None,
            },
            Provider::Gitlab => read_clean_member(body, "access_token"),
        };
        match found {
            Some(t) => Ok(t),
            None => Err(AuthError::ProviderError(self.bad_token_message())),
        }
    }

    /// The outcome of exchanging an authorization code, from the token
    /// endpoint's reply body; `None` means that no reply was received.
    pub fn exchange_code(&self, reply: Option<String>) -> (r: Result<String, AuthError>)
        ensures
            match reply {
                None => r matches Err(AuthError::NetworkError(m)) && m@ == self.no_reply_text(),
                Some(body) => match token_of(*self, body@) {
                    Some(t) => r matches Ok(s) && s@ == t,
                    None => r matches Err(AuthError::ProviderError(m)) && m@ == self.bad_token_text(),
                },
            },
    {
        match reply {
            None => Err(AuthError::NetworkError(self.no_reply_message())),
            Some(body) => self.parse_access_token(body.as_str()),
        }
    }

    /// The outcome of reading the profile, from the profile endpoint's reply
    /// body; `None` means that no reply was received.
    pub fn fetch_profile(&self, reply: Option<String>) -> (r: Result<String, AuthError>)
        ensures
            match reply {
                None => r matches Err(AuthError::NetworkError(m)) && m@ == self.no_profile_text(),
                Some(body) => match clean_member(body@, self.username_key()) {
                    Some(t) => r matches Ok(s) && s@ == t,
                    None => r matches Err(AuthError::ProfileFetchError(m)) && m@ == self.no_profile_text(),
                },
            },
    {
        match reply {
            None => Err(AuthError::NetworkError(self.no_profile_message())),
            Some(body) => self.parse_username(body.as_str()),
        }
    }

    /// Reads the username out of the provider's profile reply.
    pub fn parse_username(&self, body: &str) -> (r: Result<String, AuthError>)
        ensures
            match clean_member(body@, self.username_key()) {
                Some(t) => r matches Ok(s) && s@ == t,
                None => r matches Err(AuthError::ProfileFetchError(m)) && m@ == self.no_profile_text(),
            },
    {
        let key = match self {
            Provider::Github => "login",
            Provider::Gitlab => "username",
        };
        match read_clean_member(body, key) {
            Some(name) => Ok(name),
            None => Err(AuthError::ProfileFetchError(self.no_profile_message())),
        }
    }
}

} // verus!
