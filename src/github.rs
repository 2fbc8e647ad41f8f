//! GitHub's OAuth messages.

use vstd::prelude::*;
use crate::text::{clean_member, read_clean_member};

verus! {

/// The token request sent to GitHub.
pub struct AccessTokenRequestBody {
    pub client_id: String,
    pub client_secret: String,
    pub code: String,
}

/// GitHub's token reply; every member is required.
pub struct AccessTokenResponse {
    pub access_token: String,
    pub token_type: String,
    pub scope: String,
}

impl AccessTokenRequestBody {
    /// A token request for authorization code `code`.
    pub fn new(id: String, secret: String, code: String) -> (r: AccessTokenRequestBody)
        ensures
            r.client_id == id,
            r.client_secret == secret,
            r.code == code,
    {
        AccessTokenRequestBody { client_id: id, client_secret: secret, code }
    }
}

/// GitHub's token reply `body` holds all three members.
pub open spec fn is_token_reply(body: Seq<char>) -> bool {
    &&& clean_member(body, "access_token"@) is Some
    &&& clean_member(body, "token_type"@) is Some
    &&& clean_member(body, "scope"@) is Some
}

impl AccessTokenResponse {
    /// Reads GitHub's token reply; `None` where `body` is not JSON or lacks a
    /// member.
    pub fn from_json(body: &str) -> (r: Option<AccessTokenResponse>)
        ensures
            r is Some <==> is_token_reply(body@),
            r matches Some(t) ==> {
                &&& clean_member(body@, "access_token"@) == Some(t.access_token@)
                &&& clean_member(body@, "token_type"@) == Some(t.token_type@)
                &&& clean_member(body@, "scope"@) == Some(t.scope@)
            },
    {
        let access_token = match read_clean_member(body, "access_token") {
            Some(s) => s,
            None => {
                return None;
            },
        };
        let token_type = match read_clean_member(body, "token_type") {
            Some(s) => s,
            None => {
                return None;
            },
        };
        let scope = match read_clean_member(body, "scope") {
            Some(s) => s,
            None => {
                return None;
            },
        };
        Some(AccessTokenResponse { access_token, token_type, scope })
    }
}

} // verus!
