//! GitLab's OAuth messages.

use vstd::prelude::*;

verus! {

/// The token request sent to GitLab.
pub struct AccessTokenRequestBody {
    pub client_id: String,
    pub client_secret: String,
    pub code: String,
    pub grant_type: String,
    pub redirect_uri: String,
}

impl AccessTokenRequestBody {
    /// A token request for authorization code `code`, of grant type
    /// `authorization_code`.
    pub fn new(id: String, secret: String, code: String, redirect_uri: String) -> (r: AccessTokenRequestBody)
        ensures
            r.client_id == id,
            r.client_secret == secret,
            r.code == code,
            r.grant_type@ == "authorization_code"@,
            r.redirect_uri == redirect_uri,
    {
        AccessTokenRequestBody {
            client_id: id,
            client_secret: secret,
            code,
            grant_type: String::from_str("authorization_code"),
            redirect_uri,
        }
    }
}

} // verus!
