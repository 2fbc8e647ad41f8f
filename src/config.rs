//! Static configuration: each provider's OAuth application and the database.

use vstd::prelude::*;

verus! {

/// The GitHub OAuth application.
pub struct GithubAuth {
    /// Client ID of the GitHub app.
    pub client_id: String,
    /// Secret of the GitHub app.
    pub secret: String,
    /// Address the browser is sent to after a login attempt.
    pub redirect: String,
}

/// The GitLab OAuth application.
pub struct GitlabAuth {
    /// Client ID of the GitLab app.
    pub client_id: String,
    /// Secret of the GitLab app.
    pub secret: String,
    /// Address the browser is sent to after a login attempt.
    pub redirect: String,
    /// Redirect URI registered with GitLab, sent with the token request.
    pub redirect_api: String,
}

/// Where the `users` relation lives.
pub struct DatabaseConfig {
    pub url: String,
}

/// The whole configuration.
pub struct GlobalConfig {
    pub github: GithubAuth,
    pub gitlab: GitlabAuth,
    pub database: DatabaseConfig,
}

impl GithubAuth {
    pub fn new(client_id: String, secret: String, redirect: String) -> (r: GithubAuth)
        ensures
            r.client_id == client_id,
            r.secret == secret,
            r.redirect == redirect,
    {
        GithubAuth { client_id, secret, redirect }
    }

    /// The client ID of the GitHub app.
    pub fn get_client_id(&self) -> (r: &str)
        ensures
            r@ == self.client_id@,
    {
        self.client_id.as_str()
    }

    /// The secret of the GitHub app.
    pub fn get_secret(&self) -> (r: &str)
        ensures
            r@ == self.secret@,
    {
        self.secret.as_str()
    }

    /// The address to redirect to after a login attempt.
    pub fn get_redirect(&self) -> (r: &str)
        ensures
            r@ == self.redirect@,
    {
        self.redirect.as_str()
    }
}

impl GitlabAuth {
    pub fn new(client_id: String, secret: String, redirect: String, redirect_api: String) -> (r: GitlabAuth)
        ensures
            r.client_id == client_id,
            r.secret == secret,
            r.redirect == redirect,
            r.redirect_api == redirect_api,
    {
        GitlabAuth { client_id, secret, redirect, redirect_api }
    }

    /// The client ID of the GitLab app.
    pub fn get_client_id(&self) -> (r: &str)
        ensures
            r@ == self.client_id@,
    {
        self.client_id.as_str()
    }

    /// The secret of the GitLab app.
    pub fn get_secret(&self) -> (r: &str)
        ensures
            r@ == self.secret@,
    {
        self.secret.as_str()
    }

    /// The address to redirect to after a login attempt.
    pub fn get_redirect(&self) -> (r: &str)
        ensures
            r@ == self.redirect@,
    {
        self.redirect.as_str()
    }

    /// The redirect URI sent with the token request.
    pub fn get_redirect_api(&self) -> (r: &str)
        ensures
            r@ == self.redirect_api@,
    {
        self.redirect_api.as_str()
    }
}

impl DatabaseConfig {
    pub fn new(url: String) -> (r: DatabaseConfig)
        ensures
            r.url == url,
    {
        DatabaseConfig { url }
    }

    /// Where the database lives.
    pub fn get_url(&self) -> (r: &str)
        ensures
            r@ == self.url@,
    {
        self.url.as_str()
    }
}

impl GlobalConfig {
    pub fn new(github: GithubAuth, gitlab: GitlabAuth, database: DatabaseConfig) -> (r: GlobalConfig)
        ensures
            r.github == github,
            r.gitlab == gitlab,
            r.database == database,
    {
        GlobalConfig { github, gitlab, database }
    }

    /// The GitHub part of the configuration.
    pub fn borrow_github_config(&self) -> (r: &GithubAuth)
        ensures
            *r == self.github,
    {
        &self.github
    }

    /// The GitLab part of the configuration.
    pub fn borrow_gitlab_config(&self) -> (r: &GitlabAuth)
        ensures
            *r == self.gitlab,
    {
        &self.gitlab
    }

    /// The database part of the configuration.
    pub fn borrow_database_config(&self) -> (r: &DatabaseConfig)
        ensures
            *r == self.database,
    {
        &self.database
    }
}

} // verus!
