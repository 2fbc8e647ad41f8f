//! One login callback, from the authorization code to the redirect that
//! carries its outcome. The caller performs each action and hands back what
//! came of it.

use vstd::prelude::*;
use crate::config::{GithubAuth, GitlabAuth};
use crate::github;
use crate::gitlab;
use crate::provider::{Provider, token_of};
use crate::reconcile::{AuthService, ResolveState, Resolver, StoreReply, StoreRequest, follows};
use crate::text::clean_member;

verus! {

/// The token request of either provider.
pub enum TokenRequest {
    Github(github::AccessTokenRequestBody),
    Gitlab(gitlab::AccessTokenRequestBody),
}

/// Which flash message the redirect carries.
#[derive(Clone, Copy, PartialEq, Eq, Structural)]
pub enum FlashKey {
    AuthSuccess,
    AuthFailed,
}

/// The redirect that ends a callback, with its flash message.
pub struct Flash {
    pub redirect: String,
    pub key: FlashKey,
    pub message: String,
}

/// What the caller is to do next.
pub enum Action {
    /// POST the token request, as JSON, to `url`.
    PostToken { url: String, body: TokenRequest },
    /// GET the profile at `url` with this `Authorization` header.
    GetProfile { url: String, authorization: String },
    /// Send this request to storage.
    Store(StoreRequest),
    /// Redirect the browser; the callback is over.
    Respond(Flash),
}

/// What came of the last action. `None` means that no reply was received.
pub enum Event {
    TokenReply(Option<String>),
    ProfileReply(Option<String>),
    Storage(StoreReply),
}

/// Where a callback stands.
pub enum Stage {
    AwaitingToken,
    AwaitingProfile { access_token: String },
    Resolving(Resolver),
    Responded,
}

/// One login callback in progress.
pub struct Callback {
    pub provider: Provider,
    pub redirect: String,
    pub stage: Stage,
}

impl FlashKey {
    pub open spec fn text(self) -> Seq<char> {
        match self {
            FlashKey::AuthSuccess => "auth_success"@,
            FlashKey::AuthFailed => "auth_failed"@,
        }
    }

    /// The key's name, as the browser reads it.
    pub fn as_str(&self) -> (r: &'static str)
        ensures
            r@ == self.text(),
    {
        match self {
            FlashKey::AuthSuccess => "auth_success",
            FlashKey::AuthFailed => "auth_failed",
        }
    }
}

/// The message for an event that does not fit the stage.
pub open spec fn unexpected_event_text() -> Seq<char> {
    "unexpected event"@
}

/// `a` redirects to `redirect` with an `auth_failed` message whose text is `m`.
pub open spec fn fails_with(a: Action, redirect: String, m: Seq<char>) -> bool {
    a matches Action::Respond(f) && f.redirect == redirect && f.key == FlashKey::AuthFailed && f.message@ == m
}

/// What a callback at `s` does on `e`: its next state `t` and action `a`.
pub open spec fn callback_step(s: Callback, e: Event, t: Callback, a: Action) -> bool {
    &&& t.provider == s.provider
    &&& t.redirect == s.redirect
    &&& match (s.stage, e) {
        (Stage::AwaitingToken, Event::TokenReply(None)) => t.stage is Responded && fails_with(
            a,
            s.redirect,
            s.provider.no_reply_text(),
        ),
        (Stage::AwaitingToken, Event::TokenReply(Some(body))) => match token_of(s.provider, body@) {
            Some(tok) => {
                &&& t.stage matches Stage::AwaitingProfile { access_token } && access_token@ == tok
                &&& a matches Action::GetProfile { url, authorization } && url@ == s.provider.profile_url()
                    && authorization@ == s.provider.scheme() + tok
            },
            None => t.stage is Responded && fails_with(a, s.redirect, s.provider.bad_token_text()),
        },
        (Stage::AwaitingProfile { access_token }, Event::ProfileReply(None)) => t.stage is Responded
            && fails_with(a, s.redirect, s.provider.no_profile_text()),
        (Stage::AwaitingProfile { access_token }, Event::ProfileReply(Some(body))) => match clean_member(
            body@,
            s.provider.username_key(),
        ) {
            Some(name) => t.stage matches Stage::Resolving(r) && {
                &&& r.identity.username@ == name
                &&& r.identity.provider_id == s.provider.key()
                &&& r.identity.external_token == access_token
                &&& r.state == ResolveState::Lookup
                &&& a == Action::Store(r.pending()->0)
            },
            None => t.stage is Responded && fails_with(a, s.redirect, s.provider.no_profile_text()),
        },
        (Stage::Resolving(r), Event::Storage(reply)) => exists|next: ResolveState|
            #![trigger follows(r.identity, r.state, reply, next)]
            {
                &&& follows(r.identity, r.state, reply, next)
                &&& match next {
                    ResolveState::Done(Ok(u)) => t.stage is Responded && a == Action::Respond(
                        Flash { redirect: s.redirect, key: FlashKey::AuthSuccess, message: u.token },
                    ),
                    ResolveState::Done(Err(e)) => t.stage is Responded && fails_with(
                        a,
                        s.redirect,
                        e.text()@,
                    ),
                    _ => {
                        let n = Resolver { identity: r.identity, state: next };
                        t.stage == Stage::Resolving(n) && a == Action::Store(n.pending()->0)
                    },
                }
            },
        _ => t.stage is Responded && fails_with(a, s.redirect, unexpected_event_text()),
    }
}

impl Callback {
    /// A GitHub callback for authorization code `code`, and its token request.
    pub fn github(config: &GithubAuth, code: String) -> (r: (Callback, Action))
        ensures
            r.0.provider == Provider::Github,
            r.0.redirect == config.redirect,
            r.0.stage is AwaitingToken,
            (r.1 matches Action::PostToken { url, body: TokenRequest::Github(b) } && {
                &&& url@ == Provider::Github.token_url()
                &&& b.client_id == config.client_id
                &&& b.client_secret == config.secret
                &&& b.code == code
            }),
    {
        let provider = Provider::Github;
        let body = github::AccessTokenRequestBody::new(
            config.client_id.clone(),
            config.secret.clone(),
            code,
        );
        let callback = Callback {
            provider,
            redirect: config.redirect.clone(),
            stage: Stage::AwaitingToken,
        };
        (callback, Action::PostToken { url: provider.token_endpoint(), body: TokenRequest::Github(body) })
    }

    /// A GitLab callback for authorization code `code`, and its token request.
    pub fn gitlab(config: &GitlabAuth, code: String) -> (r: (Callback, Action))
        ensures
            r.0.provider == Provider::Gitlab,
            r.0.redirect == config.redirect,
            r.0.stage is AwaitingToken,
            (r.1 matches Action::PostToken { url, body: TokenRequest::Gitlab(b) } && {
                &&& url@ == Provider::Gitlab.token_url()
                &&& b.client_id == config.client_id
                &&& b.client_secret == config.secret
                &&& b.code == code
                &&& b.grant_type@ == "authorization_code"@
                &&& b.redirect_uri == config.redirect_api
            }),
    {
        let provider = Provider::Gitlab;
        let body = gitlab::AccessTokenRequestBody::new(
            config.client_id.clone(),
            config.secret.clone(),
            code,
            config.redirect_api.clone(),
        );
        let callback = Callback {
            provider,
            redirect: config.redirect.clone(),
            stage: Stage::AwaitingToken,
        };
        (callback, Action::PostToken { url: provider.token_endpoint(), body: TokenRequest::Gitlab(body) })
    }

    /// Moves on with what came of the last action. A failed token exchange
    /// ends the callback at once with `auth_failed`: no profile is read and no
    /// user is resolved.
    pub fn on_event(self, e: Event) -> (r: (Callback, Action))
        ensures
            callback_step(self, e, r.0, r.1),
            self.stage is Responded ==> r.0.stage is Responded,
            self.stage is Responded ==> (r.1 matches Action::Respond(f) && f.key == FlashKey::AuthFailed),
    {
        let Callback { provider, redirect, stage } = self;
        match (stage, e) {
            (Stage::AwaitingToken, Event::TokenReply(reply)) => match provider.exchange_code(reply) {
                Ok(tok) => {
                    let authorization = provider.authorization(tok.as_str());
                    let action = Action::GetProfile { url: provider.profile_endpoint(), authorization };
                    (Callback { provider, redirect, stage: Stage::AwaitingProfile { access_token: tok } }, action)
                },
                Err(err) => respond_failed(provider, redirect, err.into_message()),
            },
            (Stage::AwaitingProfile { access_token }, Event::ProfileReply(reply)) => {
                match provider.fetch_profile(reply) {
                    Ok(name) => {
                        let started = AuthService::new().with_username(name).with_token(
                            access_token,
                        ).with_auth_service_id(provider.id()).execute();
                        match started {
                            Ok(resolver) => {
                                let req = resolver.request().unwrap();
                                (Callback { provider, redirect, stage: Stage::Resolving(resolver) }, Action::Store(req))
                            },
                            Err(err) => respond_failed(provider, redirect, err.into_message()),
                        }
                    },
                    Err(err) => respond_failed(provider, redirect, err.into_message()),
                }
            },
            (Stage::Resolving(resolver), Event::Storage(reply)) => {
                let next = resolver.on_reply(reply);
                if next.is_done() {
                    match next.into_outcome().unwrap() {
                        Ok(user) => {
                            let flash = Flash { redirect: redirect.clone(), key: FlashKey::AuthSuccess, message: user.token };
                            (Callback { provider, redirect, stage: Stage::Responded }, Action::Respond(flash))
                        },
                        Err(err) => respond_failed(provider, redirect, err.into_message()),
                    }
                } else {
                    let req = next.request().unwrap();
                    (Callback { provider, redirect, stage: Stage::Resolving(next) }, Action::Store(req))
                }
            },
            _ => respond_failed(provider, redirect, String::from_str("unexpected event")),
        }
    }
}

/// A callback whose token exchange failed (no reply, or a reply that holds no
/// access token) responds at once with `auth_failed`: it asks for no profile
/// and nothing of storage, and answers whatever comes after with `auth_failed`.
pub proof fn law_failed_exchange_short_circuits(
    s: Callback,
    reply: Option<String>,
    t: Callback,
    a: Action,
    later: Event,
    u: Callback,
    b: Action,
)
    requires
        s.stage is AwaitingToken,
        reply matches Some(body) ==> token_of(s.provider, body@) is None,
        callback_step(s, Event::TokenReply(reply), t, a),
        callback_step(t, later, u, b),
    ensures
        t.stage is Responded,
        a matches Action::Respond(f) && f.key == FlashKey::AuthFailed,
        u.stage is Responded,
        b matches Action::Respond(f) && f.key == FlashKey::AuthFailed,
{
}

/// Ends a callback with an `auth_failed` redirect carrying `message`.
fn respond_failed(provider: Provider, redirect: String, message: String) -> (r: (Callback, Action))
    ensures
        r.0.provider == provider,
        r.0.redirect == redirect,
        r.0.stage is Responded,
        r.1 == Action::Respond((Flash { redirect, key: FlashKey::AuthFailed, message })),
{
    let flash = Flash { redirect: redirect.clone(), key: FlashKey::AuthFailed, message };
    (Callback { provider, redirect, stage: Stage::Responded }, Action::Respond(flash))
}

} // verus!
