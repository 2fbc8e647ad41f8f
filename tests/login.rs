use oauth_login::callback::{Action, Callback, Event, Flash, FlashKey, Stage, TokenRequest};
use oauth_login::config::{DatabaseConfig, GithubAuth, GitlabAuth, GlobalConfig};
use oauth_login::provider::Provider;
use oauth_login::reconcile::{
    AuthError, AuthService, PendingIdentity, ResolveState, Resolver, StoreReply, StoreRequest,
};
use oauth_login::store::UserTable;
use oauth_login::text::{normalize_field, read_clean_member, strip_quotes};
use oauth_login::token::generate_token;
use oauth_login::user::{APIUser, InsertUser, User};

fn github_config() -> GithubAuth {
    GithubAuth::new("gh_id".to_string(), "gh_secret".to_string(), "http://localhost/after".to_string())
}

fn gitlab_config() -> GitlabAuth {
    GitlabAuth::new(
        "gl_id".to_string(),
        "gl_secret".to_string(),
        "http://localhost/after_gl".to_string(),
        "http://localhost/api/gitlab".to_string(),
    )
}

fn service(username: &str, provider: i32, token: &str) -> AuthService {
    AuthService::new()
        .with_username(username.to_string())
        .with_auth_service_id(provider)
        .with_token(token.to_string())
}

fn login_message(r: Result<User, AuthError>) -> String {
    match r {
        Ok(_) => "Successfully logged in".to_string(),
        Err(e) => e.into_message(),
    }
}

fn is_token_shaped(t: &str) -> bool {
    t.chars().count() == 30 && t.chars().all(|c| c.is_ascii_alphanumeric())
}

/// Runs a callback to its end, serving storage requests from `table`.
fn run_callback(
    table: &mut UserTable,
    start: (Callback, Action),
    token_reply: Option<&str>,
    profile_reply: Option<&str>,
) -> (Flash, Vec<String>) {
    let (mut cb, mut action) = start;
    let mut seen: Vec<String> = Vec::new();
    loop {
        let event = match action {
            Action::PostToken { .. } => {
                seen.push("post".to_string());
                Event::TokenReply(token_reply.map(|s| s.to_string()))
            }
            Action::GetProfile { .. } => {
                seen.push("profile".to_string());
                Event::ProfileReply(profile_reply.map(|s| s.to_string()))
            }
            Action::Store(req) => {
                seen.push("store".to_string());
                Event::Storage(table.serve(req))
            }
            Action::Respond(flash) => return (flash, seen),
        };
        let (next, a) = cb.on_event(event);
        cb = next;
        action = a;
    }
}

const GITHUB_TOKEN_REPLY: &str = "{\"access_token\":\"tok_x\",\"token_type\":\"bearer\",\"scope\":\"\"}";

#[test]
fn create_user() {
    let mut table = UserTable::new();
    let first = table.resolve(service("test_user", 1, "test_token"));
    assert_eq!(login_message(first), "Successfully logged in".to_string());
    let second = table.resolve(service("test_user", 1, "test_token"));
    assert_eq!(login_message(second), "Successfully logged in".to_string());
    assert_eq!(table.rows.len(), 1);
}

#[test]
fn resolve_twice_returns_same_user() {
    let mut table = UserTable::new();
    let a = table.resolve(service("alice", 2, "first")).ok().unwrap();
    let b = table.resolve(service("alice", 2, "second")).ok().unwrap();
    assert_eq!(a.id, Some(1));
    assert_eq!(b.id, a.id);
    assert_eq!(b.token, a.token);
    assert_eq!(b.ext_token, "first".to_string());
    assert_eq!(table.rows.len(), 1);
}

#[test]
fn same_name_other_provider_is_another_user() {
    let mut table = UserTable::new();
    let a = table.resolve(service("bob", 1, "t1")).ok().unwrap();
    let b = table.resolve(service("bob", 2, "t2")).ok().unwrap();
    assert_eq!(a.id, Some(1));
    assert_eq!(b.id, Some(2));
    assert_eq!(table.rows.len(), 2);
}

#[test]
fn missing_inputs_are_invalid() {
    let mut table = UserTable::new();
    let cases: Vec<(AuthService, &str)> = vec![
        (AuthService::new().with_auth_service_id(1).with_token("t".to_string()), "No username given"),
        (AuthService::new().with_username("u".to_string()).with_token("t".to_string()), "No auth service given"),
        (AuthService::new().with_username("u".to_string()).with_auth_service_id(1), "No token given"),
    ];
    for (svc, msg) in cases {
        match table.resolve(svc) {
            Err(AuthError::InvalidInput(m)) => assert_eq!(m, msg.to_string()),
            _ => panic!("expected InvalidInput"),
        }
    }
    assert_eq!(table.rows.len(), 0);
}

#[test]
fn generated_token_shape() {
    for _ in 0..20 {
        let t = generate_token();
        assert!(is_token_shaped(&t), "bad token {}", t);
    }
}

#[test]
fn insert_user_draws_token() {
    let ins = InsertUser::new("carol".to_string(), 2, "ext".to_string());
    assert_eq!(ins.username, "carol".to_string());
    assert_eq!(ins.auth_provider, 2);
    assert_eq!(ins.ext_token, "ext".to_string());
    assert!(is_token_shaped(&ins.token));
    let u = User::new_from_inserted(ins);
    assert_eq!(u.id, None);
    assert_eq!(u.username, "carol".to_string());
}

#[test]
fn username_normalization() {
    assert_eq!(normalize_field("\"octocat\"\n"), "octocat".to_string());
    assert_eq!(normalize_field("  plain\t"), "plain".to_string());
    assert_eq!(normalize_field(""), "".to_string());
    assert_eq!(strip_quotes("a\"b\"c"), "abc".to_string());
}

#[test]
fn json_member_is_read_and_cleaned() {
    assert_eq!(read_clean_member("{\"login\":\"octocat\"}", "login"), Some("octocat".to_string()));
    assert_eq!(read_clean_member("{\"id\":42}", "id"), Some("42".to_string()));
    assert_eq!(read_clean_member("{\"login\":\"octocat\"}", "name"), None);
    assert_eq!(read_clean_member("not json", "login"), None);
}

#[test]
fn parse_access_token_per_provider() {
    assert_eq!(Provider::Github.parse_access_token(GITHUB_TOKEN_REPLY).ok(), Some("tok_x".to_string()));
    match Provider::Github.parse_access_token("{\"access_token\":\"tok_x\"}") {
        Err(AuthError::ProviderError(m)) => assert_eq!(m, "Error contacting Github".to_string()),
        _ => panic!("expected ProviderError"),
    }
    assert_eq!(Provider::Gitlab.parse_access_token("{\"access_token\":\"glt\"}").ok(), Some("glt".to_string()));
    match Provider::Gitlab.parse_access_token("<html>") {
        Err(AuthError::ProviderError(m)) => assert_eq!(m, "Error contacting Gitlab".to_string()),
        _ => panic!("expected ProviderError"),
    }
}

#[test]
fn parse_username_per_provider() {
    assert_eq!(Provider::Github.parse_username("{\"login\":\"octocat\"}").ok(), Some("octocat".to_string()));
    assert_eq!(Provider::Gitlab.parse_username("{\"username\":\"gl_user\"}").ok(), Some("gl_user".to_string()));
    match Provider::Gitlab.parse_username("{\"login\":\"octocat\"}") {
        Err(AuthError::ProfileFetchError(m)) => {
            assert_eq!(m, "Failed to get the username from Gitlab".to_string())
        }
        _ => panic!("expected ProfileFetchError"),
    }
}

#[test]
fn provider_constants() {
    assert_eq!(Provider::Github.id(), 1);
    assert_eq!(Provider::Gitlab.id(), 2);
    assert_eq!(Provider::Github.authorization("abc"), "token abc".to_string());
    assert_eq!(Provider::Gitlab.authorization("abc"), "Bearer abc".to_string());
    assert_eq!(Provider::Github.profile_endpoint(), "https://api.github.com/user".to_string());
    assert_eq!(Provider::Gitlab.token_endpoint(), "https://gitlab.com/oauth/token".to_string());
    assert_eq!(FlashKey::AuthSuccess.as_str(), "auth_success");
    assert_eq!(FlashKey::AuthFailed.as_str(), "auth_failed");
}

#[test]
fn exchange_failure_short_circuits() {
    let mut table = UserTable::new();
    let start = Callback::github(&github_config(), "abc123".to_string());
    let (flash, seen) = run_callback(&mut table, start, None, Some("{\"login\":\"x\"}"));
    assert_eq!(seen, vec!["post".to_string()]);
    assert!(flash.key == FlashKey::AuthFailed);
    assert_eq!(flash.message, "Github's server did not respond".to_string());
    assert_eq!(flash.redirect, "http://localhost/after".to_string());

    let start = Callback::github(&github_config(), "abc123".to_string());
    let (flash, seen) = run_callback(&mut table, start, Some("{\"error\":\"bad_verification_code\"}"), Some("{\"login\":\"x\"}"));
    assert_eq!(seen, vec!["post".to_string()]);
    assert!(flash.key == FlashKey::AuthFailed);
    assert_eq!(flash.message, "Error contacting Github".to_string());
    assert_eq!(table.rows.len(), 0);
}

#[test]
fn profile_failure_ends_callback() {
    let mut table = UserTable::new();
    let start = Callback::gitlab(&gitlab_config(), "c".to_string());
    let (flash, seen) = run_callback(&mut table, start, Some("{\"access_token\":\"glt\"}"), None);
    assert_eq!(seen, vec!["post".to_string(), "profile".to_string()]);
    assert!(flash.key == FlashKey::AuthFailed);
    assert_eq!(flash.message, "Failed to get the username from Gitlab".to_string());
    assert_eq!(table.rows.len(), 0);
}

#[test]
fn end_to_end_first_login() {
    let mut table = UserTable::new();
    let start = Callback::github(&github_config(), "abc123".to_string());
    match &start.1 {
        Action::PostToken { url, body: TokenRequest::Github(b) } => {
            assert_eq!(url, "https://github.com/login/oauth/access_token");
            assert_eq!(b.code, "abc123".to_string());
            assert_eq!(b.client_id, "gh_id".to_string());
            assert_eq!(b.client_secret, "gh_secret".to_string());
        }
        _ => panic!("expected a GitHub token request"),
    }
    let (flash, _) = run_callback(&mut table, start, Some(GITHUB_TOKEN_REPLY), Some("{\"login\":\"github_login\"}"));
    assert!(flash.key == FlashKey::AuthSuccess);
    assert!(is_token_shaped(&flash.message));
    assert_eq!(table.rows.len(), 1);
    let row = &table.rows[0];
    assert_eq!(row.username, "github_login".to_string());
    assert_eq!(row.auth_provider, 1);
    assert_eq!(row.ext_token, "tok_x".to_string());
    assert_eq!(row.token, flash.message);
}

#[test]
fn repeat_login_returns_same_token() {
    let mut table = UserTable::new();
    let start = Callback::github(&github_config(), "abc123".to_string());
    let (first, _) = run_callback(&mut table, start, Some(GITHUB_TOKEN_REPLY), Some("{\"login\":\"github_login\"}"));
    let start = Callback::github(&github_config(), "abc123".to_string());
    let (second, _) = run_callback(&mut table, start, Some(GITHUB_TOKEN_REPLY), Some("{\"login\":\"github_login\"}"));
    assert!(second.key == FlashKey::AuthSuccess);
    assert_eq!(second.message, first.message);
    assert_eq!(table.rows.len(), 1);
}

#[test]
fn gitlab_flow_uses_bearer_and_username() {
    let start = Callback::gitlab(&gitlab_config(), "code".to_string());
    match &start.1 {
        Action::PostToken { url, body: TokenRequest::Gitlab(b) } => {
            assert_eq!(url, "https://gitlab.com/oauth/token");
            assert_eq!(b.grant_type, "authorization_code".to_string());
            assert_eq!(b.redirect_uri, "http://localhost/api/gitlab".to_string());
        }
        _ => panic!("expected a GitLab token request"),
    }
    let (cb, _) = start;
    let (cb, action2) = cb.on_event(Event::TokenReply(Some("{\"access_token\":\"glt\"}".to_string())));
    match &action2 {
        Action::GetProfile { url, authorization } => {
            assert_eq!(url, "https://gitlab.com/api/v3/user");
            assert_eq!(authorization, "Bearer glt");
        }
        _ => panic!("expected a profile request"),
    }
    let (cb, action3) = cb.on_event(Event::ProfileReply(Some("{\"username\":\"gl_user\"}".to_string())));
    match action3 {
        Action::Store(StoreRequest::Query { username, auth_provider }) => {
            assert_eq!(username, "gl_user".to_string());
            assert_eq!(auth_provider, 2);
        }
        _ => panic!("expected a storage query"),
    }
    assert!(matches!(cb.stage, Stage::Resolving(_)));
}

#[test]
fn concurrent_first_logins_share_one_row() {
    let mut table = UserTable::new();
    let ident = |t: &str| PendingIdentity {
        username: "racer".to_string(),
        provider_id: 1,
        external_token: t.to_string(),
    };
    let a = Resolver::new(ident("ta"));
    let b = Resolver::new(ident("tb"));
    let ra = table.serve(a.request().unwrap());
    let rb = table.serve(b.request().unwrap());
    let a = a.on_reply(ra);
    let b = b.on_reply(rb);
    let ia = table.serve(a.request().unwrap());
    let ib = table.serve(b.request().unwrap());
    assert!(matches!(ib, StoreReply::Conflict));
    let a = a.on_reply(ia);
    let b = b.on_reply(ib);
    assert!(matches!(b.state, ResolveState::Recheck));
    let rb = table.serve(b.request().unwrap());
    let b = b.on_reply(rb);
    let ua = a.into_outcome().unwrap().ok().unwrap();
    let ub = b.into_outcome().unwrap().ok().unwrap();
    assert_eq!(table.rows.len(), 1);
    assert_eq!(ua.id, ub.id);
    assert_eq!(ua.token, ub.token);
}

#[test]
fn storage_failure_is_persistence_error() {
    let r = Resolver::new(PendingIdentity {
        username: "u".to_string(),
        provider_id: 1,
        external_token: "t".to_string(),
    });
    let r = r.on_reply(StoreReply::Failed("disk full".to_string()));
    match r.into_outcome() {
        Some(Err(AuthError::PersistenceError(m))) => assert_eq!(m, "disk full".to_string()),
        _ => panic!("expected PersistenceError"),
    }
    let r = Resolver::new(PendingIdentity {
        username: "u".to_string(),
        provider_id: 1,
        external_token: "t".to_string(),
    });
    let r = r.on_reply(StoreReply::Conflict);
    match r.into_outcome() {
        Some(Err(AuthError::PersistenceError(m))) => assert_eq!(m, "unexpected storage reply".to_string()),
        _ => panic!("expected PersistenceError"),
    }
}

#[test]
fn storage_failure_reaches_browser() {
    let (cb, _) = Callback::github(&github_config(), "abc123".to_string());
    let (cb, _) = cb.on_event(Event::TokenReply(Some(GITHUB_TOKEN_REPLY.to_string())));
    let (cb, _) = cb.on_event(Event::ProfileReply(Some("{\"login\":\"x\"}".to_string())));
    let (cb, action) = cb.on_event(Event::Storage(StoreReply::Failed("locked".to_string())));
    match action {
        Action::Respond(f) => {
            assert!(f.key == FlashKey::AuthFailed);
            assert_eq!(f.message, "locked".to_string());
        }
        _ => panic!("expected a response"),
    }
    let (_, again) = cb.on_event(Event::TokenReply(None));
    match again {
        Action::Respond(f) => assert!(f.key == FlashKey::AuthFailed),
        _ => panic!("expected a response"),
    }
}

#[test]
fn find_by_token_and_api_user() {
    let mut table = UserTable::new();
    let u = table.resolve(service("dave", 1, "ext")).ok().unwrap();
    let found = User::find_by_token(u.token.clone(), &table).ok().unwrap();
    assert_eq!(found.username, "dave".to_string());
    assert!(User::find_by_token("nope".to_string(), &table).is_err());
    let api = APIUser::new_from_user(found);
    assert_eq!(api.id, 1);
    assert_eq!(api.auth_provider, 1);
    assert_eq!(api.username, "dave".to_string());
}

#[test]
fn config_getters() {
    let config = GlobalConfig::new(github_config(), gitlab_config(), DatabaseConfig::new("db.sqlite".to_string()));
    assert_eq!(config.borrow_github_config().get_client_id(), "gh_id");
    assert_eq!(config.borrow_github_config().get_secret(), "gh_secret");
    assert_eq!(config.borrow_github_config().get_redirect(), "http://localhost/after");
    assert_eq!(config.borrow_gitlab_config().get_redirect_api(), "http://localhost/api/gitlab");
    assert_eq!(config.borrow_gitlab_config().get_client_id(), "gl_id");
    assert_eq!(config.borrow_gitlab_config().get_secret(), "gl_secret");
    assert_eq!(config.borrow_gitlab_config().get_redirect(), "http://localhost/after_gl");
    assert_eq!(config.borrow_database_config().get_url(), "db.sqlite");
}
