//! Reconciliation of an external identity with the local `users` relation.
//!
//! Storage is reached by the caller: a `Resolver` names the request it waits on
//! and moves on with each reply, until it holds its outcome.

use vstd::prelude::*;
use crate::token::is_session_token;
use crate::user::{InsertUser, User, stored_user};

verus! {

/// Why a login could not be completed.
pub enum AuthError {
    /// The provider could not be reached, or did not answer.
    NetworkError(String),
    /// The provider answered with something that is not an access token.
    ProviderError(String),
    /// The profile reply is not JSON or lacks the username member.
    ProfileFetchError(String),
    /// Reconciliation was asked for without all of its inputs.
    InvalidInput(String),
    /// Storage failed to read or write.
    PersistenceError(String),
}

impl AuthError {
    /// The human-readable cause carried by the error.
    pub open spec fn text(self) -> String {
        match self {
            AuthError::NetworkError(m) => m,
            AuthError::ProviderError(m) => m,
            AuthError::ProfileFetchError(m) => m,
            AuthError::InvalidInput(m) => m,
            AuthError::PersistenceError(m) => m,
        }
    }

    /// The human-readable cause, for the user.
    pub fn into_message(self) -> (r: String)
        ensures
            r == self.text(),
    {
        match self {
            AuthError::NetworkError(m) => m,
            AuthError::ProviderError(m) => m,
            AuthError::ProfileFetchError(m) => m,
            AuthError::InvalidInput(m) => m,
            AuthError::PersistenceError(m) => m,
        }
    }
}

/// A verified external identity, before reconciliation.
pub struct PendingIdentity {
    pub username: String,
    pub provider_id: i32,
    pub external_token: String,
}

/// The inputs of a reconciliation, set one at a time.
pub struct AuthService {
    pub username: Option<String>,
    pub id_auth_service: Option<i32>,
    pub token: Option<String>,
}

/// What a `Resolver` asks of storage.
pub enum StoreRequest {
    /// The rows whose username and provider are these.
    Query { username: String, auth_provider: i32 },
    /// Write this row; the relation is unique on (username, provider).
    Insert(InsertUser),
}

/// What storage answered.
pub enum StoreReply {
    /// The matching rows, in storage order.
    Rows(Vec<User>),
    /// The row was written under this key.
    Inserted(i32),
    /// A row with the same (username, provider) already exists.
    Conflict,
    /// Storage failed, for this reason.
    Failed(String),
}

/// Where a reconciliation stands.
pub enum ResolveState {
    /// Waiting for the rows of the identity.
    Lookup,
    /// Waiting for the insert of this new row.
    Insert(InsertUser),
    /// A concurrent insert won: waiting for the rows again.
    Recheck,
    /// Finished.
    Done(Result<User, AuthError>),
}

/// One reconciliation in progress.
pub struct Resolver {
    pub identity: PendingIdentity,
    pub state: ResolveState,
}

/// `ins` is the row to create for `id`: its fields, and a fresh session token.
pub open spec fn fresh_insert(id: PendingIdentity, ins: InsertUser) -> bool {
    &&& ins.username == id.username
    &&& ins.auth_provider == id.provider_id
    &&& ins.ext_token == id.external_token
    &&& is_session_token(ins.token@)
}

/// Text of the error for a reply that does not fit the request.
pub open spec fn unexpected_reply_text() -> Seq<char> {
    "unexpected storage reply"@
}

/// Text of the error for a conflict after which no row is found.
pub open spec fn vanished_row_text() -> Seq<char> {
    "conflicting row not found"@
}

/// `s` failed in storage with a message whose text is `m`.
pub open spec fn failed_with(s: ResolveState, m: Seq<char>) -> bool {
    s matches ResolveState::Done(Err(AuthError::PersistenceError(t))) && t@ == m
}

/// The state that a reply moves `s` to (`t`), given the identity being resolved.
pub open spec fn follows(id: PendingIdentity, s: ResolveState, reply: StoreReply, t: ResolveState) -> bool {
    match s {
        ResolveState::Lookup => match reply {
            StoreReply::Rows(rows) => if rows@.len() > 0 {
                t == ResolveState::Done(Ok(rows@[0]))
            } else {
                t matches ResolveState::Insert(ins) && fresh_insert(id, ins)
            },
            StoreReply::Failed(m) => t == ResolveState::Done(Err(AuthError::PersistenceError(m))),
            _ => failed_with(t, unexpected_reply_text()),
        },
        ResolveState::Insert(ins) => match reply {
            StoreReply::Inserted(key) => t == ResolveState::Done(Ok(stored_user(ins, key))),
            StoreReply::Conflict => t == ResolveState::Recheck,
            StoreReply::Failed(m) => t == ResolveState::Done(Err(AuthError::PersistenceError(m))),
            _ => failed_with(t, unexpected_reply_text()),
        },
        ResolveState::Recheck => match reply {
            StoreReply::Rows(rows) => if rows@.len() > 0 {
                t == ResolveState::Done(Ok(rows@[0]))
            } else {
                failed_with(t, vanished_row_text())
            },
            StoreReply::Failed(m) => t == ResolveState::Done(Err(AuthError::PersistenceError(m))),
            _ => failed_with(t, unexpected_reply_text()),
        },
        ResolveState::Done(_) => t == s,
    }
}

/// `u` is a row for (`name`, `p`).
pub open spec fn has_pair(u: User, name: Seq<char>, p: i32) -> bool {
    u.username@ == name && u.auth_provider == p
}

/// Some row of `rows` is for (`name`, `p`).
pub open spec fn holds_pair(rows: Seq<User>, name: Seq<char>, p: i32) -> bool {
    exists|i: int| 0 <= i < rows.len() && has_pair(#[trigger] rows[i], name, p)
}

/// The rows of `rows` for (`name`, `p`), in order.
pub open spec fn rows_of(rows: Seq<User>, name: Seq<char>, p: i32) -> Seq<User> {
    rows.filter(pair_test(name, p))
}

/// The test `has_pair(_, name, p)` as a spec closure.
pub open spec fn pair_test(name: Seq<char>, p: i32) -> spec_fn(User) -> bool {
    |u: User| has_pair(u, name, p)
}

/// No two rows share a (username, provider) pair.
pub open spec fn unique_pairs(rows: Seq<User>) -> bool {
    forall|i: int, j: int|
        0 <= i < j < rows.len() ==> !has_pair(#[trigger] rows[i], rows[j].username@, #[trigger] rows[j].auth_provider)
}

/// The storage contract: with the relation at `rows` before, storage may answer
/// `req` with `reply`, leaving the relation at `after`. Reads change nothing;
/// an insert is refused with `Conflict` while a row holds the same pair; any
/// request may fail without a change.
pub open spec fn answers(rows: Seq<User>, req: StoreRequest, reply: StoreReply, after: Seq<User>) -> bool {
    match req {
        StoreRequest::Query { username, auth_provider } => {
            &&& after == rows
            &&& match reply {
                StoreReply::Rows(found) => found@ == rows_of(rows, username@, auth_provider),
                StoreReply::Failed(_) => true,
                _ => false,
            }
        },
        StoreRequest::Insert(ins) => match reply {
            StoreReply::Inserted(key) => !holds_pair(rows, ins.username@, ins.auth_provider) && after
                == rows.push(stored_user(ins, key)),
            StoreReply::Conflict => holds_pair(rows, ins.username@, ins.auth_provider) && after == rows,
            StoreReply::Failed(_) => after == rows,
            _ => false,
        },
    }
}

/// What a reconciliation in `r` has learnt agrees with the relation at `rows`:
/// a row it is about to insert is for its identity, and a user it returns is a
/// row of the relation, for its identity.
pub open spec fn consistent(rows: Seq<User>, r: Resolver) -> bool {
    &&& r.state matches ResolveState::Insert(ins) ==> fresh_insert(r.identity, ins)
    &&& r.state matches ResolveState::Done(Ok(u)) ==> rows.contains(u) && has_pair(
        u,
        r.identity.username@,
        r.identity.provider_id,
    )
}

/// Every member of `rows_of(rows, name, p)` is a row of `rows` for (`name`, `p`).
proof fn lemma_rows_of_members(rows: Seq<User>, name: Seq<char>, p: i32)
    ensures
        forall|k: int|
            0 <= k < rows_of(rows, name, p).len() ==> rows.contains(#[trigger] rows_of(rows, name, p)[k])
                && has_pair(rows_of(rows, name, p)[k], name, p),
{
    let f = pair_test(name, p);
    assert forall|k: int| 0 <= k < rows.filter(f).len() implies rows.contains(#[trigger] rows.filter(f)[k])
        && has_pair(rows.filter(f)[k], name, p) by {
        rows.lemma_filter_pred(f, k);
        assert(rows.filter(f).contains(rows.filter(f)[k]));
        rows.lemma_filter_contains_rev(f, rows.filter(f)[k]);
    }
}

/// Two rows of a relation with unique pairs that are for the same pair are the
/// same row.
pub proof fn lemma_same_pair_same_row(rows: Seq<User>, u: User, v: User)
    requires
        unique_pairs(rows),
        rows.contains(u),
        rows.contains(v),
        has_pair(v, u.username@, u.auth_provider),
    ensures
        u == v,
{
    let i = choose|i: int| 0 <= i < rows.len() && rows[i] == u;
    let j = choose|j: int| 0 <= j < rows.len() && rows[j] == v;
    if i < j {
        assert(!has_pair(rows[i], rows[j].username@, rows[j].auth_provider));
    } else if j < i {
        assert(!has_pair(rows[j], rows[i].username@, rows[i].auth_provider));
    }
}

/// Two reconciliations may run at once against one relation, each step
/// answered by storage under its contract. Whichever of them takes a step, the
/// relation keeps at most one row per (username, provider), and both
/// reconciliations stay consistent with it.
pub proof fn law_concurrent_step_keeps_consistency(
    rows: Seq<User>,
    after: Seq<User>,
    a: Resolver,
    a_next: Resolver,
    b: Resolver,
    req: StoreRequest,
    reply: StoreReply,
)
    requires
        unique_pairs(rows),
        consistent(rows, a),
        consistent(rows, b),
        a.pending() == Some(req),
        answers(rows, req, reply, after),
        a_next.identity == a.identity,
        follows(a.identity, a.state, reply, a_next.state),
    ensures
        unique_pairs(after),
        consistent(after, a_next),
        consistent(after, b),
{
    lemma_answer_keeps_rows(rows, req, reply, after);
    if let StoreReply::Rows(found) = reply {
        if let StoreRequest::Query { username, auth_provider } = req {
            lemma_rows_of_members(rows, username@, auth_provider);
            if found@.len() > 0 {
                assert(rows.contains(found@[0]));
            }
        }
    }
    if let StoreReply::Inserted(key) = reply {
        if let StoreRequest::Insert(ins) = req {
            assert(after.last() == stored_user(ins, key));
            assert(after.contains(stored_user(ins, key)));
        }
    }
}

/// A reply under the storage contract keeps every row in place and at most one
/// row per (username, provider).
pub proof fn lemma_answer_keeps_rows(rows: Seq<User>, req: StoreRequest, reply: StoreReply, after: Seq<User>)
    requires
        unique_pairs(rows),
        answers(rows, req, reply, after),
    ensures
        unique_pairs(after),
        rows.len() <= after.len(),
        forall|i: int| 0 <= i < rows.len() ==> after[i] == rows[i],
        forall|u: User| rows.contains(u) ==> after.contains(u),
{
    if let StoreRequest::Insert(ins) = req {
        if let StoreReply::Inserted(key) = reply {
            let n = stored_user(ins, key);
            assert forall|i: int, j: int| 0 <= i < j < after.len() implies !has_pair(
                #[trigger] after[i],
                after[j].username@,
                #[trigger] after[j].auth_provider,
            ) by {
                if j == rows.len() {
                    assert(after[i] == rows[i]);
                    assert(!has_pair(rows[i], ins.username@, ins.auth_provider));
                } else {
                    assert(after[i] == rows[i] && after[j] == rows[j]);
                }
            }
            assert forall|u: User| rows.contains(u) implies after.contains(u) by {
                let i = choose|i: int| 0 <= i < rows.len() && rows[i] == u;
                assert(after[i] == u);
            }
        }
    }
}

/// Two reconciliations for the same (username, provider) that both returned a
/// user, each consistent with a relation with unique pairs, returned the same
/// row: the same key and the same internal token.
pub proof fn law_finished_resolutions_agree(rows: Seq<User>, a: Resolver, b: Resolver)
    requires
        unique_pairs(rows),
        consistent(rows, a),
        consistent(rows, b),
        a.identity.username@ == b.identity.username@,
        a.identity.provider_id == b.identity.provider_id,
        a.state matches ResolveState::Done(Ok(_)),
        b.state matches ResolveState::Done(Ok(_)),
    ensures
        a.state == b.state,
{
    if let ResolveState::Done(Ok(u)) = a.state {
        if let ResolveState::Done(Ok(v)) = b.state {
            lemma_same_pair_same_row(rows, u, v);
        }
    }
}

impl ResolveState {
    /// How many more replies reach `Done` at most.
    pub open spec fn remaining(self) -> nat {
        match self {
            ResolveState::Lookup => 3,
            ResolveState::Insert(_) => 2,
            ResolveState::Recheck => 1,
            ResolveState::Done(_) => 0,
        }
    }
}

impl Resolver {
    /// The request this reconciliation waits on; `None` once it is done.
    pub open spec fn pending(self) -> Option<StoreRequest> {
        match self.state {
            ResolveState::Insert(ins) => Some(StoreRequest::Insert(ins)),
            ResolveState::Done(_) => None,
            _ => Some(
                StoreRequest::Query {
                    username: self.identity.username,
                    auth_provider: self.identity.provider_id,
                },
            ),
        }
    }

    /// A reconciliation of `identity` that has not asked anything yet.
    pub fn new(identity: PendingIdentity) -> (r: Resolver)
        ensures
            r.identity == identity,
            r.state == ResolveState::Lookup,
    {
        Resolver { identity, state: ResolveState::Lookup }
    }

    /// The request to send to storage next, if any.
    pub fn request(&self) -> (r: Option<StoreRequest>)
        ensures
            r == self.pending(),
    {
        match &self.state {
            ResolveState::Insert(ins) => Some(StoreRequest::Insert(ins.duplicate())),
            ResolveState::Done(_) => None,
            _ => Some(
                StoreRequest::Query {
                    username: self.identity.username.clone(),
                    auth_provider: self.identity.provider_id,
                },
            ),
        }
    }

    /// Whether the outcome is known.
    pub fn is_done(&self) -> (r: bool)
        ensures
            r == (self.state is Done),
    {
        match &self.state {
            ResolveState::Done(_) => true,
            _ => false,
        }
    }

    /// The outcome, once known.
    pub fn into_outcome(self) -> (r: Option<Result<User, AuthError>>)
        ensures
            match self.state {
                ResolveState::Done(o) => r == Some(o),
                _ => r is None,
            },
    {
        match self.state {
            ResolveState::Done(o) => Some(o),
            _ => None,
        }
    }

    /// Moves on with storage's reply to the pending request. Where no row
    /// exists yet, the new row gets a freshly drawn session token.
    pub fn on_reply(self, reply: StoreReply) -> (r: Resolver)
        ensures
            r.identity == self.identity,
            follows(self.identity, self.state, reply, r.state),
            !(self.state is Done) ==> r.state.remaining() < self.state.remaining(),
    {
        let Resolver { identity, state } = self;
        let next = match state {
            ResolveState::Lookup => match reply {
                StoreReply::Rows(mut rows) => {
                    if rows.len() > 0 {
                        ResolveState::Done(Ok(rows.remove(0)))
                    } else {
                        ResolveState::Insert(
                            InsertUser::new(
                                identity.username.clone(),
                                identity.provider_id,
                                identity.external_token.clone(),
                            ),
                        )
                    }
                },
                StoreReply::Failed(m) => ResolveState::Done(Err(AuthError::PersistenceError(m))),
                _ => unexpected_reply(),
            },
            ResolveState::Insert(ins) => match reply {
                StoreReply::Inserted(key) => ResolveState::Done(
                    Ok(
                        User {
                            id: Some(key),
                            username: ins.username,
                            token: ins.token,
                            auth_provider: ins.auth_provider,
                            ext_token: ins.ext_token,
                        },
                    ),
                ),
                StoreReply::Conflict => ResolveState::Recheck,
                StoreReply::Failed(m) => ResolveState::Done(Err(AuthError::PersistenceError(m))),
                _ => unexpected_reply(),
            },
            ResolveState::Recheck => match reply {
                StoreReply::Rows(mut rows) => {
                    if rows.len() > 0 {
                        ResolveState::Done(Ok(rows.remove(0)))
                    } else {
                        ResolveState::Done(
                            Err(AuthError::PersistenceError(String::from_str("conflicting row not found"))),
                        )
                    }
                },
                StoreReply::Failed(m) => ResolveState::Done(Err(AuthError::PersistenceError(m))),
                _ => unexpected_reply(),
            },
            ResolveState::Done(o) => ResolveState::Done(o),
        };
        Resolver { identity, state: next }
    }
}

fn unexpected_reply() -> (r: ResolveState)
    ensures
        failed_with(r, unexpected_reply_text()),
{
    ResolveState::Done(Err(AuthError::PersistenceError(String::from_str("unexpected storage reply"))))
}

impl AuthService {
    /// A service with none of its inputs set.
    pub fn new() -> (r: AuthService)
        ensures
            r.username is None,
            r.id_auth_service is None,
            r.token is None,
    {
        AuthService { username: None, id_auth_service: None, token: None }
    }

    /// Sets the provider that vouched for the user.
    pub fn with_auth_service_id(self, id: i32) -> (r: AuthService)
        ensures
            r.id_auth_service == Some(id),
            r.username == self.username,
            r.token == self.token,
    {
        AuthService { id_auth_service: Some(id), ..self }
    }

    /// Sets the provider's access token.
    pub fn with_token(self, token: String) -> (r: AuthService)
        ensures
            r.token == Some(token),
            r.username == self.username,
            r.id_auth_service == self.id_auth_service,
    {
        AuthService { token: Some(token), ..self }
    }

    /// Sets the username to create or authenticate.
    pub fn with_username(self, username: String) -> (r: AuthService)
        ensures
            r.username == Some(username),
            r.id_auth_service == self.id_auth_service,
            r.token == self.token,
    {
        AuthService { username: Some(username), ..self }
    }

    /// Starts the reconciliation; fails with `InvalidInput` naming the first
    /// input that is missing.
    pub fn execute(self) -> (r: Result<Resolver, AuthError>)
        ensures
            match (self.username, self.id_auth_service, self.token) {
                (Some(u), Some(p), Some(t)) => r == Ok::<Resolver, AuthError>(
                    Resolver {
                        identity: PendingIdentity { username: u, provider_id: p, external_token: t },
                        state: ResolveState::Lookup,
                    },
                ),
                _ => r matches Err(AuthError::InvalidInput(m)) && m@ == (
                    if self.username is None {
                        "No username given"@
                    } else if self.id_auth_service is None {
                        "No auth service given"@
                    } else {
                        "No token given"@
                    }),
            },
    {
        let username = match self.username {
            Some(u) => u,
            None => {
                return Err(AuthError::InvalidInput(String::from_str("No username given")));
            },
        };
        let provider_id = match self.id_auth_service {
            Some(p) => p,
            None => {
                return Err(AuthError::InvalidInput(String::from_str("No auth service given")));
            },
        };
        let external_token = match self.token {
            Some(t) => t,
            None => {
                return Err(AuthError::InvalidInput(String::from_str("No token given")));
            },
        };
        Ok(Resolver::new(PendingIdentity { username, provider_id, external_token }))
    }
}

} // verus!
