//! An in-memory `users` relation that meets the storage contract, and a driver
//! that runs a reconciliation against it.

use vstd::prelude::*;
use crate::reconcile::{
    AuthError, AuthService, PendingIdentity, ResolveState, Resolver, StoreReply, StoreRequest,
    answers, consistent, has_pair, holds_pair, lemma_answer_keeps_rows, lemma_same_pair_same_row,
    law_concurrent_step_keeps_consistency, pair_test, rows_of, unique_pairs,
};
use crate::user::User;

verus! {

/// The `users` relation, unique on (username, provider); keys count up from 1.
pub struct UserTable {
    pub rows: Vec<User>,
}

/// The identity that `s` describes, when all of its inputs are set.
pub open spec fn identity_of(s: AuthService) -> Option<PendingIdentity> {
    match (s.username, s.id_auth_service, s.token) {
        (Some(u), Some(p), Some(t)) => Some(
            PendingIdentity { username: u, provider_id: p, external_token: t },
        ),
        _ => None,
    }
}

/// A reconciliation of `id` took the relation from `before` to `after` and
/// returned `r`: rows are only added, pairs stay unique, a returned user is a
/// row for `id`, and where a row for `id` already existed nothing was added
/// and the call succeeded.
pub open spec fn resolved(before: Seq<User>, id: PendingIdentity, after: Seq<User>, r: Result<User, AuthError>) -> bool {
    &&& unique_pairs(after)
    &&& before.len() <= after.len()
    &&& forall|i: int| 0 <= i < before.len() ==> after[i] == before[i]
    &&& r matches Ok(u) ==> after.contains(u) && has_pair(u, id.username@, id.provider_id)
    &&& holds_pair(before, id.username@, id.provider_id) ==> after == before && r is Ok
}

/// Largest key the table hands out.
pub const MAX_KEY: usize = 0x7fff_ffff;

impl UserTable {
    pub open spec fn wf(self) -> bool {
        &&& unique_pairs(self.rows@)
        &&& self.rows@.len() <= MAX_KEY
    }

    /// An empty relation.
    pub fn new() -> (r: UserTable)
        ensures
            r.wf(),
            r.rows@.len() == 0,
    {
        UserTable { rows: Vec::new() }
    }

    /// The index of the first row for (`name`, `p`), if any.
    fn position_of(&self, name: &String, p: i32) -> (r: Option<usize>)
        ensures
            match r {
                Some(i) => i < self.rows@.len() && has_pair(self.rows@[i as int], name@, p),
                None => !holds_pair(self.rows@, name@, p),
            },
    {
        let mut i: usize = 0;
        while i < self.rows.len()
            invariant
                i <= self.rows@.len(),
                forall|j: int| 0 <= j < i ==> !has_pair(#[trigger] self.rows@[j], name@, p),
            decreases self.rows@.len() - i,
        {
            if self.rows[i].auth_provider == p && self.rows[i].username == *name {
                return Some(i);
            }
            i = i + 1;
        }
        None
    }

    /// The rows for (`name`, `p`), in order.
    fn select(&self, name: &String, p: i32) -> (r: Vec<User>)
        ensures
            r@ == rows_of(self.rows@, name@, p),
    {
        let ghost f = pair_test(name@, p);
        let mut out: Vec<User> = Vec::new();
        let mut i: usize = 0;
        while i < self.rows.len()
            invariant
                i <= self.rows@.len(),
                f == pair_test(name@, p),
                out@ == self.rows@.subrange(0, i as int).filter(f),
            decreases self.rows@.len() - i,
        {
            proof {
                let next = self.rows@.subrange(0, i as int + 1);
                assert(next.drop_last() =~= self.rows@.subrange(0, i as int));
                reveal(Seq::filter);
            }
            if self.rows[i].auth_provider == p && self.rows[i].username == *name {
                out.push(self.rows[i].duplicate());
            }
            i = i + 1;
        }
        assert(self.rows@.subrange(0, i as int) =~= self.rows@);
        out
    }

    /// Answers one request of a reconciliation.
    pub fn serve(&mut self, req: StoreRequest) -> (reply: StoreReply)
        requires
            old(self).wf(),
        ensures
            final(self).wf(),
            answers(old(self).rows@, req, reply, final(self).rows@),
            req is Query ==> reply is Rows,
            old(self).rows@.len() < MAX_KEY ==> !(reply is Failed),
    {
        match req {
            StoreRequest::Query { username, auth_provider } => StoreReply::Rows(self.select(&username, auth_provider)),
            StoreRequest::Insert(ins) => {
                if self.position_of(&ins.username, ins.auth_provider).is_some() {
                    StoreReply::Conflict
                } else if self.rows.len() >= MAX_KEY {
                    StoreReply::Failed(String::from_str("users table is full"))
                } else {
                    let key = (self.rows.len() + 1) as i32;
                    let user = User {
                        id: Some(key),
                        username: ins.username,
                        token: ins.token,
                        auth_provider: ins.auth_provider,
                        ext_token: ins.ext_token,
                    };
                    self.rows.push(user);
                    proof {
                        lemma_answer_keeps_rows(
                            old(self).rows@,
                            StoreRequest::Insert(ins),
                            StoreReply::Inserted(key),
                            self.rows@,
                        );
                    }
                    StoreReply::Inserted(key)
                }
            },
        }
    }
}

impl UserTable {
    /// Runs the reconciliation that `service` describes against this relation,
    /// to its end.
    pub fn resolve(&mut self, service: AuthService) -> (r: Result<User, AuthError>)
        requires
            old(self).wf(),
        ensures
            final(self).wf(),
            match identity_of(service) {
                Some(id) => resolved(old(self).rows@, id, final(self).rows@, r) && (old(self).rows@.len()
                    < MAX_KEY ==> r is Ok),
                None => final(self).rows@ == old(self).rows@ && r matches Err(AuthError::InvalidInput(_)),
            },
    {
        let mut resolver = match service.execute() {
            Ok(started) => started,
            Err(e) => {
                return Err(e);
            },
        };
        let ghost id = resolver.identity;
        let ghost before = self.rows@;
        while !resolver.is_done()
            invariant
                self.wf(),
                resolver.identity == id,
                consistent(self.rows@, resolver),
                before.len() <= self.rows@.len(),
                forall|i: int| 0 <= i < before.len() ==> self.rows@[i] == before[i],
                !(resolver.state is Done) ==> self.rows@ == before,
                !(resolver.state is Recheck),
                holds_pair(before, id.username@, id.provider_id) ==> self.rows@ == before && (
                resolver.state is Lookup || resolver.state matches ResolveState::Done(Ok(_))),
                before.len() < MAX_KEY ==> !(resolver.state matches ResolveState::Done(Err(_))),
            decreases resolver.state.remaining(),
        {
            let req = resolver.request().unwrap();
            let ghost rows = self.rows@;
            let ghost current = resolver;
            proof {
                lemma_rows_of_nonempty(rows, id.username@, id.provider_id);
            }
            let reply = self.serve(req);
            resolver = resolver.on_reply(reply);
            proof {
                law_concurrent_step_keeps_consistency(
                    rows,
                    self.rows@,
                    current,
                    resolver,
                    current,
                    req,
                    reply,
                );
                lemma_answer_keeps_rows(rows, req, reply, self.rows@);
            }
        }
        resolver.into_outcome().unwrap()
    }
}

/// Where a row for (`name`, `p`) exists, selecting that pair finds something.
proof fn lemma_rows_of_nonempty(rows: Seq<User>, name: Seq<char>, p: i32)
    ensures
        holds_pair(rows, name, p) ==> rows_of(rows, name, p).len() > 0,
{
    if holds_pair(rows, name, p) {
        let i = choose|i: int| 0 <= i < rows.len() && has_pair(rows[i], name, p);
        rows.lemma_filter_contains(pair_test(name, p), i);
    }
}

/// Resolving twice for the same (username, provider), whatever the external
/// tokens, returns the same user (key and internal token) the second time as
/// the first, and the second call adds no row.
pub proof fn law_resolve_idempotent(
    t0: Seq<User>,
    t1: Seq<User>,
    t2: Seq<User>,
    a: PendingIdentity,
    b: PendingIdentity,
    r1: Result<User, AuthError>,
    r2: Result<User, AuthError>,
)
    requires
        resolved(t0, a, t1, r1),
        resolved(t1, b, t2, r2),
        r1 is Ok,
        a.username@ == b.username@,
        a.provider_id == b.provider_id,
    ensures
        r2 == r1,
        t2 == t1,
{
    let u = r1->Ok_0;
    let i = choose|i: int| 0 <= i < t1.len() && t1[i] == u;
    assert(has_pair(t1[i], b.username@, b.provider_id));
    let v = r2->Ok_0;
    lemma_same_pair_same_row(t1, u, v);
}

impl User {
    /// The first user of `table` whose internal token is `token`.
    pub fn find_by_token(token: String, table: &UserTable) -> (r: Result<User, ()>)
        ensures
            match r {
                Ok(u) => exists|i: int|
                    0 <= i < table.rows@.len() && u == table.rows@[i] && table.rows@[i].token@ == token@
                        && forall|j: int| 0 <= j < i ==> (#[trigger] table.rows@[j]).token@ != token@,
                Err(_) => forall|j: int| 0 <= j < table.rows@.len() ==> (#[trigger] table.rows@[j]).token@ != token@,
            },
    {
        let mut i: usize = 0;
        while i < table.rows.len()
            invariant
                i <= table.rows@.len(),
                forall|j: int| 0 <= j < i ==> (#[trigger] table.rows@[j]).token@ != token@,
            decreases table.rows@.len() - i,
        {
            if table.rows[i].token == token {
                return Ok(table.rows[i].duplicate());
            }
            i = i + 1;
        }
        Err(())
    }
}

} // verus!
