use vstd::prelude::*;
use vstd::arithmetic::div_mod::{lemma_fundamental_div_mod, lemma_mod_pos_bound};
use crate::error::{DsqlError, ErrorKind};
use crate::establish::EstablishPlan;
use crate::options::ConnectionOptions;
use crate::policy::RefreshPolicy;

verus! {

/// A connection that the pool opened, with the password it authenticated with.
#[derive(Debug)]
pub struct OpenConnection {
    pub id: u64,
    pub password: String,
    pub opened_at: u64,
}

/// What a refresh did to the pool's options.
#[derive(Debug)]
pub enum RefreshOutcome {
    /// New connections now use the fresh token.
    Rotated,
    /// Token generation failed; the previous options stay, with this reason.
    Kept(String),
}

/// The credential state of a pool of database connections.
///
/// `options` is what new connections are opened with; its password is the
/// current token, issued at `token_issued_at`. Open connections keep the
/// password they were opened with. Times are in seconds on one clock.
#[derive(Debug)]
pub struct CredentialPool {
    pub policy: RefreshPolicy,
    pub options: ConnectionOptions,
    pub schema: String,
    pub max_connections: usize,
    pub token_issued_at: u64,
    pub next_refresh_at: u64,
    pub clock: u64,
    pub connections: Vec<OpenConnection>,
}

impl CredentialPool {
    pub open spec fn wf(self) -> bool {
        &&& self.policy.wf()
        &&& self.token_issued_at <= self.clock
        &&& self.token_issued_at + self.policy.refresh_interval_secs <= self.next_refresh_at
        &&& self.connections@.len() <= self.max_connections
    }

    /// Whether `t` is late enough for this pool and early enough that a
    /// token issued at `t` has an expiry that fits the clock.
    pub open spec fn accepts_time(self, t: u64) -> bool {
        self.clock <= t && t + self.policy.token_ttl_secs <= u64::MAX
    }

    /// The current token is not expired at `t`.
    pub open spec fn token_valid_at(self, t: int) -> bool {
        self.token_issued_at <= t < self.token_issued_at + self.policy.token_ttl_secs
    }

    /// No refresh has failed since the current token was issued.
    pub open spec fn on_schedule(self) -> bool {
        self.next_refresh_at == self.token_issued_at + self.policy.refresh_interval_secs
    }

    /// The pool after the refresh task woke at `now` with the result of
    /// generating a token.
    pub open spec fn after_refresh(self, now: u64, token: Result<String, String>) -> CredentialPool {
        let next = (now + self.policy.refresh_interval_secs) as u64;
        match token {
            Ok(v) => CredentialPool {
                options: ConnectionOptions { password: v, ..self.options },
                token_issued_at: now,
                next_refresh_at: next,
                clock: now,
                ..self
            },
            Err(_) => CredentialPool { next_refresh_at: next, clock: now, ..self },
        }
    }

    /// The pool after the refresh task woke on time once for each of `tokens`,
    /// each time generating that token.
    pub open spec fn run_on_schedule(self, tokens: Seq<String>) -> CredentialPool
        decreases tokens.len(),
    {
        if tokens.len() == 0 {
            self
        } else {
            self.after_refresh(self.next_refresh_at, Ok(tokens[0])).run_on_schedule(
                tokens.drop_first(),
            )
        }
    }

    /// Whether `t` is acceptable to this pool's methods (see `accepts_time`).
    pub fn time_ok(&self, t: u64) -> (r: bool)
        ensures
            r == self.accepts_time(t),
    {
        self.clock <= t && t <= u64::MAX - self.policy.token_ttl_secs
    }

    /// The pool at `now`, from a checked plan and the result of generating
    /// the initial token; an authentication error when that failed.
    pub fn establish(plan: EstablishPlan, token: Result<String, String>, now: u64) -> (r: Result<
        CredentialPool,
        DsqlError,
    >)
        requires
            plan.wf(),
            now + plan.policy.token_ttl_secs <= u64::MAX,
        ensures
            r is Err <==> token is Err,
            r matches Err(e) ==> e.kind == ErrorKind::Auth,
            r matches Ok(p) ==> {
                &&& p.wf()
                &&& p.on_schedule()
                &&& p.options.describes(plan.endpoint@, plan.user@, token->Ok_0@)
                &&& p.schema == plan.schema
                &&& p.policy == plan.policy
                &&& p.max_connections == plan.max_connections
                &&& p.token_issued_at == now
                &&& p.clock == now
                &&& p.connections@.len() == 0
            },
    {
        match token {
            Err(_) => Err(DsqlError::new(ErrorKind::Auth, "could not generate the initial token")),
            Ok(value) => {
                let options = plan.initial_options(value.as_str());
                Ok(CredentialPool {
                    policy: plan.policy,
                    options,
                    schema: plan.schema,
                    max_connections: plan.max_connections,
                    token_issued_at: now,
                    next_refresh_at: now + plan.policy.refresh_interval_secs,
                    clock: now,
                    connections: Vec::new(),
                })
            },
        }
    }

    /// Whether the token for new connections is live at `now`.
    pub fn token_live(&self, now: u64) -> (r: bool)
        requires
            self.wf(),
        ensures
            r == self.token_valid_at(now as int),
    {
        self.token_issued_at <= now && now - self.token_issued_at < self.policy.token_ttl_secs
    }

    /// Whether the refresh task is due at `now`.
    pub fn refresh_due(&self, now: u64) -> (r: bool)
        ensures
            r == (now >= self.next_refresh_at),
    {
        now >= self.next_refresh_at
    }

    /// One wake of the refresh task at `now`: a fresh token replaces the
    /// password of the options for new connections; a failure keeps them.
    /// Either way the next wake is one interval later, and open connections
    /// are left alone.
    pub fn refresh(&mut self, now: u64, token: Result<String, String>) -> (r: RefreshOutcome)
        requires
            old(self).wf(),
            old(self).accepts_time(now),
        ensures
            *final(self) == old(self).after_refresh(now, token),
            final(self).wf(),
            r is Rotated <==> token is Ok,
    {
        self.next_refresh_at = now + self.policy.refresh_interval_secs;
        self.clock = now;
        match token {
            Ok(value) => {
                self.options.password = value;
                self.token_issued_at = now;
                RefreshOutcome::Rotated
            },
            Err(reason) => RefreshOutcome::Kept(reason),
        }
    }

    /// Opens a connection at `now` with the current options. A connection
    /// error when the pool is full or the current token is expired at `now`.
    pub fn open_connection(&mut self, now: u64) -> (r: Result<u64, DsqlError>)
        requires
            old(self).wf(),
            old(self).accepts_time(now),
        ensures
            final(self).wf(),
            r is Ok <==> (old(self).connections@.len() < old(self).max_connections
                && old(self).token_valid_at(now as int)),
            r matches Ok(id) ==> {
                &&& id == old(self).connections@.len()
                &&& final(self).connections@ == old(self).connections@.push(
                    OpenConnection { id, password: old(self).options.password, opened_at: now },
                )
                &&& *final(self) == (CredentialPool {
                    connections: final(self).connections,
                    clock: now,
                    ..*old(self)
                })
            },
            r matches Err(e) ==> e.kind == ErrorKind::Connection
                && *final(self) == (CredentialPool { clock: now, ..*old(self) }),
    {
        self.clock = now;
        if self.connections.len() >= self.max_connections {
            return Err(DsqlError::new(ErrorKind::Connection, "the pool is at its connection limit"));
        }
        if now >= self.token_issued_at + self.policy.token_ttl_secs {
            return Err(DsqlError::new(ErrorKind::Connection, "the current token has expired"));
        }
        let id = self.connections.len() as u64;
        let password = self.options.password.clone();
        self.connections.push(OpenConnection { id, password, opened_at: now });
        Ok(id)
    }

    /// The options that the next connection will be opened with.
    pub fn connect_options(&self) -> (r: ConnectionOptions)
        ensures
            r == self.options,
    {
        self.options.snapshot()
    }

    pub fn open_connections(&self) -> (r: usize)
        ensures
            r == self.connections@.len(),
    {
        self.connections.len()
    }
}

/// While the refresh task keeps to its schedule, a connection opened at any
/// time `t` before the next wake gets a token that is not expired at `t`:
/// issued at or before `t`, expiring after it.
pub proof fn lemma_new_connection_token_live(pool: CredentialPool, t: u64)
    requires
        pool.wf(),
        pool.on_schedule(),
        pool.clock <= t < pool.next_refresh_at,
    ensures
        pool.token_valid_at(t as int),
{
}

/// When a pool established at `start` refreshes successfully every interval,
/// the token current at time `t` was issued at the last wake at or before `t`.
pub open spec fn scheduled_issue_time(start: int, interval: int, t: int) -> int {
    start + ((t - start) / interval) * interval
}

/// For every policy that refreshes before expiry, at any time `t` after the
/// pool was established, the token on schedule at `t` was issued at or
/// before `t` and expires after `t`.
pub proof fn lemma_scheduled_token_live(policy: RefreshPolicy, start: int, t: int)
    requires
        policy.wf(),
        start <= t,
    ensures
        scheduled_issue_time(start, policy.refresh_interval_secs as int, t) <= t,
        t < scheduled_issue_time(start, policy.refresh_interval_secs as int, t)
            + policy.token_ttl_secs,
{
    let iv = policy.refresh_interval_secs as int;
    let d = t - start;
    let q = d / iv;
    lemma_fundamental_div_mod(d, iv);
    lemma_mod_pos_bound(d, iv);
    assert(iv * q == q * iv) by (nonlinear_arith);
}

/// On-time refreshes that all succeed keep the pool well formed and on
/// schedule, move the issue time one interval per refresh, install the last
/// token, and leave open connections alone.
pub proof fn lemma_run_on_schedule(pool: CredentialPool, tokens: Seq<String>)
    requires
        pool.wf(),
        pool.on_schedule(),
        pool.clock <= pool.next_refresh_at,
        pool.token_issued_at + (tokens.len() + 1) * pool.policy.refresh_interval_secs
            + pool.policy.token_ttl_secs <= u64::MAX,
    ensures
        ({
            let q = pool.run_on_schedule(tokens);
            &&& q.wf()
            &&& q.on_schedule()
            &&& q.clock <= q.next_refresh_at
            &&& q.token_issued_at == pool.token_issued_at + tokens.len()
                * pool.policy.refresh_interval_secs
            &&& q.policy == pool.policy
            &&& q.connections == pool.connections
            &&& tokens.len() > 0 ==> q.options.password == tokens.last()
        }),
    decreases tokens.len(),
{
    let iv = pool.policy.refresh_interval_secs as int;
    if tokens.len() > 0 {
        let p1 = pool.after_refresh(pool.next_refresh_at, Ok(tokens[0]));
        let rest = tokens.drop_first();
        assert((rest.len() + 1) * iv == tokens.len() * iv) by (nonlinear_arith)
            requires rest.len() + 1 == tokens.len();
        assert((tokens.len() + 1) * iv == tokens.len() * iv + iv) by (nonlinear_arith);
        assert(tokens.len() * iv >= iv) by (nonlinear_arith)
            requires tokens.len() >= 1, iv > 0;
        lemma_run_on_schedule(p1, rest);
        assert(rest.len() * iv + iv == tokens.len() * iv) by (nonlinear_arith)
            requires rest.len() + 1 == tokens.len();
        if rest.len() > 0 {
            assert(rest.last() == tokens.last());
        }
    }
}

/// For a pool that is on schedule, at any later time `t`: once the refresh
/// task has woken on time for every interval that ended by `t`, whatever
/// tokens it generated, the token that a connection opened at `t` uses was
/// issued at or before `t` and expires after `t`, and no open connection was
/// dropped.
pub proof fn lemma_token_live_at_any_time(pool: CredentialPool, tokens: Seq<String>, t: u64)
    requires
        pool.wf(),
        pool.on_schedule(),
        pool.clock <= pool.next_refresh_at,
        pool.clock <= t,
        tokens.len() == (t - pool.token_issued_at) / (pool.policy.refresh_interval_secs as int),
        t + pool.policy.refresh_interval_secs + pool.policy.token_ttl_secs <= u64::MAX,
    ensures
        ({
            let q = pool.run_on_schedule(tokens);
            &&& q.token_issued_at <= t < q.next_refresh_at
            &&& q.token_valid_at(t as int)
            &&& q.connections == pool.connections
        }),
{
    let iv = pool.policy.refresh_interval_secs as int;
    let d = t - pool.token_issued_at;
    let k = tokens.len() as int;
    lemma_fundamental_div_mod(d, iv);
    lemma_mod_pos_bound(d, iv);
    assert(iv * k == k * iv) by (nonlinear_arith);
    assert((k + 1) * iv == k * iv + iv) by (nonlinear_arith);
    lemma_run_on_schedule(pool, tokens);
}

/// Two refreshes in a row, the first with a fresh token and the second
/// before that token expires, never leave the options for new connections
/// with an expired token at any time from the first refresh until the token
/// then in place expires, and drop no open connection.
pub proof fn lemma_refresh_twice(
    pool: CredentialPool,
    t1: u64,
    token1: Result<String, String>,
    t2: u64,
    token2: Result<String, String>,
)
    requires
        pool.wf(),
        pool.accepts_time(t1),
        pool.accepts_time(t2),
        t1 <= t2 < t1 + pool.policy.token_ttl_secs,
        token1 is Ok,
    ensures
        ({
            let p1 = pool.after_refresh(t1, token1);
            let p2 = p1.after_refresh(t2, token2);
            &&& p1.wf() && p2.wf()
            &&& p1.connections == pool.connections
            &&& p2.connections == pool.connections
            &&& p1.options.password == token1->Ok_0
            &&& token2 is Ok ==> p2.options.password == token2->Ok_0
            &&& token2 is Err ==> p2.options.password == token1->Ok_0
            &&& forall|t: int| t1 <= t <= t2 ==> p1.token_valid_at(t)
            &&& forall|t: int| t2 <= t < p2.token_issued_at + p2.policy.token_ttl_secs
                ==> p2.token_valid_at(t)
            &&& p2.token_issued_at >= t1
        }),
{
}

} // verus!
