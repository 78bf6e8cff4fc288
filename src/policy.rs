use vstd::prelude::*;
use crate::error::{DsqlError, ErrorKind};

verus! {

pub const SECONDS_PER_MINUTE: u64 = 60;

/// Minutes for which a generated token stays valid.
pub const TOKEN_EXPIRATION_MINUTES: u64 = 15;

pub const TOKEN_EXPIRATION_SECONDS: u64 = TOKEN_EXPIRATION_MINUTES * SECONDS_PER_MINUTE;

/// Minutes between two token refreshes: five minutes before the token expires.
pub const TOKEN_REFRESH_MINUTES: u64 = TOKEN_EXPIRATION_MINUTES - 5;

pub const TOKEN_REFRESH_SECONDS: u64 = TOKEN_REFRESH_MINUTES * SECONDS_PER_MINUTE;

/// The longest lifetime that the signer grants a token.
pub const MAX_TOKEN_TTL_SECS: u64 = 900;

/// How long each token lives and how often a fresh one is generated.
#[derive(Debug, Clone, Copy, PartialEq, Eq, Structural)]
pub struct RefreshPolicy {
    pub token_ttl_secs: u64,
    pub refresh_interval_secs: u64,
}

impl RefreshPolicy {
    /// A refresh comes strictly before the token it replaces expires, and the
    /// lifetime is one that the signer grants.
    pub open spec fn wf(self) -> bool {
        0 < self.refresh_interval_secs < self.token_ttl_secs <= MAX_TOKEN_TTL_SECS
    }

    /// A policy, refused with a configuration error unless
    /// `0 < refresh_interval_secs < token_ttl_secs <= 900`.
    pub fn new(token_ttl_secs: u64, refresh_interval_secs: u64) -> (r: Result<RefreshPolicy, DsqlError>)
        ensures
            (0 < refresh_interval_secs < token_ttl_secs <= MAX_TOKEN_TTL_SECS) <==> r is Ok,
            r matches Ok(p) ==> p.token_ttl_secs == token_ttl_secs
                && p.refresh_interval_secs == refresh_interval_secs && p.wf(),
            r matches Err(e) ==> e.kind == ErrorKind::Configuration,
    {
        if refresh_interval_secs == 0 {
            Err(DsqlError::new(ErrorKind::Configuration, "refresh interval must be positive"))
        } else if token_ttl_secs > MAX_TOKEN_TTL_SECS {
            Err(DsqlError::new(ErrorKind::Configuration, "token lifetime exceeds fifteen minutes"))
        } else if refresh_interval_secs >= token_ttl_secs {
            Err(DsqlError::new(
                ErrorKind::Configuration,
                "token expiration time must be greater than refresh time",
            ))
        } else {
            Ok(RefreshPolicy { token_ttl_secs, refresh_interval_secs })
        }
    }

    /// Tokens live fifteen minutes and are replaced every ten.
    pub fn standard() -> (r: RefreshPolicy)
        ensures
            r.token_ttl_secs == 900,
            r.refresh_interval_secs == 600,
            r.wf(),
    {
        RefreshPolicy {
            token_ttl_secs: TOKEN_EXPIRATION_SECONDS,
            refresh_interval_secs: TOKEN_REFRESH_SECONDS,
        }
    }
}

} // verus!
