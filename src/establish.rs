use vstd::prelude::*;
use aws_sdk_dsql::auth_token::AuthTokenGenerator;
use crate::error::{DsqlError, ErrorKind};
use crate::identity::{schema_for, schema_spec, token_path_for, token_path_spec, TokenPath};
use crate::options::{ConnectionOptions, MAX_CONNECTIONS};
use crate::policy::{RefreshPolicy, MAX_TOKEN_TTL_SECS};

verus! {

#[verifier::external_type_specification]
#[verifier::external_body]
pub struct ExAuthTokenGenerator(AuthTokenGenerator);

/// A token signer together with the configuration it was built from.
#[derive(Debug)]
pub struct TokenSigner {
    pub hostname: String,
    pub region: String,
    pub expires_in_secs: u64,
    pub generator: AuthTokenGenerator,
}

/// Relies on `aws_sdk_dsql::auth_token::ConfigBuilder`, which keeps the
/// hostname, region and lifetime it is given and whose `build` fails only
/// when no hostname was set (here one always is), and on
/// `AuthTokenGenerator::new`, which stores that configuration.
#[verifier::external_body]
fn new_signer(hostname: &str, region: &str, expires_in_secs: u64) -> (r: Option<TokenSigner>)
    ensures
        r is Some,
        r matches Some(s) ==> s.hostname@ == hostname@ && s.region@ == region@
            && s.expires_in_secs == expires_in_secs,
{
    aws_sdk_dsql::auth_token::Config::builder()
        .hostname(hostname)
        .region(aws_sdk_dsql::config::Region::new(region.to_owned()))
        .expires_in(expires_in_secs)
        .build()
        .ok()
        .map(|config| TokenSigner {
            hostname: hostname.to_owned(),
            region: region.to_owned(),
            expires_in_secs,
            generator: AuthTokenGenerator::new(config),
        })
}

/// A token signer scoped to one cluster endpoint and region, whose tokens live
/// `expires_in_secs` seconds.
pub fn token_signer(hostname: &str, region: &str, expires_in_secs: u64) -> (r: TokenSigner)
    ensures
        r.hostname@ == hostname@,
        r.region@ == region@,
        r.expires_in_secs == expires_in_secs,
{
    match new_signer(hostname, region, expires_in_secs) {
        Some(signer) => signer,
        None => vstd::pervasive::unreached(),
    }
}

/// An input that is absent or empty.
pub open spec fn missing(input: Option<String>) -> bool {
    input is None || input->Some_0@.len() == 0
}

/// Everything that establishing a pool needs, checked before any network call.
#[derive(Debug)]
pub struct EstablishPlan {
    pub user: String,
    pub endpoint: String,
    pub region: String,
    pub token_path: TokenPath,
    pub schema: String,
    pub policy: RefreshPolicy,
    pub max_connections: usize,
}

impl EstablishPlan {
    pub open spec fn wf(self) -> bool {
        &&& self.user@.len() > 0
        &&& self.endpoint@.len() > 0
        &&& self.region@.len() > 0
        &&& self.token_path == token_path_spec(self.user@)
        &&& self.schema@ == schema_spec(self.user@)
        &&& self.policy.wf()
        &&& self.max_connections == MAX_CONNECTIONS
    }

    /// Fails with a configuration error exactly when an input is absent or
    /// empty, or the policy is not well formed (see `RefreshPolicy::wf`).
    pub fn from_inputs(
        user: Option<String>,
        endpoint: Option<String>,
        region: Option<String>,
        policy: RefreshPolicy,
    ) -> (r: Result<EstablishPlan, DsqlError>)
        ensures
            r is Err <==> (missing(user) || missing(endpoint) || missing(region) || !policy.wf()),
            r matches Err(e) ==> e.kind == ErrorKind::Configuration,
            r matches Ok(p) ==> {
                &&& p.wf()
                &&& p.user@ == user->Some_0@
                &&& p.endpoint@ == endpoint->Some_0@
                &&& p.region@ == region->Some_0@
                &&& p.policy == policy
            },
    {
        let user = match user {
            Some(u) if !u.as_str().is_empty() => u,
            _ => return Err(DsqlError::new(ErrorKind::Configuration, "cluster user is required")),
        };
        let endpoint = match endpoint {
            Some(e) if !e.as_str().is_empty() => e,
            _ => return Err(DsqlError::new(ErrorKind::Configuration, "cluster endpoint is required")),
        };
        let region = match region {
            Some(g) if !g.as_str().is_empty() => g,
            _ => return Err(DsqlError::new(ErrorKind::Configuration, "region is required")),
        };
        if policy.refresh_interval_secs == 0 || policy.refresh_interval_secs >= policy.token_ttl_secs
            || policy.token_ttl_secs > MAX_TOKEN_TTL_SECS {
            return Err(DsqlError::new(
                ErrorKind::Configuration,
                "the refresh policy must refresh before expiry, within fifteen minutes",
            ));
        }
        let token_path = token_path_for(user.as_str());
        let schema = schema_for(user.as_str());
        Ok(EstablishPlan {
            user,
            endpoint,
            region,
            token_path,
            schema,
            policy,
            max_connections: MAX_CONNECTIONS,
        })
    }

    /// The signer for this plan's endpoint and region, with the policy's lifetime.
    pub fn signer(&self) -> (r: TokenSigner)
        ensures
            r.hostname@ == self.endpoint@,
            r.region@ == self.region@,
            r.expires_in_secs == self.policy.token_ttl_secs,
    {
        token_signer(self.endpoint.as_str(), self.region.as_str(), self.policy.token_ttl_secs)
    }

    /// The options for the first connections, with `token` as the password.
    pub fn initial_options(&self, token: &str) -> (r: ConnectionOptions)
        ensures
            r.describes(self.endpoint@, self.user@, token@),
    {
        ConnectionOptions::for_cluster(self.endpoint.as_str(), self.user.as_str(), token)
    }
}

} // verus!
