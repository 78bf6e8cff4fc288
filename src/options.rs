use vstd::prelude::*;
use vstd::string::*;

verus! {

/// The PostgreSQL port that clusters listen on.
pub const DEFAULT_PORT: u16 = 5432;

/// The database that every connection opens.
pub const DEFAULT_DATABASE: &'static str = "postgres";

/// The upper bound on the number of live connections of a pool.
pub const MAX_CONNECTIONS: usize = 10;

/// How the transport is secured.
#[derive(Debug, Clone, Copy, PartialEq, Eq, Structural)]
pub enum SslMode {
    /// TLS with full verification of the server's certificate and host name.
    VerifyFull,
}

/// What a new connection is opened with.
#[derive(Debug)]
pub struct ConnectionOptions {
    pub host: String,
    pub port: u16,
    pub database: String,
    pub username: String,
    pub password: String,
    pub ssl_mode: SslMode,
}

impl ConnectionOptions {
    /// The options of a cluster connection: `host`, port 5432, database
    /// `postgres`, role `user`, the given password, full TLS verification.
    pub open spec fn describes(self, host: Seq<char>, user: Seq<char>, password: Seq<char>) -> bool {
        &&& self.host@ == host
        &&& self.port == DEFAULT_PORT
        &&& self.database@ == "postgres"@
        &&& self.username@ == user
        &&& self.password@ == password
        &&& self.ssl_mode == SslMode::VerifyFull
    }

    pub fn for_cluster(host: &str, user: &str, password: &str) -> (r: ConnectionOptions)
        ensures
            r.describes(host@, user@, password@),
    {
        proof {
            reveal_strlit("postgres");
        }
        ConnectionOptions {
            host: host.to_owned(),
            port: DEFAULT_PORT,
            database: DEFAULT_DATABASE.to_owned(),
            username: user.to_owned(),
            password: password.to_owned(),
            ssl_mode: SslMode::VerifyFull,
        }
    }

    /// An exact copy.
    pub fn snapshot(&self) -> (r: ConnectionOptions)
        ensures
            r == *self,
    {
        ConnectionOptions {
            host: self.host.clone(),
            port: self.port,
            database: self.database.clone(),
            username: self.username.clone(),
            password: self.password.clone(),
            ssl_mode: self.ssl_mode,
        }
    }

    /// A copy with another password and every other field kept.
    pub fn with_password(&self, password: String) -> (r: ConnectionOptions)
        ensures
            r == (ConnectionOptions { password, ..*self }),
    {
        let mut r = self.snapshot();
        r.password = password;
        r
    }
}

} // verus!
