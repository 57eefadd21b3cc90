use vstd::prelude::*;

verus! {

/// Where the HTTP server listens.
#[derive(Clone, Debug)]
pub struct ServerConfig {
    pub host: String,
    pub port: u16,
}

/// Location of the embedded database file, as written in the configuration.
#[derive(Clone, Debug)]
pub struct DatabaseConfig {
    pub path: String,
}

/// Application-wide settings shown to users.
#[derive(Clone, Debug)]
pub struct ApplicationConfig {
    pub name: String,
}

/// The whole configuration file.
#[derive(Clone, Debug)]
pub struct Config {
    pub server: ServerConfig,
    pub database: DatabaseConfig,
    pub application: ApplicationConfig,
}

/// The scheme that marks an embedded-database location: `sqlite:`.
pub open spec fn scheme_prefix() -> Seq<char> {
    seq!['s', 'q', 'l', 'i', 't', 'e', ':']
}

/// Returns `sqlite:` followed by `path`.
pub fn with_scheme(path: &str) -> (r: String)
    ensures
        r@ == scheme_prefix() + path@,
{
    let mut r = String::from_str("sqlite:");
    proof {
        reveal_strlit("sqlite:");
        assert("sqlite:"@ =~= scheme_prefix());
    }
    r.append(path);
    r
}

impl Config {
    /// The connection descriptor of the configured database: the scheme
    /// followed by the configured path, verbatim.
    pub fn database_url(&self) -> (r: String)
        ensures
            r@ == scheme_prefix() + self.database.path@,
    {
        with_scheme(self.database.path.as_str())
    }
}

} // verus!
