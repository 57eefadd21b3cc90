use vstd::prelude::*;

verus! {

/// The command line: an optional configuration file and a command.
#[derive(Clone, Debug)]
pub struct Cli {
    pub config: Option<String>,
    pub command: Commands,
}

/// What the program is asked to do.
#[derive(Clone, Copy, Debug, PartialEq, Eq, Structural)]
pub enum Commands {
    /// Start the web server.
    Run,
    /// Back up the database.
    Backup,
    /// Migrate the database.
    Migrate,
}

/// The configuration file in the working directory.
pub open spec fn local_config() -> Seq<char> {
    seq!['c', 'o', 'n', 'f', 'i', 'g', '.', 't', 'o', 'm', 'l']
}

/// The system-wide configuration file.
pub open spec fn system_config() -> Seq<char> {
    seq!['/', 'e', 't', 'c', '/', 'm', 'o', 'm', 'e', 'n', 't', 'u', 'm', '/'] + local_config()
}

/// The view of an optional path; absent reads as empty.
pub open spec fn opt_view(p: Option<String>) -> Seq<char> {
    match p {
        Some(s) => s@,
        None => Seq::empty(),
    }
}

/// The configuration file to load, by priority: the one given on the command
/// line, then the one named by the environment, then the local file, each
/// only if it exists; else the system-wide file.
pub open spec fn chosen_config(
    given: Option<String>,
    given_exists: bool,
    from_env: Option<String>,
    env_exists: bool,
    local_exists: bool,
) -> Seq<char> {
    if given is Some && given_exists {
        opt_view(given)
    } else if from_env is Some && env_exists {
        opt_view(from_env)
    } else if local_exists {
        local_config()
    } else {
        system_config()
    }
}

impl Cli {
    /// Picks the configuration file. `given_exists` says whether the file
    /// named on the command line exists, `from_env` is the path the
    /// environment names and `env_exists` whether it exists, `local_exists`
    /// whether `config.toml` exists in the working directory.
    pub fn find_config_path(
        &self,
        given_exists: bool,
        from_env: Option<String>,
        env_exists: bool,
        local_exists: bool,
    ) -> (r: String)
        ensures
            r@ == chosen_config(self.config, given_exists, from_env, env_exists, local_exists),
    {
        if given_exists {
            if let Some(p) = &self.config {
                return p.clone();
            }
        }
        if env_exists {
            if let Some(p) = from_env {
                return p;
            }
        }
        proof {
            reveal_strlit("config.toml");
            reveal_strlit("/etc/momentum/config.toml");
            assert("config.toml"@ =~= local_config());
            assert("/etc/momentum/config.toml"@ =~= system_config());
        }
        if local_exists {
            String::from_str("config.toml")
        } else {
            String::from_str("/etc/momentum/config.toml")
        }
    }
}

} // verus!
