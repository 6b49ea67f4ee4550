//! The options a migration runs with.

use vstd::prelude::*;

verus! {

/// Connection and behaviour options of a migration.
#[derive(Debug)]
pub struct Args {
    /// Scylla host.
    pub host: String,
    pub keyspace: String,
    pub user: Option<String>,
    pub password: Option<String>,
    /// Connection timeout, in seconds.
    pub timeout: u64,
    /// Drop and recreate columns whose type changed.
    pub drop_and_replace: bool,
    /// Print the queries that change table options.
    pub verbose: bool,
    /// CA file, when TLS is used.
    pub ca: Option<String>,
    /// Client certificate file.
    pub cert: Option<String>,
    /// Client private key file.
    pub key: Option<String>,
    /// The project directory whose models are migrated.
    pub current_dir: String,
    /// A code schema given as JSON, used in place of the one read from `current_dir`.
    pub code_schema_override_json: Option<String>,
}

impl Args {
    /// The default options, for the project in `current_dir`: no host or keyspace, no
    /// credentials, a 30 second timeout, no TLS, no dropping of columns, quiet.
    pub fn with_current_dir(current_dir: String) -> (res: Args)
        ensures
            res.host@.len() == 0,
            res.keyspace@.len() == 0,
            res.user is None,
            res.password is None,
            res.timeout == 30,
            !res.drop_and_replace,
            !res.verbose,
            res.ca is None,
            res.cert is None,
            res.key is None,
            res.current_dir == current_dir,
            res.code_schema_override_json is None,
    {
        Args {
            host: String::new(),
            keyspace: String::new(),
            user: None,
            password: None,
            timeout: 30,
            drop_and_replace: false,
            verbose: false,
            ca: None,
            cert: None,
            key: None,
            current_dir,
            code_schema_override_json: None,
        }
    }
}

} // verus!
