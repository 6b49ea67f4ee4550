//! Building the options of a migration step by step.

use vstd::prelude::*;
use crate::args::Args;

verus! {

/// Collects the options of a migration.
#[derive(Debug)]
pub struct MigrationBuilder {
    pub args: Args,
}

/// Everything but the keyspace is the same.
pub open spec fn same_but_keyspace(a: Args, b: Args) -> bool {
    &&& a.host == b.host
    &&& a.user == b.user
    &&& a.password == b.password
    &&& a.timeout == b.timeout
    &&& a.drop_and_replace == b.drop_and_replace
    &&& a.verbose == b.verbose
    &&& a.ca == b.ca
    &&& a.cert == b.cert
    &&& a.key == b.key
    &&& a.current_dir == b.current_dir
    &&& a.code_schema_override_json == b.code_schema_override_json
}

impl MigrationBuilder {
    /// A builder with the default options (see `Args::with_current_dir`) for the project in
    /// `current_dir`.
    pub fn new(current_dir: String) -> (res: MigrationBuilder)
        ensures
            res.args.host@.len() == 0,
            res.args.keyspace@.len() == 0,
            res.args.user is None,
            res.args.password is None,
            res.args.timeout == 30,
            !res.args.drop_and_replace,
            !res.args.verbose,
            res.args.ca is None,
            res.args.cert is None,
            res.args.key is None,
            res.args.current_dir == current_dir,
            res.args.code_schema_override_json is None,
    {
        MigrationBuilder { args: Args::with_current_dir(current_dir) }
    }

    /// Sets the keyspace.
    pub fn keyspace(self, keyspace: String) -> (res: MigrationBuilder)
        ensures
            res.args.keyspace == keyspace,
            same_but_keyspace(res.args, self.args),
    {
        let mut s = self;
        s.args.keyspace = keyspace;
        s
    }

    /// Sets the project directory whose models are migrated.
    pub fn current_dir(self, current_dir: String) -> (res: MigrationBuilder)
        ensures
            res.args == (Args { current_dir, ..self.args }),
    {
        let mut s = self;
        s.args.current_dir = current_dir;
        s
    }

    /// Sets whether columns whose type changed are dropped and added again.
    pub fn drop_and_replace(self, drop_and_replace: bool) -> (res: MigrationBuilder)
        ensures
            res.args == (Args { drop_and_replace, ..self.args }),
    {
        let mut s = self;
        s.args.drop_and_replace = drop_and_replace;
        s
    }

    /// Sets whether the table-options statements are printed.
    pub fn verbose(self, verbose: bool) -> (res: MigrationBuilder)
        ensures
            res.args == (Args { verbose, ..self.args }),
    {
        let mut s = self;
        s.args.verbose = verbose;
        s
    }

    /// Uses the code schema given as JSON in place of the one read from the project.
    pub fn code_schema_override_json(self, code_schema_override_json: String) -> (res: MigrationBuilder)
        ensures
            res.args == (Args { code_schema_override_json: Some(code_schema_override_json), ..self.args }),
    {
        let mut s = self;
        s.args.code_schema_override_json = Some(code_schema_override_json);
        s
    }

    /// Fills in the keyspace from the session when none was given: the options are kept when a
    /// keyspace was given; otherwise the session's default keyspace is used. A migration with
    /// neither cannot start, and is left out here: see `has_keyspace_with`, which the caller asks
    /// first.
    pub fn with_session_keyspace(self, session_keyspace: Option<String>) -> (res: MigrationBuilder)
        requires
            self.args.keyspace@.len() > 0 || session_keyspace is Some,
        ensures
            self.args.keyspace@.len() > 0 ==> res == self,
            self.args.keyspace@.len() == 0 ==> res.args.keyspace == session_keyspace->Some_0
                && same_but_keyspace(res.args, self.args),
    {
        if !self.args.keyspace.as_str().is_empty() {
            return self;
        }
        match session_keyspace {
            Some(k) => self.keyspace(k),
            None => self,
        }
    }

    /// Whether a migration can start with these options and the session's default keyspace
    /// `session_keyspace`: it needs a keyspace from one or the other.
    pub fn has_keyspace_with(&self, session_keyspace: &Option<String>) -> (res: bool)
        ensures
            res == (self.args.keyspace@.len() > 0 || session_keyspace is Some),
    {
        !self.args.keyspace.as_str().is_empty() || session_keyspace.is_some()
    }
}

impl From<Args> for MigrationBuilder {
    fn from(args: Args) -> (res: MigrationBuilder)
        ensures
            res.args == args,
    {
        MigrationBuilder { args }
    }
}

impl vstd::std_specs::convert::FromSpecImpl<Args> for MigrationBuilder {
    open spec fn obeys_from_spec() -> bool {
        true
    }

    open spec fn from_spec(args: Args) -> MigrationBuilder {
        MigrationBuilder { args }
    }
}

} // verus!
