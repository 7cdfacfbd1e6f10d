use vstd::prelude::*;

verus! {

/// Where and as whom the service reaches its database.
#[derive(Clone, Debug, PartialEq, Eq)]
pub struct Config {
    pub db_dsn: String,
    pub db_user: String,
    pub db_pass: String,
}

impl Config {
    pub fn new(db_dsn: String, db_user: String, db_pass: String) -> (r: Config)
        ensures
            r.db_dsn == db_dsn,
            r.db_user == db_user,
            r.db_pass == db_pass,
    {
        Config { db_dsn, db_user, db_pass }
    }
}

} // verus!
