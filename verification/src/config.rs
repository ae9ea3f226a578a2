use vstd::prelude::*;

verus! {

/// The configuration the database connection is opened with: where the
/// database is and how to authenticate. The process bootstrap loads it
/// from a text file and hands it over before the core starts.
#[derive(Clone, Debug)]
pub struct Config {
    pub host: String,
    pub port: u16,
    pub db_name: String,
    pub user: String,
    pub password: String,
}

impl Config {
    pub fn new(host: String, port: u16, db_name: String, user: String, password: String) -> (r:
        Config)
        ensures
            r.host@ == host@,
            r.port == port,
            r.db_name@ == db_name@,
            r.user@ == user@,
            r.password@ == password@,
    {
        Config { host, port, db_name, user, password }
    }
}

} // verus!
