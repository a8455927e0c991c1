use vstd::prelude::*;

verus! {

/// Where the ledger's backing store lives and how many connections it may
/// hold open. Built once at start-up and handed to whatever opens the store.
pub struct DatabaseConnector {
    database_url: String,
    max_connections: u32,
}

impl DatabaseConnector {
    pub closed spec fn database_url_spec(&self) -> Seq<char> {
        self.database_url@
    }

    pub closed spec fn max_connections_spec(&self) -> u32 {
        self.max_connections
    }

    pub fn new(database_url: String, max_connections: u32) -> (r: Self)
        ensures
            r.database_url_spec() == database_url@,
            r.max_connections_spec() == max_connections,
    {
        DatabaseConnector { database_url, max_connections }
    }

    pub fn database_url(&self) -> (r: &String)
        ensures
            r@ == self.database_url_spec(),
    {
        &self.database_url
    }

    pub fn max_connections(&self) -> (r: u32)
        ensures
            r == self.max_connections_spec(),
    {
        self.max_connections
    }
}

} // verus!
