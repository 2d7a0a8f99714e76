//! The connection parameters given at startup.

use vstd::prelude::*;

verus! {

/// Where and as whom to connect; fixed for the life of the process.
#[derive(Clone, Debug)]
pub struct ConnectionConfig {
    pub host: String,
    pub database: String,
    pub user: String,
    pub password: String,
}

impl ConnectionConfig {
    pub fn new(host: String, database: String, user: String, password: String) -> (r: Self)
        ensures
            r.host@ == host@,
            r.database@ == database@,
            r.user@ == user@,
            r.password@ == password@,
    {
        ConnectionConfig { host, database, user, password }
    }

    pub open spec fn spec_connection_string(&self) -> Seq<char> {
        "host="@ + self.host@ + " user="@ + self.user@ + " password="@ + self.password@
            + " dbname="@ + self.database@
    }

    /// The key/value connection string: `host=.. user=.. password=.. dbname=..`.
    pub fn connection_string(&self) -> (r: String)
        ensures
            r@ == self.spec_connection_string(),
    {
        let mut s = String::new();
        s.append("host=");
        s.append(self.host.as_str());
        s.append(" user=");
        s.append(self.user.as_str());
        s.append(" password=");
        s.append(self.password.as_str());
        s.append(" dbname=");
        s.append(self.database.as_str());
        assert(s@ =~= self.spec_connection_string());
        s
    }
}

} // verus!
