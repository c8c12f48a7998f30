//! What is asked for each tenant, and how the catalog is reached.

use vstd::prelude::*;
use crate::text::{identifier, is_identifier};

verus! {

/// The desired state of one tenant: a role, the databases it is granted, and
/// the namespace in which its credential record lives.
#[derive(Debug, Clone)]
pub struct DatabaseConfig {
    pub username: String,
    pub databases: Vec<String>,
    pub namespace: String,
}

/// The parameters of the connection to the catalog, fixed for a whole run.
#[derive(Debug, Clone)]
pub struct DBConnection {
    pub host: String,
    pub port: String,
    pub username: String,
    pub password: String,
}

/// The text of the connection parameters: `host=.. port=.. user=.. password=..`.
pub open spec fn connection_text(
    host: Seq<char>,
    port: Seq<char>,
    username: Seq<char>,
    password: Seq<char>,
) -> Seq<char> {
    "host="@ + host + " port="@ + port + " user="@ + username + " password="@ + password
}

impl DBConnection {
    /// The connection string under which the catalog is opened.
    pub fn connection_string(&self) -> (s: String)
        ensures
            s@ == connection_text(self.host@, self.port@, self.username@, self.password@),
    {
        let mut s: String = String::from_str("host=");
        s.append(self.host.as_str());
        s.append(" port=");
        s.append(self.port.as_str());
        s.append(" user=");
        s.append(self.username.as_str());
        s.append(" password=");
        s.append(self.password.as_str());
        s
    }
}

impl DatabaseConfig {
    /// The names of the databases, as character sequences, in input order.
    pub open spec fn database_names(&self) -> Seq<Seq<char>> {
        Seq::new(self.databases@.len(), |i: int| self.databases@[i]@)
    }

    /// Whether the role name and every database name is an identifier.
    pub open spec fn names_are_identifiers(&self) -> bool {
        identifier(self.username@) && forall|i: int|
            0 <= i < self.databases@.len() ==> identifier(#[trigger] self.databases@[i]@)
    }

    /// Tells whether every name of this tenant can be written into a
    /// statement as it stands.
    pub fn has_safe_names(&self) -> (ok: bool)
        ensures
            ok == self.names_are_identifiers(),
    {
        if !is_identifier(self.username.as_str()) {
            return false;
        }
        let n: usize = self.databases.len();
        let mut i: usize = 0;
        while i < n
            invariant
                n == self.databases@.len(),
                i <= n,
                forall|j: int| 0 <= j < i ==> identifier(#[trigger] self.databases@[j]@),
            decreases n - i,
        {
            if !is_identifier(self.databases[i].as_str()) {
                return false;
            }
            i += 1;
        }
        true
    }
}

} // verus!
