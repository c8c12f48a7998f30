//! The credential record that is published for a tenant.

use vstd::prelude::*;
use crate::config::{DBConnection, DatabaseConfig};
use crate::text::{decimal, decimal_text};

verus! {

/// One entry of a record: a key and the text stored under it.
#[derive(Debug, Clone)]
pub struct Field {
    pub key: String,
    pub value: String,
}

/// The record that holds a tenant's credentials: its name, the namespace it
/// lives in, and its fields in the order in which they were assembled.
#[derive(Debug, Clone)]
pub struct CredentialRecord {
    pub name: String,
    pub namespace: String,
    pub fields: Vec<Field>,
}

/// The name of the record of the role `username`.
pub open spec fn secret_name_text(username: Seq<char>) -> Seq<char> {
    username + "-db-credentials"@
}

/// The key under which the name of the database at position `i` is stored.
pub open spec fn database_key(i: nat) -> Seq<char> {
    "database."@ + decimal(i)
}

/// The key under which the connection text of the database at position `i`
/// is stored.
pub open spec fn database_url_key(i: nat) -> Seq<char> {
    "database_url."@ + decimal(i)
}

/// The connection text with which the role reaches one database.
pub open spec fn database_url_text(
    host: Seq<char>,
    port: Seq<char>,
    username: Seq<char>,
    password: Seq<char>,
    database: Seq<char>,
) -> Seq<char> {
    "host="@ + host + " port="@ + port + " user="@ + username + " password='"@ + password
        + "' dbname="@ + database + " sslmode=disable"@
}

/// The key of the field at position `k` of a record: four fixed keys, then
/// for each database its name's key and its connection text's key.
pub open spec fn field_key(k: nat) -> Seq<char> {
    if k == 0 {
        "database_host"@
    } else if k == 1 {
        "database_port"@
    } else if k == 2 {
        "username"@
    } else if k == 3 {
        "password"@
    } else if (k - 4) % 2 == 0 {
        database_key(((k - 4) / 2) as nat)
    } else {
        database_url_key(((k - 4) / 2) as nat)
    }
}

/// The text of the field at position `k` of the record of a role with the
/// databases `databases`.
pub open spec fn field_value(
    host: Seq<char>,
    port: Seq<char>,
    username: Seq<char>,
    password: Seq<char>,
    databases: Seq<Seq<char>>,
    k: nat,
) -> Seq<char>
    recommends
        k < 4 + 2 * databases.len(),
{
    if k == 0 {
        host
    } else if k == 1 {
        port
    } else if k == 2 {
        username
    } else if k == 3 {
        password
    } else if (k - 4) % 2 == 0 {
        databases[(k - 4) / 2]
    } else {
        database_url_text(host, port, username, password, databases[(k - 4) / 2])
    }
}

/// Writes the name of the record of the role `username`.
pub fn secret_name(username: &str) -> (name: String)
    ensures
        name@ == secret_name_text(username@),
{
    let mut name: String = String::from_str(username);
    name.append("-db-credentials");
    name
}

/// Writes the connection text with which the role reaches one database.
pub fn database_url(host: &str, port: &str, username: &str, password: &str, database: &str) -> (url:
    String)
    ensures
        url@ == database_url_text(host@, port@, username@, password@, database@),
{
    let mut url: String = String::from_str("host=");
    url.append(host);
    url.append(" port=");
    url.append(port);
    url.append(" user=");
    url.append(username);
    url.append(" password='");
    url.append(password);
    url.append("' dbname=");
    url.append(database);
    url.append(" sslmode=disable");
    url
}

impl CredentialRecord {
    /// Whether this is the record of `tenant` with `password`, reached over
    /// `connection`: it has the tenant's record name and namespace, four
    /// fixed fields, and two fields for each database, in input order, and
    /// no others.
    pub open spec fn describes(
        &self,
        connection: &DBConnection,
        tenant: &DatabaseConfig,
        password: Seq<char>,
    ) -> bool {
        &&& self.name@ == secret_name_text(tenant.username@)
        &&& self.namespace@ == tenant.namespace@
        &&& self.fields@.len() == 4 + 2 * tenant.databases@.len()
        &&& forall|k: int|
            0 <= k < self.fields@.len() ==> {
                &&& (#[trigger] self.fields@[k]).key@ == field_key(k as nat)
                &&& self.fields@[k].value@ == field_value(
                    connection.host@,
                    connection.port@,
                    tenant.username@,
                    password,
                    tenant.database_names(),
                    k as nat,
                )
            }
    }

    /// Assembles the record of `tenant` with `password`.
    pub fn assemble(connection: &DBConnection, tenant: &DatabaseConfig, password: &str) -> (record:
        CredentialRecord)
        ensures
            record.describes(connection, tenant, password@),
    {
        let mut fields: Vec<Field> = Vec::new();
        fields.push(
            Field { key: String::from_str("database_host"), value: connection.host.clone() },
        );
        fields.push(
            Field { key: String::from_str("database_port"), value: connection.port.clone() },
        );
        fields.push(Field { key: String::from_str("username"), value: tenant.username.clone() });
        fields.push(Field { key: String::from_str("password"), value: String::from_str(password) });
        let n: usize = tenant.databases.len();
        let mut i: usize = 0;
        while i < n
            invariant
                n == tenant.databases@.len(),
                i <= n,
                fields@.len() == 4 + 2 * i,
                forall|k: int|
                    0 <= k < fields@.len() ==> {
                        &&& (#[trigger] fields@[k]).key@ == field_key(k as nat)
                        &&& fields@[k].value@ == field_value(
                            connection.host@,
                            connection.port@,
                            tenant.username@,
                            password@,
                            tenant.database_names(),
                            k as nat,
                        )
                    },
            decreases n - i,
        {
            let database: &String = &tenant.databases[i];
            let index: String = decimal_text(i);
            let mut key: String = String::from_str("database.");
            key.append(index.as_str());
            let mut url_key: String = String::from_str("database_url.");
            url_key.append(index.as_str());
            let url: String = database_url(
                connection.host.as_str(),
                connection.port.as_str(),
                tenant.username.as_str(),
                password,
                database.as_str(),
            );
            assert(tenant.database_names()[i as int] == database@);
            fields.push(Field { key, value: database.clone() });
            fields.push(Field { key: url_key, value: url });
            i += 1;
        }
        CredentialRecord {
            name: secret_name(tenant.username.as_str()),
            namespace: tenant.namespace.clone(),
            fields,
        }
    }

    /// The text stored under `key`, if the record has such a field.
    pub fn get(&self, key: &str) -> (value: Option<String>)
        ensures
            match value {
                Some(v) => exists|k: int|
                    0 <= k < self.fields@.len() && (#[trigger] self.fields@[k]).key@ == key@
                        && self.fields@[k].value@ == v@ && forall|j: int|
                        0 <= j < k ==> (#[trigger] self.fields@[j]).key@ != key@,
                None => forall|k: int|
                    0 <= k < self.fields@.len() ==> (#[trigger] self.fields@[k]).key@ != key@,
            },
    {
        let n: usize = self.fields.len();
        let mut i: usize = 0;
        while i < n
            invariant
                n == self.fields@.len(),
                i <= n,
                forall|k: int| 0 <= k < i ==> (#[trigger] self.fields@[k]).key@ != key@,
            decreases n - i,
        {
            if same_text(self.fields[i].key.as_str(), key) {
                return Some(self.fields[i].value.clone());
            }
            i += 1;
        }
        None
    }
}

/// Tells whether two texts are the same.
pub fn same_text(a: &str, b: &str) -> (same: bool)
    ensures
        same == (a@ == b@),
{
    let n: usize = a.unicode_len();
    if b.unicode_len() != n {
        return false;
    }
    let mut i: usize = 0;
    while i < n
        invariant
            n == a@.len(),
            n == b@.len(),
            i <= n,
            forall|j: int| 0 <= j < i ==> a@[j] == b@[j],
        decreases n - i,
    {
        if a.get_char(i) != b.get_char(i) {
            return false;
        }
        i += 1;
    }
    assert(a@ =~= b@);
    true
}

} // verus!
