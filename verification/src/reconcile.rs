//! The reconciliation of one tenant, as a machine that is told the outcome
//! of each call and answers with the call to make next.
//!
//! A pass asks first whether the tenant's record is published. If it is, the
//! pass ends: the record's presence alone says that the tenant is
//! provisioned, and the catalog is not touched, even where it has drifted.
//! If it is not, a password is minted, the role is created, or its password
//! rotated where the role exists already, each database is created where it
//! is missing and granted to the role in any case, and the record is
//! published. A failure, or an outcome that does not answer the pending
//! call, aborts the pass; nothing is tried again.

use vstd::prelude::*;
use crate::config::{DBConnection, DatabaseConfig};
use crate::password::{generate_password, password_shaped};
use crate::record::{secret_name, secret_name_text, CredentialRecord};
use crate::sql::{
    alter_role_statement,
    alter_role_text,
    create_database_statement,
    create_database_text,
    create_role_statement,
    create_role_text,
    database_exists_query,
    database_exists_text,
    grant_statement,
    grant_text,
    role_exists_query,
    role_exists_text,
};

verus! {

/// A call for the caller to make, or the end of the pass. A database is
/// named by its position in the tenant's list.
#[derive(Clone, Copy, PartialEq, Eq, Structural, Debug)]
pub enum Action {
    /// Ask the store for the tenant's record.
    GetSecret,
    /// Ask the catalog whether the role exists.
    CheckRole,
    /// Create the role with the minted password.
    CreateRole,
    /// Give the existing role the minted password.
    AlterRole,
    /// Ask the catalog whether the database exists.
    CheckDatabase(usize),
    /// Create the database.
    CreateDatabase(usize),
    /// Grant the role every privilege on the database.
    Grant(usize),
    /// Publish the tenant's record.
    CreateSecret,
    /// The pass is over: the tenant is provisioned.
    Finish,
    /// The pass was given up.
    Abort,
}

/// The outcome of a call.
#[derive(Clone, Copy, PartialEq, Eq, Structural, Debug)]
pub enum Event {
    /// The store holds the record.
    SecretFound,
    /// The store answered that it holds no such record.
    SecretMissing,
    /// The catalog answered a lookup: whether the role or database exists.
    Exists(bool),
    /// A statement was carried out, or the record was published.
    Completed,
    /// The call failed.
    Failed,
}

/// Whether `action` sends anything to the catalog, a lookup or a statement.
pub open spec fn calls_catalog(action: Action) -> bool {
    match action {
        Action::CheckRole => true,
        Action::CreateRole => true,
        Action::AlterRole => true,
        Action::CheckDatabase(_) => true,
        Action::CreateDatabase(_) => true,
        Action::Grant(_) => true,
        _ => false,
    }
}

/// Whether `action` writes to the store.
pub open spec fn writes_store(action: Action) -> bool {
    action == Action::CreateSecret
}

/// What the store answered when it was asked for a record.
#[derive(Clone, Copy, PartialEq, Eq, Structural, Debug)]
pub enum StoreReply {
    /// It holds the record.
    Found,
    /// It refused with this status code.
    Refused(u16),
    /// It could not be asked, or its answer could not be read.
    Broken,
}

/// The status code with which the store says that it holds no such record.
pub const NOT_FOUND: u16 = 404;

/// The kind of a failure: which of the two systems a call went to.
#[derive(Clone, Copy, PartialEq, Eq, Structural, Debug)]
pub enum Failure {
    /// A lookup or a statement of the catalog failed.
    Catalog,
    /// A call to the store failed.
    Store,
}

/// The outcome that a reply of the store stands for: a refusal with
/// `NOT_FOUND` says that the record is missing, and is no failure; every
/// other refusal is one.
pub open spec fn lookup_outcome(reply: StoreReply) -> Event {
    match reply {
        StoreReply::Found => Event::SecretFound,
        StoreReply::Refused(code) => if code == NOT_FOUND {
            Event::SecretMissing
        } else {
            Event::Failed
        },
        StoreReply::Broken => Event::Failed,
    }
}

/// The kind of failure that `action` ends in where its call fails; none for
/// the two that make no call.
pub open spec fn failure_kind(action: Action) -> Option<Failure> {
    if calls_catalog(action) {
        Some(Failure::Catalog)
    } else if action == Action::GetSecret || action == Action::CreateSecret {
        Some(Failure::Store)
    } else {
        None
    }
}

/// Reads the reply of the store to the lookup of a record.
pub fn lookup_event(reply: StoreReply) -> (event: Event)
    ensures
        event == lookup_outcome(reply),
{
    match reply {
        StoreReply::Found => Event::SecretFound,
        StoreReply::Refused(code) => if code == NOT_FOUND {
            Event::SecretMissing
        } else {
            Event::Failed
        },
        StoreReply::Broken => Event::Failed,
    }
}

/// Reads the answer of the catalog to a lookup: the role or database exists
/// if and only if the lookup returned a row.
pub fn catalog_event(rows: usize) -> (event: Event)
    ensures
        event == Event::Exists(rows != 0),
{
    Event::Exists(rows != 0)
}

/// Tells which kind of failure `action` ends in where its call fails.
pub fn failure_of(action: Action) -> (failure: Option<Failure>)
    ensures
        failure == failure_kind(action),
{
    match action {
        Action::GetSecret => Some(Failure::Store),
        Action::CreateSecret => Some(Failure::Store),
        Action::Finish => None,
        Action::Abort => None,
        _ => Some(Failure::Catalog),
    }
}

/// Whether `action` names only databases that a tenant with `n` databases has.
pub open spec fn in_range(action: Action, n: nat) -> bool {
    match action {
        Action::CheckDatabase(i) => i < n,
        Action::CreateDatabase(i) => i < n,
        Action::Grant(i) => i < n,
        _ => true,
    }
}

/// What follows the databases before position `i`: the lookup of the
/// database at `i`, or the publication where there is none.
pub open spec fn from_database(i: nat, n: nat) -> Action {
    if i < n {
        Action::CheckDatabase(i as usize)
    } else {
        Action::CreateSecret
    }
}

/// The call that follows `pending` once `event` is its outcome, for a tenant
/// with `n` databases.
pub open spec fn next_action(pending: Action, event: Event, n: nat) -> Action {
    match (pending, event) {
        (Action::Finish, _) => Action::Finish,
        (Action::GetSecret, Event::SecretFound) => Action::Finish,
        (Action::GetSecret, Event::SecretMissing) => Action::CheckRole,
        (Action::CheckRole, Event::Exists(false)) => Action::CreateRole,
        (Action::CheckRole, Event::Exists(true)) => Action::AlterRole,
        (Action::CreateRole, Event::Completed) => from_database(0, n),
        (Action::AlterRole, Event::Completed) => from_database(0, n),
        (Action::CheckDatabase(i), Event::Exists(false)) => Action::CreateDatabase(i),
        (Action::CheckDatabase(i), Event::Exists(true)) => Action::Grant(i),
        (Action::CreateDatabase(i), Event::Completed) => Action::Grant(i),
        (Action::Grant(i), Event::Completed) => from_database((i + 1) as nat, n),
        (Action::CreateSecret, Event::Completed) => Action::Finish,
        _ => Action::Abort,
    }
}

/// Whether a password is minted when `event` answers `pending`.
pub open spec fn mints(pending: Action, event: Event) -> bool {
    pending == Action::GetSecret && event == Event::SecretMissing
}

/// The statement that `action` sends to the catalog for the role `username`
/// with `password` and the databases `databases`; none where the action is
/// no call to the catalog.
pub open spec fn statement_text(
    username: Seq<char>,
    password: Seq<char>,
    databases: Seq<Seq<char>>,
    action: Action,
) -> Option<Seq<char>> {
    match action {
        Action::CheckRole => Some(role_exists_text(username)),
        Action::CreateRole => Some(create_role_text(username, password)),
        Action::AlterRole => Some(alter_role_text(username, password)),
        Action::CheckDatabase(i) => if i < databases.len() {
            Some(database_exists_text(databases[i as int]))
        } else {
            None
        },
        Action::CreateDatabase(i) => if i < databases.len() {
            Some(create_database_text(databases[i as int]))
        } else {
            None
        },
        Action::Grant(i) => if i < databases.len() {
            Some(grant_text(databases[i as int], username))
        } else {
            None
        },
        _ => None,
    }
}

/// The call after the databases before position `i` are done.
fn database_step(i: usize, n: usize) -> (action: Action)
    ensures
        action == from_database(i as nat, n as nat),
{
    if i < n {
        Action::CheckDatabase(i)
    } else {
        Action::CreateSecret
    }
}

/// Computes the call that follows `pending` once `event` is its outcome,
/// for a tenant with `n` databases.
pub fn decide(pending: Action, event: Event, n: usize) -> (action: Action)
    ensures
        action == next_action(pending, event, n as nat),
        in_range(pending, n as nat) ==> in_range(action, n as nat),
{
    match pending {
        Action::Finish => Action::Finish,
        Action::GetSecret => match event {
            Event::SecretFound => Action::Finish,
            Event::SecretMissing => Action::CheckRole,
            _ => Action::Abort,
        },
        Action::CheckRole => match event {
            Event::Exists(present) => if present {
                Action::AlterRole
            } else {
                Action::CreateRole
            },
            _ => Action::Abort,
        },
        Action::CreateRole => match event {
            Event::Completed => database_step(0, n),
            _ => Action::Abort,
        },
        Action::AlterRole => match event {
            Event::Completed => database_step(0, n),
            _ => Action::Abort,
        },
        Action::CheckDatabase(i) => match event {
            Event::Exists(present) => if present {
                Action::Grant(i)
            } else {
                Action::CreateDatabase(i)
            },
            _ => Action::Abort,
        },
        Action::CreateDatabase(i) => match event {
            Event::Completed => Action::Grant(i),
            _ => Action::Abort,
        },
        Action::Grant(i) => match event {
            Event::Completed => if i < n {
                database_step(i + 1, n)
            } else {
                Action::CreateSecret
            },
            _ => Action::Abort,
        },
        Action::CreateSecret => match event {
            Event::Completed => Action::Finish,
            _ => Action::Abort,
        },
        Action::Abort => Action::Abort,
    }
}

/// The reconciliation of one tenant: what is asked, how the catalog is
/// reached, the password of this pass, and the call whose outcome is awaited.
#[derive(Debug)]
pub struct Reconciler {
    tenant: DatabaseConfig,
    connection: DBConnection,
    password: String,
    pending: Action,
}

impl Reconciler {
    /// The tenant that is reconciled.
    pub closed spec fn tenant(&self) -> DatabaseConfig {
        self.tenant
    }

    /// The parameters of the connection to the catalog.
    pub closed spec fn connection(&self) -> DBConnection {
        self.connection
    }

    /// The password of this pass; empty until one is minted.
    pub closed spec fn password(&self) -> Seq<char> {
        self.password@
    }

    /// The call whose outcome is awaited.
    pub closed spec fn pending(&self) -> Action {
        self.pending
    }

    /// The number of the tenant's databases.
    pub open spec fn database_count(&self) -> nat {
        self.tenant().databases@.len()
    }

    /// The pending call names only a database that the tenant has.
    #[verifier::type_invariant]
    spec fn valid(&self) -> bool {
        in_range(self.pending, self.tenant.databases@.len())
    }

    /// Starts a pass for `tenant`: the first call asks the store for the
    /// tenant's record, and no password is minted yet.
    pub fn new(tenant: DatabaseConfig, connection: DBConnection) -> (reconciler: Reconciler)
        ensures
            reconciler.tenant() == tenant,
            reconciler.connection() == connection,
            reconciler.pending() == Action::GetSecret,
            reconciler.password() == Seq::<char>::empty(),
    {
        Reconciler { tenant, connection, password: String::new(), pending: Action::GetSecret }
    }

    /// The call whose outcome is awaited. It names only a database that the
    /// tenant has.
    pub fn pending_action(&self) -> (action: Action)
        ensures
            action == self.pending(),
            in_range(action, self.database_count()),
    {
        proof {
            use_type_invariant(self);
        }
        self.pending
    }

    /// Whether the pass is over, finished or aborted.
    pub fn is_over(&self) -> (over: bool)
        ensures
            over == (self.pending() == Action::Finish || self.pending() == Action::Abort),
    {
        match self.pending {
            Action::Finish => true,
            Action::Abort => true,
            _ => false,
        }
    }

    /// The password of this pass.
    pub fn current_password(&self) -> (password: String)
        ensures
            password@ == self.password(),
    {
        self.password.clone()
    }

    /// The name of the tenant's record.
    pub fn record_name(&self) -> (name: String)
        ensures
            name@ == secret_name_text(self.tenant().username@),
    {
        secret_name(self.tenant.username.as_str())
    }

    /// The namespace of the tenant's record.
    pub fn namespace(&self) -> (namespace: String)
        ensures
            namespace@ == self.tenant().namespace@,
    {
        self.tenant.namespace.clone()
    }

    /// Takes the outcome of the pending call and answers with the next one.
    /// Where the store holds no record yet, `minted` becomes the password of
    /// this pass; on every other outcome the password stays as it is.
    pub fn step_with(&mut self, event: Event, minted: String) -> (action: Action)
        ensures
            final(self).tenant() == old(self).tenant(),
            final(self).connection() == old(self).connection(),
            action == next_action(old(self).pending(), event, old(self).database_count()),
            final(self).pending() == action,
            final(self).password() == if mints(old(self).pending(), event) {
                minted@
            } else {
                old(self).password()
            },
    {
        proof {
            use_type_invariant(&*self);
        }
        let action: Action = decide(self.pending, event, self.tenant.databases.len());
        let mint: bool = match (self.pending, event) {
            (Action::GetSecret, Event::SecretMissing) => true,
            _ => false,
        };
        if mint {
            self.password = minted;
        }
        self.pending = action;
        action
    }

    /// Takes the outcome of the pending call and answers with the next one.
    /// Where the store holds no record yet, a password is minted for this
    /// pass; on every other outcome the password stays as it is.
    pub fn step(&mut self, event: Event) -> (action: Action)
        ensures
            final(self).tenant() == old(self).tenant(),
            final(self).connection() == old(self).connection(),
            action == next_action(old(self).pending(), event, old(self).database_count()),
            final(self).pending() == action,
            mints(old(self).pending(), event) ==> password_shaped(final(self).password()),
            !mints(old(self).pending(), event) ==> final(self).password() == old(self).password(),
    {
        let mint: bool = match (self.pending, event) {
            (Action::GetSecret, Event::SecretMissing) => true,
            _ => false,
        };
        if mint {
            let minted: String = generate_password();
            self.step_with(event, minted)
        } else {
            self.step_with(event, String::new())
        }
    }

    /// The statement that `action` sends to the catalog; none where the
    /// action is no call to the catalog or names a database that the tenant
    /// has not.
    pub fn statement(&self, action: Action) -> (sql: Option<String>)
        ensures
            match sql {
                Some(s) => statement_text(
                    self.tenant().username@,
                    self.password(),
                    self.tenant().database_names(),
                    action,
                ) == Some(s@),
                None => statement_text(
                    self.tenant().username@,
                    self.password(),
                    self.tenant().database_names(),
                    action,
                ).is_none(),
            },
    {
        let username: &str = self.tenant.username.as_str();
        let password: &str = self.password.as_str();
        let n: usize = self.tenant.databases.len();
        match action {
            Action::CheckRole => Some(role_exists_query(username)),
            Action::CreateRole => Some(create_role_statement(username, password)),
            Action::AlterRole => Some(alter_role_statement(username, password)),
            Action::CheckDatabase(i) => if i < n {
                Some(database_exists_query(self.tenant.databases[i].as_str()))
            } else {
                None
            },
            Action::CreateDatabase(i) => if i < n {
                Some(create_database_statement(self.tenant.databases[i].as_str()))
            } else {
                None
            },
            Action::Grant(i) => if i < n {
                Some(grant_statement(self.tenant.databases[i].as_str(), username))
            } else {
                None
            },
            _ => None,
        }
    }

    /// The record to publish: that of the tenant with the password of this
    /// pass.
    pub fn record(&self) -> (record: CredentialRecord)
        ensures
            record.describes(&self.connection(), &self.tenant(), self.password()),
    {
        CredentialRecord::assemble(&self.connection, &self.tenant, self.password.as_str())
    }
}

} // verus!
