//! Reconciliation of PostgreSQL tenant accounts with the credential records
//! published for them.
//!
//! The library holds the decisions and the texts: which catalog or store call
//! comes next, which statement it carries, and which fields the published
//! record has. The caller performs the calls and reports their outcomes.

pub mod text;
pub mod config;
pub mod password;
pub mod sql;
pub mod record;
pub mod reconcile;
pub mod laws;
