//! Verified core of an employee attendance service: roles and access
//! tokens, password hashing, record updates, and the SQL text and checks
//! for inserts.

pub mod auth;
pub mod employee;
pub mod error;
pub mod ids;
pub mod password;
pub mod sql;
pub mod text;
