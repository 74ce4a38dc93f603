//! Verified core of a likes archiver: the naming convention of embedded
//! schema migrations, their discovery and ordering, the source of the
//! registry that lists them, and the credentials a login yields.

pub mod naming;
pub mod ordering;
pub mod discovery;
pub mod registry;
pub mod migration;
pub mod credentials;
pub mod driver;
pub mod login;
