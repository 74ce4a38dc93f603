//! A migration as plain values: the file it comes from, and what it
//! executes to apply and to revert its change.

use vstd::prelude::*;
use vstd::string::*;
use crate::naming::{
    is_ascii_digit, is_migration_file_name, validate_migration_name, version_from_filename,
    version_of, TIMESTAMP_DIGITS,
};

verus! {

/// One schema change.
#[derive(Debug, PartialEq, Eq)]
pub struct Migration {
    /// The name of the file that defines the migration.
    pub file_name: String,
    /// The statements that apply the change.
    pub up: String,
    /// The statements that revert it.
    pub down: String,
}

impl Migration {
    /// A migration is well formed when its file name follows the convention.
    pub open spec fn wf(&self) -> bool {
        is_migration_file_name(self.file_name@)
    }

    /// Makes a migration, if `file_name` follows the naming convention.
    pub fn new(file_name: String, up: String, down: String) -> (r: Option<Migration>)
        ensures
            r is Some <==> is_migration_file_name(file_name@),
            r matches Some(m) ==> m.wf() && m.file_name == file_name && m.up == up && m.down
                == down,
    {
        if validate_migration_name(file_name.as_str()) {
            Some(Migration { file_name, up, down })
        } else {
            None
        }
    }

    /// The migration's version: the fourteen digits of its file name.
    pub fn version(&self) -> (v: String)
        requires
            self.wf(),
        ensures
            v@ == version_of(self.file_name@),
            v@.len() == TIMESTAMP_DIGITS,
            forall|i: int| 0 <= i < v@.len() ==> is_ascii_digit(#[trigger] v@[i]),
    {
        version_from_filename(self.file_name.as_str())
    }

    /// The statements that `run` executes on the connection.
    pub fn run(&self) -> (sql: &str)
        ensures
            sql@ == self.up@,
    {
        self.up.as_str()
    }

    /// The statements that `revert` executes on the connection.
    pub fn revert(&self) -> (sql: &str)
        ensures
            sql@ == self.down@,
    {
        self.down.as_str()
    }
}

} // verus!
