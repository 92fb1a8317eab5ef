//! The version of the save database, and what to do with a database of
//! another version.

use vstd::prelude::*;

verus! {

/// The version of the schema that this version of the game writes.
pub const DB_VERSION: i64 = 8;

/// The oldest version that can still be brought up to `DB_VERSION`.
pub const MIN_VERSION_MIGRATEABLE: i64 = 3;

/// How the version found in a database relates to `DB_VERSION`.
#[derive(Clone, Copy, Debug, PartialEq, Eq, Hash, Structural)]
pub enum VersionCompatability {
    /// The database is up to date.
    Same,
    /// The database was written by a later version of the game.
    Future(i64),
    /// The database is older and can be migrated.
    Migratable(i64),
    /// The database is too old to be migrated.
    Incompatable(i64),
}

/// How a database of version `version` relates to `DB_VERSION`.
pub open spec fn compatibility(version: i64) -> VersionCompatability {
    if version == DB_VERSION {
        VersionCompatability::Same
    } else if version > DB_VERSION {
        VersionCompatability::Future(version)
    } else if version >= MIN_VERSION_MIGRATEABLE {
        VersionCompatability::Migratable(version)
    } else {
        VersionCompatability::Incompatable(version)
    }
}

/// Classifies the version found in a database.
pub fn check_version(version: i64) -> (found: VersionCompatability)
    ensures
        found == compatibility(version),
{
    if version == DB_VERSION {
        VersionCompatability::Same
    } else if version > DB_VERSION {
        VersionCompatability::Future(version)
    } else if version >= MIN_VERSION_MIGRATEABLE {
        VersionCompatability::Migratable(version)
    } else {
        VersionCompatability::Incompatable(version)
    }
}

/// The versions that a migration from version `from` passes through, each
/// one step above the last, ending at `DB_VERSION`. `None` where `from`
/// cannot be migrated.
pub fn migration_steps(from: i64) -> (steps: Option<Vec<i64>>)
    ensures
        steps is Some <==> compatibility(from) is Migratable,
        steps matches Some(path) ==> path@.len() == DB_VERSION - from && forall|i: int|
            0 <= i < path@.len() ==> path@[i] == from + 1 + i,
{
    if from < MIN_VERSION_MIGRATEABLE || from >= DB_VERSION {
        return None;
    }
    let mut path: Vec<i64> = Vec::new();
    let mut version: i64 = from;
    while version < DB_VERSION
        invariant
            MIN_VERSION_MIGRATEABLE <= from <= version <= DB_VERSION,
            path@.len() == version - from,
            forall|i: int| 0 <= i < path@.len() ==> path@[i] == from + 1 + i,
        decreases DB_VERSION - version,
    {
        version = version + 1;
        path.push(version);
    }
    Some(path)
}

} // verus!
