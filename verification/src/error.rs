//! The reasons for which the restore of one archive entry is given up.

use vstd::prelude::*;

verus! {

/// Why the restore of one archive entry ended without a count. None of
/// these ends the run: the next entry is still processed.
#[derive(Clone, Copy, Debug, PartialEq, Eq, Structural)]
pub enum RestoreError {
    /// The table name is not one that the engine restores.
    InvalidTable,
    /// A domain list carries a discriminant outside `0..=3`.
    InvalidDomainType,
    /// The entry's content is not a batch of records of the expected kind.
    MalformedBatch,
    /// A batch was asked for a record that it does not have.
    NoSuchRecord,
    /// A flush was asked for a table that the schema catalog does not list.
    TableMissing,
    /// The datastore could not be opened, or refused a statement that the
    /// restore depends on.
    Datastore,
    /// A config file that had to be read could not be.
    ConfigUnreadable,
    /// A request to add a reservation failed; the reconciliation of the
    /// reservations ends there.
    CommandFailed,
    /// The final reload request failed.
    ReloadFailed,
}

} // verus!
