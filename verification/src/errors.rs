//! The sticky fatal errors that permanently disable live-phase processing,
//! and the recoverable parse error for textual map keys.

use vstd::prelude::*;
use crate::slot_data::LocalItemId;

verus! {

/// A disagreement between two of the three sources of the session's seed
/// identity: the connected server, the persisted save, and the local
/// configuration.
#[derive(Clone, Debug)]
pub enum SeedConflict {
    /// The connected server reports a different seed than the configuration.
    ClientVsConfig { client_seed: String, config_seed: String },
    /// The connected server reports a different seed than the persisted save.
    ClientVsSave { client_seed: String, save_seed: String },
    /// The persisted save holds a different seed than the configuration.
    SaveVsConfig { save_seed: String, config_seed: String },
}

/// A fatal error. Once one is written to the session's sticky error slot, the
/// live phase is disabled for the remainder of the process.
#[derive(Clone, Debug)]
pub enum FatalError {
    /// The configuration was generated by a different client build.
    VersionConflict { config_version: String, build_version: String },
    /// The seed identities disagree; see [`SeedConflict`].
    SeedConflict(SeedConflict),
    /// The seed expects expansion content that is not installed.
    MissingDlc { dlc1_installed: bool, dlc2_installed: bool },
    /// A server item id has no local item id in the slot data.
    UnmappedItem { server_item_id: i64 },
    /// A placeholder item in the game has no row in the local data table.
    MissingItemRow { item_id: LocalItemId },
    /// The placeholder left behind after the original error was taken for
    /// display; see `Session::take_error`.
    Displaced,
}

/// The error returned when a textual map key is not a decimal 64-bit integer.
#[derive(Clone, Copy, Debug, PartialEq, Eq, Structural)]
pub struct ParseIntError;

} // verus!
