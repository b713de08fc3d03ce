//! The side effects the engine asks the host to perform. The engine itself
//! never touches the game or the network: each tick it returns a list of
//! these, and the host carries them out in order.

use vstd::prelude::*;
use crate::slot_data::LocalItemId;

verus! {

/// The gesture granted in place of the special-cased item.
pub const DRAGON_GESTURE_ID: u32 = 29;

/// One side effect to perform against the game or the coordination server.
#[derive(Clone, Debug)]
pub enum Action {
    /// Grant an item through the game's item queue, with the usual pickup
    /// pop-up.
    GrantItem { id: LocalItemId, quantity: u32 },
    /// Place an item straight into the inventory, without a pop-up.
    GrantItemDirectly { id: LocalItemId, quantity: u32 },
    /// Grant a gesture together with its triggering item.
    GrantGesture { gesture_id: u32, item_id: LocalItemId },
    /// Mark a gesture as acquired, without any pop-up.
    AcquireGesture { gesture_id: u32 },
    /// Remove an item from the player's inventory.
    RemoveItem { id: LocalItemId, quantity: u32 },
    /// Kill the local player.
    KillPlayer,
    /// Report the full set of confirmed locations to the server.
    ReportChecked { locations: Vec<i64> },
    /// Request hints for these locations.
    RequestHints { locations: Vec<i64> },
    /// Transmit a death link event to the other sessions.
    SendDeathLink,
    /// Report that this session's goal is complete.
    SendGoal,
}

} // verus!
