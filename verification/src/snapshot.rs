//! Plain-value snapshots of game state. The host reads these from the game's
//! memory each tick and hands them to the engine; the engine never reaches
//! into the game itself.

use vstd::prelude::*;
use crate::slot_data::LocalItemId;

verus! {

/// Which expansions the game reports as installed.
#[derive(Clone, Copy, Debug, PartialEq, Eq, Structural)]
pub struct DlcStatus {
    pub dlc1_installed: bool,
    pub dlc2_installed: bool,
}

/// One inventory slot, reduced to what the engine reads: the item identity
/// and whether it is a synthetic placeholder standing in for a randomized
/// location.
#[derive(Clone, Copy, Debug, PartialEq, Eq, Structural)]
pub struct InventoryEntry {
    pub item_id: LocalItemId,
    pub is_placeholder: bool,
}

/// The real reward a placeholder resolves to.
#[derive(Clone, Copy, Debug, PartialEq, Eq, Structural)]
pub struct ItemReward {
    pub id: LocalItemId,
    pub quantity: u32,
}

/// One row of the local item data table, reduced to the fields the engine
/// reads.
#[derive(Clone, Copy, Debug)]
pub struct EquipRow {
    /// The placeholder item this row describes.
    pub item_id: LocalItemId,
    /// The server location this placeholder stands for.
    pub location_id: i64,
    /// The local reward, if this location's item belongs to this game.
    pub reward: Option<ItemReward>,
    /// Whether this placeholder stands for the special gesture-granting item.
    pub is_gesture_item: bool,
    /// Diagnostic data logged for items with no local reward.
    pub basic_price: i32,
    /// Diagnostic data logged for items with no local reward.
    pub sell_value: i32,
}

/// An item assigned to this player by the server, with the sequence index the
/// server gave it.
#[derive(Clone, Copy, Debug, PartialEq, Eq, Structural)]
pub struct ReceivedItem {
    pub sequence_index: u64,
    pub item_identity: i64,
}

/// Everything the engine reads from the game in one tick.
#[derive(Clone, Debug)]
pub struct GameSnapshot {
    /// Whether the in-game item subsystem exists (it does not on the main
    /// menu).
    pub map_loaded: bool,
    /// Whether the player entity and its game data exist.
    pub player_loaded: bool,
    /// Whether the inventory and the item data table are readable.
    pub inventory_loaded: bool,
    /// Whether the event flag subsystem is readable.
    pub flags_loaded: bool,
    /// The player's inventory, meaningful when `inventory_loaded`.
    pub inventory: Vec<InventoryEntry>,
    /// The rows of the local item data table for placeholder items,
    /// meaningful when `inventory_loaded`.
    pub equip_rows: Vec<EquipRow>,
    /// Which expansions are installed, when the game exposes it.
    pub dlc: Option<DlcStatus>,
    /// The player's hit points, meaningful when `player_loaded`.
    pub player_hp: u32,
    /// Whether the player's recoverable death marker currently exists.
    pub bloodstain_exists: bool,
    /// Whether a shop menu is currently open.
    pub shop_open: bool,
    /// The items offered by the open shop, meaningful when `shop_open`.
    pub shop_items: Vec<InventoryEntry>,
    /// The current value of each configured goal flag, in the order the slot
    /// data lists them; meaningful when `flags_loaded`.
    pub goal_flags: Vec<bool>,
}

/// First-match lookup in the item data table, the specification counterpart
/// of [`find_row`].
pub open spec fn spec_find_row(rows: Seq<EquipRow>, id: LocalItemId) -> Option<EquipRow>
    decreases rows.len(),
{
    if rows.len() == 0 {
        None
    } else if rows[0].item_id == id {
        Some(rows[0])
    } else {
        spec_find_row(rows.drop_first(), id)
    }
}

/// Returns the data table row for `id`, taking the first match.
pub fn find_row(rows: &Vec<EquipRow>, id: LocalItemId) -> (r: Option<EquipRow>)
    ensures
        r == spec_find_row(rows@, id),
{
    let n: usize = rows.len();
    let mut i: usize = 0;
    proof {
        assert(rows@.skip(0) =~= rows@);
    }
    #[verifier::loop_isolation(false)]
    while i < n
        invariant
            0 <= i <= n,
            spec_find_row(rows@, id) == spec_find_row(rows@.skip(i as int), id),
        decreases n - i,
    {
        let row = rows[i];
        proof {
            assert(rows@.skip(i as int)[0] == rows@[i as int]);
            assert(rows@.skip(i as int).drop_first() =~= rows@.skip(i as int + 1));
        }
        if row.item_id == id {
            return Some(row);
        }
        i = i + 1;
    }
    proof {
        assert(rows@.skip(n as int).len() == 0);
    }
    None
}

} // verus!
