//! The per-slot configuration supplied by the coordination server: identifier
//! mappings, item quantities, and the player's chosen options.

use vstd::prelude::*;

verus! {

/// The category of a local item identifier. The underlying game encodes this
/// in the high bits of its 32-bit item id; the host converts between that
/// encoding and this enum at the boundary.
#[derive(Clone, Copy, Debug, PartialEq, Eq, Structural)]
pub enum ItemCategory {
    Weapon,
    Protector,
    Accessory,
    Goods,
}

/// An item identifier in the local game's own namespace, reduced to the two
/// components the engine actually reads: the category and the per-category
/// parameter id.
#[derive(Clone, Copy, Debug, PartialEq, Eq, Structural)]
pub struct LocalItemId {
    pub category: ItemCategory,
    pub param_id: u32,
}

/// Possible options for death link.
#[derive(Clone, Copy, Debug, PartialEq, Eq, Structural)]
pub enum DeathLinkOption {
    /// Death link is disabled.
    Off,
    /// Death link triggers on any death.
    AnyDeath,
    /// Death link only triggers for deaths when the player dies without
    /// collecting their last bloodstain.
    LostSouls,
}

/// The options chosen by this player.
#[derive(Clone, Debug)]
pub struct Options {
    /// Whether to kill the player when other players are killed and vice
    /// versa.
    pub death_link: DeathLinkOption,

    /// How many deaths it takes to send a death link.
    pub death_link_amnesty: u8,

    /// Whether the seed was generated expecting the game's expansions to be
    /// installed.
    pub enable_dlc: bool,
}

/// The number of deaths it takes to send a death link when the server supplies
/// no explicit amnesty value.
pub fn default_death_link_amnesty() -> (r: u8)
    ensures
        r == 1,
{
    1
}

/// A map key wrapping a 64-bit integer. The server serialises these keys as
/// decimal strings; [`I64Key::try_from`] performs the reverse conversion.
#[derive(Clone, Copy, Debug, PartialEq, Eq, Structural)]
pub struct I64Key(pub i64);

impl I64Key {
    /// Parses the decimal string form the server uses for map keys.
    pub fn try_from(value: &str) -> (r: Result<I64Key, crate::errors::ParseIntError>)
        ensures
            match crate::parse::spec_parse_i64(value@) {
                Some(v) => r == Ok::<I64Key, crate::errors::ParseIntError>(I64Key(v)),
                None => r == Err::<I64Key, crate::errors::ParseIntError>(
                    crate::errors::ParseIntError,
                ),
            },
    {
        match crate::parse::parse_i64(value) {
            Some(v) => Ok(I64Key(v)),
            None => Err(crate::errors::ParseIntError),
        }
    }
}

/// The slot data supplied by the coordination server which provides specific
/// information about how to set up this game.
#[derive(Clone, Debug)]
pub struct SlotData {
    /// A map from the server's item ids to the local game's, as a list of
    /// (server id, local id) pairs. Lookup takes the first matching pair.
    pub ap_ids_to_item_ids: Vec<(i64, LocalItemId)>,

    /// A map from the server's item ids to the number of instances of that
    /// item the given id should grant, as a list of pairs.
    pub item_counts: Vec<(i64, u32)>,

    /// The options chosen by this player.
    pub options: Options,

    /// The event flags that must all hold for the session's goal to be
    /// complete.
    pub goal: Vec<u32>,
}

/// First-match lookup in an association list, the specification counterpart of
/// [`assoc_get`].
pub open spec fn spec_assoc_get<T>(entries: Seq<(i64, T)>, key: i64) -> Option<T>
    decreases entries.len(),
{
    if entries.len() == 0 {
        None
    } else if entries[0].0 == key {
        Some(entries[0].1)
    } else {
        spec_assoc_get(entries.drop_first(), key)
    }
}

/// Returns the value paired with `key` in `entries`, taking the first match.
pub fn assoc_get<T: Copy>(entries: &Vec<(i64, T)>, key: i64) -> (r: Option<T>)
    ensures
        r == spec_assoc_get(entries@, key),
{
    let n: usize = entries.len();
    let mut i: usize = 0;
    proof {
        assert(entries@.skip(0) =~= entries@);
    }
    while i < n
        invariant
            n == entries@.len(),
            0 <= i <= n,
            spec_assoc_get(entries@, key) == spec_assoc_get(entries@.skip(i as int), key),
        decreases n - i,
    {
        let pair = entries[i];
        proof {
            assert(entries@.skip(i as int)[0] == entries@[i as int]);
            assert(entries@.skip(i as int).drop_first() =~= entries@.skip(i as int + 1));
        }
        if pair.0 == key {
            return Some(pair.1);
        }
        i = i + 1;
    }
    proof {
        assert(entries@.skip(n as int).len() == 0);
    }
    None
}

} // verus!
