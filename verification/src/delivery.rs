//! Idempotent item delivery: grant at most one pending inbound item per time
//! unit, resuming exactly where the persisted delivery cursor left off.

use vstd::prelude::*;
use crate::actions::{Action, DRAGON_GESTURE_ID};
use crate::errors::FatalError;
use crate::save_data::SaveData;
use crate::slot_data::{spec_assoc_get, assoc_get, ItemCategory, LocalItemId, SlotData};
use crate::snapshot::ReceivedItem;

verus! {

/// The minimum time between two item grants, in milliseconds.
pub const ITEM_GRANT_INTERVAL_MS: u64 = 1000;

/// The parameter id of the special-cased goods item that is granted as a
/// gesture rather than as an inventory item.
pub const DRAGON_ITEM_PARAM: u32 = 9030;

/// Whether some received item still awaits delivery: its sequence index is at
/// or past the cursor.
pub open spec fn spec_has_pending(items: Seq<ReceivedItem>, cursor: u64) -> bool {
    exists|i: int| 0 <= i < items.len() && #[trigger] items[i].sequence_index >= cursor
}

/// Whether position `i` holds the item delivery picks next: it is pending,
/// its sequence index is the smallest among pending items, and it is the
/// first position with that index. This pins the choice down uniquely.
pub open spec fn spec_chosen_pending(items: Seq<ReceivedItem>, cursor: u64, i: int) -> bool {
    &&& 0 <= i < items.len()
    &&& items[i].sequence_index >= cursor
    &&& forall|j: int|
        0 <= j < items.len() && #[trigger] items[j].sequence_index >= cursor
            ==> items[i].sequence_index <= items[j].sequence_index
    &&& forall|j: int|
        0 <= j < i ==> (#[trigger] items[j].sequence_index < cursor || items[j].sequence_index
            > items[i].sequence_index)
}

/// The choice predicate has at most one witness: two positions that are both
/// minimal and first would each have to precede the other.
pub proof fn lemma_chosen_unique(items: Seq<ReceivedItem>, cursor: u64, i1: int, i2: int)
    requires
        spec_chosen_pending(items, cursor, i1),
        spec_chosen_pending(items, cursor, i2),
    ensures
        i1 == i2,
{
    if i1 < i2 {
        assert(items[i1].sequence_index >= cursor);
    }
    if i2 < i1 {
        assert(items[i2].sequence_index >= cursor);
    }
}

/// The position delivery picks, as a function of the received list and the
/// cursor: the unique position satisfying [`spec_chosen_pending`], if any
/// item is pending.
pub open spec fn spec_next_pending(items: Seq<ReceivedItem>, cursor: u64) -> Option<int> {
    if spec_has_pending(items, cursor) {
        Some(choose|i: int| spec_chosen_pending(items, cursor, i))
    } else {
        None
    }
}

/// Finds the position delivery picks next: the first occurrence of the
/// smallest sequence index at or past the cursor.
fn next_pending(items: &Vec<ReceivedItem>, cursor: u64) -> (r: Option<usize>)
    ensures
        match r {
            Some(i) => spec_chosen_pending(items@, cursor, i as int) && spec_next_pending(
                items@,
                cursor,
            ) == Some(i as int),
            None => !spec_has_pending(items@, cursor) && spec_next_pending(items@, cursor)
                is None,
        },
{
    let n: usize = items.len();
    let mut best: Option<usize> = None;
    let mut i: usize = 0;
    #[verifier::loop_isolation(false)]
    while i < n
        invariant
            0 <= i <= n,
            match best {
                Some(b) => {
                    &&& b < i
                    &&& items@[b as int].sequence_index >= cursor
                    &&& forall|j: int|
                        0 <= j < i && #[trigger] items@[j].sequence_index >= cursor
                            ==> items@[b as int].sequence_index <= items@[j].sequence_index
                    &&& forall|j: int|
                        0 <= j < b ==> (#[trigger] items@[j].sequence_index < cursor
                            || items@[j].sequence_index > items@[b as int].sequence_index)
                },
                None => forall|j: int| 0 <= j < i ==> #[trigger] items@[j].sequence_index < cursor,
            },
        decreases n - i,
    {
        let it = items[i];
        if it.sequence_index >= cursor {
            match best {
                None => {
                    best = Some(i);
                },
                Some(b) => {
                    if it.sequence_index < items[b].sequence_index {
                        best = Some(i);
                    }
                },
            }
        }
        i = i + 1;
    }
    proof {
        if let Some(b) = best {
            assert(spec_chosen_pending(items@, cursor, b as int));
            let w = choose|k: int| spec_chosen_pending(items@, cursor, k);
            assert(spec_chosen_pending(items@, cursor, w));
            lemma_chosen_unique(items@, cursor, b as int, w);
        }
    }
    best
}

/// The quantity the slot data assigns to a server item id, defaulting to one.
pub open spec fn spec_item_quantity(slot: SlotData, server_item_id: i64) -> u32 {
    match spec_assoc_get(slot.item_counts@, server_item_id) {
        Some(q) => q,
        None => 1,
    }
}

/// The side effect that grants a local item: the special-cased item becomes a
/// gesture grant, everything else an ordinary item grant.
pub open spec fn spec_grant_action(id: LocalItemId, quantity: u32) -> Action {
    if id.category == ItemCategory::Goods && id.param_id == DRAGON_ITEM_PARAM {
        Action::GrantGesture { gesture_id: DRAGON_GESTURE_ID, item_id: id }
    } else {
        Action::GrantItem { id, quantity }
    }
}

/// Whether delivery may act this tick: a connection and the needed game
/// subsystems exist, and the rate-limit interval has passed.
pub open spec fn spec_delivery_ready(
    client_present: bool,
    map_loaded: bool,
    player_loaded: bool,
    last_item_time: u64,
    now: u64,
) -> bool {
    &&& client_present
    &&& map_loaded
    &&& player_loaded
    &&& now - last_item_time >= ITEM_GRANT_INTERVAL_MS
}

/// Delivers at most one pending inbound item.
///
/// The pending item with the smallest sequence index at or past the cursor is
/// mapped to a local item through the slot data and granted; the cursor then
/// advances by exactly one and the rate-limit timer resets. A server id
/// missing from the mapping is a data-integrity error and is reported as
/// fatal, with nothing granted and nothing advanced.
pub fn process_incoming_items(
    last_item_time: &mut u64,
    save: &mut SaveData,
    received: &Vec<ReceivedItem>,
    slot: &SlotData,
    client_present: bool,
    map_loaded: bool,
    player_loaded: bool,
    now: u64,
) -> (r: Result<Option<Action>, FatalError>)
    requires
        *old(last_item_time) <= now,
        old(save).items_granted < u64::MAX,
    ensures
        final(save).seed == old(save).seed,
        final(save).locations == old(save).locations,
        final(save).deaths == old(save).deaths,
        final(save).items_granted >= old(save).items_granted,
        *final(last_item_time) <= now,
        ({
            let ready = spec_delivery_ready(
                client_present,
                map_loaded,
                player_loaded,
                *old(last_item_time),
                now,
            );
            &&& !ready ==> r == Ok::<Option<Action>, FatalError>(None)
                && *final(last_item_time) == *old(last_item_time) && final(save).items_granted
                == old(save).items_granted
            &&& ready && !spec_has_pending(received@, old(save).items_granted) ==> r == Ok::<
                Option<Action>,
                FatalError,
            >(None) && *final(last_item_time) == *old(last_item_time) && final(save).items_granted
                == old(save).items_granted
            &&& ready && spec_has_pending(received@, old(save).items_granted) ==> match
                spec_next_pending(received@, old(save).items_granted) {
                None => false,
                Some(i) => {
                    match spec_assoc_get(
                        slot.ap_ids_to_item_ids@,
                        received@[i].item_identity,
                    ) {
                        None => r == Err::<Option<Action>, FatalError>(
                            FatalError::UnmappedItem {
                                server_item_id: received@[i].item_identity,
                            },
                        ) && *final(last_item_time) == *old(last_item_time) && final(
                            save
                        ).items_granted == old(save).items_granted,
                        Some(local_id) => r == Ok::<Option<Action>, FatalError>(
                            Some(
                                spec_grant_action(
                                    local_id,
                                    spec_item_quantity(*slot, received@[i].item_identity),
                                ),
                            ),
                        ) && *final(last_item_time) == now && final(save).items_granted == old(
                            save
                        ).items_granted + 1,
                    }
                },
            }
        }),
{
    if !client_present || !map_loaded || !player_loaded {
        return Ok(None);
    }
    // Wait out the rate-limit interval between grants.
    if now - *last_item_time < ITEM_GRANT_INTERVAL_MS {
        return Ok(None);
    }

    let chosen = match next_pending(received, save.items_granted) {
        Some(i) => i,
        None => {
            return Ok(None);
        },
    };
    let item = received[chosen];

    let local_id = match assoc_get(&slot.ap_ids_to_item_ids, item.item_identity) {
        Some(id) => id,
        None => {
            // Slot data inconsistent with this client build: unrecoverable,
            // never silently skipped.
            return Err(FatalError::UnmappedItem { server_item_id: item.item_identity });
        },
    };
    let quantity = match assoc_get(&slot.item_counts, item.item_identity) {
        Some(q) => q,
        None => 1,
    };

    let action = if local_id.category == ItemCategory::Goods && local_id.param_id
        == DRAGON_ITEM_PARAM {
        Action::GrantGesture { gesture_id: DRAGON_GESTURE_ID, item_id: local_id }
    } else {
        Action::GrantItem { id: local_id, quantity }
    };

    save.items_granted = save.items_granted + 1;
    *last_item_time = now;
    Ok(Some(action))
}

/// Law (delivery monotonicity): a grant never touches an index the cursor has
/// already passed. Together with the contract of
/// [`process_incoming_items`] — the cursor advances by exactly one per grant
/// and never decreases — this means no index below the cursor is ever
/// granted twice.
pub proof fn lemma_delivery_no_regrant(
    items: Seq<ReceivedItem>,
    cursor: u64,
    i: int,
    below: u64,
)
    requires
        spec_chosen_pending(items, cursor, i),
        below < cursor,
    ensures
        items[i].sequence_index != below,
{
}

/// Law (rate limiting): no two grants occur within the minimum interval. The
/// contract of [`process_incoming_items`] sets the rate-limit timer to the
/// grant time of every grant, and a grant requires the interval to have
/// passed since the timer, so two consecutive grant times are at least the
/// interval apart.
pub proof fn lemma_rate_limit(t1: u64, t2: u64)
    requires
        spec_delivery_ready(true, true, true, t1, t2),
        t1 <= t2,
    ensures
        t2 - t1 >= ITEM_GRANT_INTERVAL_MS,
{
}

} // verus!
