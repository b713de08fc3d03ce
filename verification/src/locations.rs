//! Location check tracking: convert placeholder markers in the inventory to
//! their real rewards, record the confirmed locations, and report the full
//! set to the server whenever it has grown.

use vstd::prelude::*;
use crate::actions::{Action, DRAGON_GESTURE_ID};
use crate::errors::FatalError;
use crate::log_buffer::LogEntry;
use crate::save_data::SaveData;
use crate::snapshot::{spec_find_row, find_row, EquipRow, InventoryEntry};

verus! {

/// Inserting into the duplicate-free location list: a no-op when present,
/// an append otherwise.
pub open spec fn spec_insert_loc(locs: Seq<i64>, l: i64) -> Seq<i64> {
    if locs.contains(l) {
        locs
    } else {
        locs.push(l)
    }
}

/// The location list after recording every placeholder marker of the
/// inventory, in order.
pub open spec fn spec_locs_after(
    locs: Seq<i64>,
    inv: Seq<InventoryEntry>,
    rows: Seq<EquipRow>,
) -> Seq<i64>
    decreases inv.len(),
{
    if inv.len() == 0 {
        locs
    } else {
        let next = if inv[0].is_placeholder {
            match spec_find_row(rows, inv[0].item_id) {
                Some(row) => spec_insert_loc(locs, row.location_id),
                None => locs,
            }
        } else {
            locs
        };
        spec_locs_after(next, inv.drop_first(), rows)
    }
}

/// The side effects for one placeholder marker: its reward (a gesture, a
/// real item, or nothing for a remote participant's item), then its removal.
pub open spec fn spec_marker_actions_one(entry: InventoryEntry, row: EquipRow) -> Seq<Action> {
    let grant: Seq<Action> = if row.is_gesture_item {
        seq![Action::AcquireGesture { gesture_id: DRAGON_GESTURE_ID }]
    } else {
        match row.reward {
            Some(rw) => seq![Action::GrantItemDirectly { id: rw.id, quantity: rw.quantity }],
            None => seq![],
        }
    };
    grant + seq![Action::RemoveItem { id: entry.item_id, quantity: 1 }]
}

/// The side effects for the whole inventory scan, in order.
pub open spec fn spec_marker_actions(inv: Seq<InventoryEntry>, rows: Seq<EquipRow>) -> Seq<Action>
    decreases inv.len(),
{
    if inv.len() == 0 {
        Seq::<Action>::empty()
    } else {
        let head: Seq<Action> = if inv[0].is_placeholder {
            match spec_find_row(rows, inv[0].item_id) {
                Some(row) => spec_marker_actions_one(inv[0], row),
                None => Seq::<Action>::empty(),
            }
        } else {
            Seq::<Action>::empty()
        };
        head + spec_marker_actions(inv.drop_first(), rows)
    }
}

/// The diagnostic log entries for markers with no local reward data.
pub open spec fn spec_marker_logs(inv: Seq<InventoryEntry>, rows: Seq<EquipRow>) -> Seq<LogEntry>
    decreases inv.len(),
{
    if inv.len() == 0 {
        Seq::<LogEntry>::empty()
    } else {
        let head: Seq<LogEntry> = if inv[0].is_placeholder {
            match spec_find_row(rows, inv[0].item_id) {
                Some(row) => if !row.is_gesture_item && row.reward is None {
                    seq![
                        LogEntry::ForeignItem {
                            location_id: row.location_id,
                            basic_price: row.basic_price,
                            sell_value: row.sell_value,
                        },
                    ]
                } else {
                    Seq::<LogEntry>::empty()
                },
                None => Seq::<LogEntry>::empty(),
            }
        } else {
            Seq::<LogEntry>::empty()
        };
        head + spec_marker_logs(inv.drop_first(), rows)
    }
}

/// Whether position `i` holds the first placeholder marker whose item id has
/// no row in the data table.
pub open spec fn spec_first_unmapped(
    inv: Seq<InventoryEntry>,
    rows: Seq<EquipRow>,
    i: int,
) -> bool {
    &&& 0 <= i < inv.len()
    &&& inv[i].is_placeholder
    &&& spec_find_row(rows, inv[i].item_id) is None
    &&& forall|j: int|
        0 <= j < i && #[trigger] inv[j].is_placeholder ==> spec_find_row(rows, inv[j].item_id)
            is Some
}

/// Whether every placeholder marker has a row in the data table.
pub open spec fn spec_all_mapped(inv: Seq<InventoryEntry>, rows: Seq<EquipRow>) -> bool {
    forall|i: int|
        0 <= i < inv.len() && #[trigger] inv[i].is_placeholder ==> spec_find_row(
            rows,
            inv[i].item_id,
        ) is Some
}

/// Finds the first placeholder marker without a data table row, if any.
fn first_unmapped(inv: &Vec<InventoryEntry>, rows: &Vec<EquipRow>) -> (r: Option<usize>)
    ensures
        match r {
            Some(i) => spec_first_unmapped(inv@, rows@, i as int),
            None => spec_all_mapped(inv@, rows@),
        },
{
    let n: usize = inv.len();
    let mut i: usize = 0;
    #[verifier::loop_isolation(false)]
    while i < n
        invariant
            0 <= i <= n,
            forall|j: int|
                0 <= j < i && #[trigger] inv@[j].is_placeholder ==> spec_find_row(
                    rows@,
                    inv@[j].item_id,
                ) is Some,
        decreases n - i,
    {
        let entry = inv[i];
        if entry.is_placeholder {
            if find_row(rows, entry.item_id).is_none() {
                return Some(i);
            }
        }
        i = i + 1;
    }
    None
}

/// Copies the location list for a report.
fn clone_locations(v: &Vec<i64>) -> (r: Vec<i64>)
    ensures
        r@ == v@,
{
    let n: usize = v.len();
    let mut r: Vec<i64> = Vec::new();
    let mut i: usize = 0;
    #[verifier::loop_isolation(false)]
    while i < n
        invariant
            0 <= i <= n,
            r@ =~= v@.take(i as int),
        decreases n - i,
    {
        r.push(v[i]);
        proof {
            assert(r@ =~= v@.take(i as int + 1));
        }
        i = i + 1;
    }
    proof {
        assert(v@.take(n as int) =~= v@);
    }
    r
}

/// Recording markers never shrinks the location list.
pub proof fn lemma_locs_after_len(locs: Seq<i64>, inv: Seq<InventoryEntry>, rows: Seq<EquipRow>)
    ensures
        spec_locs_after(locs, inv, rows).len() >= locs.len(),
    decreases inv.len(),
{
    if inv.len() > 0 {
        let next = if inv[0].is_placeholder {
            match spec_find_row(rows, inv[0].item_id) {
                Some(row) => spec_insert_loc(locs, row.location_id),
                None => locs,
            }
        } else {
            locs
        };
        lemma_locs_after_len(next, inv.drop_first(), rows);
    }
}

/// What the inventory scan produced: the side effects to perform, the
/// diagnostic log entries, and the location report if one is due.
pub struct InventoryOutcome {
    /// Reward grants and placeholder removals, in scan order, followed by
    /// the location report when one is due.
    pub actions: Vec<Action>,
    /// Diagnostic entries for markers that belong to remote participants.
    pub logs: Vec<LogEntry>,
}

/// Scans the inventory for placeholder markers.
///
/// Every marker is recorded in the save's location set (idempotently) and
/// removed; markers with local reward data also grant that reward. If the
/// location set has grown past the session's report cursor and a connection
/// exists, the full set is reported and the cursor set to its size. A marker
/// with no data table row at all is a data-integrity error: nothing is
/// changed and a fatal error is returned.
pub fn process_inventory_items(
    save: &mut SaveData,
    locations_sent: &mut usize,
    inventory: &Vec<InventoryEntry>,
    equip_rows: &Vec<EquipRow>,
    inventory_loaded: bool,
    client_present: bool,
) -> (r: Result<InventoryOutcome, FatalError>)
    requires
        old(save).locations_unique(),
    ensures
        final(save).seed == old(save).seed,
        final(save).items_granted == old(save).items_granted,
        final(save).deaths == old(save).deaths,
        final(save).locations_unique(),
        final(save).locations@.len() >= old(save).locations@.len(),
        !inventory_loaded ==> ({
            &&& r matches Ok(out) && out.actions@ == Seq::<Action>::empty() && out.logs@ == Seq::<
                LogEntry,
            >::empty()
            &&& final(save).locations == old(save).locations
            &&& *final(locations_sent) == *old(locations_sent)
        }),
        inventory_loaded && !spec_all_mapped(inventory@, equip_rows@) ==> exists|i: int|
            {
                &&& #[trigger] spec_first_unmapped(inventory@, equip_rows@, i)
                &&& r matches Err(e) && e matches FatalError::MissingItemRow { item_id }
                    && item_id == inventory@[i].item_id
                &&& final(save).locations == old(save).locations
                &&& *final(locations_sent) == *old(locations_sent)
            },
        inventory_loaded && spec_all_mapped(inventory@, equip_rows@) ==> ({
            let locs1 = spec_locs_after(old(save).locations@, inventory@, equip_rows@);
            let base = spec_marker_actions(inventory@, equip_rows@);
            let report = client_present && locs1.len() > *old(locations_sent);
            &&& final(save).locations@ == locs1
            &&& r matches Ok(out) && ({
                &&& out.logs@ == spec_marker_logs(inventory@, equip_rows@)
                &&& if report {
                    &&& out.actions@.len() == base.len() + 1
                    &&& out.actions@.take(base.len() as int) == base
                    &&& out.actions@.last() matches Action::ReportChecked { locations }
                        && locations@ == locs1
                    &&& *final(locations_sent) == locs1.len()
                } else {
                    &&& out.actions@ == base
                    &&& *final(locations_sent) == *old(locations_sent)
                }
            })
        }),
{
    if !inventory_loaded {
        return Ok(InventoryOutcome { actions: Vec::new(), logs: Vec::new() });
    }

    // Validate every marker up front: a missing row is fatal, and failing
    // before any mutation keeps the save and the report cursor untouched.
    if let Some(i) = first_unmapped(inventory, equip_rows) {
        let entry = inventory[i];
        return Err(FatalError::MissingItemRow { item_id: entry.item_id });
    }

    let n: usize = inventory.len();
    let mut actions: Vec<Action> = Vec::new();
    let mut logs: Vec<LogEntry> = Vec::new();
    let mut i: usize = 0;
    proof {
        assert(inventory@.skip(0) =~= inventory@);
        assert(Seq::<Action>::empty() + spec_marker_actions(inventory@, equip_rows@)
            =~= spec_marker_actions(inventory@, equip_rows@));
        assert(Seq::<LogEntry>::empty() + spec_marker_logs(inventory@, equip_rows@)
            =~= spec_marker_logs(inventory@, equip_rows@));
    }
    #[verifier::loop_isolation(false)]
    while i < n
        invariant
            0 <= i <= n,
            save.locations_unique(),
            save.seed == old(save).seed,
            save.items_granted == old(save).items_granted,
            save.deaths == old(save).deaths,
            save.locations@.len() >= old(save).locations@.len(),
            spec_locs_after(old(save).locations@, inventory@, equip_rows@) == spec_locs_after(
                save.locations@,
                inventory@.skip(i as int),
                equip_rows@,
            ),
            spec_marker_actions(inventory@, equip_rows@) == actions@ + spec_marker_actions(
                inventory@.skip(i as int),
                equip_rows@,
            ),
            spec_marker_logs(inventory@, equip_rows@) == logs@ + spec_marker_logs(
                inventory@.skip(i as int),
                equip_rows@,
            ),
        decreases n - i,
    {
        let entry = inventory[i];
        let ghost actions0 = actions@;
        let ghost logs0 = logs@;
        proof {
            let rest = inventory@.skip(i as int);
            assert(rest[0] == inventory@[i as int]);
            assert(rest.drop_first() =~= inventory@.skip(i as int + 1));
        }
        if entry.is_placeholder {
            let row = match find_row(equip_rows, entry.item_id) {
                Some(row) => row,
                None => {
                    proof {
                        assert(inventory@[i as int].is_placeholder);
                        assert(false);
                    }
                    return Err(FatalError::MissingItemRow { item_id: entry.item_id });
                },
            };

            save.insert_location(row.location_id);

            if row.is_gesture_item {
                // The player already saw a pop-up when the marker arrived;
                // acquire the gesture silently.
                actions.push(Action::AcquireGesture { gesture_id: DRAGON_GESTURE_ID });
            } else if let Some(rw) = row.reward {
                actions.push(Action::GrantItemDirectly { id: rw.id, quantity: rw.quantity });
            } else {
                // Presumably an item belonging to a remote participant; log
                // extra detail in case there is a bug to track down.
                logs.push(
                    LogEntry::ForeignItem {
                        location_id: row.location_id,
                        basic_price: row.basic_price,
                        sell_value: row.sell_value,
                    },
                );
            }
            actions.push(Action::RemoveItem { id: entry.item_id, quantity: 1 });
            proof {
                assert(actions@ =~= actions0 + spec_marker_actions_one(
                    inventory@[i as int],
                    row,
                ));
            }
        }
        proof {
            assert(spec_marker_actions(inventory@, equip_rows@) =~= actions@
                + spec_marker_actions(inventory@.skip(i as int + 1), equip_rows@));
            assert(spec_marker_logs(inventory@, equip_rows@) =~= logs@ + spec_marker_logs(
                inventory@.skip(i as int + 1),
                equip_rows@,
            ));
        }
        i = i + 1;
    }
    proof {
        assert(inventory@.skip(n as int).len() == 0);
        assert(actions@ + Seq::<Action>::empty() =~= actions@);
        assert(logs@ + Seq::<LogEntry>::empty() =~= logs@);
        assert(actions@ =~= spec_marker_actions(inventory@, equip_rows@));
        assert(logs@ =~= spec_marker_logs(inventory@, equip_rows@));
    }

    if save.locations.len() > *locations_sent && client_present {
        let report = clone_locations(&save.locations);
        actions.push(Action::ReportChecked { locations: report });
        *locations_sent = save.locations.len();
    }

    Ok(InventoryOutcome { actions, logs })
}

/// Law (report cursor bound): the report cursor never exceeds the size of
/// the location set, and immediately after a report the two are equal. The
/// equality after a report is part of the contract of
/// [`process_inventory_items`]; this lemma gives the standing bound: if the
/// cursor was within bounds before a scan, it is within bounds after it.
pub proof fn lemma_report_cursor_bound(
    locs: Seq<i64>,
    inv: Seq<InventoryEntry>,
    rows: Seq<EquipRow>,
    sent_before: int,
    sent_after: int,
    client_present: bool,
)
    requires
        0 <= sent_before <= locs.len(),
        sent_after == if client_present && spec_locs_after(locs, inv, rows).len() > sent_before {
            spec_locs_after(locs, inv, rows).len() as int
        } else {
            sent_before
        },
    ensures
        sent_after <= spec_locs_after(locs, inv, rows).len(),
{
    lemma_locs_after_len(locs, inv, rows);
}

} // verus!
