//! Hint requests for shop locations: while a shop of placeholder markers is
//! open, each visible marker is hinted to the server at most once per
//! session.

use vstd::prelude::*;
use crate::actions::Action;
use crate::errors::FatalError;
use crate::slot_data::LocalItemId;
use crate::snapshot::{spec_find_row, find_row, EquipRow, InventoryEntry};

verus! {

/// The hinted set holds no duplicates.
pub open spec fn hinted_unique(s: Seq<LocalItemId>) -> bool {
    forall|i: int, j: int| 0 <= i < j < s.len() ==> s[i] != s[j]
}

/// The hinted set after scanning the shop: every placeholder marker not yet
/// hinted is added, in shop order.
pub open spec fn spec_hinted_after(
    h: Seq<LocalItemId>,
    shop: Seq<InventoryEntry>,
) -> Seq<LocalItemId>
    decreases shop.len(),
{
    if shop.len() == 0 {
        h
    } else {
        let h2 = if shop[0].is_placeholder && !h.contains(shop[0].item_id) {
            h.push(shop[0].item_id)
        } else {
            h
        };
        spec_hinted_after(h2, shop.drop_first())
    }
}

/// The location ids collected for the hint request, in shop order: one for
/// each newly hinted marker.
pub open spec fn spec_hint_locs(
    h: Seq<LocalItemId>,
    shop: Seq<InventoryEntry>,
    rows: Seq<EquipRow>,
) -> Seq<i64>
    decreases shop.len(),
{
    if shop.len() == 0 {
        Seq::<i64>::empty()
    } else {
        let fresh = shop[0].is_placeholder && !h.contains(shop[0].item_id);
        let h2 = if fresh {
            h.push(shop[0].item_id)
        } else {
            h
        };
        let head: Seq<i64> = if fresh {
            match spec_find_row(rows, shop[0].item_id) {
                Some(row) => seq![row.location_id],
                None => Seq::<i64>::empty(),
            }
        } else {
            Seq::<i64>::empty()
        };
        head + spec_hint_locs(h2, shop.drop_first(), rows)
    }
}

/// Whether position `i` holds a placeholder marker that would be hinted this
/// scan but has no row in the data table.
pub open spec fn spec_hint_unmapped_at(
    h: Seq<LocalItemId>,
    shop: Seq<InventoryEntry>,
    rows: Seq<EquipRow>,
    i: int,
) -> bool {
    &&& 0 <= i < shop.len()
    &&& shop[i].is_placeholder
    &&& !h.contains(shop[i].item_id)
    &&& spec_find_row(rows, shop[i].item_id) is None
}

/// Whether every marker this scan would hint has a data table row.
pub open spec fn spec_hints_all_mapped(
    h: Seq<LocalItemId>,
    shop: Seq<InventoryEntry>,
    rows: Seq<EquipRow>,
) -> bool {
    forall|i: int| !spec_hint_unmapped_at(h, shop, rows, i)
}

/// Whether `v` holds `id`.
fn contains_id(v: &Vec<LocalItemId>, id: LocalItemId) -> (r: bool)
    ensures
        r == v@.contains(id),
{
    let n: usize = v.len();
    let mut i: usize = 0;
    #[verifier::loop_isolation(false)]
    while i < n
        invariant
            0 <= i <= n,
            forall|j: int| 0 <= j < i ==> v@[j] != id,
        decreases n - i,
    {
        if v[i].category == id.category && v[i].param_id == id.param_id {
            proof {
                assert(v@[i as int] == id);
            }
            return true;
        }
        i = i + 1;
    }
    false
}

/// Copies the hinted set.
fn copy_ids(v: &Vec<LocalItemId>) -> (r: Vec<LocalItemId>)
    ensures
        r@ == v@,
{
    let n: usize = v.len();
    let mut r: Vec<LocalItemId> = Vec::new();
    let mut i: usize = 0;
    #[verifier::loop_isolation(false)]
    while i < n
        invariant
            0 <= i <= n,
            r@ =~= v@.take(i as int),
        decreases n - i,
    {
        r.push(v[i]);
        proof {
            assert(r@ =~= v@.take(i as int + 1));
        }
        i = i + 1;
    }
    proof {
        assert(v@.take(n as int) =~= v@);
    }
    r
}

/// Sends hints for the locations visible in an open shop.
///
/// Each visible placeholder marker that was not hinted yet this session is
/// added to the hinted set and its location collected; if anything was
/// collected and a connection exists, one hint request covering all of it is
/// returned. A marker that would be hinted but has no data table row is a
/// data-integrity error: the hinted set is left untouched and a fatal error
/// returned.
pub fn send_shop_hints(
    hinted: &mut Vec<LocalItemId>,
    shop_items: &Vec<InventoryEntry>,
    equip_rows: &Vec<EquipRow>,
    shop_open: bool,
    inventory_loaded: bool,
    client_present: bool,
) -> (r: Result<Option<Action>, FatalError>)
    requires
        hinted_unique(old(hinted)@),
    ensures
        hinted_unique(final(hinted)@),
        !(shop_open && inventory_loaded) ==> ({
            &&& r matches Ok(out) && out is None
            &&& *final(hinted) == *old(hinted)
        }),
        shop_open && inventory_loaded && !spec_hints_all_mapped(
            old(hinted)@,
            shop_items@,
            equip_rows@,
        ) ==> ({
            &&& *final(hinted) == *old(hinted)
            &&& r matches Err(e) && e matches FatalError::MissingItemRow { item_id }
                && exists|i: int|
                #[trigger] spec_hint_unmapped_at(old(hinted)@, shop_items@, equip_rows@, i)
                    && item_id == shop_items@[i].item_id
        }),
        shop_open && inventory_loaded && spec_hints_all_mapped(
            old(hinted)@,
            shop_items@,
            equip_rows@,
        ) ==> ({
            let locs = spec_hint_locs(old(hinted)@, shop_items@, equip_rows@);
            &&& final(hinted)@ == spec_hinted_after(old(hinted)@, shop_items@)
            &&& r matches Ok(out) && if locs.len() > 0 && client_present {
                out matches Some(a) && a matches Action::RequestHints { locations } && locations@
                    == locs
            } else {
                out is None
            }
        }),
{
    if !shop_open || !inventory_loaded {
        return Ok(None);
    }

    // Validate up front: failing before any mutation lets a later session
    // retry the whole shop.
    let n: usize = shop_items.len();
    let mut i: usize = 0;
    #[verifier::loop_isolation(false)]
    while i < n
        invariant
            0 <= i <= n,
            forall|j: int| 0 <= j < i ==> !spec_hint_unmapped_at(
                hinted@,
                shop_items@,
                equip_rows@,
                j,
            ),
        decreases n - i,
    {
        let entry = shop_items[i];
        if entry.is_placeholder && !contains_id(hinted, entry.item_id) {
            if find_row(equip_rows, entry.item_id).is_none() {
                proof {
                    assert(spec_hint_unmapped_at(hinted@, shop_items@, equip_rows@, i as int));
                }
                return Err(FatalError::MissingItemRow { item_id: entry.item_id });
            }
        }
        i = i + 1;
    }
    proof {
        assert forall|j: int| !spec_hint_unmapped_at(hinted@, shop_items@, equip_rows@, j) by {}
    }

    let ghost h0 = hinted@;
    let mut local: Vec<LocalItemId> = copy_ids(hinted);
    let mut locs: Vec<i64> = Vec::new();
    let mut k: usize = 0;
    proof {
        assert(shop_items@.skip(0) =~= shop_items@);
        assert(Seq::<i64>::empty() + spec_hint_locs(h0, shop_items@, equip_rows@)
            =~= spec_hint_locs(h0, shop_items@, equip_rows@));
    }
    #[verifier::loop_isolation(false)]
    while k < n
        invariant
            0 <= k <= n,
            hinted_unique(local@),
            forall|x: LocalItemId| h0.contains(x) ==> local@.contains(x),
            spec_hinted_after(h0, shop_items@) == spec_hinted_after(
                local@,
                shop_items@.skip(k as int),
            ),
            spec_hint_locs(h0, shop_items@, equip_rows@) == locs@ + spec_hint_locs(
                local@,
                shop_items@.skip(k as int),
                equip_rows@,
            ),
        decreases n - k,
    {
        let entry = shop_items[k];
        let ghost local0 = local@;
        let ghost locs0 = locs@;
        proof {
            let rest = shop_items@.skip(k as int);
            assert(rest[0] == shop_items@[k as int]);
            assert(rest.drop_first() =~= shop_items@.skip(k as int + 1));
        }
        if entry.is_placeholder && !contains_id(&local, entry.item_id) {
            let row = match find_row(equip_rows, entry.item_id) {
                Some(row) => row,
                None => {
                    proof {
                        assert(spec_hint_unmapped_at(h0, shop_items@, equip_rows@, k as int));
                        assert(false);
                    }
                    return Err(FatalError::MissingItemRow { item_id: entry.item_id });
                },
            };
            local.push(entry.item_id);
            locs.push(row.location_id);
            proof {
                assert(local@.drop_last() =~= local0);
                assert forall|x: int, y: int| 0 <= x < y < local@.len() implies local@[x]
                    != local@[y] by {
                    if y == local@.len() - 1 {
                        assert(local@[x] == local0[x]);
                        assert(local0.contains(local@[x]) ==> local@[y] != local@[x]) by {
                            if local0[x] == local@[y] {
                                assert(local0.contains(local@[y]));
                            }
                        }
                        assert(local0.contains(local0[x]));
                    }
                }
                assert(locs@ =~= locs0 + seq![row.location_id]);
            }
        }
        proof {
            assert(spec_hint_locs(h0, shop_items@, equip_rows@) =~= locs@ + spec_hint_locs(
                local@,
                shop_items@.skip(k as int + 1),
                equip_rows@,
            ));
        }
        k = k + 1;
    }
    proof {
        assert(shop_items@.skip(n as int).len() == 0);
        assert(locs@ + Seq::<i64>::empty() =~= locs@);
        assert(locs@ =~= spec_hint_locs(h0, shop_items@, equip_rows@));
    }

    let any = locs.len() > 0;
    *hinted = local;
    if any && client_present {
        Ok(Some(Action::RequestHints { locations: locs }))
    } else {
        Ok(None)
    }
}

} // verus!
