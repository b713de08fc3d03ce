//! The sub-protocols on concrete values: death link grace and amnesty, item
//! delivery, location checks, shop hints, and the goal report.

use archipelago_core::actions::Action;
use archipelago_core::deathlink::{allow_death_link, receive_death_link, send_death_link};
use archipelago_core::delivery::process_incoming_items;
use archipelago_core::errors::FatalError;
use archipelago_core::goal::handle_goal;
use archipelago_core::hints::send_shop_hints;
use archipelago_core::locations::process_inventory_items;
use archipelago_core::log_buffer::LogEntry;
use archipelago_core::save_data::SaveData;
use archipelago_core::slot_data::{
    default_death_link_amnesty, DeathLinkOption, ItemCategory, LocalItemId, Options, SlotData,
};
use archipelago_core::snapshot::{EquipRow, InventoryEntry, ItemReward, ReceivedItem};

fn goods(param_id: u32) -> LocalItemId {
    LocalItemId { category: ItemCategory::Goods, param_id }
}

fn slot_data() -> SlotData {
    SlotData {
        ap_ids_to_item_ids: vec![(42, goods(100)), (43, goods(9030))],
        item_counts: vec![(42, 3)],
        options: Options {
            death_link: DeathLinkOption::AnyDeath,
            death_link_amnesty: 1,
            enable_dlc: false,
        },
        goal: Vec::new(),
    }
}

#[test]
fn default_amnesty_is_one() {
    assert_eq!(default_death_link_amnesty(), 1);
}

#[test]
fn death_link_blocked_within_grace() {
    // 10 s after the last transition, the 30 s window is still open.
    assert!(!allow_death_link(DeathLinkOption::AnyDeath, 0, 10_000));
    assert!(allow_death_link(DeathLinkOption::AnyDeath, 0, 30_000));
    assert!(!allow_death_link(DeathLinkOption::Off, 0, 60_000));
}

#[test]
fn death_link_duplicate_timestamp_ignored() {
    // last_transition = t0; an inbound death timestamped t0 + 10 s is a
    // duplicate and must be ignored.
    let t0: u64 = 100_000;
    let mut last = t0;
    let local = String::from("alice");
    let source = String::from("bob");
    let kill = receive_death_link(
        &mut last,
        DeathLinkOption::AnyDeath,
        Some(&local),
        &source,
        t0 + 10_000,
        true,
        t0 + 50_000,
    );
    assert!(!kill);
    assert_eq!(last, t0);
}

#[test]
fn death_link_accepted_after_grace() {
    // 40 s have elapsed since the last transition; a death timestamped
    // "now" kills the player and moves the transition to "now".
    let t0: u64 = 100_000;
    let now = t0 + 40_000;
    let mut last = t0;
    let local = String::from("alice");
    let source = String::from("bob");
    let kill = receive_death_link(
        &mut last,
        DeathLinkOption::AnyDeath,
        Some(&local),
        &source,
        now,
        true,
        now,
    );
    assert!(kill);
    assert_eq!(last, now);
}

#[test]
fn death_link_own_echo_ignored() {
    let mut last: u64 = 0;
    let local = String::from("alice");
    let source = String::from("alice");
    let kill = receive_death_link(
        &mut last,
        DeathLinkOption::AnyDeath,
        Some(&local),
        &source,
        80_000,
        true,
        80_000,
    );
    assert!(!kill);
}

#[test]
fn death_link_stale_timestamp_ignored() {
    let mut last: u64 = 100_000;
    let local = String::from("alice");
    let source = String::from("bob");
    let kill = receive_death_link(
        &mut last,
        DeathLinkOption::AnyDeath,
        Some(&local),
        &source,
        50_000,
        true,
        200_000,
    );
    assert!(!kill);
}

#[test]
fn amnesty_three_deaths_one_transmission() {
    // Amnesty threshold 3: deaths 1 and 2 only count, the 3rd transmits
    // and resets the counter.
    let mut last: u64 = 0;
    let mut deaths: u8 = 0;
    let mut now: u64 = 40_000;

    let first = send_death_link(
        &mut last,
        &mut deaths,
        DeathLinkOption::AnyDeath,
        3,
        true,
        true,
        0,
        false,
        now,
    );
    assert!(!first.sent);
    assert_eq!(deaths, 1);
    assert!(matches!(first.log, Some(LogEntry::AmnestyRemaining { remaining: 2 })));
    assert_eq!(last, now);

    now += 40_000;
    let second = send_death_link(
        &mut last,
        &mut deaths,
        DeathLinkOption::AnyDeath,
        3,
        true,
        true,
        0,
        false,
        now,
    );
    assert!(!second.sent);
    assert_eq!(deaths, 2);
    assert!(matches!(second.log, Some(LogEntry::AmnestyRemaining { remaining: 1 })));

    now += 40_000;
    let third = send_death_link(
        &mut last,
        &mut deaths,
        DeathLinkOption::AnyDeath,
        3,
        true,
        true,
        0,
        false,
        now,
    );
    assert!(third.sent);
    assert_eq!(deaths, 0);
    assert!(matches!(third.log, Some(LogEntry::DeathLinkSent)));
}

#[test]
fn death_not_counted_while_alive() {
    let mut last: u64 = 0;
    let mut deaths: u8 = 0;
    let r = send_death_link(
        &mut last,
        &mut deaths,
        DeathLinkOption::AnyDeath,
        3,
        true,
        true,
        57,
        false,
        40_000,
    );
    assert!(!r.sent);
    assert_eq!(deaths, 0);
    assert!(r.log.is_none());
    assert_eq!(last, 0);
}

#[test]
fn lost_souls_counts_only_failed_recoveries() {
    // In the lost-souls mode a death counts only when the recoverable
    // marker no longer exists: the player died again without recovering
    // the previous one.
    let mut last: u64 = 0;
    let mut deaths: u8 = 0;
    let r = send_death_link(
        &mut last,
        &mut deaths,
        DeathLinkOption::LostSouls,
        2,
        true,
        true,
        0,
        false,
        40_000,
    );
    assert!(!r.sent);
    assert_eq!(deaths, 1);
    assert!(matches!(r.log, Some(LogEntry::AmnestyRemaining { remaining: 1 })));

    // With the marker still standing, the death does not count.
    let mut last2: u64 = 0;
    let mut deaths2: u8 = 0;
    let r2 = send_death_link(
        &mut last2,
        &mut deaths2,
        DeathLinkOption::LostSouls,
        2,
        true,
        true,
        0,
        true,
        40_000,
    );
    assert!(!r2.sent);
    assert_eq!(deaths2, 0);
    assert!(r2.log.is_none());
    // The transition timestamp still moves, so the fresh death cannot
    // bounce back as an inbound kill.
    assert_eq!(last2, 40_000);
}

#[test]
fn delivery_grants_smallest_pending_index() {
    let mut last_item: u64 = 0;
    let mut save = SaveData::new();
    save.items_granted = 1;
    let received = vec![
        ReceivedItem { sequence_index: 0, item_identity: 42 },
        ReceivedItem { sequence_index: 2, item_identity: 43 },
        ReceivedItem { sequence_index: 1, item_identity: 42 },
    ];
    let r = process_incoming_items(
        &mut last_item,
        &mut save,
        &received,
        &slot_data(),
        true,
        true,
        true,
        5_000,
    );
    // Index 1 is the smallest at or past the cursor; id 42 maps to the
    // goods item with quantity 3.
    match r {
        Ok(Some(Action::GrantItem { id, quantity })) => {
            assert_eq!(id, goods(100));
            assert_eq!(quantity, 3);
        },
        other => panic!("unexpected outcome: {:?}", other),
    }
    assert_eq!(save.items_granted, 2);
    assert_eq!(last_item, 5_000);
}

#[test]
fn delivery_rate_limited() {
    // A second grant within one time unit of the first must not happen.
    let mut last_item: u64 = 0;
    let mut save = SaveData::new();
    let received = vec![
        ReceivedItem { sequence_index: 0, item_identity: 42 },
        ReceivedItem { sequence_index: 1, item_identity: 42 },
    ];
    let slot = slot_data();
    let r1 = process_incoming_items(
        &mut last_item, &mut save, &received, &slot, true, true, true, 1_000,
    );
    assert!(matches!(r1, Ok(Some(_))));
    assert_eq!(save.items_granted, 1);

    let r2 = process_incoming_items(
        &mut last_item, &mut save, &received, &slot, true, true, true, 1_500,
    );
    assert!(matches!(r2, Ok(None)));
    assert_eq!(save.items_granted, 1);

    let r3 = process_incoming_items(
        &mut last_item, &mut save, &received, &slot, true, true, true, 2_000,
    );
    assert!(matches!(r3, Ok(Some(_))));
    assert_eq!(save.items_granted, 2);
}

#[test]
fn delivery_special_item_becomes_gesture() {
    let mut last_item: u64 = 0;
    let mut save = SaveData::new();
    let received = vec![ReceivedItem { sequence_index: 0, item_identity: 43 }];
    let r = process_incoming_items(
        &mut last_item,
        &mut save,
        &received,
        &slot_data(),
        true,
        true,
        true,
        2_000,
    );
    match r {
        Ok(Some(Action::GrantGesture { gesture_id, item_id })) => {
            assert_eq!(gesture_id, 29);
            assert_eq!(item_id, goods(9030));
        },
        other => panic!("unexpected outcome: {:?}", other),
    }
}

#[test]
fn delivery_unmapped_item_is_fatal() {
    let mut last_item: u64 = 0;
    let mut save = SaveData::new();
    let received = vec![ReceivedItem { sequence_index: 0, item_identity: 999 }];
    let r = process_incoming_items(
        &mut last_item,
        &mut save,
        &received,
        &slot_data(),
        true,
        true,
        true,
        2_000,
    );
    assert!(matches!(r, Err(FatalError::UnmappedItem { server_item_id: 999 })));
    // Nothing was granted and nothing advanced.
    assert_eq!(save.items_granted, 0);
    assert_eq!(last_item, 0);
}

#[test]
fn delivery_waits_for_game_state() {
    let mut last_item: u64 = 0;
    let mut save = SaveData::new();
    let received = vec![ReceivedItem { sequence_index: 0, item_identity: 42 }];
    let r = process_incoming_items(
        &mut last_item,
        &mut save,
        &received,
        &slot_data(),
        true,
        false,
        true,
        2_000,
    );
    assert!(matches!(r, Ok(None)));
    assert_eq!(save.items_granted, 0);
}

fn rows() -> Vec<EquipRow> {
    vec![
        EquipRow {
            item_id: goods(1),
            location_id: 1001,
            reward: Some(ItemReward { id: goods(500), quantity: 2 }),
            is_gesture_item: false,
            basic_price: 10,
            sell_value: 5,
        },
        EquipRow {
            item_id: goods(2),
            location_id: 1002,
            reward: None,
            is_gesture_item: false,
            basic_price: 7,
            sell_value: 3,
        },
        EquipRow {
            item_id: goods(3),
            location_id: 1003,
            reward: None,
            is_gesture_item: true,
            basic_price: 0,
            sell_value: 0,
        },
    ]
}

fn marker(param_id: u32) -> InventoryEntry {
    InventoryEntry { item_id: goods(param_id), is_placeholder: true }
}

fn plain(param_id: u32) -> InventoryEntry {
    InventoryEntry { item_id: goods(param_id), is_placeholder: false }
}

#[test]
fn inventory_scan_converts_markers_and_reports() {
    let mut save = SaveData::new();
    let mut sent: usize = 0;
    let inventory = vec![marker(1), plain(700), marker(2), marker(3)];
    let r = process_inventory_items(&mut save, &mut sent, &inventory, &rows(), true, true)
        .expect("scan should succeed");

    // Marker 1: grant its real reward and remove it; marker 2: foreign,
    // only remove; marker 3: gesture, acquire and remove. Then one report
    // of all three locations.
    assert_eq!(r.actions.len(), 6);
    assert!(matches!(
        r.actions[0],
        Action::GrantItemDirectly { id: LocalItemId { category: ItemCategory::Goods, param_id: 500 }, quantity: 2 }
    ));
    assert!(matches!(r.actions[1], Action::RemoveItem { quantity: 1, .. }));
    assert!(matches!(r.actions[2], Action::RemoveItem { quantity: 1, .. }));
    assert!(matches!(r.actions[3], Action::AcquireGesture { gesture_id: 29 }));
    assert!(matches!(r.actions[4], Action::RemoveItem { quantity: 1, .. }));
    match &r.actions[5] {
        Action::ReportChecked { locations } => assert_eq!(locations, &vec![1001, 1002, 1003]),
        other => panic!("expected a report, got {:?}", other),
    }

    // The foreign marker logged its diagnostic data.
    assert_eq!(r.logs.len(), 1);
    assert!(matches!(
        r.logs[0],
        LogEntry::ForeignItem { location_id: 1002, basic_price: 7, sell_value: 3 }
    ));

    // Report cursor equals the set size right after a report.
    assert_eq!(save.locations, vec![1001, 1002, 1003]);
    assert_eq!(sent, 3);
}

#[test]
fn inventory_scan_is_idempotent_on_locations() {
    let mut save = SaveData::new();
    let mut sent: usize = 0;
    let inventory = vec![marker(1), marker(1)];
    let r = process_inventory_items(&mut save, &mut sent, &inventory, &rows(), true, true)
        .expect("scan should succeed");
    // The location is recorded once; both copies of the marker are still
    // converted and removed.
    assert_eq!(save.locations, vec![1001]);
    assert_eq!(sent, 1);
    assert_eq!(r.actions.iter().filter(|a| matches!(a, Action::RemoveItem { .. })).count(), 2);
}

#[test]
fn inventory_scan_without_growth_sends_no_report() {
    let mut save = SaveData::new();
    save.locations = vec![1001];
    let mut sent: usize = 1;
    let inventory = vec![marker(1)];
    let r = process_inventory_items(&mut save, &mut sent, &inventory, &rows(), true, true)
        .expect("scan should succeed");
    assert!(!r.actions.iter().any(|a| matches!(a, Action::ReportChecked { .. })));
    assert_eq!(sent, 1);
}

#[test]
fn inventory_marker_without_row_is_fatal() {
    let mut save = SaveData::new();
    let mut sent: usize = 0;
    let inventory = vec![marker(77)];
    let r = process_inventory_items(&mut save, &mut sent, &inventory, &rows(), true, true);
    assert!(matches!(
        r,
        Err(FatalError::MissingItemRow { item_id: LocalItemId { category: ItemCategory::Goods, param_id: 77 } })
    ));
    assert!(save.locations.is_empty());
    assert_eq!(sent, 0);
}

#[test]
fn shop_hints_deduplicate_per_session() {
    let mut hinted: Vec<LocalItemId> = Vec::new();
    let shop = vec![marker(1), plain(700), marker(2)];
    let r = send_shop_hints(&mut hinted, &shop, &rows(), true, true, true)
        .expect("hints should succeed");
    match r {
        Some(Action::RequestHints { locations }) => assert_eq!(locations, vec![1001, 1002]),
        other => panic!("expected a hint request, got {:?}", other),
    }
    assert_eq!(hinted, vec![goods(1), goods(2)]);

    // A second look at the same shop has nothing new to hint.
    let r2 = send_shop_hints(&mut hinted, &shop, &rows(), true, true, true)
        .expect("hints should succeed");
    assert!(r2.is_none());
    assert_eq!(hinted, vec![goods(1), goods(2)]);
}

#[test]
fn shop_hints_without_shop_do_nothing() {
    let mut hinted: Vec<LocalItemId> = Vec::new();
    let shop = vec![marker(1)];
    let r = send_shop_hints(&mut hinted, &shop, &rows(), false, true, true)
        .expect("no shop open");
    assert!(r.is_none());
    assert!(hinted.is_empty());
}

#[test]
fn shop_hint_without_row_is_fatal() {
    let mut hinted: Vec<LocalItemId> = Vec::new();
    let shop = vec![marker(88)];
    let r = send_shop_hints(&mut hinted, &shop, &rows(), true, true, true);
    assert!(matches!(r, Err(FatalError::MissingItemRow { .. })));
    assert!(hinted.is_empty());
}

#[test]
fn goal_reported_exactly_once() {
    let mut sent = false;
    let flags = vec![true, true];
    assert!(handle_goal(&mut sent, &flags, true, true));
    assert!(sent);
    // Conditions still hold on later ticks, but no second report goes out.
    assert!(!handle_goal(&mut sent, &flags, true, true));
    assert!(!handle_goal(&mut sent, &flags, true, true));
}

#[test]
fn goal_waits_for_all_conditions() {
    let mut sent = false;
    assert!(!handle_goal(&mut sent, &vec![true, false], true, true));
    assert!(!sent);
    assert!(!handle_goal(&mut sent, &vec![true, true], false, true));
    assert!(!sent);
    // An empty condition set counts as complete.
    assert!(handle_goal(&mut sent, &Vec::new(), true, true));
}

#[test]
fn report_cursor_resets_per_session_and_reissues() {
    // A crashed session may have lost its report: the cursor is not
    // persisted, so a fresh session re-reports the full location set.
    let mut save = SaveData::new();
    let mut sent: usize = 0;
    let inventory = vec![marker(1), marker(2)];
    let first = process_inventory_items(&mut save, &mut sent, &inventory, &rows(), true, true)
        .expect("scan should succeed");
    assert!(matches!(first.actions.last(), Some(Action::ReportChecked { .. })));
    assert_eq!(sent, 2);

    // Same save, new session: the cursor starts at zero again and the
    // whole set goes out even with nothing new in the inventory.
    let mut sent2: usize = 0;
    let second = process_inventory_items(&mut save, &mut sent2, &Vec::new(), &rows(), true, true)
        .expect("scan should succeed");
    match second.actions.last() {
        Some(Action::ReportChecked { locations }) => assert_eq!(locations, &vec![1001, 1002]),
        other => panic!("expected a report, got {:?}", other),
    }
    assert_eq!(sent2, 2);
}

#[test]
fn delivery_cursor_survives_restart() {
    // The delivery cursor is persisted: a new session resumes where the
    // old one left off and never grants an index below it twice.
    let received = vec![
        ReceivedItem { sequence_index: 0, item_identity: 42 },
        ReceivedItem { sequence_index: 1, item_identity: 42 },
    ];
    let slot = slot_data();
    let mut save = SaveData::new();

    let mut last_item: u64 = 0;
    let r1 = process_incoming_items(
        &mut last_item, &mut save, &received, &slot, true, true, true, 1_000,
    );
    assert!(matches!(r1, Ok(Some(_))));
    assert_eq!(save.items_granted, 1);

    // "Restart": a fresh rate-limit timer, the same save.
    let mut last_item2: u64 = 0;
    let r2 = process_incoming_items(
        &mut last_item2, &mut save, &received, &slot, true, true, true, 1_000,
    );
    match r2 {
        Ok(Some(Action::GrantItem { .. })) => {},
        other => panic!("unexpected outcome: {:?}", other),
    }
    assert_eq!(save.items_granted, 2);

    let r3 = process_incoming_items(
        &mut last_item2, &mut save, &received, &slot, true, true, true, 5_000,
    );
    assert!(matches!(r3, Ok(None)));
    assert_eq!(save.items_granted, 2);
}
