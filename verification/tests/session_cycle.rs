//! The update cycle around the sub-protocols: event classification, the
//! sticky fatal slot, load-grace gating, identity checks, and full ticks.

use archipelago_core::actions::Action;
use archipelago_core::config::Config;
use archipelago_core::engine::{ConnectionInfo, Core};
use archipelago_core::errors::{FatalError, SeedConflict};
use archipelago_core::events::{ConnectionState, InboundEvent};
use archipelago_core::identity::{
    adopt_seed, check_dlc_error, check_seed_conflict, check_version_conflict,
};
use archipelago_core::log_buffer::{LogBuffer, LogEntry};
use archipelago_core::save_data::SaveData;
use archipelago_core::session::{reconnect_log, Session};
use archipelago_core::slot_data::{DeathLinkOption, ItemCategory, LocalItemId, Options, SlotData};
use archipelago_core::snapshot::{DlcStatus, GameSnapshot, ReceivedItem};

fn empty_snapshot() -> GameSnapshot {
    GameSnapshot {
        map_loaded: false,
        player_loaded: false,
        inventory_loaded: false,
        flags_loaded: false,
        inventory: Vec::new(),
        equip_rows: Vec::new(),
        dlc: None,
        player_hp: 100,
        bloodstain_exists: false,
        shop_open: false,
        shop_items: Vec::new(),
        goal_flags: Vec::new(),
    }
}

fn live_snapshot() -> GameSnapshot {
    // The flag subsystem stays unavailable here so the goal tracker is
    // quiet; the goal protocol has tests of its own.
    GameSnapshot {
        map_loaded: true,
        player_loaded: true,
        inventory_loaded: true,
        ..empty_snapshot()
    }
}

fn conn_info() -> ConnectionInfo {
    ConnectionInfo {
        seed_name: String::from("seed-a"),
        player_name: String::from("alice"),
        slot: SlotData {
            ap_ids_to_item_ids: vec![(
                42,
                LocalItemId { category: ItemCategory::Goods, param_id: 100 },
            )],
            item_counts: Vec::new(),
            options: Options {
                death_link: DeathLinkOption::Off,
                death_link_amnesty: 1,
                enable_dlc: false,
            },
            goal: Vec::new(),
        },
        received: Vec::new(),
    }
}

#[test]
fn log_buffer_evicts_oldest_when_full() {
    let mut logs = LogBuffer::new();
    for i in 0..201u32 {
        logs.push(LogEntry::EventFlagRead { flag: i, value: false });
    }
    assert_eq!(logs.len(), 200);
    // The very first entry was evicted; the second is now oldest.
    assert!(matches!(logs.entries()[0], LogEntry::EventFlagRead { flag: 1, .. }));
    assert!(matches!(logs.entries()[199], LogEntry::EventFlagRead { flag: 200, .. }));
}

#[test]
fn always_phase_queues_deferred_only_while_connected() {
    let mut session = Session::new();
    let events = vec![
        InboundEvent::PeerDeathLink { source_name: String::from("bob"), timestamp: 7 },
    ];
    session.update_always(ConnectionState::Connecting, events);
    assert_eq!(session.pending_events.len(), 0);

    let events2 = vec![
        InboundEvent::PeerDeathLink { source_name: String::from("bob"), timestamp: 8 },
    ];
    session.update_always(ConnectionState::Connected, events2);
    assert_eq!(session.pending_events.len(), 1);
}

#[test]
fn always_phase_connected_event_counts_as_connected() {
    // A handshake finishing mid-batch lets the same batch's deferred
    // events through.
    let mut session = Session::new();
    let events = vec![
        InboundEvent::Connected,
        InboundEvent::PeerDeathLink { source_name: String::from("bob"), timestamp: 7 },
    ];
    session.update_always(ConnectionState::Connecting, events);
    assert_eq!(session.pending_events.len(), 1);
}

#[test]
fn always_phase_fatal_error_clears_queue_and_logs() {
    let mut session = Session::new();
    session.update_always(
        ConnectionState::Connected,
        vec![InboundEvent::PeerDeathLink { source_name: String::from("bob"), timestamp: 7 }],
    );
    assert_eq!(session.pending_events.len(), 1);

    session.update_always(
        ConnectionState::Connected,
        vec![InboundEvent::ConnectionError {
            fatal: true,
            refused: false,
            message: String::from("gone"),
        }],
    );
    assert_eq!(session.pending_events.len(), 0);
    assert_eq!(session.logs.len(), 1);
    // The connection had been established, so the wording reports a
    // failure rather than a refused or never-established connection.
    match &session.logs.entries()[0] {
        LogEntry::ConnectionFailed { message } => assert_eq!(message, "gone"),
        other => panic!("unexpected log entry: {:?}", other),
    }
}

#[test]
fn always_phase_logs_refused_and_messages() {
    let mut session = Session::new();
    session.update_always(
        ConnectionState::Connecting,
        vec![
            InboundEvent::ConnectionError {
                fatal: true,
                refused: true,
                message: String::from("refused"),
            },
            InboundEvent::LogMessage { message: String::from("welcome") },
            InboundEvent::ConnectionError {
                fatal: false,
                refused: false,
                message: String::from("blip"),
            },
        ],
    );
    let entries = session.logs.entries();
    assert_eq!(entries.len(), 3);
    assert!(matches!(entries[0], LogEntry::ConnectionRefused));
    assert!(matches!(&entries[1], LogEntry::ServerMessage { message } if message == "welcome"));
    assert!(matches!(&entries[2], LogEntry::TransportError { message } if message == "blip"));
}

#[test]
fn fatal_slot_is_taken_once_and_rearmed() {
    let mut session = Session::new();
    session.fatal = Some(FatalError::UnmappedItem { server_item_id: 9 });
    let taken = session.take_error();
    assert!(matches!(taken, Some(FatalError::UnmappedItem { server_item_id: 9 })));
    // The slot is re-armed with a placeholder: the live phase stays
    // disabled, but the original error is gone.
    let second = session.take_error();
    assert!(matches!(second, Some(FatalError::Displaced)));
}

#[test]
fn seed_conflict_client_vs_config() {
    let client = String::from("A");
    let config = String::from("B");
    let r = check_seed_conflict(Some(&client), None, &config);
    match r {
        Err(SeedConflict::ClientVsConfig { client_seed, config_seed }) => {
            assert_eq!(client_seed, "A");
            assert_eq!(config_seed, "B");
        },
        other => panic!("unexpected: {:?}", other),
    }
}

#[test]
fn seed_conflict_client_vs_save() {
    // Client-reported seed "A", local save seed "B": fatal.
    let client = String::from("A");
    let save = String::from("B");
    let config = String::from("A");
    let r = check_seed_conflict(Some(&client), Some(&save), &config);
    assert!(matches!(r, Err(SeedConflict::ClientVsSave { .. })));
}

#[test]
fn seed_all_equal_is_fine() {
    let client = String::from("A");
    let save = String::from("A");
    let config = String::from("A");
    assert!(check_seed_conflict(Some(&client), Some(&save), &config).is_ok());
}

#[test]
fn seed_conflict_save_vs_config_without_connection() {
    // No active connection, save seed "B" against configured seed "C":
    // fatal.
    let save = String::from("B");
    let config = String::from("C");
    let r = check_seed_conflict(None, Some(&save), &config);
    match r {
        Err(SeedConflict::SaveVsConfig { save_seed, config_seed }) => {
            assert_eq!(save_seed, "B");
            assert_eq!(config_seed, "C");
        },
        other => panic!("unexpected: {:?}", other),
    }
}

#[test]
fn seed_adopted_on_first_write_only() {
    let config = String::from("A");
    let mut seed: Option<String> = None;
    adopt_seed(&mut seed, &config);
    assert_eq!(seed.as_deref(), Some("A"));

    let other = String::from("Z");
    adopt_seed(&mut seed, &other);
    assert_eq!(seed.as_deref(), Some("A"));
}

#[test]
fn version_conflict_detected() {
    let config = String::from("3.1.0");
    let build = String::from("4.0.0");
    let r = check_version_conflict(Some(&config), &build);
    match r {
        Err(FatalError::VersionConflict { config_version, build_version }) => {
            assert_eq!(config_version, "3.1.0");
            assert_eq!(build_version, "4.0.0");
        },
        other => panic!("unexpected: {:?}", other),
    }
    assert!(check_version_conflict(Some(&build), &build).is_ok());
    assert!(check_version_conflict(None, &build).is_ok());
}

#[test]
fn dlc_error_only_in_loaded_game() {
    let missing = Some(DlcStatus { dlc1_installed: true, dlc2_installed: false });
    // Before the player is in a game the report is unreliable: no error.
    assert!(check_dlc_error(missing, false, true, true).is_ok());
    assert!(check_dlc_error(missing, true, true, false).is_ok());
    let r = check_dlc_error(missing, true, true, true);
    assert!(matches!(
        r,
        Err(FatalError::MissingDlc { dlc1_installed: true, dlc2_installed: false })
    ));
}

#[test]
fn load_grace_gates_live_phase() {
    // Grace 10 s: live-phase work must not run before 10 s in-game, and
    // must run at and after.
    let mut core = Core::new(0);
    let mut save = Some(SaveData::new());
    let conn = conn_info();
    let snap = live_snapshot();
    let seed = String::from("seed-a");
    let build = String::from("1.0.0");

    for now in [0u64, 1_000, 9_999] {
        let _ = core.update(
            &mut save,
            ConnectionState::Connected,
            Some(&conn),
            Vec::new(),
            &snap,
            &seed,
            None,
            &build,
            false,
            now,
        );
        // The live phase has not run: the save has not adopted a seed yet.
        assert!(save.as_ref().unwrap().seed.is_none(), "live ran early at {}", now);
    }

    let _ = core.update(
        &mut save,
        ConnectionState::Connected,
        Some(&conn),
        Vec::new(),
        &snap,
        &seed,
        None,
        &build,
        false,
        10_000,
    );
    assert_eq!(save.as_ref().unwrap().seed.as_deref(), Some("seed-a"));
}

#[test]
fn main_menu_resets_load_timer() {
    let mut core = Core::new(0);
    let mut save = Some(SaveData::new());
    let conn = conn_info();
    let snap = live_snapshot();
    let seed = String::from("seed-a");
    let build = String::from("1.0.0");

    // In game from 0, back to the menu at 6 s, in game again at 7 s: the
    // grace restarts, so 12 s is still too early but 17 s is not.
    let mut run = |core: &mut Core, save: &mut Option<SaveData>, is_menu: bool, now: u64| {
        let _ = core.update(
            save,
            ConnectionState::Connected,
            Some(&conn),
            Vec::new(),
            &snap,
            &seed,
            None,
            &build,
            is_menu,
            now,
        );
    };
    run(&mut core, &mut save, false, 0);
    // On the main menu there is no loaded save to reconcile against.
    let mut no_save: Option<SaveData> = None;
    run(&mut core, &mut no_save, true, 6_000);
    run(&mut core, &mut save, false, 7_000);
    run(&mut core, &mut save, false, 12_000);
    assert!(save.as_ref().unwrap().seed.is_none());
    run(&mut core, &mut save, false, 17_000);
    assert_eq!(save.as_ref().unwrap().seed.as_deref(), Some("seed-a"));
}

#[test]
fn full_tick_delivers_item_and_sticks_on_conflict() {
    let mut core = Core::new(0);
    let mut save = Some(SaveData::new());
    let mut conn = conn_info();
    conn.received.push(ReceivedItem { sequence_index: 0, item_identity: 42 });
    let snap = live_snapshot();
    let seed = String::from("seed-a");
    let build = String::from("1.0.0");

    // Past the load grace and the item interval: the tick grants the
    // pending item.
    let run_at = |core: &mut Core, save: &mut Option<SaveData>, now: u64| {
        core.update(
            save,
            ConnectionState::Connected,
            Some(&conn),
            Vec::new(),
            &snap,
            &seed,
            None,
            &build,
            false,
            now,
        )
    };
    let a0 = run_at(&mut core, &mut save, 0);
    assert!(a0.is_empty());
    let a1 = run_at(&mut core, &mut save, 10_000);
    assert_eq!(a1.len(), 1);
    assert!(matches!(a1[0], Action::GrantItem { quantity: 1, .. }));
    assert_eq!(save.as_ref().unwrap().items_granted, 1);

    // A later tick with nothing pending does nothing.
    let a2 = run_at(&mut core, &mut save, 20_000);
    assert!(a2.is_empty());

    // A mismatched seed is fatal and sticky: the live phase stops for
    // good.
    let bad_seed = String::from("other-seed");
    let a3 = core.update(
        &mut save,
        ConnectionState::Connected,
        Some(&conn),
        Vec::new(),
        &snap,
        &bad_seed,
        None,
        &build,
        false,
        30_000,
    );
    assert!(a3.is_empty());
    assert!(core.session.fatal.is_some());
    let a4 = core.update(
        &mut save,
        ConnectionState::Connected,
        Some(&conn),
        Vec::new(),
        &snap,
        &seed,
        None,
        &build,
        false,
        40_000,
    );
    assert!(a4.is_empty());
}

#[test]
fn tick_without_persistence_skips_live_phase() {
    let mut core = Core::new(0);
    let mut save: Option<SaveData> = None;
    let conn = conn_info();
    let snap = live_snapshot();
    let seed = String::from("seed-a");
    let build = String::from("1.0.0");
    let actions = core.update(
        &mut save,
        ConnectionState::Connected,
        Some(&conn),
        Vec::new(),
        &snap,
        &seed,
        None,
        &build,
        false,
        20_000,
    );
    assert!(actions.is_empty());
    assert!(core.session.fatal.is_none());
}

#[test]
fn inbound_death_kills_during_tick() {
    let mut core = Core::new(0);
    let mut save = Some(SaveData::new());
    let mut conn = conn_info();
    conn.slot.options.death_link = DeathLinkOption::AnyDeath;
    let snap = live_snapshot();
    let seed = String::from("seed-a");
    let build = String::from("1.0.0");

    let events = vec![InboundEvent::PeerDeathLink {
        source_name: String::from("bob"),
        timestamp: 50_000,
    }];
    // First tick arms the load timer; the peer death stays queued.
    let a0 = core.update(
        &mut save,
        ConnectionState::Connected,
        Some(&conn),
        events,
        &snap,
        &seed,
        None,
        &build,
        false,
        40_000,
    );
    assert!(a0.is_empty());
    // Once the grace passes, the queued death is processed and kills.
    let a1 = core.update(
        &mut save,
        ConnectionState::Connected,
        Some(&conn),
        Vec::new(),
        &snap,
        &seed,
        None,
        &build,
        false,
        50_000,
    );
    assert!(a1.iter().any(|a| matches!(a, Action::KillPlayer)));
    assert_eq!(core.last_death_link, 50_000);
}

#[test]
fn reconnect_announced_only_when_down() {
    assert!(matches!(
        reconnect_log(ConnectionState::Disconnected),
        Some(LogEntry::Reconnecting)
    ));
    assert!(reconnect_log(ConnectionState::Connecting).is_none());
    assert!(reconnect_log(ConnectionState::Connected).is_none());
}

#[test]
fn config_updates_url_only() {
    let mut config = Config {
        url: String::from("wss://old.example"),
        slot_name: String::from("alice"),
        password: None,
        seed: String::from("seed-a"),
        client_version: Some(String::from("1.0.0")),
    };
    config.set_url(String::from("wss://new.example"));
    assert_eq!(config.url(), "wss://new.example");
    assert_eq!(config.slot(), "alice");
    assert_eq!(config.seed(), "seed-a");
    assert!(config.password().is_none());
    assert_eq!(config.client_version().map(|v| v.as_str()), Some("1.0.0"));
}
