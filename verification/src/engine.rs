//! The per-tick update cycle: the always-phase bookkeeping, the gates in
//! front of the live phase, and the live phase that runs the sub-protocols
//! in order — death link receive and send, item delivery, location checks,
//! shop hints, and the goal report.

use vstd::prelude::*;
use crate::actions::Action;
use crate::deathlink::{
    spec_death_counted, spec_death_counter_ok, spec_death_link_accepted, spec_death_send_active,
    receive_death_link, send_death_link,
};
use crate::delivery::{
    spec_delivery_ready, spec_grant_action, spec_has_pending, spec_item_quantity,
    spec_next_pending, process_incoming_items,
};
use crate::errors::FatalError;
use crate::events::{ConnectionState, InboundEvent};
use crate::goal::{spec_goal_fires, handle_goal};
use crate::hints::{
    hinted_unique, spec_hint_locs, spec_hint_unmapped_at, spec_hinted_after,
    spec_hints_all_mapped, send_shop_hints,
};
use crate::identity::{
    seeds_consistent, spec_dlc_missing, adopt_seed, check_dlc_error, check_seed_conflict,
    check_version_conflict,
};
use crate::locations::{
    spec_all_mapped, spec_first_unmapped, spec_locs_after, spec_marker_actions, spec_marker_logs,
    process_inventory_items,
};
use crate::log_buffer::{spec_log_push, spec_push_all, LogEntry};
use crate::save_data::SaveData;
use crate::session::{
    spec_always_logs, spec_any_fatal, spec_connected_after, spec_deferred, Session,
    LOAD_GRACE_MS,
};
use crate::slot_data::{spec_assoc_get, LocalItemId, SlotData};
use crate::snapshot::{GameSnapshot, ReceivedItem};

verus! {

/// What the engine reads from the connection when one exists, as plain
/// values the host extracts each tick.
pub struct ConnectionInfo {
    /// The seed identity the server reports for this session.
    pub seed_name: String,
    /// The local player's name on the server.
    pub player_name: String,
    /// The slot data the server supplied.
    pub slot: SlotData,
    /// Every item assigned to this player so far, with sequence indices.
    pub received: Vec<ReceivedItem>,
}

/// What one live phase produced: the side effects to perform, and the fatal
/// error that ended it early, if any. Actions emitted before the error still
/// stand and are to be performed.
pub struct LiveOutcome {
    pub actions: Vec<Action>,
    pub error: Option<FatalError>,
}

/// Which fatal condition ended the live phase, if any. The sub-protocols run
/// in a fixed order, so at most one is hit per tick.
#[derive(PartialEq, Eq, Structural)]
pub enum LiveFault {
    Clear,
    Seed,
    Dlc,
    UnmappedItem,
    InventoryRow,
    HintRow,
}

/// The last-transition timestamp after processing the deferred events in
/// order: every accepted peer death moves it to `now`.
pub open spec fn spec_receive_last(
    last: u64,
    evs: Seq<InboundEvent>,
    mode: crate::slot_data::DeathLinkOption,
    local: Seq<char>,
    player_loaded: bool,
    now: u64,
) -> u64
    decreases evs.len(),
{
    if evs.len() == 0 {
        last
    } else {
        let l2 = match evs[0] {
            InboundEvent::PeerDeathLink { source_name, timestamp } => if spec_death_link_accepted(
                mode,
                last,
                Some(local),
                source_name@,
                timestamp,
                player_loaded,
                now,
            ) {
                now
            } else {
                last
            },
            _ => last,
        };
        spec_receive_last(l2, evs.drop_first(), mode, local, player_loaded, now)
    }
}

/// The kill actions produced by the deferred events, one per accepted peer
/// death.
pub open spec fn spec_receive_kills(
    last: u64,
    evs: Seq<InboundEvent>,
    mode: crate::slot_data::DeathLinkOption,
    local: Seq<char>,
    player_loaded: bool,
    now: u64,
) -> Seq<Action>
    decreases evs.len(),
{
    if evs.len() == 0 {
        Seq::<Action>::empty()
    } else {
        let accepted = match evs[0] {
            InboundEvent::PeerDeathLink { source_name, timestamp } => spec_death_link_accepted(
                mode,
                last,
                Some(local),
                source_name@,
                timestamp,
                player_loaded,
                now,
            ),
            _ => false,
        };
        let l2 = if accepted {
            now
        } else {
            last
        };
        let head: Seq<Action> = if accepted {
            seq![Action::KillPlayer]
        } else {
            Seq::<Action>::empty()
        };
        head + spec_receive_kills(l2, evs.drop_first(), mode, local, player_loaded, now)
    }
}

/// An optional log push.
pub open spec fn spec_push_opt(log: Seq<LogEntry>, entry: Option<LogEntry>) -> Seq<LogEntry> {
    match entry {
        Some(e) => spec_log_push(log, e),
        None => log,
    }
}

/// Processes deferred events against the death-link state: every accepted
/// peer death kills the player and moves the last-transition timestamp.
fn receive_events(
    last_transition: &mut u64,
    events: Vec<InboundEvent>,
    mode: crate::slot_data::DeathLinkOption,
    player_name: &String,
    player_loaded: bool,
    now: u64,
) -> (kills: Vec<Action>)
    requires
        *old(last_transition) <= now,
    ensures
        *final(last_transition) == spec_receive_last(
            *old(last_transition),
            events@,
            mode,
            player_name@,
            player_loaded,
            now,
        ),
        kills@ == spec_receive_kills(
            *old(last_transition),
            events@,
            mode,
            player_name@,
            player_loaded,
            now,
        ),
        *final(last_transition) <= now,
{
    let ghost events0 = events@;
    let ghost last0 = *last_transition;
    let mut events = events;
    let mut kills: Vec<Action> = Vec::new();
    let ghost mut i: int = 0;
    proof {
        assert(events0.skip(0) =~= events0);
        assert(Seq::<Action>::empty() + spec_receive_kills(
            last0,
            events0,
            mode,
            player_name@,
            player_loaded,
            now,
        ) =~= spec_receive_kills(last0, events0, mode, player_name@, player_loaded, now));
    }
    #[verifier::loop_isolation(false)]
    while events.len() > 0
        invariant
            0 <= i <= events0.len(),
            events@ =~= events0.skip(i),
            *last_transition <= now,
            spec_receive_last(last0, events0, mode, player_name@, player_loaded, now)
                == spec_receive_last(
                *last_transition,
                events0.skip(i),
                mode,
                player_name@,
                player_loaded,
                now,
            ),
            spec_receive_kills(last0, events0, mode, player_name@, player_loaded, now) == kills@
                + spec_receive_kills(
                *last_transition,
                events0.skip(i),
                mode,
                player_name@,
                player_loaded,
                now,
            ),
        decreases events@.len(),
    {
        let e = events.remove(0);
        proof {
            let rest = events0.skip(i);
            assert(e == rest[0]);
            assert(rest[0] == events0[i]);
            assert(events@ =~= rest.drop_first());
            assert(rest.drop_first() =~= events0.skip(i + 1));
        }
        let ghost kills_before = kills@;
        if let InboundEvent::PeerDeathLink { source_name, timestamp } = e {
            let kill = receive_death_link(
                last_transition,
                mode,
                Some(player_name),
                &source_name,
                timestamp,
                player_loaded,
                now,
            );
            if kill {
                kills.push(Action::KillPlayer);
                proof {
                    assert(kills@ =~= kills_before + seq![Action::KillPlayer]);
                }
            }
        }
        proof {
            assert(spec_receive_kills(last0, events0, mode, player_name@, player_loaded, now)
                =~= kills@ + spec_receive_kills(
                *last_transition,
                events0.skip(i + 1),
                mode,
                player_name@,
                player_loaded,
                now,
            ));
            i = i + 1;
        }
    }
    proof {
        assert(events0.skip(i).len() == 0);
        assert(kills@ + Seq::<Action>::empty() =~= kills@);
    }
    kills
}

/// Everything one live phase decides, as a function of its inputs. The
/// contracts of [`Core::update_live`] and [`Core::update`] state their
/// effects in terms of this model.
pub struct LiveModel {
    /// Whether the seed identities agree.
    pub seed_ok: bool,
    /// Whether the save adopts the configured seed this tick.
    pub seed_adopted: bool,
    /// Whether the expansion check fails.
    pub dlc_bad: bool,
    /// Whether the tick got past the identity and expansion checks; only
    /// then are events taken and the sub-protocols run.
    pub stage_live: bool,
    /// The kill actions from inbound peer deaths.
    pub kills: Seq<Action>,
    /// Whether a death link is transmitted this tick.
    pub dl_sent: bool,
    /// The death-link log entry, if any.
    pub dl_log: Option<LogEntry>,
    /// The last-transition timestamp after the tick.
    pub last_dl_final: u64,
    /// The amnesty counter after the tick.
    pub deaths_final: u8,
    /// The grant produced by item delivery, if any.
    pub grant: Option<Action>,
    /// The server item id that has no local mapping, when delivery fails.
    pub delivery_err: Option<i64>,
    /// The delivery cursor after the tick.
    pub cursor_final: u64,
    /// The rate-limit timer after the tick.
    pub last_item_final: u64,
    /// Whether the inventory scan ran and hit a marker without a data row.
    pub inv_err: bool,
    /// The confirmed locations after the tick.
    pub locs_final: Seq<i64>,
    /// Whether a location report goes out this tick.
    pub report: bool,
    /// The report cursor after the tick.
    pub sent_final: int,
    /// The grant-and-remove actions of the inventory scan.
    pub inv_actions: Seq<Action>,
    /// The diagnostic log entries of the inventory scan.
    pub inv_logs: Seq<LogEntry>,
    /// Whether the shop scan ran and hit a marker without a data row.
    pub hint_err: bool,
    /// The hinted set after the tick.
    pub hinted_final: Seq<LocalItemId>,
    /// The locations of one hint request, when one goes out.
    pub hint_locs: Seq<i64>,
    /// Whether a hint request goes out this tick.
    pub hint_send: bool,
    /// Whether the goal report goes out this tick.
    pub goal_fired: bool,
    /// The goal-sent flag after the tick.
    pub sent_goal_final: bool,
    /// The actions before any location report, hint request, or goal
    /// report: the kills, then the death link, then the delivery grant,
    /// then the inventory scan's grants and removals.
    pub pre_actions: Seq<Action>,
    /// Which fatal condition ended the tick, if any.
    pub err: LiveFault,
}

/// The live-phase decision model: runs the sub-protocols in order over the
/// given inputs, stopping at the first fatal condition.
pub open spec fn spec_live_model(
    last_item0: u64,
    sent0: int,
    hinted0: Seq<LocalItemId>,
    last_dl0: u64,
    sent_goal0: bool,
    save0: SaveData,
    conn: ConnectionInfo,
    snap: GameSnapshot,
    config_seed: Seq<char>,
    events: Seq<InboundEvent>,
    now: u64,
) -> LiveModel {
    let opts = conn.slot.options;
    let mode = opts.death_link;
    let amnesty = opts.death_link_amnesty;
    let seed_ok = seeds_consistent(
        Some(conn.seed_name@),
        match save0.seed {
            Some(s) => Some(s@),
            None => None,
        },
        config_seed,
    );
    let seed_adopted = seed_ok && save0.seed is None;
    let dlc_bad = spec_dlc_missing(snap.dlc, snap.map_loaded, true, opts.enable_dlc);
    let stage_live = seed_ok && !dlc_bad;

    let l1 = spec_receive_last(last_dl0, events, mode, conn.player_name@, snap.player_loaded, now);
    let kills = spec_receive_kills(
        last_dl0,
        events,
        mode,
        conn.player_name@,
        snap.player_loaded,
        now,
    );
    let send_active = spec_death_send_active(
        mode,
        l1,
        true,
        snap.player_loaded,
        snap.player_hp,
        now,
    );
    let send_counted = send_active && spec_death_counted(mode, snap.bloodstain_exists);
    let dl_sent = send_counted && save0.deaths + 1 >= amnesty;
    let l2 = if send_active {
        now
    } else {
        l1
    };
    let deaths1 = if dl_sent {
        0u8
    } else if send_counted {
        (save0.deaths + 1) as u8
    } else {
        save0.deaths
    };
    let dl_log = if dl_sent {
        Some(LogEntry::DeathLinkSent)
    } else if send_counted {
        Some(LogEntry::AmnestyRemaining { remaining: (amnesty - save0.deaths - 1) as u8 })
    } else {
        None::<LogEntry>
    };

    let ready = spec_delivery_ready(true, snap.map_loaded, snap.player_loaded, last_item0, now);
    let pend = ready && spec_has_pending(conn.received@, save0.items_granted);
    let delivery_err_id = if pend {
        match spec_next_pending(conn.received@, save0.items_granted) {
            Some(i) => match spec_assoc_get(
                conn.slot.ap_ids_to_item_ids@,
                conn.received@[i].item_identity,
            ) {
                Some(_) => None::<i64>,
                None => Some(conn.received@[i].item_identity),
            },
            None => None::<i64>,
        }
    } else {
        None::<i64>
    };
    let grant = if pend && delivery_err_id is None {
        match spec_next_pending(conn.received@, save0.items_granted) {
            Some(i) => match spec_assoc_get(
                conn.slot.ap_ids_to_item_ids@,
                conn.received@[i].item_identity,
            ) {
                Some(local) => Some(
                    spec_grant_action(
                        local,
                        spec_item_quantity(conn.slot, conn.received@[i].item_identity),
                    ),
                ),
                None => None::<Action>,
            },
            None => None::<Action>,
        }
    } else {
        None::<Action>
    };

    let reached_inv = stage_live && delivery_err_id is None;
    let inv_run = reached_inv && snap.inventory_loaded;
    let inv_ok = spec_all_mapped(snap.inventory@, snap.equip_rows@);
    let inv_err = inv_run && !inv_ok;
    let inv_applied = inv_run && inv_ok;
    let locs1 = spec_locs_after(save0.locations@, snap.inventory@, snap.equip_rows@);
    let report = inv_applied && locs1.len() > sent0;

    let reached_hints = reached_inv && !inv_err;
    let shop_active = snap.shop_open && snap.inventory_loaded;
    let hints_run = reached_hints && shop_active;
    let hints_ok = spec_hints_all_mapped(hinted0, snap.shop_items@, snap.equip_rows@);
    let hint_err = hints_run && !hints_ok;
    let hint_locs = spec_hint_locs(hinted0, snap.shop_items@, snap.equip_rows@);
    let hint_send = hints_run && hints_ok && hint_locs.len() > 0;

    let reached_goal = reached_hints && !hint_err;
    let goal_fired = reached_goal && spec_goal_fires(
        sent_goal0,
        snap.goal_flags@,
        snap.flags_loaded,
        true,
    );

    let kills_f = if stage_live {
        kills
    } else {
        Seq::<Action>::empty()
    };
    let dl_sent_f = stage_live && dl_sent;
    let grant_f = if stage_live {
        grant
    } else {
        None::<Action>
    };
    let inv_actions_f = if inv_applied {
        spec_marker_actions(snap.inventory@, snap.equip_rows@)
    } else {
        Seq::<Action>::empty()
    };
    let pre_actions = kills_f + (if dl_sent_f {
        seq![Action::SendDeathLink]
    } else {
        Seq::<Action>::empty()
    }) + (match grant_f {
        Some(g) => seq![g],
        None => Seq::<Action>::empty(),
    }) + inv_actions_f;
    LiveModel {
        seed_ok,
        seed_adopted,
        dlc_bad,
        stage_live,
        kills: kills_f,
        dl_sent: dl_sent_f,
        dl_log: if stage_live {
            dl_log
        } else {
            None
        },
        last_dl_final: if stage_live {
            l2
        } else {
            last_dl0
        },
        deaths_final: if stage_live {
            deaths1
        } else {
            save0.deaths
        },
        grant: grant_f,
        delivery_err: if stage_live {
            delivery_err_id
        } else {
            None
        },
        cursor_final: if stage_live && grant is Some {
            (save0.items_granted + 1) as u64
        } else {
            save0.items_granted
        },
        last_item_final: if stage_live && grant is Some {
            now
        } else {
            last_item0
        },
        inv_err,
        locs_final: if inv_applied {
            locs1
        } else {
            save0.locations@
        },
        report,
        sent_final: if report {
            locs1.len() as int
        } else {
            sent0
        },
        inv_actions: inv_actions_f,
        inv_logs: if inv_applied {
            spec_marker_logs(snap.inventory@, snap.equip_rows@)
        } else {
            Seq::<LogEntry>::empty()
        },
        hint_err,
        hinted_final: if hints_run && hints_ok {
            spec_hinted_after(hinted0, snap.shop_items@)
        } else {
            hinted0
        },
        hint_locs,
        hint_send,
        goal_fired,
        sent_goal_final: sent_goal0 || goal_fired,
        pre_actions,
        err: if !seed_ok {
            LiveFault::Seed
        } else if dlc_bad {
            LiveFault::Dlc
        } else if delivery_err_id is Some {
            LiveFault::UnmappedItem
        } else if inv_err {
            LiveFault::InventoryRow
        } else if hint_err {
            LiveFault::HintRow
        } else {
            LiveFault::Clear
        },
    }
}

/// What the head of the live phase produced.
struct HeadOutcome {
    actions: Vec<Action>,
    error: Option<FatalError>,
}

impl Core {
    /// The head of the live phase: the identity and expansion checks, the
    /// death-link receive and send, and the item delivery, in that order,
    /// stopping at the first fatal condition.
    #[verifier::rlimit(100)]
    #[verifier::spinoff_prover]
    fn live_phase_head(
        &mut self,
        save: &mut SaveData,
        conn: &ConnectionInfo,
        snap: &GameSnapshot,
        config_seed: &String,
        now: u64,
    ) -> (r: HeadOutcome)
        requires
            old(self).wf(),
            old(self).times_ok(now),
            old(save).items_granted < u64::MAX,
            spec_death_counter_ok(old(save).deaths, conn.slot.options.death_link_amnesty),
        ensures
            final(self).wf(),
            final(self).times_ok(now),
            spec_death_counter_ok(final(save).deaths, conn.slot.options.death_link_amnesty),
            final(self).session.fatal == old(self).session.fatal,
            final(self).session.load_time == old(self).session.load_time,
            final(self).locations_sent == old(self).locations_sent,
            final(self).shop_items_hinted == old(self).shop_items_hinted,
            final(self).sent_goal == old(self).sent_goal,
            final(save).locations == old(save).locations,
            ({
                let mode = conn.slot.options.death_link;
                let amnesty = conn.slot.options.death_link_amnesty;
                let seed_ok = seeds_consistent(
                    Some(conn.seed_name@),
                    match old(save).seed {
                        Some(s) => Some(s@),
                        None => None,
                    },
                    config_seed@,
                );
                let seed_adopted = seed_ok && old(save).seed is None;
                let dlc_bad = spec_dlc_missing(
                    snap.dlc,
                    snap.map_loaded,
                    true,
                    conn.slot.options.enable_dlc,
                );
                let stage_live = seed_ok && !dlc_bad;
                let events = old(self).session.pending_events@;
                let l1 = spec_receive_last(
                    old(self).last_death_link,
                    events,
                    mode,
                    conn.player_name@,
                    snap.player_loaded,
                    now,
                );
                let kills = spec_receive_kills(
                    old(self).last_death_link,
                    events,
                    mode,
                    conn.player_name@,
                    snap.player_loaded,
                    now,
                );
                let send_active = spec_death_send_active(
                    mode,
                    l1,
                    true,
                    snap.player_loaded,
                    snap.player_hp,
                    now,
                );
                let send_counted = send_active && spec_death_counted(
                    mode,
                    snap.bloodstain_exists,
                );
                let dl_sent = send_counted && old(save).deaths + 1 >= amnesty;
                let dl_log = if dl_sent {
                    Some(LogEntry::DeathLinkSent)
                } else if send_counted {
                    Some(
                        LogEntry::AmnestyRemaining {
                            remaining: (amnesty - old(save).deaths - 1) as u8,
                        },
                    )
                } else {
                    None::<LogEntry>
                };
                let ready = spec_delivery_ready(
                    true,
                    snap.map_loaded,
                    snap.player_loaded,
                    old(self).last_item_time,
                    now,
                );
                let pend = ready && spec_has_pending(conn.received@, old(save).items_granted);
                let delivery_err_id = if pend {
                    match spec_next_pending(conn.received@, old(save).items_granted) {
                        Some(i) => match spec_assoc_get(
                            conn.slot.ap_ids_to_item_ids@,
                            conn.received@[i].item_identity,
                        ) {
                            Some(_) => None::<i64>,
                            None => Some(conn.received@[i].item_identity),
                        },
                        None => None::<i64>,
                    }
                } else {
                    None::<i64>
                };
                let grant = if pend && delivery_err_id is None {
                    match spec_next_pending(conn.received@, old(save).items_granted) {
                        Some(i) => match spec_assoc_get(
                            conn.slot.ap_ids_to_item_ids@,
                            conn.received@[i].item_identity,
                        ) {
                            Some(local) => Some(
                                spec_grant_action(
                                    local,
                                    spec_item_quantity(
                                        conn.slot,
                                        conn.received@[i].item_identity,
                                    ),
                                ),
                            ),
                            None => None::<Action>,
                        },
                        None => None::<Action>,
                    }
                } else {
                    None::<Action>
                };
                &&& final(self).session.pending_events@ == if stage_live {
                    Seq::<InboundEvent>::empty()
                } else {
                    events
                }
                &&& final(self).session.logs@ == spec_push_opt(
                    old(self).session.logs@,
                    if stage_live {
                        dl_log
                    } else {
                        None::<LogEntry>
                    },
                )
                &&& final(self).last_death_link == if stage_live {
                    if send_active {
                        now
                    } else {
                        l1
                    }
                } else {
                    old(self).last_death_link
                }
                &&& final(save).deaths == if stage_live {
                    if dl_sent {
                        0u8
                    } else if send_counted {
                        (old(save).deaths + 1) as u8
                    } else {
                        old(save).deaths
                    }
                } else {
                    old(save).deaths
                }
                &&& final(self).last_item_time == if stage_live && grant is Some {
                    now
                } else {
                    old(self).last_item_time
                }
                &&& final(save).items_granted == if stage_live && grant is Some {
                    (old(save).items_granted + 1) as u64
                } else {
                    old(save).items_granted
                }
                &&& match final(save).seed {
                    Some(s) => if seed_adopted {
                        old(save).seed is None && s@ == config_seed@
                    } else {
                        old(save).seed == Some(s)
                    },
                    None => old(save).seed is None && !seed_adopted,
                }
                &&& r.actions@ == (if stage_live {
                    kills
                } else {
                    Seq::<Action>::empty()
                }) + (if stage_live && dl_sent {
                    seq![Action::SendDeathLink]
                } else {
                    Seq::<Action>::empty()
                }) + (if stage_live {
                    match grant {
                        Some(g) => seq![g],
                        None => Seq::<Action>::empty(),
                    }
                } else {
                    Seq::<Action>::empty()
                })
                &&& (r.error is Some <==> !seed_ok || dlc_bad || (stage_live && delivery_err_id
                    is Some))
                &&& (!seed_ok ==> r.error matches Some(FatalError::SeedConflict(_)))
                &&& (seed_ok && dlc_bad ==> ({
                    &&& r.error matches Some(
                        FatalError::MissingDlc { dlc1_installed, dlc2_installed },
                    ) && snap.dlc == Some(
                        crate::snapshot::DlcStatus { dlc1_installed, dlc2_installed },
                    )
                }))
                &&& (stage_live && delivery_err_id is Some ==> ({
                    &&& r.error matches Some(FatalError::UnmappedItem { server_item_id })
                        && Some(server_item_id) == delivery_err_id
                }))
            }),
    {
        let mut actions: Vec<Action> = Vec::new();

        if let Err(e) = check_seed_conflict(
            Some(&conn.seed_name),
            save.seed.as_ref(),
            config_seed,
        ) {
            return HeadOutcome { actions, error: Some(FatalError::SeedConflict(e)) };
        }
        adopt_seed(&mut save.seed, config_seed);

        if let Err(e) = check_dlc_error(
            snap.dlc,
            snap.map_loaded,
            true,
            conn.slot.options.enable_dlc,
        ) {
            return HeadOutcome { actions, error: Some(e) };
        }

        // Process deferred events: only peer deaths matter while a save is
        // loaded.
        let events = self.session.take_events();
        let mut kills = receive_events(
            &mut self.last_death_link,
            events,
            conn.slot.options.death_link,
            &conn.player_name,
            snap.player_loaded,
            now,
        );
        actions.append(&mut kills);
        let ghost kills_seq = actions@;

        // A local death may count toward amnesty and go out as a death
        // link.
        let send = send_death_link(
            &mut self.last_death_link,
            &mut save.deaths,
            conn.slot.options.death_link,
            conn.slot.options.death_link_amnesty,
            true,
            snap.player_loaded,
            snap.player_hp,
            snap.bloodstain_exists,
            now,
        );
        if send.sent {
            actions.push(Action::SendDeathLink);
            proof {
                assert(actions@ =~= kills_seq + seq![Action::SendDeathLink]);
            }
        }
        if let Some(entry) = send.log {
            self.session.logs.push(entry);
        }
        let ghost after_dl = actions@;

        // Deliver at most one pending inbound item.
        match process_incoming_items(
            &mut self.last_item_time,
            save,
            &conn.received,
            &conn.slot,
            true,
            snap.map_loaded,
            snap.player_loaded,
            now,
        ) {
            Err(e) => {
                proof {
                    assert(actions@ =~= after_dl + Seq::<Action>::empty());
                }
                return HeadOutcome { actions, error: Some(e) };
            },
            Ok(Some(action)) => {
                actions.push(action);
                proof {
                    assert(actions@ =~= after_dl + seq![action]);
                }
            },
            Ok(None) => {
                proof {
                    assert(actions@ =~= after_dl + Seq::<Action>::empty());
                }
            },
        }

        HeadOutcome { actions, error: None }
    }
}

/// What the tail of the live phase produced.
struct TailOutcome {
    actions: Vec<Action>,
    error: Option<FatalError>,
}

impl Core {
    /// The tail of the live phase: the inventory scan, the shop hints, and
    /// the goal check, in that order, stopping at the first fatal
    /// condition.
    #[verifier::rlimit(100)]
    #[verifier::spinoff_prover]
    fn live_phase_tail(&mut self, save: &mut SaveData, snap: &GameSnapshot) -> (r: TailOutcome)
        requires
            old(self).wf(),
            old(save).locations_unique(),
        ensures
            final(self).wf(),
            final(save).locations_unique(),
            final(self).session.fatal == old(self).session.fatal,
            final(self).session.load_time == old(self).session.load_time,
            final(self).session.pending_events == old(self).session.pending_events,
            final(self).last_item_time == old(self).last_item_time,
            final(self).last_death_link == old(self).last_death_link,
            final(save).seed == old(save).seed,
            final(save).items_granted == old(save).items_granted,
            final(save).deaths == old(save).deaths,
            ({
                let hinted0 = old(self).shop_items_hinted@;
                let inv_run = snap.inventory_loaded;
                let inv_ok = spec_all_mapped(snap.inventory@, snap.equip_rows@);
                let inv_err = inv_run && !inv_ok;
                let inv_applied = inv_run && inv_ok;
                let locs1 = spec_locs_after(old(save).locations@, snap.inventory@, snap.equip_rows@);
                let report = inv_applied && locs1.len() > old(self).locations_sent;
                let shop_active = snap.shop_open && snap.inventory_loaded;
                let hints_run = !inv_err && shop_active;
                let hints_ok = spec_hints_all_mapped(hinted0, snap.shop_items@, snap.equip_rows@);
                let hint_err = hints_run && !hints_ok;
                let hint_locs = spec_hint_locs(hinted0, snap.shop_items@, snap.equip_rows@);
                let hint_send = hints_run && hints_ok && hint_locs.len() > 0;
                let goal_fired = !inv_err && !hint_err && spec_goal_fires(
                    old(self).sent_goal,
                    snap.goal_flags@,
                    snap.flags_loaded,
                    true,
                );
                let base = if inv_applied {
                    spec_marker_actions(snap.inventory@, snap.equip_rows@)
                } else {
                    Seq::<Action>::empty()
                };
                let locs_f = if inv_applied {
                    locs1
                } else {
                    old(save).locations@
                };
                &&& final(save).locations@ == locs_f
                &&& final(self).locations_sent == if report {
                    locs1.len() as int
                } else {
                    old(self).locations_sent as int
                }
                &&& final(self).session.logs@ == spec_push_all(
                    old(self).session.logs@,
                    if inv_applied {
                        spec_marker_logs(snap.inventory@, snap.equip_rows@)
                    } else {
                        Seq::<LogEntry>::empty()
                    },
                )
                &&& final(self).shop_items_hinted@ == if hints_run && hints_ok {
                    spec_hinted_after(hinted0, snap.shop_items@)
                } else {
                    hinted0
                }
                &&& final(self).sent_goal == (old(self).sent_goal || goal_fired)
                &&& (r.error is Some <==> inv_err || hint_err)
                &&& (inv_err ==> ({
                    &&& r.error matches Some(FatalError::MissingItemRow { item_id })
                        && exists|i: int|
                        #[trigger] spec_first_unmapped(snap.inventory@, snap.equip_rows@, i)
                            && item_id == snap.inventory@[i].item_id
                }))
                &&& (!inv_err && hint_err ==> ({
                    &&& r.error matches Some(FatalError::MissingItemRow { item_id })
                        && exists|i: int|
                        #[trigger] spec_hint_unmapped_at(
                            hinted0,
                            snap.shop_items@,
                            snap.equip_rows@,
                            i,
                        ) && item_id == snap.shop_items@[i].item_id
                }))
                &&& ({
                    let tail_len: int = (if report {
                        1int
                    } else {
                        0int
                    }) + (if hint_send {
                        1int
                    } else {
                        0int
                    }) + (if goal_fired {
                        1int
                    } else {
                        0int
                    });
                    &&& r.actions@.len() == base.len() + tail_len
                    &&& r.actions@.take(base.len() as int) == base
                    &&& (report ==> ({
                        &&& r.actions@[base.len() as int] matches Action::ReportChecked {
                            locations,
                        } && locations@ == locs_f
                    }))
                    &&& (hint_send ==> ({
                        &&& r.actions@[base.len() as int + (if report {
                            1int
                        } else {
                            0int
                        })] matches Action::RequestHints { locations } && locations@
                            == hint_locs
                    }))
                    &&& (goal_fired ==> r.actions@.last() == Action::SendGoal)
                })
            }),
    {
        let mut actions: Vec<Action> = Vec::new();

        // Convert placeholder markers and report newly confirmed locations.
        let inv = match process_inventory_items(
            save,
            &mut self.locations_sent,
            &snap.inventory,
            &snap.equip_rows,
            snap.inventory_loaded,
            true,
        ) {
            Err(e) => {
                proof {
                    assert(actions@.take(0) =~= Seq::<Action>::empty());
                }
                return TailOutcome { actions, error: Some(e) };
            },
            Ok(out) => out,
        };
        let mut inv_actions = inv.actions;
        actions.append(&mut inv_actions);
        self.session.logs.push_all(inv.logs);

        // Hint the locations of an open shop, once each per session.
        match send_shop_hints(
            &mut self.shop_items_hinted,
            &snap.shop_items,
            &snap.equip_rows,
            snap.shop_open,
            snap.inventory_loaded,
            true,
        ) {
            Err(e) => {
                proof {
                    assert(actions@.take(actions@.len() as int) =~= actions@);
                }
                return TailOutcome { actions, error: Some(e) };
            },
            Ok(Some(action)) => {
                actions.push(action);
            },
            Ok(None) => {},
        }

        // Report completion once per process.
        if handle_goal(&mut self.sent_goal, &snap.goal_flags, snap.flags_loaded, true) {
            actions.push(Action::SendGoal);
        }

        proof {
            let base = if snap.inventory_loaded && spec_all_mapped(
                snap.inventory@,
                snap.equip_rows@,
            ) {
                spec_marker_actions(snap.inventory@, snap.equip_rows@)
            } else {
                Seq::<Action>::empty()
            };
            assert(actions@.take(base.len() as int) =~= base);
        }
        TailOutcome { actions, error: None }
    }
}

/// The engine's per-process state: the session bookkeeping and the
/// session-transient cursors of the sub-protocols.
pub struct Core {
    /// Connection bookkeeping, the log, and the sticky fatal slot.
    pub session: Session,
    /// When the last item was granted; at most one grant per interval.
    pub last_item_time: u64,
    /// How many confirmed locations have been reported this session. Starts
    /// at zero every boot, on purpose, so a report lost in a crashed session
    /// is re-issued.
    pub locations_sent: usize,
    /// The shop markers already hinted this session. Intentionally not
    /// preserved across sessions so a player can retry after transport
    /// loss.
    pub shop_items_hinted: Vec<LocalItemId>,
    /// The last time a death link was sent or received, or the session
    /// start.
    pub last_death_link: u64,
    /// Whether completion was already reported this process.
    pub sent_goal: bool,
}

impl Core {
    /// Structural well-formedness: the log stays bounded and the hinted set
    /// duplicate-free.
    pub open spec fn wf(&self) -> bool {
        &&& self.session.wf()
        &&& hinted_unique(self.shop_items_hinted@)
    }

    /// The engine's timestamps never run ahead of the clock.
    pub open spec fn times_ok(&self, now: u64) -> bool {
        &&& self.last_item_time <= now
        &&& self.last_death_link <= now
        &&& match self.session.load_time {
            Some(t) => t <= now,
            None => true,
        }
    }

    /// A fresh engine at time `now`: nothing reported, nothing hinted, both
    /// rate-limit timestamps starting at the session start.
    pub fn new(now: u64) -> (r: Core)
        ensures
            r.wf(),
            r.times_ok(now),
            r.session.logs@ == Seq::<LogEntry>::empty(),
            r.session.pending_events@ == Seq::<InboundEvent>::empty(),
            r.session.load_time is None,
            r.session.fatal is None,
            r.last_item_time == now,
            r.locations_sent == 0,
            r.shop_items_hinted@ == Seq::<LocalItemId>::empty(),
            r.last_death_link == now,
            !r.sent_goal,
    {
        Core {
            session: Session::new(),
            last_item_time: now,
            locations_sent: 0,
            shop_items_hinted: Vec::new(),
            last_death_link: now,
            sent_goal: false,
        }
    }

    /// The live phase: runs the sub-protocols in order against one tick's
    /// inputs. Its effects are exactly those of [`spec_live_model`] applied
    /// to the pre-state, with the deferred event queue as the event input;
    /// the queue is drained once the identity and expansion checks pass. A
    /// fatal condition ends the phase early; the actions emitted before it
    /// still stand.
    #[verifier::rlimit(100)]
    #[verifier::spinoff_prover]
    pub fn update_live(
        &mut self,
        save: &mut SaveData,
        conn: &ConnectionInfo,
        snap: &GameSnapshot,
        config_seed: &String,
        now: u64,
    ) -> (r: LiveOutcome)
        requires
            old(self).wf(),
            old(self).times_ok(now),
            old(save).locations_unique(),
            old(save).items_granted < u64::MAX,
            spec_death_counter_ok(old(save).deaths, conn.slot.options.death_link_amnesty),
            snap.goal_flags@.len() == conn.slot.goal@.len(),
        ensures
            final(self).wf(),
            final(self).times_ok(now),
            final(save).locations_unique(),
            spec_death_counter_ok(final(save).deaths, conn.slot.options.death_link_amnesty),
            final(self).session.fatal == old(self).session.fatal,
            final(self).session.load_time == old(self).session.load_time,
            ({
                let m = spec_live_model(
                    old(self).last_item_time,
                    old(self).locations_sent as int,
                    old(self).shop_items_hinted@,
                    old(self).last_death_link,
                    old(self).sent_goal,
                    *old(save),
                    *conn,
                    *snap,
                    config_seed@,
                    old(self).session.pending_events@,
                    now,
                );
                &&& final(self).session.pending_events@ == if m.stage_live {
                    Seq::<InboundEvent>::empty()
                } else {
                    old(self).session.pending_events@
                }
                &&& final(self).session.logs@ == spec_push_all(
                    spec_push_opt(old(self).session.logs@, m.dl_log),
                    m.inv_logs,
                )
                &&& final(self).last_death_link == m.last_dl_final
                &&& final(save).deaths == m.deaths_final
                &&& final(self).last_item_time == m.last_item_final
                &&& final(save).items_granted == m.cursor_final
                &&& final(save).locations@ == m.locs_final
                &&& final(self).locations_sent == m.sent_final
                &&& final(self).shop_items_hinted@ == m.hinted_final
                &&& final(self).sent_goal == m.sent_goal_final
                &&& match final(save).seed {
                    Some(s) => if m.seed_adopted {
                        old(save).seed is None && s@ == config_seed@
                    } else {
                        old(save).seed == Some(s)
                    },
                    None => old(save).seed is None && !m.seed_adopted,
                }
                &&& (r.error is Some <==> m.err != LiveFault::Clear)
                &&& (m.err == LiveFault::Seed ==> r.error matches Some(
                    FatalError::SeedConflict(_),
                ))
                &&& (m.err == LiveFault::Dlc ==> ({
                    &&& r.error matches Some(
                        FatalError::MissingDlc { dlc1_installed, dlc2_installed },
                    ) && snap.dlc == Some(
                        crate::snapshot::DlcStatus { dlc1_installed, dlc2_installed },
                    )
                }))
                &&& (m.err == LiveFault::UnmappedItem ==> ({
                    &&& r.error matches Some(FatalError::UnmappedItem { server_item_id })
                        && Some(server_item_id) == m.delivery_err
                }))
                &&& (m.err == LiveFault::InventoryRow ==> ({
                    &&& r.error matches Some(FatalError::MissingItemRow { item_id })
                        && exists|i: int|
                        #[trigger] spec_first_unmapped(snap.inventory@, snap.equip_rows@, i)
                            && item_id == snap.inventory@[i].item_id
                }))
                &&& (m.err == LiveFault::HintRow ==> ({
                    &&& r.error matches Some(FatalError::MissingItemRow { item_id })
                        && exists|i: int|
                        #[trigger] spec_hint_unmapped_at(
                            old(self).shop_items_hinted@,
                            snap.shop_items@,
                            snap.equip_rows@,
                            i,
                        ) && item_id == snap.shop_items@[i].item_id
                }))
                &&& ({
                    let pre = m.pre_actions;
                    let tail_len: int = (if m.report {
                        1int
                    } else {
                        0int
                    }) + (if m.hint_send {
                        1int
                    } else {
                        0int
                    }) + (if m.goal_fired {
                        1int
                    } else {
                        0int
                    });
                    &&& r.actions@.len() == pre.len() + tail_len
                    &&& r.actions@.take(pre.len() as int) == pre
                    &&& (m.report ==> ({
                        &&& r.actions@[pre.len() as int] matches Action::ReportChecked {
                            locations,
                        } && locations@ == m.locs_final
                    }))
                    &&& (m.hint_send ==> ({
                        &&& r.actions@[pre.len() as int + (if m.report {
                            1int
                        } else {
                            0int
                        })] matches Action::RequestHints { locations } && locations@
                            == m.hint_locs
                    }))
                    &&& (m.goal_fired ==> r.actions@.last() == Action::SendGoal)
                })
            }),
    {
        let ghost m = spec_live_model(
            self.last_item_time,
            self.locations_sent as int,
            self.shop_items_hinted@,
            self.last_death_link,
            self.sent_goal,
            *save,
            *conn,
            *snap,
            config_seed@,
            self.session.pending_events@,
            now,
        );

        let head = self.live_phase_head(save, conn, snap, config_seed, now);
        let mut actions = head.actions;
        if let Some(e) = head.error {
            proof {
                assert(actions@ =~= m.pre_actions);
                assert(actions@.take(actions@.len() as int) =~= actions@);
            }
            return LiveOutcome { actions, error: Some(e) };
        }
        proof {
            assert(actions@ =~= m.kills + (if m.dl_sent {
                seq![Action::SendDeathLink]
            } else {
                Seq::<Action>::empty()
            }) + (match m.grant {
                Some(g) => seq![g],
                None => Seq::<Action>::empty(),
            }));
        }

        // Run the inventory scan, the shop hints, and the goal check.
        let ghost before_tail = actions@;
        let tail = self.live_phase_tail(save, snap);
        let ghost tail0 = tail.actions@;
        let mut tail_actions = tail.actions;
        actions.append(&mut tail_actions);
        proof {
            assert(before_tail + (if snap.inventory_loaded && spec_all_mapped(
                snap.inventory@,
                snap.equip_rows@,
            ) {
                spec_marker_actions(snap.inventory@, snap.equip_rows@)
            } else {
                Seq::<Action>::empty()
            }) =~= m.pre_actions);
            assert forall|k: int| 0 <= k < m.pre_actions.len() implies actions@[k]
                == m.pre_actions[k] by {
                if k >= before_tail.len() {
                    assert(tail0.take(m.pre_actions.len() - before_tail.len())[k
                        - before_tail.len()] == tail0[k - before_tail.len()]);
                }
            }
            assert(actions@.take(m.pre_actions.len() as int) =~= m.pre_actions);
        }
        LiveOutcome { actions, error: tail.error }
    }

    /// The host-facing tick entrypoint, invoked once per host tick.
    ///
    /// The always-phase bookkeeping runs unconditionally; the live phase is
    /// gated on a connection, an empty fatal slot, the load grace period, a
    /// matching client build, and available persistence. A version mismatch
    /// or a fatal error from the live phase is written to the sticky fatal
    /// slot, which disables the live phase for the rest of the process.
    #[verifier::rlimit(100)]
    #[verifier::spinoff_prover]
    pub fn update(
        &mut self,
        save: &mut Option<SaveData>,
        conn_state: ConnectionState,
        conn: Option<&ConnectionInfo>,
        events: Vec<InboundEvent>,
        snap: &GameSnapshot,
        config_seed: &String,
        config_version: Option<&String>,
        build_version: &String,
        is_main_menu: bool,
        now: u64,
    ) -> (actions: Vec<Action>)
        requires
            old(self).wf(),
            old(self).times_ok(now),
            match (*old(save), conn) {
                (Some(sd), Some(ci)) => {
                    &&& sd.locations_unique()
                    &&& sd.items_granted < u64::MAX
                    &&& spec_death_counter_ok(sd.deaths, ci.slot.options.death_link_amnesty)
                    &&& snap.goal_flags@.len() == ci.slot.goal@.len()
                },
                _ => true,
            },
        ensures
            final(self).wf(),
            final(self).times_ok(now),
            ({
                let connected0 = conn_state == ConnectionState::Connected;
                let logs1 = spec_always_logs(old(self).session.logs@, connected0, events@);
                let pending1 = (if spec_any_fatal(events@) {
                    Seq::<InboundEvent>::empty()
                } else {
                    old(self).session.pending_events@
                }) + (if spec_connected_after(connected0, events@) {
                    spec_deferred(events@)
                } else {
                    Seq::<InboundEvent>::empty()
                });
                let client_present = conn is Some;
                let gate_open = client_present && old(self).session.fatal is None;
                let load1 = if gate_open {
                    Session::spec_load_time_after(
                        old(self).session.load_time,
                        is_main_menu,
                        now,
                    )
                } else {
                    old(self).session.load_time
                };
                let live = gate_open && Session::spec_grace_passed(load1, now);
                let version_ok = match config_version {
                    Some(v) => v@ == build_version@,
                    None => true,
                };
                &&& final(self).session.load_time == load1
                &&& (!live ==> ({
                    &&& final(self).session.logs@ == logs1
                    &&& final(self).session.pending_events@ == pending1
                    &&& final(self).session.fatal == old(self).session.fatal
                    &&& actions@ == Seq::<Action>::empty()
                    &&& *final(save) == *old(save)
                    &&& final(self).last_item_time == old(self).last_item_time
                    &&& final(self).last_death_link == old(self).last_death_link
                    &&& final(self).locations_sent == old(self).locations_sent
                    &&& final(self).shop_items_hinted == old(self).shop_items_hinted
                    &&& final(self).sent_goal == old(self).sent_goal
                }))
                &&& (live && !version_ok ==> ({
                    &&& final(self).session.logs@ == logs1
                    &&& final(self).session.pending_events@ == pending1
                    &&& final(self).session.fatal matches Some(
                        FatalError::VersionConflict { config_version: c, build_version: b },
                    ) && (match config_version {
                        Some(v) => v@ == c@,
                        None => false,
                    }) && b@ == build_version@ && c@ != build_version@
                    &&& actions@ == Seq::<Action>::empty()
                    &&& *final(save) == *old(save)
                }))
                &&& (live && version_ok && *old(save) is None ==> ({
                    &&& final(self).session.logs@ == logs1
                    &&& final(self).session.pending_events@ == pending1
                    &&& final(self).session.fatal is None
                    &&& actions@ == Seq::<Action>::empty()
                    &&& *final(save) is None
                }))
                &&& (live && version_ok ==> match (*old(save), conn) {
                    (Some(sd0), Some(ci)) => {
                        let m = spec_live_model(
                            old(self).last_item_time,
                            old(self).locations_sent as int,
                            old(self).shop_items_hinted@,
                            old(self).last_death_link,
                            old(self).sent_goal,
                            sd0,
                            *ci,
                            *snap,
                            config_seed@,
                            pending1,
                            now,
                        );
                        &&& final(self).session.pending_events@ == if m.stage_live {
                            Seq::<InboundEvent>::empty()
                        } else {
                            pending1
                        }
                        &&& final(self).session.logs@ == spec_push_all(
                            spec_push_opt(logs1, m.dl_log),
                            m.inv_logs,
                        )
                        &&& final(self).last_death_link == m.last_dl_final
                        &&& final(self).last_item_time == m.last_item_final
                        &&& final(self).locations_sent == m.sent_final
                        &&& final(self).shop_items_hinted@ == m.hinted_final
                        &&& final(self).sent_goal == m.sent_goal_final
                        &&& match *final(save) {
                            Some(sd1) => {
                                &&& sd1.deaths == m.deaths_final
                                &&& sd1.items_granted == m.cursor_final
                                &&& sd1.locations@ == m.locs_final
                                &&& sd1.locations_unique()
                                &&& match sd1.seed {
                                    Some(s) => if m.seed_adopted {
                                        sd0.seed is None && s@ == config_seed@
                                    } else {
                                        sd0.seed == Some(s)
                                    },
                                    None => sd0.seed is None && !m.seed_adopted,
                                }
                            },
                            None => false,
                        }
                        &&& (final(self).session.fatal is Some <==> m.err != LiveFault::Clear)
                        &&& (m.err == LiveFault::Seed ==> final(self).session.fatal matches Some(
                            FatalError::SeedConflict(_),
                        ))
                        &&& (m.err == LiveFault::Dlc ==> ({
                            &&& final(self).session.fatal matches Some(
                                FatalError::MissingDlc { dlc1_installed, dlc2_installed },
                            ) && snap.dlc == Some(
                                crate::snapshot::DlcStatus { dlc1_installed, dlc2_installed },
                            )
                        }))
                        &&& (m.err == LiveFault::UnmappedItem ==> ({
                            &&& final(self).session.fatal matches Some(
                                FatalError::UnmappedItem { server_item_id },
                            ) && Some(server_item_id) == m.delivery_err
                        }))
                        &&& (m.err == LiveFault::InventoryRow || m.err == LiveFault::HintRow
                            ==> final(self).session.fatal matches Some(
                            FatalError::MissingItemRow { .. },
                        ))
                        &&& ({
                            let pre = m.pre_actions;
                            let tail_len: int = (if m.report {
                                1int
                            } else {
                                0int
                            }) + (if m.hint_send {
                                1int
                            } else {
                                0int
                            }) + (if m.goal_fired {
                                1int
                            } else {
                                0int
                            });
                            &&& actions@.len() == pre.len() + tail_len
                            &&& actions@.take(pre.len() as int) == pre
                            &&& (m.report ==> ({
                                &&& actions@[pre.len() as int] matches Action::ReportChecked {
                                    locations,
                                } && locations@ == m.locs_final
                            }))
                            &&& (m.hint_send ==> ({
                                &&& actions@[pre.len() as int + (if m.report {
                                    1int
                                } else {
                                    0int
                                })] matches Action::RequestHints { locations } && locations@
                                    == m.hint_locs
                            }))
                            &&& (m.goal_fired ==> actions@.last() == Action::SendGoal)
                        })
                    },
                    _ => true,
                })
            }),
    {
        self.session.update_always(conn_state, events);

        let client_present = conn.is_some();
        let live = self.session.live_gate(client_present, is_main_menu, now);
        if !live {
            return Vec::new();
        }

        if let Err(e) = check_version_conflict(config_version, build_version) {
            self.session.fatal = Some(e);
            return Vec::new();
        }

        // Without persistence there is nothing to reconcile against: skip
        // all live-phase work this tick.
        let sd = match save {
            Some(sd) => sd,
            None => {
                return Vec::new();
            },
        };
        let ci = match conn {
            Some(ci) => ci,
            None => {
                // Unreachable: the live phase needs a connection.
                proof {
                    assert(false);
                }
                return Vec::new();
            },
        };

        let outcome = self.update_live(sd, ci, snap, config_seed, now);
        if let Some(e) = outcome.error {
            self.session.fatal = Some(e);
        }
        outcome.actions
    }
}

/// Law (load-grace gating): with the player in game, a tick runs the live
/// phase exactly when the way in is open (a connection exists and the fatal
/// slot is empty) and the load timer, running since `t0`, is at least the
/// grace period old; the tick that first starts the timer is never live.
/// The `live` expression below is the one [`Core::update`]'s contract
/// gates on, and that contract's not-live clause pins every not-live tick
/// to the always-phase bookkeeping alone, with no actions and no change to
/// the save or the sub-protocol state.
pub proof fn lemma_live_gating(t0: u64, now: u64, client_present: bool, fatal_empty: bool)
    requires
        t0 <= now,
    ensures
        ({
            let gate_open = client_present && fatal_empty;
            let load1 = if gate_open {
                Session::spec_load_time_after(Some(t0), false, now)
            } else {
                Some(t0)
            };
            let live = gate_open && Session::spec_grace_passed(load1, now);
            live <==> gate_open && now >= t0 + LOAD_GRACE_MS
        }),
        !Session::spec_grace_passed(Session::spec_load_time_after(None, false, now), now),
{
}

} // verus!
