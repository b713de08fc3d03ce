//! The death link negotiation: receiving peer deaths, counting local deaths
//! toward amnesty, and the shared grace window that debounces both
//! directions.

use vstd::prelude::*;
use crate::log_buffer::LogEntry;
use crate::parse::str_eq;
use crate::slot_data::DeathLinkOption;

verus! {

/// The grace period after either sending or receiving a death link during
/// which no further death links will be sent or received, in milliseconds.
pub const DEATH_LINK_GRACE_MS: u64 = 30000;

/// Whether death links (sending or receiving) are currently allowed: the
/// feature is on and the grace window since the last transition has passed.
pub open spec fn spec_allow_death_link(mode: DeathLinkOption, last_transition: u64, now: u64) -> bool {
    mode != DeathLinkOption::Off && now - last_transition >= DEATH_LINK_GRACE_MS
}

/// Returns whether death links (sending or receiving) are currently allowed.
pub fn allow_death_link(mode: DeathLinkOption, last_transition: u64, now: u64) -> (r: bool)
    requires
        last_transition <= now,
    ensures
        r == spec_allow_death_link(mode, last_transition, now),
{
    mode != DeathLinkOption::Off && now - last_transition >= DEATH_LINK_GRACE_MS
}

/// Whether an inbound peer death is acted on: death links are allowed, the
/// event is not our own echo, its timestamp is neither stale (before the last
/// transition) nor a duplicate (within the grace window after it), and there
/// is a player to kill.
pub open spec fn spec_death_link_accepted(
    mode: DeathLinkOption,
    last_transition: u64,
    local_name: Option<Seq<char>>,
    source_name: Seq<char>,
    timestamp: u64,
    player_loaded: bool,
    now: u64,
) -> bool {
    &&& spec_allow_death_link(mode, last_transition, now)
    &&& match local_name {
        Some(n) => n != source_name,
        None => false,
    }
    &&& timestamp >= last_transition + DEATH_LINK_GRACE_MS
    &&& player_loaded
}

/// Processes an inbound peer death. Returns whether the local player is to be
/// killed; on acceptance the last-transition timestamp moves to `now`, so the
/// grace window also suppresses the follow-up death notification.
pub fn receive_death_link(
    last_transition: &mut u64,
    mode: DeathLinkOption,
    local_name: Option<&String>,
    source_name: &String,
    timestamp: u64,
    player_loaded: bool,
    now: u64,
) -> (kill: bool)
    requires
        *old(last_transition) <= now,
    ensures
        kill == spec_death_link_accepted(
            mode,
            *old(last_transition),
            match local_name {
                Some(n) => Some(n@),
                None => None,
            },
            source_name@,
            timestamp,
            player_loaded,
            now,
        ),
        *final(last_transition) == if kill {
            now
        } else {
            *old(last_transition)
        },
        *final(last_transition) <= now,
{
    if !allow_death_link(mode, *last_transition, now) {
        return false;
    }
    let name = match local_name {
        Some(n) => n,
        None => {
            return false;
        },
    };
    if str_eq(name.as_str(), source_name.as_str()) {
        return false;
    }
    if timestamp < *last_transition {
        // The peer death predates our last transition: stale.
        return false;
    }
    if timestamp - *last_transition < DEATH_LINK_GRACE_MS {
        // Within the grace window after the last transition: an echo or
        // duplicate of a death already processed.
        return false;
    }
    if !player_loaded {
        return false;
    }
    *last_transition = now;
    true
}

/// What sending decided this tick.
pub struct DeathLinkSend {
    /// Whether a death link is to be transmitted to the other sessions.
    pub sent: bool,
    /// The log entry to show the player, if any.
    pub log: Option<LogEntry>,
}

/// The amnesty counter stays below the threshold (or pinned when the
/// threshold is zero), which also keeps its increment free of overflow.
pub open spec fn spec_death_counter_ok(deaths: u8, amnesty: u8) -> bool {
    amnesty == 0 || deaths < amnesty
}

/// Whether a local death is even looked at this tick: death links allowed, a
/// connection exists, and the loaded player has just died.
pub open spec fn spec_death_send_active(
    mode: DeathLinkOption,
    last_transition: u64,
    client_present: bool,
    player_loaded: bool,
    player_hp: u32,
    now: u64,
) -> bool {
    &&& spec_allow_death_link(mode, last_transition, now)
    &&& client_present
    &&& player_loaded
    &&& player_hp == 0
}

/// Whether a death counts toward amnesty: always, except that in the
/// lost-souls mode a death only counts when the recoverable death marker no
/// longer exists — the player died again without recovering the previous
/// one. A death with the marker still standing does not count.
pub open spec fn spec_death_counted(mode: DeathLinkOption, bloodstain_exists: bool) -> bool {
    mode != DeathLinkOption::LostSouls || !bloodstain_exists
}

/// Handles a local death. Counts it toward amnesty when it qualifies,
/// transmits a death link once the threshold is reached, and moves the
/// last-transition timestamp to `now` whether or not anything was
/// transmitted, so the death just suffered cannot re-trigger an inbound
/// death link immediately after respawning.
pub fn send_death_link(
    last_transition: &mut u64,
    deaths: &mut u8,
    mode: DeathLinkOption,
    amnesty: u8,
    client_present: bool,
    player_loaded: bool,
    player_hp: u32,
    bloodstain_exists: bool,
    now: u64,
) -> (r: DeathLinkSend)
    requires
        *old(last_transition) <= now,
        spec_death_counter_ok(*old(deaths), amnesty),
    ensures
        ({
            let active = spec_death_send_active(
                mode,
                *old(last_transition),
                client_present,
                player_loaded,
                player_hp,
                now,
            );
            let counted = active && spec_death_counted(mode, bloodstain_exists);
            &&& *final(last_transition) == if active {
                now
            } else {
                *old(last_transition)
            }
            &&& r.sent == (counted && *old(deaths) + 1 >= amnesty)
            &&& *final(deaths) == if r.sent {
                0u8
            } else if counted {
                (*old(deaths) + 1) as u8
            } else {
                *old(deaths)
            }
            &&& r.log == if r.sent {
                Some(LogEntry::DeathLinkSent)
            } else if counted {
                Some(LogEntry::AmnestyRemaining { remaining: (amnesty - *old(deaths) - 1) as u8 })
            } else {
                None::<LogEntry>
            }
        }),
        spec_death_counter_ok(*final(deaths), amnesty),
        *final(last_transition) <= now,
{
    if !allow_death_link(mode, *last_transition, now) {
        return DeathLinkSend { sent: false, log: None };
    }
    if !client_present || !player_loaded || player_hp != 0 {
        return DeathLinkSend { sent: false, log: None };
    }

    let mut sent: bool = false;
    let mut log: Option<LogEntry> = None;
    if mode != DeathLinkOption::LostSouls || !bloodstain_exists {
        if amnesty == 0 || *deaths >= amnesty - 1 {
            sent = true;
            *deaths = 0;
            log = Some(LogEntry::DeathLinkSent);
        } else {
            *deaths = *deaths + 1;
            log = Some(LogEntry::AmnestyRemaining { remaining: amnesty - *deaths });
        }
    }

    // Set this even if no death link went out, so this death is not counted
    // again while the player is still dying and so the player is not killed
    // by an incoming death link immediately after respawning.
    *last_transition = now;

    DeathLinkSend { sent, log }
}

} // verus!
