//! Session state and the always-phase of the update cycle: connection and
//! event bookkeeping that runs every tick, the sticky fatal-error slot, and
//! the load-grace gate in front of the live phase.

use vstd::prelude::*;
use crate::errors::FatalError;
use crate::events::{is_fatal_error, is_immediate, ConnectionState, InboundEvent};
use crate::log_buffer::{spec_log_push, LogBuffer, LogEntry};

verus! {

/// The grace period between the game starting to load a save and the engine
/// beginning to act, in milliseconds. Acting earlier risks reading
/// half-initialized state.
pub const LOAD_GRACE_MS: u64 = 10000;

/// The per-process session state around the connection.
pub struct Session {
    /// The log shown in the overlay.
    pub logs: LogBuffer,
    /// Deferred events waiting until the player is in an active save. Empty
    /// unless the facade reports a connection.
    pub pending_events: Vec<InboundEvent>,
    /// When the current load was first noticed; cleared on the main menu.
    pub load_time: Option<u64>,
    /// The sticky fatal error. While occupied, the live phase is disabled.
    pub fatal: Option<FatalError>,
}

/// The log entry an immediate event produces, if any. The wording for a
/// fatal connection error depends on whether the connection had been
/// established when the error arrived.
pub open spec fn spec_event_log(e: InboundEvent, connected: bool) -> Option<LogEntry> {
    match e {
        InboundEvent::Connected => None,
        InboundEvent::ConnectionError { fatal, refused, message } => Some(
            if fatal {
                if refused {
                    LogEntry::ConnectionRefused
                } else if connected {
                    LogEntry::ConnectionFailed { message }
                } else {
                    LogEntry::Disconnected { message }
                }
            } else {
                LogEntry::TransportError { message }
            },
        ),
        InboundEvent::LogMessage { message } => Some(LogEntry::ServerMessage { message }),
        InboundEvent::ItemReceived { .. } => None,
        InboundEvent::PeerDeathLink { .. } => None,
    }
}

/// The log after processing a batch of events in order, tracking whether the
/// connection counts as established as the batch proceeds.
pub open spec fn spec_always_logs(
    log: Seq<LogEntry>,
    connected: bool,
    events: Seq<InboundEvent>,
) -> Seq<LogEntry>
    decreases events.len(),
{
    if events.len() == 0 {
        log
    } else {
        let e = events[0];
        let log2 = match spec_event_log(e, connected) {
            Some(entry) => spec_log_push(log, entry),
            None => log,
        };
        let connected2 = connected || e is Connected;
        spec_always_logs(log2, connected2, events.drop_first())
    }
}

/// Whether the connection counts as established once the batch is processed.
pub open spec fn spec_connected_after(connected: bool, events: Seq<InboundEvent>) -> bool
    decreases events.len(),
{
    if events.len() == 0 {
        connected
    } else {
        spec_connected_after(connected || events[0] is Connected, events.drop_first())
    }
}

/// Whether the batch contains a fatal connection error.
pub open spec fn spec_any_fatal(events: Seq<InboundEvent>) -> bool
    decreases events.len(),
{
    if events.len() == 0 {
        false
    } else {
        is_fatal_error(events[0]) || spec_any_fatal(events.drop_first())
    }
}

/// The deferred (non-immediate) events of a batch, in order.
pub open spec fn spec_deferred(events: Seq<InboundEvent>) -> Seq<InboundEvent>
    decreases events.len(),
{
    if events.len() == 0 {
        Seq::<InboundEvent>::empty()
    } else if is_immediate(events[0]) {
        spec_deferred(events.drop_first())
    } else {
        seq![events[0]] + spec_deferred(events.drop_first())
    }
}

impl Session {
    /// The log buffer stays within its bound.
    pub open spec fn wf(&self) -> bool {
        self.logs.wf()
    }

    /// A fresh session: nothing logged, nothing pending, no load underway,
    /// no error.
    pub fn new() -> (r: Session)
        ensures
            r.wf(),
            r.logs@ == Seq::<LogEntry>::empty(),
            r.pending_events@ == Seq::<InboundEvent>::empty(),
            r.load_time is None,
            r.fatal is None,
    {
        Session { logs: LogBuffer::new(), pending_events: Vec::new(), load_time: None, fatal: None }
    }

    /// The always-phase: processes one poll's worth of events.
    ///
    /// Immediate events update bookkeeping on the spot — a fatal connection
    /// error logs a descriptive entry and clears the deferred queue (buffered
    /// domain events become invalid once the link drops), a non-fatal error
    /// and a server message only log. Deferred events are queued only while
    /// the facade counts as connected; otherwise they are dropped and the
    /// queue stays as it was.
    pub fn update_always(&mut self, conn_state: ConnectionState, events: Vec<InboundEvent>)
        requires
            old(self).wf(),
        ensures
            final(self).wf(),
            final(self).load_time == old(self).load_time,
            final(self).fatal == old(self).fatal,
            final(self).logs@ == spec_always_logs(
                old(self).logs@,
                conn_state == ConnectionState::Connected,
                events@,
            ),
            final(self).pending_events@ == (if spec_any_fatal(events@) {
                Seq::<InboundEvent>::empty()
            } else {
                old(self).pending_events@
            }) + (if spec_connected_after(conn_state == ConnectionState::Connected, events@) {
                spec_deferred(events@)
            } else {
                Seq::<InboundEvent>::empty()
            }),
    {
        let ghost events0 = events@;
        let ghost logs0 = self.logs@;
        let ghost pending0 = self.pending_events@;
        let conn0: bool = conn_state == ConnectionState::Connected;

        let mut events = events;
        let mut connected: bool = conn0;
        let mut deferred: Vec<InboundEvent> = Vec::new();
        let ghost mut i: int = 0;

        proof {
            assert(events0.skip(0) =~= events0);
            assert(Seq::<InboundEvent>::empty() + spec_deferred(events0) =~= spec_deferred(
                events0,
            ));
        }
        #[verifier::loop_isolation(false)]
        while events.len() > 0
            invariant
                0 <= i <= events0.len(),
                events@ =~= events0.skip(i),
                self.wf(),
                self.load_time == old(self).load_time,
                self.fatal == old(self).fatal,
                spec_always_logs(logs0, conn0, events0) == spec_always_logs(
                    self.logs@,
                    connected,
                    events0.skip(i),
                ),
                spec_connected_after(conn0, events0) == spec_connected_after(
                    connected,
                    events0.skip(i),
                ),
                (if spec_any_fatal(events0) {
                    Seq::<InboundEvent>::empty()
                } else {
                    pending0
                }) == (if spec_any_fatal(events0.skip(i)) {
                    Seq::<InboundEvent>::empty()
                } else {
                    self.pending_events@
                }),
                spec_deferred(events0) == deferred@ + spec_deferred(events0.skip(i)),
            decreases events@.len(),
        {
            let e = events.remove(0);
            proof {
                let rest = events0.skip(i);
                assert(e == rest[0]);
                assert(rest[0] == events0[i]);
                assert(events@ =~= rest.drop_first());
                assert(rest.drop_first() =~= events0.skip(i + 1));
                assert(events0.take(i + 1).drop_last() =~= events0.take(i));
                assert(events0.take(i + 1).last() == events0[i]);
            }
            let ghost deferred0 = deferred@;
            match e {
                InboundEvent::Connected => {
                    connected = true;
                },
                InboundEvent::ConnectionError { fatal, refused, message } => {
                    if fatal {
                        let entry = if refused {
                            LogEntry::ConnectionRefused
                        } else if connected {
                            LogEntry::ConnectionFailed { message }
                        } else {
                            LogEntry::Disconnected { message }
                        };
                        self.logs.push(entry);
                        // Buffered domain events are stale once the link
                        // drops.
                        self.pending_events.clear();
                    } else {
                        self.logs.push(LogEntry::TransportError { message });
                    }
                },
                InboundEvent::LogMessage { message } => {
                    self.logs.push(LogEntry::ServerMessage { message });
                },
                other => {
                    deferred.push(other);
                },
            }
            proof {
                assert(spec_deferred(events0) =~= deferred@ + spec_deferred(
                    events0.skip(i + 1),
                ));
                i = i + 1;
            }
        }
        proof {
            assert(events0.skip(i).len() == 0);
            assert(deferred@ + spec_deferred(events0.skip(i)) =~= deferred@);
            assert(deferred@ =~= spec_deferred(events0));
        }

        if connected {
            self.pending_events.append(&mut deferred);
        }
        proof {
            assert(final(self).pending_events@ =~= (if spec_any_fatal(events0) {
                Seq::<InboundEvent>::empty()
            } else {
                pending0
            }) + (if spec_connected_after(conn0, events0) {
                spec_deferred(events0)
            } else {
                Seq::<InboundEvent>::empty()
            }));
        }
    }

    /// Takes the deferred events for live-phase processing, leaving the
    /// queue empty.
    pub fn take_events(&mut self) -> (r: Vec<InboundEvent>)
        requires
            old(self).wf(),
        ensures
            final(self).wf(),
            r@ == old(self).pending_events@,
            final(self).pending_events@ == Seq::<InboundEvent>::empty(),
            final(self).logs == old(self).logs,
            final(self).load_time == old(self).load_time,
            final(self).fatal == old(self).fatal,
    {
        let mut taken: Vec<InboundEvent> = Vec::new();
        core::mem::swap(&mut taken, &mut self.pending_events);
        taken
    }

    /// Takes the fatal error for display, exactly once. The slot is
    /// immediately re-armed with a placeholder, so the live phase stays
    /// disabled for the rest of the process even though the original error
    /// text is gone.
    pub fn take_error(&mut self) -> (r: Option<FatalError>)
        requires
            old(self).wf(),
        ensures
            final(self).wf(),
            final(self).logs == old(self).logs,
            final(self).pending_events == old(self).pending_events,
            final(self).load_time == old(self).load_time,
            match old(self).fatal {
                Some(e) => r == Some(e) && final(self).fatal == Some(FatalError::Displaced),
                None => r is None && final(self).fatal is None,
            },
    {
        let taken = self.fatal.take();
        if taken.is_some() {
            self.fatal = Some(FatalError::Displaced);
        }
        taken
    }

    /// The load timer after one tick: the main menu clears it, a running
    /// load keeps it, and a load with no timer starts one now.
    pub open spec fn spec_load_time_after(
        load_time: Option<u64>,
        is_main_menu: bool,
        now: u64,
    ) -> Option<u64> {
        if is_main_menu {
            None
        } else if load_time is None {
            Some(now)
        } else {
            load_time
        }
    }

    /// Whether the load grace period has passed: there is no running load
    /// timer, or it started at least the grace period ago.
    pub open spec fn spec_grace_passed(load_time: Option<u64>, now: u64) -> bool {
        match load_time {
            Some(t) => now - t >= LOAD_GRACE_MS,
            None => true,
        }
    }

    /// Decides whether the live phase runs this tick. Without a connection
    /// or with the fatal slot occupied nothing happens, not even timer
    /// bookkeeping; otherwise the load timer is updated and the live phase
    /// runs once the grace period has passed.
    pub fn live_gate(&mut self, client_present: bool, is_main_menu: bool, now: u64) -> (live:
        bool)
        requires
            old(self).wf(),
            match old(self).load_time {
                Some(t) => t <= now,
                None => true,
            },
        ensures
            final(self).wf(),
            final(self).logs == old(self).logs,
            final(self).pending_events == old(self).pending_events,
            final(self).fatal == old(self).fatal,
            !client_present || old(self).fatal is Some ==> !live && final(self).load_time == old(
                self,
            ).load_time,
            client_present && old(self).fatal is None ==> ({
                &&& final(self).load_time == Self::spec_load_time_after(
                    old(self).load_time,
                    is_main_menu,
                    now,
                )
                &&& live == Self::spec_grace_passed(final(self).load_time, now)
            }),
            match final(self).load_time {
                Some(t) => t <= now,
                None => true,
            },
    {
        if !client_present || self.fatal.is_some() {
            return false;
        }

        if is_main_menu {
            self.load_time = None;
        } else if self.load_time.is_none() {
            self.load_time = Some(now);
        }

        match self.load_time {
            Some(t) => now - t >= LOAD_GRACE_MS,
            None => true,
        }
    }
}

/// The log entry emitted when a reconnection attempt starts: only a
/// connection that is actually down announces the retry.
pub fn reconnect_log(conn_state: ConnectionState) -> (r: Option<LogEntry>)
    ensures
        r == if conn_state == ConnectionState::Disconnected {
            Some(LogEntry::Reconnecting)
        } else {
            None::<LogEntry>
        },
{
    if conn_state == ConnectionState::Disconnected {
        Some(LogEntry::Reconnecting)
    } else {
        None
    }
}

/// Law (load-grace gating): starting a load at `t0` with no timer running,
/// the live phase is gated off at every `now` before `t0` plus the grace
/// period, and on from then, as long as the player stays in the game.
pub proof fn lemma_load_grace(t0: u64, now: u64)
    requires
        t0 <= now,
    ensures
        Session::spec_load_time_after(None, false, t0) == Some(t0),
        Session::spec_load_time_after(Some(t0), false, now) == Some(t0),
        Session::spec_grace_passed(Some(t0), now) <==> now >= t0 + LOAD_GRACE_MS,
{
}

} // verus!
