//! The bounded log shown in the overlay. When full, the oldest entry is
//! evicted; entries are structured so the display layer decides the wording.

use vstd::prelude::*;

verus! {

/// The maximum number of log entries to store. This is relatively low because
/// the overlay renders every stored entry each frame, which can cause real
/// slowdown over long runs with chatty connections.
pub const LOG_BUFFER_LIMIT: usize = 200;

/// One entry of the overlay log.
#[derive(Clone, Debug)]
pub enum LogEntry {
    /// The server refused the connection outright; the player should check
    /// that the session is running and the URL is current.
    ConnectionRefused,
    /// An established connection failed.
    ConnectionFailed { message: String },
    /// A connection attempt ended without ever connecting.
    Disconnected { message: String },
    /// A recoverable transport error.
    TransportError { message: String },
    /// A text message from the server.
    ServerMessage { message: String },
    /// A reconnection attempt is starting.
    Reconnecting,
    /// A death link was transmitted to the other sessions.
    DeathLinkSent,
    /// A death was counted toward amnesty; this many more deaths remain
    /// before a death link is transmitted.
    AmnestyRemaining { remaining: u8 },
    /// A placeholder item had no local reward data and is presumed to belong
    /// to a remote participant; the extra fields aid debugging.
    ForeignItem { location_id: i64, basic_price: i32, sell_value: i32 },
    /// A console command was called with a malformed argument.
    InvalidCommandArgument { command: ConsoleCommand },
    /// A console command named an event flag id the game rejects.
    InvalidEventId { flag: u32 },
    /// A console command needed the event flag subsystem before it loaded.
    FlagManagerUnavailable,
    /// The value of an event flag, read by a console command.
    EventFlagRead { flag: u32, value: bool },
    /// An event flag was written by a console command.
    EventFlagSet { flag: u32, value: bool },
}

/// The debug commands offered on the text console.
#[derive(Clone, Copy, Debug, PartialEq, Eq, Structural)]
pub enum ConsoleCommand {
    GetEvent,
    SetEvent,
}

/// The log of prints displayed in the overlay.
#[derive(Clone, Debug)]
pub struct LogBuffer {
    entries: Vec<LogEntry>,
}

/// The result of appending to a log that evicts its oldest entry when full.
pub open spec fn spec_log_push(log: Seq<LogEntry>, entry: LogEntry) -> Seq<LogEntry> {
    if log.len() >= LOG_BUFFER_LIMIT {
        log.drop_first().push(entry)
    } else {
        log.push(entry)
    }
}

/// A sequence of log pushes, oldest first.
pub open spec fn spec_push_all(log: Seq<LogEntry>, entries: Seq<LogEntry>) -> Seq<LogEntry>
    decreases entries.len(),
{
    if entries.len() == 0 {
        log
    } else {
        spec_push_all(spec_log_push(log, entries[0]), entries.drop_first())
    }
}

impl LogBuffer {
    /// The entries, oldest first.
    pub closed spec fn view(&self) -> Seq<LogEntry> {
        self.entries@
    }

    /// The buffer never holds more than [`LOG_BUFFER_LIMIT`] entries.
    pub closed spec fn wf(&self) -> bool {
        self.entries@.len() <= LOG_BUFFER_LIMIT
    }

    /// Creates an empty log.
    pub fn new() -> (r: LogBuffer)
        ensures
            r.wf(),
            r@ == Seq::<LogEntry>::empty(),
    {
        LogBuffer { entries: Vec::new() }
    }

    /// Appends an entry, evicting the oldest entry if the buffer is full.
    pub fn push(&mut self, entry: LogEntry)
        requires
            old(self).wf(),
        ensures
            final(self).wf(),
            final(self)@ == spec_log_push(old(self)@, entry),
    {
        if self.entries.len() >= LOG_BUFFER_LIMIT {
            self.entries.remove(0);
            proof {
                assert(self.entries@ =~= old(self)@.drop_first());
            }
        }
        self.entries.push(entry);
    }

    /// Appends a batch of entries in order, evicting the oldest entries as
    /// needed.
    pub fn push_all(&mut self, entries: Vec<LogEntry>)
        requires
            old(self).wf(),
        ensures
            final(self).wf(),
            final(self)@ == spec_push_all(old(self)@, entries@),
    {
        let ghost entries0 = entries@;
        let mut entries = entries;
        let ghost mut i: int = 0;
        proof {
            assert(entries0.skip(0) =~= entries0);
        }
        #[verifier::loop_isolation(false)]
        while entries.len() > 0
            invariant
                0 <= i <= entries0.len(),
                entries@ =~= entries0.skip(i),
                self.wf(),
                spec_push_all(old(self)@, entries0) == spec_push_all(self@, entries0.skip(i)),
            decreases entries@.len(),
        {
            let entry = entries.remove(0);
            proof {
                let rest = entries0.skip(i);
                assert(entry == rest[0]);
                assert(rest[0] == entries0[i]);
                assert(entries@ =~= rest.drop_first());
                assert(rest.drop_first() =~= entries0.skip(i + 1));
            }
            self.push(entry);
            proof {
                i = i + 1;
            }
        }
        proof {
            assert(entries0.skip(i).len() == 0);
        }
    }

    /// The number of stored entries.
    pub fn len(&self) -> (r: usize)
        ensures
            r == self@.len(),
    {
        self.entries.len()
    }

    /// The stored entries, oldest first.
    pub fn entries(&self) -> (r: &Vec<LogEntry>)
        ensures
            r@ == self@,
    {
        &self.entries
    }
}

} // verus!
