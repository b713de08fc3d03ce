//! Parsing for the text-console debug commands: reading and writing an event
//! flag by id. The engine only parses and classifies; the host performs the
//! flag access and logs the outcome.

use vstd::prelude::*;
use crate::log_buffer::{ConsoleCommand, LogEntry};
use crate::parse::{spec_parse_bool, spec_parse_u32, parse_bool, parse_u32, str_eq};

verus! {

/// What a console command asks for.
#[derive(Clone, Copy, Debug, PartialEq, Eq, Structural)]
pub enum CommandAction {
    /// Not one of the engine's commands; the host may handle it elsewhere.
    NotHandled,
    /// A known command with a malformed argument; show its usage.
    Usage { command: ConsoleCommand },
    /// Read an event flag.
    GetEvent { flag: u32 },
    /// Write an event flag.
    SetEvent { flag: u32, value: bool },
}

/// Whether `s` splits at `(i, j)` into exactly two space-free fields
/// separated by one run of spaces: the field before `i`, the spaces from `i`
/// to `j`, and the field from `j` on.
pub open spec fn spec_two_fields_at(s: Seq<char>, i: int, j: int) -> bool {
    &&& 1 <= i < j < s.len()
    &&& (forall|k: int| 0 <= k < i ==> s[k] != ' ')
    &&& (forall|k: int| i <= k < j ==> s[k] == ' ')
    &&& (forall|k: int| j <= k < s.len() ==> s[k] != ' ')
}

/// A string splits into two fields in at most one way.
proof fn lemma_two_fields_unique(s: Seq<char>, i1: int, j1: int, i2: int, j2: int)
    requires
        spec_two_fields_at(s, i1, j1),
        spec_two_fields_at(s, i2, j2),
    ensures
        i1 == i2,
        j1 == j2,
{
    if i1 < i2 {
        assert(s[i1] == ' ');
    }
    if i2 < i1 {
        assert(s[i2] == ' ');
    }
    if j1 < j2 {
        assert(s[j1] != ' ');
        assert(s[j1] == ' ');
    }
    if j2 < j1 {
        assert(s[j2] != ' ');
        assert(s[j2] == ' ');
    }
}

/// Parses the argument of the flag-writing command: a flag id and a boolean,
/// separated by spaces, with nothing before or after.
pub fn parse_setevent_arg(s: &str) -> (r: Option<(u32, bool)>)
    ensures
        match r {
            Some(parsed) => exists|i: int, j: int|
                {
                    &&& #[trigger] spec_two_fields_at(s@, i, j)
                    &&& spec_parse_u32(s@.take(i)) == Some(parsed.0)
                    &&& spec_parse_bool(s@.skip(j)) == Some(parsed.1)
                },
            None => forall|i: int, j: int|
                #[trigger] spec_two_fields_at(s@, i, j) ==> spec_parse_u32(s@.take(i)) is None
                    || spec_parse_bool(s@.skip(j)) is None,
        },
{
    let n: usize = s.unicode_len();

    // The start of the separating run of spaces: the first space.
    let mut i: usize = 0;
    #[verifier::loop_isolation(false)]
    while i < n && s.get_char(i) != ' '
        invariant
            0 <= i <= n,
            n == s@.len(),
            forall|k: int| 0 <= k < i ==> s@[k] != ' ',
        decreases n - i,
    {
        i = i + 1;
    }
    if i == n {
        // No space at all: a single field.
        proof {
            assert forall|i2: int, j2: int| spec_two_fields_at(s@, i2, j2) implies false by {
                assert(s@[i2] == ' ');
            }
        }
        return None;
    }
    if i == 0 {
        // Leading space: an empty first field.
        proof {
            assert forall|i2: int, j2: int| spec_two_fields_at(s@, i2, j2) implies false by {
                assert(s@[0] == ' ');
            }
        }
        return None;
    }

    // The end of the separating run: the first non-space after it.
    let mut j: usize = i;
    #[verifier::loop_isolation(false)]
    while j < n && s.get_char(j) == ' '
        invariant
            i <= j <= n,
            forall|k: int| i <= k < j ==> s@[k] == ' ',
        decreases n - j,
    {
        j = j + 1;
    }
    if j == n {
        // Only spaces after the first field: an empty second field.
        proof {
            assert forall|i2: int, j2: int| spec_two_fields_at(s@, i2, j2) implies false by {
                assert(s@[i2] == ' ');
                assert(i2 == i);
                assert(s@[j2] == ' ');
                assert(s@[j2] != ' ');
            }
        }
        return None;
    }

    // The second field must run to the end without further spaces.
    let mut k: usize = j;
    #[verifier::loop_isolation(false)]
    while k < n && s.get_char(k) != ' '
        invariant
            j <= k <= n,
            forall|m: int| j <= m < k ==> s@[m] != ' ',
        decreases n - k,
    {
        k = k + 1;
    }
    if k < n {
        // A third field follows: too many fields.
        proof {
            assert(s@[k as int] == ' ');
            assert forall|i2: int, j2: int| spec_two_fields_at(s@, i2, j2) implies false by {
                assert(s@[i2] == ' ');
                assert(i2 == i);
                assert(j2 <= j);
                assert(s@[k as int] != ' ');
            }
        }
        return None;
    }

    proof {
        assert(spec_two_fields_at(s@, i as int, j as int));
    }
    let a = s.substring_char(0, i);
    let b = s.substring_char(j, n);
    proof {
        assert(a@ =~= s@.take(i as int));
        assert(b@ =~= s@.skip(j as int));
    }
    let flag = match parse_u32(a) {
        Some(f) => f,
        None => {
            proof {
                assert forall|i2: int, j2: int|
                    spec_two_fields_at(s@, i2, j2) implies spec_parse_u32(s@.take(i2)) is None
                    || spec_parse_bool(s@.skip(j2)) is None by {
                    lemma_two_fields_unique(s@, i as int, j as int, i2, j2);
                }
            }
            return None;
        },
    };
    let value = match parse_bool(b) {
        Some(v) => v,
        None => {
            proof {
                assert forall|i2: int, j2: int|
                    spec_two_fields_at(s@, i2, j2) implies spec_parse_u32(s@.take(i2)) is None
                    || spec_parse_bool(s@.skip(j2)) is None by {
                    lemma_two_fields_unique(s@, i as int, j as int, i2, j2);
                }
            }
            return None;
        },
    };
    Some((flag, value))
}

/// Classifies a console command line.
///
/// The flag-reading command takes a flag id; the flag-writing command takes
/// a flag id and a boolean separated by spaces. A known command with a
/// malformed argument yields its usage; anything else is not handled.
pub fn parse_command(command: &str, arg: Option<&str>) -> (r: CommandAction)
    ensures
        command@ != "!getevent"@ && command@ != "!setevent"@ ==> r == CommandAction::NotHandled,
        command@ == "!getevent"@ ==> match arg {
            Some(a) => r == match spec_parse_u32(a@) {
                Some(f) => CommandAction::GetEvent { flag: f },
                None => CommandAction::Usage { command: ConsoleCommand::GetEvent },
            },
            None => r == CommandAction::Usage { command: ConsoleCommand::GetEvent },
        },
        command@ == "!setevent"@ ==> match arg {
            Some(a) => match r {
                CommandAction::SetEvent { flag, value } => exists|i: int, j: int|
                    {
                        &&& #[trigger] spec_two_fields_at(a@, i, j)
                        &&& spec_parse_u32(a@.take(i)) == Some(flag)
                        &&& spec_parse_bool(a@.skip(j)) == Some(value)
                    },
                CommandAction::Usage { command: c } => c == ConsoleCommand::SetEvent && forall|
                    i: int,
                    j: int,
                |
                    #[trigger] spec_two_fields_at(a@, i, j) ==> spec_parse_u32(a@.take(i)) is None
                        || spec_parse_bool(a@.skip(j)) is None,
                _ => false,
            },
            None => r == CommandAction::Usage { command: ConsoleCommand::SetEvent },
        },
{
    proof {
        reveal_strlit("!getevent");
        reveal_strlit("!setevent");
        assert("!getevent"@ != "!setevent"@) by {
            assert("!getevent"@[1] == 'g');
            assert("!setevent"@[1] == 's');
        }
    }
    if str_eq(command, "!getevent") {
        match arg {
            Some(a) => match parse_u32(a) {
                Some(flag) => CommandAction::GetEvent { flag },
                None => CommandAction::Usage { command: ConsoleCommand::GetEvent },
            },
            None => CommandAction::Usage { command: ConsoleCommand::GetEvent },
        }
    } else if str_eq(command, "!setevent") {
        match arg {
            Some(a) => match parse_setevent_arg(a) {
                Some(parsed) => CommandAction::SetEvent { flag: parsed.0, value: parsed.1 },
                None => CommandAction::Usage { command: ConsoleCommand::SetEvent },
            },
            None => CommandAction::Usage { command: ConsoleCommand::SetEvent },
        }
    } else {
        CommandAction::NotHandled
    }
}

/// The log entry for the outcome of a flag access performed by the host.
pub fn event_flag_log(flag: u32, value: bool, written: bool) -> (r: LogEntry)
    ensures
        r == if written {
            LogEntry::EventFlagSet { flag, value }
        } else {
            LogEntry::EventFlagRead { flag, value }
        },
{
    if written {
        LogEntry::EventFlagSet { flag, value }
    } else {
        LogEntry::EventFlagRead { flag, value }
    }
}

} // verus!
