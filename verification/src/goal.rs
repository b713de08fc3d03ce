//! One-shot goal notification: report session completion once per process
//! lifetime, re-sent on restart in case a prior report was lost in transit.

use vstd::prelude::*;

verus! {

/// Whether every flag in `s` holds.
pub open spec fn all_true(s: Seq<bool>) -> bool {
    forall|i: int| 0 <= i < s.len() ==> #[trigger] s[i]
}

/// Whether a goal report fires this tick: the flags are readable, every goal
/// condition holds, a connection exists, and no report was sent yet in this
/// process.
pub open spec fn spec_goal_fires(
    sent_goal: bool,
    goal_flags: Seq<bool>,
    flags_loaded: bool,
    client_present: bool,
) -> bool {
    flags_loaded && !sent_goal && client_present && all_true(goal_flags)
}

/// Checks the goal conditions and decides whether to report completion.
/// Returns whether to send the report; the sent flag is set so no further
/// report goes out this process.
pub fn handle_goal(
    sent_goal: &mut bool,
    goal_flags: &Vec<bool>,
    flags_loaded: bool,
    client_present: bool,
) -> (send: bool)
    ensures
        send == spec_goal_fires(*old(sent_goal), goal_flags@, flags_loaded, client_present),
        *final(sent_goal) == (*old(sent_goal) || send),
{
    if !flags_loaded || *sent_goal || !client_present {
        return false;
    }
    let n: usize = goal_flags.len();
    let mut i: usize = 0;
    #[verifier::loop_isolation(false)]
    while i < n
        invariant
            0 <= i <= n,
            forall|j: int| 0 <= j < i ==> #[trigger] goal_flags@[j],
        decreases n - i,
    {
        if !goal_flags[i] {
            return false;
        }
        i = i + 1;
    }
    *sent_goal = true;
    true
}

/// Law: goal reporting is idempotent within a process. Once a report fires,
/// the sent flag is set, and no later tick can fire again, whatever its
/// inputs.
pub proof fn lemma_goal_idempotent(
    sent0: bool,
    flags1: Seq<bool>,
    loaded1: bool,
    client1: bool,
    flags2: Seq<bool>,
    loaded2: bool,
    client2: bool,
)
    ensures
        spec_goal_fires(sent0, flags1, loaded1, client1) ==> !spec_goal_fires(
            sent0 || spec_goal_fires(sent0, flags1, loaded1, client1),
            flags2,
            loaded2,
            client2,
        ),
{
}

} // verus!
