//! The idle-channel watchdog: a counter of consecutive checks that found the
//! bot alone in its voice channel, and the periodic tick that advances it.
//! After `IDLE_TICK_LIMIT` consecutive empty checks the session is torn down;
//! any check that finds company resets the counter to zero.

use vstd::prelude::*;
use crate::reply::Reply;
use crate::roster::VoiceState;
use crate::roster::check_alone;
use crate::roster::member_in_channel;
use crate::roster::spec_alone;
use crate::session::Session;

verus! {

/// Consecutive empty checks after which the bot disconnects.
pub const IDLE_TICK_LIMIT: u64 = 5;

/// Counts consecutive watchdog checks that found the channel empty.
#[derive(Clone, Copy, PartialEq, Eq, Structural, Debug)]
pub struct IdleCounter {
    pub count: u64,
}

/// The counter after one check: up by one when the channel was empty,
/// back to zero when it was not.
pub open spec fn spec_tick_count(count: nat, empty: bool) -> nat {
    if empty {
        count + 1
    } else {
        0
    }
}

/// Whether one check requests the disconnect: only an empty check that
/// brings the counter to the limit does.
pub open spec fn spec_tick_fires(count: nat, empty: bool) -> bool {
    empty && count + 1 >= IDLE_TICK_LIMIT
}

impl IdleCounter {
    /// A fresh counter, as registered at join time.
    pub fn new() -> (r: IdleCounter)
        ensures
            r.count == 0,
    {
        IdleCounter { count: 0 }
    }

    /// One periodic check: `empty` reports whether the channel held no
    /// member besides the bot.  Returns whether the disconnect is requested.
    pub fn tick(&mut self, empty: bool) -> (disconnect: bool)
        requires
            old(self).count < IDLE_TICK_LIMIT,
        ensures
            final(self).count == spec_tick_count(old(self).count as nat, empty),
            disconnect == spec_tick_fires(old(self).count as nat, empty),
    {
        if empty {
            self.count = self.count + 1;
            self.count >= IDLE_TICK_LIMIT
        } else {
            self.count = 0;
            false
        }
    }
}

/// The counter after `n` consecutive empty checks starting from `count`.
pub open spec fn run_empty_ticks(count: nat, n: nat) -> nat
    decreases n,
{
    if n == 0 {
        count
    } else {
        spec_tick_count(run_empty_ticks(count, (n - 1) as nat), true)
    }
}

/// Consecutive empty checks simply add up.
pub proof fn lemma_empty_run_counts(count: nat, n: nat)
    ensures
        run_empty_ticks(count, n) == count + n,
    decreases n,
{
    if n > 0 {
        lemma_empty_run_counts(count, (n - 1) as nat);
    }
}

/// Law: starting from a fresh counter, the `k`-th of a run of consecutive
/// empty checks requests the disconnect exactly when `k` is the limit: none
/// of the first four checks requests it, the fifth does — so a full run of
/// five requests it exactly once.
pub proof fn lemma_five_empty_ticks(k: nat)
    requires
        1 <= k <= IDLE_TICK_LIMIT,
    ensures
        spec_tick_fires(run_empty_ticks(0, (k - 1) as nat), true) <==> k == IDLE_TICK_LIMIT,
        run_empty_ticks(0, k) == k,
{
    lemma_empty_run_counts(0, (k - 1) as nat);
    lemma_empty_run_counts(0, k);
}

/// Law: a check that finds company resets the counter to zero, whatever its
/// prior value (the limit less one included), and requests no disconnect;
/// a further full run of five consecutive empty checks is then needed before
/// the disconnect is requested again.
pub proof fn lemma_reset_restarts_run(count: nat, k: nat)
    requires
        1 <= k <= IDLE_TICK_LIMIT,
    ensures
        !spec_tick_fires(count, false),
        spec_tick_count(count, false) == 0,
        spec_tick_fires(
            run_empty_ticks(spec_tick_count(count, false), (k - 1) as nat),
            true,
        ) <==> k == IDLE_TICK_LIMIT,
{
    lemma_five_empty_ticks(k);
}

/// Law: a roster holding at least one non-bot member of the channel is not
/// "alone"; the check then resets the idle counter to zero whatever its
/// prior value, and requests no disconnect.
pub proof fn lemma_member_resets_counter(
    roster: Seq<VoiceState>,
    channel: u64,
    bot: u64,
    count: nat,
    witness: int,
)
    requires
        0 <= witness < roster.len(),
        member_in_channel(roster[witness], channel, bot),
    ensures
        !spec_alone(roster, channel, bot),
        spec_tick_count(count, spec_alone(roster, channel, bot)) == 0,
        !spec_tick_fires(count, spec_alone(roster, channel, bot)),
{
}

/// One scheduled watchdog tick for a guild: inspects the roster, advances
/// the session's idle counter, and tears the session down — asking for the
/// parting notification to be sent — once the counter reaches the limit.
pub fn watchdog_tick(session: &mut Option<Session>, roster: &Vec<VoiceState>, bot_id: u64) -> (r:
    Option<Reply>)
    requires
        (*old(session)) matches Some(s) ==> s.wf(),
    ensures
        (*old(session)) is None ==> (*final(session)) is None && r is None,
        (*old(session)) matches Some(s) ==> {
            let alone = spec_alone(roster@, s.channel_id, bot_id);
            &&& !spec_tick_fires(s.idle.count as nat, alone) ==> {
                &&& (*final(session)) matches Some(s2)
                &&& s2.channel_id == s.channel_id
                &&& s2.queue == s.queue
                &&& s2.idle.count == spec_tick_count(s.idle.count as nat, alone)
                &&& s2.wf()
                &&& r is None
            }
            &&& spec_tick_fires(s.idle.count as nat, alone) ==> {
                &&& (*final(session)) is None
                &&& r == Some(Reply::LeftIdle)
            }
        },
{
    let mut fired = false;
    match session {
        Option::Some(s) => {
            let empty = check_alone(roster, s.channel_id, bot_id);
            fired = s.idle.tick(empty);
        },
        Option::None => {},
    }
    if fired {
        *session = Option::None;
        Option::Some(Reply::LeftIdle)
    } else {
        Option::None
    }
}

} // verus!
