//! A plain model of a guild's voice-state roster: which user sits in which
//! voice channel.  The watchdog's emptiness test and the `join` command's
//! channel lookup are decided over this model.

use vstd::prelude::*;

verus! {

/// One user's voice state: the channel the user currently occupies, if any.
#[derive(Clone, Copy, Debug)]
pub struct VoiceState {
    pub user_id: u64,
    pub channel_id: Option<u64>,
}

/// Whether `vs` places a member other than the bot itself in `channel`.
pub open spec fn member_in_channel(vs: VoiceState, channel: u64, bot: u64) -> bool {
    vs.channel_id == Some(channel) && vs.user_id != bot
}

/// Whether the bot is alone in `channel`: no roster entry puts a non-bot
/// member there.
pub open spec fn spec_alone(roster: Seq<VoiceState>, channel: u64, bot: u64) -> bool {
    forall|i: int|
        0 <= i < roster.len() ==> !member_in_channel(#[trigger] roster[i], channel, bot)
}

/// The channel of the first roster entry for `user`, if that entry places
/// the user in one.  A roster carries at most one entry per user, so "first"
/// is merely a tiebreak.
pub open spec fn spec_user_channel(roster: Seq<VoiceState>, user: u64) -> Option<u64>
    decreases roster.len(),
{
    if roster.len() == 0 {
        None
    } else if roster[0].user_id == user {
        roster[0].channel_id
    } else {
        spec_user_channel(roster.drop_first(), user)
    }
}

/// Decides whether the bot is alone in `channel_id`: true when no member of
/// the roster other than the bot itself occupies that channel.
pub fn check_alone(roster: &Vec<VoiceState>, channel_id: u64, bot_id: u64) -> (r: bool)
    ensures
        r == spec_alone(roster@, channel_id, bot_id),
{
    let mut i: usize = 0;
    while i < roster.len()
        invariant
            i <= roster@.len(),
            forall|j: int|
                0 <= j < i ==> !member_in_channel(#[trigger] roster@[j], channel_id, bot_id),
        decreases roster@.len() - i,
    {
        let vs = roster[i];
        let occupied = match vs.channel_id {
            Some(c) => c == channel_id && vs.user_id != bot_id,
            None => false,
        };
        if occupied {
            return false;
        }
        i = i + 1;
    }
    true
}

/// Looks up the voice channel that `user_id` currently occupies.
pub fn find_user_channel(roster: &Vec<VoiceState>, user_id: u64) -> (r: Option<u64>)
    ensures
        r == spec_user_channel(roster@, user_id),
{
    let mut i: usize = 0;
    proof {
        assert(roster@.skip(0) =~= roster@);
    }
    while i < roster.len()
        invariant
            i <= roster@.len(),
            spec_user_channel(roster@, user_id) == spec_user_channel(
                roster@.skip(i as int),
                user_id,
            ),
        decreases roster@.len() - i,
    {
        let vs = roster[i];
        proof {
            assert(roster@.skip(i as int)[0] == roster@[i as int]);
        }
        if vs.user_id == user_id {
            return vs.channel_id;
        }
        proof {
            assert(roster@.skip(i as int).drop_first() =~= roster@.skip(i as int + 1));
        }
        i = i + 1;
    }
    proof {
        assert(roster@.skip(i as int).len() == 0);
    }
    None
}

} // verus!
