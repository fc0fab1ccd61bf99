//! The per-guild session model: the voice channel the bot occupies, the
//! playback queue of source URLs, and the idle counter the watchdog drives.
//! One session exists per guild while the bot is connected there; it is
//! created by `join` and destroyed by `leave` or by the watchdog.

use vstd::prelude::*;
use crate::watchdog::IdleCounter;
use crate::watchdog::IDLE_TICK_LIMIT;

verus! {

/// The bot's state for one guild while connected to a voice channel.
#[derive(Debug)]
pub struct Session {
    /// The voice channel the bot joined.
    pub channel_id: u64,
    /// The playback queue: source URLs, head first.
    pub queue: Vec<String>,
    /// Consecutive watchdog checks that found the channel empty.
    pub idle: IdleCounter,
}

impl Session {
    /// A live session's idle counter is always short of the disconnect
    /// limit: the tick that reaches the limit also destroys the session.
    pub open spec fn wf(self) -> bool {
        self.idle.count < IDLE_TICK_LIMIT
    }

    /// A fresh session for `channel_id`: empty queue, idle counter at zero.
    pub fn new(channel_id: u64) -> (s: Session)
        ensures
            s.channel_id == channel_id,
            s.queue@.len() == 0,
            s.idle.count == 0,
            s.wf(),
    {
        Session { channel_id, queue: Vec::new(), idle: IdleCounter::new() }
    }
}

} // verus!
