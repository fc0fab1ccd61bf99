//! The chat replies the bot can send.  Every handler decision names its
//! reply as a value of [`Reply`]; [`Reply::message`] renders the exact text
//! the bot posts, verified against the spec-level text.

use vstd::prelude::*;
use vstd::string::StringExecFns;
use crate::text::decimal_string;
use crate::text::spec_decimal;

verus! {

/// Everything the bot ever says in chat.
#[derive(Clone, Copy, PartialEq, Eq, Structural, Debug)]
pub enum Reply {
    /// `ping` succeeded.
    Pong,
    /// `join` found the invoking user in no voice channel.
    NotInVoice,
    /// `leave`, `skip` or `stop` found no session for the guild.
    NotInVoiceChannel,
    /// `play` found no session for the guild.
    NotInVoiceChannelToPlay,
    /// `join` connected to the channel (carried by id, mentioned in chat).
    Joined(u64),
    /// `join` asked the voice client to connect and it refused.
    FailedJoin,
    /// `leave` tore the session down.
    LeftVoice,
    /// `play` got no argument, or more than one.
    MustProvideUrl,
    /// `play` got an argument that does not start with `http`.
    InvalidUrl,
    /// The source resolver failed on the URL.
    ErrorSourcing,
    /// `play` queued the source at this position.
    Added(u64),
    /// `skip` dropped the head of the queue; this many entries remain.
    Skipped(u64),
    /// `stop` emptied the queue.
    QueueCleared,
    /// This many tracks finished playing.
    TracksEnded(u64),
    /// The watchdog tore the session down for lack of listeners.
    LeftIdle,
}

/// The exact chat text for each reply.
pub open spec fn spec_message(r: Reply) -> Seq<char> {
    match r {
        Reply::Pong => "Pong!"@,
        Reply::NotInVoice => "Not in a voice"@,
        Reply::NotInVoiceChannel => "Not in a voice channel"@,
        Reply::NotInVoiceChannelToPlay => "Not in a voice channel to play in"@,
        Reply::Joined(c) => "Joined <#"@ + spec_decimal(c as nat) + ">"@,
        Reply::FailedJoin => "Failed to join channel"@,
        Reply::LeftVoice => "Left voice"@,
        Reply::MustProvideUrl => "Must provide a URL to a video or audio"@,
        Reply::InvalidUrl => "Must provide a valid URL"@,
        Reply::ErrorSourcing => "Error sourcing ffmpeg"@,
        Reply::Added(n) => "Added song to queue: position "@ + spec_decimal(n as nat),
        Reply::Skipped(n) => "Song skipped: "@ + spec_decimal(n as nat) + " in queue."@,
        Reply::QueueCleared => "Queue cleared."@,
        Reply::TracksEnded(n) => "Tracks ended: "@ + spec_decimal(n as nat),
        Reply::LeftIdle => "Left voice due to lack of frens :((("@,
    }
}

impl Reply {
    /// Renders the reply as the exact text the bot posts in chat.
    pub fn message(&self) -> (r: String)
        ensures
            r@ == spec_message(*self),
    {
        match self {
            Reply::Pong => String::from_str("Pong!"),
            Reply::NotInVoice => String::from_str("Not in a voice"),
            Reply::NotInVoiceChannel => String::from_str("Not in a voice channel"),
            Reply::NotInVoiceChannelToPlay => String::from_str(
                "Not in a voice channel to play in",
            ),
            Reply::Joined(c) => String::from_str("Joined <#").concat(
                decimal_string(*c).as_str(),
            ).concat(">"),
            Reply::FailedJoin => String::from_str("Failed to join channel"),
            Reply::LeftVoice => String::from_str("Left voice"),
            Reply::MustProvideUrl => String::from_str("Must provide a URL to a video or audio"),
            Reply::InvalidUrl => String::from_str("Must provide a valid URL"),
            Reply::ErrorSourcing => String::from_str("Error sourcing ffmpeg"),
            Reply::Added(n) => String::from_str("Added song to queue: position ").concat(
                decimal_string(*n).as_str(),
            ),
            Reply::Skipped(n) => String::from_str("Song skipped: ").concat(
                decimal_string(*n).as_str(),
            ).concat(" in queue."),
            Reply::QueueCleared => String::from_str("Queue cleared."),
            Reply::TracksEnded(n) => String::from_str("Tracks ended: ").concat(
                decimal_string(*n).as_str(),
            ),
            Reply::LeftIdle => String::from_str("Left voice due to lack of frens :((("),
        }
    }
}

} // verus!
