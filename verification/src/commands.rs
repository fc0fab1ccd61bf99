//! The chat command handlers, as decisions over the session model.  Each
//! handler takes the guild's session state and the command's inputs, applies
//! the change the command asks for, and names the reply the bot posts.  The
//! surrounding application performs the voice-client work — connecting,
//! resolving a source, enqueueing — exactly where a decision calls for it.

use vstd::prelude::*;
use crate::reply::Reply;
use crate::session::Session;
use crate::text::starts_with_http;
use crate::text::url_is_http;

verus! {

/// What `play` decides before any source resolution: either a rejection
/// reply, or the URL to hand to the resolver.
#[derive(Debug)]
pub enum PlayDecision {
    /// The command is refused with this reply; the resolver is never asked.
    Reject(Reply),
    /// The argument passed validation and a session exists: resolve this URL.
    Resolve(String),
}

/// `ping` answers unconditionally.
pub fn ping() -> (r: Reply)
    ensures
        r == Reply::Pong,
{
    Reply::Pong
}

/// Decision for `join`.  `user_channel` is the voice channel the invoking
/// user currently occupies, if any; `join_ok` reports whether the voice
/// client succeeded when asked to connect to it.  On success the guild gets
/// a fresh session — empty queue, idle counter at zero.
pub fn join(session: &mut Option<Session>, user_channel: Option<u64>, join_ok: bool) -> (r: Reply)
    ensures
        user_channel is None ==> (*final(session)) == (*old(session)) && r == Reply::NotInVoice,
        user_channel matches Some(c) ==> {
            &&& join_ok ==> {
                &&& (*final(session)) matches Some(s)
                &&& s.channel_id == c
                &&& s.queue@.len() == 0
                &&& s.idle.count == 0
                &&& s.wf()
                &&& r == Reply::Joined(c)
            }
            &&& !join_ok ==> (*final(session)) == (*old(session)) && r == Reply::FailedJoin
        },
{
    match user_channel {
        Option::None => Reply::NotInVoice,
        Option::Some(c) => {
            if join_ok {
                *session = Option::Some(Session::new(c));
                Reply::Joined(c)
            } else {
                Reply::FailedJoin
            }
        },
    }
}

/// Decision for `leave`: an existing session is torn down; without one the
/// command is refused and nothing changes.
pub fn leave(session: &mut Option<Session>) -> (r: Reply)
    ensures
        (*old(session)) is None ==> (*final(session)) is None && r == Reply::NotInVoiceChannel,
        (*old(session)) is Some ==> (*final(session)) is None && r == Reply::LeftVoice,
{
    if session.is_some() {
        *session = Option::None;
        Reply::LeftVoice
    } else {
        Reply::NotInVoiceChannel
    }
}

/// Decision for `play`, before any source resolution.  The argument list
/// must hold exactly one entry, the entry must start with `http`, and a
/// session must exist; the first check to fail names the rejection, and the
/// resolver is reached only when all three pass.
pub fn play(session: &Option<Session>, args: &Vec<String>) -> (d: PlayDecision)
    ensures
        args@.len() != 1 ==> d == PlayDecision::Reject(Reply::MustProvideUrl),
        args@.len() == 1 && !starts_with_http(args@[0]@) ==> d == PlayDecision::Reject(
            Reply::InvalidUrl,
        ),
        args@.len() == 1 && starts_with_http(args@[0]@) && session is None ==> d
            == PlayDecision::Reject(Reply::NotInVoiceChannelToPlay),
        args@.len() == 1 && starts_with_http(args@[0]@) && session is Some ==> {
            &&& d matches PlayDecision::Resolve(u)
            &&& u@ == args@[0]@
        },
{
    if args.len() != 1 {
        PlayDecision::Reject(Reply::MustProvideUrl)
    } else {
        let url = &args[0];
        if !url_is_http(url.as_str()) {
            PlayDecision::Reject(Reply::InvalidUrl)
        } else if session.is_some() {
            PlayDecision::Resolve(url.clone())
        } else {
            PlayDecision::Reject(Reply::NotInVoiceChannelToPlay)
        }
    }
}

/// Completion of `play` once the resolver's outcome is known: a resolved
/// source is appended to the queue and the reply names its position; a
/// resolver failure changes nothing.  A session gone by completion time
/// (torn down while the resolver ran) discards the result.
pub fn play_resolved(session: &mut Option<Session>, url: String, resolved: bool) -> (r: Reply)
    ensures
        !resolved ==> (*final(session)) == (*old(session)) && r == Reply::ErrorSourcing,
        resolved && (*old(session)) is None ==> (*final(session)) is None && r
            == Reply::NotInVoiceChannelToPlay,
        (*old(session)) matches Some(s) ==> resolved ==> {
            &&& (*final(session)) matches Some(s2)
            &&& s2.channel_id == s.channel_id
            &&& s2.idle == s.idle
            &&& s2.queue@ == s.queue@.push(url)
            &&& r == Reply::Added((s.queue@.len() + 1) as u64)
        },
{
    if !resolved {
        return Reply::ErrorSourcing;
    }
    match session {
        Option::None => Reply::NotInVoiceChannelToPlay,
        Option::Some(s) => {
            s.queue.push(url);
            Reply::Added(s.queue.len() as u64)
        },
    }
}

/// The queue after `skip`: the head entry — the one playing — is dropped;
/// an empty queue stays empty.
pub open spec fn queue_after_skip(q: Seq<String>) -> Seq<String> {
    if q.len() == 0 {
        q
    } else {
        q.drop_first()
    }
}

/// Decision for `skip`: drops the head of an existing session's queue and
/// names how many entries remain; without a session the command is refused
/// and nothing changes.
pub fn skip(session: &mut Option<Session>) -> (r: Reply)
    ensures
        (*old(session)) is None ==> (*final(session)) is None && r == Reply::NotInVoiceChannel,
        (*old(session)) matches Some(s) ==> {
            &&& (*final(session)) matches Some(s2)
            &&& s2.channel_id == s.channel_id
            &&& s2.idle == s.idle
            &&& s2.queue@ == queue_after_skip(s.queue@)
            &&& r == Reply::Skipped(s2.queue@.len() as u64)
        },
{
    match session {
        Option::None => Reply::NotInVoiceChannel,
        Option::Some(s) => {
            if s.queue.len() > 0 {
                let _ = s.queue.remove(0);
                proof {
                    assert(s.queue@ =~= queue_after_skip(old(session)->Some_0.queue@));
                }
            }
            Reply::Skipped(s.queue.len() as u64)
        },
    }
}

/// Decision for `stop`: empties an existing session's queue; without a
/// session the command is refused and nothing changes.
pub fn stop(session: &mut Option<Session>) -> (r: Reply)
    ensures
        (*old(session)) is None ==> (*final(session)) is None && r == Reply::NotInVoiceChannel,
        (*old(session)) matches Some(s) ==> {
            &&& (*final(session)) matches Some(s2)
            &&& s2.channel_id == s.channel_id
            &&& s2.idle == s.idle
            &&& s2.queue@.len() == 0
            &&& r == Reply::QueueCleared
        },
{
    match session {
        Option::None => Reply::NotInVoiceChannel,
        Option::Some(s) => {
            s.queue.clear();
            Reply::QueueCleared
        },
    }
}

/// The notification posted when tracks finish playing.
pub fn track_end(ended: u64) -> (r: Reply)
    ensures
        r == Reply::TracksEnded(ended),
{
    Reply::TracksEnded(ended)
}

} // verus!
