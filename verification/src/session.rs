//! The join/leave handshake as a pure state machine.
//!
//! The surrounding orchestration code is asynchronous and unverified: it
//! sends the voice-state command, waits for the gateway's confirmation under
//! a deadline, runs the driver's connection attempt, and hands each outcome
//! back as a [`SessionEvent`]. Every decision — what a request may do next,
//! and which [`JoinError`](crate::error::JoinError) resolves it — is taken
//! here, synchronously and deterministically.

use vstd::prelude::*;
use crate::error::ConnectionError;
use crate::error::JoinError;
use crate::error::JoinResult;

verus! {

/// Where a join handshake stands.
#[derive(Debug)]
pub enum Stage {
    /// Identifiers were accepted; the voice-state command must now be sent.
    /// This is the only stage in which the transport is invoked.
    AwaitingSend,
    /// The command was handed to the transport; the gateway's confirmation
    /// is awaited under the configured deadline.
    AwaitingConfirmation,
    /// Confirmation arrived; the media driver's connection is in flight.
    Connecting,
    /// The handshake completed.
    Joined,
    /// The handshake failed; the error says how.
    Failed(JoinError),
}

/// One outcome of the surrounding code's outside work, handed back to the
/// state machine.
#[derive(Debug)]
pub enum SessionEvent {
    /// The voice-state command was handed to the transport.
    Sent,
    /// The transport could not deliver the command; the carried error is the
    /// transport's failure already wrapped into the taxonomy.
    SendRejected(JoinError),
    /// The gateway confirmed the voice-state change.
    Confirmed,
    /// The confirmation deadline elapsed.
    DeadlineElapsed,
    /// The request was cancelled by its caller or superseded by a newer
    /// request for the same guild.
    Cancelled,
    /// The media driver established the voice connection.
    DriverConnected,
    /// The media driver's connection attempt failed.
    DriverFailed(ConnectionError),
}

/// One join handshake for one guild and channel.
#[derive(Debug)]
pub struct Session {
    /// The target guild.
    pub guild_id: u64,
    /// The target voice channel.
    pub channel_id: u64,
    /// Where the handshake stands.
    pub stage: Stage,
}

/// A resolved stage: the handshake is over and nothing may change it.
pub open spec fn is_terminal(st: Stage) -> bool {
    st is Joined || st is Failed
}

/// How a stage answers one event.
///
/// A terminal stage is frozen: a late confirmation, a stale deadline or any
/// other event is discarded rather than surfaced. An event that does not
/// belong to the current stage (a confirmation before the command was sent,
/// a deadline that raced its own cancellation) is likewise discarded.
pub open spec fn step_stage(st: Stage, ev: SessionEvent) -> Stage {
    match st {
        Stage::AwaitingSend => match ev {
            SessionEvent::Sent => Stage::AwaitingConfirmation,
            SessionEvent::SendRejected(e) => Stage::Failed(e),
            SessionEvent::Cancelled => Stage::Failed(JoinError::Dropped),
            _ => st,
        },
        Stage::AwaitingConfirmation => match ev {
            SessionEvent::Confirmed => Stage::Connecting,
            SessionEvent::DeadlineElapsed => Stage::Failed(JoinError::TimedOut),
            SessionEvent::Cancelled => Stage::Failed(JoinError::Dropped),
            _ => st,
        },
        Stage::Connecting => match ev {
            SessionEvent::DriverConnected => Stage::Joined,
            SessionEvent::DriverFailed(e) => Stage::Failed(JoinError::Driver(e)),
            SessionEvent::Cancelled => Stage::Failed(JoinError::Dropped),
            _ => st,
        },
        Stage::Joined => st,
        Stage::Failed(_) => st,
    }
}

/// [`step_stage`], lifted to the whole session.
pub open spec fn step_spec(s: Session, ev: SessionEvent) -> Session {
    Session { guild_id: s.guild_id, channel_id: s.channel_id, stage: step_stage(s.stage, ev) }
}

/// A session after a whole sequence of events, first event first.
pub open spec fn run_spec(s: Session, evs: Seq<SessionEvent>) -> Session
    decreases evs.len(),
{
    if evs.len() == 0 {
        s
    } else {
        run_spec(step_spec(s, evs[0]), evs.drop_first())
    }
}

/// Answers one event: the executable form of [`step_spec`].
pub fn step(s: Session, ev: SessionEvent) -> (t: Session)
    ensures
        t == step_spec(s, ev),
{
    let Session { guild_id, channel_id, stage } = s;
    let next = match stage {
        Stage::AwaitingSend => match ev {
            SessionEvent::Sent => Stage::AwaitingConfirmation,
            SessionEvent::SendRejected(e) => Stage::Failed(e),
            SessionEvent::Cancelled => Stage::Failed(JoinError::Dropped),
            _ => Stage::AwaitingSend,
        },
        Stage::AwaitingConfirmation => match ev {
            SessionEvent::Confirmed => Stage::Connecting,
            SessionEvent::DeadlineElapsed => Stage::Failed(JoinError::TimedOut),
            SessionEvent::Cancelled => Stage::Failed(JoinError::Dropped),
            _ => Stage::AwaitingConfirmation,
        },
        Stage::Connecting => match ev {
            SessionEvent::DriverConnected => Stage::Joined,
            SessionEvent::DriverFailed(e) => Stage::Failed(JoinError::Driver(e)),
            SessionEvent::Cancelled => Stage::Failed(JoinError::Dropped),
            _ => Stage::Connecting,
        },
        Stage::Joined => Stage::Joined,
        Stage::Failed(e) => Stage::Failed(e),
    };
    Session { guild_id, channel_id, stage: next }
}

/// What a join request resolves to before any outside work: the executable
/// form of [`begin_join_spec`].
///
/// Identifier validation happens here, synchronously; a zero guild or
/// channel identifier never produces a session, so the transport is never
/// invoked for it. A request may also fail here with `NoSender` when the
/// caller has no gateway transport configured.
pub fn begin_join(has_sender: bool, guild_id: u64, channel_id: u64) -> (r: JoinResult<Session>)
    ensures
        r == begin_join_spec(has_sender, guild_id, channel_id),
{
    if guild_id == 0 {
        Err(JoinError::IllegalGuild)
    } else if channel_id == 0 {
        Err(JoinError::IllegalChannel)
    } else if !has_sender {
        Err(JoinError::NoSender)
    } else {
        Ok(Session { guild_id, channel_id, stage: Stage::AwaitingSend })
    }
}

/// What a join request resolves to before any outside work.
pub open spec fn begin_join_spec(has_sender: bool, guild_id: u64, channel_id: u64) -> JoinResult<
    Session,
> {
    if guild_id == 0 {
        Err(JoinError::IllegalGuild)
    } else if channel_id == 0 {
        Err(JoinError::IllegalChannel)
    } else if !has_sender {
        Err(JoinError::NoSender)
    } else {
        Ok(Session { guild_id, channel_id, stage: Stage::AwaitingSend })
    }
}

/// Whether a leave request may proceed to sending its command: the
/// executable form of [`begin_leave_spec`].
///
/// A zero guild identifier is rejected before anything else; a guild with no
/// tracked call has nothing to leave; and without a transport the leave
/// command cannot be sent.
pub fn begin_leave(has_sender: bool, has_call: bool, guild_id: u64) -> (r: JoinResult<()>)
    ensures
        r == begin_leave_spec(has_sender, has_call, guild_id),
{
    if guild_id == 0 {
        Err(JoinError::IllegalGuild)
    } else if !has_call {
        Err(JoinError::NoCall)
    } else if !has_sender {
        Err(JoinError::NoSender)
    } else {
        Ok(())
    }
}

/// Whether a leave request may proceed to sending its command.
pub open spec fn begin_leave_spec(has_sender: bool, has_call: bool, guild_id: u64) -> JoinResult<
    (),
> {
    if guild_id == 0 {
        Err(JoinError::IllegalGuild)
    } else if !has_call {
        Err(JoinError::NoCall)
    } else if !has_sender {
        Err(JoinError::NoSender)
    } else {
        Ok(())
    }
}

/// A join naming a zero identifier fails during validation, with
/// `IllegalGuild` or `IllegalChannel` for the identifier at fault. No
/// session comes of it, and only a session in [`Stage::AwaitingSend`] ever
/// instructs the caller to invoke the transport — so the transport is never
/// touched on behalf of such a request.
pub proof fn lemma_illegal_ids_rejected_before_transport(
    has_sender: bool,
    guild_id: u64,
    channel_id: u64,
)
    ensures
        guild_id == 0 ==> begin_join_spec(has_sender, guild_id, channel_id) == Err::<
            Session,
            JoinError,
        >(JoinError::IllegalGuild),
        guild_id != 0 && channel_id == 0 ==> begin_join_spec(has_sender, guild_id, channel_id)
            == Err::<Session, JoinError>(JoinError::IllegalChannel),
{
}

/// A resolved session is frozen: no later event — a late confirmation
/// included — changes it.
pub proof fn lemma_terminal_stage_frozen(s: Session, evs: Seq<SessionEvent>)
    requires
        is_terminal(s.stage),
    ensures
        run_spec(s, evs) == s,
    decreases evs.len(),
{
    if evs.len() > 0 {
        lemma_terminal_stage_frozen(step_spec(s, evs[0]), evs.drop_first());
    }
}

/// Cancelling — or superseding — a pending request resolves it to `Dropped`
/// at once, and it stays `Dropped` whatever arrives later: a confirmation
/// that comes in after the cancellation is discarded, never surfaced as
/// success.
pub proof fn lemma_cancelled_request_stays_dropped(s: Session, evs: Seq<SessionEvent>)
    requires
        !is_terminal(s.stage),
    ensures
        step_spec(s, SessionEvent::Cancelled).stage == Stage::Failed(JoinError::Dropped),
        run_spec(step_spec(s, SessionEvent::Cancelled), evs).stage == Stage::Failed(
            JoinError::Dropped,
        ),
{
    lemma_terminal_stage_frozen(step_spec(s, SessionEvent::Cancelled), evs);
}

/// Two sessions side by side, each event addressed to one of them: `true`
/// picks the second session.
pub open spec fn run_pair_spec(a: Session, b: Session, evs: Seq<(bool, SessionEvent)>) -> (
    Session,
    Session,
)
    decreases evs.len(),
{
    if evs.len() == 0 {
        (a, b)
    } else if evs[0].0 {
        run_pair_spec(a, step_spec(b, evs[0].1), evs.drop_first())
    } else {
        run_pair_spec(step_spec(a, evs[0].1), b, evs.drop_first())
    }
}

/// The events addressed to one of the two sessions, in their order.
pub open spec fn events_for(evs: Seq<(bool, SessionEvent)>, second: bool) -> Seq<SessionEvent>
    decreases evs.len(),
{
    if evs.len() == 0 {
        Seq::empty()
    } else if evs[0].0 == second {
        seq![evs[0].1] + events_for(evs.drop_first(), second)
    } else {
        events_for(evs.drop_first(), second)
    }
}

/// Prepending one event to a run is one step followed by the rest of the
/// run.
proof fn lemma_run_spec_unfold(s: Session, ev: SessionEvent, evs: Seq<SessionEvent>)
    ensures
        run_spec(s, seq![ev] + evs) == run_spec(step_spec(s, ev), evs),
{
    let whole = seq![ev] + evs;
    assert(whole[0] == ev);
    assert(whole.drop_first() =~= evs);
}

/// Concurrent requests do not interfere: in any interleaving of events over
/// two sessions, each session's outcome is exactly what its own events
/// alone produce. In particular, a superseded request's resolution leaves
/// the superseding request's outcome untouched.
pub proof fn lemma_sessions_independent(a: Session, b: Session, evs: Seq<(bool, SessionEvent)>)
    ensures
        run_pair_spec(a, b, evs).0 == run_spec(a, events_for(evs, false)),
        run_pair_spec(a, b, evs).1 == run_spec(b, events_for(evs, true)),
    decreases evs.len(),
{
    if evs.len() > 0 {
        let rest = evs.drop_first();
        if evs[0].0 {
            lemma_sessions_independent(a, step_spec(b, evs[0].1), rest);
            lemma_run_spec_unfold(b, evs[0].1, events_for(rest, true));
        } else {
            lemma_sessions_independent(step_spec(a, evs[0].1), b, rest);
            lemma_run_spec_unfold(a, evs[0].1, events_for(rest, false));
        }
    }
}

} // verus!
