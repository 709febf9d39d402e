//! The join-failure taxonomy, the recovery-policy predicates, and the
//! conversions that wrap each transport's and the driver's failures.

use vstd::prelude::*;
use vstd::std_specs::convert::FromSpecImpl;
use vstd::string::StringExecFns;
use crate::backend::serenity_error_text;
use crate::backend::twilight_cluster_error_text;
use crate::backend::twilight_shard_error_text;

verus! {

/// The fixed opening of every rendered join failure.
pub open spec fn join_error_prefix() -> Seq<char> {
    "failed to join voice channel: "@
}

/// Opaque outcome of the media driver's connection attempt.
///
/// The driver is an external collaborator: the handshake layer stores the
/// failure it reports and renders its text, but never interprets it.
#[derive(Debug)]
pub struct ConnectionError {
    /// The driver's own description of what went wrong.
    pub detail: String,
}

impl ConnectionError {
    pub fn new(detail: String) -> (r: ConnectionError)
        ensures
            r.detail == detail,
    {
        ConnectionError { detail }
    }

    /// The driver's diagnostic text.
    pub fn message(&self) -> (r: String)
        ensures
            r@ == self.detail@,
    {
        self.detail.clone()
    }
}

/// Error returned when a join or leave request cannot change a guild's
/// voice-channel membership.
///
/// Exactly one case is active per failure. The set of cases is open for
/// extension (a new transport adds a new case), so callers must match with a
/// wildcard arm.
#[derive(Debug)]
#[non_exhaustive]
pub enum JoinError {
    /// The in-flight request was superseded, cancelled, or discarded before
    /// it completed.
    Dropped,
    /// No gateway transport was available to send the voice-state command.
    NoSender,
    /// A leave was requested for a guild with no active call record.
    NoCall,
    /// No gateway confirmation arrived within the configured deadline.
    ///
    /// The gateway may still believe the bot is in the channel: callers
    /// should send an explicit leave before retrying.
    TimedOut,
    /// The supplied guild identifier was the zero sentinel.
    IllegalGuild,
    /// The supplied channel identifier was the zero sentinel.
    IllegalChannel,
    /// The media driver failed to establish the voice connection.
    Driver(ConnectionError),
    /// The serenity transport could not deliver the command to its shard.
    Serenity(futures::channel::mpsc::TrySendError<serenity::gateway::InterMessage>),
    /// The twilight shard cluster rejected or could not send the command.
    TwilightCluster(twilight_gateway::cluster::ClusterCommandError),
    /// A single twilight shard rejected or could not send the command.
    TwilightShard(twilight_gateway::shard::CommandError),
}

impl JoinError {
    /// True when this failure may have left the remote gateway's view of the
    /// bot's voice state out of step with the local one.
    ///
    /// A timeout is the only such case: the local process cannot tell
    /// whether the gateway registered the join, so callers must issue an
    /// explicit leave before attempting to rejoin.
    pub fn should_leave_server(&self) -> (r: bool)
        ensures
            r == (self is TimedOut),
    {
        matches!(self, JoinError::TimedOut)
    }

    /// True when the gateway handshake succeeded and only the driver's
    /// low-level connection failed, so the driver connection alone may be
    /// retried with the already-obtained parameters.
    pub fn should_reconnect_driver(&self) -> (r: bool)
        ensures
            r == (self is Driver),
    {
        matches!(self, JoinError::Driver(_))
    }

    /// Whether this failure wraps a cause reported by a transport or by the
    /// driver. Protocol-level failures are terminal causes and wrap nothing.
    pub open spec fn has_source(&self) -> bool {
        match self {
            JoinError::Driver(_) => true,
            JoinError::Serenity(_) => true,
            JoinError::TwilightCluster(_) => true,
            JoinError::TwilightShard(_) => true,
            _ => false,
        }
    }

    /// The rendered failure, uniformly prefixed; a wrapped cause's own text
    /// is kept in full.
    pub fn message(&self) -> (r: String)
        ensures
            self is Dropped ==> r@ == join_error_prefix() + "request was cancelled/dropped"@,
            self is NoSender ==> r@ == join_error_prefix() + "no gateway destination"@,
            self is NoCall ==> r@ == join_error_prefix() + "tried to leave a non-existent call"@,
            self is TimedOut ==> r@ == join_error_prefix()
                + "gateway response from Discord timed out"@,
            self is IllegalGuild ==> r@ == join_error_prefix() + "target guild ID was zero"@,
            self is IllegalChannel ==> r@ == join_error_prefix() + "target channel ID was zero"@,
            self matches JoinError::Driver(e) ==> r@ == join_error_prefix() + e.detail@,
            self is Serenity ==> (r@ == join_error_prefix()
                + "send failed because channel is full"@ || r@ == join_error_prefix()
                + "send failed because receiver is gone"@),
            self is TwilightShard ==> (r@ == join_error_prefix()
                + "sending the message over the websocket failed"@ || r@ == join_error_prefix()
                + "serializing the value as json failed"@ || r@ == join_error_prefix()
                + "the shard session is inactive and was not started"@),
            join_error_prefix().is_prefix_of(r@),
    {
        let d: String = match self {
            JoinError::Dropped => String::from_str("request was cancelled/dropped"),
            JoinError::NoSender => String::from_str("no gateway destination"),
            JoinError::NoCall => String::from_str("tried to leave a non-existent call"),
            JoinError::TimedOut => String::from_str("gateway response from Discord timed out"),
            JoinError::IllegalGuild => String::from_str("target guild ID was zero"),
            JoinError::IllegalChannel => String::from_str("target channel ID was zero"),
            JoinError::Driver(e) => e.message(),
            JoinError::Serenity(e) => serenity_error_text(e),
            JoinError::TwilightCluster(e) => twilight_cluster_error_text(e),
            JoinError::TwilightShard(e) => twilight_shard_error_text(e),
        };
        let r = prefixed(d.as_str());
        proof {
            lemma_concat_keeps_prefix(join_error_prefix(), d@);
        }
        r
    }

    /// The wrapped cause's own diagnostic text, when this failure carries
    /// one; `None` for every protocol-level failure.
    pub fn source_message(&self) -> (r: Option<String>)
        ensures
            (r is Some) == self.has_source(),
            self matches JoinError::Driver(e) ==> (r matches Some(m) && m@ == e.detail@),
            self is Serenity ==> (r matches Some(m) && (m@ == "send failed because channel is full"@
                || m@ == "send failed because receiver is gone"@)),
            self is TwilightShard ==> (r matches Some(m) && (m@
                == "sending the message over the websocket failed"@ || m@
                == "serializing the value as json failed"@ || m@
                == "the shard session is inactive and was not started"@)),
            self is TwilightCluster ==> (r matches Some(m) && m@.len() > 0),
    {
        match self {
            JoinError::Driver(e) => Some(e.message()),
            JoinError::Serenity(e) => Some(serenity_error_text(e)),
            JoinError::TwilightCluster(e) => Some(twilight_cluster_error_text(e)),
            JoinError::TwilightShard(e) => Some(twilight_shard_error_text(e)),
            _ => None,
        }
    }
}

/// Prepends the uniform failure prefix to a cause's text.
fn prefixed(detail: &str) -> (r: String)
    ensures
        r@ == join_error_prefix() + detail@,
{
    let head = String::from_str("failed to join voice channel: ");
    head.concat(detail)
}

/// A concatenation keeps its left operand as a prefix.
proof fn lemma_concat_keeps_prefix(a: Seq<char>, b: Seq<char>)
    ensures
        a.is_prefix_of(a + b),
{
    assert(a =~= (a + b).subrange(0, a.len() as int));
}

/// Wrapping a backend send failure or a driver failure loses nothing: each
/// conversion yields its own case of the taxonomy — never another's —
/// carrying exactly the value that was moved in, and the result is one of
/// the cases that expose a causal source.
pub proof fn lemma_conversion_lossless(
    se: futures::channel::mpsc::TrySendError<serenity::gateway::InterMessage>,
    ts: twilight_gateway::shard::CommandError,
    tc: twilight_gateway::cluster::ClusterCommandError,
    de: ConnectionError,
)
    ensures
        <JoinError as vstd::std_specs::convert::FromSpec<
            futures::channel::mpsc::TrySendError<serenity::gateway::InterMessage>,
        >>::from_spec(se) == JoinError::Serenity(se),
        <JoinError as vstd::std_specs::convert::FromSpec<
            twilight_gateway::shard::CommandError,
        >>::from_spec(ts) == JoinError::TwilightShard(ts),
        <JoinError as vstd::std_specs::convert::FromSpec<
            twilight_gateway::cluster::ClusterCommandError,
        >>::from_spec(tc) == JoinError::TwilightCluster(tc),
        <JoinError as vstd::std_specs::convert::FromSpec<ConnectionError>>::from_spec(de)
            == JoinError::Driver(de),
        JoinError::Serenity(se).has_source(),
        JoinError::TwilightShard(ts).has_source(),
        JoinError::TwilightCluster(tc).has_source(),
        JoinError::Driver(de).has_source(),
{
}

impl From<futures::channel::mpsc::TrySendError<serenity::gateway::InterMessage>> for JoinError {
    /// Wraps a serenity transport failure, moving it in whole.
    fn from(
        e: futures::channel::mpsc::TrySendError<serenity::gateway::InterMessage>,
    ) -> (r: JoinError) {
        JoinError::Serenity(e)
    }
}

impl FromSpecImpl<futures::channel::mpsc::TrySendError<serenity::gateway::InterMessage>> for JoinError {
    open spec fn obeys_from_spec() -> bool {
        true
    }

    open spec fn from_spec(
        e: futures::channel::mpsc::TrySendError<serenity::gateway::InterMessage>,
    ) -> JoinError {
        JoinError::Serenity(e)
    }
}

impl From<twilight_gateway::shard::CommandError> for JoinError {
    /// Wraps a twilight single-shard transport failure, moving it in whole.
    fn from(e: twilight_gateway::shard::CommandError) -> (r: JoinError) {
        JoinError::TwilightShard(e)
    }
}

impl FromSpecImpl<twilight_gateway::shard::CommandError> for JoinError {
    open spec fn obeys_from_spec() -> bool {
        true
    }

    open spec fn from_spec(e: twilight_gateway::shard::CommandError) -> JoinError {
        JoinError::TwilightShard(e)
    }
}

impl From<twilight_gateway::cluster::ClusterCommandError> for JoinError {
    /// Wraps a twilight cluster transport failure, moving it in whole.
    fn from(e: twilight_gateway::cluster::ClusterCommandError) -> (r: JoinError) {
        JoinError::TwilightCluster(e)
    }
}

impl FromSpecImpl<twilight_gateway::cluster::ClusterCommandError> for JoinError {
    open spec fn obeys_from_spec() -> bool {
        true
    }

    open spec fn from_spec(e: twilight_gateway::cluster::ClusterCommandError) -> JoinError {
        JoinError::TwilightCluster(e)
    }
}

impl From<ConnectionError> for JoinError {
    /// Wraps a driver connection failure, moving it in whole.
    fn from(e: ConnectionError) -> (r: JoinError) {
        JoinError::Driver(e)
    }
}

impl FromSpecImpl<ConnectionError> for JoinError {
    open spec fn obeys_from_spec() -> bool {
        true
    }

    open spec fn from_spec(e: ConnectionError) -> JoinError {
        JoinError::Driver(e)
    }
}

/// Success-or-failure shape returned by every join/leave operation.
pub type JoinResult<T> = Result<T, JoinError>;

} // verus!
