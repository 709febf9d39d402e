//! Declarations of the gateway transports' send-error types, and the calls
//! that render their diagnostic text.
//!
//! Three transports can carry the voice-state command: a serenity shard (its
//! failures arrive as an undelivered channel message), a single twilight
//! shard, and a twilight shard cluster. Their error types are opaque to the
//! rest of the crate: a value is stored, moved and rendered, never inspected.

use vstd::prelude::*;

verus! {

#[verifier::external_type_specification]
#[verifier::external_body]
#[verifier::reject_recursive_types(T)]
pub struct ExTrySendError<T>(futures::channel::mpsc::TrySendError<T>);

#[verifier::external_type_specification]
#[verifier::external_body]
pub struct ExInterMessage(serenity::gateway::InterMessage);

#[verifier::external_type_specification]
#[verifier::external_body]
pub struct ExClusterCommandError(twilight_gateway::cluster::ClusterCommandError);

#[verifier::external_type_specification]
#[verifier::external_body]
pub struct ExCommandError(twilight_gateway::shard::CommandError);

/// Relies on the `Display` impl of futures' `TrySendError`, which writes
/// exactly one of two fixed sentences: one for a full channel, one for a
/// disconnected receiver.
#[verifier::external_body]
pub(crate) fn serenity_error_text(
    e: &futures::channel::mpsc::TrySendError<serenity::gateway::InterMessage>,
) -> (r: String)
    ensures
        r@ == "send failed because channel is full"@ || r@
            == "send failed because receiver is gone"@,
{
    format!("{}", e)
}

/// Relies on the `Display` impl of twilight's shard `CommandError`, which
/// writes exactly one of three fixed sentences, one per kind of failure.
#[verifier::external_body]
pub(crate) fn twilight_shard_error_text(e: &twilight_gateway::shard::CommandError) -> (r: String)
    ensures
        r@ == "sending the message over the websocket failed"@ || r@
            == "serializing the value as json failed"@ || r@
            == "the shard session is inactive and was not started"@,
{
    format!("{}", e)
}

/// Relies on the `Display` impl of twilight's `ClusterCommandError`, which
/// writes either a fixed sentence for an undeliverable command or a sentence
/// naming the missing shard; both are non-empty.
#[verifier::external_body]
pub(crate) fn twilight_cluster_error_text(
    e: &twilight_gateway::cluster::ClusterCommandError,
) -> (r: String)
    ensures
        r@.len() > 0,
{
    format!("{}", e)
}

} // verus!
