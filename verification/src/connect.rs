//! The bridge between a client on standard input and the shared daemon.
//!
//! The bridge forwards messages between the two, unread, until one side closes.

use vstd::prelude::*;

use crate::text::cat3;

verus! {

/// Where the daemon that listens at an address takes messages.
pub fn daemon_uri(bind: &str) -> (r: String)
    ensures
        r@ == "http://"@ + bind@ + "/mcp"@,
{
    cat3("http://", bind, "/mcp")
}

/// What a side of the bridge gave: a message, or nothing once it has closed.
#[derive(Debug, PartialEq, Eq)]
pub enum BridgeEvent<M> {
    FromClient(Option<M>),
    FromDaemon(Option<M>),
}

/// What the bridge does.
#[derive(Debug, PartialEq, Eq)]
pub enum BridgeAction<M> {
    SendToDaemon(M),
    SendToClient(M),
    /// Close both sides: the client has closed.
    CloseOnClientEnd,
    /// Close both sides: the daemon has closed.
    CloseOnDaemonEnd,
}

/// What the bridge does on an event.
pub open spec fn action_on<M>(event: BridgeEvent<M>) -> BridgeAction<M> {
    match event {
        BridgeEvent::FromClient(Some(message)) => BridgeAction::SendToDaemon(message),
        BridgeEvent::FromClient(None) => BridgeAction::CloseOnClientEnd,
        BridgeEvent::FromDaemon(Some(message)) => BridgeAction::SendToClient(message),
        BridgeEvent::FromDaemon(None) => BridgeAction::CloseOnDaemonEnd,
    }
}

/// Decides what the bridge does on an event.
pub fn bridge_step<M>(event: BridgeEvent<M>) -> (r: BridgeAction<M>)
    ensures
        r == action_on(event),
{
    match event {
        BridgeEvent::FromClient(Some(message)) => BridgeAction::SendToDaemon(message),
        BridgeEvent::FromClient(None) => BridgeAction::CloseOnClientEnd,
        BridgeEvent::FromDaemon(Some(message)) => BridgeAction::SendToClient(message),
        BridgeEvent::FromDaemon(None) => BridgeAction::CloseOnDaemonEnd,
    }
}

/// Which way a message could not be forwarded.
#[derive(Clone, Copy, Debug, PartialEq, Eq, Structural)]
pub enum ForwardFailure {
    ToDaemon,
    ToClient,
}

/// What is said where a message could not be forwarded.
pub fn forward_context(failure: ForwardFailure) -> (r: &'static str)
    ensures
        r@ == (match failure {
            ForwardFailure::ToDaemon => "forward client->daemon message"@,
            ForwardFailure::ToClient => "forward daemon->client message"@,
        }),
{
    match failure {
        ForwardFailure::ToDaemon => "forward client->daemon message",
        ForwardFailure::ToClient => "forward daemon->client message",
    }
}

/// Whether an event ends the bridge.
pub open spec fn ends<M>(event: BridgeEvent<M>) -> bool {
    action_on(event) is CloseOnClientEnd || action_on(event) is CloseOnDaemonEnd
}

/// The messages that the bridge hands to the daemon while events come in.
pub open spec fn handed_to_daemon<M>(events: Seq<BridgeEvent<M>>) -> Seq<M>
    decreases events.len(),
{
    if events.len() == 0 {
        Seq::empty()
    } else {
        match action_on(events.last()) {
            BridgeAction::SendToDaemon(message) => handed_to_daemon(events.drop_last()).push(message),
            _ => handed_to_daemon(events.drop_last()),
        }
    }
}

/// The messages that come from the client.
pub open spec fn from_client<M>(events: Seq<BridgeEvent<M>>) -> Seq<M>
    decreases events.len(),
{
    if events.len() == 0 {
        Seq::empty()
    } else {
        match events.last() {
            BridgeEvent::FromClient(Some(message)) => from_client(events.drop_last()).push(message),
            _ => from_client(events.drop_last()),
        }
    }
}

/// The messages that the bridge hands to the client while events come in.
pub open spec fn handed_to_client<M>(events: Seq<BridgeEvent<M>>) -> Seq<M>
    decreases events.len(),
{
    if events.len() == 0 {
        Seq::empty()
    } else {
        match action_on(events.last()) {
            BridgeAction::SendToClient(message) => handed_to_client(events.drop_last()).push(message),
            _ => handed_to_client(events.drop_last()),
        }
    }
}

/// The messages that come from the daemon.
pub open spec fn from_daemon<M>(events: Seq<BridgeEvent<M>>) -> Seq<M>
    decreases events.len(),
{
    if events.len() == 0 {
        Seq::empty()
    } else {
        match events.last() {
            BridgeEvent::FromDaemon(Some(message)) => from_daemon(events.drop_last()).push(message),
            _ => from_daemon(events.drop_last()),
        }
    }
}

/// Each side is handed exactly what the other sent, unchanged and in order.
pub proof fn law_bridge_forwards_everything<M>(events: Seq<BridgeEvent<M>>)
    ensures
        handed_to_daemon(events) == from_client(events),
        handed_to_client(events) == from_daemon(events),
    decreases events.len(),
{
    if events.len() > 0 {
        law_bridge_forwards_everything(events.drop_last());
    }
}

/// The bridge ends exactly when one side has closed.
pub proof fn law_bridge_ends_when_a_side_closes<M>(event: BridgeEvent<M>)
    ensures
        ends(event) <==> (event == BridgeEvent::<M>::FromClient(None) || event == BridgeEvent::<
            M,
        >::FromDaemon(None)),
{
}

/// Each side gets what the other sends, and the end of either closes both.
pub proof fn law_bridge_carries_messages_across<M>(event: BridgeEvent<M>, r: BridgeAction<M>)
    requires
        call_ensures(bridge_step::<M>, (event,), r),
    ensures
        event matches BridgeEvent::FromClient(Some(message)) ==> r == BridgeAction::SendToDaemon(
            message,
        ),
        event matches BridgeEvent::FromDaemon(Some(message)) ==> r == BridgeAction::SendToClient(
            message,
        ),
        event matches BridgeEvent::FromClient(None) ==> r is CloseOnClientEnd,
        event matches BridgeEvent::FromDaemon(None) ==> r is CloseOnDaemonEnd,
{
}

/// The daemon is reached where it listens, at its endpoint; a failure to forward names its direction.
pub proof fn law_daemon_is_reached_where_it_listens(
    bind: &str,
    uri: String,
    to_daemon: &'static str,
    to_client: &'static str,
)
    requires
        call_ensures(daemon_uri, (bind,), uri),
        call_ensures(forward_context, (ForwardFailure::ToDaemon,), to_daemon),
        call_ensures(forward_context, (ForwardFailure::ToClient,), to_client),
    ensures
        uri@ == "http://"@ + bind@ + "/mcp"@,
        to_daemon@ == "forward client->daemon message"@,
        to_client@ == "forward daemon->client message"@,
{
}

} // verus!
