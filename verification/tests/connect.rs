use synapse_mcp::connect::{
    bridge_step, daemon_uri, forward_context, BridgeAction, BridgeEvent, ForwardFailure,
};

#[test]
fn daemon_uri_points_at_the_endpoint() {
    assert_eq!(daemon_uri("127.0.0.1:7700"), "http://127.0.0.1:7700/mcp");
}

#[test]
fn bridge_forwards_both_ways_and_ends_with_either_side() {
    assert_eq!(bridge_step(BridgeEvent::FromClient(Some(1))), BridgeAction::SendToDaemon(1));
    assert_eq!(bridge_step(BridgeEvent::FromDaemon(Some(2))), BridgeAction::SendToClient(2));
    assert_eq!(
        bridge_step(BridgeEvent::<i32>::FromClient(None)),
        BridgeAction::CloseOnClientEnd
    );
    assert_eq!(
        bridge_step(BridgeEvent::<i32>::FromDaemon(None)),
        BridgeAction::CloseOnDaemonEnd
    );
    assert_eq!(forward_context(ForwardFailure::ToDaemon), "forward client->daemon message");
    assert_eq!(forward_context(ForwardFailure::ToClient), "forward daemon->client message");
}
