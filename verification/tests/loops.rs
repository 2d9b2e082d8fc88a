use broadcast_relay::loops::{
    on_inbound, on_outbound, Ending, Inbound, LoopSide, Outbound, ReceiveStep, SendStep,
};

#[test]
fn text_frame_is_relayed_with_its_payload() {
    assert_eq!(
        on_inbound(Inbound::Text("hello".to_string())),
        ReceiveStep::Relay("hello".to_string())
    );
    assert_eq!(
        on_inbound(Inbound::Text(String::new())),
        ReceiveStep::Relay(String::new())
    );
}

#[test]
fn close_frame_stops_the_receive_loop() {
    assert_eq!(
        on_inbound(Inbound::Close),
        ReceiveStep::Stop(Ending::PeerClosed)
    );
}

#[test]
fn receive_failure_stops_the_receive_loop() {
    assert_eq!(
        on_inbound(Inbound::Failed),
        ReceiveStep::Stop(Ending::ReceiveFailed)
    );
}

#[test]
fn other_frames_are_ignored() {
    assert_eq!(on_inbound(Inbound::Other), ReceiveStep::Ignore);
}

#[test]
fn queued_message_is_written_as_it_came() {
    assert_eq!(
        on_outbound(Outbound::Message("world".to_string())),
        SendStep::Write("world".to_string())
    );
}

#[test]
fn written_frame_is_followed_by_a_wait() {
    assert_eq!(on_outbound(Outbound::Written), SendStep::Wait);
}

#[test]
fn write_failure_stops_the_send_loop() {
    assert_eq!(
        on_outbound(Outbound::WriteFailed),
        SendStep::Stop(Ending::WriteFailed)
    );
}

#[test]
fn closed_outbound_channel_stops_the_send_loop() {
    assert_eq!(
        on_outbound(Outbound::Closed),
        SendStep::Stop(Ending::OutboundClosed)
    );
}

#[test]
fn endings_belong_to_their_loop() {
    assert_eq!(Ending::PeerClosed.loop_side(), LoopSide::Receive);
    assert_eq!(Ending::ReceiveFailed.loop_side(), LoopSide::Receive);
    assert_eq!(Ending::OutboundClosed.loop_side(), LoopSide::Send);
    assert_eq!(Ending::WriteFailed.loop_side(), LoopSide::Send);
}

#[test]
fn each_loop_has_the_other_as_its_opposite() {
    assert_eq!(LoopSide::Receive.other(), LoopSide::Send);
    assert_eq!(LoopSide::Send.other(), LoopSide::Receive);
}
