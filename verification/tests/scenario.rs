use broadcast_relay::channel::{outbound_channel, Delivery};
use broadcast_relay::loops::{on_inbound, on_outbound, Inbound, Outbound, ReceiveStep, SendStep};
use broadcast_relay::registry::{undelivered, Attempt, Registry};
use broadcast_relay::session::{Phase, Session};
use tokio::sync::mpsc::error::TryRecvError;
use tokio::sync::mpsc::Receiver;

fn send_text(registry: &Registry, text: &str) -> Vec<Attempt> {
    match on_inbound(Inbound::Text(text.to_string())) {
        ReceiveStep::Relay(payload) => registry.broadcast(&payload),
        step => panic!("a text frame is not relayed: {:?}", step),
    }
}

fn next_frame(rx: &mut Receiver<String>) -> Option<String> {
    match rx.try_recv() {
        Ok(message) => match on_outbound(Outbound::Message(message)) {
            SendStep::Write(frame) => Some(frame),
            step => panic!("a queued message is not written: {:?}", step),
        },
        Err(TryRecvError::Empty) => None,
        Err(TryRecvError::Disconnected) => panic!("the outbound channel is closed"),
    }
}

#[test]
fn late_joiner_sees_no_history_and_leaver_gets_no_attempts() {
    let mut registry = Registry::new();

    let mut a = Session::accept();
    let (a_tx, mut a_rx) = outbound_channel();
    assert_eq!(a.open(&mut registry, a_tx.clone()), Some(1));
    let report = send_text(&registry, "hello");
    assert_eq!(
        report,
        vec![Attempt { target: a.id(), outcome: Delivery::Queued }]
    );

    let mut b = Session::accept();
    let (b_tx, mut b_rx) = outbound_channel();
    assert_eq!(b.open(&mut registry, b_tx.clone()), Some(2));
    let report = send_text(&registry, "world");
    assert_eq!(report.len(), 2);
    assert!(undelivered(&report).is_empty());

    assert_eq!(next_frame(&mut b_rx), Some("world".to_string()));
    assert_eq!(next_frame(&mut b_rx), None);
    assert_eq!(next_frame(&mut a_rx), Some("hello".to_string()));
    assert_eq!(next_frame(&mut a_rx), Some("world".to_string()));
    assert_eq!(next_frame(&mut a_rx), None);

    let ending = match on_inbound(Inbound::Close) {
        ReceiveStep::Stop(ending) => ending,
        step => panic!("a close frame does not stop the loop: {:?}", step),
    };
    assert!(a.loop_finished(ending.loop_side()).is_some());
    assert_eq!(registry.size(), 2);
    assert!(a.close(&mut registry));
    assert_eq!(a.phase(), Phase::Closed);
    assert_eq!(registry.size(), 1);
    drop(a_rx);
    drop(a_tx);

    let report = send_text(&registry, "ping");
    assert_eq!(
        report,
        vec![Attempt { target: b.id(), outcome: Delivery::Queued }]
    );
    assert!(undelivered(&report).is_empty());
    assert_eq!(next_frame(&mut b_rx), Some("ping".to_string()));
    assert_eq!(next_frame(&mut b_rx), None);
    assert_eq!(b.phase(), Phase::Active);
}

#[test]
fn many_sessions_come_and_go() {
    let mut registry = Registry::new();
    let mut sessions = Vec::new();
    let mut receivers = Vec::new();
    for n in 1..=50usize {
        let mut session = Session::accept();
        let (tx, rx) = outbound_channel();
        assert_eq!(session.open(&mut registry, tx), Some(n));
        sessions.push(session);
        receivers.push(rx);
    }
    assert_eq!(registry.size(), 50);
    let report = send_text(&registry, "to all");
    assert_eq!(report.len(), 50);
    for rx in receivers.iter_mut() {
        assert_eq!(next_frame(rx), Some("to all".to_string()));
    }
    sessions.reverse();
    let mut left = 50usize;
    for session in sessions.iter_mut() {
        assert!(session.loop_finished(broadcast_relay::loops::LoopSide::Send).is_some());
        assert!(session.close(&mut registry));
        left -= 1;
        assert_eq!(registry.size(), left);
    }
    assert_eq!(registry.size(), 0);
    assert!(send_text(&registry, "nobody").is_empty());
}
