use broadcast_relay::registry::Registry;
use tokio::sync::mpsc::channel;
use tokio::sync::mpsc::error::TryRecvError;

#[test]
fn new_registry_is_empty() {
    let registry = Registry::new();
    assert_eq!(registry.size(), 0);
    assert!(!registry.contains(1));
    assert!(registry.broadcast("nobody").is_empty());
}

#[test]
fn size_counts_registered_sessions() {
    let mut registry = Registry::new();
    let mut receivers = Vec::new();
    for id in 1..=5u128 {
        let (tx, rx) = channel::<String>(4);
        receivers.push(rx);
        registry.register(id, tx);
        assert_eq!(registry.size() as u128, id);
        assert!(registry.contains(id));
    }
    assert_eq!(registry.size(), 5);
    for id in [3u128, 1, 5, 2, 4] {
        registry.deregister(id);
        assert!(!registry.contains(id));
    }
    assert_eq!(registry.size(), 0);
}

#[test]
fn deregister_twice_is_harmless() {
    let mut registry = Registry::new();
    let (tx_a, _rx_a) = channel::<String>(4);
    let (tx_b, mut rx_b) = channel::<String>(4);
    registry.register(10, tx_a);
    registry.register(20, tx_b);
    registry.deregister(10);
    assert_eq!(registry.size(), 1);
    registry.deregister(10);
    assert_eq!(registry.size(), 1);
    assert!(registry.contains(20));
    let report = registry.broadcast("still here");
    assert_eq!(report.len(), 1);
    assert_eq!(report[0].target, 20);
    assert_eq!(rx_b.try_recv(), Ok("still here".to_string()));
}

#[test]
fn deregister_of_unknown_identifier_is_harmless() {
    let mut registry = Registry::new();
    registry.deregister(7);
    assert_eq!(registry.size(), 0);
    let (tx, _rx) = channel::<String>(4);
    registry.register(8, tx);
    registry.deregister(7);
    assert_eq!(registry.size(), 1);
    assert!(registry.contains(8));
}

#[test]
fn registering_an_identifier_again_replaces_its_channel() {
    let mut registry = Registry::new();
    let (first, mut first_rx) = channel::<String>(4);
    let (second, mut second_rx) = channel::<String>(4);
    registry.register(42, first);
    registry.register(42, second);
    assert_eq!(registry.size(), 1);
    let report = registry.broadcast("to the second");
    assert_eq!(report.len(), 1);
    assert_eq!(second_rx.try_recv(), Ok("to the second".to_string()));
    assert_eq!(first_rx.try_recv(), Err(TryRecvError::Disconnected));
}

#[test]
fn identifiers_use_all_128_bits() {
    let mut registry = Registry::new();
    let (low, _low_rx) = channel::<String>(1);
    let (high, _high_rx) = channel::<String>(1);
    registry.register(1, low);
    registry.register(1 << 64, high);
    assert_eq!(registry.size(), 2);
    assert!(registry.contains(1 << 64));
    assert!(!registry.contains(1 << 65));
    registry.deregister(1 << 64);
    assert!(registry.contains(1));
    assert_eq!(registry.size(), 1);
}
