use sams::transport::{
    full_topic, ForwardingAction, ForwardingEvent, IpcBridge, IpcBridgeConfig, TransportConfig,
    ZenohTransport,
};
use sams::AtomBuilder;

#[test]
fn topics_and_stats() {
    assert_eq!(full_topic("sams/atoms", "test/topic"), "sams/atoms/test/topic");
    let transport = ZenohTransport::from_config(TransportConfig::default());
    assert_eq!(transport.topic("x"), "sams/atoms/x");
    let stats = transport.stats();
    assert!(stats.connected);
    assert_eq!(stats.topic_prefix, "sams/atoms");
    assert!(!stats.compression_enabled);
    assert!(!stats.encryption_enabled);
    assert_eq!(transport.config().timeout_ms, 5000);
}

#[test]
fn batch_payload_concatenates_atoms() {
    let transport = ZenohTransport::from_config(TransportConfig::default());
    let atoms = vec![
        AtomBuilder::new().entity_id(1).value_fixed(1000).timestamp_us(1).build(),
        AtomBuilder::new().entity_id(2).value_fixed(2000).timestamp_us(2).build(),
        AtomBuilder::new().entity_id(3).value_fixed(3000).timestamp_us(3).build(),
    ];
    let payload = transport.batch_payload(&atoms);
    assert_eq!(payload.len(), 96);
    assert_eq!(&payload[64..96], &atoms[2].as_bytes());
    assert_eq!(transport.atom_payload(&atoms[0]), atoms[0].as_bytes());
    let mut sub = transport.subscriber();
    assert!(sub.try_recv().unwrap().is_none());
}

#[test]
fn bridge_stats_and_forwarding_steps() {
    let config = IpcBridgeConfig {
        bridge_id: "test-bridge".to_string(),
        source_topic: "test/embedded".to_string(),
        target_topic: "test/linux".to_string(),
        enable_forwarding: false,
    };
    let bridge = IpcBridge::from_parts(ZenohTransport::from_config(TransportConfig::default()), config);
    let stats = bridge.stats();
    assert_eq!(stats.bridge_id, "test-bridge");
    assert_eq!(stats.source_topic, "test/embedded");
    assert_eq!(stats.target_topic, "test/linux");
    assert!(!stats.forwarding_enabled);
    assert!(matches!(bridge.forwarding_step(ForwardingEvent::Start), ForwardingAction::Stop));

    let on = IpcBridge::from_parts(
        ZenohTransport::from_config(TransportConfig::default()),
        IpcBridgeConfig::default(),
    );
    match on.forwarding_step(ForwardingEvent::Start) {
        ForwardingAction::Subscribe(t) => assert_eq!(t, "embedded/input"),
        other => panic!("unexpected {other:?}"),
    }
    let atom = AtomBuilder::new().entity_id(456).timestamp_us(1).build();
    match on.forwarding_step(ForwardingEvent::Received(atom)) {
        ForwardingAction::Publish(t, a) => {
            assert_eq!(t, "linux/output");
            assert_eq!(a, atom);
        }
        other => panic!("unexpected {other:?}"),
    }
    assert!(matches!(on.forwarding_step(ForwardingEvent::ReceiveFailed), ForwardingAction::Continue));
}
