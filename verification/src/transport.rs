//! Transport-side logic: topic naming, batch payloads, statistics and the
//! forwarding decisions of the IPC bridge. Sessions, publishing and
//! receiving are network work done by the caller.

use vstd::prelude::*;
use crate::codec::{AtomCodec, batch_bytes};
use crate::types::SemanticAtom;

verus! {

#[verifier::external_type_specification]
#[verifier::external_body]
pub struct ExZenohConfig(zenoh::config::Config);

/// Transport configuration
#[derive(Debug, Clone)]
pub struct TransportConfig {
    /// Zenoh session configuration
    pub zenoh_config: Option<zenoh::config::Config>,
    /// Default topic prefix
    pub topic_prefix: String,
    /// Enable compression
    pub enable_compression: bool,
    /// Enable encryption
    pub enable_encryption: bool,
    /// Connection timeout in milliseconds
    pub timeout_ms: u64,
}

impl Default for TransportConfig {
    fn default() -> (r: Self)
        ensures
            r.zenoh_config is None,
            r.topic_prefix@ == "sams/atoms"@,
            !r.enable_compression,
            !r.enable_encryption,
            r.timeout_ms == 5000,
    {
        TransportConfig {
            zenoh_config: None,
            topic_prefix: String::from_str("sams/atoms"),
            enable_compression: false,
            enable_encryption: false,
            timeout_ms: 5000,
        }
    }
}

/// Transport errors
#[derive(Debug, Clone, Copy, PartialEq, Eq, Structural)]
pub enum TransportError {
    /// The operation is not available on this transport
    NotImplemented,
}

/// The full topic name: the prefix, a slash, and the topic.
pub open spec fn topic_path(prefix: Seq<char>, topic: Seq<char>) -> Seq<char> {
    prefix + seq!['/'] + topic
}

/// The full topic name: the prefix, a slash, and the topic.
pub fn full_topic(prefix: &str, topic: &str) -> (r: String)
    ensures
        r@ == topic_path(prefix@, topic@),
{
    let mut s = String::from_str(prefix);
    let slash = "/";
    proof {
        reveal_strlit("/");
    }
    s.append(slash);
    s.append(topic);
    assert(s@ =~= topic_path(prefix@, topic@));
    s
}

/// Transport statistics
#[derive(Debug, Clone)]
pub struct TransportStats {
    /// Connection status
    pub connected: bool,
    /// Topic prefix
    pub topic_prefix: String,
    /// Compression enabled
    pub compression_enabled: bool,
    /// Encryption enabled
    pub encryption_enabled: bool,
}

/// Zenoh-based transport for semantic atoms: its configuration and codec.
pub struct ZenohTransport {
    config: TransportConfig,
    codec: AtomCodec,
}

impl ZenohTransport {
    /// The transport's configuration.
    pub closed spec fn spec_config(&self) -> TransportConfig {
        self.config
    }

    /// A transport with the given configuration.
    pub fn from_config(config: TransportConfig) -> (r: Self)
        ensures
            r.spec_config() == config,
    {
        ZenohTransport { config, codec: AtomCodec::new() }
    }

    /// The transport's configuration.
    pub fn config(&self) -> (r: &TransportConfig)
        ensures
            *r == self.spec_config(),
    {
        &self.config
    }

    /// The full topic name for a topic under this transport's prefix.
    pub fn topic(&self, topic: &str) -> (r: String)
        ensures
            r@ == topic_path(self.spec_config().topic_prefix@, topic@),
    {
        full_topic(self.config.topic_prefix.as_str(), topic)
    }

    /// The payload published for one atom: its 32-byte encoding.
    pub fn atom_payload(&self, atom: &SemanticAtom) -> (r: [u8; 32])
        ensures
            r@ == crate::types::atom_bytes(*atom),
    {
        atom.as_bytes()
    }

    /// The payload published for a batch of atoms: their encodings in order.
    pub fn batch_payload(&self, atoms: &[SemanticAtom]) -> (r: Vec<u8>)
        requires
            32 * atoms@.len() <= usize::MAX,
        ensures
            r@ == batch_bytes(atoms@),
    {
        self.codec.encode_atoms(atoms)
    }

    /// A subscriber that decodes with this transport's codec.
    pub fn subscriber(&self) -> ZenohSubscriber {
        ZenohSubscriber { codec: self.codec }
    }

    /// Session statistics.
    pub fn stats(&self) -> (r: TransportStats)
        ensures
            r.connected,
            r.topic_prefix@ == self.spec_config().topic_prefix@,
            r.compression_enabled == self.spec_config().enable_compression,
            r.encryption_enabled == self.spec_config().enable_encryption,
    {
        TransportStats {
            connected: true,
            topic_prefix: self.config.topic_prefix.clone(),
            compression_enabled: self.config.enable_compression,
            encryption_enabled: self.config.enable_encryption,
        }
    }
}

/// Zenoh subscriber for receiving atoms
pub struct ZenohSubscriber {
    codec: AtomCodec,
}

impl ZenohSubscriber {
    /// The subscriber's codec.
    pub fn codec(&self) -> AtomCodec {
        self.codec
    }

    /// Try to receive the next atom without blocking: no message is ever
    /// pending on this subscriber.
    pub fn try_recv(&mut self) -> (r: Result<Option<(SemanticAtom, String)>, TransportError>)
        ensures
            r matches Ok(None),
    {
        Ok(None)
    }
}

/// IPC bridge configuration
#[derive(Debug, Clone)]
pub struct IpcBridgeConfig {
    /// Bridge ID
    pub bridge_id: String,
    /// Source topic
    pub source_topic: String,
    /// Target topic
    pub target_topic: String,
    /// Enable forwarding
    pub enable_forwarding: bool,
}

impl Default for IpcBridgeConfig {
    fn default() -> (r: Self)
        ensures
            r.bridge_id@ == "sams-bridge"@,
            r.source_topic@ == "embedded/input"@,
            r.target_topic@ == "linux/output"@,
            r.enable_forwarding,
    {
        IpcBridgeConfig {
            bridge_id: String::from_str("sams-bridge"),
            source_topic: String::from_str("embedded/input"),
            target_topic: String::from_str("linux/output"),
            enable_forwarding: true,
        }
    }
}

/// IPC bridge statistics
#[derive(Debug, Clone)]
pub struct IpcBridgeStats {
    /// Bridge ID
    pub bridge_id: String,
    /// Source topic
    pub source_topic: String,
    /// Target topic
    pub target_topic: String,
    /// Forwarding enabled
    pub forwarding_enabled: bool,
    /// Transport statistics
    pub transport_stats: TransportStats,
}

/// What the bridge's forwarding loop observed.
#[derive(Debug, Clone, Copy)]
pub enum ForwardingEvent {
    /// Forwarding is starting.
    Start,
    /// An atom arrived on the source topic.
    Received(SemanticAtom),
    /// Receiving failed; the failure has been reported.
    ReceiveFailed,
}

/// What the bridge's forwarding loop does next.
#[derive(Debug, Clone)]
pub enum ForwardingAction {
    /// Stop forwarding and return successfully.
    Stop,
    /// Subscribe to this topic and start receiving.
    Subscribe(String),
    /// Publish this atom to this topic, then keep receiving.
    Publish(String, SemanticAtom),
    /// Keep receiving.
    Continue,
}

/// Simple IPC bridge for Linux to Cortex-M communication
pub struct IpcBridge {
    transport: ZenohTransport,
    config: IpcBridgeConfig,
}

impl IpcBridge {
    /// The bridge's configuration.
    pub closed spec fn spec_config(&self) -> IpcBridgeConfig {
        self.config
    }

    /// The bridge's transport configuration.
    pub closed spec fn spec_transport_config(&self) -> TransportConfig {
        self.transport.spec_config()
    }

    /// A bridge over a transport.
    pub fn from_parts(transport: ZenohTransport, config: IpcBridgeConfig) -> (r: Self)
        ensures
            r.spec_config() == config,
            r.spec_transport_config() == transport.spec_config(),
    {
        IpcBridge { transport, config }
    }

    /// The bridge's transport.
    pub fn transport(&self) -> (r: &ZenohTransport)
        ensures
            r.spec_config() == self.spec_transport_config(),
    {
        &self.transport
    }

    /// The bridge's configuration.
    pub fn config(&self) -> (r: &IpcBridgeConfig)
        ensures
            *r == self.spec_config(),
    {
        &self.config
    }

    /// The forwarding loop's next step: when forwarding is disabled it stops
    /// at once; otherwise it subscribes to the source topic, publishes every
    /// received atom to the target topic and carries on after failed receives.
    pub fn forwarding_step(&self, event: ForwardingEvent) -> (r: ForwardingAction)
        ensures
            match event {
                ForwardingEvent::Start => if self.spec_config().enable_forwarding {
                    r matches ForwardingAction::Subscribe(t) && t@ == self.spec_config().source_topic@
                } else {
                    r matches ForwardingAction::Stop
                },
                ForwardingEvent::Received(atom) => r matches ForwardingAction::Publish(t, a) && t@
                    == self.spec_config().target_topic@ && a == atom,
                ForwardingEvent::ReceiveFailed => r matches ForwardingAction::Continue,
            },
    {
        match event {
            ForwardingEvent::Start => {
                if self.config.enable_forwarding {
                    ForwardingAction::Subscribe(self.config.source_topic.clone())
                } else {
                    ForwardingAction::Stop
                }
            },
            ForwardingEvent::Received(atom) => ForwardingAction::Publish(
                self.config.target_topic.clone(),
                atom,
            ),
            ForwardingEvent::ReceiveFailed => ForwardingAction::Continue,
        }
    }

    /// Bridge statistics.
    pub fn stats(&self) -> (r: IpcBridgeStats)
        ensures
            r.bridge_id@ == self.spec_config().bridge_id@,
            r.source_topic@ == self.spec_config().source_topic@,
            r.target_topic@ == self.spec_config().target_topic@,
            r.forwarding_enabled == self.spec_config().enable_forwarding,
            r.transport_stats.connected,
            r.transport_stats.topic_prefix@ == self.spec_transport_config().topic_prefix@,
            r.transport_stats.compression_enabled == self.spec_transport_config().enable_compression,
            r.transport_stats.encryption_enabled == self.spec_transport_config().enable_encryption,
    {
        IpcBridgeStats {
            bridge_id: self.config.bridge_id.clone(),
            source_topic: self.config.source_topic.clone(),
            target_topic: self.config.target_topic.clone(),
            forwarding_enabled: self.config.enable_forwarding,
            transport_stats: self.transport.stats(),
        }
    }
}

} // verus!
