use vstd::prelude::*;

use crate::addr::{IpAddress, SocketAddress};
use crate::dns::DnsServer;
use crate::ident::{GatewayId, ResourceId};

verus! {

/// Tunnel interface configuration received with `Init`. The control plane
/// reads only the upstream DNS servers; the rest of the configuration is
/// passed through to the tunnel engine untouched by the runtime shell.
#[derive(Clone, Debug, PartialEq, Eq)]
pub struct Interface {
    pub upstream_dns: Vec<DnsServer>,
}

/// A routable destination the client can reach through a gateway. The
/// control plane routes on the identifier alone.
#[derive(Clone, Copy, PartialEq, Eq, Structural, Debug)]
pub struct ResourceDescription {
    pub id: ResourceId,
}

/// The portal's first message of a session: interface configuration and the
/// resources to register.
#[derive(Clone, Debug, PartialEq, Eq)]
pub struct InitClient {
    pub interface: Interface,
    pub resources: Vec<ResourceDescription>,
}

/// ICE parameters and domain-resolution data of an accepted connection.
#[derive(Clone, Debug, PartialEq, Eq)]
pub struct ConnectionAccepted {
    pub ice_parameters: String,
    pub domain_response: Option<String>,
}

/// Domain-resolution data of a resource accepted on an existing connection.
#[derive(Clone, Debug, PartialEq, Eq)]
pub struct ResourceAccepted {
    pub domain_response: Option<String>,
}

/// The gateway's answer carried by a `Connect` message.
#[derive(Clone, Debug, PartialEq, Eq)]
pub enum GatewayResponse {
    ConnectionAccepted(ConnectionAccepted),
    ResourceAccepted(ResourceAccepted),
}

/// A `Connect` message: the gateway's answer for one resource, with the
/// gateway's public key.
#[derive(Clone, Debug, PartialEq, Eq)]
pub struct Connect {
    pub gateway_payload: GatewayResponse,
    pub resource_id: ResourceId,
    pub gateway_public_key: Vec<u8>,
}

/// Connection parameters for one resource/gateway pair, with the relays to
/// try for NAT traversal.
#[derive(Clone, Debug, PartialEq, Eq)]
pub struct ConnectionDetails {
    pub gateway_id: GatewayId,
    pub resource_id: ResourceId,
    pub relays: Vec<String>,
}

/// ICE candidates announced by a gateway.
#[derive(Clone, Debug, PartialEq, Eq)]
pub struct GatewayIceCandidates {
    pub gateway_id: GatewayId,
    pub candidates: Vec<String>,
}

/// The inbound portal message vocabulary.
#[derive(Clone, Debug, PartialEq, Eq)]
pub enum Messages {
    Init(InitClient),
    ConfigChanged(String),
    ConnectionDetails(ConnectionDetails),
    Connect(Connect),
    ResourceCreatedOrUpdated(ResourceDescription),
    ResourceDeleted(ResourceId),
    IceCandidates(GatewayIceCandidates),
    SignedLogUrl(String),
}

/// A request to keep using an established connection for a resource.
#[derive(Clone, Debug, PartialEq, Eq)]
pub struct ReuseConnection {
    pub resource_id: ResourceId,
    pub payload: String,
}

/// ICE candidates broadcast toward a set of gateways.
#[derive(Clone, Debug, PartialEq, Eq)]
pub struct BroadcastGatewayIceCandidates {
    pub gateway_ids: Vec<GatewayId>,
    pub candidates: Vec<String>,
}

/// The outbound portal message vocabulary.
#[derive(Clone, Debug, PartialEq, Eq)]
pub enum EgressMessages {
    RequestConnection(String),
    ReuseConnection(ReuseConnection),
    PrepareConnection { resource_id: ResourceId, connected_gateway_ids: Vec<GatewayId> },
    BroadcastIceCandidates(BroadcastGatewayIceCandidates),
    CreateLogSink,
}

/// A correlation token attached to an outbound message.
#[derive(Clone, Debug, PartialEq, Eq)]
pub enum Reference {
    Resource(ResourceId),
    Raw(String),
}

/// The tunnel engine's answer to a connection request.
#[derive(Clone, Debug, PartialEq, Eq)]
pub enum Request {
    NewConnection(String),
    ReuseConnection(ReuseConnection),
}

/// A DNS query intercepted at a sentinel address.
#[derive(Clone, Debug, PartialEq, Eq)]
pub struct DnsQuery {
    pub name: String,
    pub record_type: u16,
    pub destination: IpAddress,
}

/// The tunnel engine's event vocabulary.
#[derive(Clone, Debug, PartialEq, Eq)]
pub enum TunnelEvent {
    SignalIceCandidate { conn_id: GatewayId, candidate: String },
    ConnectionIntent { resource: ResourceId, connected_gateway_ids: Vec<GatewayId>, reference: String },
    DnsQuery(DnsQuery),
    RefreshResources { connections: Vec<ReuseConnection> },
}

/// Session-fatal conditions: the caller must terminate and re-authenticate.
#[derive(Clone, Copy, PartialEq, Eq, Structural, Debug)]
pub enum Error {
    ClosedByPortal,
}

/// Channel errors the portal names explicitly.
#[derive(Clone, Copy, PartialEq, Eq, Structural, Debug)]
pub enum KnownError {
    UnmatchedTopic,
    TokenExpired,
}

/// The reason attached to an error reply.
#[derive(Clone, Debug, PartialEq, Eq)]
pub enum Reason {
    Known(KnownError),
    Unknown(String),
}

/// Application-level information of an error reply.
#[derive(Clone, Debug, PartialEq, Eq)]
pub enum ErrorInfo {
    Offline,
    Reason(Reason),
}

/// A channel-level error, distinct from an application message failure.
#[derive(Clone, Debug, PartialEq, Eq)]
pub enum ChannelError {
    ErrorReply(ErrorInfo),
    ErrorMsg(Error),
}

/// Observable log events the routing rules promise.
#[derive(Clone, Copy, PartialEq, Eq, Structural, Debug)]
pub enum LogEvent {
    /// First initialization completed.
    Started,
    /// A later `Init` arrived after successful initialization; nothing else
    /// happens.
    Reinitialized,
    /// An `Init` arrived while interface setup was still in flight; it is
    /// ignored.
    InitInFlight,
    /// Runtime configuration updates are accepted but not acted upon.
    ConfigUpdateIgnored,
    /// No usable system default resolver was left after filtering: DNS
    /// fallback is deliberately disabled.
    DnsFallbackDisabled,
    /// An `Offline` error carried a reference that is not a resource
    /// identifier; no cleanup is performed.
    OfflineReferenceInvalid,
    /// Connection setup for a resource failed; its state was torn down.
    ConnectionSetupFailed,
    /// The tunnel engine reported a terminal failure.
    TunnelFailed,
    /// The tunnel engine's statistics should be sampled and logged.
    TunnelStats,
}

/// What the router asks its runtime shell to do: tunnel-engine commands,
/// portal sends, background tasks, and promised log events.
#[derive(Clone, Debug, PartialEq, Eq)]
pub enum Action {
    /// Push interface configuration and the sentinel mapping's pairs to the
    /// tunnel engine; the outcome comes back through `set_interface_result`.
    SetInterface { interface: Interface, mapping: Vec<(IpAddress, DnsServer)> },
    /// Register a resource with the tunnel engine.
    AddResource(ResourceDescription),
    /// Remove a resource from the tunnel engine.
    RemoveResource(ResourceId),
    /// Tear down a resource's connection state in the tunnel engine.
    CleanupConnection(ResourceId),
    /// Complete an offer/answer handshake in the tunnel engine.
    OfferResponse {
        resource_id: ResourceId,
        ice_parameters: String,
        domain_response: Option<String>,
        gateway_public_key: Vec<u8>,
    },
    /// Supply domain parameters for an established connection.
    DomainParameters { resource_id: ResourceId, domain_response: Option<String> },
    /// Feed one ICE candidate to the tunnel engine.
    AddIceCandidate { gateway_id: GatewayId, candidate: String },
    /// Spawn a background connection-setup request toward the tunnel engine;
    /// its outcome goes through `connection_setup_outcome`.
    SpawnConnectionSetup {
        resource_id: ResourceId,
        gateway_id: GatewayId,
        relays: Vec<String>,
        reference: Option<String>,
    },
    /// Send a message to the portal.
    SendToPortal(EgressMessages),
    /// Send a message to the portal tagged with a correlation reference.
    SendWithRef(EgressMessages, Reference),
    /// Re-join a signaling topic.
    JoinTopic(String),
    /// Spawn a background DNS lookup against the named upstream server and
    /// inject the answer for the query.
    SpawnDnsLookup { server: SocketAddress, query: DnsQuery },
    /// Spawn a background upload of the rotated log file to a signed URL.
    SpawnLogUpload { path: String, url: String },
    /// Emit a log event.
    Log(LogEvent),
}

} // verus!
