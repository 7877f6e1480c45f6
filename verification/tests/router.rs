use connlib_control::addr::{IpAddress, SocketAddress};
use connlib_control::control::{
    connection_send_failed, connection_setup_outcome, ControlPlane,
};
use connlib_control::dns::{DnsServer, IpDnsServer};
use connlib_control::ident::{GatewayId, ResourceId};
use connlib_control::messages::{
    Action, ChannelError, Connect, ConnectionAccepted, ConnectionDetails, DnsQuery,
    EgressMessages, Error, ErrorInfo, GatewayIceCandidates, GatewayResponse, InitClient,
    Interface, KnownError, LogEvent, Messages, Reason, Reference, Request, ResourceAccepted,
    ResourceDescription, ReuseConnection, TunnelEvent,
};

const GOOGLE_V4: IpAddress = IpAddress::V4(0x0808_0808);
const SENTINEL_FIRST_V4: IpAddress = IpAddress::V4(0x6464_6F00);

fn server(ip: IpAddress, port: u16) -> DnsServer {
    DnsServer::IpPort(IpDnsServer { address: SocketAddress { ip, port } })
}

fn rid(v: u128) -> ResourceId {
    ResourceId { value: v }
}

fn gid(v: u128) -> GatewayId {
    GatewayId { value: v }
}

fn init_message(resources: Vec<ResourceDescription>) -> Messages {
    Messages::Init(InitClient {
        interface: Interface { upstream_dns: Vec::new() },
        resources,
    })
}

/// Drives a fresh control plane through a successful first initialization
/// with the given resources and system resolvers.
fn initialized_plane(
    resources: Vec<ResourceDescription>,
    system_resolvers: Vec<IpAddress>,
) -> ControlPlane {
    let mut cp = ControlPlane::new();
    let acts = cp.handle_message(init_message(resources), None, system_resolvers, None);
    assert!(matches!(acts[0], Action::SetInterface { .. }));
    let _ = cp.set_interface_result(true);
    cp
}

#[test]
fn first_init_requests_interface_setup() {
    let mut cp = ControlPlane::new();
    let acts = cp.handle_message(
        init_message(vec![ResourceDescription { id: rid(7) }]),
        None,
        vec![GOOGLE_V4],
        None,
    );
    assert_eq!(acts.len(), 1);
    match &acts[0] {
        Action::SetInterface { interface, mapping } => {
            assert!(interface.upstream_dns.is_empty());
            assert_eq!(mapping.len(), 1);
            assert_eq!(mapping[0], (SENTINEL_FIRST_V4, server(GOOGLE_V4, 53)));
        }
        other => panic!("expected SetInterface, got {other:?}"),
    }
    assert!(!cp.tunnel_init);
}

#[test]
fn successful_setup_registers_resources_and_table() {
    let mut cp = ControlPlane::new();
    let r1 = ResourceDescription { id: rid(1) };
    let r2 = ResourceDescription { id: rid(2) };
    let _ = cp.handle_message(init_message(vec![r1, r2]), None, vec![GOOGLE_V4], None);
    let acts = cp.set_interface_result(true);
    assert_eq!(
        acts,
        vec![
            Action::Log(LogEvent::Started),
            Action::AddResource(r1),
            Action::AddResource(r2),
        ]
    );
    assert!(cp.tunnel_init);
    assert_eq!(
        cp.fallback_resolver.get(SENTINEL_FIRST_V4),
        Some(SocketAddress { ip: GOOGLE_V4, port: 53 })
    );
}

#[test]
fn failed_setup_allows_retry() {
    let mut cp = ControlPlane::new();
    let _ = cp.handle_message(init_message(Vec::new()), None, vec![GOOGLE_V4], None);
    let acts = cp.set_interface_result(false);
    assert!(acts.is_empty());
    assert!(!cp.tunnel_init);
    // A later Init asks for interface setup again.
    let acts = cp.handle_message(init_message(Vec::new()), None, vec![GOOGLE_V4], None);
    assert!(matches!(acts[0], Action::SetInterface { .. }));
}

#[test]
fn second_init_is_log_only() {
    let r1 = ResourceDescription { id: rid(1) };
    let mut cp = initialized_plane(vec![r1], vec![GOOGLE_V4]);
    let table_before = cp.fallback_resolver.clone();
    // A second Init with a different resource list changes nothing: no new
    // interface push, no resource registration, no table swap.
    let acts = cp.handle_message(
        init_message(vec![ResourceDescription { id: rid(9) }]),
        None,
        vec![IpAddress::V4(0x0101_0101)],
        None,
    );
    assert_eq!(acts, vec![Action::Log(LogEvent::Reinitialized)]);
    assert!(cp.tunnel_init);
    assert_eq!(cp.fallback_resolver, table_before);
}

#[test]
fn init_with_no_usable_resolvers_disables_fallback() {
    let mut cp = ControlPlane::new();
    let acts = cp.handle_message(
        init_message(Vec::new()),
        None,
        vec![IpAddress::V4(0x6464_6F05)],
        None,
    );
    assert_eq!(acts.len(), 2);
    match &acts[0] {
        Action::SetInterface { mapping, .. } => assert!(mapping.is_empty()),
        other => panic!("expected SetInterface, got {other:?}"),
    }
    assert_eq!(acts[1], Action::Log(LogEvent::DnsFallbackDisabled));
}

#[test]
fn dns_query_for_known_sentinel_spawns_lookup() {
    let mut cp = initialized_plane(Vec::new(), vec![GOOGLE_V4]);
    let query = DnsQuery {
        name: String::from("example.com"),
        record_type: 1,
        destination: SENTINEL_FIRST_V4,
    };
    let acts = cp.handle_tunnel_event(Ok(TunnelEvent::DnsQuery(query.clone())));
    assert_eq!(
        acts,
        vec![Action::SpawnDnsLookup {
            server: SocketAddress { ip: GOOGLE_V4, port: 53 },
            query,
        }]
    );
}

#[test]
fn dns_query_for_unknown_sentinel_is_dropped() {
    let mut cp = initialized_plane(Vec::new(), vec![GOOGLE_V4]);
    let query = DnsQuery {
        name: String::from("example.com"),
        record_type: 1,
        destination: IpAddress::V4(0x6464_6F42),
    };
    let acts = cp.handle_tunnel_event(Ok(TunnelEvent::DnsQuery(query)));
    assert!(acts.is_empty());
}

#[test]
fn offline_error_with_resource_reference_cleans_up() {
    let mut cp = ControlPlane::new();
    let r = cp.handle_error(
        ChannelError::ErrorReply(ErrorInfo::Offline),
        Some(String::from("3fa85f64-5717-4562-b3fc-2c963f66afa6")),
        String::from("client"),
    );
    assert_eq!(
        r,
        Ok(vec![Action::CleanupConnection(rid(
            0x3fa85f64_5717_4562_b3fc_2c963f66afa6
        ))])
    );
}

#[test]
fn offline_error_with_bad_reference_only_warns() {
    let mut cp = ControlPlane::new();
    let r = cp.handle_error(
        ChannelError::ErrorReply(ErrorInfo::Offline),
        Some(String::from("not-a-resource-id")),
        String::from("client"),
    );
    assert_eq!(r, Ok(vec![Action::Log(LogEvent::OfflineReferenceInvalid)]));
}

#[test]
fn offline_error_without_reference_is_ignored() {
    let mut cp = ControlPlane::new();
    let r = cp.handle_error(
        ChannelError::ErrorReply(ErrorInfo::Offline),
        None,
        String::from("client"),
    );
    assert_eq!(r, Ok(Vec::new()));
}

#[test]
fn unmatched_topic_rejoins() {
    let mut cp = ControlPlane::new();
    let r = cp.handle_error(
        ChannelError::ErrorReply(ErrorInfo::Reason(Reason::Known(KnownError::UnmatchedTopic))),
        None,
        String::from("client"),
    );
    assert_eq!(r, Ok(vec![Action::JoinTopic(String::from("client"))]));
}

#[test]
fn token_expired_is_session_fatal() {
    let mut cp = ControlPlane::new();
    let r = cp.handle_error(
        ChannelError::ErrorReply(ErrorInfo::Reason(Reason::Known(KnownError::TokenExpired))),
        None,
        String::from("client"),
    );
    assert_eq!(r, Err(Error::ClosedByPortal));
}

#[test]
fn closed_by_portal_is_session_fatal() {
    let mut cp = ControlPlane::new();
    let r = cp.handle_error(
        ChannelError::ErrorMsg(Error::ClosedByPortal),
        None,
        String::from("client"),
    );
    assert_eq!(r, Err(Error::ClosedByPortal));
}

#[test]
fn unknown_errors_are_ignored() {
    let mut cp = ControlPlane::new();
    let r = cp.handle_error(
        ChannelError::ErrorReply(ErrorInfo::Reason(Reason::Unknown(String::from("shrug")))),
        Some(String::from("3fa85f64-5717-4562-b3fc-2c963f66afa6")),
        String::from("client"),
    );
    assert_eq!(r, Ok(Vec::new()));
}

#[test]
fn connect_accepted_completes_handshake() {
    let mut cp = ControlPlane::new();
    let acts = cp.handle_message(
        Messages::Connect(Connect {
            gateway_payload: GatewayResponse::ConnectionAccepted(ConnectionAccepted {
                ice_parameters: String::from("ice-params"),
                domain_response: Some(String::from("domains")),
            }),
            resource_id: rid(5),
            gateway_public_key: vec![7u8; 32],
        }),
        None,
        Vec::new(),
        None,
    );
    assert_eq!(
        acts,
        vec![Action::OfferResponse {
            resource_id: rid(5),
            ice_parameters: String::from("ice-params"),
            domain_response: Some(String::from("domains")),
            gateway_public_key: vec![7u8; 32],
        }]
    );
}

#[test]
fn connect_resource_accepted_supplies_domains() {
    let mut cp = ControlPlane::new();
    let acts = cp.handle_message(
        Messages::Connect(Connect {
            gateway_payload: GatewayResponse::ResourceAccepted(ResourceAccepted {
                domain_response: None,
            }),
            resource_id: rid(5),
            gateway_public_key: Vec::new(),
        }),
        None,
        Vec::new(),
        None,
    );
    assert_eq!(
        acts,
        vec![Action::DomainParameters { resource_id: rid(5), domain_response: None }]
    );
}

#[test]
fn connection_details_spawns_setup() {
    let mut cp = ControlPlane::new();
    let acts = cp.handle_message(
        Messages::ConnectionDetails(ConnectionDetails {
            gateway_id: gid(11),
            resource_id: rid(12),
            relays: vec![String::from("turn:relay.example")],
        }),
        Some(String::from("corr-1")),
        Vec::new(),
        None,
    );
    assert_eq!(
        acts,
        vec![Action::SpawnConnectionSetup {
            resource_id: rid(12),
            gateway_id: gid(11),
            relays: vec![String::from("turn:relay.example")],
            reference: Some(String::from("corr-1")),
        }]
    );
}

#[test]
fn connection_setup_outcomes() {
    let acts = connection_setup_outcome(rid(3), Ok(Request::NewConnection(String::from("offer"))));
    assert_eq!(
        acts,
        vec![Action::SendWithRef(
            EgressMessages::RequestConnection(String::from("offer")),
            Reference::Resource(rid(3)),
        )]
    );
    let reuse = ReuseConnection { resource_id: rid(3), payload: String::from("reuse") };
    let acts = connection_setup_outcome(rid(3), Ok(Request::ReuseConnection(reuse.clone())));
    assert_eq!(
        acts,
        vec![Action::SendWithRef(
            EgressMessages::ReuseConnection(reuse),
            Reference::Resource(rid(3)),
        )]
    );
    let acts = connection_setup_outcome(rid(3), Err(String::from("engine refused")));
    assert_eq!(
        acts,
        vec![
            Action::CleanupConnection(rid(3)),
            Action::Log(LogEvent::ConnectionSetupFailed),
        ]
    );
    assert_eq!(connection_send_failed(rid(3)), acts);
}

#[test]
fn resource_messages_forwarded() {
    let mut cp = ControlPlane::new();
    let rd = ResourceDescription { id: rid(20) };
    let acts = cp.handle_message(Messages::ResourceCreatedOrUpdated(rd), None, Vec::new(), None);
    assert_eq!(acts, vec![Action::AddResource(rd)]);
    let acts = cp.handle_message(Messages::ResourceDeleted(rid(20)), None, Vec::new(), None);
    assert_eq!(acts, vec![Action::RemoveResource(rid(20))]);
}

#[test]
fn ice_candidates_fed_one_by_one() {
    let mut cp = ControlPlane::new();
    let acts = cp.handle_message(
        Messages::IceCandidates(GatewayIceCandidates {
            gateway_id: gid(2),
            candidates: vec![String::from("c1"), String::from("c2")],
        }),
        None,
        Vec::new(),
        None,
    );
    assert_eq!(
        acts,
        vec![
            Action::AddIceCandidate { gateway_id: gid(2), candidate: String::from("c1") },
            Action::AddIceCandidate { gateway_id: gid(2), candidate: String::from("c2") },
        ]
    );
}

#[test]
fn config_changed_is_a_stub() {
    let mut cp = ControlPlane::new();
    let acts = cp.handle_message(
        Messages::ConfigChanged(String::from("{}")),
        None,
        Vec::new(),
        None,
    );
    assert_eq!(acts, vec![Action::Log(LogEvent::ConfigUpdateIgnored)]);
}

#[test]
fn signed_log_url_uploads_only_rolled_files() {
    let mut cp = ControlPlane::new();
    let acts = cp.handle_message(
        Messages::SignedLogUrl(String::from("https://logs.example/put")),
        None,
        Vec::new(),
        Some(String::from("/var/log/conn.1")),
    );
    assert_eq!(
        acts,
        vec![Action::SpawnLogUpload {
            path: String::from("/var/log/conn.1"),
            url: String::from("https://logs.example/put"),
        }]
    );
    let acts = cp.handle_message(
        Messages::SignedLogUrl(String::from("https://logs.example/put")),
        None,
        Vec::new(),
        None,
    );
    assert!(acts.is_empty());
}

#[test]
fn ice_candidate_events_broadcast() {
    let mut cp = ControlPlane::new();
    let acts = cp.handle_tunnel_event(Ok(TunnelEvent::SignalIceCandidate {
        conn_id: gid(4),
        candidate: String::from("udp 1.2.3.4"),
    }));
    assert_eq!(acts.len(), 1);
    match &acts[0] {
        Action::SendToPortal(EgressMessages::BroadcastIceCandidates(b)) => {
            assert_eq!(b.gateway_ids, vec![gid(4)]);
            assert_eq!(b.candidates, vec![String::from("udp 1.2.3.4")]);
        }
        other => panic!("expected broadcast, got {other:?}"),
    }
}

#[test]
fn connection_intent_prepares_connection() {
    let mut cp = ControlPlane::new();
    let acts = cp.handle_tunnel_event(Ok(TunnelEvent::ConnectionIntent {
        resource: rid(6),
        connected_gateway_ids: vec![gid(1), gid(2)],
        reference: String::from("intent-3"),
    }));
    assert_eq!(
        acts,
        vec![Action::SendWithRef(
            EgressMessages::PrepareConnection {
                resource_id: rid(6),
                connected_gateway_ids: vec![gid(1), gid(2)],
            },
            Reference::Raw(String::from("intent-3")),
        )]
    );
}

#[test]
fn refresh_resources_fans_out() {
    let mut cp = ControlPlane::new();
    let c1 = ReuseConnection { resource_id: rid(1), payload: String::from("a") };
    let c2 = ReuseConnection { resource_id: rid(2), payload: String::from("b") };
    let acts = cp.handle_tunnel_event(Ok(TunnelEvent::RefreshResources {
        connections: vec![c1.clone(), c2.clone()],
    }));
    assert_eq!(
        acts,
        vec![
            Action::SendWithRef(
                EgressMessages::ReuseConnection(c1),
                Reference::Resource(rid(1)),
            ),
            Action::SendWithRef(
                EgressMessages::ReuseConnection(c2),
                Reference::Resource(rid(2)),
            ),
        ]
    );
}

#[test]
fn tunnel_failure_is_logged_not_fatal() {
    let mut cp = ControlPlane::new();
    let acts = cp.handle_tunnel_event(Err(String::from("engine crashed")));
    assert_eq!(acts, vec![Action::Log(LogEvent::TunnelFailed)]);
}

#[test]
fn stats_and_log_url_requests() {
    let mut cp = ControlPlane::new();
    assert_eq!(cp.stats_event(), vec![Action::Log(LogEvent::TunnelStats)]);
    assert_eq!(
        cp.request_log_upload_url(),
        vec![Action::SendToPortal(EgressMessages::CreateLogSink)]
    );
}
