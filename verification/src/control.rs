use vstd::prelude::*;

use crate::addr::{IpAddress, SENTINEL_CAPACITY};
use crate::dns::{count_v4, count_v6, effective_dns_servers, effective_dns_spec, DnsServer};
use crate::ident::{parse_reference_spec, parse_resource_id, ResourceId};
use crate::messages::{
    Action, BroadcastGatewayIceCandidates, ChannelError, Connect, ConnectionDetails,
    EgressMessages, Error, ErrorInfo, GatewayIceCandidates, GatewayResponse, InitClient,
    KnownError, LogEvent, Messages, Reason, Reference, Request, ResourceDescription, TunnelEvent,
};
use crate::resolver::{create_resolvers, ResolverTable};
use crate::sentinel::{mapping_spec, sentinel_dns_mapping, SentinelMap};

verus! {

/// A first initialization whose interface setup is still in flight: the
/// sentinel mapping already built for it, and the resources to register once
/// the tunnel engine accepts the interface.
pub struct PendingInit {
    pub mapping: SentinelMap,
    pub resources: Vec<ResourceDescription>,
}

/// The control plane's session state: the one-way initialization flag, the
/// sentinel-to-resolver fallback table, and an interface setup in flight, if
/// any. The tunnel engine and the signaling channel are reached only through
/// the actions the handlers return.
pub struct ControlPlane {
    pub tunnel_init: bool,
    pub fallback_resolver: ResolverTable,
    pub pending_init: Option<PendingInit>,
}

/// A pair list laying out exactly the pairs of a sentinel mapping, each
/// sentinel once.
pub open spec fn pairs_match(
    ps: Seq<(IpAddress, DnsServer)>,
    m: Map<IpAddress, DnsServer>,
) -> bool {
    &&& forall|i: int|
        0 <= i < ps.len() ==> m.dom().contains((#[trigger] ps[i]).0) && m[ps[i].0] == ps[i].1
    &&& forall|i: int, j: int| 0 <= i < j < ps.len() ==> (#[trigger] ps[i]).0 != (#[trigger] ps[j]).0
    &&& forall|k: IpAddress|
        #[trigger] m.dom().contains(k) ==> exists|i: int| 0 <= i < ps.len() && (#[trigger] ps[i]).0
            == k
}

/// The actions of a `Connect` message: complete the offer/answer handshake
/// for an accepted connection, or supply domain parameters for an accepted
/// resource.
pub open spec fn connect_actions(msg: Connect) -> Seq<Action> {
    match msg.gateway_payload {
        GatewayResponse::ConnectionAccepted(p) => seq![
            Action::OfferResponse {
                resource_id: msg.resource_id,
                ice_parameters: p.ice_parameters,
                domain_response: p.domain_response,
                gateway_public_key: msg.gateway_public_key,
            },
        ],
        GatewayResponse::ResourceAccepted(p) => seq![
            Action::DomainParameters {
                resource_id: msg.resource_id,
                domain_response: p.domain_response,
            },
        ],
    }
}

/// The single action of a `ConnectionDetails` message: a background
/// connection-setup request carrying the inbound reference.
pub open spec fn connection_details_actions(
    details: ConnectionDetails,
    reference: Option<String>,
) -> Seq<Action> {
    seq![
        Action::SpawnConnectionSetup {
            resource_id: details.resource_id,
            gateway_id: details.gateway_id,
            relays: details.relays,
            reference,
        },
    ]
}

/// One `AddIceCandidate` action per candidate, in order, all for the same
/// gateway; one candidate's failure must not stop the rest, so each is its
/// own action.
pub open spec fn ice_actions_match(msg: GatewayIceCandidates, r: Seq<Action>) -> bool {
    &&& r.len() == msg.candidates@.len()
    &&& forall|i: int|
        0 <= i < r.len() ==> r[i] == (Action::AddIceCandidate {
            gateway_id: msg.gateway_id,
            candidate: msg.candidates@[i],
        })
}

/// What handling `Init` does. A first `Init` computes the effective DNS
/// servers and their sentinel mapping and asks for interface setup; once a
/// session is initialized, or while a setup is in flight, a further `Init`
/// changes nothing and only logs.
pub open spec fn init_post(
    pre: ControlPlane,
    post: ControlPlane,
    msg: InitClient,
    system_resolvers: Seq<IpAddress>,
    r: Seq<Action>,
) -> bool {
    let servers = effective_dns_spec(msg.interface.upstream_dns@, system_resolvers);
    if pre.tunnel_init {
        post == pre && r == seq![Action::Log(LogEvent::Reinitialized)]
    } else if pre.pending_init is Some {
        post == pre && r == seq![Action::Log(LogEvent::InitInFlight)]
    } else {
        &&& post.tunnel_init == false
        &&& post.fallback_resolver == pre.fallback_resolver
        &&& match post.pending_init {
            Some(p) => p.mapping@ == mapping_spec(servers) && p.resources == msg.resources,
            None => false,
        }
        &&& r.len() == if servers.len() == 0 {
            2int
        } else {
            1int
        }
        &&& match r[0] {
            Action::SetInterface { interface, mapping } => interface == msg.interface
                && pairs_match(mapping@, mapping_spec(servers)),
            _ => false,
        }
        &&& (servers.len() == 0 ==> r[1] == Action::Log(LogEvent::DnsFallbackDisabled))
    }
}

/// What the tunnel engine's answer to interface setup does. Success marks
/// the session initialized, registers the pending resources and swaps in the
/// fallback resolver table built from the pending mapping; failure forgets
/// the pending setup so a later `Init` can retry.
pub open spec fn set_interface_result_post(
    pre: ControlPlane,
    post: ControlPlane,
    success: bool,
    r: Seq<Action>,
) -> bool {
    match pre.pending_init {
        None => post == pre && r.len() == 0,
        Some(p) => if success {
            &&& post.tunnel_init == true
            &&& post.pending_init is None
            &&& post.fallback_resolver.wf()
            &&& post.fallback_resolver@.dom() == p.mapping@.dom()
            &&& forall|k: IpAddress|
                #[trigger] p.mapping@.dom().contains(k) ==> post.fallback_resolver@[k]
                    == p.mapping@[k].spec_address()
            &&& r.len() == 1 + p.resources@.len()
            &&& r[0] == Action::Log(LogEvent::Started)
            &&& forall|i: int|
                0 <= i < p.resources@.len() ==> r[i + 1] == Action::AddResource(
                    #[trigger] p.resources@[i],
                )
        } else {
            &&& post.tunnel_init == false
            &&& post.pending_init is None
            &&& post.fallback_resolver == pre.fallback_resolver
            &&& r.len() == 0
        },
    }
}

/// Copies a server list element by element.
fn copy_servers(v: &Vec<DnsServer>) -> (r: Vec<DnsServer>)
    ensures
        r@ == v@,
{
    let mut out: Vec<DnsServer> = Vec::new();
    let mut i: usize = 0;
    while i < v.len()
        invariant
            i <= v@.len(),
            out@ == v@.take(i as int),
        decreases v@.len() - i,
    {
        out.push(v[i]);
        proof {
            assert(v@.take(i + 1) =~= v@.take(i as int).push(v@[i as int]));
        }
        i = i + 1;
    }
    proof {
        assert(v@.take(v@.len() as int) =~= v@);
    }
    out
}

impl ControlPlane {
    /// The fallback table never holds a sentinel twice, and an interface
    /// setup is in flight only before the session is initialized.
    pub open spec fn wf(self) -> bool {
        &&& self.fallback_resolver.wf()
        &&& (self.pending_init is Some ==> !self.tunnel_init)
    }

    /// A fresh, uninitialized session.
    pub fn new() -> (r: ControlPlane)
        ensures
            r.wf(),
            r.tunnel_init == false,
            r.pending_init is None,
            r.fallback_resolver@ == crate::resolver::no_resolvers(),
    {
        ControlPlane {
            tunnel_init: false,
            fallback_resolver: ResolverTable::new(),
            pending_init: None,
        }
    }

    /// Handles `Init`: computes the effective DNS servers, builds their
    /// sentinel mapping and asks the runtime to push interface and mapping
    /// to the tunnel engine. Once initialized, a later `Init` is a log-only
    /// no-op: neither the tunnel interface nor the resolver table is
    /// replaced.
    pub fn init(&mut self, msg: InitClient, system_resolvers: Vec<IpAddress>) -> (r: Vec<Action>)
        requires
            old(self).wf(),
            count_v4(effective_dns_spec(msg.interface.upstream_dns@, system_resolvers@))
                <= SENTINEL_CAPACITY,
            count_v6(effective_dns_spec(msg.interface.upstream_dns@, system_resolvers@))
                <= SENTINEL_CAPACITY,
        ensures
            final(self).wf(),
            init_post(*old(self), *final(self), msg, system_resolvers@, r@),
    {
        if self.tunnel_init {
            let mut acts: Vec<Action> = Vec::new();
            acts.push(Action::Log(LogEvent::Reinitialized));
            proof {
                assert(acts@ =~= seq![Action::Log(LogEvent::Reinitialized)]);
            }
            return acts;
        }
        if self.pending_init.is_some() {
            let mut acts: Vec<Action> = Vec::new();
            acts.push(Action::Log(LogEvent::InitInFlight));
            proof {
                assert(acts@ =~= seq![Action::Log(LogEvent::InitInFlight)]);
            }
            return acts;
        }
        let InitClient { interface, resources } = msg;
        let upstream = copy_servers(&interface.upstream_dns);
        let servers = effective_dns_servers(upstream, system_resolvers);
        let no_fallback = servers.len() == 0;
        let mapping = sentinel_dns_mapping(&servers);
        let pairs = mapping.pairs();
        self.pending_init = Some(PendingInit { mapping, resources });
        let mut acts: Vec<Action> = Vec::new();
        acts.push(Action::SetInterface { interface, mapping: pairs });
        if no_fallback {
            acts.push(Action::Log(LogEvent::DnsFallbackDisabled));
        }
        acts
    }

    /// Handles the tunnel engine's answer to interface setup. On success the
    /// session becomes initialized: the pending resources are registered and
    /// the fallback resolver table is swapped in, one resolver per sentinel.
    /// On failure the pending setup is dropped and the session stays
    /// uninitialized, so a later `Init` can retry. Without a setup in
    /// flight this does nothing.
    pub fn set_interface_result(&mut self, success: bool) -> (r: Vec<Action>)
        requires
            old(self).wf(),
        ensures
            final(self).wf(),
            set_interface_result_post(*old(self), *final(self), success, r@),
    {
        if self.pending_init.is_none() {
            return Vec::new();
        }
        let p = self.pending_init.take().unwrap();
        if success {
            self.tunnel_init = true;
            self.fallback_resolver = create_resolvers(&p.mapping);
            let mut acts: Vec<Action> = Vec::new();
            acts.push(Action::Log(LogEvent::Started));
            let mut i: usize = 0;
            while i < p.resources.len()
                invariant
                    i <= p.resources@.len(),
                    acts@.len() == i + 1,
                    acts@[0] == Action::Log(LogEvent::Started),
                    forall|t: int|
                        0 <= t < i ==> acts@[t + 1] == Action::AddResource(
                            #[trigger] p.resources@[t],
                        ),
                decreases p.resources@.len() - i,
            {
                acts.push(Action::AddResource(p.resources[i]));
                i = i + 1;
            }
            acts
        } else {
            Vec::new()
        }
    }

    /// Handles `Connect`: dispatches the gateway's answer to the tunnel
    /// engine. Failures of either command are the runtime's to log; the
    /// control plane does not retry.
    pub fn connect(&mut self, msg: Connect) -> (r: Vec<Action>)
        ensures
            *final(self) == *old(self),
            r@ == connect_actions(msg),
    {
        let Connect { gateway_payload, resource_id, gateway_public_key } = msg;
        let mut acts: Vec<Action> = Vec::new();
        match gateway_payload {
            GatewayResponse::ConnectionAccepted(p) => {
                acts.push(Action::OfferResponse {
                    resource_id,
                    ice_parameters: p.ice_parameters,
                    domain_response: p.domain_response,
                    gateway_public_key,
                });
            },
            GatewayResponse::ResourceAccepted(p) => {
                acts.push(Action::DomainParameters {
                    resource_id,
                    domain_response: p.domain_response,
                });
            },
        }
        proof {
            assert(acts@ =~= connect_actions(msg));
        }
        acts
    }

    /// Registers one resource with the tunnel engine.
    pub fn add_resource(&self, resource_description: ResourceDescription) -> (r: Vec<Action>)
        ensures
            r@ == seq![Action::AddResource(resource_description)],
    {
        let mut acts: Vec<Action> = Vec::new();
        acts.push(Action::AddResource(resource_description));
        proof {
            assert(acts@ =~= seq![Action::AddResource(resource_description)]);
        }
        acts
    }

    /// Removes one resource from the tunnel engine.
    pub fn resource_deleted(&self, id: ResourceId) -> (r: Vec<Action>)
        ensures
            r@ == seq![Action::RemoveResource(id)],
    {
        let mut acts: Vec<Action> = Vec::new();
        acts.push(Action::RemoveResource(id));
        proof {
            assert(acts@ =~= seq![Action::RemoveResource(id)]);
        }
        acts
    }

    /// Handles `ConnectionDetails`: asks the runtime to request connection
    /// setup in the background, fire-and-forget.
    pub fn connection_details(
        &self,
        details: ConnectionDetails,
        reference: Option<String>,
    ) -> (r: Vec<Action>)
        ensures
            r@ == connection_details_actions(details, reference),
    {
        let ConnectionDetails { gateway_id, resource_id, relays } = details;
        let mut acts: Vec<Action> = Vec::new();
        acts.push(Action::SpawnConnectionSetup { resource_id, gateway_id, relays, reference });
        proof {
            assert(acts@ =~= connection_details_actions(details, reference));
        }
        acts
    }

    /// Feeds each announced candidate to the tunnel engine in order; one
    /// candidate's failure must not stop the others.
    pub fn add_ice_candidate(&self, msg: GatewayIceCandidates) -> (r: Vec<Action>)
        ensures
            ice_actions_match(msg, r@),
    {
        let GatewayIceCandidates { gateway_id, candidates } = msg;
        let ghost orig = candidates@;
        let mut rest = candidates;
        let mut acts: Vec<Action> = Vec::new();
        while rest.len() > 0
            invariant
                acts@.len() + rest@.len() == orig.len(),
                rest@ == orig.skip(acts@.len() as int),
                forall|t: int|
                    0 <= t < acts@.len() ==> acts@[t] == (Action::AddIceCandidate {
                        gateway_id,
                        candidate: orig[t],
                    }),
            decreases rest@.len(),
        {
            let ghost k = acts@.len() as int;
            let candidate = rest.remove(0);
            proof {
                assert(orig.skip(k)[0] == orig[k]);
                assert(orig.skip(k).remove(0) =~= orig.skip(k + 1));
            }
            acts.push(Action::AddIceCandidate { gateway_id, candidate });
        }
        acts
    }

    /// Handles one inbound portal message. `system_resolvers` carries the
    /// platform's current default resolvers (used only by `Init`);
    /// `rolled_log_file` names the rotated log file, if one exists (used
    /// only by `SignedLogUrl`).
    pub fn handle_message(
        &mut self,
        msg: Messages,
        reference: Option<String>,
        system_resolvers: Vec<IpAddress>,
        rolled_log_file: Option<String>,
    ) -> (r: Vec<Action>)
        requires
            old(self).wf(),
            match msg {
                Messages::Init(ic) => count_v4(
                    effective_dns_spec(ic.interface.upstream_dns@, system_resolvers@),
                ) <= SENTINEL_CAPACITY && count_v6(
                    effective_dns_spec(ic.interface.upstream_dns@, system_resolvers@),
                ) <= SENTINEL_CAPACITY,
                _ => true,
            },
        ensures
            final(self).wf(),
            match msg {
                Messages::Init(ic) => init_post(
                    *old(self),
                    *final(self),
                    ic,
                    system_resolvers@,
                    r@,
                ),
                Messages::ConfigChanged(_) => *final(self) == *old(self) && r@ == seq![
                    Action::Log(LogEvent::ConfigUpdateIgnored),
                ],
                Messages::ConnectionDetails(cd) => *final(self) == *old(self) && r@
                    == connection_details_actions(cd, reference),
                Messages::Connect(c) => *final(self) == *old(self) && r@ == connect_actions(c),
                Messages::ResourceCreatedOrUpdated(rd) => *final(self) == *old(self) && r@ == seq![
                    Action::AddResource(rd),
                ],
                Messages::ResourceDeleted(id) => *final(self) == *old(self) && r@ == seq![
                    Action::RemoveResource(id),
                ],
                Messages::IceCandidates(g) => *final(self) == *old(self) && ice_actions_match(
                    g,
                    r@,
                ),
                Messages::SignedLogUrl(url) => *final(self) == *old(self) && match rolled_log_file {
                    Some(path) => r@ == seq![(Action::SpawnLogUpload { path, url })],
                    None => r@.len() == 0,
                },
            },
    {
        match msg {
            Messages::Init(ic) => self.init(ic, system_resolvers),
            Messages::ConfigChanged(_update) => {
                let mut acts: Vec<Action> = Vec::new();
                acts.push(Action::Log(LogEvent::ConfigUpdateIgnored));
                proof {
                    assert(acts@ =~= seq![Action::Log(LogEvent::ConfigUpdateIgnored)]);
                }
                acts
            },
            Messages::ConnectionDetails(cd) => self.connection_details(cd, reference),
            Messages::Connect(c) => self.connect(c),
            Messages::ResourceCreatedOrUpdated(rd) => self.add_resource(rd),
            Messages::ResourceDeleted(id) => self.resource_deleted(id),
            Messages::IceCandidates(g) => self.add_ice_candidate(g),
            Messages::SignedLogUrl(url) => {
                match rolled_log_file {
                    Some(path) => {
                        let mut acts: Vec<Action> = Vec::new();
                        acts.push(Action::SpawnLogUpload { path, url });
                        proof {
                            assert(acts@.len() == 1);
                        }
                        acts
                    },
                    None => Vec::new(),
                }
            },
        }
    }

    /// Classifies a channel-level error. An `Offline` error whose reference
    /// parses as a resource identifier tears down that resource's connection
    /// state; an unparseable reference only warns. An unmatched topic is
    /// re-joined. An expired token, or a channel closed by the portal, is
    /// session-fatal and is the one condition propagated to the caller.
    /// Anything else is ignored.
    pub fn handle_error(
        &mut self,
        reply_error: ChannelError,
        reference: Option<String>,
        topic: String,
    ) -> (r: Result<Vec<Action>, Error>)
        ensures
            *final(self) == *old(self),
            match (reply_error, reference) {
                (ChannelError::ErrorReply(ErrorInfo::Offline), Some(refstr)) => match r {
                    Ok(acts) => match parse_reference_spec(refstr@) {
                        Some(id) => acts@ == seq![Action::CleanupConnection(id)],
                        None => acts@ == seq![Action::Log(LogEvent::OfflineReferenceInvalid)],
                    },
                    Err(_) => false,
                },
                (
                    ChannelError::ErrorReply(
                        ErrorInfo::Reason(Reason::Known(KnownError::UnmatchedTopic)),
                    ),
                    _,
                ) => r matches Ok(acts) && acts@ == seq![Action::JoinTopic(topic)],
                (
                    ChannelError::ErrorReply(
                        ErrorInfo::Reason(Reason::Known(KnownError::TokenExpired)),
                    ),
                    _,
                ) => r matches Err(e) && e == Error::ClosedByPortal,
                (ChannelError::ErrorMsg(Error::ClosedByPortal), _) => r matches Err(e) && e
                    == Error::ClosedByPortal,
                _ => r matches Ok(acts) && acts@.len() == 0,
            },
    {
        match (reply_error, reference) {
            (ChannelError::ErrorReply(ErrorInfo::Offline), Some(refstr)) => {
                let mut acts: Vec<Action> = Vec::new();
                match parse_resource_id(refstr.as_str()) {
                    Some(id) => {
                        acts.push(Action::CleanupConnection(id));
                        proof {
                            assert(acts@ =~= seq![Action::CleanupConnection(id)]);
                        }
                    },
                    None => {
                        acts.push(Action::Log(LogEvent::OfflineReferenceInvalid));
                        proof {
                            assert(acts@ =~= seq![Action::Log(LogEvent::OfflineReferenceInvalid)]);
                        }
                    },
                }
                Ok(acts)
            },
            (
                ChannelError::ErrorReply(
                    ErrorInfo::Reason(Reason::Known(KnownError::UnmatchedTopic)),
                ),
                _,
            ) => {
                let mut acts: Vec<Action> = Vec::new();
                acts.push(Action::JoinTopic(topic));
                proof {
                    assert(acts@ =~= seq![Action::JoinTopic(topic)]);
                }
                Ok(acts)
            },
            (
                ChannelError::ErrorReply(
                    ErrorInfo::Reason(Reason::Known(KnownError::TokenExpired)),
                ),
                _,
            ) => Err(Error::ClosedByPortal),
            (ChannelError::ErrorMsg(Error::ClosedByPortal), _) => Err(Error::ClosedByPortal),
            _ => Ok(Vec::new()),
        }
    }

    /// Asks the runtime to sample and log the tunnel engine's statistics.
    pub fn stats_event(&mut self) -> (r: Vec<Action>)
        ensures
            *final(self) == *old(self),
            r@ == seq![Action::Log(LogEvent::TunnelStats)],
    {
        let mut acts: Vec<Action> = Vec::new();
        acts.push(Action::Log(LogEvent::TunnelStats));
        proof {
            assert(acts@ =~= seq![Action::Log(LogEvent::TunnelStats)]);
        }
        acts
    }

    /// Asks the portal for a signed log-upload URL; the send's outcome is
    /// deliberately ignored.
    pub fn request_log_upload_url(&mut self) -> (r: Vec<Action>)
        ensures
            *final(self) == *old(self),
            r@ == seq![Action::SendToPortal(EgressMessages::CreateLogSink)],
    {
        let mut acts: Vec<Action> = Vec::new();
        acts.push(Action::SendToPortal(EgressMessages::CreateLogSink));
        proof {
            assert(acts@ =~= seq![Action::SendToPortal(EgressMessages::CreateLogSink)]);
        }
        acts
    }

    /// Handles one tunnel-engine event. Candidates are broadcast, connection
    /// intents are forwarded under their reference, an intercepted DNS query
    /// becomes a background lookup against the sentinel's upstream server —
    /// or nothing at all when the sentinel is unknown — and refresh requests
    /// fan out one reuse message per connection. A terminal engine failure
    /// is logged; terminating the session is the caller's decision.
    pub fn handle_tunnel_event(&mut self, event: Result<TunnelEvent, String>) -> (r: Vec<Action>)
        requires
            old(self).wf(),
        ensures
            *final(self) == *old(self),
            match event {
                Ok(TunnelEvent::SignalIceCandidate { conn_id, candidate }) => r@.len() == 1
                    && match r@[0] {
                    Action::SendToPortal(EgressMessages::BroadcastIceCandidates(b)) => {
                        &&& b.gateway_ids@.len() == 1
                        &&& b.gateway_ids@[0] == conn_id
                        &&& b.candidates@.len() == 1
                        &&& b.candidates@[0] == candidate
                    },
                    _ => false,
                },
                Ok(TunnelEvent::ConnectionIntent { resource, connected_gateway_ids, reference }) =>
                    r@ == seq![
                        Action::SendWithRef(
                            EgressMessages::PrepareConnection {
                                resource_id: resource,
                                connected_gateway_ids,
                            },
                            Reference::Raw(reference),
                        ),
                    ],
                Ok(TunnelEvent::DnsQuery(query)) => {
                    if old(self).fallback_resolver@.dom().contains(query.destination) {
                        r@ == seq![
                            (Action::SpawnDnsLookup {
                                server: old(self).fallback_resolver@[query.destination],
                                query,
                            }),
                        ]
                    } else {
                        r@.len() == 0
                    }
                },
                Ok(TunnelEvent::RefreshResources { connections }) => {
                    &&& r@.len() == connections@.len()
                    &&& forall|i: int|
                        0 <= i < r@.len() ==> r@[i] == Action::SendWithRef(
                            EgressMessages::ReuseConnection(#[trigger] connections@[i]),
                            Reference::Resource(connections@[i].resource_id),
                        )
                },
                Err(_) => r@ == seq![Action::Log(LogEvent::TunnelFailed)],
            },
    {
        match event {
            Ok(TunnelEvent::SignalIceCandidate { conn_id, candidate }) => {
                let mut gateway_ids: Vec<crate::ident::GatewayId> = Vec::new();
                gateway_ids.push(conn_id);
                let mut candidates: Vec<String> = Vec::new();
                candidates.push(candidate);
                let mut acts: Vec<Action> = Vec::new();
                acts.push(Action::SendToPortal(EgressMessages::BroadcastIceCandidates(
                    BroadcastGatewayIceCandidates { gateway_ids, candidates },
                )));
                acts
            },
            Ok(TunnelEvent::ConnectionIntent { resource, connected_gateway_ids, reference }) => {
                let mut acts: Vec<Action> = Vec::new();
                acts.push(Action::SendWithRef(
                    EgressMessages::PrepareConnection {
                        resource_id: resource,
                        connected_gateway_ids,
                    },
                    Reference::Raw(reference),
                ));
                proof {
                    assert(acts@ =~= seq![
                        Action::SendWithRef(
                            EgressMessages::PrepareConnection {
                                resource_id: resource,
                                connected_gateway_ids,
                            },
                            Reference::Raw(reference),
                        ),
                    ]);
                }
                acts
            },
            Ok(TunnelEvent::DnsQuery(query)) => {
                let mut acts: Vec<Action> = Vec::new();
                match self.fallback_resolver.get(query.destination) {
                    Some(server) => {
                        acts.push(Action::SpawnDnsLookup { server, query });
                        proof {
                            assert(acts@ =~= seq![
                                (Action::SpawnDnsLookup {
                                    server: old(self).fallback_resolver@[query.destination],
                                    query,
                                }),
                            ]);
                        }
                    },
                    None => {},
                }
                acts
            },
            Ok(TunnelEvent::RefreshResources { connections }) => {
                let ghost orig = connections@;
                let mut rest = connections;
                let mut acts: Vec<Action> = Vec::new();
                while rest.len() > 0
                    invariant
                        acts@.len() + rest@.len() == orig.len(),
                        rest@ == orig.skip(acts@.len() as int),
                        forall|t: int|
                            0 <= t < acts@.len() ==> acts@[t] == Action::SendWithRef(
                                EgressMessages::ReuseConnection(#[trigger] orig[t]),
                                Reference::Resource(orig[t].resource_id),
                            ),
                    decreases rest@.len(),
                {
                    let ghost k = acts@.len() as int;
                    let connection = rest.remove(0);
                    proof {
                        assert(orig.skip(k)[0] == orig[k]);
                        assert(orig.skip(k).remove(0) =~= orig.skip(k + 1));
                    }
                    let resource_id = connection.resource_id;
                    acts.push(Action::SendWithRef(
                        EgressMessages::ReuseConnection(connection),
                        Reference::Resource(resource_id),
                    ));
                }
                acts
            },
            Err(_e) => {
                let mut acts: Vec<Action> = Vec::new();
                acts.push(Action::Log(LogEvent::TunnelFailed));
                proof {
                    assert(acts@ =~= seq![Action::Log(LogEvent::TunnelFailed)]);
                }
                acts
            },
        }
    }
}

/// The follow-up to a background connection-setup request: forward the
/// engine's answer to the portal under the resource's reference, or tear the
/// resource's connection state down on failure.
pub fn connection_setup_outcome(
    resource_id: ResourceId,
    result: Result<Request, String>,
) -> (r: Vec<Action>)
    ensures
        match result {
            Ok(Request::NewConnection(p)) => r@ == seq![
                Action::SendWithRef(
                    EgressMessages::RequestConnection(p),
                    Reference::Resource(resource_id),
                ),
            ],
            Ok(Request::ReuseConnection(rc)) => r@ == seq![
                Action::SendWithRef(
                    EgressMessages::ReuseConnection(rc),
                    Reference::Resource(resource_id),
                ),
            ],
            Err(_) => r@ == seq![
                Action::CleanupConnection(resource_id),
                Action::Log(LogEvent::ConnectionSetupFailed),
            ],
        },
{
    let mut acts: Vec<Action> = Vec::new();
    match result {
        Ok(Request::NewConnection(p)) => {
            acts.push(Action::SendWithRef(
                EgressMessages::RequestConnection(p),
                Reference::Resource(resource_id),
            ));
            proof {
                assert(acts@ =~= seq![
                    Action::SendWithRef(
                        EgressMessages::RequestConnection(p),
                        Reference::Resource(resource_id),
                    ),
                ]);
            }
        },
        Ok(Request::ReuseConnection(rc)) => {
            acts.push(Action::SendWithRef(
                EgressMessages::ReuseConnection(rc),
                Reference::Resource(resource_id),
            ));
            proof {
                assert(acts@ =~= seq![
                    Action::SendWithRef(
                        EgressMessages::ReuseConnection(rc),
                        Reference::Resource(resource_id),
                    ),
                ]);
            }
        },
        Err(_e) => {
            acts.push(Action::CleanupConnection(resource_id));
            acts.push(Action::Log(LogEvent::ConnectionSetupFailed));
            proof {
                assert(acts@ =~= seq![
                    Action::CleanupConnection(resource_id),
                    Action::Log(LogEvent::ConnectionSetupFailed),
                ]);
            }
        },
    }
    acts
}

/// The follow-up when forwarding a connection-setup answer to the portal
/// fails: the resource's connection state is torn down, exactly as when the
/// setup itself fails.
pub fn connection_send_failed(resource_id: ResourceId) -> (r: Vec<Action>)
    ensures
        r@ == seq![
            Action::CleanupConnection(resource_id),
            Action::Log(LogEvent::ConnectionSetupFailed),
        ],
{
    let mut acts: Vec<Action> = Vec::new();
    acts.push(Action::CleanupConnection(resource_id));
    acts.push(Action::Log(LogEvent::ConnectionSetupFailed));
    proof {
        assert(acts@ =~= seq![
            Action::CleanupConnection(resource_id),
            Action::Log(LogEvent::ConnectionSetupFailed),
        ]);
    }
    acts
}

/// Whether a log-upload response status means success; anything else is
/// logged and never retried.
pub fn upload_status_ok(status: u16) -> (r: bool)
    ensures
        r == (200 <= status && status < 300),
{
    200 <= status && status < 300
}

} // verus!
