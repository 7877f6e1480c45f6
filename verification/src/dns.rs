use vstd::prelude::*;

use crate::addr::{
    is_sentinel, is_sentinel_ip, sentinel_v4, sentinel_v6, IpAddress, SocketAddress, DNS_PORT,
    SENTINEL_CAPACITY,
};

verus! {

/// An upstream DNS server reachable at a fixed socket address.
#[derive(Clone, Copy, PartialEq, Eq, Structural, Debug, Hash)]
pub struct IpDnsServer {
    pub address: SocketAddress,
}

/// A DNS server descriptor handed down by the portal or derived from the
/// system's default resolvers.
#[derive(Clone, Copy, PartialEq, Eq, Structural, Debug, Hash)]
pub enum DnsServer {
    IpPort(IpDnsServer),
}

impl DnsServer {
    /// The server's IP address.
    pub open spec fn spec_ip(self) -> IpAddress {
        match self {
            DnsServer::IpPort(s) => s.address.ip,
        }
    }

    /// The server's full socket address.
    pub open spec fn spec_address(self) -> SocketAddress {
        match self {
            DnsServer::IpPort(s) => s.address,
        }
    }

    /// Returns the server's IP address.
    pub fn ip(&self) -> (r: IpAddress)
        ensures
            r == self.spec_ip(),
    {
        match self {
            DnsServer::IpPort(s) => s.address.ip,
        }
    }

    /// Returns the server's full socket address.
    pub fn address(&self) -> (r: SocketAddress)
        ensures
            r == self.spec_address(),
    {
        match self {
            DnsServer::IpPort(s) => s.address,
        }
    }
}

/// The server descriptor built for a system default resolver: its address on
/// the standard DNS port.
pub open spec fn server_for_default(ip: IpAddress) -> DnsServer {
    DnsServer::IpPort(IpDnsServer { address: SocketAddress { ip, port: DNS_PORT } })
}

/// The servers derived from the system default resolvers: every address
/// outside the reserved sentinel ranges, in order, on the standard DNS port.
pub open spec fn default_servers_spec(defaults: Seq<IpAddress>) -> Seq<DnsServer>
    decreases defaults.len(),
{
    if defaults.len() == 0 {
        Seq::empty()
    } else {
        let rest = default_servers_spec(defaults.drop_last());
        if is_sentinel_ip(defaults.last()) {
            rest
        } else {
            rest.push(server_for_default(defaults.last()))
        }
    }
}

/// The effective upstream list: the portal's servers verbatim when it names
/// any, else the filtered system defaults.
pub open spec fn effective_dns_spec(
    upstream: Seq<DnsServer>,
    defaults: Seq<IpAddress>,
) -> Seq<DnsServer> {
    if upstream.len() > 0 {
        upstream
    } else {
        default_servers_spec(defaults)
    }
}

/// No server derived from the system defaults lies in a reserved sentinel
/// range: the filter never lets a sentinel-looped resolver through.
pub proof fn lemma_default_servers_filtered(defaults: Seq<IpAddress>)
    ensures
        forall|i: int|
            0 <= i < default_servers_spec(defaults).len() ==> !is_sentinel_ip(
                #[trigger] default_servers_spec(defaults)[i].spec_ip(),
            ),
    decreases defaults.len(),
{
    if defaults.len() > 0 {
        lemma_default_servers_filtered(defaults.drop_last());
    }
}

/// When every system default lies inside a sentinel range, the derived list
/// is empty: filtering never falls back to an unsafe address.
pub proof fn lemma_default_servers_all_sentinel(defaults: Seq<IpAddress>)
    requires
        forall|i: int| 0 <= i < defaults.len() ==> is_sentinel_ip(#[trigger] defaults[i]),
    ensures
        default_servers_spec(defaults).len() == 0,
    decreases defaults.len(),
{
    if defaults.len() > 0 {
        lemma_default_servers_all_sentinel(defaults.drop_last());
    }
}

/// Computes the effective DNS server list: the portal-configured upstream
/// servers when there are any, otherwise the system default resolvers with
/// every sentinel-range address excluded. An empty result means DNS fallback
/// is deliberately disabled rather than pointed at an unsafe address.
pub fn effective_dns_servers(
    upstream_dns: Vec<DnsServer>,
    default_resolvers: Vec<IpAddress>,
) -> (r: Vec<DnsServer>)
    ensures
        r@ == effective_dns_spec(upstream_dns@, default_resolvers@),
        upstream_dns@.len() > 0 ==> r@ == upstream_dns@,
        upstream_dns@.len() == 0 ==> forall|i: int|
            0 <= i < r@.len() ==> !is_sentinel_ip(#[trigger] r@[i].spec_ip()),
        upstream_dns@.len() == 0 && (forall|i: int|
            0 <= i < default_resolvers@.len() ==> is_sentinel_ip(
                #[trigger] default_resolvers@[i],
            )) ==> r@.len() == 0,
{
    if upstream_dns.len() > 0 {
        return upstream_dns;
    }
    let mut out: Vec<DnsServer> = Vec::new();
    let mut i: usize = 0;
    while i < default_resolvers.len()
        invariant
            i <= default_resolvers.len(),
            out@ == default_servers_spec(default_resolvers@.take(i as int)),
        decreases default_resolvers.len() - i,
    {
        let ip = default_resolvers[i];
        proof {
            assert(default_resolvers@.take(i + 1).drop_last() =~= default_resolvers@.take(
                i as int,
            ));
            assert(default_resolvers@.take(i + 1).last() == default_resolvers@[i as int]);
        }
        if !is_sentinel(ip) {
            out.push(DnsServer::IpPort(IpDnsServer {
                address: SocketAddress { ip, port: DNS_PORT },
            }));
        }
        i = i + 1;
    }
    proof {
        assert(default_resolvers@.take(default_resolvers@.len() as int) =~= default_resolvers@);
        lemma_default_servers_filtered(default_resolvers@);
        if forall|k: int|
            0 <= k < default_resolvers@.len() ==> is_sentinel_ip(#[trigger] default_resolvers@[k]) {
            lemma_default_servers_all_sentinel(default_resolvers@);
        }
    }
    out
}

/// How many servers of the list have an IPv4 address.
pub open spec fn count_v4(s: Seq<DnsServer>) -> int
    decreases s.len(),
{
    if s.len() == 0 {
        0
    } else {
        count_v4(s.drop_last()) + if s.last().spec_ip() is V4 {
            1int
        } else {
            0int
        }
    }
}

/// How many servers of the list have an IPv6 address.
pub open spec fn count_v6(s: Seq<DnsServer>) -> int
    decreases s.len(),
{
    if s.len() == 0 {
        0
    } else {
        count_v6(s.drop_last()) + if s.last().spec_ip() is V6 {
            1int
        } else {
            0int
        }
    }
}

/// The family counts never go negative and never exceed the list length.
pub proof fn lemma_counts_bounded(s: Seq<DnsServer>)
    ensures
        0 <= count_v4(s) <= s.len(),
        0 <= count_v6(s) <= s.len(),
        count_v4(s) + count_v6(s) == s.len(),
    decreases s.len(),
{
    if s.len() > 0 {
        lemma_counts_bounded(s.drop_last());
    }
}

/// Deterministic allocator for sentinel addresses: hands out the next unused
/// address of the appropriate family's reserved range.
pub struct IpProvider {
    pub next_v4: u32,
    pub next_v6: u32,
}

impl IpProvider {
    /// Both counters stay within the per-family capacity.
    pub open spec fn wf(self) -> bool {
        self.next_v4 <= SENTINEL_CAPACITY && self.next_v6 <= SENTINEL_CAPACITY
    }

    /// A fresh allocator with no sentinel handed out yet.
    pub fn new() -> (r: IpProvider)
        ensures
            r.wf(),
            r.next_v4 == 0,
            r.next_v6 == 0,
    {
        IpProvider { next_v4: 0, next_v6: 0 }
    }

    /// Allocates the sentinel standing in for `ip`: the next free address of
    /// `ip`'s family, or `None` when that family's range is exhausted.
    pub fn get_proxy_ip_for(&mut self, ip: &IpAddress) -> (r: Option<IpAddress>)
        requires
            old(self).wf(),
        ensures
            final(self).wf(),
            match *ip {
                IpAddress::V4(_) => {
                    &&& final(self).next_v6 == old(self).next_v6
                    &&& if old(self).next_v4 < SENTINEL_CAPACITY {
                        r == Some(sentinel_v4(old(self).next_v4 as int)) && final(self).next_v4
                            == old(self).next_v4 + 1
                    } else {
                        r is None && final(self).next_v4 == old(self).next_v4
                    }
                },
                IpAddress::V6(_) => {
                    &&& final(self).next_v4 == old(self).next_v4
                    &&& if old(self).next_v6 < SENTINEL_CAPACITY {
                        r == Some(sentinel_v6(old(self).next_v6 as int)) && final(self).next_v6
                            == old(self).next_v6 + 1
                    } else {
                        r is None && final(self).next_v6 == old(self).next_v6
                    }
                },
            },
    {
        match ip {
            IpAddress::V4(_) => {
                if self.next_v4 < SENTINEL_CAPACITY {
                    let k = self.next_v4;
                    self.next_v4 = self.next_v4 + 1;
                    Some(IpAddress::V4(crate::addr::SENTINEL_V4_BASE + k))
                } else {
                    None
                }
            },
            IpAddress::V6(_) => {
                if self.next_v6 < SENTINEL_CAPACITY {
                    let k = self.next_v6;
                    self.next_v6 = self.next_v6 + 1;
                    Some(IpAddress::V6(crate::addr::SENTINEL_V6_BASE + (k as u128)))
                } else {
                    None
                }
            },
        }
    }
}

} // verus!
