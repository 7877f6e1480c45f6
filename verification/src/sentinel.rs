use vstd::prelude::*;

use crate::addr::{
    in_sentinel_v4_range, in_sentinel_v6_range, is_sentinel_ip, sentinel_v4, sentinel_v6,
    IpAddress, SENTINEL_CAPACITY, SENTINEL_V4_BASE, SENTINEL_V6_BASE,
};
use crate::dns::{count_v4, count_v6, DnsServer, IpProvider};

verus! {

#[verifier::external_type_specification]
#[verifier::external_body]
#[verifier::reject_recursive_types(L)]
#[verifier::reject_recursive_types(R)]
#[verifier::reject_recursive_types(LS)]
#[verifier::reject_recursive_types(RS)]
pub struct ExBiHashMap<L, R, LS, RS>(bimap::BiHashMap<L, R, LS, RS>);

/// The pairs held by a bimap keyed by sentinel addresses, as a map from
/// sentinel address to upstream server.
pub uninterp spec fn bimap_pairs(m: bimap::BiHashMap<IpAddress, DnsServer>) -> Map<
    IpAddress,
    DnsServer,
>;

/// Bijective table pairing each synthetic sentinel address with the real
/// upstream DNS server it stands in for. Backed by bimap's `BiHashMap`,
/// which Verus sees only through the contracts below.
pub struct SentinelMap {
    pub inner: bimap::BiHashMap<IpAddress, DnsServer>,
}

impl View for SentinelMap {
    type V = Map<IpAddress, DnsServer>;

    open spec fn view(&self) -> Map<IpAddress, DnsServer> {
        bimap_pairs(self.inner)
    }
}

/// What bimap's `insert` does to the held pairs: any pair sharing the new
/// pair's left value (sentinel) or right value (server) is removed, then the
/// new pair is added.
pub open spec fn bimap_insert_spec(
    m: Map<IpAddress, DnsServer>,
    l: IpAddress,
    r: DnsServer,
) -> Map<IpAddress, DnsServer> {
    Map::new(
        |k: IpAddress| k == l || (m.dom().contains(k) && m[k] != r),
        |k: IpAddress| if k == l {
            r
        } else {
            m[k]
        },
    )
}

/// The table with no pairs at all.
pub open spec fn empty_pairs() -> Map<IpAddress, DnsServer> {
    Map::empty()
}

impl SentinelMap {
    /// Relies on bimap::BiHashMap::new: the new table holds no pairs.
    #[verifier::external_body]
    pub fn new() -> (r: SentinelMap)
        ensures
            r@ == empty_pairs(),
    {
        SentinelMap { inner: bimap::BiHashMap::new() }
    }

    /// Relies on bimap::BiHashMap::insert: overwrite semantics, removing any
    /// pair that shares the inserted sentinel or the inserted server.
    #[verifier::external_body]
    pub fn insert(&mut self, sentinel: IpAddress, server: DnsServer)
        ensures
            final(self)@ == bimap_insert_spec(old(self)@, sentinel, server),
    {
        self.inner.insert(sentinel, server);
    }

    /// Relies on bimap::BiHashMap::iter: every held pair is yielded exactly
    /// once, in no promised order.
    #[verifier::external_body]
    pub fn pairs(&self) -> (r: Vec<(IpAddress, DnsServer)>)
        ensures
            forall|i: int|
                0 <= i < r@.len() ==> bimap_pairs(self.inner).dom().contains((#[trigger] r@[i]).0)
                    && bimap_pairs(self.inner)[r@[i].0] == r@[i].1,
            forall|i: int, j: int| 0 <= i < j < r@.len() ==> r@[i].0 != r@[j].0,
            forall|k: IpAddress|
                bimap_pairs(self.inner).dom().contains(k) ==> exists|i: int|
                    0 <= i < r@.len() && (#[trigger] r@[i]).0 == k,
    {
        self.inner.iter().map(|(l, r)| (*l, *r)).collect()
    }
}

/// No two sentinels of the table point at the same server.
pub open spec fn map_injective(m: Map<IpAddress, DnsServer>) -> bool {
    forall|k1: IpAddress, k2: IpAddress|
        #![trigger m[k1], m[k2]]
        m.dom().contains(k1) && m.dom().contains(k2) && k1 != k2 ==> m[k1] != m[k2]
}

/// Whether some sentinel of the table points at the server.
pub open spec fn map_has_server(m: Map<IpAddress, DnsServer>, d: DnsServer) -> bool {
    exists|k: IpAddress| #[trigger] m.dom().contains(k) && m[k] == d
}

/// Whether a key lies in the part of the sentinel ranges already handed out
/// after `c4` IPv4 and `c6` IPv6 allocations.
pub open spec fn key_in_allocated_range(k: IpAddress, c4: int, c6: int) -> bool {
    match k {
        IpAddress::V4(u) => SENTINEL_V4_BASE <= u && u < SENTINEL_V4_BASE + c4,
        IpAddress::V6(u) => SENTINEL_V6_BASE <= u && u < SENTINEL_V6_BASE + c6,
    }
}

/// The sentinel assigned to the `i`-th server of a list: the next unused
/// address of that server's family.
pub open spec fn sentinel_for(s: Seq<DnsServer>, i: int) -> IpAddress {
    if s[i].spec_ip() is V4 {
        sentinel_v4(count_v4(s.take(i)))
    } else {
        sentinel_v6(count_v6(s.take(i)))
    }
}

/// The table built for a server list: pairs inserted in input order, each
/// server under its family's next sentinel.
pub open spec fn mapping_spec(s: Seq<DnsServer>) -> Map<IpAddress, DnsServer>
    decreases s.len(),
{
    if s.len() == 0 {
        Map::empty()
    } else {
        bimap_insert_spec(mapping_spec(s.drop_last()), sentinel_for(s, s.len() - 1), s.last())
    }
}

/// A list prefix never holds more servers of a family than the whole list.
pub proof fn lemma_count_prefix(s: Seq<DnsServer>, j: int)
    requires
        0 <= j <= s.len(),
    ensures
        count_v4(s.take(j)) <= count_v4(s),
        count_v6(s.take(j)) <= count_v6(s),
    decreases s.len() - j,
{
    if j < s.len() {
        assert(s.take(j + 1).drop_last() =~= s.take(j));
        lemma_count_prefix(s, j + 1);
    } else {
        assert(s.take(j) =~= s);
    }
}

/// The sentinel mapping is injective and total: distinct sentinels point at
/// distinct servers, the mapped servers are exactly the servers of the input
/// list, and every allocated sentinel lies in the range handed out so far.
pub proof fn lemma_mapping_spec_props(s: Seq<DnsServer>)
    requires
        count_v4(s) <= SENTINEL_CAPACITY,
        count_v6(s) <= SENTINEL_CAPACITY,
    ensures
        forall|k: IpAddress|
            #[trigger] mapping_spec(s).dom().contains(k) ==> key_in_allocated_range(
                k,
                count_v4(s),
                count_v6(s),
            ),
        map_injective(mapping_spec(s)),
        forall|d: DnsServer| #[trigger] map_has_server(mapping_spec(s), d) <==> s.contains(d),
    decreases s.len(),
{
    if s.len() == 0 {
        assert forall|d: DnsServer| #[trigger] map_has_server(mapping_spec(s), d) implies false by {
            let k = choose|k: IpAddress| mapping_spec(s).dom().contains(k) && mapping_spec(s)[k]
                == d;
            assert(!Map::<IpAddress, DnsServer>::empty().dom().contains(k));
        }
        assert(forall|d: DnsServer| !s.contains(d));
    } else {
        let s0 = s.drop_last();
        let m0 = mapping_spec(s0);
        let n = s.len() - 1;
        let l = sentinel_for(s, n);
        let d = s.last();
        let m1 = mapping_spec(s);
        assert(count_v4(s) == count_v4(s0) + if d.spec_ip() is V4 {
            1int
        } else {
            0int
        });
        assert(count_v6(s) == count_v6(s0) + if d.spec_ip() is V6 {
            1int
        } else {
            0int
        });
        crate::dns::lemma_counts_bounded(s0);
        lemma_mapping_spec_props(s0);
        assert(s.take(n) =~= s0);
        // The new sentinel is the first address beyond the range already
        // handed out, so it is fresh and it extends the allocated range.
        assert(!key_in_allocated_range(l, count_v4(s0), count_v6(s0)) && key_in_allocated_range(
            l,
            count_v4(s),
            count_v6(s),
        )) by {
            if d.spec_ip() is V4 {
                assert(l == sentinel_v4(count_v4(s0)));
                assert(SENTINEL_V4_BASE + count_v4(s0) <= u32::MAX);
            } else {
                assert(l == sentinel_v6(count_v6(s0)));
                assert(SENTINEL_V6_BASE + count_v6(s0) <= u128::MAX);
            }
        }
        assert(!m0.dom().contains(l));
        // Every key of the new table is in the enlarged allocated range.
        assert forall|k: IpAddress| #[trigger] m1.dom().contains(k) implies key_in_allocated_range(
            k,
            count_v4(s),
            count_v6(s),
        ) by {
            if k != l {
                assert(m0.dom().contains(k));
                assert(key_in_allocated_range(k, count_v4(s0), count_v6(s0)));
            }
        }
        // Injectivity: old keys keep their old, distinct servers and any key
        // that pointed at the inserted server was removed.
        assert forall|k1: IpAddress, k2: IpAddress|
            #![trigger m1[k1], m1[k2]]
            m1.dom().contains(k1) && m1.dom().contains(k2) && k1 != k2 implies m1[k1]
            != m1[k2] by {
            if k1 != l && k2 != l {
                assert(m1[k1] == m0[k1] && m1[k2] == m0[k2]);
            }
        }
        // Totality: the held servers are the old ones plus the inserted one.
        assert forall|e: DnsServer| #[trigger] map_has_server(m1, e) implies s.contains(e) by {
            let k = choose|k: IpAddress| #[trigger] m1.dom().contains(k) && m1[k] == e;
            if k == l {
                assert(s[s.len() - 1] == e);
            } else {
                assert(m0.dom().contains(k) && m0[k] == e);
                assert(map_has_server(m0, e));
                let i = choose|i: int| 0 <= i < s0.len() && s0[i] == e;
                assert(s[i] == e);
            }
        }
        assert forall|e: DnsServer| #[trigger] s.contains(e) implies map_has_server(m1, e) by {
            let i = choose|i: int| 0 <= i < s.len() && s[i] == e;
            if e == d {
                assert(m1.dom().contains(l) && m1[l] == d);
            } else {
                assert(s0[i] == e);
                assert(s0.contains(e));
                assert(map_has_server(m0, e));
                let k = choose|k: IpAddress| #[trigger] m0.dom().contains(k) && m0[k] == e;
                assert(m1.dom().contains(k) && m1[k] == e);
            }
        }
    }
}

/// Builds the sentinel table for a server list: each server is bound, in
/// input order, to the next unused sentinel address of its family, so the
/// same input list always yields the same mapping. The reserved ranges hold
/// 256 addresses per family; a longer single-family list is a logic error
/// and is excluded by the precondition.
pub fn sentinel_dns_mapping(dns: &Vec<DnsServer>) -> (r: SentinelMap)
    requires
        count_v4(dns@) <= SENTINEL_CAPACITY,
        count_v6(dns@) <= SENTINEL_CAPACITY,
    ensures
        r@ == mapping_spec(dns@),
        map_injective(r@),
        forall|d: DnsServer| #[trigger] map_has_server(r@, d) <==> dns@.contains(d),
        forall|k: IpAddress| #[trigger] r@.dom().contains(k) ==> is_sentinel_ip(k),
{
    let mut m = SentinelMap::new();
    let mut provider = IpProvider::new();
    let mut i: usize = 0;
    while i < dns.len()
        invariant
            i <= dns@.len(),
            provider.wf(),
            provider.next_v4 == count_v4(dns@.take(i as int)),
            provider.next_v6 == count_v6(dns@.take(i as int)),
            count_v4(dns@) <= SENTINEL_CAPACITY,
            count_v6(dns@) <= SENTINEL_CAPACITY,
            m@ == mapping_spec(dns@.take(i as int)),
        decreases dns@.len() - i,
    {
        let server = dns[i];
        proof {
            assert(dns@.take(i + 1).drop_last() =~= dns@.take(i as int));
            assert(dns@.take(i + 1).last() == dns@[i as int]);
            lemma_count_prefix(dns@, i + 1);
            crate::dns::lemma_counts_bounded(dns@.take(i as int));
        }
        let ip_of = server.ip();
        let sentinel = provider.get_proxy_ip_for(&ip_of).unwrap();
        proof {
            assert(sentinel == sentinel_for(dns@.take(i + 1), i as int)) by {
                assert(dns@.take(i + 1).take(i as int) =~= dns@.take(i as int));
            }
        }
        m.insert(sentinel, server);
        i = i + 1;
    }
    proof {
        assert(dns@.take(dns@.len() as int) =~= dns@);
        lemma_mapping_spec_props(dns@);
        crate::dns::lemma_counts_bounded(dns@);
        assert forall|k: IpAddress| #[trigger] m@.dom().contains(k) implies is_sentinel_ip(k) by {
            assert(key_in_allocated_range(k, count_v4(dns@), count_v6(dns@)));
            match k {
                IpAddress::V4(u) => {
                    assert(in_sentinel_v4_range(u));
                },
                IpAddress::V6(u) => {
                    assert(in_sentinel_v6_range(u));
                },
            }
        }
    }
    m
}

} // verus!
