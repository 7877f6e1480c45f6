use vstd::prelude::*;

use crate::addr::{IpAddress, SocketAddress};
use crate::sentinel::SentinelMap;

verus! {

/// Fallback resolver table: for each sentinel address, the socket address of
/// the real upstream server that the sentinel's resolver is bound to, over
/// an unencrypted datagram transport.
#[derive(Clone, Debug, PartialEq, Eq)]
pub struct ResolverTable {
    pub entries: Vec<(IpAddress, SocketAddress)>,
}

/// The map held by a list of entries, later entries taking precedence.
pub open spec fn table_map(entries: Seq<(IpAddress, SocketAddress)>) -> Map<
    IpAddress,
    SocketAddress,
>
    decreases entries.len(),
{
    if entries.len() == 0 {
        Map::empty()
    } else {
        table_map(entries.drop_last()).insert(entries.last().0, entries.last().1)
    }
}

/// The table that resolves nothing.
pub open spec fn no_resolvers() -> Map<IpAddress, SocketAddress> {
    Map::empty()
}

impl View for ResolverTable {
    type V = Map<IpAddress, SocketAddress>;

    open spec fn view(&self) -> Map<IpAddress, SocketAddress> {
        table_map(self.entries@)
    }
}

/// With distinct sentinels, the held map's domain is exactly the entry keys
/// and each key maps to its entry's server address.
pub proof fn lemma_table_map_props(entries: Seq<(IpAddress, SocketAddress)>)
    requires
        forall|i: int, j: int|
            0 <= i < j < entries.len() ==> (#[trigger] entries[i]).0 != (#[trigger] entries[j]).0,
    ensures
        forall|i: int|
            0 <= i < entries.len() ==> table_map(entries).dom().contains((#[trigger] entries[i]).0)
                && table_map(entries)[entries[i].0] == entries[i].1,
        forall|k: IpAddress|
            #[trigger] table_map(entries).dom().contains(k) ==> exists|i: int|
                0 <= i < entries.len() && (#[trigger] entries[i]).0 == k,
    decreases entries.len(),
{
    if entries.len() > 0 {
        lemma_table_map_props(entries.drop_last());
        assert forall|i: int|
            0 <= i < entries.len() implies table_map(entries).dom().contains(
            (#[trigger] entries[i]).0,
        ) && table_map(entries)[entries[i].0] == entries[i].1 by {
            if i < entries.len() - 1 {
                assert(entries.drop_last()[i] == entries[i]);
                assert(entries[i].0 != entries.last().0);
            }
        }
        assert forall|k: IpAddress| #[trigger] table_map(entries).dom().contains(k) implies exists|
            i: int,
        |
            0 <= i < entries.len() && (#[trigger] entries[i]).0 == k by {
            if k != entries.last().0 {
                assert(table_map(entries.drop_last()).dom().contains(k));
                let i = choose|i: int|
                    0 <= i < entries.drop_last().len() && (#[trigger] entries.drop_last()[i]).0
                        == k;
                assert((entries[i]).0 == k);
            } else {
                assert((entries[entries.len() - 1]).0 == k);
            }
        }
    }
}

impl ResolverTable {
    /// Every sentinel occurs at most once.
    pub open spec fn wf(self) -> bool {
        forall|i: int, j: int|
            0 <= i < j < self.entries@.len() ==> (#[trigger] self.entries@[i]).0 != (
            #[trigger] self.entries@[j]).0
    }

    /// The table built before the first initialization: it resolves nothing.
    pub fn new() -> (r: ResolverTable)
        ensures
            r.wf(),
            r@ == no_resolvers(),
    {
        ResolverTable { entries: Vec::new() }
    }

    /// Looks up the upstream server bound for a sentinel address; queries to
    /// an address the table does not know yield nothing.
    pub fn get(&self, ip: IpAddress) -> (r: Option<SocketAddress>)
        requires
            self.wf(),
        ensures
            r == if self@.dom().contains(ip) {
                Some(self@[ip])
            } else {
                None::<SocketAddress>
            },
    {
        proof {
            lemma_table_map_props(self.entries@);
        }
        let mut i: usize = 0;
        while i < self.entries.len()
            invariant
                i <= self.entries@.len(),
                self.wf(),
                forall|j: int| 0 <= j < i ==> (#[trigger] self.entries@[j]).0 != ip,
                forall|t: int|
                    0 <= t < self.entries@.len() ==> self@.dom().contains(
                        (#[trigger] self.entries@[t]).0,
                    ) && self@[self.entries@[t].0] == self.entries@[t].1,
                forall|k: IpAddress|
                    #[trigger] self@.dom().contains(k) ==> exists|t: int|
                        0 <= t < self.entries@.len() && (#[trigger] self.entries@[t]).0 == k,
            decreases self.entries@.len() - i,
        {
            if self.entries[i].0 == ip {
                return Some(self.entries[i].1);
            }
            i = i + 1;
        }
        proof {
            if self@.dom().contains(ip) {
                let t = choose|t: int|
                    0 <= t < self.entries@.len() && (#[trigger] self.entries@[t]).0 == ip;
                assert(false);
            }
        }
        None
    }
}

/// Builds the fallback resolver table for a sentinel mapping: exactly one
/// resolver keyed by each sentinel of the mapping, bound to that sentinel's
/// real server address.
pub fn create_resolvers(sentinel_mapping: &SentinelMap) -> (r: ResolverTable)
    ensures
        r.wf(),
        r@.dom() == sentinel_mapping@.dom(),
        forall|k: IpAddress|
            #[trigger] sentinel_mapping@.dom().contains(k) ==> r@[k]
                == sentinel_mapping@[k].spec_address(),
{
    let pairs = sentinel_mapping.pairs();
    let mut entries: Vec<(IpAddress, SocketAddress)> = Vec::new();
    let mut i: usize = 0;
    while i < pairs.len()
        invariant
            i <= pairs@.len(),
            forall|t: int|
                0 <= t < pairs@.len() ==> sentinel_mapping@.dom().contains(
                    (#[trigger] pairs@[t]).0,
                ) && sentinel_mapping@[pairs@[t].0] == pairs@[t].1,
            forall|t: int, u: int|
                0 <= t < u < pairs@.len() ==> (#[trigger] pairs@[t]).0 != (#[trigger] pairs@[u]).0,
            entries@.len() == i,
            forall|t: int|
                0 <= t < i ==> #[trigger] entries@[t] == (
                    pairs@[t].0,
                    pairs@[t].1.spec_address(),
                ),
        decreases pairs@.len() - i,
    {
        let p = pairs[i];
        entries.push((p.0, p.1.address()));
        i = i + 1;
    }
    let table = ResolverTable { entries };
    proof {
        assert(table.wf());
        lemma_table_map_props(table.entries@);
        assert forall|k: IpAddress| #[trigger] table@.dom().contains(k) implies sentinel_mapping@
            .dom().contains(k) by {
            let t = choose|t: int|
                0 <= t < table.entries@.len() && (#[trigger] table.entries@[t]).0 == k;
            assert(pairs@[t].0 == k);
        }
        assert forall|k: IpAddress|
            #[trigger] sentinel_mapping@.dom().contains(k) implies table@.dom().contains(k)
            && table@[k] == sentinel_mapping@[k].spec_address() by {
            let t = choose|t: int| 0 <= t < pairs@.len() && (#[trigger] pairs@[t]).0 == k;
            assert(table.entries@[t] == (pairs@[t].0, pairs@[t].1.spec_address()));
            assert(table@.dom().contains((table.entries@[t]).0) && table@[table.entries@[t].0]
                == table.entries@[t].1);
        }
        assert(table@.dom() =~= sentinel_mapping@.dom());
    }
    table
}

} // verus!
