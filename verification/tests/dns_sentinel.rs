use connlib_control::addr::{IpAddress, SocketAddress, DNS_PORT};
use connlib_control::dns::{effective_dns_servers, DnsServer, IpDnsServer};
use connlib_control::control::upload_status_ok;
use connlib_control::ident::{parse_resource_id, ResourceId};
use connlib_control::resolver::create_resolvers;
use connlib_control::sentinel::sentinel_dns_mapping;

fn server(ip: IpAddress, port: u16) -> DnsServer {
    DnsServer::IpPort(IpDnsServer { address: SocketAddress { ip, port } })
}

const GOOGLE_V4: IpAddress = IpAddress::V4(0x0808_0808);
const SENTINEL_V4_5: IpAddress = IpAddress::V4(0x6464_6F05);
const QUAD9_V4: IpAddress = IpAddress::V4(0x0909_0909);
const SOME_V6: IpAddress = IpAddress::V6(0x2001_4860_4860_0000_0000_0000_0000_8888);

#[test]
fn upstream_list_returned_verbatim() {
    let upstream = vec![server(QUAD9_V4, 5353), server(SENTINEL_V4_5, 53)];
    let defaults = vec![GOOGLE_V4];
    let out = effective_dns_servers(upstream.clone(), defaults);
    assert_eq!(out, upstream);
}

#[test]
fn system_defaults_filter_sentinel_range() {
    let out = effective_dns_servers(Vec::new(), vec![GOOGLE_V4, SENTINEL_V4_5]);
    assert_eq!(out, vec![server(GOOGLE_V4, DNS_PORT)]);
}

#[test]
fn v6_sentinel_defaults_filtered_too() {
    let inside = IpAddress::V6(0xfd00_2021_1111_8000_0100_0100_0111_00ff);
    let outside = IpAddress::V6(0xfd00_2021_1111_8000_0100_0100_0111_0100);
    let out = effective_dns_servers(Vec::new(), vec![inside, outside]);
    assert_eq!(out, vec![server(outside, DNS_PORT)]);
}

#[test]
fn all_sentinel_defaults_give_empty_list() {
    let out = effective_dns_servers(
        Vec::new(),
        vec![SENTINEL_V4_5, IpAddress::V4(0x6464_6F00), IpAddress::V4(0x6464_6FFF)],
    );
    assert!(out.is_empty());
}

#[test]
fn empty_everything_gives_empty_list() {
    let out = effective_dns_servers(Vec::new(), Vec::new());
    assert!(out.is_empty());
}

#[test]
fn sentinel_mapping_is_injective_and_total() {
    let servers = vec![
        server(GOOGLE_V4, 53),
        server(QUAD9_V4, 53),
        server(SOME_V6, 53),
    ];
    let mapping = sentinel_dns_mapping(&servers);
    let pairs = mapping.pairs();
    assert_eq!(pairs.len(), 3);
    for s in &servers {
        let matching: Vec<_> = pairs.iter().filter(|(_, srv)| srv == s).collect();
        assert_eq!(matching.len(), 1);
    }
    for (i, (sent_i, _)) in pairs.iter().enumerate() {
        for (j, (sent_j, _)) in pairs.iter().enumerate() {
            if i != j {
                assert_ne!(sent_i, sent_j);
            }
        }
    }
}

#[test]
fn sentinel_mapping_allocates_in_input_order() {
    let servers = vec![server(GOOGLE_V4, 53), server(QUAD9_V4, 53), server(SOME_V6, 53)];
    let mapping = sentinel_dns_mapping(&servers);
    let pairs = mapping.pairs();
    let find = |s: &DnsServer| {
        pairs
            .iter()
            .find(|(_, srv)| srv == s)
            .expect("server missing from mapping")
            .0
    };
    assert_eq!(find(&servers[0]), IpAddress::V4(0x6464_6F00));
    assert_eq!(find(&servers[1]), IpAddress::V4(0x6464_6F01));
    assert_eq!(
        find(&servers[2]),
        IpAddress::V6(0xfd00_2021_1111_8000_0100_0100_0111_0000)
    );
}

#[test]
fn duplicate_server_kept_once() {
    let servers = vec![server(GOOGLE_V4, 53), server(GOOGLE_V4, 53)];
    let mapping = sentinel_dns_mapping(&servers);
    let pairs = mapping.pairs();
    assert_eq!(pairs.len(), 1);
    assert_eq!(pairs[0].1, server(GOOGLE_V4, 53));
    // The duplicate got the later sentinel of the two handed out.
    assert_eq!(pairs[0].0, IpAddress::V4(0x6464_6F01));
}

#[test]
fn resolvers_round_trip_the_mapping() {
    let servers = vec![server(GOOGLE_V4, 53), server(SOME_V6, 5353)];
    let mapping = sentinel_dns_mapping(&servers);
    let pairs = mapping.pairs();
    let table = create_resolvers(&mapping);
    assert_eq!(table.entries.len(), 2);
    for (sentinel, srv) in &pairs {
        let got = table.get(*sentinel);
        assert_eq!(got, Some(srv.address()));
    }
    assert_eq!(table.get(IpAddress::V4(0x6464_6F77)), None);
}

#[test]
fn parse_resource_id_canonical() {
    let id = parse_resource_id("3fa85f64-5717-4562-b3fc-2c963f66afa6");
    assert_eq!(
        id,
        Some(ResourceId {
            value: 0x3fa85f64_5717_4562_b3fc_2c963f66afa6,
        })
    );
}

#[test]
fn parse_resource_id_uppercase_hex() {
    let id = parse_resource_id("3FA85F64-5717-4562-B3FC-2C963F66AFA6");
    assert_eq!(
        id,
        Some(ResourceId {
            value: 0x3fa85f64_5717_4562_b3fc_2c963f66afa6,
        })
    );
}

#[test]
fn parse_resource_id_rejects_bad_shapes() {
    assert_eq!(parse_resource_id(""), None);
    assert_eq!(parse_resource_id("3fa85f64"), None);
    assert_eq!(parse_resource_id("3fa85f64-5717-4562-b3fc-2c963f66afa"), None);
    assert_eq!(parse_resource_id("3fa85f64-5717-4562-b3fc-2c963f66afa67"), None);
    assert_eq!(parse_resource_id("3fa85f6457174562b3fc2c963f66afa6----"), None);
    assert_eq!(parse_resource_id("3fa85f64-5717-4562-b3fc-2c963g66afa6"), None);
    assert_eq!(parse_resource_id("Hello, certainly not a resource id!!"), None);
}

#[test]
fn upload_status_classification() {
    assert!(upload_status_ok(200));
    assert!(upload_status_ok(204));
    assert!(upload_status_ok(299));
    assert!(!upload_status_ok(199));
    assert!(!upload_status_ok(300));
    assert!(!upload_status_ok(404));
    assert!(!upload_status_ok(500));
}
