use cache_reg::addr::{broadcast_addr, first_ipv4, ipv4_addr, unwrap_ipv4, IfAddr, IpAddr, Ipv4Addr};

#[test]
fn octets_roundtrip() {
    let a = Ipv4Addr::from_octets(192, 168, 1, 10);
    assert_eq!(a.octets(), (192, 168, 1, 10));
    let b = Ipv4Addr::from_octets(0, 0, 0, 0);
    assert_eq!(b.octets(), (0, 0, 0, 0));
    let c = Ipv4Addr::from_octets(255, 255, 255, 255);
    assert_eq!(c.octets(), (255, 255, 255, 255));
}

#[test]
fn broadcast_computation() {
    let ip = Ipv4Addr::from_octets(192, 168, 1, 10);
    let mask = Ipv4Addr::from_octets(255, 255, 255, 0);
    let bc = broadcast_addr(None, ip, mask);
    assert_eq!(bc.octets(), (192, 168, 1, 255));
}

#[test]
fn broadcast_explicit_wins() {
    let ip = Ipv4Addr::from_octets(192, 168, 1, 10);
    let mask = Ipv4Addr::from_octets(255, 255, 255, 0);
    let explicit = Ipv4Addr::from_octets(10, 1, 2, 255);
    let bc = broadcast_addr(Some(explicit), ip, mask);
    assert_eq!(bc, explicit);
}

#[test]
fn broadcast_narrow_mask() {
    let ip = Ipv4Addr::from_octets(10, 0, 0, 5);
    let mask = Ipv4Addr::from_octets(255, 255, 255, 252);
    let bc = broadcast_addr(None, ip, mask);
    assert_eq!(bc.octets(), (10, 0, 0, 7));
}

#[test]
fn unwrap_ipv4_returns_inner() {
    let a = Ipv4Addr::from_octets(127, 0, 0, 1);
    assert_eq!(unwrap_ipv4(IpAddr::V4(a)), a);
}

#[test]
fn interface_first_ipv4_entry_wins() {
    let a = Ipv4Addr::from_octets(10, 0, 0, 5);
    let m = Ipv4Addr::from_octets(255, 255, 255, 0);
    let b = Ipv4Addr::from_octets(172, 16, 0, 9);
    let m2 = Ipv4Addr::from_octets(255, 255, 0, 0);
    let addresses = vec![
        IfAddr::Other,
        IfAddr::V4 { addr: a, mask: m },
        IfAddr::V4 { addr: b, mask: m2 },
    ];
    assert_eq!(ipv4_addr(&addresses), Some((a, m)));
}

#[test]
fn interface_without_ipv4_yields_none() {
    assert_eq!(ipv4_addr(&vec![IfAddr::Other, IfAddr::Other]), None);
    assert_eq!(ipv4_addr(&vec![]), None);
}

#[test]
fn resolver_first_ipv4_skips_ipv6() {
    let a = Ipv4Addr::from_octets(10, 0, 0, 7);
    let b = Ipv4Addr::from_octets(10, 0, 0, 8);
    assert_eq!(first_ipv4(&vec![IpAddr::V6, IpAddr::V4(a), IpAddr::V4(b)]), Some(a));
}

#[test]
fn resolver_without_ipv4_yields_none() {
    assert_eq!(first_ipv4(&vec![IpAddr::V6]), None);
    assert_eq!(first_ipv4(&vec![]), None);
}
