use pipe_forward::admission::{is_admitted, Network, PeerAddr};

fn v4(a: u8, b: u8, c: u8, d: u8) -> u32 {
    u32::from_be_bytes([a, b, c, d])
}

#[test]
fn peer_outside_range_is_rejected() {
    let policy = Network::v4(v4(10, 0, 0, 0), 8);
    assert!(!is_admitted(PeerAddr::V4(v4(192, 168, 1, 5)), &policy));
}

#[test]
fn peer_inside_range_is_admitted() {
    let policy = Network::v4(v4(10, 0, 0, 0), 8);
    assert!(is_admitted(PeerAddr::V4(v4(10, 1, 2, 3)), &policy));
}

#[test]
fn no_policy_admits_everyone() {
    assert!(is_admitted(PeerAddr::V4(v4(192, 168, 1, 5)), &None));
    assert!(is_admitted(PeerAddr::V6(1), &None));
}

#[test]
fn range_edges() {
    let policy = Network::v4(v4(172, 16, 0, 0), 22);
    assert!(is_admitted(PeerAddr::V4(v4(172, 16, 0, 0)), &policy));
    assert!(is_admitted(PeerAddr::V4(v4(172, 16, 3, 255)), &policy));
    assert!(!is_admitted(PeerAddr::V4(v4(172, 16, 4, 0)), &policy));
    assert!(!is_admitted(PeerAddr::V4(v4(172, 15, 255, 255)), &policy));
}

#[test]
fn base_address_with_host_bits_set() {
    let policy = Network::v4(v4(10, 1, 2, 3), 16);
    assert!(is_admitted(PeerAddr::V4(v4(10, 1, 200, 7)), &policy));
    assert!(!is_admitted(PeerAddr::V4(v4(10, 2, 0, 0)), &policy));
}

#[test]
fn zero_and_full_prefix() {
    let all = Network::v4(v4(1, 2, 3, 4), 0);
    assert!(is_admitted(PeerAddr::V4(v4(255, 255, 255, 255)), &all));
    assert!(is_admitted(PeerAddr::V4(0), &all));
    let one = Network::v4(v4(1, 2, 3, 4), 32);
    assert!(is_admitted(PeerAddr::V4(v4(1, 2, 3, 4)), &one));
    assert!(!is_admitted(PeerAddr::V4(v4(1, 2, 3, 5)), &one));
}

#[test]
fn ipv6_ranges() {
    let base: u128 = 0xfd00_1234_5678_0000_0000_0000_0000_0000;
    let policy = Network::v6(base, 24);
    assert!(is_admitted(PeerAddr::V6(0xfd00_12ff_ffff_ffff_ffff_ffff_ffff_ffff), &policy));
    assert!(!is_admitted(PeerAddr::V6(0xfd00_1300_0000_0000_0000_0000_0000_0000), &policy));
    let all = Network::v6(base, 0);
    assert!(is_admitted(PeerAddr::V6(u128::MAX), &all));
    let one = Network::v6(1, 128);
    assert!(is_admitted(PeerAddr::V6(1), &one));
    assert!(!is_admitted(PeerAddr::V6(2), &one));
}

#[test]
fn other_family_is_never_contained() {
    let v4_all = Network::v4(0, 0);
    assert!(!is_admitted(PeerAddr::V6(0), &v4_all));
    let v6_all = Network::v6(0, 0);
    assert!(!is_admitted(PeerAddr::V4(0), &v6_all));
}

#[test]
fn overlong_prefix_is_refused() {
    assert_eq!(Network::v4(0, 33), None);
    assert_eq!(Network::v6(0, 129), None);
    assert_eq!(Network::v4(7, 32), Some(Network::V4 { addr: 7, prefix: 32 }));
    assert_eq!(Network::v6(7, 128), Some(Network::V6 { addr: 7, prefix: 128 }));
}

#[test]
fn contains_matches_admission() {
    let net = Network::v4(v4(10, 0, 0, 0), 8).unwrap();
    assert!(net.contains(PeerAddr::V4(v4(10, 255, 255, 255))));
    assert!(!net.contains(PeerAddr::V4(v4(11, 0, 0, 0))));
}
