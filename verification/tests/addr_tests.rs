use tango::addr::{is_address_change, IpAddress, SocketAddress};

#[test]
fn an_ipv4_address_is_its_four_octets() {
    assert_eq!(IpAddress::v4(10, 0, 0, 5), IpAddress::V4(0x0a00_0005));
    assert_eq!(IpAddress::v4(255, 255, 255, 255), IpAddress::V4(u32::MAX));
    assert_eq!(IpAddress::v4(0, 0, 0, 0), IpAddress::V4(0));
    assert_eq!(IpAddress::v4(198, 51, 100, 7), IpAddress::V4(0xc633_6407));
}

#[test]
fn loopback_addresses() {
    assert!(IpAddress::v4(127, 0, 0, 1).is_loopback());
    assert!(IpAddress::v4(127, 255, 255, 255).is_loopback());
    assert!(!IpAddress::v4(126, 255, 255, 255).is_loopback());
    assert!(!IpAddress::v4(128, 0, 0, 0).is_loopback());
    assert!(IpAddress::V6(1).is_loopback());
    assert!(!IpAddress::V6(0).is_loopback());
    assert!(!IpAddress::V6(2).is_loopback());
    // an IPv4 loopback address mapped into IPv6 is not ::1
    assert!(!IpAddress::V6(0xffff_7f00_0001).is_loopback());
}

#[test]
fn the_unspecified_address() {
    let a = SocketAddress::unspecified();
    assert_eq!(a.ip, IpAddress::V4(0));
    assert_eq!(a.port, 0);
}

#[test]
fn a_change_of_address_is_a_new_ip_that_is_not_loopback() {
    let home = SocketAddress::new(IpAddress::v4(10, 0, 0, 5), 4000);
    let same_ip = SocketAddress::new(IpAddress::v4(10, 0, 0, 5), 4100);
    let moved = SocketAddress::new(IpAddress::v4(10, 0, 0, 6), 4000);
    let local = SocketAddress::new(IpAddress::v4(127, 0, 0, 1), 4000);
    let v6 = SocketAddress::new(IpAddress::V6(0x0a00_0005), 4000);
    assert!(!is_address_change(&home, &home));
    assert!(!is_address_change(&home, &same_ip));
    assert!(is_address_change(&home, &moved));
    assert!(!is_address_change(&home, &local));
    assert!(is_address_change(&local, &home));
    assert!(is_address_change(&home, &v6));
}
