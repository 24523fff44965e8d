
use ring::interface::{
    interface_from_entry, range_from_address_prefix, range_from_cidr, range_from_interface,
    range_from_low_high, range_from_network_mask, range_is_rfc1918, ranges_from_interfaces,
    sweep_range_size, RangeError,
};
use ring::types::{Ipv4Interface, SweepRange};

fn ip(text: &str) -> u32 {
    let octets: Vec<u32> = text.split('.').map(|p| p.parse::<u32>().unwrap()).collect();
    assert_eq!(octets.len(), 4);
    (octets[0] << 24) | (octets[1] << 16) | (octets[2] << 8) | octets[3]
}

fn host_range(first: &str, last: &str, network: &str, prefix: u8) -> SweepRange {
    SweepRange {
        first: ip(first),
        last: ip(last),
        network: Some(ip(network)),
        prefix_length: Some(prefix),
        interface_name: None,
    }
}

fn lan(name: &str, address: &str, prefix: u8) -> Ipv4Interface {
    let mask = if prefix == 0 { 0 } else { u32::MAX << (32 - prefix as u32) };
    let a = ip(address);
    Ipv4Interface {
        name: name.to_string(),
        address: a,
        network: a & mask,
        broadcast: a | !mask,
        prefix_length: prefix,
    }
}

#[test]
fn interface_range_excludes_network_and_broadcast() {
    let range = range_from_interface(&lan("eth0", "192.168.1.10", 24)).unwrap();
    assert_eq!(range.first, ip("192.168.1.1"));
    assert_eq!(range.last, ip("192.168.1.254"));
    assert_eq!(range.network, Some(ip("192.168.1.0")));
    assert_eq!(range.prefix_length, Some(24));
    assert_eq!(range.interface_name, Some("eth0".to_string()));
}

#[test]
fn interface_range_refuses_point_to_point() {
    let interface = lan("tun0", "10.0.0.1", 31);
    assert_eq!(
        range_from_interface(&interface),
        Err(RangeError::InterfaceNetworkTooSmall { network: ip("10.0.0.0"), prefix_length: 31 })
    );
}

#[test]
fn low_high_range() {
    assert_eq!(
        range_from_low_high(ip("192.168.1.20"), ip("192.168.1.80")),
        Ok(SweepRange {
            first: ip("192.168.1.20"),
            last: ip("192.168.1.80"),
            network: None,
            prefix_length: None,
            interface_name: None,
        })
    );
    assert_eq!(range_from_low_high(ip("10.0.0.9"), ip("10.0.0.9")).unwrap().first, ip("10.0.0.9"));
    assert_eq!(range_from_low_high(ip("10.0.0.9"), ip("10.0.0.8")), Err(RangeError::LowAboveHigh));
}

#[test]
fn network_mask_range() {
    assert_eq!(
        range_from_network_mask(ip("10.1.2.3"), ip("255.255.0.0")),
        Ok(host_range("10.1.0.1", "10.1.255.254", "10.1.0.0", 16))
    );
    assert_eq!(
        range_from_network_mask(ip("192.168.1.0"), ip("255.255.255.0")),
        Ok(host_range("192.168.1.1", "192.168.1.254", "192.168.1.0", 24))
    );
    assert_eq!(
        range_from_network_mask(ip("1.2.3.4"), 0),
        Ok(host_range("0.0.0.1", "255.255.255.254", "0.0.0.0", 0))
    );
}

#[test]
fn network_mask_errors() {
    assert_eq!(
        range_from_network_mask(ip("10.0.0.0"), ip("255.0.255.0")),
        Err(RangeError::InvalidMask { mask: ip("255.0.255.0") })
    );
    assert_eq!(range_from_network_mask(ip("10.0.0.0"), ip("255.255.255.254")), Err(RangeError::NetworkTooSmall));
    assert_eq!(range_from_network_mask(ip("10.0.0.0"), ip("255.255.255.255")), Err(RangeError::NetworkTooSmall));
}

#[test]
fn network_range_size_is_two_less_than_block() {
    for prefix in 0u8..=30 {
        let range = range_from_address_prefix(ip("172.20.30.40"), prefix).unwrap();
        assert!(range.first <= range.last);
        assert_eq!(sweep_range_size(&range), (1u64 << (32 - prefix as u32)) - 2);
    }
}

#[test]
fn cidr_ranges() {
    assert_eq!(range_from_cidr("192.168.1.0/24"), Ok(host_range("192.168.1.1", "192.168.1.254", "192.168.1.0", 24)));
    assert_eq!(range_from_cidr("10.9.8.7/8"), Ok(host_range("10.0.0.1", "10.255.255.254", "10.0.0.0", 8)));
    assert_eq!(range_from_cidr("10.0.0.5/30"), Ok(host_range("10.0.0.5", "10.0.0.6", "10.0.0.4", 30)));
}

#[test]
fn cidr_errors() {
    assert_eq!(range_from_cidr("192.168.1.0"), Err(RangeError::MissingPrefix));
    assert_eq!(
        range_from_cidr("300.1.1.1/24"),
        Err(RangeError::InvalidAddress { text: "300.1.1.1".to_string() })
    );
    assert_eq!(range_from_cidr("1.2.3.4/abc"), Err(RangeError::InvalidPrefix { text: "abc".to_string() }));
    assert_eq!(range_from_cidr("1.2.3.4/24/5"), Err(RangeError::InvalidPrefix { text: "24/5".to_string() }));
    assert_eq!(range_from_cidr("1.2.3.4/256"), Err(RangeError::InvalidPrefix { text: "256".to_string() }));
    assert_eq!(range_from_cidr("1.2.3.4/33"), Err(RangeError::PrefixOutOfRange));
    assert_eq!(range_from_cidr("1.2.3.4/31"), Err(RangeError::NetworkTooSmall));
    assert_eq!(range_from_cidr("1.2.3.4/32"), Err(RangeError::NetworkTooSmall));
}

#[test]
fn cidr_agrees_with_network_mask() {
    for prefix in 0u8..=30 {
        let mask = if prefix == 0 { 0 } else { u32::MAX << (32 - prefix as u32) };
        let text = format!("203.0.113.77/{prefix}");
        assert_eq!(range_from_cidr(&text), range_from_network_mask(ip("203.0.113.77"), mask));
    }
}

#[test]
fn private_ranges() {
    let range = |a: &str, b: &str| SweepRange {
        first: ip(a),
        last: ip(b),
        network: None,
        prefix_length: None,
        interface_name: None,
    };
    assert!(range_is_rfc1918(&range("10.0.0.1", "10.255.255.254")));
    assert!(range_is_rfc1918(&range("172.16.0.1", "172.31.255.254")));
    assert!(range_is_rfc1918(&range("192.168.0.0", "192.168.255.255")));
    assert!(!range_is_rfc1918(&range("172.15.255.255", "172.16.0.5")));
    assert!(!range_is_rfc1918(&range("8.8.8.8", "8.8.8.8")));
    assert!(!range_is_rfc1918(&range("10.255.255.250", "11.0.0.2")));
    assert!(!range_is_rfc1918(&range("192.168.255.250", "192.169.0.1")));
}

#[test]
fn range_size_counts_both_ends() {
    let r = SweepRange { first: 5, last: 5, network: None, prefix_length: None, interface_name: None };
    assert_eq!(sweep_range_size(&r), 1);
    let all = SweepRange { first: 0, last: u32::MAX, network: None, prefix_length: None, interface_name: None };
    assert_eq!(sweep_range_size(&all), 1u64 << 32);
}

#[test]
fn interface_entries_are_filtered() {
    let address = ip("192.168.1.10");
    let mask = ip("255.255.255.0");
    let usable = interface_from_entry("eth0".to_string(), true, true, false, address, mask, None);
    assert_eq!(usable, Some(lan("eth0", "192.168.1.10", 24)));
    assert_eq!(interface_from_entry("eth0".to_string(), false, true, false, address, mask, None), None);
    assert_eq!(interface_from_entry("eth0".to_string(), true, false, false, address, mask, None), None);
    assert_eq!(interface_from_entry("lo".to_string(), true, true, true, address, mask, None), None);
    assert_eq!(
        interface_from_entry("eth0".to_string(), true, true, false, address, mask, Some("eth1")),
        None
    );
    assert!(interface_from_entry("eth1".to_string(), true, true, false, address, mask, Some("eth1")).is_some());
}

#[test]
fn interface_entry_with_odd_mask_counts_its_bits() {
    let entry = interface_from_entry("x".to_string(), true, true, false, ip("10.1.2.3"), ip("255.0.255.0"), None)
        .unwrap();
    assert_eq!(entry.prefix_length, 16);
    assert_eq!(entry.network, ip("10.0.2.0"));
    assert_eq!(entry.broadcast, ip("10.255.2.255"));
}

#[test]
fn ranges_of_interfaces() {
    assert_eq!(
        ranges_from_interfaces(Some("eth9".to_string()), &Vec::new()),
        Err(RangeError::NoInterfaces { requested: Some("eth9".to_string()) })
    );
    let interfaces = vec![lan("eth0", "192.168.1.10", 24), lan("wlan0", "10.0.5.5", 16)];
    let ranges = ranges_from_interfaces(None, &interfaces).unwrap();
    assert_eq!(ranges.len(), 2);
    assert_eq!(ranges[1].first, ip("10.0.0.1"));
    assert_eq!(ranges[1].interface_name, Some("wlan0".to_string()));
    let with_small = vec![lan("eth0", "192.168.1.10", 24), lan("tun0", "10.8.0.1", 32), lan("tun1", "10.9.0.1", 31)];
    assert_eq!(
        ranges_from_interfaces(None, &with_small),
        Err(RangeError::InterfaceNetworkTooSmall { network: ip("10.8.0.1"), prefix_length: 32 })
    );
}

#[test]
fn interface_entries_have_host_ranges() {
    let entry = interface_from_entry("eth0".to_string(), true, true, false, ip("172.16.5.9"), ip("255.255.240.0"), None)
        .unwrap();
    let range = range_from_interface(&entry).unwrap();
    assert_eq!(range.first, ip("172.16.0.1"));
    assert_eq!(range.last, ip("172.16.15.254"));
    assert_eq!(range.prefix_length, Some(20));
}
