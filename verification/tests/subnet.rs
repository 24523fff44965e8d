use ring::subnet::{count_ones, mask_from_prefix, prefix_from_netmask};

#[test]
fn prefix_of_common_masks() {
    assert_eq!(prefix_from_netmask(0xffff_ff00), Some(24));
    assert_eq!(prefix_from_netmask(0xffff_0000), Some(16));
    assert_eq!(prefix_from_netmask(0xff00_0000), Some(8));
    assert_eq!(prefix_from_netmask(0xffff_fffc), Some(30));
    assert_eq!(prefix_from_netmask(0x8000_0000), Some(1));
}

#[test]
fn prefix_of_extreme_masks() {
    assert_eq!(prefix_from_netmask(0), Some(0));
    assert_eq!(prefix_from_netmask(0xffff_ffff), Some(32));
}

#[test]
fn non_contiguous_masks_are_rejected() {
    assert_eq!(prefix_from_netmask(0xff00_ff00), None);
    assert_eq!(prefix_from_netmask(0x7fff_ffff), None);
    assert_eq!(prefix_from_netmask(0x0000_00ff), None);
    assert_eq!(prefix_from_netmask(0xffff_fffd), None);
}

#[test]
fn mask_prefix_roundtrip() {
    for p in 0u8..=32 {
        let mask = mask_from_prefix(p);
        assert_eq!(count_ones(mask), p as u32);
        assert_eq!(prefix_from_netmask(mask), Some(p));
    }
}

#[test]
fn mask_from_prefix_values() {
    assert_eq!(mask_from_prefix(0), 0);
    assert_eq!(mask_from_prefix(24), 0xffff_ff00);
    assert_eq!(mask_from_prefix(32), 0xffff_ffff);
}

#[test]
fn count_ones_matches_std() {
    for m in [0u32, 1, 2, 3, 0xffff_ffff, 0x8000_0001, 0x1234_5678, 0xdead_beef] {
        assert_eq!(count_ones(m), m.count_ones());
    }
}
