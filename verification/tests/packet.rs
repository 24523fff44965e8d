use ring::constants::{ICMP_ECHO_REQUEST, ICMP_HEADER_SIZE};
use ring::packet::{build_echo_request, checksum, echo_sequence};

fn reference_checksum(data: &[u8]) -> u16 {
    let mut sum: u64 = 0;
    let mut i = 0;
    while i + 1 < data.len() {
        sum += ((data[i] as u64) << 8) | data[i + 1] as u64;
        i += 2;
    }
    if data.len() % 2 == 1 {
        sum += (data[data.len() - 1] as u64) << 8;
    }
    while sum > 0xffff {
        sum = (sum & 0xffff) + (sum >> 16);
    }
    !(sum as u16)
}

#[test]
fn checksum_rfc1071_example() {
    // RFC 1071 section 3: the sum of these words folds to 0xddf2.
    let data = [0x00u8, 0x01, 0xf2, 0x03, 0xf4, 0xf5, 0xf6, 0xf7];
    assert_eq!(checksum(&data), !0xddf2u16);
    assert_eq!(checksum(&data), 0x220d);
}

#[test]
fn checksum_of_empty_data_is_all_ones() {
    assert_eq!(checksum(&[]), 0xffff);
}

#[test]
fn checksum_pads_odd_byte() {
    assert_eq!(checksum(&[0x01]), 0xfeff);
    assert_eq!(checksum(&[0x12, 0x34, 0x56]), !(0x1234u16 + 0x5600));
}

#[test]
fn checksum_folds_carries() {
    let data = [0xffu8, 0xff, 0xff, 0xff, 0x00, 0x02];
    // 0xffff + 0xffff + 0x0002 = 0x20000 -> 0x0002
    assert_eq!(checksum(&data), !0x0002u16);
}

#[test]
fn checksum_matches_reference_on_many_inputs() {
    for len in 0..200usize {
        let data: Vec<u8> = (0..len).map(|i| ((i * 37 + len * 11) % 256) as u8).collect();
        assert_eq!(checksum(&data), reference_checksum(&data), "length {len}");
    }
}

#[test]
fn echo_request_layout() {
    let packet = build_echo_request(1, 56);
    assert_eq!(packet.len(), ICMP_HEADER_SIZE + 56);
    assert_eq!(packet[0], ICMP_ECHO_REQUEST);
    assert_eq!(packet[1], 0);
    assert_eq!(&packet[4..6], &[0, 0]);
    assert_eq!(&packet[6..8], &[0, 1]);
    for i in 0..56 {
        assert_eq!(packet[8 + i], i as u8);
    }
}

#[test]
fn echo_request_checksum_value() {
    // Words: 0x0800, checksum, 0x0000, 0x1234 -> sum 0x1a34.
    let packet = build_echo_request(0x1234, 0);
    assert_eq!(packet, vec![8, 0, 0xe5, 0xcb, 0, 0, 0x12, 0x34]);
}

#[test]
fn echo_request_payload_wraps_at_256() {
    let packet = build_echo_request(7, 300);
    assert_eq!(packet[8 + 255], 255);
    assert_eq!(packet[8 + 256], 0);
    assert_eq!(packet[8 + 299], 43);
}

#[test]
fn echo_request_always_verifies() {
    for sequence in [0u16, 1, 2, 255, 256, 0x1234, 0xfffe, 0xffff] {
        for size in [0usize, 1, 7, 56, 57, 1000, 65507] {
            let packet = build_echo_request(sequence, size);
            assert_eq!(checksum(&packet), 0, "sequence {sequence} size {size}");
        }
    }
}

#[test]
fn echo_sequence_reads_back_built_sequence() {
    for sequence in [0u16, 1, 300, 0xabcd, 0xffff] {
        let packet = build_echo_request(sequence, 16);
        assert_eq!(echo_sequence(&packet), sequence);
    }
}

#[test]
fn checksum_stored_at_any_even_offset_verifies() {
    for len in [2usize, 7, 8, 13, 64] {
        let mut offset = 0;
        while offset + 2 <= len {
            let mut data: Vec<u8> = (0..len).map(|i| (i * 37 + 11) as u8).collect();
            data[offset] = 0;
            data[offset + 1] = 0;
            let c = checksum(&data);
            data[offset] = (c / 256) as u8;
            data[offset + 1] = (c % 256) as u8;
            assert_eq!(checksum(&data), 0, "length {} offset {}", len, offset);
            offset += 2;
        }
    }
}
