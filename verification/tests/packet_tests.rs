use heatpump::misc::checksum;
use heatpump::packet::{Packet, PacketError};

fn sample() -> Packet {
    let mut packet = Packet::new_type_size(0x42, 16);
    packet.data[0] = 2;
    packet.set_checksum();
    packet
}

#[test]
fn checksum_of_empty_is_marker() {
    assert_eq!(checksum(Vec::new()), 0xfc);
}

#[test]
fn checksum_exact_value() {
    assert_eq!(checksum(vec![0xfc, 0x5a, 0x01, 0x30, 0x02, 0xca, 0x01]), 0xa8);
}

#[test]
fn checksum_wraps_around() {
    assert_eq!(checksum(vec![0xff, 0xff, 0x03]), 0xfb);
    assert_eq!(checksum(vec![0xfd]), 0xff);
}

#[test]
fn new_packet_has_default_header() {
    let packet = Packet::new();
    assert_eq!(packet.packet_type, 0);
    assert_eq!(packet.h2, 0x01);
    assert_eq!(packet.h3, 0x30);
    assert!(packet.data.is_empty());
    assert_eq!(packet.checksum, 0);
}

#[test]
fn new_type_size_is_zeroed() {
    let packet = Packet::new_type_size(0x41, 16);
    assert_eq!(packet.packet_type, 0x41);
    assert_eq!(packet.h2, 0x01);
    assert_eq!(packet.h3, 0x30);
    assert_eq!(packet.data, vec![0u8; 16]);
    assert_eq!(packet.checksum, 0);
    assert_eq!(Packet::new_type_size(7, 0).data, Vec::<u8>::new());
}

#[test]
fn packet_size_counts_header_and_checksum() {
    assert_eq!(Packet::new().packet_size(), 6);
    assert_eq!(sample().packet_size(), 22);
}

#[test]
fn compute_checksum_exact_value() {
    let packet = sample();
    assert_eq!(packet.compute_checksum(), 0x7b);
    assert_eq!(packet.checksum, 0x7b);
    assert!(packet.check_checksum());
}

#[test]
fn check_checksum_sees_a_wrong_checksum() {
    let mut packet = sample();
    packet.checksum = 0x7c;
    assert!(!packet.check_checksum());
    assert_eq!(packet.compute_checksum(), 0x7b);
}

#[test]
fn to_bytes_exact_bytes() {
    let mut expected: Vec<u8> = vec![0xfc, 0x42, 0x01, 0x30, 0x10, 0x02];
    expected.extend_from_slice(&[0u8; 15]);
    expected.push(0x7b);
    assert_eq!(sample().to_bytes(), expected);
}

#[test]
fn to_bytes_writes_checksum_field_as_it_stands() {
    let mut packet = Packet::new();
    packet.packet_type = 0x7a;
    assert_eq!(packet.to_bytes(), vec![0xfc, 0x7a, 0x01, 0x30, 0x00, 0x00]);
    packet.set_checksum();
    assert_eq!(packet.to_bytes(), vec![0xfc, 0x7a, 0x01, 0x30, 0x00, 0x55]);
}

#[test]
fn encode_recomputes_the_checksum() {
    let mut packet = sample();
    packet.checksum = 0;
    assert_eq!(packet.encode(), sample().to_bytes());
    assert_eq!(packet.checksum, 0);
    assert_eq!(Packet::from_bytes(&packet.encode()), Ok(sample()));
    assert_eq!(Packet::new().encode(), vec![0xfc, 0x00, 0x01, 0x30, 0x00, 0xcf]);
}

#[test]
fn checksum_round_trip() {
    let mut len: usize = 0;
    while len <= 255 {
        let mut packet = Packet::new_type_size((len % 251) as u8, len);
        let mut i: usize = 0;
        while i < len {
            packet.data[i] = ((i * 37 + len * 11) % 256) as u8;
            i += 1;
        }
        packet.set_checksum();
        let decoded = Packet::from_bytes(&packet.to_bytes()).unwrap();
        assert_eq!(decoded.checksum, packet.checksum);
        assert!(decoded.check_checksum());
        assert_eq!(decoded, packet);
        len += 1;
    }
}

#[test]
fn from_bytes_too_short() {
    assert_eq!(Packet::from_bytes(&[]), Err(PacketError::TooShort));
    assert_eq!(Packet::from_bytes(&[0xfc, 0x7a, 0x01, 0x30, 0x00]), Err(PacketError::TooShort));
    assert_eq!(Packet::from_bytes(&[0x00, 0x7a, 0x01, 0x30, 0x00]), Err(PacketError::TooShort));
}

#[test]
fn from_bytes_bad_marker() {
    assert_eq!(
        Packet::from_bytes(&[0xfd, 0x7a, 0x01, 0x30, 0x00, 0x55]),
        Err(PacketError::BadMarker)
    );
    assert_eq!(
        Packet::from_bytes(&[0x00, 0x7a, 0x01, 0x30, 0x09, 0x55]),
        Err(PacketError::BadMarker)
    );
}

#[test]
fn from_bytes_length_mismatch() {
    assert_eq!(
        Packet::from_bytes(&[0xfc, 0x7a, 0x01, 0x30, 0x01, 0x55]),
        Err(PacketError::LengthMismatch)
    );
    assert_eq!(
        Packet::from_bytes(&[0xfc, 0x7a, 0x01, 0x30, 0xff, 0x00, 0x00]),
        Err(PacketError::LengthMismatch)
    );
}

#[test]
fn from_bytes_checksum_mismatch() {
    assert_eq!(
        Packet::from_bytes(&[0xfc, 0x7a, 0x01, 0x30, 0x00, 0x54]),
        Err(PacketError::ChecksumMismatch)
    );
}

#[test]
fn from_bytes_reads_fields() {
    let packet = Packet::from_bytes(&[0xfc, 0x5a, 0x01, 0x30, 0x02, 0xca, 0x01, 0xa8]).unwrap();
    assert_eq!(packet.packet_type, 0x5a);
    assert_eq!(packet.h2, 0x01);
    assert_eq!(packet.h3, 0x30);
    assert_eq!(packet.data, vec![0xca, 0x01]);
    assert_eq!(packet.checksum, 0xa8);
}

#[test]
fn from_bytes_ignores_trailing_bytes() {
    let packet = Packet::from_bytes(&[0xfc, 0x7a, 0x01, 0x30, 0x00, 0x55, 0x12, 0x34]).unwrap();
    assert_eq!(packet.packet_type, 0x7a);
    assert_eq!(packet.packet_size(), 6);
}

#[test]
fn corruption_of_any_byte_but_length_is_rejected() {
    let bytes = sample().to_bytes();
    let mut i: usize = 0;
    while i < bytes.len() {
        if i != 4 {
            let mut value: u16 = 0;
            while value < 256 {
                if value as u8 != bytes[i] {
                    let mut bad = bytes.clone();
                    bad[i] = value as u8;
                    let expected = if i == 0 {
                        PacketError::BadMarker
                    } else {
                        PacketError::ChecksumMismatch
                    };
                    assert_eq!(Packet::from_bytes(&bad), Err(expected));
                }
                value += 1;
            }
        }
        i += 1;
    }
}

#[test]
fn corruption_single_bit_flips_are_rejected() {
    let bytes = sample().to_bytes();
    let mut i: usize = 0;
    while i < bytes.len() {
        let mut bit: u8 = 0;
        while bit < 8 {
            let mut bad = bytes.clone();
            bad[i] ^= 1 << bit;
            assert!(Packet::from_bytes(&bad).is_err());
            bit += 1;
        }
        i += 1;
    }
}

#[test]
fn length_byte_made_larger_is_a_length_mismatch() {
    let bytes = sample().to_bytes();
    let mut value: u16 = 17;
    while value < 256 {
        let mut bad = bytes.clone();
        bad[4] = value as u8;
        assert_eq!(Packet::from_bytes(&bad), Err(PacketError::LengthMismatch));
        value += 1;
    }
}

#[test]
fn length_byte_made_smaller_can_go_unnoticed() {
    let valid: [u8; 7] = [0xfc, 0x42, 0x01, 0x30, 0x01, 0x8d, 0xff];
    assert!(Packet::from_bytes(&valid).is_ok());
    let shortened: [u8; 7] = [0xfc, 0x42, 0x01, 0x30, 0x00, 0x8d, 0xff];
    let packet = Packet::from_bytes(&shortened).unwrap();
    assert!(packet.data.is_empty());
    assert_eq!(packet.checksum, 0x8d);
}

#[test]
fn error_messages() {
    assert_eq!(PacketError::TooShort.message(), "Packet too short to be a valid packet");
    assert_eq!(PacketError::BadMarker.message(), "Packet does not start with 0xfc");
    assert_eq!(
        PacketError::LengthMismatch.message(),
        "Packet length in header does not match received data"
    );
    assert_eq!(PacketError::ChecksumMismatch.message(), "Packet checksum does not match");
}
