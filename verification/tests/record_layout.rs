use logistics::codec::decode_warehouse;
use logistics::codec::encode_warehouse;
use logistics::state::AUTHORITY_BYTES;
use logistics::state::CAPACITY_BYTES;
use logistics::state::HEADER_BYTES;
use logistics::state::Pubkey;
use logistics::state::UTILIZED_BYTES;
use logistics::state::WAREHOUSE_SPACE;
use logistics::state::Warehouse;

const HEADER: [u8; 8] = [0xA0, 0xA1, 0xA2, 0xA3, 0xA4, 0xA5, 0xA6, 0xA7];

#[test]
fn record_size_is_fixed() {
    assert_eq!(WAREHOUSE_SPACE, 56);
    assert_eq!(
        HEADER_BYTES + CAPACITY_BYTES + UTILIZED_BYTES + AUTHORITY_BYTES,
        WAREHOUSE_SPACE
    );
    let w = Warehouse {
        capacity: 12345,
        utilized: 0,
        authority: Pubkey { bytes: [6; 32] },
    };
    let encoded = encode_warehouse(&HEADER, &w);
    assert_eq!(encoded.len(), 56);
}

#[test]
fn encoding_lays_fields_out_in_order() {
    let mut authority = [0u8; 32];
    for (i, b) in authority.iter_mut().enumerate() {
        *b = 100 + i as u8;
    }
    let w = Warehouse {
        capacity: 0x0102030405060708,
        utilized: 3,
        authority: Pubkey { bytes: authority },
    };
    let encoded = encode_warehouse(&HEADER, &w);
    assert_eq!(&encoded[0..8], &HEADER);
    // Little-endian: least significant byte first.
    assert_eq!(&encoded[8..16], &[8, 7, 6, 5, 4, 3, 2, 1]);
    assert_eq!(&encoded[16..24], &[3, 0, 0, 0, 0, 0, 0, 0]);
    assert_eq!(&encoded[24..56], &authority);
}

#[test]
fn decoding_recovers_the_encoded_record() {
    let w = Warehouse {
        capacity: u64::MAX,
        utilized: 0,
        authority: Pubkey { bytes: [0xEE; 32] },
    };
    let encoded = encode_warehouse(&HEADER, &w);
    assert_eq!(decode_warehouse(&HEADER, &encoded), Some(w));
}

#[test]
fn decoding_reads_little_endian_words() {
    let mut bytes = vec![0u8; 56];
    bytes[0..8].copy_from_slice(&HEADER);
    bytes[8] = 1; // capacity = 1
    bytes[17] = 1; // utilized = 256
    bytes[24..56].copy_from_slice(&[9; 32]);
    let decoded = decode_warehouse(&HEADER, &bytes).expect("well-formed record");
    assert_eq!(decoded.capacity, 1);
    assert_eq!(decoded.utilized, 256);
    assert_eq!(decoded.authority, Pubkey { bytes: [9; 32] });
}

#[test]
fn decoding_rejects_wrong_length() {
    let w = Warehouse {
        capacity: 1,
        utilized: 0,
        authority: Pubkey { bytes: [0; 32] },
    };
    let mut encoded = encode_warehouse(&HEADER, &w);
    encoded.push(0);
    assert_eq!(decode_warehouse(&HEADER, &encoded), None);
    assert_eq!(decode_warehouse(&HEADER, &[]), None);
    assert_eq!(decode_warehouse(&HEADER, &encoded[0..55]), None);
}

#[test]
fn decoding_rejects_wrong_header() {
    let w = Warehouse {
        capacity: 77,
        utilized: 0,
        authority: Pubkey { bytes: [1; 32] },
    };
    let mut encoded = encode_warehouse(&HEADER, &w);
    encoded[7] ^= 0xFF;
    assert_eq!(decode_warehouse(&HEADER, &encoded), None);
}
