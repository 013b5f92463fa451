use after_effects::error::Error;
use after_effects::serializer::{open, seal, VERSION_PREFIX_WIDTH};

#[test]
fn the_version_is_two_bytes_low_byte_first() {
    assert_eq!(VERSION_PREFIX_WIDTH, 2);
    assert_eq!(seal(0x0102, &[9, 8, 7]), vec![0x02, 0x01, 9, 8, 7]);
    assert_eq!(seal(0, &[]), vec![0, 0]);
    assert_eq!(seal(255, &[1]), vec![255, 0, 1]);
    assert_eq!(seal(256, &[1]), vec![0, 1, 1]);
    assert_eq!(seal(u16::MAX, &[0]), vec![255, 255, 0]);
}

#[test]
fn opening_splits_version_and_payload() {
    assert_eq!(open(&[0x34, 0x12, 5, 6]), Ok((0x1234, &[5u8, 6][..])));
    assert_eq!(open(&[1, 0]), Ok((1, &[][..])));
    assert_eq!(open(&[0, 1]), Ok((256, &[][..])));
}

#[test]
fn a_buffer_shorter_than_the_version_is_corrupt() {
    assert_eq!(open(&[]), Err(Error::CorruptData));
    for b in 0..=255u8 {
        assert_eq!(open(&[b]), Err(Error::CorruptData));
    }
}

#[test]
fn what_was_sealed_opens_to_itself() {
    let payloads: [&[u8]; 4] = [&[], &[0], &[1, 2, 3], &[255; 300]];
    for version in [0u16, 1, 2, 255, 256, 257, 0x7fff, 0x8000, u16::MAX] {
        for payload in payloads {
            let bytes = seal(version, payload);
            assert_eq!(bytes.len(), payload.len() + 2);
            assert_eq!(open(&bytes), Ok((version, payload)));
        }
    }
}

#[test]
fn what_was_opened_seals_to_itself() {
    let buffers: [&[u8]; 3] = [&[7, 7], &[0, 0, 0], &[1, 2, 3, 4, 5]];
    for bytes in buffers {
        let (version, payload) = open(bytes).unwrap();
        assert_eq!(seal(version, payload), bytes.to_vec());
    }
}
