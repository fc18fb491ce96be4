use modsync_metrohash::{metrohash128, HashState};

fn pattern(len: usize) -> Vec<u8> {
    (0..len).map(|i| (i * 37 + 11) as u8).collect()
}

fn differing_bits(a: &[u8; 16], b: &[u8; 16]) -> u32 {
    a.iter().zip(b.iter()).map(|(x, y)| (x ^ y).count_ones()).sum()
}

#[test]
fn repeated_calls_agree() {
    for len in [0usize, 1, 15, 16, 31, 32, 33, 63, 64, 65, 1000] {
        let data = pattern(len);
        let first = metrohash128(&data);
        for _ in 0..5 {
            assert_eq!(metrohash128(&data), first);
        }
    }
}

#[test]
fn equal_content_in_different_buffers_agrees() {
    let a = pattern(50);
    let b = a.clone();
    let mut padded = vec![0xEEu8; 3];
    padded.extend_from_slice(&a);
    assert_eq!(metrohash128(&a), metrohash128(&b));
    assert_eq!(metrohash128(&a), metrohash128(&padded[3..]));
}

#[test]
fn digest_has_sixteen_bytes() {
    for len in [0usize, 1, 7, 32, 500] {
        let digest = metrohash128(&pattern(len));
        assert_eq!(digest.len(), 16);
        assert_eq!(digest.as_slice().len(), 16);
    }
    assert_eq!(HashState::with_seed(3).finish().len(), 16);
}

#[test]
fn empty_digest_is_not_degenerate() {
    let digest = metrohash128(&[]);
    assert_ne!(digest, [0u8; 16]);
    assert_ne!(digest, [0xFFu8; 16]);
    assert_ne!(digest[..8], digest[8..]);
}

#[test]
fn one_flipped_bit_changes_about_half_the_digest() {
    let data = pattern(64);
    let base = metrohash128(&data);
    let mut total = 0u32;
    let flips = (data.len() * 8) as u32;
    for bit in 0..data.len() * 8 {
        let mut changed = data.clone();
        changed[bit / 8] ^= 1 << (bit % 8);
        let digest = metrohash128(&changed);
        let differing = differing_bits(&base, &digest);
        assert!(differing > 0, "bit {} left the digest as it was", bit);
        total += differing;
    }
    let mean = total as f64 / flips as f64;
    assert!(mean > 60.0 && mean < 68.0, "mean of {} differing bits", mean);
}

#[test]
fn one_flipped_bit_in_a_short_input_changes_about_half_the_digest() {
    let data = pattern(8);
    let base = metrohash128(&data);
    let mut total = 0u32;
    for bit in 0..64 {
        let mut changed = data.clone();
        changed[bit / 8] ^= 1 << (bit % 8);
        total += differing_bits(&base, &metrohash128(&changed));
    }
    let mean = total as f64 / 64.0;
    assert!(mean > 58.0 && mean < 70.0, "mean of {} differing bits", mean);
}

#[test]
fn digest_outlives_changes_to_the_input() {
    let mut data = pattern(40);
    let before = metrohash128(&data);
    let kept = before;
    for byte in data.iter_mut() {
        *byte = !*byte;
    }
    assert_eq!(before, kept);
    assert_ne!(metrohash128(&data), before);
    data.clear();
    assert_eq!(before, kept);
}

#[test]
fn input_is_left_as_it_was() {
    let data = pattern(70);
    let copy = data.clone();
    let _ = metrohash128(&data);
    assert_eq!(data, copy);
}

#[test]
fn digest_of_a_digest_is_another_digest() {
    let first = metrohash128(b"abc");
    let second = metrohash128(&first);
    assert_ne!(first, second);
    assert_eq!(
        first,
        [
            0xA7, 0x7B, 0xAF, 0x9F, 0xDB, 0x9C, 0xAB, 0x89, 0xA5, 0x01, 0xF8, 0xC1, 0x85, 0x63,
            0xD8, 0x1C
        ]
    );
}
