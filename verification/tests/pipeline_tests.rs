//! Tests for the streaming upload pipeline: hashing, trailer delivery and
//! throttling.

use raze::hash::sha1_hex_digest_of;
use raze::hash::HashAccumulator;
use raze::source::ByteSource;
use raze::source::MemorySource;
use raze::throttle::ThrottledSource;
use raze::trailer::DigestTrailingSource;

const TEST_INPUT: &[u8] = b"hello this is a test";
const TEST_DIGEST: &[u8] = b"f291f60cafb2ef2e0013f5a5889b1da5af4b4657";

/// Pull until exhaustion with a fixed buffer size, concatenating all
/// delivered bytes.
fn drain<S: ByteSource>(source: &mut S, size: usize) -> Vec<u8> {
    let mut out = Vec::new();
    loop {
        let chunk = source.pull(size).unwrap();
        if chunk.is_empty() {
            return out;
        }
        out.extend_from_slice(&chunk);
    }
}

#[test]
fn test_digest_known_value() {
    let digest = sha1_hex_digest_of(TEST_INPUT);
    assert_eq!(digest.as_slice(), TEST_DIGEST);
    assert_eq!(digest.len(), 40);
}

#[test]
fn test_digest_chunking_invariance() {
    let mut whole = HashAccumulator::new();
    whole.update(TEST_INPUT);

    let mut pieces = HashAccumulator::new();
    pieces.update(&TEST_INPUT[0..5]);
    pieces.update(&TEST_INPUT[5..6]);
    pieces.update(&[]);
    pieces.update(&TEST_INPUT[6..20]);

    assert_eq!(whole.hex_digest(), pieces.hex_digest());
    assert_eq!(whole.hex_digest(), TEST_DIGEST.to_vec());
}

#[test]
fn test_digest_of_empty_input() {
    let digest = sha1_hex_digest_of(&[]);
    assert_eq!(digest.as_slice(), b"da39a3ee5e6b4b0d3255bfef95601890afd80709");
}

#[test]
fn test_finalize_is_repeatable() {
    let mut acc = HashAccumulator::new();
    acc.update(TEST_INPUT);
    let first = acc.hex_digest();
    let second = acc.hex_digest();
    assert_eq!(first, second);
}

#[test]
fn test_trailing_source_buffer_sizes() {
    let mut expected = TEST_INPUT.to_vec();
    expected.extend_from_slice(TEST_DIGEST);
    for size in [1usize, 4, 21, 39, 40, 41, 1000, 1024] {
        let mut source = DigestTrailingSource::new(MemorySource::new(TEST_INPUT.to_vec()));
        let delivered = drain(&mut source, size);
        assert_eq!(delivered, expected, "buffer size {}", size);
    }
}

#[test]
fn test_trailing_source_varying_pull_sizes() {
    // The delivered stream must not depend on how the pulls are sized,
    // even when every pull asks for a different amount.
    let mut expected = TEST_INPUT.to_vec();
    expected.extend_from_slice(TEST_DIGEST);
    let mut source = DigestTrailingSource::new(MemorySource::new(TEST_INPUT.to_vec()));
    let mut out = Vec::new();
    let mut size: usize = 1;
    loop {
        let chunk = source.pull(size).unwrap();
        if chunk.is_empty() {
            break;
        }
        out.extend_from_slice(&chunk);
        size = size % 7 + 1;
    }
    assert_eq!(out, expected);
}

#[test]
fn test_source_error_message() {
    let e = raze::source::SourceError::new("the file went away".to_string());
    assert_eq!(e.message, "the file went away");
}

#[test]
fn test_trailing_source_empty_input() {
    let mut source = DigestTrailingSource::new(MemorySource::new(Vec::new()));
    let delivered = drain(&mut source, 7);
    assert_eq!(delivered, b"da39a3ee5e6b4b0d3255bfef95601890afd80709".to_vec());
}

#[test]
fn test_done_pulls_stay_empty() {
    let mut source = DigestTrailingSource::new(MemorySource::new(TEST_INPUT.to_vec()));
    let _ = drain(&mut source, 16);
    for _ in 0..10 {
        let chunk = source.pull(64).unwrap();
        assert!(chunk.is_empty());
    }
}

#[test]
fn test_zero_length_pull_is_not_progress() {
    let mut source = DigestTrailingSource::new(MemorySource::new(TEST_INPUT.to_vec()));
    for _ in 0..3 {
        let chunk = source.pull(0).unwrap();
        assert!(chunk.is_empty());
    }
    let mut expected = TEST_INPUT.to_vec();
    expected.extend_from_slice(TEST_DIGEST);
    assert_eq!(drain(&mut source, 8), expected);
}

#[test]
fn test_trailer_split_across_single_byte_pulls() {
    let mut source = DigestTrailingSource::new(MemorySource::new(Vec::new()));
    let mut trailer = Vec::new();
    for _ in 0..40 {
        let chunk = source.pull(1).unwrap();
        assert_eq!(chunk.len(), 1);
        trailer.extend_from_slice(&chunk);
    }
    assert_eq!(trailer, b"da39a3ee5e6b4b0d3255bfef95601890afd80709".to_vec());
    assert!(source.pull(1).unwrap().is_empty());
}

#[test]
fn test_memory_source_chunks() {
    let mut source = MemorySource::new(vec![1, 2, 3, 4, 5]);
    assert_eq!(source.pull(2).unwrap(), vec![1, 2]);
    assert_eq!(source.pull(0).unwrap(), Vec::<u8>::new());
    assert_eq!(source.pull(100).unwrap(), vec![3, 4, 5]);
    assert_eq!(source.pull(100).unwrap(), Vec::<u8>::new());
}

#[test]
fn test_throttle_scenario() {
    // Draining 512 bytes at a 256 bytes/sec budget in 16-byte pulls must
    // impose about 2.0 seconds of delay in total.
    let data = vec![7u8; 512];
    let mut source = ThrottledSource::new(MemorySource::new(data), 256);
    let mut total_delay: u64 = 0;
    let mut delivered: usize = 0;
    loop {
        total_delay += source.required_delay_millis(0);
        let chunk = source.pull(16).unwrap();
        if chunk.is_empty() {
            break;
        }
        delivered += chunk.len();
    }
    assert_eq!(delivered, 512);
    // 32 waits of ceil(16 * 1000 / 256) = 63 ms each: the first chunk is
    // free, every later chunk and the final exhausted pull are preceded by
    // one wait.
    assert_eq!(total_delay, 2016);
    assert!(total_delay >= 1800 && total_delay <= 2200);
}

#[test]
fn test_throttle_first_chunk_not_delayed() {
    let source = ThrottledSource::new(MemorySource::new(vec![0u8; 64]), 16);
    assert_eq!(source.required_delay_millis(0), 0);
    assert_eq!(source.required_delay_millis(12345), 0);
}

#[test]
fn test_throttle_elapsed_time_counts() {
    let mut source = ThrottledSource::new(MemorySource::new(vec![0u8; 1000]), 1000);
    let chunk = source.pull(500).unwrap();
    assert_eq!(chunk.len(), 500);
    assert_eq!(source.required_delay_millis(0), 500);
    assert_eq!(source.required_delay_millis(200), 300);
    assert_eq!(source.required_delay_millis(500), 0);
    assert_eq!(source.required_delay_millis(600), 0);
}

#[test]
fn test_throttle_rounds_up() {
    let mut source = ThrottledSource::new(MemorySource::new(vec![0u8; 10]), 3);
    let chunk = source.pull(1).unwrap();
    assert_eq!(chunk.len(), 1);
    assert_eq!(source.required_delay_millis(0), 334);
}

#[test]
fn test_throttle_ignores_empty_deliveries() {
    let mut source = ThrottledSource::new(MemorySource::new(vec![0u8; 8]), 4);
    assert_eq!(source.pull(8).unwrap().len(), 8);
    let after_data = source.required_delay_millis(0);
    assert!(source.pull(8).unwrap().is_empty());
    // The exhausted pull delivered nothing, so the delay basis is unchanged.
    assert_eq!(source.required_delay_millis(0), after_data);
    assert_eq!(after_data, 2000);
}

#[test]
fn test_throttled_source_passes_bytes_unchanged() {
    let data: Vec<u8> = (0..100u8).collect();
    let mut source = ThrottledSource::new(MemorySource::new(data.clone()), 1);
    assert_eq!(drain(&mut source, 33), data);
}

#[test]
fn test_throttled_trailing_composition() {
    let inner = DigestTrailingSource::new(MemorySource::new(TEST_INPUT.to_vec()));
    let mut source = ThrottledSource::new(inner, 1000);
    let mut expected = TEST_INPUT.to_vec();
    expected.extend_from_slice(TEST_DIGEST);
    assert_eq!(drain(&mut source, 10), expected);
}
