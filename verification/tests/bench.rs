use blake2b_bench::bencher::{
    compute_throughput, encode_hex, Blake2bBencher, ChunkedReader, TrialRunner, BUFFER_LENGTH,
};
use blake2b_bench::hasher::{Blake2bHasher, SlicedHashUpdate, OUTPUT_LENGTH};

/// An independently computed Blake2b-256 digest, in lowercase hexadecimal,
/// obtained through blake2b_simd's one-shot API rather than through the
/// library's streaming pipeline.
fn reference_digest(data: &[u8]) -> String {
    let hash = blake2b_simd::Params::new().hash_length(32).hash(data);
    hex::encode(hash.as_bytes())
}

fn streaming_digest(mut hasher: Blake2bHasher, chunks: &[&[u8]]) -> String {
    let mut output = [0u8; 32];
    for chunk in chunks {
        hasher.update_with_slice(chunk);
    }
    hasher.finalize_into(&mut output);
    encode_hex(&output)
}

#[test]
fn digest_correctness_known_abc() {
    let expected = "bddd813c634239723171ef3fee98579b94964e3bb1cb3e427262c8c068d52319";
    let data = b"abc".to_vec();
    assert_eq!(reference_digest(&data), expected);
    let rust_crypto = Blake2bBencher::bench_rust_crypto(&data, 1, 4096);
    let rfc = Blake2bBencher::bench_rfc(&data, 1, 4096);
    let simd = Blake2bBencher::bench_simd(&data, 1, 4096);
    assert_eq!(rust_crypto.digest_hex.as_str(), expected);
    assert_eq!(rfc.digest_hex.as_str(), expected);
    assert_eq!(simd.digest_hex.as_str(), expected);
}

#[test]
fn digest_of_empty_input() {
    let expected = "0e5751c026e543b2e8ab2eb06099daa1d1e5df47778f7787faab45cdf12fe3a8";
    let data: Vec<u8> = Vec::new();
    assert_eq!(reference_digest(&data), expected);
    let rust_crypto = Blake2bBencher::bench_rust_crypto(&data, 1, 4096);
    let rfc = Blake2bBencher::bench_rfc(&data, 1, 4096);
    let simd = Blake2bBencher::bench_simd(&data, 1, 4096);
    assert_eq!(rust_crypto.digest_hex.as_str(), expected);
    assert_eq!(rfc.digest_hex.as_str(), expected);
    assert_eq!(simd.digest_hex.as_str(), expected);
    assert_eq!(rust_crypto.total_bytes, 0);
}

#[test]
fn chunked_reader_returns_zero_at_once_on_empty_input() {
    let mut reader = ChunkedReader::new(Vec::new());
    let mut buffer = vec![9u8; 4];
    assert_eq!(reader.read(&mut buffer), 0);
    assert_eq!(reader.read(&mut buffer), 0);
    assert_eq!(buffer, vec![9u8; 4]);
}

#[test]
fn chunked_reader_fills_exact_prefix() {
    let mut reader = ChunkedReader::new(vec![1u8, 2, 3, 4, 5]);
    let mut buffer = vec![0u8; 2];
    assert_eq!(reader.read(&mut buffer), 2);
    assert_eq!(buffer, vec![1u8, 2]);
    assert_eq!(reader.read(&mut buffer), 2);
    assert_eq!(buffer, vec![3u8, 4]);
    let n = reader.read(&mut buffer);
    assert_eq!(n, 1);
    assert_eq!(buffer[..n], [5u8]);
    assert_eq!(buffer[1], 4);
    assert_eq!(reader.read(&mut buffer), 0);
    assert_eq!(reader.read(&mut buffer), 0);
}

#[test]
fn same_backend_twice_is_deterministic() {
    let data: Vec<u8> = (0..1000u32).map(|i| (i % 256) as u8).collect();
    let first = Blake2bBencher::bench_rfc(&data, 2, 64);
    let second = Blake2bBencher::bench_rfc(&data, 2, 64);
    assert_eq!(first.digest, second.digest);
    assert_eq!(first.digest_hex, second.digest_hex);
}

#[test]
fn backends_agree_on_any_input() {
    let data: Vec<u8> = (0..10_000u32).map(|i| (i * 7 % 256) as u8).collect();
    let expected = reference_digest(&data);
    let rust_crypto = Blake2bBencher::bench_rust_crypto(&data, 1, 4096);
    let rfc = Blake2bBencher::bench_rfc(&data, 1, 4096);
    let simd = Blake2bBencher::bench_simd(&data, 1, 4096);
    assert_eq!(rust_crypto.digest_hex.as_str(), expected.as_str());
    assert_eq!(rfc.digest_hex.as_str(), expected.as_str());
    assert_eq!(simd.digest_hex.as_str(), expected.as_str());
    assert_eq!(rust_crypto.digest, rfc.digest);
    assert_eq!(rfc.digest, simd.digest);
}

#[test]
fn digest_is_chunk_size_agnostic() {
    let data: Vec<u8> = (0..5000u32).map(|i| (i * 13 % 256) as u8).collect();
    let one = Blake2bBencher::bench_simd(&data, 1, 1);
    let seventeen = Blake2bBencher::bench_simd(&data, 1, 17);
    let full = Blake2bBencher::bench_simd(&data, 1, BUFFER_LENGTH);
    assert_eq!(one.digest, seventeen.digest);
    assert_eq!(seventeen.digest, full.digest);
    assert_eq!(one.digest_hex.as_str(), reference_digest(&data).as_str());
}

#[test]
fn digest_is_update_call_boundary_agnostic() {
    let whole = streaming_digest(Blake2bHasher::new_rust_crypto(), &[b"abc"]);
    let split = streaming_digest(Blake2bHasher::new_rust_crypto(), &[b"a", b"bc"]);
    let empty_steps = streaming_digest(Blake2bHasher::new_rust_crypto(), &[b"", b"abc", b""]);
    assert_eq!(whole, split);
    assert_eq!(split, empty_steps);
}

#[test]
fn different_inputs_give_different_digests() {
    let abc = streaming_digest(Blake2bHasher::new_rfc(), &[b"abc"]);
    let abd = streaming_digest(Blake2bHasher::new_rfc(), &[b"abd"]);
    assert_ne!(abc, abd);
}

#[test]
fn throughput_is_positive_and_elapsed_nonzero() {
    let data: Vec<u8> = vec![42u8; 1000];
    let result = Blake2bBencher::bench_simd(&data, 3, 64);
    assert!(result.elapsed_nanos >= 1);
    assert!(result.throughput_bytes_per_sec > 0);
    assert_eq!(result.total_bytes, 3000);
}

#[test]
fn throughput_formula_exact_values() {
    assert_eq!(compute_throughput(1000, 1_000_000_000), 1000);
    assert_eq!(compute_throughput(4096, 500_000_000), 8192);
    assert_eq!(compute_throughput(1, u64::MAX), 0);
    assert_eq!(compute_throughput(u64::MAX, 1), u64::MAX);
}

#[test]
fn trial_runner_counts_every_byte() {
    let data: Vec<u8> = (0..777u32).map(|i| (i % 251) as u8).collect();
    let mut reader = ChunkedReader::new(data.clone());
    let mut runner = TrialRunner::new(Blake2bHasher::new_simd());
    let mut buffer = vec![0u8; 32];
    let n = runner.update_hash_buffered(&mut reader, &mut buffer);
    assert_eq!(n, 777);
    assert_eq!(runner.bytes_read(), 777);
    let mut output = [0u8; 32];
    runner.into_hasher().finalize_into(&mut output);
    assert_eq!(encode_hex(&output).as_str(), reference_digest(&data).as_str());
}

#[test]
fn hex_encoding_matches_reference_encoder() {
    let bytes: Vec<u8> = (0..=255u32).map(|i| i as u8).collect();
    assert_eq!(encode_hex(&bytes), hex::encode(&bytes));
    assert_eq!(encode_hex(&[]).as_str(), "");
    assert_eq!(encode_hex(&[0xab]).as_str(), "ab");
}

#[test]
fn end_to_end_one_mebibyte_scenario() {
    let data: Vec<u8> = (0..1_048_576u32).map(|i| (i % 256) as u8).collect();
    let expected = reference_digest(&data);
    let results = [
        Blake2bBencher::bench_rust_crypto(&data, 4, BUFFER_LENGTH),
        Blake2bBencher::bench_rfc(&data, 4, BUFFER_LENGTH),
        Blake2bBencher::bench_simd(&data, 4, BUFFER_LENGTH),
    ];
    for result in &results {
        assert_eq!(result.digest_hex.as_str(), expected.as_str());
        assert_eq!(result.digest.len(), OUTPUT_LENGTH);
        assert_eq!(result.total_bytes, 4 * 1_048_576);
        assert!(result.elapsed_nanos >= 1);
    }
}
