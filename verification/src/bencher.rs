//! The benchmarking harness: chunked reading, trial running, timing and
//! throughput computation over the hash backend abstraction.

use vstd::prelude::*;
use vstd::arithmetic::div_mod::lemma_div_non_zero;
use vstd::pervasive::VecAdditionalExecFns;
use vstd::slice::{slice_subrange, slice_to_vec};
use vstd::string::StringExecFns;
use crate::hasher::{blake2b256, BackendKind, Blake2bHasher, SlicedHashUpdate, OUTPUT_LENGTH};

verus! {

/// Number of trials a benchmark runs back to back over one backend.
pub const BENCH_COUNT: usize = 128;

/// Recommended read-buffer length in bytes for the chunked reader.
pub const BUFFER_LENGTH: usize = 4096;

/// Exposes a byte source as a bounded sequence of chunks: each read fills
/// the caller's buffer with the next bytes and returns how many were
/// placed, returning 0 exactly from the moment the source is exhausted.
pub struct ChunkedReader {
    data: Vec<u8>,
    pos: usize,
}

impl ChunkedReader {
    pub closed spec fn wf(&self) -> bool {
        self.pos <= self.data@.len()
    }

    /// The whole byte content this reader was opened over.
    pub closed spec fn contents(&self) -> Seq<u8> {
        self.data@
    }

    /// The bytes not yet handed out.
    pub closed spec fn remaining(&self) -> Seq<u8> {
        self.data@.subrange(self.pos as int, self.data@.len() as int)
    }

    pub fn new(data: Vec<u8>) -> (r: Self)
        ensures
            r.wf(),
            r.contents() == data@,
            r.remaining() == data@,
    {
        let r = ChunkedReader { data, pos: 0 };
        proof {
            assert(r.remaining() =~= r.contents());
        }
        r
    }

    /// Whether every byte has been handed out; from then on reads return 0.
    pub fn is_exhausted(&self) -> (b: bool)
        requires
            self.wf(),
        ensures
            b == (self.remaining().len() == 0),
    {
        self.pos == self.data.len()
    }

    /// Fills a prefix of `buffer` with the next bytes of the source and
    /// returns how many were placed: the buffer's length, if that much
    /// remains, and everything that remains otherwise. Bytes of `buffer`
    /// past the returned count keep their old, stale values: a caller must
    /// only pass the filled prefix on.
    pub fn read(&mut self, buffer: &mut Vec<u8>) -> (n: usize)
        requires
            old(self).wf(),
            old(buffer)@.len() >= 1,
        ensures
            final(self).wf(),
            final(self).contents() == old(self).contents(),
            n <= old(buffer)@.len(),
            n <= old(self).remaining().len(),
            n == if old(buffer)@.len() <= old(self).remaining().len() {
                old(buffer)@.len() as int
            } else {
                old(self).remaining().len() as int
            },
            final(buffer)@.len() == old(buffer)@.len(),
            final(buffer)@.subrange(0, n as int) == old(self).remaining().take(n as int),
            final(buffer)@.subrange(n as int, final(buffer)@.len() as int)
                == old(buffer)@.subrange(n as int, old(buffer)@.len() as int),
            final(self).remaining() == old(self).remaining().skip(n as int),
            (n == 0) <==> (old(self).remaining().len() == 0),
    {
        let data_len = self.data.len();
        let available = data_len - self.pos;
        let n = if buffer.len() < available {
            buffer.len()
        } else {
            available
        };
        let mut i: usize = 0;
        while i < n
            invariant
                i <= n,
                n <= buffer@.len(),
                self == old(self),
                self.data@.len() == data_len,
                self.pos + n <= data_len,
                buffer@.len() == old(buffer)@.len(),
                forall|k: int| 0 <= k < i ==> buffer@[k] == self.data@[self.pos + k],
                forall|k: int| i <= k < buffer@.len() ==> buffer@[k] == old(buffer)@[k],
            decreases n - i,
        {
            let byte = *vstd::slice::slice_index_get(self.data.as_slice(), self.pos + i);
            buffer.set(i, byte);
            i += 1;
        }
        proof {
            assert(buffer@.subrange(0, n as int) =~= old(self).remaining().take(n as int));
            assert(buffer@.subrange(n as int, buffer@.len() as int)
                =~= old(buffer)@.subrange(n as int, old(buffer)@.len() as int));
        }
        self.pos = self.pos + n;
        proof {
            assert(self.remaining() =~= old(self).remaining().skip(n as int));
        }
        n
    }
}

/// Drives one full hashing pass over one byte source through one backend
/// instance, accumulating the number of bytes processed. The hash is not
/// finalized here: the orchestrator finalizes, so the output buffer's
/// lifetime is controlled at the call site.
pub struct TrialRunner {
    hasher: Blake2bHasher,
    bytes_read: usize,
}

impl TrialRunner {
    /// The bytes fed to the backend so far.
    pub closed spec fn fed(&self) -> Seq<u8> {
        self.hasher.fed()
    }

    /// Which backend variant this trial runs.
    pub closed spec fn kind(&self) -> BackendKind {
        self.hasher.kind()
    }

    /// The accumulated byte count agrees with the bytes actually fed.
    pub closed spec fn wf(&self) -> bool {
        self.bytes_read == self.fed().len()
    }

    pub fn new(hasher: Blake2bHasher) -> (r: Self)
        requires
            hasher.fed() == Seq::<u8>::empty(),
        ensures
            r.wf(),
            r.fed() == Seq::<u8>::empty(),
            r.kind() == hasher.kind(),
    {
        TrialRunner { hasher, bytes_read: 0 }
    }

    /// Total bytes processed so far; equal to the length of the bytes fed.
    pub fn bytes_read(&self) -> (n: usize)
        requires
            self.wf(),
        ensures
            n == self.fed().len(),
    {
        self.bytes_read
    }

    /// Feeds the next chunk of the source to the backend.
    pub fn feed_chunk(&mut self, chunk: &[u8])
        requires
            old(self).wf(),
            old(self).fed().len() + chunk@.len() <= usize::MAX,
        ensures
            final(self).wf(),
            final(self).fed() == old(self).fed() + chunk@,
            final(self).kind() == old(self).kind(),
    {
        self.hasher.update_with_slice(chunk);
        self.bytes_read = self.bytes_read + chunk.len();
    }

    /// One complete pass: repeatedly read a chunk from the reader and feed
    /// exactly the filled prefix of the buffer to the backend, until the
    /// reader is exhausted; returns the number of bytes this pass added.
    pub fn update_hash_buffered(&mut self, reader: &mut ChunkedReader, buffer: &mut Vec<u8>) -> (n: usize)
        requires
            old(self).wf(),
            old(reader).wf(),
            old(buffer)@.len() >= 1,
            old(self).fed().len() + old(reader).remaining().len() <= usize::MAX,
        ensures
            final(self).wf(),
            final(self).fed() == old(self).fed() + old(reader).remaining(),
            final(self).kind() == old(self).kind(),
            final(reader).wf(),
            final(reader).contents() == old(reader).contents(),
            final(reader).remaining().len() == 0,
            final(buffer)@.len() == old(buffer)@.len(),
            n == old(reader).remaining().len(),
    {
        let ghost source = old(reader).remaining();
        let mut total: usize = 0;
        while !reader.is_exhausted()
            invariant
                self.wf(),
                reader.wf(),
                buffer@.len() == old(buffer)@.len(),
                buffer@.len() >= 1,
                reader.contents() == old(reader).contents(),
                total <= source.len(),
                reader.remaining() == source.skip(total as int),
                self.fed() == old(self).fed() + source.take(total as int),
                self.kind() == old(self).kind(),
                old(self).fed().len() + source.len() <= usize::MAX,
            decreases reader.remaining().len(),
        {
            let n = reader.read(buffer);
            let chunk = slice_subrange(buffer.as_slice(), 0, n);
            proof {
                assert(chunk@ == source.skip(total as int).take(n as int));
                assert(source.take(total as int) + source.skip(total as int).take(n as int)
                    =~= source.take(total as int + n as int));
                assert(source.skip(total as int).skip(n as int)
                    =~= source.skip(total as int + n as int));
            }
            self.feed_chunk(chunk);
            total = total + n;
        }
        proof {
            assert(source.take(total as int) =~= source);
            assert(self.fed() =~= old(self).fed() + old(reader).remaining());
        }
        total
    }

    /// Hands the backend instance back for finalization, consuming the
    /// runner; the digest of the fed bytes is then the orchestrator's to
    /// take.
    pub fn into_hasher(self) -> (h: Blake2bHasher)
        ensures
            h.fed() == self.fed(),
            h.kind() == self.kind(),
    {
        self.hasher
    }
}

/// The lowercase hexadecimal digit for a value below 16.
pub open spec fn hex_char_of(v: int) -> char {
    if v == 0 { '0' } else if v == 1 { '1' } else if v == 2 { '2' } else if v == 3 { '3' }
    else if v == 4 { '4' } else if v == 5 { '5' } else if v == 6 { '6' } else if v == 7 { '7' }
    else if v == 8 { '8' } else if v == 9 { '9' } else if v == 10 { 'a' } else if v == 11 { 'b' }
    else if v == 12 { 'c' } else if v == 13 { 'd' } else if v == 14 { 'e' } else { 'f' }
}

/// The lowercase hexadecimal encoding of a byte sequence: two digits per
/// byte, high nibble first.
pub open spec fn hex_of(bytes: Seq<u8>) -> Seq<char>
    decreases bytes.len(),
{
    if bytes.len() == 0 {
        Seq::empty()
    } else {
        seq![hex_char_of(bytes[0] as int / 16), hex_char_of(bytes[0] as int % 16)]
            + hex_of(bytes.drop_first())
    }
}

proof fn lemma_hex_of_push(s: Seq<u8>, x: u8)
    ensures
        hex_of(s.push(x)) == hex_of(s) + seq![
            hex_char_of(x as int / 16),
            hex_char_of(x as int % 16),
        ],
    decreases s.len(),
{
    let p = s.push(x);
    if s.len() == 0 {
        assert(p[0] == x);
        assert(p.drop_first() =~= Seq::<u8>::empty());
        assert(hex_of(p) == seq![
            hex_char_of(p[0] as int / 16),
            hex_char_of(p[0] as int % 16),
        ] + hex_of(p.drop_first()));
        assert(hex_of(Seq::<u8>::empty()) == Seq::<char>::empty());
        assert(hex_of(s) == Seq::<char>::empty());
        assert(hex_of(p) =~= hex_of(s) + seq![
            hex_char_of(x as int / 16),
            hex_char_of(x as int % 16),
        ]);
    } else {
        assert(p[0] == s[0]);
        assert(p.drop_first() =~= s.drop_first().push(x));
        lemma_hex_of_push(s.drop_first(), x);
        assert(hex_of(p) == seq![
            hex_char_of(p[0] as int / 16),
            hex_char_of(p[0] as int % 16),
        ] + hex_of(p.drop_first()));
        assert(hex_of(s) == seq![
            hex_char_of(s[0] as int / 16),
            hex_char_of(s[0] as int % 16),
        ] + hex_of(s.drop_first()));
        assert(hex_of(p) =~= hex_of(s) + seq![
            hex_char_of(x as int / 16),
            hex_char_of(x as int % 16),
        ]);
    }
}

/// Appends the lowercase hexadecimal digit for `v` to `s`.
fn push_hex_char(s: &mut String, v: u8)
    requires
        v < 16,
    ensures
        final(s)@ == old(s)@ + seq![hex_char_of(v as int)],
{
    proof {
        reveal_strlit("0"); reveal_strlit("1"); reveal_strlit("2"); reveal_strlit("3");
        reveal_strlit("4"); reveal_strlit("5"); reveal_strlit("6"); reveal_strlit("7");
        reveal_strlit("8"); reveal_strlit("9"); reveal_strlit("a"); reveal_strlit("b");
        reveal_strlit("c"); reveal_strlit("d"); reveal_strlit("e"); reveal_strlit("f");
    }
    if v == 0 { s.append("0"); } else if v == 1 { s.append("1"); }
    else if v == 2 { s.append("2"); } else if v == 3 { s.append("3"); }
    else if v == 4 { s.append("4"); } else if v == 5 { s.append("5"); }
    else if v == 6 { s.append("6"); } else if v == 7 { s.append("7"); }
    else if v == 8 { s.append("8"); } else if v == 9 { s.append("9"); }
    else if v == 10 { s.append("a"); } else if v == 11 { s.append("b"); }
    else if v == 12 { s.append("c"); } else if v == 13 { s.append("d"); }
    else if v == 14 { s.append("e"); } else { s.append("f"); }
}

/// The lowercase hexadecimal form of `bytes`, two digits per byte.
pub fn encode_hex(bytes: &[u8]) -> (s: String)
    ensures
        s@ == hex_of(bytes@),
{
    let len = bytes.len();
    let mut s = String::new();
    let mut i: usize = 0;
    while i < len
        invariant
            i <= len,
            len == bytes@.len(),
            s@ == hex_of(bytes@.take(i as int)),
        decreases len - i,
    {
        let b = *vstd::slice::slice_index_get(bytes, i);
        push_hex_char(&mut s, b / 16);
        push_hex_char(&mut s, b % 16);
        proof {
            lemma_hex_of_push(bytes@.take(i as int), b);
            assert(bytes@.take(i as int).push(b) =~= bytes@.take(i as int + 1));
            assert(s@ =~= hex_of(bytes@.take(i as int + 1)));
        }
        i += 1;
    }
    proof {
        assert(bytes@.take(len as int) =~= bytes@);
    }
    s
}

/// Throughput in whole bytes per second, from a total byte count and an
/// elapsed wall-clock time in nanoseconds, saturating at u64::MAX.
pub open spec fn throughput_of(total_bytes: u64, elapsed_nanos: u64) -> int
    recommends
        elapsed_nanos > 0,
{
    let exact = (total_bytes * 1_000_000_000) / (elapsed_nanos as int);
    if exact > u64::MAX { u64::MAX as int } else { exact }
}

/// Aggregate throughput over all trials, computed from the known total
/// byte count rather than from wall-clock sampling per trial.
pub fn compute_throughput(total_bytes: u64, elapsed_nanos: u64) -> (r: u64)
    requires
        elapsed_nanos > 0,
    ensures
        r == throughput_of(total_bytes, elapsed_nanos),
{
    let numerator = (total_bytes as u128) * 1_000_000_000u128;
    let quotient = numerator / (elapsed_nanos as u128);
    if quotient > u64::MAX as u128 {
        u64::MAX
    } else {
        quotient as u64
    }
}

/// Throughput sanity: whenever something was processed and the elapsed
/// nanoseconds do not exceed a billion times the byte count — that is,
/// the rate is at least one byte per second — the computed throughput is
/// strictly positive; it is finite by construction, being an integer.
pub proof fn lemma_throughput_positive(total_bytes: u64, elapsed_nanos: u64)
    requires
        0 < elapsed_nanos,
        elapsed_nanos <= total_bytes * 1_000_000_000,
    ensures
        throughput_of(total_bytes, elapsed_nanos) > 0,
{
    lemma_div_non_zero(total_bytes * 1_000_000_000, elapsed_nanos as int);
}

/// Declares the standard library's monotonic clock reading so that the
/// orchestrator can hold one; Verus treats a value of it as opaque.
#[verifier::external_type_specification]
#[verifier::external_body]
pub struct ExInstant(std::time::Instant);

/// Relies on std::time::Instant::now: a reading of the monotonic clock.
/// Nothing is promised of its value.
#[verifier::external_body]
fn instant_now() -> std::time::Instant {
    std::time::Instant::now()
}

/// Relies on std::time::Instant::elapsed: the time since `start`.
/// Nothing is promised of its value.
#[verifier::external_body]
fn instant_elapsed(start: &std::time::Instant) -> std::time::Duration {
    start.elapsed()
}

/// Relies on std::time::Duration::as_nanos: the duration in whole
/// nanoseconds. Nothing is promised of its value.
#[verifier::external_body]
fn duration_as_nanos(d: &std::time::Duration) -> u128 {
    d.as_nanos()
}

/// The nanoseconds elapsed since `start`, clamped into 1..=u64::MAX so
/// that a throughput is always defined.
fn elapsed_nanos_clamped(start: &std::time::Instant) -> (n: u64)
    ensures
        1 <= n,
{
    let d = instant_elapsed(start);
    let nanos = duration_as_nanos(&d);
    if nanos < 1 {
        1
    } else if nanos > u64::MAX as u128 {
        u64::MAX
    } else {
        nanos as u64
    }
}

/// A zero-filled read buffer of the given length.
fn make_buffer(len: usize) -> (buffer: Vec<u8>)
    ensures
        buffer@.len() == len,
{
    let mut buffer: Vec<u8> = Vec::new();
    while buffer.len() < len
        invariant
            buffer@.len() <= len,
        decreases len - buffer@.len(),
    {
        buffer.push(0);
    }
    buffer
}

/// The outcome of one backend's benchmark: the digest of the last trial
/// with its hexadecimal form, the bytes processed over all trials, the
/// elapsed wall-clock nanoseconds, and the derived throughput. Immutable
/// once produced.
pub struct BenchmarkResult {
    pub digest: [u8; OUTPUT_LENGTH],
    pub digest_hex: String,
    pub total_bytes: u64,
    pub elapsed_nanos: u64,
    pub throughput_bytes_per_sec: u64,
}

impl BenchmarkResult {
    /// The three reported quantities agree: the hexadecimal string encodes
    /// the digest, the elapsed time is positive, and the throughput is
    /// derived from the byte count and the elapsed time.
    pub open spec fn wf(&self) -> bool {
        &&& self.digest_hex@ == hex_of(self.digest@)
        &&& 1 <= self.elapsed_nanos
        &&& self.throughput_bytes_per_sec == throughput_of(self.total_bytes, self.elapsed_nanos)
    }
}

/// The benchmark orchestrator: repeats a full hashing trial a fixed number
/// of times per backend, times the aggregate duration, computes throughput
/// and reports the last trial's digest.
pub struct Blake2bBencher;

impl Blake2bBencher {
    /// Runs `trials` back-to-back trials of the prototype's backend
    /// variant over `data`, read in chunks of `chunk_size` bytes. Every
    /// trial constructs a fresh reader and a fresh backend instance; the
    /// digest reported is the last trial's, and is the Blake2b-256 digest
    /// of `data` — independent of the chunk size and of the variant.
    pub fn bench(prototype: &Blake2bHasher, data: &Vec<u8>, trials: usize, chunk_size: usize) -> (r: BenchmarkResult)
        requires
            1 <= trials,
            1 <= chunk_size,
            trials * data@.len() <= u64::MAX,
        ensures
            r.wf(),
            r.digest@ == blake2b256(data@),
            r.digest_hex@ == hex_of(blake2b256(data@)),
            r.total_bytes == trials * data@.len(),
    {
        let ghost dlen = data@.len() as int;
        let data_len = data.len();
        let start = instant_now();
        let mut output: [u8; OUTPUT_LENGTH] = vstd::array::array_fill_for_copy_types(0u8);
        let mut total_bytes: u64 = 0;
        let mut t: usize = 0;
        while t < trials
            invariant
                t <= trials,
                1 <= chunk_size,
                dlen == data@.len(),
                data_len == dlen,
                trials * dlen <= u64::MAX,
                total_bytes == t * dlen,
                t >= 1 ==> output@ == blake2b256(data@),
            decreases trials - t,
        {
            let mut reader = ChunkedReader::new(slice_to_vec(data.as_slice()));
            let mut runner = TrialRunner::new(prototype.fresh());
            let mut buffer = make_buffer(chunk_size);
            let n = runner.update_hash_buffered(&mut reader, &mut buffer);
            let hasher = runner.into_hasher();
            proof {
                assert(hasher.fed() =~= data@);
                assert(total_bytes + n == (t + 1) * dlen) by (nonlinear_arith)
                    requires
                        total_bytes == t * dlen,
                        n == dlen,
                ;
                assert((t + 1) * dlen <= trials * dlen) by (nonlinear_arith)
                    requires
                        t + 1 <= trials,
                        0 <= dlen,
                ;
            }
            hasher.finalize_into(&mut output);
            total_bytes = total_bytes + (n as u64);
            t += 1;
        }
        let elapsed_nanos = elapsed_nanos_clamped(&start);
        let throughput_bytes_per_sec = compute_throughput(total_bytes, elapsed_nanos);
        let digest_hex = encode_hex(output.as_slice());
        BenchmarkResult { digest: output, digest_hex, total_bytes, elapsed_nanos, throughput_bytes_per_sec }
    }

    /// Benchmarks the RustCrypto backend over `data`.
    pub fn bench_rust_crypto(data: &Vec<u8>, trials: usize, chunk_size: usize) -> (r: BenchmarkResult)
        requires
            1 <= trials,
            1 <= chunk_size,
            trials * data@.len() <= u64::MAX,
        ensures
            r.wf(),
            r.digest@ == blake2b256(data@),
            r.digest_hex@ == hex_of(blake2b256(data@)),
            r.total_bytes == trials * data@.len(),
    {
        let prototype = Blake2bHasher::new_rust_crypto();
        Self::bench(&prototype, data, trials, chunk_size)
    }

    /// Benchmarks the RFC-style backend over `data`.
    pub fn bench_rfc(data: &Vec<u8>, trials: usize, chunk_size: usize) -> (r: BenchmarkResult)
        requires
            1 <= trials,
            1 <= chunk_size,
            trials * data@.len() <= u64::MAX,
        ensures
            r.wf(),
            r.digest@ == blake2b256(data@),
            r.digest_hex@ == hex_of(blake2b256(data@)),
            r.total_bytes == trials * data@.len(),
    {
        let prototype = Blake2bHasher::new_rfc();
        Self::bench(&prototype, data, trials, chunk_size)
    }

    /// Benchmarks the vectorized backend over `data`.
    pub fn bench_simd(data: &Vec<u8>, trials: usize, chunk_size: usize) -> (r: BenchmarkResult)
        requires
            1 <= trials,
            1 <= chunk_size,
            trials * data@.len() <= u64::MAX,
        ensures
            r.wf(),
            r.digest@ == blake2b256(data@),
            r.digest_hex@ == hex_of(blake2b256(data@)),
            r.total_bytes == trials * data@.len(),
    {
        let prototype = Blake2bHasher::new_simd();
        Self::bench(&prototype, data, trials, chunk_size)
    }
}

} // verus!
