use vstd::prelude::*;

use crate::checksum::gpu_checksum;
use crate::checksum::xor64_lanes;
use crate::report::FileReport;
use crate::report::fingerprint_view;

verus! {

/// The hex-encoded content digest of a byte string. The digest is a pure
/// function of the bytes; its value is given only by the trusted hashing
/// wrapper below.
pub uninterp spec fn blake3_hex_spec(bytes: Seq<u8>) -> Seq<char>;

/// Relies on blake3::hash and blake3::Hash::to_hex: the digest depends on
/// the input bytes alone, and to_hex renders the 32-byte digest as exactly
/// 64 lowercase hexadecimal characters.
#[verifier::external_body]
fn blake3_hex(data: &[u8]) -> (r: String)
    ensures
        r@ == blake3_hex_spec(data@),
        r@.len() == 64,
{
    blake3::hash(data).to_hex().as_str().to_string()
}

/// Fingerprint determinism: identical byte content always carries an
/// identical digest.
pub proof fn lemma_fingerprint_deterministic(a: Seq<u8>, b: Seq<u8>)
    requires
        a == b,
    ensures
        blake3_hex_spec(a) == blake3_hex_spec(b),
{
}

/// Whether a file of the given size gets a content fingerprint: everything
/// below the minimum-size threshold is skipped without being read.
pub fn should_fingerprint(size: u64, min_bytes: u64) -> (b: bool)
    ensures
        b == (size >= min_bytes),
{
    size >= min_bytes
}

/// What the surrounding I/O observed about one file. The library turns any
/// of these into exactly one report, so one bad file never aborts a run.
pub enum FileOutcome {
    /// The metadata lookup itself failed; not even a size is known.
    StatFailed,
    /// The size is known and lies below the minimum-size threshold; the
    /// contents were never read.
    Small { size: u64 },
    /// The size is known but opening or mapping the file failed.
    MapFailed { size: u64 },
    /// The file's full contents were read.
    Loaded { size: u64, data: Vec<u8> },
}

/// The best-effort size recorded for an outcome.
pub open spec fn outcome_size(o: FileOutcome) -> u64 {
    match o {
        FileOutcome::StatFailed => 0,
        FileOutcome::Small { size } => size,
        FileOutcome::MapFailed { size } => size,
        FileOutcome::Loaded { size, data } => size,
    }
}

/// The bytes available for hashing; empty unless the file was loaded.
pub open spec fn outcome_data(o: FileOutcome) -> Seq<u8> {
    match o {
        FileOutcome::Loaded { size, data } => data@,
        _ => Seq::<u8>::empty(),
    }
}

/// Whether this outcome leads to hashing: contents are present and the
/// size reaches the minimum-size threshold.
pub open spec fn hashes(o: FileOutcome, min_bytes: u64) -> bool {
    match o {
        FileOutcome::Loaded { size, data } => size >= min_bytes,
        _ => false,
    }
}

/// The fingerprint a report carries for an outcome: the digest of the
/// loaded bytes when hashing happens, absent otherwise.
pub open spec fn fingerprint_spec(o: FileOutcome, min_bytes: u64) -> Option<Seq<char>> {
    if hashes(o, min_bytes) {
        Some(blake3_hex_spec(outcome_data(o)))
    } else {
        None
    }
}

/// The device checksum a report carries: the supplied value when hashing
/// happens, absent otherwise.
pub open spec fn gpu_value_spec(o: FileOutcome, min_bytes: u64, gpu: Option<u64>) -> Option<u64> {
    if hashes(o, min_bytes) {
        gpu
    } else {
        None
    }
}

/// The elapsed time a report carries: zero for the fallback cases, the
/// measured time otherwise.
pub open spec fn elapsed_spec(o: FileOutcome, elapsed_ms: u128) -> u128 {
    match o {
        FileOutcome::StatFailed => 0,
        FileOutcome::MapFailed { size } => 0,
        _ => elapsed_ms,
    }
}

/// Build the report for a file whose contents are at hand and whose size
/// reached the threshold: the fingerprint of the bytes, the supplied
/// device checksum, and the measured time.
pub fn hashed_report(
    path: String,
    size: u64,
    data: &[u8],
    xor64_gpu: Option<u64>,
    elapsed_ms: u128,
) -> (r: FileReport)
    ensures
        r.path@ == path@,
        r.size == size,
        fingerprint_view(r.blake3_hex) == Some(blake3_hex_spec(data@)),
        r.xor64_gpu == xor64_gpu,
        r.elapsed_ms == elapsed_ms,
{
    let hex = blake3_hex(data);
    FileReport { path, size, blake3_hex: Some(hex), xor64_gpu, elapsed_ms }
}

/// Build the single report for one file from what the I/O edge observed.
/// Every outcome yields a report: failures degrade to a fallback report
/// with no fingerprint and no device checksum.
pub fn report_for(
    path: String,
    outcome: &FileOutcome,
    min_bytes: u64,
    xor64_gpu: Option<u64>,
    elapsed_ms: u128,
) -> (r: FileReport)
    ensures
        r.path@ == path@,
        r.size == outcome_size(*outcome),
        fingerprint_view(r.blake3_hex) == fingerprint_spec(*outcome, min_bytes),
        r.xor64_gpu == gpu_value_spec(*outcome, min_bytes, xor64_gpu),
        r.elapsed_ms == elapsed_spec(*outcome, elapsed_ms),
{
    match outcome {
        FileOutcome::StatFailed => FileReport {
            path,
            size: 0,
            blake3_hex: None,
            xor64_gpu: None,
            elapsed_ms: 0,
        },
        FileOutcome::Small { size } => FileReport {
            path,
            size: *size,
            blake3_hex: None,
            xor64_gpu: None,
            elapsed_ms,
        },
        FileOutcome::MapFailed { size } => FileReport {
            path,
            size: *size,
            blake3_hex: None,
            xor64_gpu: None,
            elapsed_ms: 0,
        },
        FileOutcome::Loaded { size, data } => {
            if *size >= min_bytes {
                hashed_report(path, *size, data.as_slice(), xor64_gpu, elapsed_ms)
            } else {
                FileReport {
                    path,
                    size: *size,
                    blake3_hex: None,
                    xor64_gpu: None,
                    elapsed_ms,
                }
            }
        },
    }
}

/// Below the minimum-size threshold a report never carries a fingerprint,
/// whatever else happened to the file.
pub proof fn lemma_small_files_unhashed(o: FileOutcome, min_bytes: u64)
    requires
        outcome_size(o) < min_bytes,
    ensures
        fingerprint_spec(o, min_bytes) is None,
{
}

/// What the serial pipeline promises of the report at one position: path
/// and size echo the input, the fingerprint is the digest of the loaded
/// bytes exactly when hashing happens, and the device checksum is the word
/// checksum of those bytes exactly when it was requested.
pub open spec fn run_report_ok(
    r: FileReport,
    path: Seq<char>,
    o: FileOutcome,
    min_bytes: u64,
    use_gpu: bool,
) -> bool {
    &&& r.path@ == path
    &&& r.size == outcome_size(o)
    &&& fingerprint_view(r.blake3_hex) == fingerprint_spec(o, min_bytes)
    &&& r.xor64_gpu == (if use_gpu && hashes(o, min_bytes) {
        Some(gpu_checksum(outcome_data(o)))
    } else {
        Option::<u64>::None
    })
    &&& r.elapsed_ms == 0
}

/// Drive the per-file step over a whole scan: every discovered path yields
/// exactly one report, each determined by that file's own outcome alone.
pub fn collect_reports(
    inputs: &Vec<(String, FileOutcome)>,
    min_bytes: u64,
    use_gpu: bool,
    lanes: usize,
) -> (rs: Vec<FileReport>)
    requires
        1 <= lanes,
    ensures
        rs@.len() == inputs@.len(),
        forall|i: int|
            0 <= i < inputs@.len() ==> run_report_ok(
                rs@[i],
                inputs@[i].0@,
                inputs@[i].1,
                min_bytes,
                use_gpu,
            ),
{
    let mut rs: Vec<FileReport> = Vec::new();
    let mut i: usize = 0;
    while i < inputs.len()
        invariant
            1 <= lanes,
            i <= inputs@.len(),
            rs@.len() == i as int,
            forall|t: int|
                0 <= t < i ==> run_report_ok(
                    rs@[t],
                    inputs@[t].0@,
                    inputs@[t].1,
                    min_bytes,
                    use_gpu,
                ),
        decreases inputs@.len() - i,
    {
        let (p, o) = &inputs[i];
        let path = p.clone();
        let gpu: Option<u64> = match o {
            FileOutcome::Loaded { size, data } => {
                if use_gpu && should_fingerprint(*size, min_bytes) {
                    Some(xor64_lanes(data.as_slice(), lanes))
                } else {
                    None
                }
            },
            _ => None,
        };
        let r = report_for(path, o, min_bytes, gpu, 0);
        rs.push(r);
        i = i + 1;
    }
    rs
}

/// Fault isolation: each report is fixed by that file's own path and
/// outcome alone, so replacing one file's outcome — forcing a failure on
/// it, say — leaves what the pipeline promises of every other report
/// untouched.
pub proof fn lemma_fault_isolation(
    xs: Seq<(String, FileOutcome)>,
    ys: Seq<(String, FileOutcome)>,
    j: int,
    r: FileReport,
    i: int,
    min_bytes: u64,
    use_gpu: bool,
)
    requires
        xs.len() == ys.len(),
        forall|t: int| 0 <= t < xs.len() && t != j ==> xs[t] == ys[t],
        0 <= i < xs.len(),
        i != j,
    ensures
        run_report_ok(r, xs[i].0@, xs[i].1, min_bytes, use_gpu) == run_report_ok(
            r,
            ys[i].0@,
            ys[i].1,
            min_bytes,
            use_gpu,
        ),
{
}

} // verus!
