use vstd::prelude::*;

verus! {

/// One record per discovered file. Exactly one report exists for every
/// discovered path, whether processing succeeded or fell back on an error.
#[derive(Debug)]
pub struct FileReport {
    /// The file's path, the report's identity.
    pub path: String,
    /// Size in bytes, best effort at discovery time.
    pub size: u64,
    /// Hex-encoded content digest; absent when the file was skipped as too
    /// small or when reading it failed.
    pub blake3_hex: Option<String>,
    /// XOR word-checksum from the device path; absent when that path is
    /// disabled, unavailable, or failed.
    pub xor64_gpu: Option<u64>,
    /// Wall-clock processing time in milliseconds.
    pub elapsed_ms: u128,
}

/// The fingerprint field seen as a sequence of characters.
pub open spec fn fingerprint_view(o: Option<String>) -> Option<Seq<char>> {
    match o {
        Some(s) => Some(s@),
        None => None,
    }
}

} // verus!
