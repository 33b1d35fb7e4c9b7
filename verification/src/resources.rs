use vstd::prelude::*;

verus! {

/// Bytes in a mebibyte.
pub const BYTES_PER_MB: u64 = 1024 * 1024;

/// A byte count in whole mebibytes, rounded down.
pub fn bytes_to_mb(bytes: u64) -> (mb: u64)
    ensures
        mb == bytes / BYTES_PER_MB,
{
    bytes / BYTES_PER_MB
}

/// Whether a run fits the machine: its memory, in mebibytes, is at most the
/// available memory (in bytes, counted in whole mebibytes), and its CPU
/// cores, counted in whole cores, are at most the machine's limit.
pub fn resources_suffice(required_memory_mb: usize, required_cores: usize, available_memory_bytes: u64, max_cpu: usize) -> (r: bool)
    ensures
        r == (required_memory_mb as int <= available_memory_bytes / BYTES_PER_MB && required_cores <= max_cpu),
{
    let available_mb = bytes_to_mb(available_memory_bytes);
    if required_memory_mb as u64 > available_mb {
        return false;
    }
    if required_cores > max_cpu {
        return false;
    }
    true
}

} // verus!
