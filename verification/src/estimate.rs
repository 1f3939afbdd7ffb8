//! Progress estimation: the completion fraction is inferred from measured
//! byte counts, since the tools being driven report no progress of their own.
//! Fractions are fixed-point on the scale of `FRACTION_FULL`; each phase owns
//! a disjoint band of the scale, so the derived values never leave it.

use vstd::prelude::*;
use vstd::arithmetic::div_mod::lemma_div_is_ordered;
use vstd::arithmetic::div_mod::lemma_div_multiples_vanish;
use vstd::arithmetic::div_mod::lemma_div_pos_is_pos;
use vstd::arithmetic::mul::lemma_mul_inequality;

verus! {

/// Fraction reported when a job begins its destructive work.
pub const START_FRACTION: u32 = 200;

/// Base fraction of the bulk-copy band.
pub const EXTRACT_BASE: u32 = 500;

/// Width of the bulk-copy band.
pub const EXTRACT_SPAN: u32 = 2000;

/// Committed bytes at which the bulk copy counts as full.
pub const EXTRACT_SCALE_BYTES: u64 = 500_000_000;

/// Base fraction of the split band.
pub const SPLIT_BASE: u32 = 2500;

/// Width of the split band.
pub const SPLIT_SPAN: u32 = 5500;

/// Base fraction of the final-flush band.
pub const SYNC_BASE: u32 = 8000;

/// Width of the final-flush band.
pub const SYNC_SPAN: u32 = 1900;

/// Fraction shown once the writeback backlog is near zero.
pub const NEAR_DONE_FRACTION: u32 = 9900;

/// Writeback backlog under which the flush counts as complete; waiting for
/// exactly zero could loop forever beside unrelated background writers.
pub const FLUSH_DONE_BYTES: u64 = 10 * 1024 * 1024;

/// Payload size assumed when the payload cannot be measured.
pub const DEFAULT_PAYLOAD_BYTES: u64 = 4_000_000_000;

/// Size of one split part, in MiB.
pub const SPLIT_CHUNK_MIB: u64 = 3400;

/// The FAT32 single-file limit that each split part must stay strictly
/// under.
pub const FAT32_FILE_LIMIT_MIB: u64 = 4096;

/// The smaller of two integers.
pub open spec fn spec_min(a: int, b: int) -> int {
    if a < b {
        a
    } else {
        b
    }
}

/// The bulk-copy fraction for a count of committed bytes.
pub open spec fn spec_extract_fraction(committed: nat) -> int {
    EXTRACT_BASE + spec_min(committed as int, EXTRACT_SCALE_BYTES as int) * EXTRACT_SPAN / (
    EXTRACT_SCALE_BYTES as int)
}

/// The bulk-copy fraction; it stays within the bulk-copy band.
pub fn extract_fraction(committed_bytes: u64) -> (r: u32)
    ensures
        r == spec_extract_fraction(committed_bytes as nat),
        EXTRACT_BASE <= r <= EXTRACT_BASE + EXTRACT_SPAN,
{
    let capped: u64 = if committed_bytes < EXTRACT_SCALE_BYTES {
        committed_bytes
    } else {
        EXTRACT_SCALE_BYTES
    };
    proof {
        lemma_mul_inequality(capped as int, EXTRACT_SCALE_BYTES as int, EXTRACT_SPAN as int);
        lemma_div_is_ordered(
            capped as int * EXTRACT_SPAN as int,
            EXTRACT_SCALE_BYTES as int * EXTRACT_SPAN as int,
            EXTRACT_SCALE_BYTES as int,
        );
        lemma_div_multiples_vanish(EXTRACT_SPAN as int, EXTRACT_SCALE_BYTES as int);
        lemma_div_pos_is_pos(capped as int * EXTRACT_SPAN as int, EXTRACT_SCALE_BYTES as int);
    }
    let scaled: u64 = capped * 2000 / EXTRACT_SCALE_BYTES;
    EXTRACT_BASE + scaled as u32
}

/// The split fraction for a count of bytes written out of the payload's
/// total.
pub open spec fn spec_split_fraction(done: nat, total: nat) -> int
    recommends
        total >= 1,
{
    SPLIT_BASE + spec_min(done as int, total as int) * SPLIT_SPAN / (total as int)
}

/// The split fraction; it stays within the split band.
pub fn split_fraction(done_bytes: u64, total_bytes: u64) -> (r: u32)
    requires
        total_bytes >= 1,
    ensures
        r == spec_split_fraction(done_bytes as nat, total_bytes as nat),
        SPLIT_BASE <= r <= SPLIT_BASE + SPLIT_SPAN,
{
    let capped: u64 = if done_bytes < total_bytes {
        done_bytes
    } else {
        total_bytes
    };
    proof {
        lemma_mul_inequality(capped as int, total_bytes as int, SPLIT_SPAN as int);
        lemma_div_is_ordered(
            capped as int * SPLIT_SPAN as int,
            total_bytes as int * SPLIT_SPAN as int,
            total_bytes as int,
        );
        lemma_div_multiples_vanish(SPLIT_SPAN as int, total_bytes as int);
        lemma_div_pos_is_pos(capped as int * SPLIT_SPAN as int, total_bytes as int);
    }
    let num: u128 = capped as u128 * 5500;
    let scaled: u128 = num / (total_bytes as u128);
    SPLIT_BASE + scaled as u32
}

/// The final-flush fraction for a writeback backlog out of the backlog the
/// flush started with.
pub open spec fn spec_sync_fraction(dirty: nat, initial: nat) -> int
    recommends
        initial >= 1,
{
    SYNC_BASE + (initial - spec_min(dirty as int, initial as int)) * SYNC_SPAN / (initial as int)
}

/// The final-flush fraction; it stays within the final-flush band.
pub fn sync_fraction(dirty_bytes: u64, initial_bytes: u64) -> (r: u32)
    requires
        initial_bytes >= 1,
    ensures
        r == spec_sync_fraction(dirty_bytes as nat, initial_bytes as nat),
        SYNC_BASE <= r <= SYNC_BASE + SYNC_SPAN,
{
    let remaining: u64 = if dirty_bytes < initial_bytes {
        initial_bytes - dirty_bytes
    } else {
        0
    };
    proof {
        lemma_mul_inequality(remaining as int, initial_bytes as int, SYNC_SPAN as int);
        lemma_div_is_ordered(
            remaining as int * SYNC_SPAN as int,
            initial_bytes as int * SYNC_SPAN as int,
            initial_bytes as int,
        );
        lemma_div_multiples_vanish(SYNC_SPAN as int, initial_bytes as int);
        lemma_div_pos_is_pos(remaining as int * SYNC_SPAN as int, initial_bytes as int);
    }
    let num: u128 = remaining as u128 * 1900;
    let scaled: u128 = num / (initial_bytes as u128);
    SYNC_BASE + scaled as u32
}

/// Each split part stays strictly under the FAT32 single-file limit.
pub proof fn lemma_split_chunk_fits_fat32()
    ensures
        SPLIT_CHUNK_MIB < FAT32_FILE_LIMIT_MIB,
{
}

} // verus!
