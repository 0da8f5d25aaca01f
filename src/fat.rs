//! Free-space count over sectors of a 16-bit file allocation table.
use vstd::prelude::*;

verus! {

pub const SECTOR_SIZE: usize = 512;
/// Table entries per sector: two bytes each.
pub const ENTRIES_PER_SECTOR: usize = 256;
/// Bytes per cluster.
pub const CLUSTER_SIZE: u64 = 4096;

/// Entry `i` of a sector, stored little-endian.
pub open spec fn fat_entry(sector: Seq<u8>, i: int) -> int {
    sector[2 * i] + 256 * sector[2 * i + 1]
}

/// Number of entries among the first `n` of a sector that are zero (free).
pub open spec fn free_entries(sector: Seq<u8>, n: int) -> int
    decreases n,
{
    if n <= 0 {
        0
    } else {
        free_entries(sector, n - 1) + if fat_entry(sector, n - 1) == 0 {
            1int
        } else {
            0
        }
    }
}

proof fn lemma_free_entries_bound(sector: Seq<u8>, n: int)
    requires
        n >= 0,
    ensures
        0 <= free_entries(sector, n) <= n,
    decreases n,
{
    if n > 0 {
        lemma_free_entries_bound(sector, n - 1);
    }
}

/// Counts the free entries of one table sector.
pub fn free_entries_in_sector(sector: &[u8; SECTOR_SIZE]) -> (count: u64)
    ensures
        count == free_entries(sector@, ENTRIES_PER_SECTOR as int),
{
    let mut count: u64 = 0;
    let mut i: usize = 0;
    while i < ENTRIES_PER_SECTOR
        invariant
            i <= ENTRIES_PER_SECTOR,
            sector@.len() == SECTOR_SIZE,
            count == free_entries(sector@, i as int),
        decreases ENTRIES_PER_SECTOR - i,
    {
        proof {
            lemma_free_entries_bound(sector@, i as int);
        }
        let entry: u16 = sector[2 * i] as u16 + 256 * (sector[2 * i + 1] as u16);
        if entry == 0 {
            count = count + 1;
        }
        i = i + 1;
    }
    count
}

/// Bytes of free space for a number of free clusters.
pub fn free_space_bytes(free_clusters: u64) -> (bytes: u64)
    requires
        free_clusters * CLUSTER_SIZE <= u64::MAX,
    ensures
        bytes == free_clusters * CLUSTER_SIZE,
{
    free_clusters * CLUSTER_SIZE
}

} // verus!
