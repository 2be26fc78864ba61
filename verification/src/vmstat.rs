//! Decoder for the virtual-memory statistics of `/proc/vmstat`.
//!
//! Each line carries one named counter. Known names set their field;
//! unknown names are skipped, so newer kernels do not break the decoding
//! of known lines. Counters that not every kernel reports are decoded as
//! explicitly absent when their lines are missing. A known line whose
//! value field is missing counts as zero, as the file format has always
//! been read; a known line whose present value is not numeric fails the
//! whole decode with a typed error. One oddity is kept for
//! compatibility with this library's long-standing table: a
//! `pgalloc_movable` line is recorded in the `nr_file_pages` field, which
//! wins over a `nr_file_pages` line standing above it, and the
//! `pgalloc_movable` field itself always stays zero.

use crate::scan::{
    chars_vec, lines_of, parse_u64_dec, split_lines, token_eq, tokenize, tokens_of, dec_u64_of,
    DecodeErr,
};
use crate::{error_for, reflects, ProcSysParserError};
use vstd::prelude::*;
use vstd::string::StringExecFns;

verus! {

/// The decoded `/proc/vmstat` document.
#[derive(Debug, PartialEq, Default)]
pub struct ProcVmStat {
    pub nr_free_pages: u64,
    pub nr_zone_inactive_anon: u64,
    pub nr_zone_active_anon: u64,
    pub nr_zone_inactive_file: u64,
    pub nr_zone_active_file: u64,
    pub nr_zone_unevictable: u64,
    pub nr_zone_write_pending: u64,
    pub nr_mlock: u64,
    pub nr_bounce: u64,
    pub nr_zspages: u64,
    pub nr_free_cma: u64,
    pub numa_hit: u64,
    pub numa_miss: u64,
    pub numa_foreign: u64,
    pub numa_interleave: u64,
    pub numa_local: u64,
    pub numa_other: u64,
    pub nr_inactive_anon: u64,
    pub nr_active_anon: u64,
    pub nr_inactive_file: u64,
    pub nr_active_file: u64,
    pub nr_unevictable: u64,
    pub nr_slab_reclaimable: u64,
    pub nr_slab_unreclaimable: u64,
    pub nr_isolated_anon: u64,
    pub nr_isolated_file: u64,
    pub workingset_nodes: Option<u64>,
    pub workingset_refault_anon: Option<u64>,
    pub workingset_refault_file: Option<u64>,
    pub workingset_activate_anon: Option<u64>,
    pub workingset_activate_file: Option<u64>,
    pub workingset_restore_anon: Option<u64>,
    pub workingset_restore_file: Option<u64>,
    pub workingset_nodereclaim: u64,
    pub nr_anon_pages: u64,
    pub nr_mapped: u64,
    pub nr_file_pages: u64,
    pub nr_dirty: u64,
    pub nr_writeback: u64,
    pub nr_writeback_temp: u64,
    pub nr_shmem: u64,
    pub nr_shmem_hugepages: u64,
    pub nr_shmem_pmdmapped: u64,
    pub nr_file_hugepages: Option<u64>,
    pub nr_file_pmdmapped: Option<u64>,
    pub nr_anon_transparent_hugepages: u64,
    pub nr_vmscan_write: u64,
    pub nr_vmscan_immediate_reclaim: u64,
    pub nr_dirtied: u64,
    pub nr_written: u64,
    pub nr_throttled_written: Option<u64>,
    pub nr_kernel_misc_reclaimable: Option<u64>,
    pub nr_foll_pin_acquired: Option<u64>,
    pub nr_foll_pin_released: Option<u64>,
    pub nr_kernel_stack: u64,
    pub nr_shadow_call_stack: Option<u64>,
    pub nr_page_table_pages: u64,
    pub nr_sec_page_table_pages: Option<u64>,
    pub nr_swapcached: Option<u64>,
    pub pgpromote_success: Option<u64>,
    pub pgpromote_candidate: Option<u64>,
    pub nr_dirty_threshold: u64,
    pub nr_dirty_background_threshold: u64,
    pub pgpgin: u64,
    pub pgpgout: u64,
    pub pswpin: u64,
    pub pswpout: u64,
    pub pgalloc_dma: u64,
    pub pgalloc_dma32: u64,
    pub pgalloc_normal: u64,
    pub pgalloc_movable: u64,
    pub pgalloc_device: Option<u64>,
    pub allocstall_dma: u64,
    pub allocstall_dma32: u64,
    pub allocstall_normal: u64,
    pub allocstall_movable: u64,
    pub allocstall_device: Option<u64>,
    pub pgskip_dma: u64,
    pub pgskip_dma32: u64,
    pub pgskip_normal: u64,
    pub pgskip_movable: u64,
    pub pgskip_device: Option<u64>,
    pub pgfree: u64,
    pub pgactivate: u64,
    pub pgdeactivate: u64,
    pub pglazyfree: u64,
    pub pglazyfreed: u64,
    pub pgfault: u64,
    pub pgmajfault: u64,
    pub pgrefill: u64,
    pub pgreuse: Option<u64>,
    pub pgsteal_kswapd: u64,
    pub pgsteal_direct: u64,
    pub pgsteal_khugepaged: Option<u64>,
    pub pgdemote_kswapd: Option<u64>,
    pub pgdemote_direct: Option<u64>,
    pub pgdemote_khugepaged: Option<u64>,
    pub pgscan_kswapd: u64,
    pub pgscan_direct: u64,
    pub pgscan_khugepaged: Option<u64>,
    pub pgscan_direct_throttle: u64,
    pub pgscan_anon: Option<u64>,
    pub pgscan_file: Option<u64>,
    pub pgsteal_anon: Option<u64>,
    pub pgsteal_file: Option<u64>,
    pub zone_reclaim_failed: u64,
    pub pginodesteal: u64,
    pub slabs_scanned: Option<u64>,
    pub kswapd_inodesteal: u64,
    pub kswapd_low_wmark_hit_quickly: u64,
    pub kswapd_high_wmark_hit_quickly: u64,
    pub pageoutrun: u64,
    pub pgrotated: u64,
    pub drop_pagecache: u64,
    pub drop_slab: u64,
    pub oom_kill: u64,
    pub numa_pte_updates: u64,
    pub numa_huge_pte_updates: u64,
    pub numa_hint_faults: u64,
    pub numa_hint_faults_local: u64,
    pub numa_pages_migrated: u64,
    pub pgmigrate_success: u64,
    pub pgmigrate_fail: u64,
    pub thp_migration_success: Option<u64>,
    pub thp_migration_fail: Option<u64>,
    pub thp_migration_split: Option<u64>,
    pub compact_migrate_scanned: u64,
    pub compact_free_scanned: u64,
    pub compact_isolated: u64,
    pub compact_stall: u64,
    pub compact_fail: u64,
    pub compact_success: u64,
    pub compact_daemon_wake: u64,
    pub compact_daemon_migrate_scanned: u64,
    pub compact_daemon_free_scanned: u64,
    pub htlb_buddy_alloc_success: u64,
    pub htlb_buddy_alloc_fail: u64,
    pub cma_alloc_success: Option<u64>,
    pub cma_alloc_fail: Option<u64>,
    pub unevictable_pgs_culled: u64,
    pub unevictable_pgs_scanned: u64,
    pub unevictable_pgs_rescued: u64,
    pub unevictable_pgs_mlocked: u64,
    pub unevictable_pgs_munlocked: u64,
    pub unevictable_pgs_cleared: u64,
    pub unevictable_pgs_stranded: u64,
    pub thp_fault_alloc: u64,
    pub thp_fault_fallback: u64,
    pub thp_fault_fallback_charge: Option<u64>,
    pub thp_collapse_alloc: u64,
    pub thp_collapse_alloc_failed: u64,
    pub thp_file_alloc: u64,
    pub thp_file_fallback: Option<u64>,
    pub thp_file_fallback_charge: Option<u64>,
    pub thp_file_mapped: u64,
    pub thp_split_page: u64,
    pub thp_split_page_failed: u64,
    pub thp_deferred_split_page: u64,
    pub thp_split_pmd: u64,
    pub thp_scan_exceed_none_pte: Option<u64>,
    pub thp_scan_exceed_swap_pte: Option<u64>,
    pub thp_scan_exceed_share_pte: Option<u64>,
    pub thp_zero_page_alloc: u64,
    pub thp_zero_page_alloc_failed: u64,
    pub thp_swpout: u64,
    pub thp_swpout_fallback: u64,
    pub balloon_inflate: u64,
    pub balloon_deflate: u64,
    pub balloon_migrate: u64,
    pub swap_ra: u64,
    pub swap_ra_hit: u64,
    pub ksm_swpin_copy: Option<u64>,
    pub cow_ksm: Option<u64>,
    pub zswpin: Option<u64>,
    pub zswpout: Option<u64>,
    pub nr_unstable: u64,
}

/// The document every decode starts from: all counters zero, the optional
/// counters absent.
pub open spec fn init_vmstat() -> ProcVmStat {
    ProcVmStat {
        nr_free_pages: 0,
        nr_zone_inactive_anon: 0,
        nr_zone_active_anon: 0,
        nr_zone_inactive_file: 0,
        nr_zone_active_file: 0,
        nr_zone_unevictable: 0,
        nr_zone_write_pending: 0,
        nr_mlock: 0,
        nr_bounce: 0,
        nr_zspages: 0,
        nr_free_cma: 0,
        numa_hit: 0,
        numa_miss: 0,
        numa_foreign: 0,
        numa_interleave: 0,
        numa_local: 0,
        numa_other: 0,
        nr_inactive_anon: 0,
        nr_active_anon: 0,
        nr_inactive_file: 0,
        nr_active_file: 0,
        nr_unevictable: 0,
        nr_slab_reclaimable: 0,
        nr_slab_unreclaimable: 0,
        nr_isolated_anon: 0,
        nr_isolated_file: 0,
        workingset_nodes: None,
        workingset_refault_anon: None,
        workingset_refault_file: None,
        workingset_activate_anon: None,
        workingset_activate_file: None,
        workingset_restore_anon: None,
        workingset_restore_file: None,
        workingset_nodereclaim: 0,
        nr_anon_pages: 0,
        nr_mapped: 0,
        nr_file_pages: 0,
        nr_dirty: 0,
        nr_writeback: 0,
        nr_writeback_temp: 0,
        nr_shmem: 0,
        nr_shmem_hugepages: 0,
        nr_shmem_pmdmapped: 0,
        nr_file_hugepages: None,
        nr_file_pmdmapped: None,
        nr_anon_transparent_hugepages: 0,
        nr_vmscan_write: 0,
        nr_vmscan_immediate_reclaim: 0,
        nr_dirtied: 0,
        nr_written: 0,
        nr_throttled_written: None,
        nr_kernel_misc_reclaimable: None,
        nr_foll_pin_acquired: None,
        nr_foll_pin_released: None,
        nr_kernel_stack: 0,
        nr_shadow_call_stack: None,
        nr_page_table_pages: 0,
        nr_sec_page_table_pages: None,
        nr_swapcached: None,
        pgpromote_success: None,
        pgpromote_candidate: None,
        nr_dirty_threshold: 0,
        nr_dirty_background_threshold: 0,
        pgpgin: 0,
        pgpgout: 0,
        pswpin: 0,
        pswpout: 0,
        pgalloc_dma: 0,
        pgalloc_dma32: 0,
        pgalloc_normal: 0,
        pgalloc_movable: 0,
        pgalloc_device: None,
        allocstall_dma: 0,
        allocstall_dma32: 0,
        allocstall_normal: 0,
        allocstall_movable: 0,
        allocstall_device: None,
        pgskip_dma: 0,
        pgskip_dma32: 0,
        pgskip_normal: 0,
        pgskip_movable: 0,
        pgskip_device: None,
        pgfree: 0,
        pgactivate: 0,
        pgdeactivate: 0,
        pglazyfree: 0,
        pglazyfreed: 0,
        pgfault: 0,
        pgmajfault: 0,
        pgrefill: 0,
        pgreuse: None,
        pgsteal_kswapd: 0,
        pgsteal_direct: 0,
        pgsteal_khugepaged: None,
        pgdemote_kswapd: None,
        pgdemote_direct: None,
        pgdemote_khugepaged: None,
        pgscan_kswapd: 0,
        pgscan_direct: 0,
        pgscan_khugepaged: None,
        pgscan_direct_throttle: 0,
        pgscan_anon: None,
        pgscan_file: None,
        pgsteal_anon: None,
        pgsteal_file: None,
        zone_reclaim_failed: 0,
        pginodesteal: 0,
        slabs_scanned: None,
        kswapd_inodesteal: 0,
        kswapd_low_wmark_hit_quickly: 0,
        kswapd_high_wmark_hit_quickly: 0,
        pageoutrun: 0,
        pgrotated: 0,
        drop_pagecache: 0,
        drop_slab: 0,
        oom_kill: 0,
        numa_pte_updates: 0,
        numa_huge_pte_updates: 0,
        numa_hint_faults: 0,
        numa_hint_faults_local: 0,
        numa_pages_migrated: 0,
        pgmigrate_success: 0,
        pgmigrate_fail: 0,
        thp_migration_success: None,
        thp_migration_fail: None,
        thp_migration_split: None,
        compact_migrate_scanned: 0,
        compact_free_scanned: 0,
        compact_isolated: 0,
        compact_stall: 0,
        compact_fail: 0,
        compact_success: 0,
        compact_daemon_wake: 0,
        compact_daemon_migrate_scanned: 0,
        compact_daemon_free_scanned: 0,
        htlb_buddy_alloc_success: 0,
        htlb_buddy_alloc_fail: 0,
        cma_alloc_success: None,
        cma_alloc_fail: None,
        unevictable_pgs_culled: 0,
        unevictable_pgs_scanned: 0,
        unevictable_pgs_rescued: 0,
        unevictable_pgs_mlocked: 0,
        unevictable_pgs_munlocked: 0,
        unevictable_pgs_cleared: 0,
        unevictable_pgs_stranded: 0,
        thp_fault_alloc: 0,
        thp_fault_fallback: 0,
        thp_fault_fallback_charge: None,
        thp_collapse_alloc: 0,
        thp_collapse_alloc_failed: 0,
        thp_file_alloc: 0,
        thp_file_fallback: None,
        thp_file_fallback_charge: None,
        thp_file_mapped: 0,
        thp_split_page: 0,
        thp_split_page_failed: 0,
        thp_deferred_split_page: 0,
        thp_split_pmd: 0,
        thp_scan_exceed_none_pte: None,
        thp_scan_exceed_swap_pte: None,
        thp_scan_exceed_share_pte: None,
        thp_zero_page_alloc: 0,
        thp_zero_page_alloc_failed: 0,
        thp_swpout: 0,
        thp_swpout_fallback: 0,
        balloon_inflate: 0,
        balloon_deflate: 0,
        balloon_migrate: 0,
        swap_ra: 0,
        swap_ra_hit: 0,
        ksm_swpin_copy: None,
        cow_ksm: None,
        zswpin: None,
        zswpout: None,
        nr_unstable: 0,
    }
}

/// The value of a known line: its second field as a decimal integer, zero
/// when the line carries no second field at all. A second field that is
/// not numeric fails.
pub open spec fn vmstat_field_of(ts: Seq<Seq<char>>) -> Result<u64, DecodeErr> {
    if ts.len() < 2 {
        Ok(0)
    } else {
        match dec_u64_of(ts[1]) {
            Some(v) => Ok(v),
            None => Err(DecodeErr::NotANumber),
        }
    }
}

/// Decode the value of a known line, as [`vmstat_field_of`] says.
fn parse_vmstat_field(ts: &Vec<Vec<char>>) -> (r: Result<u64, DecodeErr>)
    ensures
        r == vmstat_field_of(ts.deep_view()),
{
    if ts.len() < 2 {
        return Ok(0);
    }
    proof {
        assert(ts.deep_view()[1] =~= ts@[1]@);
    }
    match parse_u64_dec(ts[1].as_slice()) {
        Some(v) => Ok(v),
        None => Err(DecodeErr::NotANumber),
    }
}

#[verifier::opaque]
pub open spec fn vmstat_arms_1(st: ProcVmStat, ts: Seq<Seq<char>>) -> Result<
    ProcVmStat,
    DecodeErr,
> {
    if ts[0] == "nr_free_pages"@ {
        match vmstat_field_of(ts) {
            Ok(v) => Ok(ProcVmStat { nr_free_pages: v, ..st }),
            Err(e) => Err(e),
        }
    } else if ts[0] == "nr_zone_inactive_anon"@ {
        match vmstat_field_of(ts) {
            Ok(v) => Ok(ProcVmStat { nr_zone_inactive_anon: v, ..st }),
            Err(e) => Err(e),
        }
    } else if ts[0] == "nr_zone_active_anon"@ {
        match vmstat_field_of(ts) {
            Ok(v) => Ok(ProcVmStat { nr_zone_active_anon: v, ..st }),
            Err(e) => Err(e),
        }
    } else if ts[0] == "nr_zone_inactive_file"@ {
        match vmstat_field_of(ts) {
            Ok(v) => Ok(ProcVmStat { nr_zone_inactive_file: v, ..st }),
            Err(e) => Err(e),
        }
    } else {
        vmstat_arms_2(st, ts)
    }
}

#[verifier::opaque]
pub open spec fn vmstat_arms_2(st: ProcVmStat, ts: Seq<Seq<char>>) -> Result<
    ProcVmStat,
    DecodeErr,
> {
    if ts[0] == "nr_zone_active_file"@ {
        match vmstat_field_of(ts) {
            Ok(v) => Ok(ProcVmStat { nr_zone_active_file: v, ..st }),
            Err(e) => Err(e),
        }
    } else if ts[0] == "nr_zone_unevictable"@ {
        match vmstat_field_of(ts) {
            Ok(v) => Ok(ProcVmStat { nr_zone_unevictable: v, ..st }),
            Err(e) => Err(e),
        }
    } else if ts[0] == "nr_zone_write_pending"@ {
        match vmstat_field_of(ts) {
            Ok(v) => Ok(ProcVmStat { nr_zone_write_pending: v, ..st }),
            Err(e) => Err(e),
        }
    } else if ts[0] == "nr_mlock"@ {
        match vmstat_field_of(ts) {
            Ok(v) => Ok(ProcVmStat { nr_mlock: v, ..st }),
            Err(e) => Err(e),
        }
    } else {
        vmstat_arms_3(st, ts)
    }
}

#[verifier::opaque]
pub open spec fn vmstat_arms_3(st: ProcVmStat, ts: Seq<Seq<char>>) -> Result<
    ProcVmStat,
    DecodeErr,
> {
    if ts[0] == "nr_bounce"@ {
        match vmstat_field_of(ts) {
            Ok(v) => Ok(ProcVmStat { nr_bounce: v, ..st }),
            Err(e) => Err(e),
        }
    } else if ts[0] == "nr_zspages"@ {
        match vmstat_field_of(ts) {
            Ok(v) => Ok(ProcVmStat { nr_zspages: v, ..st }),
            Err(e) => Err(e),
        }
    } else if ts[0] == "nr_free_cma"@ {
        match vmstat_field_of(ts) {
            Ok(v) => Ok(ProcVmStat { nr_free_cma: v, ..st }),
            Err(e) => Err(e),
        }
    } else if ts[0] == "numa_hit"@ {
        match vmstat_field_of(ts) {
            Ok(v) => Ok(ProcVmStat { numa_hit: v, ..st }),
            Err(e) => Err(e),
        }
    } else {
        vmstat_arms_4(st, ts)
    }
}

#[verifier::opaque]
pub open spec fn vmstat_arms_4(st: ProcVmStat, ts: Seq<Seq<char>>) -> Result<
    ProcVmStat,
    DecodeErr,
> {
    if ts[0] == "numa_miss"@ {
        match vmstat_field_of(ts) {
            Ok(v) => Ok(ProcVmStat { numa_miss: v, ..st }),
            Err(e) => Err(e),
        }
    } else if ts[0] == "numa_foreign"@ {
        match vmstat_field_of(ts) {
            Ok(v) => Ok(ProcVmStat { numa_foreign: v, ..st }),
            Err(e) => Err(e),
        }
    } else if ts[0] == "numa_interleave"@ {
        match vmstat_field_of(ts) {
            Ok(v) => Ok(ProcVmStat { numa_interleave: v, ..st }),
            Err(e) => Err(e),
        }
    } else if ts[0] == "numa_local"@ {
        match vmstat_field_of(ts) {
            Ok(v) => Ok(ProcVmStat { numa_local: v, ..st }),
            Err(e) => Err(e),
        }
    } else {
        vmstat_arms_5(st, ts)
    }
}

#[verifier::opaque]
pub open spec fn vmstat_arms_5(st: ProcVmStat, ts: Seq<Seq<char>>) -> Result<
    ProcVmStat,
    DecodeErr,
> {
    if ts[0] == "numa_other"@ {
        match vmstat_field_of(ts) {
            Ok(v) => Ok(ProcVmStat { numa_other: v, ..st }),
            Err(e) => Err(e),
        }
    } else if ts[0] == "nr_inactive_anon"@ {
        match vmstat_field_of(ts) {
            Ok(v) => Ok(ProcVmStat { nr_inactive_anon: v, ..st }),
            Err(e) => Err(e),
        }
    } else if ts[0] == "nr_active_anon"@ {
        match vmstat_field_of(ts) {
            Ok(v) => Ok(ProcVmStat { nr_active_anon: v, ..st }),
            Err(e) => Err(e),
        }
    } else if ts[0] == "nr_inactive_file"@ {
        match vmstat_field_of(ts) {
            Ok(v) => Ok(ProcVmStat { nr_inactive_file: v, ..st }),
            Err(e) => Err(e),
        }
    } else {
        vmstat_arms_6(st, ts)
    }
}

#[verifier::opaque]
pub open spec fn vmstat_arms_6(st: ProcVmStat, ts: Seq<Seq<char>>) -> Result<
    ProcVmStat,
    DecodeErr,
> {
    if ts[0] == "nr_active_file"@ {
        match vmstat_field_of(ts) {
            Ok(v) => Ok(ProcVmStat { nr_active_file: v, ..st }),
            Err(e) => Err(e),
        }
    } else if ts[0] == "nr_unevictable"@ {
        match vmstat_field_of(ts) {
            Ok(v) => Ok(ProcVmStat { nr_unevictable: v, ..st }),
            Err(e) => Err(e),
        }
    } else if ts[0] == "nr_slab_reclaimable"@ {
        match vmstat_field_of(ts) {
            Ok(v) => Ok(ProcVmStat { nr_slab_reclaimable: v, ..st }),
            Err(e) => Err(e),
        }
    } else if ts[0] == "nr_slab_unreclaimable"@ {
        match vmstat_field_of(ts) {
            Ok(v) => Ok(ProcVmStat { nr_slab_unreclaimable: v, ..st }),
            Err(e) => Err(e),
        }
    } else {
        vmstat_arms_7(st, ts)
    }
}

#[verifier::opaque]
pub open spec fn vmstat_arms_7(st: ProcVmStat, ts: Seq<Seq<char>>) -> Result<
    ProcVmStat,
    DecodeErr,
> {
    if ts[0] == "nr_isolated_anon"@ {
        match vmstat_field_of(ts) {
            Ok(v) => Ok(ProcVmStat { nr_isolated_anon: v, ..st }),
            Err(e) => Err(e),
        }
    } else if ts[0] == "nr_isolated_file"@ {
        match vmstat_field_of(ts) {
            Ok(v) => Ok(ProcVmStat { nr_isolated_file: v, ..st }),
            Err(e) => Err(e),
        }
    } else if ts[0] == "workingset_nodes"@ {
        match vmstat_field_of(ts) {
            Ok(v) => Ok(ProcVmStat { workingset_nodes: Some(v), ..st }),
            Err(e) => Err(e),
        }
    } else if ts[0] == "workingset_refault_anon"@ {
        match vmstat_field_of(ts) {
            Ok(v) => Ok(ProcVmStat { workingset_refault_anon: Some(v), ..st }),
            Err(e) => Err(e),
        }
    } else {
        vmstat_arms_8(st, ts)
    }
}

#[verifier::opaque]
pub open spec fn vmstat_arms_8(st: ProcVmStat, ts: Seq<Seq<char>>) -> Result<
    ProcVmStat,
    DecodeErr,
> {
    if ts[0] == "workingset_refault_file"@ {
        match vmstat_field_of(ts) {
            Ok(v) => Ok(ProcVmStat { workingset_refault_file: Some(v), ..st }),
            Err(e) => Err(e),
        }
    } else if ts[0] == "workingset_activate_anon"@ {
        match vmstat_field_of(ts) {
            Ok(v) => Ok(ProcVmStat { workingset_activate_anon: Some(v), ..st }),
            Err(e) => Err(e),
        }
    } else if ts[0] == "workingset_activate_file"@ {
        match vmstat_field_of(ts) {
            Ok(v) => Ok(ProcVmStat { workingset_activate_file: Some(v), ..st }),
            Err(e) => Err(e),
        }
    } else if ts[0] == "workingset_restore_file"@ {
        match vmstat_field_of(ts) {
            Ok(v) => Ok(ProcVmStat { workingset_restore_file: Some(v), ..st }),
            Err(e) => Err(e),
        }
    } else {
        vmstat_arms_9(st, ts)
    }
}

#[verifier::opaque]
pub open spec fn vmstat_arms_9(st: ProcVmStat, ts: Seq<Seq<char>>) -> Result<
    ProcVmStat,
    DecodeErr,
> {
    if ts[0] == "workingset_restore_anon"@ {
        match vmstat_field_of(ts) {
            Ok(v) => Ok(ProcVmStat { workingset_restore_anon: Some(v), ..st }),
            Err(e) => Err(e),
        }
    } else if ts[0] == "workingset_nodereclaim"@ {
        match vmstat_field_of(ts) {
            Ok(v) => Ok(ProcVmStat { workingset_nodereclaim: v, ..st }),
            Err(e) => Err(e),
        }
    } else if ts[0] == "nr_anon_pages"@ {
        match vmstat_field_of(ts) {
            Ok(v) => Ok(ProcVmStat { nr_anon_pages: v, ..st }),
            Err(e) => Err(e),
        }
    } else if ts[0] == "nr_mapped"@ {
        match vmstat_field_of(ts) {
            Ok(v) => Ok(ProcVmStat { nr_mapped: v, ..st }),
            Err(e) => Err(e),
        }
    } else {
        vmstat_arms_10(st, ts)
    }
}

#[verifier::opaque]
pub open spec fn vmstat_arms_10(st: ProcVmStat, ts: Seq<Seq<char>>) -> Result<
    ProcVmStat,
    DecodeErr,
> {
    if ts[0] == "nr_file_pages"@ {
        match vmstat_field_of(ts) {
            Ok(v) => Ok(ProcVmStat { nr_file_pages: v, ..st }),
            Err(e) => Err(e),
        }
    } else if ts[0] == "nr_dirty"@ {
        match vmstat_field_of(ts) {
            Ok(v) => Ok(ProcVmStat { nr_dirty: v, ..st }),
            Err(e) => Err(e),
        }
    } else if ts[0] == "nr_writeback"@ {
        match vmstat_field_of(ts) {
            Ok(v) => Ok(ProcVmStat { nr_writeback: v, ..st }),
            Err(e) => Err(e),
        }
    } else if ts[0] == "nr_writeback_temp"@ {
        match vmstat_field_of(ts) {
            Ok(v) => Ok(ProcVmStat { nr_writeback_temp: v, ..st }),
            Err(e) => Err(e),
        }
    } else {
        vmstat_arms_11(st, ts)
    }
}

#[verifier::opaque]
pub open spec fn vmstat_arms_11(st: ProcVmStat, ts: Seq<Seq<char>>) -> Result<
    ProcVmStat,
    DecodeErr,
> {
    if ts[0] == "nr_shmem"@ {
        match vmstat_field_of(ts) {
            Ok(v) => Ok(ProcVmStat { nr_shmem: v, ..st }),
            Err(e) => Err(e),
        }
    } else if ts[0] == "nr_shmem_hugepages"@ {
        match vmstat_field_of(ts) {
            Ok(v) => Ok(ProcVmStat { nr_shmem_hugepages: v, ..st }),
            Err(e) => Err(e),
        }
    } else if ts[0] == "nr_shmem_pmdmapped"@ {
        match vmstat_field_of(ts) {
            Ok(v) => Ok(ProcVmStat { nr_shmem_pmdmapped: v, ..st }),
            Err(e) => Err(e),
        }
    } else if ts[0] == "nr_file_hugepages"@ {
        match vmstat_field_of(ts) {
            Ok(v) => Ok(ProcVmStat { nr_file_hugepages: Some(v), ..st }),
            Err(e) => Err(e),
        }
    } else {
        vmstat_arms_12(st, ts)
    }
}

#[verifier::opaque]
pub open spec fn vmstat_arms_12(st: ProcVmStat, ts: Seq<Seq<char>>) -> Result<
    ProcVmStat,
    DecodeErr,
> {
    if ts[0] == "nr_file_pmdmapped"@ {
        match vmstat_field_of(ts) {
            Ok(v) => Ok(ProcVmStat { nr_file_pmdmapped: Some(v), ..st }),
            Err(e) => Err(e),
        }
    } else if ts[0] == "nr_anon_transparent_hugepages"@ {
        match vmstat_field_of(ts) {
            Ok(v) => Ok(ProcVmStat { nr_anon_transparent_hugepages: v, ..st }),
            Err(e) => Err(e),
        }
    } else if ts[0] == "nr_vmscan_write"@ {
        match vmstat_field_of(ts) {
            Ok(v) => Ok(ProcVmStat { nr_vmscan_write: v, ..st }),
            Err(e) => Err(e),
        }
    } else if ts[0] == "nr_vmscan_immediate_reclaim"@ {
        match vmstat_field_of(ts) {
            Ok(v) => Ok(ProcVmStat { nr_vmscan_immediate_reclaim: v, ..st }),
            Err(e) => Err(e),
        }
    } else {
        vmstat_arms_13(st, ts)
    }
}

#[verifier::opaque]
pub open spec fn vmstat_arms_13(st: ProcVmStat, ts: Seq<Seq<char>>) -> Result<
    ProcVmStat,
    DecodeErr,
> {
    if ts[0] == "nr_dirtied"@ {
        match vmstat_field_of(ts) {
            Ok(v) => Ok(ProcVmStat { nr_dirtied: v, ..st }),
            Err(e) => Err(e),
        }
    } else if ts[0] == "nr_written"@ {
        match vmstat_field_of(ts) {
            Ok(v) => Ok(ProcVmStat { nr_written: v, ..st }),
            Err(e) => Err(e),
        }
    } else if ts[0] == "nr_throttled_written"@ {
        match vmstat_field_of(ts) {
            Ok(v) => Ok(ProcVmStat { nr_throttled_written: Some(v), ..st }),
            Err(e) => Err(e),
        }
    } else if ts[0] == "nr_kernel_misc_reclaimable"@ {
        match vmstat_field_of(ts) {
            Ok(v) => Ok(ProcVmStat { nr_kernel_misc_reclaimable: Some(v), ..st }),
            Err(e) => Err(e),
        }
    } else {
        vmstat_arms_14(st, ts)
    }
}

#[verifier::opaque]
pub open spec fn vmstat_arms_14(st: ProcVmStat, ts: Seq<Seq<char>>) -> Result<
    ProcVmStat,
    DecodeErr,
> {
    if ts[0] == "nr_foll_pin_acquired"@ {
        match vmstat_field_of(ts) {
            Ok(v) => Ok(ProcVmStat { nr_foll_pin_acquired: Some(v), ..st }),
            Err(e) => Err(e),
        }
    } else if ts[0] == "nr_foll_pin_released"@ {
        match vmstat_field_of(ts) {
            Ok(v) => Ok(ProcVmStat { nr_foll_pin_released: Some(v), ..st }),
            Err(e) => Err(e),
        }
    } else if ts[0] == "nr_kernel_stack"@ {
        match vmstat_field_of(ts) {
            Ok(v) => Ok(ProcVmStat { nr_kernel_stack: v, ..st }),
            Err(e) => Err(e),
        }
    } else if ts[0] == "nr_shadow_call_stack"@ {
        match vmstat_field_of(ts) {
            Ok(v) => Ok(ProcVmStat { nr_shadow_call_stack: Some(v), ..st }),
            Err(e) => Err(e),
        }
    } else {
        vmstat_arms_15(st, ts)
    }
}

#[verifier::opaque]
pub open spec fn vmstat_arms_15(st: ProcVmStat, ts: Seq<Seq<char>>) -> Result<
    ProcVmStat,
    DecodeErr,
> {
    if ts[0] == "nr_page_table_pages"@ {
        match vmstat_field_of(ts) {
            Ok(v) => Ok(ProcVmStat { nr_page_table_pages: v, ..st }),
            Err(e) => Err(e),
        }
    } else if ts[0] == "nr_sec_page_table_pages"@ {
        match vmstat_field_of(ts) {
            Ok(v) => Ok(ProcVmStat { nr_sec_page_table_pages: Some(v), ..st }),
            Err(e) => Err(e),
        }
    } else if ts[0] == "nr_swapcached"@ {
        match vmstat_field_of(ts) {
            Ok(v) => Ok(ProcVmStat { nr_swapcached: Some(v), ..st }),
            Err(e) => Err(e),
        }
    } else if ts[0] == "pgpromote_success"@ {
        match vmstat_field_of(ts) {
            Ok(v) => Ok(ProcVmStat { pgpromote_success: Some(v), ..st }),
            Err(e) => Err(e),
        }
    } else {
        vmstat_arms_16(st, ts)
    }
}

#[verifier::opaque]
pub open spec fn vmstat_arms_16(st: ProcVmStat, ts: Seq<Seq<char>>) -> Result<
    ProcVmStat,
    DecodeErr,
> {
    if ts[0] == "pgpromote_candidate"@ {
        match vmstat_field_of(ts) {
            Ok(v) => Ok(ProcVmStat { pgpromote_candidate: Some(v), ..st }),
            Err(e) => Err(e),
        }
    } else if ts[0] == "nr_dirty_threshold"@ {
        match vmstat_field_of(ts) {
            Ok(v) => Ok(ProcVmStat { nr_dirty_threshold: v, ..st }),
            Err(e) => Err(e),
        }
    } else if ts[0] == "nr_dirty_background_threshold"@ {
        match vmstat_field_of(ts) {
            Ok(v) => Ok(ProcVmStat { nr_dirty_background_threshold: v, ..st }),
            Err(e) => Err(e),
        }
    } else if ts[0] == "pgpgin"@ {
        match vmstat_field_of(ts) {
            Ok(v) => Ok(ProcVmStat { pgpgin: v, ..st }),
            Err(e) => Err(e),
        }
    } else {
        vmstat_arms_17(st, ts)
    }
}

#[verifier::opaque]
pub open spec fn vmstat_arms_17(st: ProcVmStat, ts: Seq<Seq<char>>) -> Result<
    ProcVmStat,
    DecodeErr,
> {
    if ts[0] == "pgpgout"@ {
        match vmstat_field_of(ts) {
            Ok(v) => Ok(ProcVmStat { pgpgout: v, ..st }),
            Err(e) => Err(e),
        }
    } else if ts[0] == "pswpin"@ {
        match vmstat_field_of(ts) {
            Ok(v) => Ok(ProcVmStat { pswpin: v, ..st }),
            Err(e) => Err(e),
        }
    } else if ts[0] == "pswpout"@ {
        match vmstat_field_of(ts) {
            Ok(v) => Ok(ProcVmStat { pswpout: v, ..st }),
            Err(e) => Err(e),
        }
    } else if ts[0] == "pgalloc_dma"@ {
        match vmstat_field_of(ts) {
            Ok(v) => Ok(ProcVmStat { pgalloc_dma: v, ..st }),
            Err(e) => Err(e),
        }
    } else {
        vmstat_arms_18(st, ts)
    }
}

#[verifier::opaque]
pub open spec fn vmstat_arms_18(st: ProcVmStat, ts: Seq<Seq<char>>) -> Result<
    ProcVmStat,
    DecodeErr,
> {
    if ts[0] == "pgalloc_dma32"@ {
        match vmstat_field_of(ts) {
            Ok(v) => Ok(ProcVmStat { pgalloc_dma32: v, ..st }),
            Err(e) => Err(e),
        }
    } else if ts[0] == "pgalloc_normal"@ {
        match vmstat_field_of(ts) {
            Ok(v) => Ok(ProcVmStat { pgalloc_normal: v, ..st }),
            Err(e) => Err(e),
        }
    } else if ts[0] == "pgalloc_movable"@ {
        match vmstat_field_of(ts) {
            Ok(v) => Ok(ProcVmStat { nr_file_pages: v, ..st }),
            Err(e) => Err(e),
        }
    } else if ts[0] == "pgalloc_device"@ {
        match vmstat_field_of(ts) {
            Ok(v) => Ok(ProcVmStat { pgalloc_device: Some(v), ..st }),
            Err(e) => Err(e),
        }
    } else {
        vmstat_arms_19(st, ts)
    }
}

#[verifier::opaque]
pub open spec fn vmstat_arms_19(st: ProcVmStat, ts: Seq<Seq<char>>) -> Result<
    ProcVmStat,
    DecodeErr,
> {
    if ts[0] == "allocstall_dma"@ {
        match vmstat_field_of(ts) {
            Ok(v) => Ok(ProcVmStat { allocstall_dma: v, ..st }),
            Err(e) => Err(e),
        }
    } else if ts[0] == "allocstall_dma32"@ {
        match vmstat_field_of(ts) {
            Ok(v) => Ok(ProcVmStat { allocstall_dma32: v, ..st }),
            Err(e) => Err(e),
        }
    } else if ts[0] == "allocstall_normal"@ {
        match vmstat_field_of(ts) {
            Ok(v) => Ok(ProcVmStat { allocstall_normal: v, ..st }),
            Err(e) => Err(e),
        }
    } else if ts[0] == "allocstall_movable"@ {
        match vmstat_field_of(ts) {
            Ok(v) => Ok(ProcVmStat { allocstall_movable: v, ..st }),
            Err(e) => Err(e),
        }
    } else {
        vmstat_arms_20(st, ts)
    }
}

#[verifier::opaque]
pub open spec fn vmstat_arms_20(st: ProcVmStat, ts: Seq<Seq<char>>) -> Result<
    ProcVmStat,
    DecodeErr,
> {
    if ts[0] == "allocstall_device"@ {
        match vmstat_field_of(ts) {
            Ok(v) => Ok(ProcVmStat { allocstall_device: Some(v), ..st }),
            Err(e) => Err(e),
        }
    } else if ts[0] == "pgskip_dma"@ {
        match vmstat_field_of(ts) {
            Ok(v) => Ok(ProcVmStat { pgskip_dma: v, ..st }),
            Err(e) => Err(e),
        }
    } else if ts[0] == "pgskip_dma32"@ {
        match vmstat_field_of(ts) {
            Ok(v) => Ok(ProcVmStat { pgskip_dma32: v, ..st }),
            Err(e) => Err(e),
        }
    } else if ts[0] == "pgskip_normal"@ {
        match vmstat_field_of(ts) {
            Ok(v) => Ok(ProcVmStat { pgskip_normal: v, ..st }),
            Err(e) => Err(e),
        }
    } else {
        vmstat_arms_21(st, ts)
    }
}

#[verifier::opaque]
pub open spec fn vmstat_arms_21(st: ProcVmStat, ts: Seq<Seq<char>>) -> Result<
    ProcVmStat,
    DecodeErr,
> {
    if ts[0] == "pgskip_movable"@ {
        match vmstat_field_of(ts) {
            Ok(v) => Ok(ProcVmStat { pgskip_movable: v, ..st }),
            Err(e) => Err(e),
        }
    } else if ts[0] == "pgskip_device"@ {
        match vmstat_field_of(ts) {
            Ok(v) => Ok(ProcVmStat { pgskip_device: Some(v), ..st }),
            Err(e) => Err(e),
        }
    } else if ts[0] == "pgfree"@ {
        match vmstat_field_of(ts) {
            Ok(v) => Ok(ProcVmStat { pgfree: v, ..st }),
            Err(e) => Err(e),
        }
    } else if ts[0] == "pgactivate"@ {
        match vmstat_field_of(ts) {
            Ok(v) => Ok(ProcVmStat { pgactivate: v, ..st }),
            Err(e) => Err(e),
        }
    } else {
        vmstat_arms_22(st, ts)
    }
}

#[verifier::opaque]
pub open spec fn vmstat_arms_22(st: ProcVmStat, ts: Seq<Seq<char>>) -> Result<
    ProcVmStat,
    DecodeErr,
> {
    if ts[0] == "pgdeactivate"@ {
        match vmstat_field_of(ts) {
            Ok(v) => Ok(ProcVmStat { pgdeactivate: v, ..st }),
            Err(e) => Err(e),
        }
    } else if ts[0] == "pglazyfree"@ {
        match vmstat_field_of(ts) {
            Ok(v) => Ok(ProcVmStat { pglazyfree: v, ..st }),
            Err(e) => Err(e),
        }
    } else if ts[0] == "pgfault"@ {
        match vmstat_field_of(ts) {
            Ok(v) => Ok(ProcVmStat { pgfault: v, ..st }),
            Err(e) => Err(e),
        }
    } else if ts[0] == "pgmajfault"@ {
        match vmstat_field_of(ts) {
            Ok(v) => Ok(ProcVmStat { pgmajfault: v, ..st }),
            Err(e) => Err(e),
        }
    } else {
        vmstat_arms_23(st, ts)
    }
}

#[verifier::opaque]
pub open spec fn vmstat_arms_23(st: ProcVmStat, ts: Seq<Seq<char>>) -> Result<
    ProcVmStat,
    DecodeErr,
> {
    if ts[0] == "pglazyfreed"@ {
        match vmstat_field_of(ts) {
            Ok(v) => Ok(ProcVmStat { pglazyfreed: v, ..st }),
            Err(e) => Err(e),
        }
    } else if ts[0] == "pgrefill"@ {
        match vmstat_field_of(ts) {
            Ok(v) => Ok(ProcVmStat { pgrefill: v, ..st }),
            Err(e) => Err(e),
        }
    } else if ts[0] == "pgreuse"@ {
        match vmstat_field_of(ts) {
            Ok(v) => Ok(ProcVmStat { pgreuse: Some(v), ..st }),
            Err(e) => Err(e),
        }
    } else if ts[0] == "pgsteal_kswapd"@ {
        match vmstat_field_of(ts) {
            Ok(v) => Ok(ProcVmStat { pgsteal_kswapd: v, ..st }),
            Err(e) => Err(e),
        }
    } else {
        vmstat_arms_24(st, ts)
    }
}

#[verifier::opaque]
pub open spec fn vmstat_arms_24(st: ProcVmStat, ts: Seq<Seq<char>>) -> Result<
    ProcVmStat,
    DecodeErr,
> {
    if ts[0] == "pgsteal_direct"@ {
        match vmstat_field_of(ts) {
            Ok(v) => Ok(ProcVmStat { pgsteal_direct: v, ..st }),
            Err(e) => Err(e),
        }
    } else if ts[0] == "pgsteal_khugepaged"@ {
        match vmstat_field_of(ts) {
            Ok(v) => Ok(ProcVmStat { pgsteal_khugepaged: Some(v), ..st }),
            Err(e) => Err(e),
        }
    } else if ts[0] == "pgdemote_kswapd"@ {
        match vmstat_field_of(ts) {
            Ok(v) => Ok(ProcVmStat { pgdemote_kswapd: Some(v), ..st }),
            Err(e) => Err(e),
        }
    } else if ts[0] == "pgdemote_direct"@ {
        match vmstat_field_of(ts) {
            Ok(v) => Ok(ProcVmStat { pgdemote_direct: Some(v), ..st }),
            Err(e) => Err(e),
        }
    } else {
        vmstat_arms_25(st, ts)
    }
}

#[verifier::opaque]
pub open spec fn vmstat_arms_25(st: ProcVmStat, ts: Seq<Seq<char>>) -> Result<
    ProcVmStat,
    DecodeErr,
> {
    if ts[0] == "pgdemote_khugepaged"@ {
        match vmstat_field_of(ts) {
            Ok(v) => Ok(ProcVmStat { pgdemote_khugepaged: Some(v), ..st }),
            Err(e) => Err(e),
        }
    } else if ts[0] == "pgscan_kswapd"@ {
        match vmstat_field_of(ts) {
            Ok(v) => Ok(ProcVmStat { pgscan_kswapd: v, ..st }),
            Err(e) => Err(e),
        }
    } else if ts[0] == "pgscan_direct"@ {
        match vmstat_field_of(ts) {
            Ok(v) => Ok(ProcVmStat { pgscan_direct: v, ..st }),
            Err(e) => Err(e),
        }
    } else if ts[0] == "pgscan_khugepaged"@ {
        match vmstat_field_of(ts) {
            Ok(v) => Ok(ProcVmStat { pgscan_khugepaged: Some(v), ..st }),
            Err(e) => Err(e),
        }
    } else {
        vmstat_arms_26(st, ts)
    }
}

#[verifier::opaque]
pub open spec fn vmstat_arms_26(st: ProcVmStat, ts: Seq<Seq<char>>) -> Result<
    ProcVmStat,
    DecodeErr,
> {
    if ts[0] == "pgscan_direct_throttle"@ {
        match vmstat_field_of(ts) {
            Ok(v) => Ok(ProcVmStat { pgscan_direct_throttle: v, ..st }),
            Err(e) => Err(e),
        }
    } else if ts[0] == "pgscan_anon"@ {
        match vmstat_field_of(ts) {
            Ok(v) => Ok(ProcVmStat { pgscan_anon: Some(v), ..st }),
            Err(e) => Err(e),
        }
    } else if ts[0] == "pgscan_file"@ {
        match vmstat_field_of(ts) {
            Ok(v) => Ok(ProcVmStat { pgscan_file: Some(v), ..st }),
            Err(e) => Err(e),
        }
    } else if ts[0] == "pgsteal_anon"@ {
        match vmstat_field_of(ts) {
            Ok(v) => Ok(ProcVmStat { pgsteal_anon: Some(v), ..st }),
            Err(e) => Err(e),
        }
    } else {
        vmstat_arms_27(st, ts)
    }
}

#[verifier::opaque]
pub open spec fn vmstat_arms_27(st: ProcVmStat, ts: Seq<Seq<char>>) -> Result<
    ProcVmStat,
    DecodeErr,
> {
    if ts[0] == "pgsteal_file"@ {
        match vmstat_field_of(ts) {
            Ok(v) => Ok(ProcVmStat { pgsteal_file: Some(v), ..st }),
            Err(e) => Err(e),
        }
    } else if ts[0] == "zone_reclaim_failed"@ {
        match vmstat_field_of(ts) {
            Ok(v) => Ok(ProcVmStat { zone_reclaim_failed: v, ..st }),
            Err(e) => Err(e),
        }
    } else if ts[0] == "pginodesteal"@ {
        match vmstat_field_of(ts) {
            Ok(v) => Ok(ProcVmStat { pginodesteal: v, ..st }),
            Err(e) => Err(e),
        }
    } else if ts[0] == "slabs_scanned"@ {
        match vmstat_field_of(ts) {
            Ok(v) => Ok(ProcVmStat { slabs_scanned: Some(v), ..st }),
            Err(e) => Err(e),
        }
    } else {
        vmstat_arms_28(st, ts)
    }
}

#[verifier::opaque]
pub open spec fn vmstat_arms_28(st: ProcVmStat, ts: Seq<Seq<char>>) -> Result<
    ProcVmStat,
    DecodeErr,
> {
    if ts[0] == "kswapd_inodesteal"@ {
        match vmstat_field_of(ts) {
            Ok(v) => Ok(ProcVmStat { kswapd_inodesteal: v, ..st }),
            Err(e) => Err(e),
        }
    } else if ts[0] == "kswapd_low_wmark_hit_quickly"@ {
        match vmstat_field_of(ts) {
            Ok(v) => Ok(ProcVmStat { kswapd_low_wmark_hit_quickly: v, ..st }),
            Err(e) => Err(e),
        }
    } else if ts[0] == "kswapd_high_wmark_hit_quickly"@ {
        match vmstat_field_of(ts) {
            Ok(v) => Ok(ProcVmStat { kswapd_high_wmark_hit_quickly: v, ..st }),
            Err(e) => Err(e),
        }
    } else if ts[0] == "pageoutrun"@ {
        match vmstat_field_of(ts) {
            Ok(v) => Ok(ProcVmStat { pageoutrun: v, ..st }),
            Err(e) => Err(e),
        }
    } else {
        vmstat_arms_29(st, ts)
    }
}

#[verifier::opaque]
pub open spec fn vmstat_arms_29(st: ProcVmStat, ts: Seq<Seq<char>>) -> Result<
    ProcVmStat,
    DecodeErr,
> {
    if ts[0] == "pgrotated"@ {
        match vmstat_field_of(ts) {
            Ok(v) => Ok(ProcVmStat { pgrotated: v, ..st }),
            Err(e) => Err(e),
        }
    } else if ts[0] == "drop_pagecache"@ {
        match vmstat_field_of(ts) {
            Ok(v) => Ok(ProcVmStat { drop_pagecache: v, ..st }),
            Err(e) => Err(e),
        }
    } else if ts[0] == "drop_slab"@ {
        match vmstat_field_of(ts) {
            Ok(v) => Ok(ProcVmStat { drop_slab: v, ..st }),
            Err(e) => Err(e),
        }
    } else if ts[0] == "oom_kill"@ {
        match vmstat_field_of(ts) {
            Ok(v) => Ok(ProcVmStat { oom_kill: v, ..st }),
            Err(e) => Err(e),
        }
    } else {
        vmstat_arms_30(st, ts)
    }
}

#[verifier::opaque]
pub open spec fn vmstat_arms_30(st: ProcVmStat, ts: Seq<Seq<char>>) -> Result<
    ProcVmStat,
    DecodeErr,
> {
    if ts[0] == "numa_pte_updates"@ {
        match vmstat_field_of(ts) {
            Ok(v) => Ok(ProcVmStat { numa_pte_updates: v, ..st }),
            Err(e) => Err(e),
        }
    } else if ts[0] == "numa_huge_pte_updates"@ {
        match vmstat_field_of(ts) {
            Ok(v) => Ok(ProcVmStat { numa_huge_pte_updates: v, ..st }),
            Err(e) => Err(e),
        }
    } else if ts[0] == "numa_hint_faults"@ {
        match vmstat_field_of(ts) {
            Ok(v) => Ok(ProcVmStat { numa_hint_faults: v, ..st }),
            Err(e) => Err(e),
        }
    } else if ts[0] == "numa_hint_faults_local"@ {
        match vmstat_field_of(ts) {
            Ok(v) => Ok(ProcVmStat { numa_hint_faults_local: v, ..st }),
            Err(e) => Err(e),
        }
    } else {
        vmstat_arms_31(st, ts)
    }
}

#[verifier::opaque]
pub open spec fn vmstat_arms_31(st: ProcVmStat, ts: Seq<Seq<char>>) -> Result<
    ProcVmStat,
    DecodeErr,
> {
    if ts[0] == "numa_pages_migrated"@ {
        match vmstat_field_of(ts) {
            Ok(v) => Ok(ProcVmStat { numa_pages_migrated: v, ..st }),
            Err(e) => Err(e),
        }
    } else if ts[0] == "pgmigrate_success"@ {
        match vmstat_field_of(ts) {
            Ok(v) => Ok(ProcVmStat { pgmigrate_success: v, ..st }),
            Err(e) => Err(e),
        }
    } else if ts[0] == "pgmigrate_fail"@ {
        match vmstat_field_of(ts) {
            Ok(v) => Ok(ProcVmStat { pgmigrate_fail: v, ..st }),
            Err(e) => Err(e),
        }
    } else if ts[0] == "thp_migration_success"@ {
        match vmstat_field_of(ts) {
            Ok(v) => Ok(ProcVmStat { thp_migration_success: Some(v), ..st }),
            Err(e) => Err(e),
        }
    } else {
        vmstat_arms_32(st, ts)
    }
}

#[verifier::opaque]
pub open spec fn vmstat_arms_32(st: ProcVmStat, ts: Seq<Seq<char>>) -> Result<
    ProcVmStat,
    DecodeErr,
> {
    if ts[0] == "thp_migration_fail"@ {
        match vmstat_field_of(ts) {
            Ok(v) => Ok(ProcVmStat { thp_migration_fail: Some(v), ..st }),
            Err(e) => Err(e),
        }
    } else if ts[0] == "thp_migration_split"@ {
        match vmstat_field_of(ts) {
            Ok(v) => Ok(ProcVmStat { thp_migration_split: Some(v), ..st }),
            Err(e) => Err(e),
        }
    } else if ts[0] == "compact_migrate_scanned"@ {
        match vmstat_field_of(ts) {
            Ok(v) => Ok(ProcVmStat { compact_migrate_scanned: v, ..st }),
            Err(e) => Err(e),
        }
    } else if ts[0] == "compact_free_scanned"@ {
        match vmstat_field_of(ts) {
            Ok(v) => Ok(ProcVmStat { compact_free_scanned: v, ..st }),
            Err(e) => Err(e),
        }
    } else {
        vmstat_arms_33(st, ts)
    }
}

#[verifier::opaque]
pub open spec fn vmstat_arms_33(st: ProcVmStat, ts: Seq<Seq<char>>) -> Result<
    ProcVmStat,
    DecodeErr,
> {
    if ts[0] == "compact_isolated"@ {
        match vmstat_field_of(ts) {
            Ok(v) => Ok(ProcVmStat { compact_isolated: v, ..st }),
            Err(e) => Err(e),
        }
    } else if ts[0] == "compact_stall"@ {
        match vmstat_field_of(ts) {
            Ok(v) => Ok(ProcVmStat { compact_stall: v, ..st }),
            Err(e) => Err(e),
        }
    } else if ts[0] == "compact_fail"@ {
        match vmstat_field_of(ts) {
            Ok(v) => Ok(ProcVmStat { compact_fail: v, ..st }),
            Err(e) => Err(e),
        }
    } else if ts[0] == "compact_success"@ {
        match vmstat_field_of(ts) {
            Ok(v) => Ok(ProcVmStat { compact_success: v, ..st }),
            Err(e) => Err(e),
        }
    } else {
        vmstat_arms_34(st, ts)
    }
}

#[verifier::opaque]
pub open spec fn vmstat_arms_34(st: ProcVmStat, ts: Seq<Seq<char>>) -> Result<
    ProcVmStat,
    DecodeErr,
> {
    if ts[0] == "compact_daemon_wake"@ {
        match vmstat_field_of(ts) {
            Ok(v) => Ok(ProcVmStat { compact_daemon_wake: v, ..st }),
            Err(e) => Err(e),
        }
    } else if ts[0] == "compact_daemon_migrate_scanned"@ {
        match vmstat_field_of(ts) {
            Ok(v) => Ok(ProcVmStat { compact_daemon_migrate_scanned: v, ..st }),
            Err(e) => Err(e),
        }
    } else if ts[0] == "compact_daemon_free_scanned"@ {
        match vmstat_field_of(ts) {
            Ok(v) => Ok(ProcVmStat { compact_daemon_free_scanned: v, ..st }),
            Err(e) => Err(e),
        }
    } else if ts[0] == "htlb_buddy_alloc_success"@ {
        match vmstat_field_of(ts) {
            Ok(v) => Ok(ProcVmStat { htlb_buddy_alloc_success: v, ..st }),
            Err(e) => Err(e),
        }
    } else {
        vmstat_arms_35(st, ts)
    }
}

#[verifier::opaque]
pub open spec fn vmstat_arms_35(st: ProcVmStat, ts: Seq<Seq<char>>) -> Result<
    ProcVmStat,
    DecodeErr,
> {
    if ts[0] == "htlb_buddy_alloc_fail"@ {
        match vmstat_field_of(ts) {
            Ok(v) => Ok(ProcVmStat { htlb_buddy_alloc_fail: v, ..st }),
            Err(e) => Err(e),
        }
    } else if ts[0] == "cma_alloc_success"@ {
        match vmstat_field_of(ts) {
            Ok(v) => Ok(ProcVmStat { cma_alloc_success: Some(v), ..st }),
            Err(e) => Err(e),
        }
    } else if ts[0] == "cma_alloc_fail"@ {
        match vmstat_field_of(ts) {
            Ok(v) => Ok(ProcVmStat { cma_alloc_fail: Some(v), ..st }),
            Err(e) => Err(e),
        }
    } else if ts[0] == "unevictable_pgs_culled"@ {
        match vmstat_field_of(ts) {
            Ok(v) => Ok(ProcVmStat { unevictable_pgs_culled: v, ..st }),
            Err(e) => Err(e),
        }
    } else {
        vmstat_arms_36(st, ts)
    }
}

#[verifier::opaque]
pub open spec fn vmstat_arms_36(st: ProcVmStat, ts: Seq<Seq<char>>) -> Result<
    ProcVmStat,
    DecodeErr,
> {
    if ts[0] == "unevictable_pgs_scanned"@ {
        match vmstat_field_of(ts) {
            Ok(v) => Ok(ProcVmStat { unevictable_pgs_scanned: v, ..st }),
            Err(e) => Err(e),
        }
    } else if ts[0] == "unevictable_pgs_rescued"@ {
        match vmstat_field_of(ts) {
            Ok(v) => Ok(ProcVmStat { unevictable_pgs_rescued: v, ..st }),
            Err(e) => Err(e),
        }
    } else if ts[0] == "unevictable_pgs_mlocked"@ {
        match vmstat_field_of(ts) {
            Ok(v) => Ok(ProcVmStat { unevictable_pgs_mlocked: v, ..st }),
            Err(e) => Err(e),
        }
    } else if ts[0] == "unevictable_pgs_munlocked"@ {
        match vmstat_field_of(ts) {
            Ok(v) => Ok(ProcVmStat { unevictable_pgs_munlocked: v, ..st }),
            Err(e) => Err(e),
        }
    } else {
        vmstat_arms_37(st, ts)
    }
}

#[verifier::opaque]
pub open spec fn vmstat_arms_37(st: ProcVmStat, ts: Seq<Seq<char>>) -> Result<
    ProcVmStat,
    DecodeErr,
> {
    if ts[0] == "unevictable_pgs_cleared"@ {
        match vmstat_field_of(ts) {
            Ok(v) => Ok(ProcVmStat { unevictable_pgs_cleared: v, ..st }),
            Err(e) => Err(e),
        }
    } else if ts[0] == "unevictable_pgs_stranded"@ {
        match vmstat_field_of(ts) {
            Ok(v) => Ok(ProcVmStat { unevictable_pgs_stranded: v, ..st }),
            Err(e) => Err(e),
        }
    } else if ts[0] == "thp_fault_alloc"@ {
        match vmstat_field_of(ts) {
            Ok(v) => Ok(ProcVmStat { thp_fault_alloc: v, ..st }),
            Err(e) => Err(e),
        }
    } else if ts[0] == "thp_fault_fallback"@ {
        match vmstat_field_of(ts) {
            Ok(v) => Ok(ProcVmStat { thp_fault_fallback: v, ..st }),
            Err(e) => Err(e),
        }
    } else {
        vmstat_arms_38(st, ts)
    }
}

#[verifier::opaque]
pub open spec fn vmstat_arms_38(st: ProcVmStat, ts: Seq<Seq<char>>) -> Result<
    ProcVmStat,
    DecodeErr,
> {
    if ts[0] == "thp_fault_fallback_charge"@ {
        match vmstat_field_of(ts) {
            Ok(v) => Ok(ProcVmStat { thp_fault_fallback_charge: Some(v), ..st }),
            Err(e) => Err(e),
        }
    } else if ts[0] == "thp_collapse_alloc"@ {
        match vmstat_field_of(ts) {
            Ok(v) => Ok(ProcVmStat { thp_collapse_alloc: v, ..st }),
            Err(e) => Err(e),
        }
    } else if ts[0] == "thp_collapse_alloc_failed"@ {
        match vmstat_field_of(ts) {
            Ok(v) => Ok(ProcVmStat { thp_collapse_alloc_failed: v, ..st }),
            Err(e) => Err(e),
        }
    } else if ts[0] == "thp_file_alloc"@ {
        match vmstat_field_of(ts) {
            Ok(v) => Ok(ProcVmStat { thp_file_alloc: v, ..st }),
            Err(e) => Err(e),
        }
    } else {
        vmstat_arms_39(st, ts)
    }
}

#[verifier::opaque]
pub open spec fn vmstat_arms_39(st: ProcVmStat, ts: Seq<Seq<char>>) -> Result<
    ProcVmStat,
    DecodeErr,
> {
    if ts[0] == "thp_file_fallback"@ {
        match vmstat_field_of(ts) {
            Ok(v) => Ok(ProcVmStat { thp_file_fallback: Some(v), ..st }),
            Err(e) => Err(e),
        }
    } else if ts[0] == "thp_file_fallback_charge"@ {
        match vmstat_field_of(ts) {
            Ok(v) => Ok(ProcVmStat { thp_file_fallback_charge: Some(v), ..st }),
            Err(e) => Err(e),
        }
    } else if ts[0] == "thp_file_mapped"@ {
        match vmstat_field_of(ts) {
            Ok(v) => Ok(ProcVmStat { thp_file_mapped: v, ..st }),
            Err(e) => Err(e),
        }
    } else if ts[0] == "thp_split_page"@ {
        match vmstat_field_of(ts) {
            Ok(v) => Ok(ProcVmStat { thp_split_page: v, ..st }),
            Err(e) => Err(e),
        }
    } else {
        vmstat_arms_40(st, ts)
    }
}

#[verifier::opaque]
pub open spec fn vmstat_arms_40(st: ProcVmStat, ts: Seq<Seq<char>>) -> Result<
    ProcVmStat,
    DecodeErr,
> {
    if ts[0] == "thp_split_page_failed"@ {
        match vmstat_field_of(ts) {
            Ok(v) => Ok(ProcVmStat { thp_split_page_failed: v, ..st }),
            Err(e) => Err(e),
        }
    } else if ts[0] == "thp_deferred_split_page"@ {
        match vmstat_field_of(ts) {
            Ok(v) => Ok(ProcVmStat { thp_deferred_split_page: v, ..st }),
            Err(e) => Err(e),
        }
    } else if ts[0] == "thp_split_pmd"@ {
        match vmstat_field_of(ts) {
            Ok(v) => Ok(ProcVmStat { thp_split_pmd: v, ..st }),
            Err(e) => Err(e),
        }
    } else if ts[0] == "thp_scan_exceed_none_pte"@ {
        match vmstat_field_of(ts) {
            Ok(v) => Ok(ProcVmStat { thp_scan_exceed_none_pte: Some(v), ..st }),
            Err(e) => Err(e),
        }
    } else {
        vmstat_arms_41(st, ts)
    }
}

#[verifier::opaque]
pub open spec fn vmstat_arms_41(st: ProcVmStat, ts: Seq<Seq<char>>) -> Result<
    ProcVmStat,
    DecodeErr,
> {
    if ts[0] == "thp_scan_exceed_swap_pte"@ {
        match vmstat_field_of(ts) {
            Ok(v) => Ok(ProcVmStat { thp_scan_exceed_swap_pte: Some(v), ..st }),
            Err(e) => Err(e),
        }
    } else if ts[0] == "thp_scan_exceed_share_pte"@ {
        match vmstat_field_of(ts) {
            Ok(v) => Ok(ProcVmStat { thp_scan_exceed_share_pte: Some(v), ..st }),
            Err(e) => Err(e),
        }
    } else if ts[0] == "thp_zero_page_alloc"@ {
        match vmstat_field_of(ts) {
            Ok(v) => Ok(ProcVmStat { thp_zero_page_alloc: v, ..st }),
            Err(e) => Err(e),
        }
    } else if ts[0] == "thp_zero_page_alloc_failed"@ {
        match vmstat_field_of(ts) {
            Ok(v) => Ok(ProcVmStat { thp_zero_page_alloc_failed: v, ..st }),
            Err(e) => Err(e),
        }
    } else {
        vmstat_arms_42(st, ts)
    }
}

#[verifier::opaque]
pub open spec fn vmstat_arms_42(st: ProcVmStat, ts: Seq<Seq<char>>) -> Result<
    ProcVmStat,
    DecodeErr,
> {
    if ts[0] == "thp_swpout"@ {
        match vmstat_field_of(ts) {
            Ok(v) => Ok(ProcVmStat { thp_swpout: v, ..st }),
            Err(e) => Err(e),
        }
    } else if ts[0] == "thp_swpout_fallback"@ {
        match vmstat_field_of(ts) {
            Ok(v) => Ok(ProcVmStat { thp_swpout_fallback: v, ..st }),
            Err(e) => Err(e),
        }
    } else if ts[0] == "balloon_inflate"@ {
        match vmstat_field_of(ts) {
            Ok(v) => Ok(ProcVmStat { balloon_inflate: v, ..st }),
            Err(e) => Err(e),
        }
    } else if ts[0] == "balloon_deflate"@ {
        match vmstat_field_of(ts) {
            Ok(v) => Ok(ProcVmStat { balloon_deflate: v, ..st }),
            Err(e) => Err(e),
        }
    } else {
        vmstat_arms_43(st, ts)
    }
}

#[verifier::opaque]
pub open spec fn vmstat_arms_43(st: ProcVmStat, ts: Seq<Seq<char>>) -> Result<
    ProcVmStat,
    DecodeErr,
> {
    if ts[0] == "balloon_migrate"@ {
        match vmstat_field_of(ts) {
            Ok(v) => Ok(ProcVmStat { balloon_migrate: v, ..st }),
            Err(e) => Err(e),
        }
    } else if ts[0] == "swap_ra"@ {
        match vmstat_field_of(ts) {
            Ok(v) => Ok(ProcVmStat { swap_ra: v, ..st }),
            Err(e) => Err(e),
        }
    } else if ts[0] == "swap_ra_hit"@ {
        match vmstat_field_of(ts) {
            Ok(v) => Ok(ProcVmStat { swap_ra_hit: v, ..st }),
            Err(e) => Err(e),
        }
    } else if ts[0] == "ksm_swpin_copy"@ {
        match vmstat_field_of(ts) {
            Ok(v) => Ok(ProcVmStat { ksm_swpin_copy: Some(v), ..st }),
            Err(e) => Err(e),
        }
    } else {
        vmstat_arms_44(st, ts)
    }
}

#[verifier::opaque]
pub open spec fn vmstat_arms_44(st: ProcVmStat, ts: Seq<Seq<char>>) -> Result<
    ProcVmStat,
    DecodeErr,
> {
    if ts[0] == "cow_ksm"@ {
        match vmstat_field_of(ts) {
            Ok(v) => Ok(ProcVmStat { cow_ksm: Some(v), ..st }),
            Err(e) => Err(e),
        }
    } else if ts[0] == "zswpin"@ {
        match vmstat_field_of(ts) {
            Ok(v) => Ok(ProcVmStat { zswpin: Some(v), ..st }),
            Err(e) => Err(e),
        }
    } else if ts[0] == "zswpout"@ {
        match vmstat_field_of(ts) {
            Ok(v) => Ok(ProcVmStat { zswpout: Some(v), ..st }),
            Err(e) => Err(e),
        }
    } else if ts[0] == "nr_unstable"@ {
        match vmstat_field_of(ts) {
            Ok(v) => Ok(ProcVmStat { nr_unstable: v, ..st }),
            Err(e) => Err(e),
        }
    } else {
        Ok(st)
    }
}


/// One step of the fold: a line whose leading token is a known name sets
/// that field; any other line is skipped. A line without any token, or a
/// known line with a non-numeric value, fails the document.
pub open spec fn vmstat_step(st: ProcVmStat, l: Seq<char>) -> Result<ProcVmStat, DecodeErr> {
    let ts = tokens_of(l);
    if ts.len() == 0 {
        Err(DecodeErr::MissingField)
    } else {
        vmstat_arms_1(st, ts)
    }
}

/// Fold the lines through the document, aborting at the first failing line.
pub open spec fn vmstat_fold(st: ProcVmStat, ls: Seq<Seq<char>>) -> Result<ProcVmStat, DecodeErr>
    decreases ls.len(),
{
    if ls.len() == 0 {
        Ok(st)
    } else {
        match vmstat_step(st, ls[0]) {
            Ok(st2) => vmstat_fold(st2, ls.skip(1)),
            Err(e) => Err(e),
        }
    }
}

/// One unfolding of [`vmstat_fold`].
pub proof fn lemma_vmstat_fold_step(st: ProcVmStat, ls: Seq<Seq<char>>)
    requires
        ls.len() > 0,
    ensures
        vmstat_fold(st, ls) == match vmstat_step(st, ls[0]) {
            Ok(m2) => vmstat_fold(m2, ls.skip(1)),
            Err(e) => Err(e),
        },
{
}

/// The decoded value of a whole `/proc/vmstat` document.
pub open spec fn vmstat_of(s: Seq<char>) -> Result<ProcVmStat, DecodeErr> {
    vmstat_fold(init_vmstat(), lines_of(s))
}

/// Decode one line into the document, as [`vmstat_step`] says.
fn vmstat_apply(st: &mut ProcVmStat, ts: &Vec<Vec<char>>, Ghost(l): Ghost<Seq<char>>) -> (r:
    Result<(), DecodeErr>)
    requires
        ts.deep_view() == tokens_of(l),
    ensures
        vmstat_step(*old(st), l) matches Ok(m2) ==> (r is Ok && *final(st) == m2),
        vmstat_step(*old(st), l) matches Err(k) ==> r == Err::<(), DecodeErr>(k),
{
    if ts.len() == 0 {
        return Err(DecodeErr::MissingField);
    }
    apply_arms_1(st, ts)
}

impl ProcVmStat {
    /// An empty document record, as [`init_vmstat`] says.
    pub fn new() -> (r: ProcVmStat)
        ensures
            r == init_vmstat(),
    {
        ProcVmStat {
            nr_free_pages: 0,
            nr_zone_inactive_anon: 0,
            nr_zone_active_anon: 0,
            nr_zone_inactive_file: 0,
            nr_zone_active_file: 0,
            nr_zone_unevictable: 0,
            nr_zone_write_pending: 0,
            nr_mlock: 0,
            nr_bounce: 0,
            nr_zspages: 0,
            nr_free_cma: 0,
            numa_hit: 0,
            numa_miss: 0,
            numa_foreign: 0,
            numa_interleave: 0,
            numa_local: 0,
            numa_other: 0,
            nr_inactive_anon: 0,
            nr_active_anon: 0,
            nr_inactive_file: 0,
            nr_active_file: 0,
            nr_unevictable: 0,
            nr_slab_reclaimable: 0,
            nr_slab_unreclaimable: 0,
            nr_isolated_anon: 0,
            nr_isolated_file: 0,
            workingset_nodes: None,
            workingset_refault_anon: None,
            workingset_refault_file: None,
            workingset_activate_anon: None,
            workingset_activate_file: None,
            workingset_restore_anon: None,
            workingset_restore_file: None,
            workingset_nodereclaim: 0,
            nr_anon_pages: 0,
            nr_mapped: 0,
            nr_file_pages: 0,
            nr_dirty: 0,
            nr_writeback: 0,
            nr_writeback_temp: 0,
            nr_shmem: 0,
            nr_shmem_hugepages: 0,
            nr_shmem_pmdmapped: 0,
            nr_file_hugepages: None,
            nr_file_pmdmapped: None,
            nr_anon_transparent_hugepages: 0,
            nr_vmscan_write: 0,
            nr_vmscan_immediate_reclaim: 0,
            nr_dirtied: 0,
            nr_written: 0,
            nr_throttled_written: None,
            nr_kernel_misc_reclaimable: None,
            nr_foll_pin_acquired: None,
            nr_foll_pin_released: None,
            nr_kernel_stack: 0,
            nr_shadow_call_stack: None,
            nr_page_table_pages: 0,
            nr_sec_page_table_pages: None,
            nr_swapcached: None,
            pgpromote_success: None,
            pgpromote_candidate: None,
            nr_dirty_threshold: 0,
            nr_dirty_background_threshold: 0,
            pgpgin: 0,
            pgpgout: 0,
            pswpin: 0,
            pswpout: 0,
            pgalloc_dma: 0,
            pgalloc_dma32: 0,
            pgalloc_normal: 0,
            pgalloc_movable: 0,
            pgalloc_device: None,
            allocstall_dma: 0,
            allocstall_dma32: 0,
            allocstall_normal: 0,
            allocstall_movable: 0,
            allocstall_device: None,
            pgskip_dma: 0,
            pgskip_dma32: 0,
            pgskip_normal: 0,
            pgskip_movable: 0,
            pgskip_device: None,
            pgfree: 0,
            pgactivate: 0,
            pgdeactivate: 0,
            pglazyfree: 0,
            pglazyfreed: 0,
            pgfault: 0,
            pgmajfault: 0,
            pgrefill: 0,
            pgreuse: None,
            pgsteal_kswapd: 0,
            pgsteal_direct: 0,
            pgsteal_khugepaged: None,
            pgdemote_kswapd: None,
            pgdemote_direct: None,
            pgdemote_khugepaged: None,
            pgscan_kswapd: 0,
            pgscan_direct: 0,
            pgscan_khugepaged: None,
            pgscan_direct_throttle: 0,
            pgscan_anon: None,
            pgscan_file: None,
            pgsteal_anon: None,
            pgsteal_file: None,
            zone_reclaim_failed: 0,
            pginodesteal: 0,
            slabs_scanned: None,
            kswapd_inodesteal: 0,
            kswapd_low_wmark_hit_quickly: 0,
            kswapd_high_wmark_hit_quickly: 0,
            pageoutrun: 0,
            pgrotated: 0,
            drop_pagecache: 0,
            drop_slab: 0,
            oom_kill: 0,
            numa_pte_updates: 0,
            numa_huge_pte_updates: 0,
            numa_hint_faults: 0,
            numa_hint_faults_local: 0,
            numa_pages_migrated: 0,
            pgmigrate_success: 0,
            pgmigrate_fail: 0,
            thp_migration_success: None,
            thp_migration_fail: None,
            thp_migration_split: None,
            compact_migrate_scanned: 0,
            compact_free_scanned: 0,
            compact_isolated: 0,
            compact_stall: 0,
            compact_fail: 0,
            compact_success: 0,
            compact_daemon_wake: 0,
            compact_daemon_migrate_scanned: 0,
            compact_daemon_free_scanned: 0,
            htlb_buddy_alloc_success: 0,
            htlb_buddy_alloc_fail: 0,
            cma_alloc_success: None,
            cma_alloc_fail: None,
            unevictable_pgs_culled: 0,
            unevictable_pgs_scanned: 0,
            unevictable_pgs_rescued: 0,
            unevictable_pgs_mlocked: 0,
            unevictable_pgs_munlocked: 0,
            unevictable_pgs_cleared: 0,
            unevictable_pgs_stranded: 0,
            thp_fault_alloc: 0,
            thp_fault_fallback: 0,
            thp_fault_fallback_charge: None,
            thp_collapse_alloc: 0,
            thp_collapse_alloc_failed: 0,
            thp_file_alloc: 0,
            thp_file_fallback: None,
            thp_file_fallback_charge: None,
            thp_file_mapped: 0,
            thp_split_page: 0,
            thp_split_page_failed: 0,
            thp_deferred_split_page: 0,
            thp_split_pmd: 0,
            thp_scan_exceed_none_pte: None,
            thp_scan_exceed_swap_pte: None,
            thp_scan_exceed_share_pte: None,
            thp_zero_page_alloc: 0,
            thp_zero_page_alloc_failed: 0,
            thp_swpout: 0,
            thp_swpout_fallback: 0,
            balloon_inflate: 0,
            balloon_deflate: 0,
            balloon_migrate: 0,
            swap_ra: 0,
            swap_ra_hit: 0,
            ksm_swpin_copy: None,
            cow_ksm: None,
            zswpin: None,
            zswpout: None,
            nr_unstable: 0,
        }
    }

    /// The value of a known line, as [`vmstat_field_of`] says: its second
    /// field as a decimal integer, zero when the line carries no second
    /// field at all, and a typed failure when a present value is not
    /// numeric.
    pub fn parse_proc_vmstat_line(proc_vmstat_line: &str) -> (r: Result<u64, ProcSysParserError>)
        ensures
            vmstat_field_of(tokens_of(proc_vmstat_line@)) matches Ok(v) ==> r == Ok::<
                u64,
                ProcSysParserError,
            >(v),
            vmstat_field_of(tokens_of(proc_vmstat_line@)) matches Err(k) ==> (r matches Err(e)
                && reflects(e, k)),
    {
        let cs = chars_vec(proc_vmstat_line);
        let ts = tokenize(cs.as_slice());
        match parse_vmstat_field(&ts) {
            Ok(v) => Ok(v),
            Err(k) => Err(error_for(k, "vmstat parse_proc_vmstat_line")),
        }
    }

    /// As [`ProcVmStat::parse_proc_vmstat_line`], wrapped in `Some` for the
    /// counters that not every kernel reports.
    pub fn parse_proc_vmstat_line_option(proc_vmstat_line: &str) -> (r: Result<
        Option<u64>,
        ProcSysParserError,
    >)
        ensures
            vmstat_field_of(tokens_of(proc_vmstat_line@)) matches Ok(v) ==> r == Ok::<
                Option<u64>,
                ProcSysParserError,
            >(Some(v)),
            vmstat_field_of(tokens_of(proc_vmstat_line@)) matches Err(k) ==> (r matches Err(e)
                && reflects(e, k)),
    {
        match ProcVmStat::parse_proc_vmstat_line(proc_vmstat_line) {
            Ok(v) => Ok(Some(v)),
            Err(e) => Err(e),
        }
    }

    /// Decode a whole `/proc/vmstat` document, as [`vmstat_of`] says: the
    /// value is exactly the line fold, and a failing document reports the
    /// same failure kind.
    pub fn parse_proc_vmstat_output(proc_vmstat: &str) -> (r: Result<
        ProcVmStat,
        ProcSysParserError,
    >)
        ensures
            (r is Ok) == (vmstat_of(proc_vmstat@) is Ok),
            r matches Ok(d) ==> vmstat_of(proc_vmstat@) == Ok::<ProcVmStat, DecodeErr>(d),
            r matches Err(e) ==> (vmstat_of(proc_vmstat@) matches Err(k) && reflects(e, k)),
    {
        let ghost doc = proc_vmstat@;
        let ghost ls = lines_of(doc);
        let cs = chars_vec(proc_vmstat);
        let lines = split_lines(cs.as_slice());
        let mut st = ProcVmStat::new();
        proof {
            assert(ls.skip(0) =~= ls);
        }
        let mut i: usize = 0;
        while i < lines.len()
            invariant
                i <= lines@.len(),
                doc == proc_vmstat@,
                ls == lines_of(doc),
                lines.deep_view() == ls,
                vmstat_fold(init_vmstat(), ls) == vmstat_fold(st, ls.skip(i as int)),
            decreases lines@.len() - i,
        {
            proof {
                assert(ls.skip(i as int).len() > 0);
                assert(ls.skip(i as int)[0] == ls[i as int]);
                assert(ls.skip(i as int).skip(1) =~= ls.skip(i + 1 as int));
                assert(lines@[i as int].deep_view() =~= lines@[i as int]@);
                assert(lines.deep_view()[i as int] == ls[i as int]);
                lemma_vmstat_fold_step(st, ls.skip(i as int));
            }
            let ts = tokenize(lines[i].as_slice());
            match vmstat_apply(&mut st, &ts, Ghost(ls[i as int])) {
                Ok(()) => {},
                Err(k) => {
                    return Err(error_for(k, "vmstat parse_proc_vmstat_output"));
                },
            }
            i += 1;
        }
        proof {
            assert(ls.skip(i as int) =~= Seq::<Seq<char>>::empty());
        }
        Ok(st)
    }
}

/// Apply one group of known names, as [`vmstat_arms_1`] says.
#[verifier::rlimit(100)]
fn apply_arms_1(st: &mut ProcVmStat, ts: &Vec<Vec<char>>) -> (r: Result<(), DecodeErr>)
    requires
        ts@.len() > 0,
    ensures
        vmstat_arms_1(*old(st), ts.deep_view()) matches Ok(m2) ==> (r is Ok && *final(st)
            == m2),
        vmstat_arms_1(*old(st), ts.deep_view()) matches Err(k) ==> r == Err::<(), DecodeErr>(
            k,
        ),
{
    proof {
        reveal(vmstat_arms_1);
        assert(ts.deep_view()[0] =~= ts@[0]@);
    }
    let t0 = ts[0].as_slice();
    if token_eq(t0, "nr_free_pages") {
        match parse_vmstat_field(ts) {
            Ok(v) => {
                st.nr_free_pages = v;
                Ok(())
            },
            Err(k) => Err(k),
        }
    } else if token_eq(t0, "nr_zone_inactive_anon") {
        match parse_vmstat_field(ts) {
            Ok(v) => {
                st.nr_zone_inactive_anon = v;
                Ok(())
            },
            Err(k) => Err(k),
        }
    } else if token_eq(t0, "nr_zone_active_anon") {
        match parse_vmstat_field(ts) {
            Ok(v) => {
                st.nr_zone_active_anon = v;
                Ok(())
            },
            Err(k) => Err(k),
        }
    } else if token_eq(t0, "nr_zone_inactive_file") {
        match parse_vmstat_field(ts) {
            Ok(v) => {
                st.nr_zone_inactive_file = v;
                Ok(())
            },
            Err(k) => Err(k),
        }
    } else {
        apply_arms_2(st, ts)
    }
}

/// Apply one group of known names, as [`vmstat_arms_2`] says.
#[verifier::rlimit(100)]
fn apply_arms_2(st: &mut ProcVmStat, ts: &Vec<Vec<char>>) -> (r: Result<(), DecodeErr>)
    requires
        ts@.len() > 0,
    ensures
        vmstat_arms_2(*old(st), ts.deep_view()) matches Ok(m2) ==> (r is Ok && *final(st)
            == m2),
        vmstat_arms_2(*old(st), ts.deep_view()) matches Err(k) ==> r == Err::<(), DecodeErr>(
            k,
        ),
{
    proof {
        reveal(vmstat_arms_2);
        assert(ts.deep_view()[0] =~= ts@[0]@);
    }
    let t0 = ts[0].as_slice();
    if token_eq(t0, "nr_zone_active_file") {
        match parse_vmstat_field(ts) {
            Ok(v) => {
                st.nr_zone_active_file = v;
                Ok(())
            },
            Err(k) => Err(k),
        }
    } else if token_eq(t0, "nr_zone_unevictable") {
        match parse_vmstat_field(ts) {
            Ok(v) => {
                st.nr_zone_unevictable = v;
                Ok(())
            },
            Err(k) => Err(k),
        }
    } else if token_eq(t0, "nr_zone_write_pending") {
        match parse_vmstat_field(ts) {
            Ok(v) => {
                st.nr_zone_write_pending = v;
                Ok(())
            },
            Err(k) => Err(k),
        }
    } else if token_eq(t0, "nr_mlock") {
        match parse_vmstat_field(ts) {
            Ok(v) => {
                st.nr_mlock = v;
                Ok(())
            },
            Err(k) => Err(k),
        }
    } else {
        apply_arms_3(st, ts)
    }
}

/// Apply one group of known names, as [`vmstat_arms_3`] says.
#[verifier::rlimit(100)]
fn apply_arms_3(st: &mut ProcVmStat, ts: &Vec<Vec<char>>) -> (r: Result<(), DecodeErr>)
    requires
        ts@.len() > 0,
    ensures
        vmstat_arms_3(*old(st), ts.deep_view()) matches Ok(m2) ==> (r is Ok && *final(st)
            == m2),
        vmstat_arms_3(*old(st), ts.deep_view()) matches Err(k) ==> r == Err::<(), DecodeErr>(
            k,
        ),
{
    proof {
        reveal(vmstat_arms_3);
        assert(ts.deep_view()[0] =~= ts@[0]@);
    }
    let t0 = ts[0].as_slice();
    if token_eq(t0, "nr_bounce") {
        match parse_vmstat_field(ts) {
            Ok(v) => {
                st.nr_bounce = v;
                Ok(())
            },
            Err(k) => Err(k),
        }
    } else if token_eq(t0, "nr_zspages") {
        match parse_vmstat_field(ts) {
            Ok(v) => {
                st.nr_zspages = v;
                Ok(())
            },
            Err(k) => Err(k),
        }
    } else if token_eq(t0, "nr_free_cma") {
        match parse_vmstat_field(ts) {
            Ok(v) => {
                st.nr_free_cma = v;
                Ok(())
            },
            Err(k) => Err(k),
        }
    } else if token_eq(t0, "numa_hit") {
        match parse_vmstat_field(ts) {
            Ok(v) => {
                st.numa_hit = v;
                Ok(())
            },
            Err(k) => Err(k),
        }
    } else {
        apply_arms_4(st, ts)
    }
}

/// Apply one group of known names, as [`vmstat_arms_4`] says.
#[verifier::rlimit(100)]
fn apply_arms_4(st: &mut ProcVmStat, ts: &Vec<Vec<char>>) -> (r: Result<(), DecodeErr>)
    requires
        ts@.len() > 0,
    ensures
        vmstat_arms_4(*old(st), ts.deep_view()) matches Ok(m2) ==> (r is Ok && *final(st)
            == m2),
        vmstat_arms_4(*old(st), ts.deep_view()) matches Err(k) ==> r == Err::<(), DecodeErr>(
            k,
        ),
{
    proof {
        reveal(vmstat_arms_4);
        assert(ts.deep_view()[0] =~= ts@[0]@);
    }
    let t0 = ts[0].as_slice();
    if token_eq(t0, "numa_miss") {
        match parse_vmstat_field(ts) {
            Ok(v) => {
                st.numa_miss = v;
                Ok(())
            },
            Err(k) => Err(k),
        }
    } else if token_eq(t0, "numa_foreign") {
        match parse_vmstat_field(ts) {
            Ok(v) => {
                st.numa_foreign = v;
                Ok(())
            },
            Err(k) => Err(k),
        }
    } else if token_eq(t0, "numa_interleave") {
        match parse_vmstat_field(ts) {
            Ok(v) => {
                st.numa_interleave = v;
                Ok(())
            },
            Err(k) => Err(k),
        }
    } else if token_eq(t0, "numa_local") {
        match parse_vmstat_field(ts) {
            Ok(v) => {
                st.numa_local = v;
                Ok(())
            },
            Err(k) => Err(k),
        }
    } else {
        apply_arms_5(st, ts)
    }
}

/// Apply one group of known names, as [`vmstat_arms_5`] says.
#[verifier::rlimit(100)]
fn apply_arms_5(st: &mut ProcVmStat, ts: &Vec<Vec<char>>) -> (r: Result<(), DecodeErr>)
    requires
        ts@.len() > 0,
    ensures
        vmstat_arms_5(*old(st), ts.deep_view()) matches Ok(m2) ==> (r is Ok && *final(st)
            == m2),
        vmstat_arms_5(*old(st), ts.deep_view()) matches Err(k) ==> r == Err::<(), DecodeErr>(
            k,
        ),
{
    proof {
        reveal(vmstat_arms_5);
        assert(ts.deep_view()[0] =~= ts@[0]@);
    }
    let t0 = ts[0].as_slice();
    if token_eq(t0, "numa_other") {
        match parse_vmstat_field(ts) {
            Ok(v) => {
                st.numa_other = v;
                Ok(())
            },
            Err(k) => Err(k),
        }
    } else if token_eq(t0, "nr_inactive_anon") {
        match parse_vmstat_field(ts) {
            Ok(v) => {
                st.nr_inactive_anon = v;
                Ok(())
            },
            Err(k) => Err(k),
        }
    } else if token_eq(t0, "nr_active_anon") {
        match parse_vmstat_field(ts) {
            Ok(v) => {
                st.nr_active_anon = v;
                Ok(())
            },
            Err(k) => Err(k),
        }
    } else if token_eq(t0, "nr_inactive_file") {
        match parse_vmstat_field(ts) {
            Ok(v) => {
                st.nr_inactive_file = v;
                Ok(())
            },
            Err(k) => Err(k),
        }
    } else {
        apply_arms_6(st, ts)
    }
}

/// Apply one group of known names, as [`vmstat_arms_6`] says.
#[verifier::rlimit(100)]
fn apply_arms_6(st: &mut ProcVmStat, ts: &Vec<Vec<char>>) -> (r: Result<(), DecodeErr>)
    requires
        ts@.len() > 0,
    ensures
        vmstat_arms_6(*old(st), ts.deep_view()) matches Ok(m2) ==> (r is Ok && *final(st)
            == m2),
        vmstat_arms_6(*old(st), ts.deep_view()) matches Err(k) ==> r == Err::<(), DecodeErr>(
            k,
        ),
{
    proof {
        reveal(vmstat_arms_6);
        assert(ts.deep_view()[0] =~= ts@[0]@);
    }
    let t0 = ts[0].as_slice();
    if token_eq(t0, "nr_active_file") {
        match parse_vmstat_field(ts) {
            Ok(v) => {
                st.nr_active_file = v;
                Ok(())
            },
            Err(k) => Err(k),
        }
    } else if token_eq(t0, "nr_unevictable") {
        match parse_vmstat_field(ts) {
            Ok(v) => {
                st.nr_unevictable = v;
                Ok(())
            },
            Err(k) => Err(k),
        }
    } else if token_eq(t0, "nr_slab_reclaimable") {
        match parse_vmstat_field(ts) {
            Ok(v) => {
                st.nr_slab_reclaimable = v;
                Ok(())
            },
            Err(k) => Err(k),
        }
    } else if token_eq(t0, "nr_slab_unreclaimable") {
        match parse_vmstat_field(ts) {
            Ok(v) => {
                st.nr_slab_unreclaimable = v;
                Ok(())
            },
            Err(k) => Err(k),
        }
    } else {
        apply_arms_7(st, ts)
    }
}

/// Apply one group of known names, as [`vmstat_arms_7`] says.
#[verifier::rlimit(100)]
fn apply_arms_7(st: &mut ProcVmStat, ts: &Vec<Vec<char>>) -> (r: Result<(), DecodeErr>)
    requires
        ts@.len() > 0,
    ensures
        vmstat_arms_7(*old(st), ts.deep_view()) matches Ok(m2) ==> (r is Ok && *final(st)
            == m2),
        vmstat_arms_7(*old(st), ts.deep_view()) matches Err(k) ==> r == Err::<(), DecodeErr>(
            k,
        ),
{
    proof {
        reveal(vmstat_arms_7);
        assert(ts.deep_view()[0] =~= ts@[0]@);
    }
    let t0 = ts[0].as_slice();
    if token_eq(t0, "nr_isolated_anon") {
        match parse_vmstat_field(ts) {
            Ok(v) => {
                st.nr_isolated_anon = v;
                Ok(())
            },
            Err(k) => Err(k),
        }
    } else if token_eq(t0, "nr_isolated_file") {
        match parse_vmstat_field(ts) {
            Ok(v) => {
                st.nr_isolated_file = v;
                Ok(())
            },
            Err(k) => Err(k),
        }
    } else if token_eq(t0, "workingset_nodes") {
        match parse_vmstat_field(ts) {
            Ok(v) => {
                st.workingset_nodes = Some(v);
                Ok(())
            },
            Err(k) => Err(k),
        }
    } else if token_eq(t0, "workingset_refault_anon") {
        match parse_vmstat_field(ts) {
            Ok(v) => {
                st.workingset_refault_anon = Some(v);
                Ok(())
            },
            Err(k) => Err(k),
        }
    } else {
        apply_arms_8(st, ts)
    }
}

/// Apply one group of known names, as [`vmstat_arms_8`] says.
#[verifier::rlimit(100)]
fn apply_arms_8(st: &mut ProcVmStat, ts: &Vec<Vec<char>>) -> (r: Result<(), DecodeErr>)
    requires
        ts@.len() > 0,
    ensures
        vmstat_arms_8(*old(st), ts.deep_view()) matches Ok(m2) ==> (r is Ok && *final(st)
            == m2),
        vmstat_arms_8(*old(st), ts.deep_view()) matches Err(k) ==> r == Err::<(), DecodeErr>(
            k,
        ),
{
    proof {
        reveal(vmstat_arms_8);
        assert(ts.deep_view()[0] =~= ts@[0]@);
    }
    let t0 = ts[0].as_slice();
    if token_eq(t0, "workingset_refault_file") {
        match parse_vmstat_field(ts) {
            Ok(v) => {
                st.workingset_refault_file = Some(v);
                Ok(())
            },
            Err(k) => Err(k),
        }
    } else if token_eq(t0, "workingset_activate_anon") {
        match parse_vmstat_field(ts) {
            Ok(v) => {
                st.workingset_activate_anon = Some(v);
                Ok(())
            },
            Err(k) => Err(k),
        }
    } else if token_eq(t0, "workingset_activate_file") {
        match parse_vmstat_field(ts) {
            Ok(v) => {
                st.workingset_activate_file = Some(v);
                Ok(())
            },
            Err(k) => Err(k),
        }
    } else if token_eq(t0, "workingset_restore_file") {
        match parse_vmstat_field(ts) {
            Ok(v) => {
                st.workingset_restore_file = Some(v);
                Ok(())
            },
            Err(k) => Err(k),
        }
    } else {
        apply_arms_9(st, ts)
    }
}

/// Apply one group of known names, as [`vmstat_arms_9`] says.
#[verifier::rlimit(100)]
fn apply_arms_9(st: &mut ProcVmStat, ts: &Vec<Vec<char>>) -> (r: Result<(), DecodeErr>)
    requires
        ts@.len() > 0,
    ensures
        vmstat_arms_9(*old(st), ts.deep_view()) matches Ok(m2) ==> (r is Ok && *final(st)
            == m2),
        vmstat_arms_9(*old(st), ts.deep_view()) matches Err(k) ==> r == Err::<(), DecodeErr>(
            k,
        ),
{
    proof {
        reveal(vmstat_arms_9);
        assert(ts.deep_view()[0] =~= ts@[0]@);
    }
    let t0 = ts[0].as_slice();
    if token_eq(t0, "workingset_restore_anon") {
        match parse_vmstat_field(ts) {
            Ok(v) => {
                st.workingset_restore_anon = Some(v);
                Ok(())
            },
            Err(k) => Err(k),
        }
    } else if token_eq(t0, "workingset_nodereclaim") {
        match parse_vmstat_field(ts) {
            Ok(v) => {
                st.workingset_nodereclaim = v;
                Ok(())
            },
            Err(k) => Err(k),
        }
    } else if token_eq(t0, "nr_anon_pages") {
        match parse_vmstat_field(ts) {
            Ok(v) => {
                st.nr_anon_pages = v;
                Ok(())
            },
            Err(k) => Err(k),
        }
    } else if token_eq(t0, "nr_mapped") {
        match parse_vmstat_field(ts) {
            Ok(v) => {
                st.nr_mapped = v;
                Ok(())
            },
            Err(k) => Err(k),
        }
    } else {
        apply_arms_10(st, ts)
    }
}

/// Apply one group of known names, as [`vmstat_arms_10`] says.
#[verifier::rlimit(100)]
fn apply_arms_10(st: &mut ProcVmStat, ts: &Vec<Vec<char>>) -> (r: Result<(), DecodeErr>)
    requires
        ts@.len() > 0,
    ensures
        vmstat_arms_10(*old(st), ts.deep_view()) matches Ok(m2) ==> (r is Ok && *final(st)
            == m2),
        vmstat_arms_10(*old(st), ts.deep_view()) matches Err(k) ==> r == Err::<(), DecodeErr>(
            k,
        ),
{
    proof {
        reveal(vmstat_arms_10);
        assert(ts.deep_view()[0] =~= ts@[0]@);
    }
    let t0 = ts[0].as_slice();
    if token_eq(t0, "nr_file_pages") {
        match parse_vmstat_field(ts) {
            Ok(v) => {
                st.nr_file_pages = v;
                Ok(())
            },
            Err(k) => Err(k),
        }
    } else if token_eq(t0, "nr_dirty") {
        match parse_vmstat_field(ts) {
            Ok(v) => {
                st.nr_dirty = v;
                Ok(())
            },
            Err(k) => Err(k),
        }
    } else if token_eq(t0, "nr_writeback") {
        match parse_vmstat_field(ts) {
            Ok(v) => {
                st.nr_writeback = v;
                Ok(())
            },
            Err(k) => Err(k),
        }
    } else if token_eq(t0, "nr_writeback_temp") {
        match parse_vmstat_field(ts) {
            Ok(v) => {
                st.nr_writeback_temp = v;
                Ok(())
            },
            Err(k) => Err(k),
        }
    } else {
        apply_arms_11(st, ts)
    }
}

/// Apply one group of known names, as [`vmstat_arms_11`] says.
#[verifier::rlimit(100)]
fn apply_arms_11(st: &mut ProcVmStat, ts: &Vec<Vec<char>>) -> (r: Result<(), DecodeErr>)
    requires
        ts@.len() > 0,
    ensures
        vmstat_arms_11(*old(st), ts.deep_view()) matches Ok(m2) ==> (r is Ok && *final(st)
            == m2),
        vmstat_arms_11(*old(st), ts.deep_view()) matches Err(k) ==> r == Err::<(), DecodeErr>(
            k,
        ),
{
    proof {
        reveal(vmstat_arms_11);
        assert(ts.deep_view()[0] =~= ts@[0]@);
    }
    let t0 = ts[0].as_slice();
    if token_eq(t0, "nr_shmem") {
        match parse_vmstat_field(ts) {
            Ok(v) => {
                st.nr_shmem = v;
                Ok(())
            },
            Err(k) => Err(k),
        }
    } else if token_eq(t0, "nr_shmem_hugepages") {
        match parse_vmstat_field(ts) {
            Ok(v) => {
                st.nr_shmem_hugepages = v;
                Ok(())
            },
            Err(k) => Err(k),
        }
    } else if token_eq(t0, "nr_shmem_pmdmapped") {
        match parse_vmstat_field(ts) {
            Ok(v) => {
                st.nr_shmem_pmdmapped = v;
                Ok(())
            },
            Err(k) => Err(k),
        }
    } else if token_eq(t0, "nr_file_hugepages") {
        match parse_vmstat_field(ts) {
            Ok(v) => {
                st.nr_file_hugepages = Some(v);
                Ok(())
            },
            Err(k) => Err(k),
        }
    } else {
        apply_arms_12(st, ts)
    }
}

/// Apply one group of known names, as [`vmstat_arms_12`] says.
#[verifier::rlimit(100)]
fn apply_arms_12(st: &mut ProcVmStat, ts: &Vec<Vec<char>>) -> (r: Result<(), DecodeErr>)
    requires
        ts@.len() > 0,
    ensures
        vmstat_arms_12(*old(st), ts.deep_view()) matches Ok(m2) ==> (r is Ok && *final(st)
            == m2),
        vmstat_arms_12(*old(st), ts.deep_view()) matches Err(k) ==> r == Err::<(), DecodeErr>(
            k,
        ),
{
    proof {
        reveal(vmstat_arms_12);
        assert(ts.deep_view()[0] =~= ts@[0]@);
    }
    let t0 = ts[0].as_slice();
    if token_eq(t0, "nr_file_pmdmapped") {
        match parse_vmstat_field(ts) {
            Ok(v) => {
                st.nr_file_pmdmapped = Some(v);
                Ok(())
            },
            Err(k) => Err(k),
        }
    } else if token_eq(t0, "nr_anon_transparent_hugepages") {
        match parse_vmstat_field(ts) {
            Ok(v) => {
                st.nr_anon_transparent_hugepages = v;
                Ok(())
            },
            Err(k) => Err(k),
        }
    } else if token_eq(t0, "nr_vmscan_write") {
        match parse_vmstat_field(ts) {
            Ok(v) => {
                st.nr_vmscan_write = v;
                Ok(())
            },
            Err(k) => Err(k),
        }
    } else if token_eq(t0, "nr_vmscan_immediate_reclaim") {
        match parse_vmstat_field(ts) {
            Ok(v) => {
                st.nr_vmscan_immediate_reclaim = v;
                Ok(())
            },
            Err(k) => Err(k),
        }
    } else {
        apply_arms_13(st, ts)
    }
}

/// Apply one group of known names, as [`vmstat_arms_13`] says.
#[verifier::rlimit(100)]
fn apply_arms_13(st: &mut ProcVmStat, ts: &Vec<Vec<char>>) -> (r: Result<(), DecodeErr>)
    requires
        ts@.len() > 0,
    ensures
        vmstat_arms_13(*old(st), ts.deep_view()) matches Ok(m2) ==> (r is Ok && *final(st)
            == m2),
        vmstat_arms_13(*old(st), ts.deep_view()) matches Err(k) ==> r == Err::<(), DecodeErr>(
            k,
        ),
{
    proof {
        reveal(vmstat_arms_13);
        assert(ts.deep_view()[0] =~= ts@[0]@);
    }
    let t0 = ts[0].as_slice();
    if token_eq(t0, "nr_dirtied") {
        match parse_vmstat_field(ts) {
            Ok(v) => {
                st.nr_dirtied = v;
                Ok(())
            },
            Err(k) => Err(k),
        }
    } else if token_eq(t0, "nr_written") {
        match parse_vmstat_field(ts) {
            Ok(v) => {
                st.nr_written = v;
                Ok(())
            },
            Err(k) => Err(k),
        }
    } else if token_eq(t0, "nr_throttled_written") {
        match parse_vmstat_field(ts) {
            Ok(v) => {
                st.nr_throttled_written = Some(v);
                Ok(())
            },
            Err(k) => Err(k),
        }
    } else if token_eq(t0, "nr_kernel_misc_reclaimable") {
        match parse_vmstat_field(ts) {
            Ok(v) => {
                st.nr_kernel_misc_reclaimable = Some(v);
                Ok(())
            },
            Err(k) => Err(k),
        }
    } else {
        apply_arms_14(st, ts)
    }
}

/// Apply one group of known names, as [`vmstat_arms_14`] says.
#[verifier::rlimit(100)]
fn apply_arms_14(st: &mut ProcVmStat, ts: &Vec<Vec<char>>) -> (r: Result<(), DecodeErr>)
    requires
        ts@.len() > 0,
    ensures
        vmstat_arms_14(*old(st), ts.deep_view()) matches Ok(m2) ==> (r is Ok && *final(st)
            == m2),
        vmstat_arms_14(*old(st), ts.deep_view()) matches Err(k) ==> r == Err::<(), DecodeErr>(
            k,
        ),
{
    proof {
        reveal(vmstat_arms_14);
        assert(ts.deep_view()[0] =~= ts@[0]@);
    }
    let t0 = ts[0].as_slice();
    if token_eq(t0, "nr_foll_pin_acquired") {
        match parse_vmstat_field(ts) {
            Ok(v) => {
                st.nr_foll_pin_acquired = Some(v);
                Ok(())
            },
            Err(k) => Err(k),
        }
    } else if token_eq(t0, "nr_foll_pin_released") {
        match parse_vmstat_field(ts) {
            Ok(v) => {
                st.nr_foll_pin_released = Some(v);
                Ok(())
            },
            Err(k) => Err(k),
        }
    } else if token_eq(t0, "nr_kernel_stack") {
        match parse_vmstat_field(ts) {
            Ok(v) => {
                st.nr_kernel_stack = v;
                Ok(())
            },
            Err(k) => Err(k),
        }
    } else if token_eq(t0, "nr_shadow_call_stack") {
        match parse_vmstat_field(ts) {
            Ok(v) => {
                st.nr_shadow_call_stack = Some(v);
                Ok(())
            },
            Err(k) => Err(k),
        }
    } else {
        apply_arms_15(st, ts)
    }
}

/// Apply one group of known names, as [`vmstat_arms_15`] says.
#[verifier::rlimit(100)]
fn apply_arms_15(st: &mut ProcVmStat, ts: &Vec<Vec<char>>) -> (r: Result<(), DecodeErr>)
    requires
        ts@.len() > 0,
    ensures
        vmstat_arms_15(*old(st), ts.deep_view()) matches Ok(m2) ==> (r is Ok && *final(st)
            == m2),
        vmstat_arms_15(*old(st), ts.deep_view()) matches Err(k) ==> r == Err::<(), DecodeErr>(
            k,
        ),
{
    proof {
        reveal(vmstat_arms_15);
        assert(ts.deep_view()[0] =~= ts@[0]@);
    }
    let t0 = ts[0].as_slice();
    if token_eq(t0, "nr_page_table_pages") {
        match parse_vmstat_field(ts) {
            Ok(v) => {
                st.nr_page_table_pages = v;
                Ok(())
            },
            Err(k) => Err(k),
        }
    } else if token_eq(t0, "nr_sec_page_table_pages") {
        match parse_vmstat_field(ts) {
            Ok(v) => {
                st.nr_sec_page_table_pages = Some(v);
                Ok(())
            },
            Err(k) => Err(k),
        }
    } else if token_eq(t0, "nr_swapcached") {
        match parse_vmstat_field(ts) {
            Ok(v) => {
                st.nr_swapcached = Some(v);
                Ok(())
            },
            Err(k) => Err(k),
        }
    } else if token_eq(t0, "pgpromote_success") {
        match parse_vmstat_field(ts) {
            Ok(v) => {
                st.pgpromote_success = Some(v);
                Ok(())
            },
            Err(k) => Err(k),
        }
    } else {
        apply_arms_16(st, ts)
    }
}

/// Apply one group of known names, as [`vmstat_arms_16`] says.
#[verifier::rlimit(100)]
fn apply_arms_16(st: &mut ProcVmStat, ts: &Vec<Vec<char>>) -> (r: Result<(), DecodeErr>)
    requires
        ts@.len() > 0,
    ensures
        vmstat_arms_16(*old(st), ts.deep_view()) matches Ok(m2) ==> (r is Ok && *final(st)
            == m2),
        vmstat_arms_16(*old(st), ts.deep_view()) matches Err(k) ==> r == Err::<(), DecodeErr>(
            k,
        ),
{
    proof {
        reveal(vmstat_arms_16);
        assert(ts.deep_view()[0] =~= ts@[0]@);
    }
    let t0 = ts[0].as_slice();
    if token_eq(t0, "pgpromote_candidate") {
        match parse_vmstat_field(ts) {
            Ok(v) => {
                st.pgpromote_candidate = Some(v);
                Ok(())
            },
            Err(k) => Err(k),
        }
    } else if token_eq(t0, "nr_dirty_threshold") {
        match parse_vmstat_field(ts) {
            Ok(v) => {
                st.nr_dirty_threshold = v;
                Ok(())
            },
            Err(k) => Err(k),
        }
    } else if token_eq(t0, "nr_dirty_background_threshold") {
        match parse_vmstat_field(ts) {
            Ok(v) => {
                st.nr_dirty_background_threshold = v;
                Ok(())
            },
            Err(k) => Err(k),
        }
    } else if token_eq(t0, "pgpgin") {
        match parse_vmstat_field(ts) {
            Ok(v) => {
                st.pgpgin = v;
                Ok(())
            },
            Err(k) => Err(k),
        }
    } else {
        apply_arms_17(st, ts)
    }
}

/// Apply one group of known names, as [`vmstat_arms_17`] says.
#[verifier::rlimit(100)]
fn apply_arms_17(st: &mut ProcVmStat, ts: &Vec<Vec<char>>) -> (r: Result<(), DecodeErr>)
    requires
        ts@.len() > 0,
    ensures
        vmstat_arms_17(*old(st), ts.deep_view()) matches Ok(m2) ==> (r is Ok && *final(st)
            == m2),
        vmstat_arms_17(*old(st), ts.deep_view()) matches Err(k) ==> r == Err::<(), DecodeErr>(
            k,
        ),
{
    proof {
        reveal(vmstat_arms_17);
        assert(ts.deep_view()[0] =~= ts@[0]@);
    }
    let t0 = ts[0].as_slice();
    if token_eq(t0, "pgpgout") {
        match parse_vmstat_field(ts) {
            Ok(v) => {
                st.pgpgout = v;
                Ok(())
            },
            Err(k) => Err(k),
        }
    } else if token_eq(t0, "pswpin") {
        match parse_vmstat_field(ts) {
            Ok(v) => {
                st.pswpin = v;
                Ok(())
            },
            Err(k) => Err(k),
        }
    } else if token_eq(t0, "pswpout") {
        match parse_vmstat_field(ts) {
            Ok(v) => {
                st.pswpout = v;
                Ok(())
            },
            Err(k) => Err(k),
        }
    } else if token_eq(t0, "pgalloc_dma") {
        match parse_vmstat_field(ts) {
            Ok(v) => {
                st.pgalloc_dma = v;
                Ok(())
            },
            Err(k) => Err(k),
        }
    } else {
        apply_arms_18(st, ts)
    }
}

/// Apply one group of known names, as [`vmstat_arms_18`] says.
#[verifier::rlimit(100)]
fn apply_arms_18(st: &mut ProcVmStat, ts: &Vec<Vec<char>>) -> (r: Result<(), DecodeErr>)
    requires
        ts@.len() > 0,
    ensures
        vmstat_arms_18(*old(st), ts.deep_view()) matches Ok(m2) ==> (r is Ok && *final(st)
            == m2),
        vmstat_arms_18(*old(st), ts.deep_view()) matches Err(k) ==> r == Err::<(), DecodeErr>(
            k,
        ),
{
    proof {
        reveal(vmstat_arms_18);
        assert(ts.deep_view()[0] =~= ts@[0]@);
    }
    let t0 = ts[0].as_slice();
    if token_eq(t0, "pgalloc_dma32") {
        match parse_vmstat_field(ts) {
            Ok(v) => {
                st.pgalloc_dma32 = v;
                Ok(())
            },
            Err(k) => Err(k),
        }
    } else if token_eq(t0, "pgalloc_normal") {
        match parse_vmstat_field(ts) {
            Ok(v) => {
                st.pgalloc_normal = v;
                Ok(())
            },
            Err(k) => Err(k),
        }
    } else if token_eq(t0, "pgalloc_movable") {
        match parse_vmstat_field(ts) {
            Ok(v) => {
                st.nr_file_pages = v;
                Ok(())
            },
            Err(k) => Err(k),
        }
    } else if token_eq(t0, "pgalloc_device") {
        match parse_vmstat_field(ts) {
            Ok(v) => {
                st.pgalloc_device = Some(v);
                Ok(())
            },
            Err(k) => Err(k),
        }
    } else {
        apply_arms_19(st, ts)
    }
}

/// Apply one group of known names, as [`vmstat_arms_19`] says.
#[verifier::rlimit(100)]
fn apply_arms_19(st: &mut ProcVmStat, ts: &Vec<Vec<char>>) -> (r: Result<(), DecodeErr>)
    requires
        ts@.len() > 0,
    ensures
        vmstat_arms_19(*old(st), ts.deep_view()) matches Ok(m2) ==> (r is Ok && *final(st)
            == m2),
        vmstat_arms_19(*old(st), ts.deep_view()) matches Err(k) ==> r == Err::<(), DecodeErr>(
            k,
        ),
{
    proof {
        reveal(vmstat_arms_19);
        assert(ts.deep_view()[0] =~= ts@[0]@);
    }
    let t0 = ts[0].as_slice();
    if token_eq(t0, "allocstall_dma") {
        match parse_vmstat_field(ts) {
            Ok(v) => {
                st.allocstall_dma = v;
                Ok(())
            },
            Err(k) => Err(k),
        }
    } else if token_eq(t0, "allocstall_dma32") {
        match parse_vmstat_field(ts) {
            Ok(v) => {
                st.allocstall_dma32 = v;
                Ok(())
            },
            Err(k) => Err(k),
        }
    } else if token_eq(t0, "allocstall_normal") {
        match parse_vmstat_field(ts) {
            Ok(v) => {
                st.allocstall_normal = v;
                Ok(())
            },
            Err(k) => Err(k),
        }
    } else if token_eq(t0, "allocstall_movable") {
        match parse_vmstat_field(ts) {
            Ok(v) => {
                st.allocstall_movable = v;
                Ok(())
            },
            Err(k) => Err(k),
        }
    } else {
        apply_arms_20(st, ts)
    }
}

/// Apply one group of known names, as [`vmstat_arms_20`] says.
#[verifier::rlimit(100)]
fn apply_arms_20(st: &mut ProcVmStat, ts: &Vec<Vec<char>>) -> (r: Result<(), DecodeErr>)
    requires
        ts@.len() > 0,
    ensures
        vmstat_arms_20(*old(st), ts.deep_view()) matches Ok(m2) ==> (r is Ok && *final(st)
            == m2),
        vmstat_arms_20(*old(st), ts.deep_view()) matches Err(k) ==> r == Err::<(), DecodeErr>(
            k,
        ),
{
    proof {
        reveal(vmstat_arms_20);
        assert(ts.deep_view()[0] =~= ts@[0]@);
    }
    let t0 = ts[0].as_slice();
    if token_eq(t0, "allocstall_device") {
        match parse_vmstat_field(ts) {
            Ok(v) => {
                st.allocstall_device = Some(v);
                Ok(())
            },
            Err(k) => Err(k),
        }
    } else if token_eq(t0, "pgskip_dma") {
        match parse_vmstat_field(ts) {
            Ok(v) => {
                st.pgskip_dma = v;
                Ok(())
            },
            Err(k) => Err(k),
        }
    } else if token_eq(t0, "pgskip_dma32") {
        match parse_vmstat_field(ts) {
            Ok(v) => {
                st.pgskip_dma32 = v;
                Ok(())
            },
            Err(k) => Err(k),
        }
    } else if token_eq(t0, "pgskip_normal") {
        match parse_vmstat_field(ts) {
            Ok(v) => {
                st.pgskip_normal = v;
                Ok(())
            },
            Err(k) => Err(k),
        }
    } else {
        apply_arms_21(st, ts)
    }
}

/// Apply one group of known names, as [`vmstat_arms_21`] says.
#[verifier::rlimit(100)]
fn apply_arms_21(st: &mut ProcVmStat, ts: &Vec<Vec<char>>) -> (r: Result<(), DecodeErr>)
    requires
        ts@.len() > 0,
    ensures
        vmstat_arms_21(*old(st), ts.deep_view()) matches Ok(m2) ==> (r is Ok && *final(st)
            == m2),
        vmstat_arms_21(*old(st), ts.deep_view()) matches Err(k) ==> r == Err::<(), DecodeErr>(
            k,
        ),
{
    proof {
        reveal(vmstat_arms_21);
        assert(ts.deep_view()[0] =~= ts@[0]@);
    }
    let t0 = ts[0].as_slice();
    if token_eq(t0, "pgskip_movable") {
        match parse_vmstat_field(ts) {
            Ok(v) => {
                st.pgskip_movable = v;
                Ok(())
            },
            Err(k) => Err(k),
        }
    } else if token_eq(t0, "pgskip_device") {
        match parse_vmstat_field(ts) {
            Ok(v) => {
                st.pgskip_device = Some(v);
                Ok(())
            },
            Err(k) => Err(k),
        }
    } else if token_eq(t0, "pgfree") {
        match parse_vmstat_field(ts) {
            Ok(v) => {
                st.pgfree = v;
                Ok(())
            },
            Err(k) => Err(k),
        }
    } else if token_eq(t0, "pgactivate") {
        match parse_vmstat_field(ts) {
            Ok(v) => {
                st.pgactivate = v;
                Ok(())
            },
            Err(k) => Err(k),
        }
    } else {
        apply_arms_22(st, ts)
    }
}

/// Apply one group of known names, as [`vmstat_arms_22`] says.
#[verifier::rlimit(100)]
fn apply_arms_22(st: &mut ProcVmStat, ts: &Vec<Vec<char>>) -> (r: Result<(), DecodeErr>)
    requires
        ts@.len() > 0,
    ensures
        vmstat_arms_22(*old(st), ts.deep_view()) matches Ok(m2) ==> (r is Ok && *final(st)
            == m2),
        vmstat_arms_22(*old(st), ts.deep_view()) matches Err(k) ==> r == Err::<(), DecodeErr>(
            k,
        ),
{
    proof {
        reveal(vmstat_arms_22);
        assert(ts.deep_view()[0] =~= ts@[0]@);
    }
    let t0 = ts[0].as_slice();
    if token_eq(t0, "pgdeactivate") {
        match parse_vmstat_field(ts) {
            Ok(v) => {
                st.pgdeactivate = v;
                Ok(())
            },
            Err(k) => Err(k),
        }
    } else if token_eq(t0, "pglazyfree") {
        match parse_vmstat_field(ts) {
            Ok(v) => {
                st.pglazyfree = v;
                Ok(())
            },
            Err(k) => Err(k),
        }
    } else if token_eq(t0, "pgfault") {
        match parse_vmstat_field(ts) {
            Ok(v) => {
                st.pgfault = v;
                Ok(())
            },
            Err(k) => Err(k),
        }
    } else if token_eq(t0, "pgmajfault") {
        match parse_vmstat_field(ts) {
            Ok(v) => {
                st.pgmajfault = v;
                Ok(())
            },
            Err(k) => Err(k),
        }
    } else {
        apply_arms_23(st, ts)
    }
}

/// Apply one group of known names, as [`vmstat_arms_23`] says.
#[verifier::rlimit(100)]
fn apply_arms_23(st: &mut ProcVmStat, ts: &Vec<Vec<char>>) -> (r: Result<(), DecodeErr>)
    requires
        ts@.len() > 0,
    ensures
        vmstat_arms_23(*old(st), ts.deep_view()) matches Ok(m2) ==> (r is Ok && *final(st)
            == m2),
        vmstat_arms_23(*old(st), ts.deep_view()) matches Err(k) ==> r == Err::<(), DecodeErr>(
            k,
        ),
{
    proof {
        reveal(vmstat_arms_23);
        assert(ts.deep_view()[0] =~= ts@[0]@);
    }
    let t0 = ts[0].as_slice();
    if token_eq(t0, "pglazyfreed") {
        match parse_vmstat_field(ts) {
            Ok(v) => {
                st.pglazyfreed = v;
                Ok(())
            },
            Err(k) => Err(k),
        }
    } else if token_eq(t0, "pgrefill") {
        match parse_vmstat_field(ts) {
            Ok(v) => {
                st.pgrefill = v;
                Ok(())
            },
            Err(k) => Err(k),
        }
    } else if token_eq(t0, "pgreuse") {
        match parse_vmstat_field(ts) {
            Ok(v) => {
                st.pgreuse = Some(v);
                Ok(())
            },
            Err(k) => Err(k),
        }
    } else if token_eq(t0, "pgsteal_kswapd") {
        match parse_vmstat_field(ts) {
            Ok(v) => {
                st.pgsteal_kswapd = v;
                Ok(())
            },
            Err(k) => Err(k),
        }
    } else {
        apply_arms_24(st, ts)
    }
}

/// Apply one group of known names, as [`vmstat_arms_24`] says.
#[verifier::rlimit(100)]
fn apply_arms_24(st: &mut ProcVmStat, ts: &Vec<Vec<char>>) -> (r: Result<(), DecodeErr>)
    requires
        ts@.len() > 0,
    ensures
        vmstat_arms_24(*old(st), ts.deep_view()) matches Ok(m2) ==> (r is Ok && *final(st)
            == m2),
        vmstat_arms_24(*old(st), ts.deep_view()) matches Err(k) ==> r == Err::<(), DecodeErr>(
            k,
        ),
{
    proof {
        reveal(vmstat_arms_24);
        assert(ts.deep_view()[0] =~= ts@[0]@);
    }
    let t0 = ts[0].as_slice();
    if token_eq(t0, "pgsteal_direct") {
        match parse_vmstat_field(ts) {
            Ok(v) => {
                st.pgsteal_direct = v;
                Ok(())
            },
            Err(k) => Err(k),
        }
    } else if token_eq(t0, "pgsteal_khugepaged") {
        match parse_vmstat_field(ts) {
            Ok(v) => {
                st.pgsteal_khugepaged = Some(v);
                Ok(())
            },
            Err(k) => Err(k),
        }
    } else if token_eq(t0, "pgdemote_kswapd") {
        match parse_vmstat_field(ts) {
            Ok(v) => {
                st.pgdemote_kswapd = Some(v);
                Ok(())
            },
            Err(k) => Err(k),
        }
    } else if token_eq(t0, "pgdemote_direct") {
        match parse_vmstat_field(ts) {
            Ok(v) => {
                st.pgdemote_direct = Some(v);
                Ok(())
            },
            Err(k) => Err(k),
        }
    } else {
        apply_arms_25(st, ts)
    }
}

/// Apply one group of known names, as [`vmstat_arms_25`] says.
#[verifier::rlimit(100)]
fn apply_arms_25(st: &mut ProcVmStat, ts: &Vec<Vec<char>>) -> (r: Result<(), DecodeErr>)
    requires
        ts@.len() > 0,
    ensures
        vmstat_arms_25(*old(st), ts.deep_view()) matches Ok(m2) ==> (r is Ok && *final(st)
            == m2),
        vmstat_arms_25(*old(st), ts.deep_view()) matches Err(k) ==> r == Err::<(), DecodeErr>(
            k,
        ),
{
    proof {
        reveal(vmstat_arms_25);
        assert(ts.deep_view()[0] =~= ts@[0]@);
    }
    let t0 = ts[0].as_slice();
    if token_eq(t0, "pgdemote_khugepaged") {
        match parse_vmstat_field(ts) {
            Ok(v) => {
                st.pgdemote_khugepaged = Some(v);
                Ok(())
            },
            Err(k) => Err(k),
        }
    } else if token_eq(t0, "pgscan_kswapd") {
        match parse_vmstat_field(ts) {
            Ok(v) => {
                st.pgscan_kswapd = v;
                Ok(())
            },
            Err(k) => Err(k),
        }
    } else if token_eq(t0, "pgscan_direct") {
        match parse_vmstat_field(ts) {
            Ok(v) => {
                st.pgscan_direct = v;
                Ok(())
            },
            Err(k) => Err(k),
        }
    } else if token_eq(t0, "pgscan_khugepaged") {
        match parse_vmstat_field(ts) {
            Ok(v) => {
                st.pgscan_khugepaged = Some(v);
                Ok(())
            },
            Err(k) => Err(k),
        }
    } else {
        apply_arms_26(st, ts)
    }
}

/// Apply one group of known names, as [`vmstat_arms_26`] says.
#[verifier::rlimit(100)]
fn apply_arms_26(st: &mut ProcVmStat, ts: &Vec<Vec<char>>) -> (r: Result<(), DecodeErr>)
    requires
        ts@.len() > 0,
    ensures
        vmstat_arms_26(*old(st), ts.deep_view()) matches Ok(m2) ==> (r is Ok && *final(st)
            == m2),
        vmstat_arms_26(*old(st), ts.deep_view()) matches Err(k) ==> r == Err::<(), DecodeErr>(
            k,
        ),
{
    proof {
        reveal(vmstat_arms_26);
        assert(ts.deep_view()[0] =~= ts@[0]@);
    }
    let t0 = ts[0].as_slice();
    if token_eq(t0, "pgscan_direct_throttle") {
        match parse_vmstat_field(ts) {
            Ok(v) => {
                st.pgscan_direct_throttle = v;
                Ok(())
            },
            Err(k) => Err(k),
        }
    } else if token_eq(t0, "pgscan_anon") {
        match parse_vmstat_field(ts) {
            Ok(v) => {
                st.pgscan_anon = Some(v);
                Ok(())
            },
            Err(k) => Err(k),
        }
    } else if token_eq(t0, "pgscan_file") {
        match parse_vmstat_field(ts) {
            Ok(v) => {
                st.pgscan_file = Some(v);
                Ok(())
            },
            Err(k) => Err(k),
        }
    } else if token_eq(t0, "pgsteal_anon") {
        match parse_vmstat_field(ts) {
            Ok(v) => {
                st.pgsteal_anon = Some(v);
                Ok(())
            },
            Err(k) => Err(k),
        }
    } else {
        apply_arms_27(st, ts)
    }
}

/// Apply one group of known names, as [`vmstat_arms_27`] says.
#[verifier::rlimit(100)]
fn apply_arms_27(st: &mut ProcVmStat, ts: &Vec<Vec<char>>) -> (r: Result<(), DecodeErr>)
    requires
        ts@.len() > 0,
    ensures
        vmstat_arms_27(*old(st), ts.deep_view()) matches Ok(m2) ==> (r is Ok && *final(st)
            == m2),
        vmstat_arms_27(*old(st), ts.deep_view()) matches Err(k) ==> r == Err::<(), DecodeErr>(
            k,
        ),
{
    proof {
        reveal(vmstat_arms_27);
        assert(ts.deep_view()[0] =~= ts@[0]@);
    }
    let t0 = ts[0].as_slice();
    if token_eq(t0, "pgsteal_file") {
        match parse_vmstat_field(ts) {
            Ok(v) => {
                st.pgsteal_file = Some(v);
                Ok(())
            },
            Err(k) => Err(k),
        }
    } else if token_eq(t0, "zone_reclaim_failed") {
        match parse_vmstat_field(ts) {
            Ok(v) => {
                st.zone_reclaim_failed = v;
                Ok(())
            },
            Err(k) => Err(k),
        }
    } else if token_eq(t0, "pginodesteal") {
        match parse_vmstat_field(ts) {
            Ok(v) => {
                st.pginodesteal = v;
                Ok(())
            },
            Err(k) => Err(k),
        }
    } else if token_eq(t0, "slabs_scanned") {
        match parse_vmstat_field(ts) {
            Ok(v) => {
                st.slabs_scanned = Some(v);
                Ok(())
            },
            Err(k) => Err(k),
        }
    } else {
        apply_arms_28(st, ts)
    }
}

/// Apply one group of known names, as [`vmstat_arms_28`] says.
#[verifier::rlimit(100)]
fn apply_arms_28(st: &mut ProcVmStat, ts: &Vec<Vec<char>>) -> (r: Result<(), DecodeErr>)
    requires
        ts@.len() > 0,
    ensures
        vmstat_arms_28(*old(st), ts.deep_view()) matches Ok(m2) ==> (r is Ok && *final(st)
            == m2),
        vmstat_arms_28(*old(st), ts.deep_view()) matches Err(k) ==> r == Err::<(), DecodeErr>(
            k,
        ),
{
    proof {
        reveal(vmstat_arms_28);
        assert(ts.deep_view()[0] =~= ts@[0]@);
    }
    let t0 = ts[0].as_slice();
    if token_eq(t0, "kswapd_inodesteal") {
        match parse_vmstat_field(ts) {
            Ok(v) => {
                st.kswapd_inodesteal = v;
                Ok(())
            },
            Err(k) => Err(k),
        }
    } else if token_eq(t0, "kswapd_low_wmark_hit_quickly") {
        match parse_vmstat_field(ts) {
            Ok(v) => {
                st.kswapd_low_wmark_hit_quickly = v;
                Ok(())
            },
            Err(k) => Err(k),
        }
    } else if token_eq(t0, "kswapd_high_wmark_hit_quickly") {
        match parse_vmstat_field(ts) {
            Ok(v) => {
                st.kswapd_high_wmark_hit_quickly = v;
                Ok(())
            },
            Err(k) => Err(k),
        }
    } else if token_eq(t0, "pageoutrun") {
        match parse_vmstat_field(ts) {
            Ok(v) => {
                st.pageoutrun = v;
                Ok(())
            },
            Err(k) => Err(k),
        }
    } else {
        apply_arms_29(st, ts)
    }
}

/// Apply one group of known names, as [`vmstat_arms_29`] says.
#[verifier::rlimit(100)]
fn apply_arms_29(st: &mut ProcVmStat, ts: &Vec<Vec<char>>) -> (r: Result<(), DecodeErr>)
    requires
        ts@.len() > 0,
    ensures
        vmstat_arms_29(*old(st), ts.deep_view()) matches Ok(m2) ==> (r is Ok && *final(st)
            == m2),
        vmstat_arms_29(*old(st), ts.deep_view()) matches Err(k) ==> r == Err::<(), DecodeErr>(
            k,
        ),
{
    proof {
        reveal(vmstat_arms_29);
        assert(ts.deep_view()[0] =~= ts@[0]@);
    }
    let t0 = ts[0].as_slice();
    if token_eq(t0, "pgrotated") {
        match parse_vmstat_field(ts) {
            Ok(v) => {
                st.pgrotated = v;
                Ok(())
            },
            Err(k) => Err(k),
        }
    } else if token_eq(t0, "drop_pagecache") {
        match parse_vmstat_field(ts) {
            Ok(v) => {
                st.drop_pagecache = v;
                Ok(())
            },
            Err(k) => Err(k),
        }
    } else if token_eq(t0, "drop_slab") {
        match parse_vmstat_field(ts) {
            Ok(v) => {
                st.drop_slab = v;
                Ok(())
            },
            Err(k) => Err(k),
        }
    } else if token_eq(t0, "oom_kill") {
        match parse_vmstat_field(ts) {
            Ok(v) => {
                st.oom_kill = v;
                Ok(())
            },
            Err(k) => Err(k),
        }
    } else {
        apply_arms_30(st, ts)
    }
}

/// Apply one group of known names, as [`vmstat_arms_30`] says.
#[verifier::rlimit(100)]
fn apply_arms_30(st: &mut ProcVmStat, ts: &Vec<Vec<char>>) -> (r: Result<(), DecodeErr>)
    requires
        ts@.len() > 0,
    ensures
        vmstat_arms_30(*old(st), ts.deep_view()) matches Ok(m2) ==> (r is Ok && *final(st)
            == m2),
        vmstat_arms_30(*old(st), ts.deep_view()) matches Err(k) ==> r == Err::<(), DecodeErr>(
            k,
        ),
{
    proof {
        reveal(vmstat_arms_30);
        assert(ts.deep_view()[0] =~= ts@[0]@);
    }
    let t0 = ts[0].as_slice();
    if token_eq(t0, "numa_pte_updates") {
        match parse_vmstat_field(ts) {
            Ok(v) => {
                st.numa_pte_updates = v;
                Ok(())
            },
            Err(k) => Err(k),
        }
    } else if token_eq(t0, "numa_huge_pte_updates") {
        match parse_vmstat_field(ts) {
            Ok(v) => {
                st.numa_huge_pte_updates = v;
                Ok(())
            },
            Err(k) => Err(k),
        }
    } else if token_eq(t0, "numa_hint_faults") {
        match parse_vmstat_field(ts) {
            Ok(v) => {
                st.numa_hint_faults = v;
                Ok(())
            },
            Err(k) => Err(k),
        }
    } else if token_eq(t0, "numa_hint_faults_local") {
        match parse_vmstat_field(ts) {
            Ok(v) => {
                st.numa_hint_faults_local = v;
                Ok(())
            },
            Err(k) => Err(k),
        }
    } else {
        apply_arms_31(st, ts)
    }
}

/// Apply one group of known names, as [`vmstat_arms_31`] says.
#[verifier::rlimit(100)]
fn apply_arms_31(st: &mut ProcVmStat, ts: &Vec<Vec<char>>) -> (r: Result<(), DecodeErr>)
    requires
        ts@.len() > 0,
    ensures
        vmstat_arms_31(*old(st), ts.deep_view()) matches Ok(m2) ==> (r is Ok && *final(st)
            == m2),
        vmstat_arms_31(*old(st), ts.deep_view()) matches Err(k) ==> r == Err::<(), DecodeErr>(
            k,
        ),
{
    proof {
        reveal(vmstat_arms_31);
        assert(ts.deep_view()[0] =~= ts@[0]@);
    }
    let t0 = ts[0].as_slice();
    if token_eq(t0, "numa_pages_migrated") {
        match parse_vmstat_field(ts) {
            Ok(v) => {
                st.numa_pages_migrated = v;
                Ok(())
            },
            Err(k) => Err(k),
        }
    } else if token_eq(t0, "pgmigrate_success") {
        match parse_vmstat_field(ts) {
            Ok(v) => {
                st.pgmigrate_success = v;
                Ok(())
            },
            Err(k) => Err(k),
        }
    } else if token_eq(t0, "pgmigrate_fail") {
        match parse_vmstat_field(ts) {
            Ok(v) => {
                st.pgmigrate_fail = v;
                Ok(())
            },
            Err(k) => Err(k),
        }
    } else if token_eq(t0, "thp_migration_success") {
        match parse_vmstat_field(ts) {
            Ok(v) => {
                st.thp_migration_success = Some(v);
                Ok(())
            },
            Err(k) => Err(k),
        }
    } else {
        apply_arms_32(st, ts)
    }
}

/// Apply one group of known names, as [`vmstat_arms_32`] says.
#[verifier::rlimit(100)]
fn apply_arms_32(st: &mut ProcVmStat, ts: &Vec<Vec<char>>) -> (r: Result<(), DecodeErr>)
    requires
        ts@.len() > 0,
    ensures
        vmstat_arms_32(*old(st), ts.deep_view()) matches Ok(m2) ==> (r is Ok && *final(st)
            == m2),
        vmstat_arms_32(*old(st), ts.deep_view()) matches Err(k) ==> r == Err::<(), DecodeErr>(
            k,
        ),
{
    proof {
        reveal(vmstat_arms_32);
        assert(ts.deep_view()[0] =~= ts@[0]@);
    }
    let t0 = ts[0].as_slice();
    if token_eq(t0, "thp_migration_fail") {
        match parse_vmstat_field(ts) {
            Ok(v) => {
                st.thp_migration_fail = Some(v);
                Ok(())
            },
            Err(k) => Err(k),
        }
    } else if token_eq(t0, "thp_migration_split") {
        match parse_vmstat_field(ts) {
            Ok(v) => {
                st.thp_migration_split = Some(v);
                Ok(())
            },
            Err(k) => Err(k),
        }
    } else if token_eq(t0, "compact_migrate_scanned") {
        match parse_vmstat_field(ts) {
            Ok(v) => {
                st.compact_migrate_scanned = v;
                Ok(())
            },
            Err(k) => Err(k),
        }
    } else if token_eq(t0, "compact_free_scanned") {
        match parse_vmstat_field(ts) {
            Ok(v) => {
                st.compact_free_scanned = v;
                Ok(())
            },
            Err(k) => Err(k),
        }
    } else {
        apply_arms_33(st, ts)
    }
}

/// Apply one group of known names, as [`vmstat_arms_33`] says.
#[verifier::rlimit(100)]
fn apply_arms_33(st: &mut ProcVmStat, ts: &Vec<Vec<char>>) -> (r: Result<(), DecodeErr>)
    requires
        ts@.len() > 0,
    ensures
        vmstat_arms_33(*old(st), ts.deep_view()) matches Ok(m2) ==> (r is Ok && *final(st)
            == m2),
        vmstat_arms_33(*old(st), ts.deep_view()) matches Err(k) ==> r == Err::<(), DecodeErr>(
            k,
        ),
{
    proof {
        reveal(vmstat_arms_33);
        assert(ts.deep_view()[0] =~= ts@[0]@);
    }
    let t0 = ts[0].as_slice();
    if token_eq(t0, "compact_isolated") {
        match parse_vmstat_field(ts) {
            Ok(v) => {
                st.compact_isolated = v;
                Ok(())
            },
            Err(k) => Err(k),
        }
    } else if token_eq(t0, "compact_stall") {
        match parse_vmstat_field(ts) {
            Ok(v) => {
                st.compact_stall = v;
                Ok(())
            },
            Err(k) => Err(k),
        }
    } else if token_eq(t0, "compact_fail") {
        match parse_vmstat_field(ts) {
            Ok(v) => {
                st.compact_fail = v;
                Ok(())
            },
            Err(k) => Err(k),
        }
    } else if token_eq(t0, "compact_success") {
        match parse_vmstat_field(ts) {
            Ok(v) => {
                st.compact_success = v;
                Ok(())
            },
            Err(k) => Err(k),
        }
    } else {
        apply_arms_34(st, ts)
    }
}

/// Apply one group of known names, as [`vmstat_arms_34`] says.
#[verifier::rlimit(100)]
fn apply_arms_34(st: &mut ProcVmStat, ts: &Vec<Vec<char>>) -> (r: Result<(), DecodeErr>)
    requires
        ts@.len() > 0,
    ensures
        vmstat_arms_34(*old(st), ts.deep_view()) matches Ok(m2) ==> (r is Ok && *final(st)
            == m2),
        vmstat_arms_34(*old(st), ts.deep_view()) matches Err(k) ==> r == Err::<(), DecodeErr>(
            k,
        ),
{
    proof {
        reveal(vmstat_arms_34);
        assert(ts.deep_view()[0] =~= ts@[0]@);
    }
    let t0 = ts[0].as_slice();
    if token_eq(t0, "compact_daemon_wake") {
        match parse_vmstat_field(ts) {
            Ok(v) => {
                st.compact_daemon_wake = v;
                Ok(())
            },
            Err(k) => Err(k),
        }
    } else if token_eq(t0, "compact_daemon_migrate_scanned") {
        match parse_vmstat_field(ts) {
            Ok(v) => {
                st.compact_daemon_migrate_scanned = v;
                Ok(())
            },
            Err(k) => Err(k),
        }
    } else if token_eq(t0, "compact_daemon_free_scanned") {
        match parse_vmstat_field(ts) {
            Ok(v) => {
                st.compact_daemon_free_scanned = v;
                Ok(())
            },
            Err(k) => Err(k),
        }
    } else if token_eq(t0, "htlb_buddy_alloc_success") {
        match parse_vmstat_field(ts) {
            Ok(v) => {
                st.htlb_buddy_alloc_success = v;
                Ok(())
            },
            Err(k) => Err(k),
        }
    } else {
        apply_arms_35(st, ts)
    }
}

/// Apply one group of known names, as [`vmstat_arms_35`] says.
#[verifier::rlimit(100)]
fn apply_arms_35(st: &mut ProcVmStat, ts: &Vec<Vec<char>>) -> (r: Result<(), DecodeErr>)
    requires
        ts@.len() > 0,
    ensures
        vmstat_arms_35(*old(st), ts.deep_view()) matches Ok(m2) ==> (r is Ok && *final(st)
            == m2),
        vmstat_arms_35(*old(st), ts.deep_view()) matches Err(k) ==> r == Err::<(), DecodeErr>(
            k,
        ),
{
    proof {
        reveal(vmstat_arms_35);
        assert(ts.deep_view()[0] =~= ts@[0]@);
    }
    let t0 = ts[0].as_slice();
    if token_eq(t0, "htlb_buddy_alloc_fail") {
        match parse_vmstat_field(ts) {
            Ok(v) => {
                st.htlb_buddy_alloc_fail = v;
                Ok(())
            },
            Err(k) => Err(k),
        }
    } else if token_eq(t0, "cma_alloc_success") {
        match parse_vmstat_field(ts) {
            Ok(v) => {
                st.cma_alloc_success = Some(v);
                Ok(())
            },
            Err(k) => Err(k),
        }
    } else if token_eq(t0, "cma_alloc_fail") {
        match parse_vmstat_field(ts) {
            Ok(v) => {
                st.cma_alloc_fail = Some(v);
                Ok(())
            },
            Err(k) => Err(k),
        }
    } else if token_eq(t0, "unevictable_pgs_culled") {
        match parse_vmstat_field(ts) {
            Ok(v) => {
                st.unevictable_pgs_culled = v;
                Ok(())
            },
            Err(k) => Err(k),
        }
    } else {
        apply_arms_36(st, ts)
    }
}

/// Apply one group of known names, as [`vmstat_arms_36`] says.
#[verifier::rlimit(100)]
fn apply_arms_36(st: &mut ProcVmStat, ts: &Vec<Vec<char>>) -> (r: Result<(), DecodeErr>)
    requires
        ts@.len() > 0,
    ensures
        vmstat_arms_36(*old(st), ts.deep_view()) matches Ok(m2) ==> (r is Ok && *final(st)
            == m2),
        vmstat_arms_36(*old(st), ts.deep_view()) matches Err(k) ==> r == Err::<(), DecodeErr>(
            k,
        ),
{
    proof {
        reveal(vmstat_arms_36);
        assert(ts.deep_view()[0] =~= ts@[0]@);
    }
    let t0 = ts[0].as_slice();
    if token_eq(t0, "unevictable_pgs_scanned") {
        match parse_vmstat_field(ts) {
            Ok(v) => {
                st.unevictable_pgs_scanned = v;
                Ok(())
            },
            Err(k) => Err(k),
        }
    } else if token_eq(t0, "unevictable_pgs_rescued") {
        match parse_vmstat_field(ts) {
            Ok(v) => {
                st.unevictable_pgs_rescued = v;
                Ok(())
            },
            Err(k) => Err(k),
        }
    } else if token_eq(t0, "unevictable_pgs_mlocked") {
        match parse_vmstat_field(ts) {
            Ok(v) => {
                st.unevictable_pgs_mlocked = v;
                Ok(())
            },
            Err(k) => Err(k),
        }
    } else if token_eq(t0, "unevictable_pgs_munlocked") {
        match parse_vmstat_field(ts) {
            Ok(v) => {
                st.unevictable_pgs_munlocked = v;
                Ok(())
            },
            Err(k) => Err(k),
        }
    } else {
        apply_arms_37(st, ts)
    }
}

/// Apply one group of known names, as [`vmstat_arms_37`] says.
#[verifier::rlimit(100)]
fn apply_arms_37(st: &mut ProcVmStat, ts: &Vec<Vec<char>>) -> (r: Result<(), DecodeErr>)
    requires
        ts@.len() > 0,
    ensures
        vmstat_arms_37(*old(st), ts.deep_view()) matches Ok(m2) ==> (r is Ok && *final(st)
            == m2),
        vmstat_arms_37(*old(st), ts.deep_view()) matches Err(k) ==> r == Err::<(), DecodeErr>(
            k,
        ),
{
    proof {
        reveal(vmstat_arms_37);
        assert(ts.deep_view()[0] =~= ts@[0]@);
    }
    let t0 = ts[0].as_slice();
    if token_eq(t0, "unevictable_pgs_cleared") {
        match parse_vmstat_field(ts) {
            Ok(v) => {
                st.unevictable_pgs_cleared = v;
                Ok(())
            },
            Err(k) => Err(k),
        }
    } else if token_eq(t0, "unevictable_pgs_stranded") {
        match parse_vmstat_field(ts) {
            Ok(v) => {
                st.unevictable_pgs_stranded = v;
                Ok(())
            },
            Err(k) => Err(k),
        }
    } else if token_eq(t0, "thp_fault_alloc") {
        match parse_vmstat_field(ts) {
            Ok(v) => {
                st.thp_fault_alloc = v;
                Ok(())
            },
            Err(k) => Err(k),
        }
    } else if token_eq(t0, "thp_fault_fallback") {
        match parse_vmstat_field(ts) {
            Ok(v) => {
                st.thp_fault_fallback = v;
                Ok(())
            },
            Err(k) => Err(k),
        }
    } else {
        apply_arms_38(st, ts)
    }
}

/// Apply one group of known names, as [`vmstat_arms_38`] says.
#[verifier::rlimit(100)]
fn apply_arms_38(st: &mut ProcVmStat, ts: &Vec<Vec<char>>) -> (r: Result<(), DecodeErr>)
    requires
        ts@.len() > 0,
    ensures
        vmstat_arms_38(*old(st), ts.deep_view()) matches Ok(m2) ==> (r is Ok && *final(st)
            == m2),
        vmstat_arms_38(*old(st), ts.deep_view()) matches Err(k) ==> r == Err::<(), DecodeErr>(
            k,
        ),
{
    proof {
        reveal(vmstat_arms_38);
        assert(ts.deep_view()[0] =~= ts@[0]@);
    }
    let t0 = ts[0].as_slice();
    if token_eq(t0, "thp_fault_fallback_charge") {
        match parse_vmstat_field(ts) {
            Ok(v) => {
                st.thp_fault_fallback_charge = Some(v);
                Ok(())
            },
            Err(k) => Err(k),
        }
    } else if token_eq(t0, "thp_collapse_alloc") {
        match parse_vmstat_field(ts) {
            Ok(v) => {
                st.thp_collapse_alloc = v;
                Ok(())
            },
            Err(k) => Err(k),
        }
    } else if token_eq(t0, "thp_collapse_alloc_failed") {
        match parse_vmstat_field(ts) {
            Ok(v) => {
                st.thp_collapse_alloc_failed = v;
                Ok(())
            },
            Err(k) => Err(k),
        }
    } else if token_eq(t0, "thp_file_alloc") {
        match parse_vmstat_field(ts) {
            Ok(v) => {
                st.thp_file_alloc = v;
                Ok(())
            },
            Err(k) => Err(k),
        }
    } else {
        apply_arms_39(st, ts)
    }
}

/// Apply one group of known names, as [`vmstat_arms_39`] says.
#[verifier::rlimit(100)]
fn apply_arms_39(st: &mut ProcVmStat, ts: &Vec<Vec<char>>) -> (r: Result<(), DecodeErr>)
    requires
        ts@.len() > 0,
    ensures
        vmstat_arms_39(*old(st), ts.deep_view()) matches Ok(m2) ==> (r is Ok && *final(st)
            == m2),
        vmstat_arms_39(*old(st), ts.deep_view()) matches Err(k) ==> r == Err::<(), DecodeErr>(
            k,
        ),
{
    proof {
        reveal(vmstat_arms_39);
        assert(ts.deep_view()[0] =~= ts@[0]@);
    }
    let t0 = ts[0].as_slice();
    if token_eq(t0, "thp_file_fallback") {
        match parse_vmstat_field(ts) {
            Ok(v) => {
                st.thp_file_fallback = Some(v);
                Ok(())
            },
            Err(k) => Err(k),
        }
    } else if token_eq(t0, "thp_file_fallback_charge") {
        match parse_vmstat_field(ts) {
            Ok(v) => {
                st.thp_file_fallback_charge = Some(v);
                Ok(())
            },
            Err(k) => Err(k),
        }
    } else if token_eq(t0, "thp_file_mapped") {
        match parse_vmstat_field(ts) {
            Ok(v) => {
                st.thp_file_mapped = v;
                Ok(())
            },
            Err(k) => Err(k),
        }
    } else if token_eq(t0, "thp_split_page") {
        match parse_vmstat_field(ts) {
            Ok(v) => {
                st.thp_split_page = v;
                Ok(())
            },
            Err(k) => Err(k),
        }
    } else {
        apply_arms_40(st, ts)
    }
}

/// Apply one group of known names, as [`vmstat_arms_40`] says.
#[verifier::rlimit(100)]
fn apply_arms_40(st: &mut ProcVmStat, ts: &Vec<Vec<char>>) -> (r: Result<(), DecodeErr>)
    requires
        ts@.len() > 0,
    ensures
        vmstat_arms_40(*old(st), ts.deep_view()) matches Ok(m2) ==> (r is Ok && *final(st)
            == m2),
        vmstat_arms_40(*old(st), ts.deep_view()) matches Err(k) ==> r == Err::<(), DecodeErr>(
            k,
        ),
{
    proof {
        reveal(vmstat_arms_40);
        assert(ts.deep_view()[0] =~= ts@[0]@);
    }
    let t0 = ts[0].as_slice();
    if token_eq(t0, "thp_split_page_failed") {
        match parse_vmstat_field(ts) {
            Ok(v) => {
                st.thp_split_page_failed = v;
                Ok(())
            },
            Err(k) => Err(k),
        }
    } else if token_eq(t0, "thp_deferred_split_page") {
        match parse_vmstat_field(ts) {
            Ok(v) => {
                st.thp_deferred_split_page = v;
                Ok(())
            },
            Err(k) => Err(k),
        }
    } else if token_eq(t0, "thp_split_pmd") {
        match parse_vmstat_field(ts) {
            Ok(v) => {
                st.thp_split_pmd = v;
                Ok(())
            },
            Err(k) => Err(k),
        }
    } else if token_eq(t0, "thp_scan_exceed_none_pte") {
        match parse_vmstat_field(ts) {
            Ok(v) => {
                st.thp_scan_exceed_none_pte = Some(v);
                Ok(())
            },
            Err(k) => Err(k),
        }
    } else {
        apply_arms_41(st, ts)
    }
}

/// Apply one group of known names, as [`vmstat_arms_41`] says.
#[verifier::rlimit(100)]
fn apply_arms_41(st: &mut ProcVmStat, ts: &Vec<Vec<char>>) -> (r: Result<(), DecodeErr>)
    requires
        ts@.len() > 0,
    ensures
        vmstat_arms_41(*old(st), ts.deep_view()) matches Ok(m2) ==> (r is Ok && *final(st)
            == m2),
        vmstat_arms_41(*old(st), ts.deep_view()) matches Err(k) ==> r == Err::<(), DecodeErr>(
            k,
        ),
{
    proof {
        reveal(vmstat_arms_41);
        assert(ts.deep_view()[0] =~= ts@[0]@);
    }
    let t0 = ts[0].as_slice();
    if token_eq(t0, "thp_scan_exceed_swap_pte") {
        match parse_vmstat_field(ts) {
            Ok(v) => {
                st.thp_scan_exceed_swap_pte = Some(v);
                Ok(())
            },
            Err(k) => Err(k),
        }
    } else if token_eq(t0, "thp_scan_exceed_share_pte") {
        match parse_vmstat_field(ts) {
            Ok(v) => {
                st.thp_scan_exceed_share_pte = Some(v);
                Ok(())
            },
            Err(k) => Err(k),
        }
    } else if token_eq(t0, "thp_zero_page_alloc") {
        match parse_vmstat_field(ts) {
            Ok(v) => {
                st.thp_zero_page_alloc = v;
                Ok(())
            },
            Err(k) => Err(k),
        }
    } else if token_eq(t0, "thp_zero_page_alloc_failed") {
        match parse_vmstat_field(ts) {
            Ok(v) => {
                st.thp_zero_page_alloc_failed = v;
                Ok(())
            },
            Err(k) => Err(k),
        }
    } else {
        apply_arms_42(st, ts)
    }
}

/// Apply one group of known names, as [`vmstat_arms_42`] says.
#[verifier::rlimit(100)]
fn apply_arms_42(st: &mut ProcVmStat, ts: &Vec<Vec<char>>) -> (r: Result<(), DecodeErr>)
    requires
        ts@.len() > 0,
    ensures
        vmstat_arms_42(*old(st), ts.deep_view()) matches Ok(m2) ==> (r is Ok && *final(st)
            == m2),
        vmstat_arms_42(*old(st), ts.deep_view()) matches Err(k) ==> r == Err::<(), DecodeErr>(
            k,
        ),
{
    proof {
        reveal(vmstat_arms_42);
        assert(ts.deep_view()[0] =~= ts@[0]@);
    }
    let t0 = ts[0].as_slice();
    if token_eq(t0, "thp_swpout") {
        match parse_vmstat_field(ts) {
            Ok(v) => {
                st.thp_swpout = v;
                Ok(())
            },
            Err(k) => Err(k),
        }
    } else if token_eq(t0, "thp_swpout_fallback") {
        match parse_vmstat_field(ts) {
            Ok(v) => {
                st.thp_swpout_fallback = v;
                Ok(())
            },
            Err(k) => Err(k),
        }
    } else if token_eq(t0, "balloon_inflate") {
        match parse_vmstat_field(ts) {
            Ok(v) => {
                st.balloon_inflate = v;
                Ok(())
            },
            Err(k) => Err(k),
        }
    } else if token_eq(t0, "balloon_deflate") {
        match parse_vmstat_field(ts) {
            Ok(v) => {
                st.balloon_deflate = v;
                Ok(())
            },
            Err(k) => Err(k),
        }
    } else {
        apply_arms_43(st, ts)
    }
}

/// Apply one group of known names, as [`vmstat_arms_43`] says.
#[verifier::rlimit(100)]
fn apply_arms_43(st: &mut ProcVmStat, ts: &Vec<Vec<char>>) -> (r: Result<(), DecodeErr>)
    requires
        ts@.len() > 0,
    ensures
        vmstat_arms_43(*old(st), ts.deep_view()) matches Ok(m2) ==> (r is Ok && *final(st)
            == m2),
        vmstat_arms_43(*old(st), ts.deep_view()) matches Err(k) ==> r == Err::<(), DecodeErr>(
            k,
        ),
{
    proof {
        reveal(vmstat_arms_43);
        assert(ts.deep_view()[0] =~= ts@[0]@);
    }
    let t0 = ts[0].as_slice();
    if token_eq(t0, "balloon_migrate") {
        match parse_vmstat_field(ts) {
            Ok(v) => {
                st.balloon_migrate = v;
                Ok(())
            },
            Err(k) => Err(k),
        }
    } else if token_eq(t0, "swap_ra") {
        match parse_vmstat_field(ts) {
            Ok(v) => {
                st.swap_ra = v;
                Ok(())
            },
            Err(k) => Err(k),
        }
    } else if token_eq(t0, "swap_ra_hit") {
        match parse_vmstat_field(ts) {
            Ok(v) => {
                st.swap_ra_hit = v;
                Ok(())
            },
            Err(k) => Err(k),
        }
    } else if token_eq(t0, "ksm_swpin_copy") {
        match parse_vmstat_field(ts) {
            Ok(v) => {
                st.ksm_swpin_copy = Some(v);
                Ok(())
            },
            Err(k) => Err(k),
        }
    } else {
        apply_arms_44(st, ts)
    }
}

/// Apply one group of known names, as [`vmstat_arms_44`] says.
#[verifier::rlimit(100)]
fn apply_arms_44(st: &mut ProcVmStat, ts: &Vec<Vec<char>>) -> (r: Result<(), DecodeErr>)
    requires
        ts@.len() > 0,
    ensures
        vmstat_arms_44(*old(st), ts.deep_view()) matches Ok(m2) ==> (r is Ok && *final(st)
            == m2),
        vmstat_arms_44(*old(st), ts.deep_view()) matches Err(k) ==> r == Err::<(), DecodeErr>(
            k,
        ),
{
    proof {
        reveal(vmstat_arms_44);
        assert(ts.deep_view()[0] =~= ts@[0]@);
    }
    let t0 = ts[0].as_slice();
    if token_eq(t0, "cow_ksm") {
        match parse_vmstat_field(ts) {
            Ok(v) => {
                st.cow_ksm = Some(v);
                Ok(())
            },
            Err(k) => Err(k),
        }
    } else if token_eq(t0, "zswpin") {
        match parse_vmstat_field(ts) {
            Ok(v) => {
                st.zswpin = Some(v);
                Ok(())
            },
            Err(k) => Err(k),
        }
    } else if token_eq(t0, "zswpout") {
        match parse_vmstat_field(ts) {
            Ok(v) => {
                st.zswpout = Some(v);
                Ok(())
            },
            Err(k) => Err(k),
        }
    } else if token_eq(t0, "nr_unstable") {
        match parse_vmstat_field(ts) {
            Ok(v) => {
                st.nr_unstable = v;
                Ok(())
            },
            Err(k) => Err(k),
        }
    } else {
        Ok(())
    }
}

/// Where the document is read from: a full file name. The reading itself
/// is left to the caller.
#[derive(Default)]
pub struct Builder {
    pub proc_vmstat_file: String,
}

impl Builder {
    pub fn new() -> (b: Builder)
        ensures
            b.proc_vmstat_file@ == "/proc/vmstat"@,
    {
        Builder { proc_vmstat_file: "/proc/vmstat".to_owned() }
    }

    pub fn file_name(self, proc_vmstat_file: &str) -> (b: Builder)
        ensures
            b.proc_vmstat_file@ == proc_vmstat_file@,
    {
        Builder { proc_vmstat_file: proc_vmstat_file.to_owned() }
    }

    /// The full path of the file this builder reads.
    pub fn target(&self) -> (p: String)
        ensures
            p@ == self.proc_vmstat_file@,
    {
        self.proc_vmstat_file.clone()
    }
}

} // verus!
