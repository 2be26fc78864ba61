//! Decoder for the memory statistics of `/proc/meminfo`.
//!
//! Each line carries one named value in kilobytes. Known names set their
//! field; unknown names are skipped, so newer kernels do not break the
//! decoding of known lines. The two direct-map fields that not every
//! kernel reports are decoded as explicitly absent when their lines are
//! missing.

use crate::scan::{
    chars_vec, lines_of, parse_scalar_field, scalar_field_of, split_lines, token_eq, tokenize,
    tokens_of, DecodeErr,
};
use crate::{error_for, reflects, ProcSysParserError};
use vstd::prelude::*;
use vstd::string::StringExecFns;

verus! {

/// The decoded `/proc/meminfo` document. Every value is in kilobytes, as
/// the file reports it.
#[derive(Debug, PartialEq, Default)]
pub struct ProcMemInfo {
    pub memtotal: u64,
    pub memfree: u64,
    pub memavailable: u64,
    pub buffers: u64,
    pub cached: u64,
    pub swapcached: u64,
    pub active: u64,
    pub inactive: u64,
    pub active_anon: u64,
    pub inactive_anon: u64,
    pub active_file: u64,
    pub inactive_file: u64,
    pub unevictable: u64,
    pub mlocked: u64,
    pub swaptotal: u64,
    pub swapfree: u64,
    pub zswap: u64,
    pub zswapped: u64,
    pub dirty: u64,
    pub writeback: u64,
    pub anonpages: u64,
    pub mapped: u64,
    pub shmem: u64,
    pub kreclaimable: u64,
    pub slab: u64,
    pub sreclaimable: u64,
    pub sunreclaim: u64,
    pub kernelstack: u64,
    pub shadowcallstack: u64,
    pub pagetables: u64,
    pub secpagetables: u64,
    pub nfs_unstable: u64,
    pub bounce: u64,
    pub writebacktmp: u64,
    pub commitlimit: u64,
    pub committed_as: u64,
    pub vmalloctotal: u64,
    pub vmallocused: u64,
    pub vmallocchunk: u64,
    pub percpu: u64,
    pub hardwarecorrupted: u64,
    pub anonhugepages: u64,
    pub shmemhugepages: u64,
    pub shmempmdmapped: u64,
    pub filehugepages: u64,
    pub filepmdmapped: u64,
    pub cmatotal: u64,
    pub cmafree: u64,
    pub hugepages_total: u64,
    pub hugepages_free: u64,
    pub hugepages_rsvd: u64,
    pub hugepages_surp: u64,
    pub hugepagesize: u64,
    pub hugetlb: u64,
    pub directmap4k: Option<u64>,
    pub directmap2m: Option<u64>,
}

/// The document every decode starts from: all values zero, the optional
/// fields absent.
pub open spec fn init_meminfo() -> ProcMemInfo {
    ProcMemInfo {
        memtotal: 0,
        memfree: 0,
        memavailable: 0,
        buffers: 0,
        cached: 0,
        swapcached: 0,
        active: 0,
        inactive: 0,
        active_anon: 0,
        inactive_anon: 0,
        active_file: 0,
        inactive_file: 0,
        unevictable: 0,
        mlocked: 0,
        swaptotal: 0,
        swapfree: 0,
        zswap: 0,
        zswapped: 0,
        dirty: 0,
        writeback: 0,
        anonpages: 0,
        mapped: 0,
        shmem: 0,
        kreclaimable: 0,
        slab: 0,
        sreclaimable: 0,
        sunreclaim: 0,
        kernelstack: 0,
        shadowcallstack: 0,
        pagetables: 0,
        secpagetables: 0,
        nfs_unstable: 0,
        bounce: 0,
        writebacktmp: 0,
        commitlimit: 0,
        committed_as: 0,
        vmalloctotal: 0,
        vmallocused: 0,
        vmallocchunk: 0,
        percpu: 0,
        hardwarecorrupted: 0,
        anonhugepages: 0,
        shmemhugepages: 0,
        shmempmdmapped: 0,
        filehugepages: 0,
        filepmdmapped: 0,
        cmatotal: 0,
        cmafree: 0,
        hugepages_total: 0,
        hugepages_free: 0,
        hugepages_rsvd: 0,
        hugepages_surp: 0,
        hugepagesize: 0,
        hugetlb: 0,
        directmap4k: None,
        directmap2m: None,
    }
}

#[verifier::opaque]
pub open spec fn meminfo_arms_1(st: ProcMemInfo, ts: Seq<Seq<char>>) -> Result<
    ProcMemInfo,
    DecodeErr,
> {
    if ts[0] == "MemTotal:"@ {
        match scalar_field_of(ts) {
            Ok(v) => Ok(ProcMemInfo { memtotal: v, ..st }),
            Err(e) => Err(e),
        }
    } else if ts[0] == "MemFree:"@ {
        match scalar_field_of(ts) {
            Ok(v) => Ok(ProcMemInfo { memfree: v, ..st }),
            Err(e) => Err(e),
        }
    } else if ts[0] == "MemAvailable:"@ {
        match scalar_field_of(ts) {
            Ok(v) => Ok(ProcMemInfo { memavailable: v, ..st }),
            Err(e) => Err(e),
        }
    } else if ts[0] == "Buffers:"@ {
        match scalar_field_of(ts) {
            Ok(v) => Ok(ProcMemInfo { buffers: v, ..st }),
            Err(e) => Err(e),
        }
    } else {
        meminfo_arms_2(st, ts)
    }
}

#[verifier::opaque]
pub open spec fn meminfo_arms_2(st: ProcMemInfo, ts: Seq<Seq<char>>) -> Result<
    ProcMemInfo,
    DecodeErr,
> {
    if ts[0] == "Cached:"@ {
        match scalar_field_of(ts) {
            Ok(v) => Ok(ProcMemInfo { cached: v, ..st }),
            Err(e) => Err(e),
        }
    } else if ts[0] == "SwapCached:"@ {
        match scalar_field_of(ts) {
            Ok(v) => Ok(ProcMemInfo { swapcached: v, ..st }),
            Err(e) => Err(e),
        }
    } else if ts[0] == "Active:"@ {
        match scalar_field_of(ts) {
            Ok(v) => Ok(ProcMemInfo { active: v, ..st }),
            Err(e) => Err(e),
        }
    } else if ts[0] == "Inactive:"@ {
        match scalar_field_of(ts) {
            Ok(v) => Ok(ProcMemInfo { inactive: v, ..st }),
            Err(e) => Err(e),
        }
    } else {
        meminfo_arms_3(st, ts)
    }
}

#[verifier::opaque]
pub open spec fn meminfo_arms_3(st: ProcMemInfo, ts: Seq<Seq<char>>) -> Result<
    ProcMemInfo,
    DecodeErr,
> {
    if ts[0] == "Active(anon):"@ {
        match scalar_field_of(ts) {
            Ok(v) => Ok(ProcMemInfo { active_anon: v, ..st }),
            Err(e) => Err(e),
        }
    } else if ts[0] == "Inactive(anon):"@ {
        match scalar_field_of(ts) {
            Ok(v) => Ok(ProcMemInfo { inactive_anon: v, ..st }),
            Err(e) => Err(e),
        }
    } else if ts[0] == "Active(file):"@ {
        match scalar_field_of(ts) {
            Ok(v) => Ok(ProcMemInfo { active_file: v, ..st }),
            Err(e) => Err(e),
        }
    } else if ts[0] == "Inactive(file):"@ {
        match scalar_field_of(ts) {
            Ok(v) => Ok(ProcMemInfo { inactive_file: v, ..st }),
            Err(e) => Err(e),
        }
    } else {
        meminfo_arms_4(st, ts)
    }
}

#[verifier::opaque]
pub open spec fn meminfo_arms_4(st: ProcMemInfo, ts: Seq<Seq<char>>) -> Result<
    ProcMemInfo,
    DecodeErr,
> {
    if ts[0] == "Unevictable:"@ {
        match scalar_field_of(ts) {
            Ok(v) => Ok(ProcMemInfo { unevictable: v, ..st }),
            Err(e) => Err(e),
        }
    } else if ts[0] == "Mlocked:"@ {
        match scalar_field_of(ts) {
            Ok(v) => Ok(ProcMemInfo { mlocked: v, ..st }),
            Err(e) => Err(e),
        }
    } else if ts[0] == "SwapTotal:"@ {
        match scalar_field_of(ts) {
            Ok(v) => Ok(ProcMemInfo { swaptotal: v, ..st }),
            Err(e) => Err(e),
        }
    } else if ts[0] == "SwapFree:"@ {
        match scalar_field_of(ts) {
            Ok(v) => Ok(ProcMemInfo { swapfree: v, ..st }),
            Err(e) => Err(e),
        }
    } else {
        meminfo_arms_5(st, ts)
    }
}

#[verifier::opaque]
pub open spec fn meminfo_arms_5(st: ProcMemInfo, ts: Seq<Seq<char>>) -> Result<
    ProcMemInfo,
    DecodeErr,
> {
    if ts[0] == "Zswap:"@ {
        match scalar_field_of(ts) {
            Ok(v) => Ok(ProcMemInfo { zswap: v, ..st }),
            Err(e) => Err(e),
        }
    } else if ts[0] == "Zswapped:"@ {
        match scalar_field_of(ts) {
            Ok(v) => Ok(ProcMemInfo { zswapped: v, ..st }),
            Err(e) => Err(e),
        }
    } else if ts[0] == "Dirty:"@ {
        match scalar_field_of(ts) {
            Ok(v) => Ok(ProcMemInfo { dirty: v, ..st }),
            Err(e) => Err(e),
        }
    } else if ts[0] == "Writeback:"@ {
        match scalar_field_of(ts) {
            Ok(v) => Ok(ProcMemInfo { writeback: v, ..st }),
            Err(e) => Err(e),
        }
    } else {
        meminfo_arms_6(st, ts)
    }
}

#[verifier::opaque]
pub open spec fn meminfo_arms_6(st: ProcMemInfo, ts: Seq<Seq<char>>) -> Result<
    ProcMemInfo,
    DecodeErr,
> {
    if ts[0] == "AnonPages:"@ {
        match scalar_field_of(ts) {
            Ok(v) => Ok(ProcMemInfo { anonpages: v, ..st }),
            Err(e) => Err(e),
        }
    } else if ts[0] == "Mapped:"@ {
        match scalar_field_of(ts) {
            Ok(v) => Ok(ProcMemInfo { mapped: v, ..st }),
            Err(e) => Err(e),
        }
    } else if ts[0] == "Shmem:"@ {
        match scalar_field_of(ts) {
            Ok(v) => Ok(ProcMemInfo { shmem: v, ..st }),
            Err(e) => Err(e),
        }
    } else if ts[0] == "KReclaimable:"@ {
        match scalar_field_of(ts) {
            Ok(v) => Ok(ProcMemInfo { kreclaimable: v, ..st }),
            Err(e) => Err(e),
        }
    } else {
        meminfo_arms_7(st, ts)
    }
}

#[verifier::opaque]
pub open spec fn meminfo_arms_7(st: ProcMemInfo, ts: Seq<Seq<char>>) -> Result<
    ProcMemInfo,
    DecodeErr,
> {
    if ts[0] == "Slab:"@ {
        match scalar_field_of(ts) {
            Ok(v) => Ok(ProcMemInfo { slab: v, ..st }),
            Err(e) => Err(e),
        }
    } else if ts[0] == "SReclaimable:"@ {
        match scalar_field_of(ts) {
            Ok(v) => Ok(ProcMemInfo { sreclaimable: v, ..st }),
            Err(e) => Err(e),
        }
    } else if ts[0] == "SUnreclaim:"@ {
        match scalar_field_of(ts) {
            Ok(v) => Ok(ProcMemInfo { sunreclaim: v, ..st }),
            Err(e) => Err(e),
        }
    } else if ts[0] == "KernelStack:"@ {
        match scalar_field_of(ts) {
            Ok(v) => Ok(ProcMemInfo { kernelstack: v, ..st }),
            Err(e) => Err(e),
        }
    } else {
        meminfo_arms_8(st, ts)
    }
}

#[verifier::opaque]
pub open spec fn meminfo_arms_8(st: ProcMemInfo, ts: Seq<Seq<char>>) -> Result<
    ProcMemInfo,
    DecodeErr,
> {
    if ts[0] == "ShadowCallStack:"@ {
        match scalar_field_of(ts) {
            Ok(v) => Ok(ProcMemInfo { shadowcallstack: v, ..st }),
            Err(e) => Err(e),
        }
    } else if ts[0] == "PageTables:"@ {
        match scalar_field_of(ts) {
            Ok(v) => Ok(ProcMemInfo { pagetables: v, ..st }),
            Err(e) => Err(e),
        }
    } else if ts[0] == "SecPageTables:"@ {
        match scalar_field_of(ts) {
            Ok(v) => Ok(ProcMemInfo { secpagetables: v, ..st }),
            Err(e) => Err(e),
        }
    } else if ts[0] == "NFS_Unstable:"@ {
        match scalar_field_of(ts) {
            Ok(v) => Ok(ProcMemInfo { nfs_unstable: v, ..st }),
            Err(e) => Err(e),
        }
    } else {
        meminfo_arms_9(st, ts)
    }
}

#[verifier::opaque]
pub open spec fn meminfo_arms_9(st: ProcMemInfo, ts: Seq<Seq<char>>) -> Result<
    ProcMemInfo,
    DecodeErr,
> {
    if ts[0] == "Bounce:"@ {
        match scalar_field_of(ts) {
            Ok(v) => Ok(ProcMemInfo { bounce: v, ..st }),
            Err(e) => Err(e),
        }
    } else if ts[0] == "WritebackTmp:"@ {
        match scalar_field_of(ts) {
            Ok(v) => Ok(ProcMemInfo { writebacktmp: v, ..st }),
            Err(e) => Err(e),
        }
    } else if ts[0] == "CommitLimit:"@ {
        match scalar_field_of(ts) {
            Ok(v) => Ok(ProcMemInfo { commitlimit: v, ..st }),
            Err(e) => Err(e),
        }
    } else if ts[0] == "Committed_AS:"@ {
        match scalar_field_of(ts) {
            Ok(v) => Ok(ProcMemInfo { committed_as: v, ..st }),
            Err(e) => Err(e),
        }
    } else {
        meminfo_arms_10(st, ts)
    }
}

#[verifier::opaque]
pub open spec fn meminfo_arms_10(st: ProcMemInfo, ts: Seq<Seq<char>>) -> Result<
    ProcMemInfo,
    DecodeErr,
> {
    if ts[0] == "VmallocTotal:"@ {
        match scalar_field_of(ts) {
            Ok(v) => Ok(ProcMemInfo { vmalloctotal: v, ..st }),
            Err(e) => Err(e),
        }
    } else if ts[0] == "VmallocUsed:"@ {
        match scalar_field_of(ts) {
            Ok(v) => Ok(ProcMemInfo { vmallocused: v, ..st }),
            Err(e) => Err(e),
        }
    } else if ts[0] == "VmallocChunk:"@ {
        match scalar_field_of(ts) {
            Ok(v) => Ok(ProcMemInfo { vmallocchunk: v, ..st }),
            Err(e) => Err(e),
        }
    } else if ts[0] == "Percpu:"@ {
        match scalar_field_of(ts) {
            Ok(v) => Ok(ProcMemInfo { percpu: v, ..st }),
            Err(e) => Err(e),
        }
    } else {
        meminfo_arms_11(st, ts)
    }
}

#[verifier::opaque]
pub open spec fn meminfo_arms_11(st: ProcMemInfo, ts: Seq<Seq<char>>) -> Result<
    ProcMemInfo,
    DecodeErr,
> {
    if ts[0] == "HardwareCorrupted:"@ {
        match scalar_field_of(ts) {
            Ok(v) => Ok(ProcMemInfo { hardwarecorrupted: v, ..st }),
            Err(e) => Err(e),
        }
    } else if ts[0] == "AnonHugePages:"@ {
        match scalar_field_of(ts) {
            Ok(v) => Ok(ProcMemInfo { anonhugepages: v, ..st }),
            Err(e) => Err(e),
        }
    } else if ts[0] == "ShmemHugePages:"@ {
        match scalar_field_of(ts) {
            Ok(v) => Ok(ProcMemInfo { shmemhugepages: v, ..st }),
            Err(e) => Err(e),
        }
    } else if ts[0] == "ShmemPmdMapped:"@ {
        match scalar_field_of(ts) {
            Ok(v) => Ok(ProcMemInfo { shmempmdmapped: v, ..st }),
            Err(e) => Err(e),
        }
    } else {
        meminfo_arms_12(st, ts)
    }
}

#[verifier::opaque]
pub open spec fn meminfo_arms_12(st: ProcMemInfo, ts: Seq<Seq<char>>) -> Result<
    ProcMemInfo,
    DecodeErr,
> {
    if ts[0] == "FileHugePages:"@ {
        match scalar_field_of(ts) {
            Ok(v) => Ok(ProcMemInfo { filehugepages: v, ..st }),
            Err(e) => Err(e),
        }
    } else if ts[0] == "FilePmdMapped:"@ {
        match scalar_field_of(ts) {
            Ok(v) => Ok(ProcMemInfo { filepmdmapped: v, ..st }),
            Err(e) => Err(e),
        }
    } else if ts[0] == "CmaTotal:"@ {
        match scalar_field_of(ts) {
            Ok(v) => Ok(ProcMemInfo { cmatotal: v, ..st }),
            Err(e) => Err(e),
        }
    } else if ts[0] == "CmaFree:"@ {
        match scalar_field_of(ts) {
            Ok(v) => Ok(ProcMemInfo { cmafree: v, ..st }),
            Err(e) => Err(e),
        }
    } else {
        meminfo_arms_13(st, ts)
    }
}

#[verifier::opaque]
pub open spec fn meminfo_arms_13(st: ProcMemInfo, ts: Seq<Seq<char>>) -> Result<
    ProcMemInfo,
    DecodeErr,
> {
    if ts[0] == "HugePages_Total:"@ {
        match scalar_field_of(ts) {
            Ok(v) => Ok(ProcMemInfo { hugepages_total: v, ..st }),
            Err(e) => Err(e),
        }
    } else if ts[0] == "HugePages_Free:"@ {
        match scalar_field_of(ts) {
            Ok(v) => Ok(ProcMemInfo { hugepages_free: v, ..st }),
            Err(e) => Err(e),
        }
    } else if ts[0] == "HugePages_Rsvd:"@ {
        match scalar_field_of(ts) {
            Ok(v) => Ok(ProcMemInfo { hugepages_rsvd: v, ..st }),
            Err(e) => Err(e),
        }
    } else if ts[0] == "HugePages_Surp:"@ {
        match scalar_field_of(ts) {
            Ok(v) => Ok(ProcMemInfo { hugepages_surp: v, ..st }),
            Err(e) => Err(e),
        }
    } else {
        meminfo_arms_14(st, ts)
    }
}

#[verifier::opaque]
pub open spec fn meminfo_arms_14(st: ProcMemInfo, ts: Seq<Seq<char>>) -> Result<
    ProcMemInfo,
    DecodeErr,
> {
    if ts[0] == "Hugepagesize:"@ {
        match scalar_field_of(ts) {
            Ok(v) => Ok(ProcMemInfo { hugepagesize: v, ..st }),
            Err(e) => Err(e),
        }
    } else if ts[0] == "Hugetlb:"@ {
        match scalar_field_of(ts) {
            Ok(v) => Ok(ProcMemInfo { hugetlb: v, ..st }),
            Err(e) => Err(e),
        }
    } else if ts[0] == "DirectMap4k:"@ {
        match scalar_field_of(ts) {
            Ok(v) => Ok(ProcMemInfo { directmap4k: Some(v), ..st }),
            Err(e) => Err(e),
        }
    } else if ts[0] == "DirectMap2M:"@ {
        match scalar_field_of(ts) {
            Ok(v) => Ok(ProcMemInfo { directmap2m: Some(v), ..st }),
            Err(e) => Err(e),
        }
    } else {
        Ok(st)
    }
}


/// One step of the fold: a line whose leading token is a known name sets
/// that field from the second field of the line; any other line is
/// skipped. The known names stand in [`meminfo_arms_1`] and the groups it
/// chains to.
pub open spec fn meminfo_step(st: ProcMemInfo, l: Seq<char>) -> Result<ProcMemInfo, DecodeErr> {
    let ts = tokens_of(l);
    if ts.len() == 0 {
        Ok(st)
    } else {
        meminfo_arms_1(st, ts)
    }
}

/// Fold the lines through the document, aborting at the first failing line.
pub open spec fn meminfo_fold(st: ProcMemInfo, ls: Seq<Seq<char>>) -> Result<
    ProcMemInfo,
    DecodeErr,
>
    decreases ls.len(),
{
    if ls.len() == 0 {
        Ok(st)
    } else {
        match meminfo_step(st, ls[0]) {
            Ok(st2) => meminfo_fold(st2, ls.skip(1)),
            Err(e) => Err(e),
        }
    }
}

/// One unfolding of [`meminfo_fold`].
pub proof fn lemma_meminfo_fold_step(st: ProcMemInfo, ls: Seq<Seq<char>>)
    requires
        ls.len() > 0,
    ensures
        meminfo_fold(st, ls) == match meminfo_step(st, ls[0]) {
            Ok(m2) => meminfo_fold(m2, ls.skip(1)),
            Err(e) => Err(e),
        },
{
}

/// The decoded value of a whole `/proc/meminfo` document.
pub open spec fn meminfo_of(s: Seq<char>) -> Result<ProcMemInfo, DecodeErr> {
    meminfo_fold(init_meminfo(), lines_of(s))
}

/// Apply one group of known names, as [`meminfo_arms_1`] says.
#[verifier::rlimit(100)]
fn apply_arms_1(st: &mut ProcMemInfo, ts: &Vec<Vec<char>>) -> (r: Result<(), DecodeErr>)
    requires
        ts@.len() > 0,
    ensures
        meminfo_arms_1(*old(st), ts.deep_view()) matches Ok(m2) ==> (r is Ok && *final(st)
            == m2),
        meminfo_arms_1(*old(st), ts.deep_view()) matches Err(k) ==> r == Err::<(), DecodeErr>(
            k,
        ),
{
    proof {
        reveal(meminfo_arms_1);
        assert(ts.deep_view()[0] =~= ts@[0]@);
    }
    let t0 = ts[0].as_slice();
    if token_eq(t0, "MemTotal:") {
        match parse_scalar_field(ts) {
            Ok(v) => {
                st.memtotal = v;
                Ok(())
            },
            Err(k) => Err(k),
        }
    } else if token_eq(t0, "MemFree:") {
        match parse_scalar_field(ts) {
            Ok(v) => {
                st.memfree = v;
                Ok(())
            },
            Err(k) => Err(k),
        }
    } else if token_eq(t0, "MemAvailable:") {
        match parse_scalar_field(ts) {
            Ok(v) => {
                st.memavailable = v;
                Ok(())
            },
            Err(k) => Err(k),
        }
    } else if token_eq(t0, "Buffers:") {
        match parse_scalar_field(ts) {
            Ok(v) => {
                st.buffers = v;
                Ok(())
            },
            Err(k) => Err(k),
        }
    } else {
        apply_arms_2(st, ts)
    }
}

/// Apply one group of known names, as [`meminfo_arms_2`] says.
#[verifier::rlimit(100)]
fn apply_arms_2(st: &mut ProcMemInfo, ts: &Vec<Vec<char>>) -> (r: Result<(), DecodeErr>)
    requires
        ts@.len() > 0,
    ensures
        meminfo_arms_2(*old(st), ts.deep_view()) matches Ok(m2) ==> (r is Ok && *final(st)
            == m2),
        meminfo_arms_2(*old(st), ts.deep_view()) matches Err(k) ==> r == Err::<(), DecodeErr>(
            k,
        ),
{
    proof {
        reveal(meminfo_arms_2);
        assert(ts.deep_view()[0] =~= ts@[0]@);
    }
    let t0 = ts[0].as_slice();
    if token_eq(t0, "Cached:") {
        match parse_scalar_field(ts) {
            Ok(v) => {
                st.cached = v;
                Ok(())
            },
            Err(k) => Err(k),
        }
    } else if token_eq(t0, "SwapCached:") {
        match parse_scalar_field(ts) {
            Ok(v) => {
                st.swapcached = v;
                Ok(())
            },
            Err(k) => Err(k),
        }
    } else if token_eq(t0, "Active:") {
        match parse_scalar_field(ts) {
            Ok(v) => {
                st.active = v;
                Ok(())
            },
            Err(k) => Err(k),
        }
    } else if token_eq(t0, "Inactive:") {
        match parse_scalar_field(ts) {
            Ok(v) => {
                st.inactive = v;
                Ok(())
            },
            Err(k) => Err(k),
        }
    } else {
        apply_arms_3(st, ts)
    }
}

/// Apply one group of known names, as [`meminfo_arms_3`] says.
#[verifier::rlimit(100)]
fn apply_arms_3(st: &mut ProcMemInfo, ts: &Vec<Vec<char>>) -> (r: Result<(), DecodeErr>)
    requires
        ts@.len() > 0,
    ensures
        meminfo_arms_3(*old(st), ts.deep_view()) matches Ok(m2) ==> (r is Ok && *final(st)
            == m2),
        meminfo_arms_3(*old(st), ts.deep_view()) matches Err(k) ==> r == Err::<(), DecodeErr>(
            k,
        ),
{
    proof {
        reveal(meminfo_arms_3);
        assert(ts.deep_view()[0] =~= ts@[0]@);
    }
    let t0 = ts[0].as_slice();
    if token_eq(t0, "Active(anon):") {
        match parse_scalar_field(ts) {
            Ok(v) => {
                st.active_anon = v;
                Ok(())
            },
            Err(k) => Err(k),
        }
    } else if token_eq(t0, "Inactive(anon):") {
        match parse_scalar_field(ts) {
            Ok(v) => {
                st.inactive_anon = v;
                Ok(())
            },
            Err(k) => Err(k),
        }
    } else if token_eq(t0, "Active(file):") {
        match parse_scalar_field(ts) {
            Ok(v) => {
                st.active_file = v;
                Ok(())
            },
            Err(k) => Err(k),
        }
    } else if token_eq(t0, "Inactive(file):") {
        match parse_scalar_field(ts) {
            Ok(v) => {
                st.inactive_file = v;
                Ok(())
            },
            Err(k) => Err(k),
        }
    } else {
        apply_arms_4(st, ts)
    }
}

/// Apply one group of known names, as [`meminfo_arms_4`] says.
#[verifier::rlimit(100)]
fn apply_arms_4(st: &mut ProcMemInfo, ts: &Vec<Vec<char>>) -> (r: Result<(), DecodeErr>)
    requires
        ts@.len() > 0,
    ensures
        meminfo_arms_4(*old(st), ts.deep_view()) matches Ok(m2) ==> (r is Ok && *final(st)
            == m2),
        meminfo_arms_4(*old(st), ts.deep_view()) matches Err(k) ==> r == Err::<(), DecodeErr>(
            k,
        ),
{
    proof {
        reveal(meminfo_arms_4);
        assert(ts.deep_view()[0] =~= ts@[0]@);
    }
    let t0 = ts[0].as_slice();
    if token_eq(t0, "Unevictable:") {
        match parse_scalar_field(ts) {
            Ok(v) => {
                st.unevictable = v;
                Ok(())
            },
            Err(k) => Err(k),
        }
    } else if token_eq(t0, "Mlocked:") {
        match parse_scalar_field(ts) {
            Ok(v) => {
                st.mlocked = v;
                Ok(())
            },
            Err(k) => Err(k),
        }
    } else if token_eq(t0, "SwapTotal:") {
        match parse_scalar_field(ts) {
            Ok(v) => {
                st.swaptotal = v;
                Ok(())
            },
            Err(k) => Err(k),
        }
    } else if token_eq(t0, "SwapFree:") {
        match parse_scalar_field(ts) {
            Ok(v) => {
                st.swapfree = v;
                Ok(())
            },
            Err(k) => Err(k),
        }
    } else {
        apply_arms_5(st, ts)
    }
}

/// Apply one group of known names, as [`meminfo_arms_5`] says.
#[verifier::rlimit(100)]
fn apply_arms_5(st: &mut ProcMemInfo, ts: &Vec<Vec<char>>) -> (r: Result<(), DecodeErr>)
    requires
        ts@.len() > 0,
    ensures
        meminfo_arms_5(*old(st), ts.deep_view()) matches Ok(m2) ==> (r is Ok && *final(st)
            == m2),
        meminfo_arms_5(*old(st), ts.deep_view()) matches Err(k) ==> r == Err::<(), DecodeErr>(
            k,
        ),
{
    proof {
        reveal(meminfo_arms_5);
        assert(ts.deep_view()[0] =~= ts@[0]@);
    }
    let t0 = ts[0].as_slice();
    if token_eq(t0, "Zswap:") {
        match parse_scalar_field(ts) {
            Ok(v) => {
                st.zswap = v;
                Ok(())
            },
            Err(k) => Err(k),
        }
    } else if token_eq(t0, "Zswapped:") {
        match parse_scalar_field(ts) {
            Ok(v) => {
                st.zswapped = v;
                Ok(())
            },
            Err(k) => Err(k),
        }
    } else if token_eq(t0, "Dirty:") {
        match parse_scalar_field(ts) {
            Ok(v) => {
                st.dirty = v;
                Ok(())
            },
            Err(k) => Err(k),
        }
    } else if token_eq(t0, "Writeback:") {
        match parse_scalar_field(ts) {
            Ok(v) => {
                st.writeback = v;
                Ok(())
            },
            Err(k) => Err(k),
        }
    } else {
        apply_arms_6(st, ts)
    }
}

/// Apply one group of known names, as [`meminfo_arms_6`] says.
#[verifier::rlimit(100)]
fn apply_arms_6(st: &mut ProcMemInfo, ts: &Vec<Vec<char>>) -> (r: Result<(), DecodeErr>)
    requires
        ts@.len() > 0,
    ensures
        meminfo_arms_6(*old(st), ts.deep_view()) matches Ok(m2) ==> (r is Ok && *final(st)
            == m2),
        meminfo_arms_6(*old(st), ts.deep_view()) matches Err(k) ==> r == Err::<(), DecodeErr>(
            k,
        ),
{
    proof {
        reveal(meminfo_arms_6);
        assert(ts.deep_view()[0] =~= ts@[0]@);
    }
    let t0 = ts[0].as_slice();
    if token_eq(t0, "AnonPages:") {
        match parse_scalar_field(ts) {
            Ok(v) => {
                st.anonpages = v;
                Ok(())
            },
            Err(k) => Err(k),
        }
    } else if token_eq(t0, "Mapped:") {
        match parse_scalar_field(ts) {
            Ok(v) => {
                st.mapped = v;
                Ok(())
            },
            Err(k) => Err(k),
        }
    } else if token_eq(t0, "Shmem:") {
        match parse_scalar_field(ts) {
            Ok(v) => {
                st.shmem = v;
                Ok(())
            },
            Err(k) => Err(k),
        }
    } else if token_eq(t0, "KReclaimable:") {
        match parse_scalar_field(ts) {
            Ok(v) => {
                st.kreclaimable = v;
                Ok(())
            },
            Err(k) => Err(k),
        }
    } else {
        apply_arms_7(st, ts)
    }
}

/// Apply one group of known names, as [`meminfo_arms_7`] says.
#[verifier::rlimit(100)]
fn apply_arms_7(st: &mut ProcMemInfo, ts: &Vec<Vec<char>>) -> (r: Result<(), DecodeErr>)
    requires
        ts@.len() > 0,
    ensures
        meminfo_arms_7(*old(st), ts.deep_view()) matches Ok(m2) ==> (r is Ok && *final(st)
            == m2),
        meminfo_arms_7(*old(st), ts.deep_view()) matches Err(k) ==> r == Err::<(), DecodeErr>(
            k,
        ),
{
    proof {
        reveal(meminfo_arms_7);
        assert(ts.deep_view()[0] =~= ts@[0]@);
    }
    let t0 = ts[0].as_slice();
    if token_eq(t0, "Slab:") {
        match parse_scalar_field(ts) {
            Ok(v) => {
                st.slab = v;
                Ok(())
            },
            Err(k) => Err(k),
        }
    } else if token_eq(t0, "SReclaimable:") {
        match parse_scalar_field(ts) {
            Ok(v) => {
                st.sreclaimable = v;
                Ok(())
            },
            Err(k) => Err(k),
        }
    } else if token_eq(t0, "SUnreclaim:") {
        match parse_scalar_field(ts) {
            Ok(v) => {
                st.sunreclaim = v;
                Ok(())
            },
            Err(k) => Err(k),
        }
    } else if token_eq(t0, "KernelStack:") {
        match parse_scalar_field(ts) {
            Ok(v) => {
                st.kernelstack = v;
                Ok(())
            },
            Err(k) => Err(k),
        }
    } else {
        apply_arms_8(st, ts)
    }
}

/// Apply one group of known names, as [`meminfo_arms_8`] says.
#[verifier::rlimit(100)]
fn apply_arms_8(st: &mut ProcMemInfo, ts: &Vec<Vec<char>>) -> (r: Result<(), DecodeErr>)
    requires
        ts@.len() > 0,
    ensures
        meminfo_arms_8(*old(st), ts.deep_view()) matches Ok(m2) ==> (r is Ok && *final(st)
            == m2),
        meminfo_arms_8(*old(st), ts.deep_view()) matches Err(k) ==> r == Err::<(), DecodeErr>(
            k,
        ),
{
    proof {
        reveal(meminfo_arms_8);
        assert(ts.deep_view()[0] =~= ts@[0]@);
    }
    let t0 = ts[0].as_slice();
    if token_eq(t0, "ShadowCallStack:") {
        match parse_scalar_field(ts) {
            Ok(v) => {
                st.shadowcallstack = v;
                Ok(())
            },
            Err(k) => Err(k),
        }
    } else if token_eq(t0, "PageTables:") {
        match parse_scalar_field(ts) {
            Ok(v) => {
                st.pagetables = v;
                Ok(())
            },
            Err(k) => Err(k),
        }
    } else if token_eq(t0, "SecPageTables:") {
        match parse_scalar_field(ts) {
            Ok(v) => {
                st.secpagetables = v;
                Ok(())
            },
            Err(k) => Err(k),
        }
    } else if token_eq(t0, "NFS_Unstable:") {
        match parse_scalar_field(ts) {
            Ok(v) => {
                st.nfs_unstable = v;
                Ok(())
            },
            Err(k) => Err(k),
        }
    } else {
        apply_arms_9(st, ts)
    }
}

/// Apply one group of known names, as [`meminfo_arms_9`] says.
#[verifier::rlimit(100)]
fn apply_arms_9(st: &mut ProcMemInfo, ts: &Vec<Vec<char>>) -> (r: Result<(), DecodeErr>)
    requires
        ts@.len() > 0,
    ensures
        meminfo_arms_9(*old(st), ts.deep_view()) matches Ok(m2) ==> (r is Ok && *final(st)
            == m2),
        meminfo_arms_9(*old(st), ts.deep_view()) matches Err(k) ==> r == Err::<(), DecodeErr>(
            k,
        ),
{
    proof {
        reveal(meminfo_arms_9);
        assert(ts.deep_view()[0] =~= ts@[0]@);
    }
    let t0 = ts[0].as_slice();
    if token_eq(t0, "Bounce:") {
        match parse_scalar_field(ts) {
            Ok(v) => {
                st.bounce = v;
                Ok(())
            },
            Err(k) => Err(k),
        }
    } else if token_eq(t0, "WritebackTmp:") {
        match parse_scalar_field(ts) {
            Ok(v) => {
                st.writebacktmp = v;
                Ok(())
            },
            Err(k) => Err(k),
        }
    } else if token_eq(t0, "CommitLimit:") {
        match parse_scalar_field(ts) {
            Ok(v) => {
                st.commitlimit = v;
                Ok(())
            },
            Err(k) => Err(k),
        }
    } else if token_eq(t0, "Committed_AS:") {
        match parse_scalar_field(ts) {
            Ok(v) => {
                st.committed_as = v;
                Ok(())
            },
            Err(k) => Err(k),
        }
    } else {
        apply_arms_10(st, ts)
    }
}

/// Apply one group of known names, as [`meminfo_arms_10`] says.
#[verifier::rlimit(100)]
fn apply_arms_10(st: &mut ProcMemInfo, ts: &Vec<Vec<char>>) -> (r: Result<(), DecodeErr>)
    requires
        ts@.len() > 0,
    ensures
        meminfo_arms_10(*old(st), ts.deep_view()) matches Ok(m2) ==> (r is Ok && *final(st)
            == m2),
        meminfo_arms_10(*old(st), ts.deep_view()) matches Err(k) ==> r == Err::<(), DecodeErr>(
            k,
        ),
{
    proof {
        reveal(meminfo_arms_10);
        assert(ts.deep_view()[0] =~= ts@[0]@);
    }
    let t0 = ts[0].as_slice();
    if token_eq(t0, "VmallocTotal:") {
        match parse_scalar_field(ts) {
            Ok(v) => {
                st.vmalloctotal = v;
                Ok(())
            },
            Err(k) => Err(k),
        }
    } else if token_eq(t0, "VmallocUsed:") {
        match parse_scalar_field(ts) {
            Ok(v) => {
                st.vmallocused = v;
                Ok(())
            },
            Err(k) => Err(k),
        }
    } else if token_eq(t0, "VmallocChunk:") {
        match parse_scalar_field(ts) {
            Ok(v) => {
                st.vmallocchunk = v;
                Ok(())
            },
            Err(k) => Err(k),
        }
    } else if token_eq(t0, "Percpu:") {
        match parse_scalar_field(ts) {
            Ok(v) => {
                st.percpu = v;
                Ok(())
            },
            Err(k) => Err(k),
        }
    } else {
        apply_arms_11(st, ts)
    }
}

/// Apply one group of known names, as [`meminfo_arms_11`] says.
#[verifier::rlimit(100)]
fn apply_arms_11(st: &mut ProcMemInfo, ts: &Vec<Vec<char>>) -> (r: Result<(), DecodeErr>)
    requires
        ts@.len() > 0,
    ensures
        meminfo_arms_11(*old(st), ts.deep_view()) matches Ok(m2) ==> (r is Ok && *final(st)
            == m2),
        meminfo_arms_11(*old(st), ts.deep_view()) matches Err(k) ==> r == Err::<(), DecodeErr>(
            k,
        ),
{
    proof {
        reveal(meminfo_arms_11);
        assert(ts.deep_view()[0] =~= ts@[0]@);
    }
    let t0 = ts[0].as_slice();
    if token_eq(t0, "HardwareCorrupted:") {
        match parse_scalar_field(ts) {
            Ok(v) => {
                st.hardwarecorrupted = v;
                Ok(())
            },
            Err(k) => Err(k),
        }
    } else if token_eq(t0, "AnonHugePages:") {
        match parse_scalar_field(ts) {
            Ok(v) => {
                st.anonhugepages = v;
                Ok(())
            },
            Err(k) => Err(k),
        }
    } else if token_eq(t0, "ShmemHugePages:") {
        match parse_scalar_field(ts) {
            Ok(v) => {
                st.shmemhugepages = v;
                Ok(())
            },
            Err(k) => Err(k),
        }
    } else if token_eq(t0, "ShmemPmdMapped:") {
        match parse_scalar_field(ts) {
            Ok(v) => {
                st.shmempmdmapped = v;
                Ok(())
            },
            Err(k) => Err(k),
        }
    } else {
        apply_arms_12(st, ts)
    }
}

/// Apply one group of known names, as [`meminfo_arms_12`] says.
#[verifier::rlimit(100)]
fn apply_arms_12(st: &mut ProcMemInfo, ts: &Vec<Vec<char>>) -> (r: Result<(), DecodeErr>)
    requires
        ts@.len() > 0,
    ensures
        meminfo_arms_12(*old(st), ts.deep_view()) matches Ok(m2) ==> (r is Ok && *final(st)
            == m2),
        meminfo_arms_12(*old(st), ts.deep_view()) matches Err(k) ==> r == Err::<(), DecodeErr>(
            k,
        ),
{
    proof {
        reveal(meminfo_arms_12);
        assert(ts.deep_view()[0] =~= ts@[0]@);
    }
    let t0 = ts[0].as_slice();
    if token_eq(t0, "FileHugePages:") {
        match parse_scalar_field(ts) {
            Ok(v) => {
                st.filehugepages = v;
                Ok(())
            },
            Err(k) => Err(k),
        }
    } else if token_eq(t0, "FilePmdMapped:") {
        match parse_scalar_field(ts) {
            Ok(v) => {
                st.filepmdmapped = v;
                Ok(())
            },
            Err(k) => Err(k),
        }
    } else if token_eq(t0, "CmaTotal:") {
        match parse_scalar_field(ts) {
            Ok(v) => {
                st.cmatotal = v;
                Ok(())
            },
            Err(k) => Err(k),
        }
    } else if token_eq(t0, "CmaFree:") {
        match parse_scalar_field(ts) {
            Ok(v) => {
                st.cmafree = v;
                Ok(())
            },
            Err(k) => Err(k),
        }
    } else {
        apply_arms_13(st, ts)
    }
}

/// Apply one group of known names, as [`meminfo_arms_13`] says.
#[verifier::rlimit(100)]
fn apply_arms_13(st: &mut ProcMemInfo, ts: &Vec<Vec<char>>) -> (r: Result<(), DecodeErr>)
    requires
        ts@.len() > 0,
    ensures
        meminfo_arms_13(*old(st), ts.deep_view()) matches Ok(m2) ==> (r is Ok && *final(st)
            == m2),
        meminfo_arms_13(*old(st), ts.deep_view()) matches Err(k) ==> r == Err::<(), DecodeErr>(
            k,
        ),
{
    proof {
        reveal(meminfo_arms_13);
        assert(ts.deep_view()[0] =~= ts@[0]@);
    }
    let t0 = ts[0].as_slice();
    if token_eq(t0, "HugePages_Total:") {
        match parse_scalar_field(ts) {
            Ok(v) => {
                st.hugepages_total = v;
                Ok(())
            },
            Err(k) => Err(k),
        }
    } else if token_eq(t0, "HugePages_Free:") {
        match parse_scalar_field(ts) {
            Ok(v) => {
                st.hugepages_free = v;
                Ok(())
            },
            Err(k) => Err(k),
        }
    } else if token_eq(t0, "HugePages_Rsvd:") {
        match parse_scalar_field(ts) {
            Ok(v) => {
                st.hugepages_rsvd = v;
                Ok(())
            },
            Err(k) => Err(k),
        }
    } else if token_eq(t0, "HugePages_Surp:") {
        match parse_scalar_field(ts) {
            Ok(v) => {
                st.hugepages_surp = v;
                Ok(())
            },
            Err(k) => Err(k),
        }
    } else {
        apply_arms_14(st, ts)
    }
}

/// Apply one group of known names, as [`meminfo_arms_14`] says.
#[verifier::rlimit(100)]
fn apply_arms_14(st: &mut ProcMemInfo, ts: &Vec<Vec<char>>) -> (r: Result<(), DecodeErr>)
    requires
        ts@.len() > 0,
    ensures
        meminfo_arms_14(*old(st), ts.deep_view()) matches Ok(m2) ==> (r is Ok && *final(st)
            == m2),
        meminfo_arms_14(*old(st), ts.deep_view()) matches Err(k) ==> r == Err::<(), DecodeErr>(
            k,
        ),
{
    proof {
        reveal(meminfo_arms_14);
        assert(ts.deep_view()[0] =~= ts@[0]@);
    }
    let t0 = ts[0].as_slice();
    if token_eq(t0, "Hugepagesize:") {
        match parse_scalar_field(ts) {
            Ok(v) => {
                st.hugepagesize = v;
                Ok(())
            },
            Err(k) => Err(k),
        }
    } else if token_eq(t0, "Hugetlb:") {
        match parse_scalar_field(ts) {
            Ok(v) => {
                st.hugetlb = v;
                Ok(())
            },
            Err(k) => Err(k),
        }
    } else if token_eq(t0, "DirectMap4k:") {
        match parse_scalar_field(ts) {
            Ok(v) => {
                st.directmap4k = Some(v);
                Ok(())
            },
            Err(k) => Err(k),
        }
    } else if token_eq(t0, "DirectMap2M:") {
        match parse_scalar_field(ts) {
            Ok(v) => {
                st.directmap2m = Some(v);
                Ok(())
            },
            Err(k) => Err(k),
        }
    } else {
        Ok(())
    }
}

/// Decode one line into the document, as [`meminfo_step`] says.
fn meminfo_apply(st: &mut ProcMemInfo, ts: &Vec<Vec<char>>, Ghost(l): Ghost<Seq<char>>) -> (r:
    Result<(), DecodeErr>)
    requires
        ts.deep_view() == tokens_of(l),
    ensures
        meminfo_step(*old(st), l) matches Ok(m2) ==> (r is Ok && *final(st) == m2),
        meminfo_step(*old(st), l) matches Err(k) ==> r == Err::<(), DecodeErr>(k),
{
    if ts.len() == 0 {
        return Ok(());
    }
    apply_arms_1(st, ts)
}

impl ProcMemInfo {
    /// An empty document record, as [`init_meminfo`] says.
    pub fn new() -> (r: ProcMemInfo)
        ensures
            r == init_meminfo(),
    {
        ProcMemInfo {
            memtotal: 0,
            memfree: 0,
            memavailable: 0,
            buffers: 0,
            cached: 0,
            swapcached: 0,
            active: 0,
            inactive: 0,
            active_anon: 0,
            inactive_anon: 0,
            active_file: 0,
            inactive_file: 0,
            unevictable: 0,
            mlocked: 0,
            swaptotal: 0,
            swapfree: 0,
            zswap: 0,
            zswapped: 0,
            dirty: 0,
            writeback: 0,
            anonpages: 0,
            mapped: 0,
            shmem: 0,
            kreclaimable: 0,
            slab: 0,
            sreclaimable: 0,
            sunreclaim: 0,
            kernelstack: 0,
            shadowcallstack: 0,
            pagetables: 0,
            secpagetables: 0,
            nfs_unstable: 0,
            bounce: 0,
            writebacktmp: 0,
            commitlimit: 0,
            committed_as: 0,
            vmalloctotal: 0,
            vmallocused: 0,
            vmallocchunk: 0,
            percpu: 0,
            hardwarecorrupted: 0,
            anonhugepages: 0,
            shmemhugepages: 0,
            shmempmdmapped: 0,
            filehugepages: 0,
            filepmdmapped: 0,
            cmatotal: 0,
            cmafree: 0,
            hugepages_total: 0,
            hugepages_free: 0,
            hugepages_rsvd: 0,
            hugepages_surp: 0,
            hugepagesize: 0,
            hugetlb: 0,
            directmap4k: None,
            directmap2m: None,
        }
    }

    /// Decode the second field of a known line as a decimal integer, as
    /// [`scalar_field_of`] says of the line's tokens.
    pub fn parse_proc_meminfo_line(proc_meminfo_line: &str) -> (r: Result<u64, ProcSysParserError>)
        ensures
            scalar_field_of(tokens_of(proc_meminfo_line@)) matches Ok(v) ==> r == Ok::<
                u64,
                ProcSysParserError,
            >(v),
            scalar_field_of(tokens_of(proc_meminfo_line@)) matches Err(k) ==> (r matches Err(e)
                && reflects(e, k)),
    {
        let cs = chars_vec(proc_meminfo_line);
        let ts = tokenize(cs.as_slice());
        match parse_scalar_field(&ts) {
            Ok(v) => Ok(v),
            Err(k) => Err(error_for(k, "meminfo parse_proc_meminfo")),
        }
    }

    /// Decode a whole `/proc/meminfo` document, as [`meminfo_of`] says:
    /// the value is exactly the line fold, and a failing document reports
    /// the same failure kind.
    pub fn parse_proc_meminfo_output(proc_meminfo: &str) -> (r: Result<
        ProcMemInfo,
        ProcSysParserError,
    >)
        ensures
            (r is Ok) == (meminfo_of(proc_meminfo@) is Ok),
            r matches Ok(d) ==> meminfo_of(proc_meminfo@) == Ok::<ProcMemInfo, DecodeErr>(d),
            r matches Err(e) ==> (meminfo_of(proc_meminfo@) matches Err(k) && reflects(e, k)),
    {
        let ghost doc = proc_meminfo@;
        let ghost ls = lines_of(doc);
        let cs = chars_vec(proc_meminfo);
        let lines = split_lines(cs.as_slice());
        let mut st = ProcMemInfo::new();
        proof {
            assert(ls.skip(0) =~= ls);
        }
        let mut i: usize = 0;
        while i < lines.len()
            invariant
                i <= lines@.len(),
                doc == proc_meminfo@,
                ls == lines_of(doc),
                lines.deep_view() == ls,
                meminfo_fold(init_meminfo(), ls) == meminfo_fold(st, ls.skip(i as int)),
            decreases lines@.len() - i,
        {
            proof {
                assert(ls.skip(i as int).len() > 0);
                assert(ls.skip(i as int)[0] == ls[i as int]);
                assert(ls.skip(i as int).skip(1) =~= ls.skip(i + 1 as int));
                assert(lines@[i as int].deep_view() =~= lines@[i as int]@);
                assert(lines.deep_view()[i as int] == ls[i as int]);
                lemma_meminfo_fold_step(st, ls.skip(i as int));
            }
            let ts = tokenize(lines[i].as_slice());
            match meminfo_apply(&mut st, &ts, Ghost(ls[i as int])) {
                Ok(()) => {},
                Err(k) => {
                    return Err(error_for(k, "meminfo parse_proc_meminfo"));
                },
            }
            i += 1;
        }
        proof {
            assert(ls.skip(i as int) =~= Seq::<Seq<char>>::empty());
        }
        Ok(st)
    }
}

/// Where the document is read from: a directory path and a file name,
/// joined by [`Builder::target`]. The reading itself is left to the caller.
#[derive(Default)]
pub struct Builder {
    pub proc_path: String,
    pub proc_file: String,
}

impl Builder {
    pub fn new() -> (b: Builder)
        ensures
            b.proc_path@ == "/proc"@,
            b.proc_file@ == "meminfo"@,
    {
        Builder { proc_path: "/proc".to_owned(), proc_file: "meminfo".to_owned() }
    }

    pub fn path(self, proc_path: &str) -> (b: Builder)
        ensures
            b.proc_path@ == proc_path@,
            b.proc_file@ == self.proc_file@,
    {
        Builder { proc_path: proc_path.to_owned(), proc_file: self.proc_file }
    }

    pub fn file(self, proc_file: &str) -> (b: Builder)
        ensures
            b.proc_path@ == self.proc_path@,
            b.proc_file@ == proc_file@,
    {
        Builder { proc_path: self.proc_path, proc_file: proc_file.to_owned() }
    }

    /// The full path of the file this builder reads.
    pub fn target(&self) -> (p: String)
        ensures
            p@ == self.proc_path@ + "/"@ + self.proc_file@,
    {
        let mut p = self.proc_path.clone();
        p.append("/");
        p.append(self.proc_file.as_str());
        p
    }
}

} // verus!
