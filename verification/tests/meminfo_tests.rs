use proc_sys_parser::meminfo::ProcMemInfo;
use proc_sys_parser::ProcSysParserError;

#[test]
fn parse_meminfo_line() {
    let meminfo_line = "MemTotal:        3997876 kB";
    let result = ProcMemInfo::parse_proc_meminfo_line(&meminfo_line).unwrap();
    assert_eq!(result, 3997876_u64);
}

#[test]
fn parse_full_proc_meminfo_file() {
    let proc_meminfo = "MemTotal:        3997876 kB
MemFree:         2415136 kB
MemAvailable:    3654096 kB
Buffers:           37492 kB
Cached:          1305568 kB
SwapCached:            0 kB
Active:           880772 kB
Inactive:         549432 kB
Active(anon):      86968 kB
Inactive(anon):     5196 kB
Active(file):     793804 kB
Inactive(file):   544236 kB
Unevictable:        4000 kB
Mlocked:               0 kB
SwapTotal:             0 kB
SwapFree:              0 kB
Zswap:                 0 kB
Zswapped:              0 kB
Dirty:                 0 kB
Writeback:             0 kB
AnonPages:         91144 kB
Mapped:           140948 kB
Shmem:              5020 kB
KReclaimable:      56680 kB
Slab:              93916 kB
SReclaimable:      56680 kB
SUnreclaim:        37236 kB
KernelStack:        3256 kB
ShadowCallStack:     828 kB
PageTables:         2884 kB
SecPageTables:         0 kB
NFS_Unstable:          0 kB
Bounce:                0 kB
WritebackTmp:          0 kB
CommitLimit:     1998936 kB
Committed_AS:     944240 kB
VmallocTotal:   133141626880 kB
VmallocUsed:       14124 kB
VmallocChunk:          0 kB
Percpu:             2280 kB
HardwareCorrupted:     0 kB
AnonHugePages:      4096 kB
ShmemHugePages:        0 kB
ShmemPmdMapped:        0 kB
FileHugePages:         0 kB
FilePmdMapped:         0 kB
CmaTotal:          32768 kB
CmaFree:           31232 kB
HugePages_Total:       0
HugePages_Free:        0
HugePages_Rsvd:        0
HugePages_Surp:        0
Hugepagesize:       2048 kB
Hugetlb:               0 kB";
    let result = ProcMemInfo::parse_proc_meminfo_output(proc_meminfo).unwrap();
    assert_eq!(
        result,
        ProcMemInfo {
            memtotal: 3997876,
            memfree: 2415136,
            memavailable: 3654096,
            buffers: 37492,
            cached: 1305568,
            swapcached: 0,
            active: 880772,
            inactive: 549432,
            active_anon: 86968,
            inactive_anon: 5196,
            active_file: 793804,
            inactive_file: 544236,
            unevictable: 4000,
            mlocked: 0,
            swaptotal: 0,
            swapfree: 0,
            zswap: 0,
            zswapped: 0,
            dirty: 0,
            writeback: 0,
            anonpages: 91144,
            mapped: 140948,
            shmem: 5020,
            kreclaimable: 56680,
            slab: 93916,
            sreclaimable: 56680,
            sunreclaim: 37236,
            kernelstack: 3256,
            shadowcallstack: 828,
            pagetables: 2884,
            secpagetables: 0,
            nfs_unstable: 0,
            bounce: 0,
            writebacktmp: 0,
            commitlimit: 1998936,
            committed_as: 944240,
            vmalloctotal: 133141626880,
            vmallocused: 14124,
            vmallocchunk: 0,
            percpu: 2280,
            hardwarecorrupted: 0,
            anonhugepages: 4096,
            shmemhugepages: 0,
            shmempmdmapped: 0,
            filehugepages: 0,
            filepmdmapped: 0,
            cmatotal: 32768,
            cmafree: 31232,
            hugepages_total: 0,
            hugepages_free: 0,
            hugepages_rsvd: 0,
            hugepages_surp: 0,
            hugepagesize: 2048,
            hugetlb: 0,
            directmap4k: None,
            directmap2m: None,
        }
    );
}

#[test]
fn bad_meminfo_value_is_an_integer_error() {
    let result = ProcMemInfo::parse_proc_meminfo_output("MemTotal: abc kB");
    assert!(matches!(result, Err(ProcSysParserError::ParseToIntegerError { .. })));
}

#[test]
fn unknown_meminfo_line_is_skipped() {
    let result = ProcMemInfo::parse_proc_meminfo_output("SomethingNew: 42 kB\nMemTotal: 7 kB").unwrap();
    assert_eq!(result.memtotal, 7);
}
