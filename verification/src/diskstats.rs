//! Decoder for the block device statistics of `/proc/diskstats`.
//!
//! Every line describes one block device or partition: major and minor
//! number, the device name, eleven counters that every kernel reports, and
//! six trailing counters that older kernels leave out, decoded as
//! explicitly absent rather than zero. A line with a missing or
//! non-numeric required counter fails the whole decode with a typed
//! error, as [`diskstats_of`] says.

use crate::scan::{
    chars_to_string, chars_vec, dec_u64_of, lines_of, opt_u64_of, parse_opt_u64, parse_req_u64,
    req_u64_of, split_lines, tokenize, tokens_of, DecodeErr,
};
use crate::{error_for, reflects, ProcSysParserError};
use vstd::prelude::*;
use vstd::string::StringExecFns;

verus! {

/// One decoded `/proc/diskstats` line.
#[derive(Debug, PartialEq, Default)]
pub struct DiskStats {
    pub block_major: u64,
    pub block_minor: u64,
    pub device_name: String,
    pub reads_completed_success: u64,
    pub reads_merged: u64,
    pub reads_sectors: u64,
    pub reads_time_spent_ms: u64,
    pub writes_completed_success: u64,
    pub writes_merged: u64,
    pub writes_sectors: u64,
    pub writes_time_spent_ms: u64,
    pub ios_in_progress: u64,
    pub ios_time_spent_ms: u64,
    pub ios_weighted_time_spent_ms: u64,
    pub discards_completed_success: Option<u64>,
    pub discards_merged: Option<u64>,
    pub discards_sectors: Option<u64>,
    pub discards_time_spent_ms: Option<u64>,
    pub flush_requests_completed_success: Option<u64>,
    pub flush_requests_time_spent_ms: Option<u64>,
}

/// The mathematical value of a [`DiskStats`].
#[verifier::ext_equal]
pub struct DiskStatsView {
    pub block_major: u64,
    pub block_minor: u64,
    pub device_name: Seq<char>,
    pub reads_completed_success: u64,
    pub reads_merged: u64,
    pub reads_sectors: u64,
    pub reads_time_spent_ms: u64,
    pub writes_completed_success: u64,
    pub writes_merged: u64,
    pub writes_sectors: u64,
    pub writes_time_spent_ms: u64,
    pub ios_in_progress: u64,
    pub ios_time_spent_ms: u64,
    pub ios_weighted_time_spent_ms: u64,
    pub discards_completed_success: Option<u64>,
    pub discards_merged: Option<u64>,
    pub discards_sectors: Option<u64>,
    pub discards_time_spent_ms: Option<u64>,
    pub flush_requests_completed_success: Option<u64>,
    pub flush_requests_time_spent_ms: Option<u64>,
}

impl View for DiskStats {
    type V = DiskStatsView;

    open spec fn view(&self) -> DiskStatsView {
        DiskStatsView {
            block_major: self.block_major,
            block_minor: self.block_minor,
            device_name: self.device_name@,
            reads_completed_success: self.reads_completed_success,
            reads_merged: self.reads_merged,
            reads_sectors: self.reads_sectors,
            reads_time_spent_ms: self.reads_time_spent_ms,
            writes_completed_success: self.writes_completed_success,
            writes_merged: self.writes_merged,
            writes_sectors: self.writes_sectors,
            writes_time_spent_ms: self.writes_time_spent_ms,
            ios_in_progress: self.ios_in_progress,
            ios_time_spent_ms: self.ios_time_spent_ms,
            ios_weighted_time_spent_ms: self.ios_weighted_time_spent_ms,
            discards_completed_success: self.discards_completed_success,
            discards_merged: self.discards_merged,
            discards_sectors: self.discards_sectors,
            discards_time_spent_ms: self.discards_time_spent_ms,
            flush_requests_completed_success: self.flush_requests_completed_success,
            flush_requests_time_spent_ms: self.flush_requests_time_spent_ms,
        }
    }
}

/// Every required field of a line is present and numeric: fourteen
/// whitespace-separated fields, of which all but the name parse as decimal
/// integers.
pub open spec fn disk_line_wf(ts: Seq<Seq<char>>) -> bool {
    &&& ts.len() >= 14
    &&& dec_u64_of(ts[0]) is Some
    &&& dec_u64_of(ts[1]) is Some
    &&& forall|i: int| 3 <= i < 14 ==> dec_u64_of(#[trigger] ts[i]) is Some
}

/// The failure of a malformed line: the first required field that is
/// missing or fails to parse, in field order.
pub open spec fn disk_line_err(ts: Seq<Seq<char>>) -> DecodeErr {
    if req_u64_of(ts, 0) is Err {
        req_u64_of(ts, 0)->Err_0
    } else if req_u64_of(ts, 1) is Err {
        req_u64_of(ts, 1)->Err_0
    } else if ts.len() < 3 {
        DecodeErr::MissingField
    } else if req_u64_of(ts, 3) is Err {
        req_u64_of(ts, 3)->Err_0
    } else if req_u64_of(ts, 4) is Err {
        req_u64_of(ts, 4)->Err_0
    } else if req_u64_of(ts, 5) is Err {
        req_u64_of(ts, 5)->Err_0
    } else if req_u64_of(ts, 6) is Err {
        req_u64_of(ts, 6)->Err_0
    } else if req_u64_of(ts, 7) is Err {
        req_u64_of(ts, 7)->Err_0
    } else if req_u64_of(ts, 8) is Err {
        req_u64_of(ts, 8)->Err_0
    } else if req_u64_of(ts, 9) is Err {
        req_u64_of(ts, 9)->Err_0
    } else if req_u64_of(ts, 10) is Err {
        req_u64_of(ts, 10)->Err_0
    } else if req_u64_of(ts, 11) is Err {
        req_u64_of(ts, 11)->Err_0
    } else if req_u64_of(ts, 12) is Err {
        req_u64_of(ts, 12)->Err_0
    } else {
        req_u64_of(ts, 13)->Err_0
    }
}

/// The decoded value of one line: fourteen required fields in order, with
/// the name as the third, then six optional trailing counters.
pub open spec fn disk_line_of(l: Seq<char>) -> Result<DiskStatsView, DecodeErr> {
    let ts = tokens_of(l);
    if disk_line_wf(ts) {
        Ok(
            DiskStatsView {
                block_major: req_u64_of(ts, 0)->Ok_0,
                block_minor: req_u64_of(ts, 1)->Ok_0,
                device_name: ts[2],
                reads_completed_success: req_u64_of(ts, 3)->Ok_0,
                reads_merged: req_u64_of(ts, 4)->Ok_0,
                reads_sectors: req_u64_of(ts, 5)->Ok_0,
                reads_time_spent_ms: req_u64_of(ts, 6)->Ok_0,
                writes_completed_success: req_u64_of(ts, 7)->Ok_0,
                writes_merged: req_u64_of(ts, 8)->Ok_0,
                writes_sectors: req_u64_of(ts, 9)->Ok_0,
                writes_time_spent_ms: req_u64_of(ts, 10)->Ok_0,
                ios_in_progress: req_u64_of(ts, 11)->Ok_0,
                ios_time_spent_ms: req_u64_of(ts, 12)->Ok_0,
                ios_weighted_time_spent_ms: req_u64_of(ts, 13)->Ok_0,
                discards_completed_success: opt_u64_of(ts, 14),
                discards_merged: opt_u64_of(ts, 15),
                discards_sectors: opt_u64_of(ts, 16),
                discards_time_spent_ms: opt_u64_of(ts, 17),
                flush_requests_completed_success: opt_u64_of(ts, 18),
                flush_requests_time_spent_ms: opt_u64_of(ts, 19),
            },
        )
    } else {
        Err(disk_line_err(ts))
    }
}

/// Decode one line's token list, as [`disk_line_of`] says.
fn disk_line_from_tokens(ts: &Vec<Vec<char>>, Ghost(l): Ghost<Seq<char>>) -> (r: Result<
    DiskStats,
    DecodeErr,
>)
    requires
        ts.deep_view() == tokens_of(l),
    ensures
        disk_line_of(l) matches Ok(v) ==> (r matches Ok(d) && d@ == v),
        disk_line_of(l) matches Err(k) ==> (r matches Err(k2) && k2 == k),
{
    let block_major = match parse_req_u64(ts, 0) {
        Ok(v) => v,
        Err(k) => {
            return Err(k);
        },
    };
    let block_minor = match parse_req_u64(ts, 1) {
        Ok(v) => v,
        Err(k) => {
            return Err(k);
        },
    };
    if ts.len() < 3 {
        return Err(DecodeErr::MissingField);
    }
    proof {
        assert(ts.deep_view()[2] =~= ts@[2]@);
    }
    let device_name = chars_to_string(ts[2].as_slice());
    let f3 = match parse_req_u64(ts, 3) {
        Ok(v) => v,
        Err(k) => {
            return Err(k);
        },
    };
    let f4 = match parse_req_u64(ts, 4) {
        Ok(v) => v,
        Err(k) => {
            return Err(k);
        },
    };
    let f5 = match parse_req_u64(ts, 5) {
        Ok(v) => v,
        Err(k) => {
            return Err(k);
        },
    };
    let f6 = match parse_req_u64(ts, 6) {
        Ok(v) => v,
        Err(k) => {
            return Err(k);
        },
    };
    let f7 = match parse_req_u64(ts, 7) {
        Ok(v) => v,
        Err(k) => {
            return Err(k);
        },
    };
    let f8 = match parse_req_u64(ts, 8) {
        Ok(v) => v,
        Err(k) => {
            return Err(k);
        },
    };
    let f9 = match parse_req_u64(ts, 9) {
        Ok(v) => v,
        Err(k) => {
            return Err(k);
        },
    };
    let f10 = match parse_req_u64(ts, 10) {
        Ok(v) => v,
        Err(k) => {
            return Err(k);
        },
    };
    let f11 = match parse_req_u64(ts, 11) {
        Ok(v) => v,
        Err(k) => {
            return Err(k);
        },
    };
    let f12 = match parse_req_u64(ts, 12) {
        Ok(v) => v,
        Err(k) => {
            return Err(k);
        },
    };
    let f13 = match parse_req_u64(ts, 13) {
        Ok(v) => v,
        Err(k) => {
            return Err(k);
        },
    };
    let d = DiskStats {
        block_major,
        block_minor,
        device_name,
        reads_completed_success: f3,
        reads_merged: f4,
        reads_sectors: f5,
        reads_time_spent_ms: f6,
        writes_completed_success: f7,
        writes_merged: f8,
        writes_sectors: f9,
        writes_time_spent_ms: f10,
        ios_in_progress: f11,
        ios_time_spent_ms: f12,
        ios_weighted_time_spent_ms: f13,
        discards_completed_success: parse_opt_u64(ts, 14),
        discards_merged: parse_opt_u64(ts, 15),
        discards_sectors: parse_opt_u64(ts, 16),
        discards_time_spent_ms: parse_opt_u64(ts, 17),
        flush_requests_completed_success: parse_opt_u64(ts, 18),
        flush_requests_time_spent_ms: parse_opt_u64(ts, 19),
    };
    proof {
        assert(d@ =~~= disk_line_of(l)->Ok_0);
    }
    Ok(d)
}

/// The decoded records of every line, in order; one malformed line fails
/// the whole document.
pub open spec fn disks_of(ls: Seq<Seq<char>>) -> Result<Seq<DiskStatsView>, DecodeErr>
    decreases ls.len(),
{
    if ls.len() == 0 {
        Ok(Seq::<DiskStatsView>::empty())
    } else {
        match disks_of(ls.drop_last()) {
            Ok(pre) => match disk_line_of(ls.last()) {
                Ok(d) => Ok(pre.push(d)),
                Err(e) => Err(e),
            },
            Err(e) => Err(e),
        }
    }
}

/// The decoded value of a whole `/proc/diskstats` document. The document
/// is well formed when this is `Ok`.
pub open spec fn diskstats_of(s: Seq<char>) -> Result<Seq<DiskStatsView>, DecodeErr> {
    disks_of(lines_of(s))
}

/// The decoded `/proc/diskstats` document.
#[derive(Debug, PartialEq, Default)]
pub struct ProcDiskStats {
    pub disk_stats: Vec<DiskStats>,
}

pub open spec fn disk_views(s: Seq<DiskStats>) -> Seq<DiskStatsView> {
    Seq::new(s.len(), |i: int| s[i]@)
}

impl View for ProcDiskStats {
    type V = Seq<DiskStatsView>;

    open spec fn view(&self) -> Seq<DiskStatsView> {
        disk_views(self.disk_stats@)
    }
}

impl ProcDiskStats {
    /// An empty document record.
    pub fn new() -> (r: ProcDiskStats)
        ensures
            r.disk_stats@.len() == 0,
    {
        ProcDiskStats { disk_stats: Vec::new() }
    }

    /// Decode one `/proc/diskstats` line, exactly as [`disk_line_of`]
    /// says: the record on a well-formed line, and a typed failure of the
    /// same kind on a line with missing or non-numeric counters.
    pub fn parse_proc_diskstats_line(proc_diskstats_line: &str) -> (r: Result<
        DiskStats,
        ProcSysParserError,
    >)
        ensures
            disk_line_of(proc_diskstats_line@) matches Ok(v) ==> (r matches Ok(d) && d@ == v),
            disk_line_of(proc_diskstats_line@) matches Err(k) ==> (r matches Err(e) && reflects(
                e,
                k,
            )),
    {
        let cs = chars_vec(proc_diskstats_line);
        let ts = tokenize(cs.as_slice());
        match disk_line_from_tokens(&ts, Ghost(proc_diskstats_line@)) {
            Ok(d) => Ok(d),
            Err(k) => Err(error_for(k, "diskstats parse_proc_diskstats_line")),
        }
    }

    /// Decode a whole `/proc/diskstats` document, as [`diskstats_of`]
    /// says: one record per line, in document order, and a typed failure
    /// of the same kind at the first malformed line.
    pub fn parse_proc_diskstats(proc_diskstats: &str) -> (r: Result<
        ProcDiskStats,
        ProcSysParserError,
    >)
        ensures
            (r is Ok) == (diskstats_of(proc_diskstats@) is Ok),
            r matches Ok(d) ==> diskstats_of(proc_diskstats@) == Ok::<Seq<DiskStatsView>, DecodeErr>(
                d@,
            ),
            r matches Err(e) ==> (diskstats_of(proc_diskstats@) matches Err(k) && reflects(e, k)),
    {
        let ghost doc = proc_diskstats@;
        let ghost ls = lines_of(doc);
        let cs = chars_vec(proc_diskstats);
        let lines = split_lines(cs.as_slice());
        let mut out = ProcDiskStats::new();
        proof {
            assert(ls.subrange(0, 0) =~= Seq::<Seq<char>>::empty());
            assert(disk_views(out.disk_stats@) =~~= Seq::<DiskStatsView>::empty());
        }
        let mut i: usize = 0;
        while i < lines.len()
            invariant
                i <= lines@.len(),
                doc == proc_diskstats@,
                ls == lines_of(doc),
                lines.deep_view() == ls,
                disks_of(ls.subrange(0, i as int)) == Ok::<Seq<DiskStatsView>, DecodeErr>(
                    disk_views(out.disk_stats@),
                ),
            decreases lines@.len() - i,
        {
            proof {
                assert(ls.subrange(0, i + 1 as int).drop_last() =~= ls.subrange(0, i as int));
                assert(ls.subrange(0, i + 1 as int).last() == ls[i as int]);
                assert(lines@[i as int].deep_view() =~= lines@[i as int]@);
                assert(lines.deep_view()[i as int] == ls[i as int]);
            }
            let ts = tokenize(lines[i].as_slice());
            match disk_line_from_tokens(&ts, Ghost(ls[i as int])) {
                Ok(d) => {
                    out.disk_stats.push(d);
                    proof {
                        assert(disk_views(out.disk_stats@) =~~= disks_of(
                            ls.subrange(0, i as int),
                        )->Ok_0.push(d@));
                    }
                },
                Err(k) => {
                    proof {
                        lemma_disks_err_extends(ls, i + 1);
                    }
                    return Err(error_for(k, "diskstats parse_proc_diskstats_line"));
                },
            }
            i += 1;
        }
        proof {
            assert(ls.subrange(0, i as int) =~= ls);
        }
        Ok(out)
    }
}

/// Once a line fails to decode, the whole document fails with that error.
proof fn lemma_disks_err_extends(ls: Seq<Seq<char>>, k: int)
    requires
        0 <= k <= ls.len(),
        disks_of(ls.subrange(0, k)) is Err,
    ensures
        disks_of(ls) == disks_of(ls.subrange(0, k)),
    decreases ls.len() - k,
{
    if k < ls.len() {
        assert(ls.subrange(0, k + 1).drop_last() =~= ls.subrange(0, k));
        lemma_disks_err_extends(ls, k + 1);
    } else {
        assert(ls.subrange(0, k) =~= ls);
    }
}

/// Where the document is read from: a directory path and a file name,
/// joined by [`Builder::target`]. The reading itself is left to the caller.
#[derive(Default)]
pub struct Builder {
    pub proc_path: String,
    pub proc_file: String,
}

impl Builder {
    pub fn new() -> (b: Builder)
        ensures
            b.proc_path@ == "/proc"@,
            b.proc_file@ == "diskstats"@,
    {
        Builder { proc_path: "/proc".to_owned(), proc_file: "diskstats".to_owned() }
    }

    pub fn path(self, proc_path: &str) -> (b: Builder)
        ensures
            b.proc_path@ == proc_path@,
            b.proc_file@ == self.proc_file@,
    {
        Builder { proc_path: proc_path.to_owned(), proc_file: self.proc_file }
    }

    pub fn file(self, proc_file: &str) -> (b: Builder)
        ensures
            b.proc_path@ == self.proc_path@,
            b.proc_file@ == proc_file@,
    {
        Builder { proc_path: self.proc_path, proc_file: proc_file.to_owned() }
    }

    /// The full path of the file this builder reads.
    pub fn target(&self) -> (p: String)
        ensures
            p@ == self.proc_path@ + "/"@ + self.proc_file@,
    {
        let mut p = self.proc_path.clone();
        p.append("/");
        p.append(self.proc_file.as_str());
        p
    }
}

} // verus!
