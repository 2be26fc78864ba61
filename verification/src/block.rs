//! Decoders for the per-device files of `/sys/block/<device>`.
//!
//! Each device directory holds many one-value files and a `stat` file with
//! the device's counters. The decoders here work on the contents of those
//! files; walking the directory and reading the files is left to the
//! caller, which hands each file's text in and stores the decoded values
//! in a [`BlockDevice`].

use crate::scan::{
    chars_to_string, chars_vec, copy_range, find_ch, find_char, opt_u64_of, parse_i64_dec,
    parse_opt_u64, parse_req_u64, parse_u64_dec, req_u64_of, split_char, split_on, dec_i64_of,
    dec_u64_of, tokenize, tokens_of, trim_nl_chars, trim_nl_of, DecodeErr,
};
use crate::ProcSysParserError;
use vstd::prelude::*;
use vstd::string::StringExecFns;

verus! {

/// One block device's decoded files.
#[derive(Debug, PartialEq, Default)]
pub struct BlockDevice {
    pub device_name: String,
    pub alignment_offset: u64,
    pub cache_type: Option<String>,
    pub dev_block_major: u64,
    pub dev_block_minor: u64,
    pub discard_alignment: u64,
    pub diskseq: Option<u64>,
    pub hidden: u64,
    pub inflight_reads: u64,
    pub inflight_writes: u64,
    pub queue_add_random: u64,
    pub queue_chunk_sectors: Option<u64>,
    pub queue_dax: u64,
    pub queue_discard_granularity: u64,
    pub queue_discard_max_bytes: u64,
    pub queue_discard_max_hw_bytes: u64,
    pub queue_hw_sector_size: u64,
    pub queue_io_poll: u64,
    pub queue_io_poll_delay: i64,
    pub queue_logical_block_size: u64,
    pub queue_max_discard_segments: u64,
    pub queue_max_hw_sectors_kb: u64,
    pub queue_max_sectors_kb: u64,
    pub queue_max_integrity_segments: u64,
    pub queue_max_segments: u64,
    pub queue_max_segment_size: u64,
    pub queue_minimum_io_size: u64,
    pub queue_nomerges: u64,
    pub queue_nr_requests: u64,
    pub queue_nr_zones: Option<u64>,
    pub queue_optimal_io_size: u64,
    pub queue_physical_block_size: u64,
    pub queue_read_ahead_kb: u64,
    pub queue_rotational: u64,
    pub queue_rq_affinity: u64,
    pub queue_scheduler: String,
    pub queue_write_cache: String,
    pub queue_write_same_max_bytes: u64,
    pub queue_zoned: Option<String>,
    pub range: u64,
    pub removable: u64,
    pub ro: u64,
    pub size: u64,
    pub stat_reads_completed_success: u64,
    pub stat_reads_merged: u64,
    pub stat_reads_sectors: u64,
    pub stat_reads_time_spent_ms: u64,
    pub stat_writes_completed_success: u64,
    pub stat_writes_merged: u64,
    pub stat_writes_sectors: u64,
    pub stat_writes_time_spent_ms: u64,
    pub stat_ios_in_progress: u64,
    pub stat_ios_time_spent_ms: u64,
    pub stat_ios_weighted_time_spent_ms: u64,
    pub stat_discards_completed_success: Option<u64>,
    pub stat_discards_merged: Option<u64>,
    pub stat_discards_sectors: Option<u64>,
    pub stat_discards_time_spent_ms: Option<u64>,
    pub stat_flush_requests_completed_success: Option<u64>,
    pub stat_flush_requests_time_spent_ms: Option<u64>,
}

/// The decoded `/sys/block` tree: one record per device directory.
#[derive(Debug, PartialEq, Default)]
pub struct SysBlock {
    pub block_devices: Vec<BlockDevice>,
}

impl BlockDevice {
    /// A record with every value empty, zero or absent.
    pub fn new() -> (r: BlockDevice)
        ensures
            r.device_name@ == Seq::<char>::empty(),
            r.alignment_offset == 0,
            r.cache_type is None,
            r.dev_block_major == 0,
            r.dev_block_minor == 0,
            r.discard_alignment == 0,
            r.diskseq is None,
            r.hidden == 0,
            r.inflight_reads == 0,
            r.inflight_writes == 0,
            r.queue_add_random == 0,
            r.queue_chunk_sectors is None,
            r.queue_dax == 0,
            r.queue_discard_granularity == 0,
            r.queue_discard_max_bytes == 0,
            r.queue_discard_max_hw_bytes == 0,
            r.queue_hw_sector_size == 0,
            r.queue_io_poll == 0,
            r.queue_io_poll_delay == 0,
            r.queue_logical_block_size == 0,
            r.queue_max_discard_segments == 0,
            r.queue_max_hw_sectors_kb == 0,
            r.queue_max_sectors_kb == 0,
            r.queue_max_integrity_segments == 0,
            r.queue_max_segments == 0,
            r.queue_max_segment_size == 0,
            r.queue_minimum_io_size == 0,
            r.queue_nomerges == 0,
            r.queue_nr_requests == 0,
            r.queue_nr_zones is None,
            r.queue_optimal_io_size == 0,
            r.queue_physical_block_size == 0,
            r.queue_read_ahead_kb == 0,
            r.queue_rotational == 0,
            r.queue_rq_affinity == 0,
            r.queue_scheduler@ == Seq::<char>::empty(),
            r.queue_write_cache@ == Seq::<char>::empty(),
            r.queue_write_same_max_bytes == 0,
            r.queue_zoned is None,
            r.range == 0,
            r.removable == 0,
            r.ro == 0,
            r.size == 0,
            r.stat_reads_completed_success == 0,
            r.stat_reads_merged == 0,
            r.stat_reads_sectors == 0,
            r.stat_reads_time_spent_ms == 0,
            r.stat_writes_completed_success == 0,
            r.stat_writes_merged == 0,
            r.stat_writes_sectors == 0,
            r.stat_writes_time_spent_ms == 0,
            r.stat_ios_in_progress == 0,
            r.stat_ios_time_spent_ms == 0,
            r.stat_ios_weighted_time_spent_ms == 0,
            r.stat_discards_completed_success is None,
            r.stat_discards_merged is None,
            r.stat_discards_sectors is None,
            r.stat_discards_time_spent_ms is None,
            r.stat_flush_requests_completed_success is None,
            r.stat_flush_requests_time_spent_ms is None,
    {
        BlockDevice {
            device_name: String::new(),
            alignment_offset: 0,
            cache_type: None,
            dev_block_major: 0,
            dev_block_minor: 0,
            discard_alignment: 0,
            diskseq: None,
            hidden: 0,
            inflight_reads: 0,
            inflight_writes: 0,
            queue_add_random: 0,
            queue_chunk_sectors: None,
            queue_dax: 0,
            queue_discard_granularity: 0,
            queue_discard_max_bytes: 0,
            queue_discard_max_hw_bytes: 0,
            queue_hw_sector_size: 0,
            queue_io_poll: 0,
            queue_io_poll_delay: 0,
            queue_logical_block_size: 0,
            queue_max_discard_segments: 0,
            queue_max_hw_sectors_kb: 0,
            queue_max_sectors_kb: 0,
            queue_max_integrity_segments: 0,
            queue_max_segments: 0,
            queue_max_segment_size: 0,
            queue_minimum_io_size: 0,
            queue_nomerges: 0,
            queue_nr_requests: 0,
            queue_nr_zones: None,
            queue_optimal_io_size: 0,
            queue_physical_block_size: 0,
            queue_read_ahead_kb: 0,
            queue_rotational: 0,
            queue_rq_affinity: 0,
            queue_scheduler: String::new(),
            queue_write_cache: String::new(),
            queue_write_same_max_bytes: 0,
            queue_zoned: None,
            range: 0,
            removable: 0,
            ro: 0,
            size: 0,
            stat_reads_completed_success: 0,
            stat_reads_merged: 0,
            stat_reads_sectors: 0,
            stat_reads_time_spent_ms: 0,
            stat_writes_completed_success: 0,
            stat_writes_merged: 0,
            stat_writes_sectors: 0,
            stat_writes_time_spent_ms: 0,
            stat_ios_in_progress: 0,
            stat_ios_time_spent_ms: 0,
            stat_ios_weighted_time_spent_ms: 0,
            stat_discards_completed_success: None,
            stat_discards_merged: None,
            stat_discards_sectors: None,
            stat_discards_time_spent_ms: None,
            stat_flush_requests_completed_success: None,
            stat_flush_requests_time_spent_ms: None,
        }
    }
}

impl SysBlock {
    /// An empty tree.
    pub fn new() -> (r: SysBlock)
        ensures
            r.block_devices@.len() == 0,
    {
        SysBlock { block_devices: Vec::new() }
    }

    /// The major and minor number of a `dev` file: its text without
    /// trailing newlines, split on `:`.
    pub open spec fn dev_of(c: Seq<char>) -> Result<(u64, u64), DecodeErr> {
        let parts = split_on(trim_nl_of(c), ':');
        match dec_u64_of(parts[0]) {
            None => Err(DecodeErr::NotANumber),
            Some(major) => if parts.len() < 2 {
                Err(DecodeErr::MissingField)
            } else {
                match dec_u64_of(parts[1]) {
                    None => Err(DecodeErr::NotANumber),
                    Some(minor) => Ok((major, minor)),
                }
            },
        }
    }

    /// Decode a `dev` file's contents into the device's major and minor
    /// number, as [`SysBlock::dev_of`] says.
    pub fn parse_dev(blockdevice_data: &mut BlockDevice, dev_contents: &str) -> (r: Result<
        (),
        ProcSysParserError,
    >)
        ensures
            SysBlock::dev_of(dev_contents@) matches Ok(p) ==> (r is Ok && *final(blockdevice_data) == (BlockDevice {
                dev_block_major: p.0,
                dev_block_minor: p.1,
                ..*old(blockdevice_data)
            })),
            SysBlock::dev_of(dev_contents@) matches Err(k) ==> (r matches Err(e) && crate::reflects(
                e,
                k,
            ) && *final(blockdevice_data) == *old(blockdevice_data)),
    {
        let cs = chars_vec(dev_contents);
        let t = trim_nl_chars(cs.as_slice());
        let parts = split_char(t.as_slice(), ':');
        proof {
            crate::scan::lemma_split_on_len(trim_nl_of(dev_contents@), ':');
            assert(parts.deep_view()[0] =~= parts@[0]@);
        }
        let major = match parse_u64_dec(parts[0].as_slice()) {
            Some(v) => v,
            None => {
                return Err(crate::error_for(DecodeErr::NotANumber, "block parse_dev major"));
            },
        };
        if parts.len() < 2 {
            return Err(crate::error_for(DecodeErr::MissingField, "block parse_dev minor"));
        }
        proof {
            assert(parts.deep_view()[1] =~= parts@[1]@);
        }
        let minor = match parse_u64_dec(parts[1].as_slice()) {
            Some(v) => v,
            None => {
                return Err(crate::error_for(DecodeErr::NotANumber, "block parse_dev minor"));
            },
        };
        blockdevice_data.dev_block_major = major;
        blockdevice_data.dev_block_minor = minor;
        Ok(())
    }

    /// The read and write counts of an `inflight` file: its first two
    /// whitespace-separated fields.
    pub open spec fn inflight_of(c: Seq<char>) -> Result<(u64, u64), DecodeErr> {
        let ts = tokens_of(trim_nl_of(c));
        match req_u64_of(ts, 0) {
            Err(e) => Err(e),
            Ok(reads) => match req_u64_of(ts, 1) {
                Err(e) => Err(e),
                Ok(writes) => Ok((reads, writes)),
            },
        }
    }

    /// Decode an `inflight` file's contents into the pending read and
    /// write counts, as [`SysBlock::inflight_of`] says.
    pub fn parse_inflight(blockdevice_data: &mut BlockDevice, inflight_contents: &str) -> (r:
        Result<(), ProcSysParserError>)
        ensures
            SysBlock::inflight_of(inflight_contents@) matches Ok(p) ==> (r is Ok && *final(blockdevice_data) == (BlockDevice {
                inflight_reads: p.0,
                inflight_writes: p.1,
                ..*old(blockdevice_data)
            })),
            SysBlock::inflight_of(inflight_contents@) matches Err(k) ==> (r matches Err(e)
                && crate::reflects(e, k) && *final(blockdevice_data) == *old(blockdevice_data)),
    {
        let cs = chars_vec(inflight_contents);
        let t = trim_nl_chars(cs.as_slice());
        let ts = tokenize(t.as_slice());
        let reads = match parse_req_u64(&ts, 0) {
            Ok(v) => v,
            Err(k) => {
                return Err(crate::error_for(k, "block parse_inflight reads"));
            },
        };
        let writes = match parse_req_u64(&ts, 1) {
            Ok(v) => v,
            Err(k) => {
                return Err(crate::error_for(k, "block parse_inflight writes"));
            },
        };
        blockdevice_data.inflight_reads = reads;
        blockdevice_data.inflight_writes = writes;
        Ok(())
    }

    /// The scheduler a `queue/scheduler` file names: the text between the
    /// first `[` and the first `]`, or `?` when the brackets are missing.
    pub open spec fn scheduler_of(c: Seq<char>) -> Seq<char> {
        let t = trim_nl_of(c);
        match find_ch(t, '[') {
            Some(l) => match find_ch(t, ']') {
                Some(rr) => t.subrange(l + 1, rr),
                None => "?"@,
            },
            None => "?"@,
        }
    }

    /// Both brackets of a `queue/scheduler` file, when present, are in
    /// order: the first `]` stands after the first `[`.
    pub open spec fn scheduler_wf(c: Seq<char>) -> bool {
        let t = trim_nl_of(c);
        match find_ch(t, '[') {
            Some(l) => match find_ch(t, ']') {
                Some(rr) => l < rr,
                None => true,
            },
            None => true,
        }
    }

    /// Decode a `queue/scheduler` file's contents into the chosen
    /// scheduler, as [`SysBlock::scheduler_of`] says. A file whose first
    /// `]` stands before its first `[` is outside this decoder's promise.
    pub fn parse_queue_scheduler(blockdevice_data: &mut BlockDevice, scheduler_contents: &str) -> (r:
        Result<(), ProcSysParserError>)
        requires
            SysBlock::scheduler_wf(scheduler_contents@),
        ensures
            r is Ok,
            final(blockdevice_data).queue_scheduler@ == SysBlock::scheduler_of(
                scheduler_contents@,
            ),
            *final(blockdevice_data) == (BlockDevice {
                queue_scheduler: final(blockdevice_data).queue_scheduler,
                ..*old(blockdevice_data)
            }),
    {
        let cs = chars_vec(scheduler_contents);
        let t = trim_nl_chars(cs.as_slice());
        let text: String = match find_char(t.as_slice(), '[') {
            Some(l) => match find_char(t.as_slice(), ']') {
                Some(rr) => {
                    proof {
                        assert(l < rr);
                        assert(rr < t@.len());
                    }
                    let part = copy_range(t.as_slice(), l + 1, rr);
                    chars_to_string(part.as_slice())
                },
                None => "?".to_owned(),
            },
            None => "?".to_owned(),
        };
        blockdevice_data.queue_scheduler = text;
        Ok(())
    }

    /// Every required counter of a `stat` file is present and numeric:
    /// eleven whitespace-separated decimal fields.
    pub open spec fn stat_wf(ts: Seq<Seq<char>>) -> bool {
        &&& ts.len() >= 11
        &&& forall|i: int| 0 <= i < 11 ==> dec_u64_of(#[trigger] ts[i]) is Some
    }

    /// Decode a `stat` file's contents into the device's counters: eleven
    /// required counters in order, then six that older kernels leave out,
    /// decoded as explicitly absent. On a malformed file nothing changes
    /// and the first bad field is reported.
    pub fn parse_stat(blockdevice_data: &mut BlockDevice, stat_contents: &str) -> (r: Result<
        (),
        ProcSysParserError,
    >)
        ensures
            ({
                let ts = tokens_of(trim_nl_of(stat_contents@));
                &&& SysBlock::stat_wf(ts) ==> (r is Ok && *final(blockdevice_data) == (BlockDevice {
                    stat_reads_completed_success: req_u64_of(ts, 0)->Ok_0,
                    stat_reads_merged: req_u64_of(ts, 1)->Ok_0,
                    stat_reads_sectors: req_u64_of(ts, 2)->Ok_0,
                    stat_reads_time_spent_ms: req_u64_of(ts, 3)->Ok_0,
                    stat_writes_completed_success: req_u64_of(ts, 4)->Ok_0,
                    stat_writes_merged: req_u64_of(ts, 5)->Ok_0,
                    stat_writes_sectors: req_u64_of(ts, 6)->Ok_0,
                    stat_writes_time_spent_ms: req_u64_of(ts, 7)->Ok_0,
                    stat_ios_in_progress: req_u64_of(ts, 8)->Ok_0,
                    stat_ios_time_spent_ms: req_u64_of(ts, 9)->Ok_0,
                    stat_ios_weighted_time_spent_ms: req_u64_of(ts, 10)->Ok_0,
                    stat_discards_completed_success: opt_u64_of(ts, 11),
                    stat_discards_merged: opt_u64_of(ts, 12),
                    stat_discards_sectors: opt_u64_of(ts, 13),
                    stat_discards_time_spent_ms: opt_u64_of(ts, 14),
                    stat_flush_requests_completed_success: opt_u64_of(ts, 15),
                    stat_flush_requests_time_spent_ms: opt_u64_of(ts, 16),
                    ..*old(blockdevice_data)
                }))
                &&& !SysBlock::stat_wf(ts) ==> (r matches Err(e) && (e is FindItemError || e
                    is ParseToIntegerError) && *final(blockdevice_data) == *old(blockdevice_data))
            }),
    {
        let cs = chars_vec(stat_contents);
        let t = trim_nl_chars(cs.as_slice());
        let ts = tokenize(t.as_slice());
        let v0 = match parse_req_u64(&ts, 0) {
            Ok(v) => v,
            Err(k) => {
                return Err(SysBlock::stat_err(k, "block parse_stat reads_completed_success"));
            },
        };
        let v1 = match parse_req_u64(&ts, 1) {
            Ok(v) => v,
            Err(k) => {
                return Err(SysBlock::stat_err(k, "block parse_stat reads_merged"));
            },
        };
        let v2 = match parse_req_u64(&ts, 2) {
            Ok(v) => v,
            Err(k) => {
                return Err(SysBlock::stat_err(k, "block parse_stat reads_sectors"));
            },
        };
        let v3 = match parse_req_u64(&ts, 3) {
            Ok(v) => v,
            Err(k) => {
                return Err(SysBlock::stat_err(k, "block parse_stat reads_time_spent_ms"));
            },
        };
        let v4 = match parse_req_u64(&ts, 4) {
            Ok(v) => v,
            Err(k) => {
                return Err(SysBlock::stat_err(k, "block parse_stat writes_completed_success"));
            },
        };
        let v5 = match parse_req_u64(&ts, 5) {
            Ok(v) => v,
            Err(k) => {
                return Err(SysBlock::stat_err(k, "block parse_stat writes_merged"));
            },
        };
        let v6 = match parse_req_u64(&ts, 6) {
            Ok(v) => v,
            Err(k) => {
                return Err(SysBlock::stat_err(k, "block parse_stat writes_sectors"));
            },
        };
        let v7 = match parse_req_u64(&ts, 7) {
            Ok(v) => v,
            Err(k) => {
                return Err(SysBlock::stat_err(k, "block parse_stat writes_time_spent_ms"));
            },
        };
        let v8 = match parse_req_u64(&ts, 8) {
            Ok(v) => v,
            Err(k) => {
                return Err(SysBlock::stat_err(k, "block parse_stat ios_in_progress"));
            },
        };
        let v9 = match parse_req_u64(&ts, 9) {
            Ok(v) => v,
            Err(k) => {
                return Err(SysBlock::stat_err(k, "block parse_stat ios_time_spent_ms"));
            },
        };
        let v10 = match parse_req_u64(&ts, 10) {
            Ok(v) => v,
            Err(k) => {
                return Err(SysBlock::stat_err(k, "block parse_stat ios_weighted_time_spent_ms"));
            },
        };

        blockdevice_data.stat_reads_completed_success = v0;
        blockdevice_data.stat_reads_merged = v1;
        blockdevice_data.stat_reads_sectors = v2;
        blockdevice_data.stat_reads_time_spent_ms = v3;
        blockdevice_data.stat_writes_completed_success = v4;
        blockdevice_data.stat_writes_merged = v5;
        blockdevice_data.stat_writes_sectors = v6;
        blockdevice_data.stat_writes_time_spent_ms = v7;
        blockdevice_data.stat_ios_in_progress = v8;
        blockdevice_data.stat_ios_time_spent_ms = v9;
        blockdevice_data.stat_ios_weighted_time_spent_ms = v10;
        blockdevice_data.stat_discards_completed_success = parse_opt_u64(&ts, 11);
        blockdevice_data.stat_discards_merged = parse_opt_u64(&ts, 12);
        blockdevice_data.stat_discards_sectors = parse_opt_u64(&ts, 13);
        blockdevice_data.stat_discards_time_spent_ms = parse_opt_u64(&ts, 14);
        blockdevice_data.stat_flush_requests_completed_success = parse_opt_u64(&ts, 15);
        blockdevice_data.stat_flush_requests_time_spent_ms = parse_opt_u64(&ts, 16);
        Ok(())
    }

    /// The error a `stat` file's bad field reports: a missing field as
    /// [`ProcSysParserError::FindItemError`], a non-numeric one as
    /// [`ProcSysParserError::ParseToIntegerError`].
    fn stat_err(kind: DecodeErr, item: &str) -> (e: ProcSysParserError)
        ensures
            kind == DecodeErr::MissingField ==> e is FindItemError,
            kind == DecodeErr::NotANumber ==> e is ParseToIntegerError,
            e is FindItemError || e is ParseToIntegerError,
    {
        match kind {
            DecodeErr::NotANumber => ProcSysParserError::ParseToIntegerError {
                item: item.to_owned(),
            },
            _ => ProcSysParserError::FindItemError { item: item.to_owned() },
        }
    }

    /// The value of a one-number file: its text without trailing newlines
    /// as a decimal integer.
    pub fn parse_contents_file_u64(contents: &str) -> (r: Result<u64, ProcSysParserError>)
        ensures
            dec_u64_of(trim_nl_of(contents@)) matches Some(v) ==> r == Ok::<
                u64,
                ProcSysParserError,
            >(v),
            dec_u64_of(trim_nl_of(contents@)) is None ==> (r matches Err(e) && e
                is ParseToIntegerError),
    {
        let cs = chars_vec(contents);
        let t = trim_nl_chars(cs.as_slice());
        match parse_u64_dec(t.as_slice()) {
            Some(v) => Ok(v),
            None => Err(crate::error_for(DecodeErr::NotANumber, "block parse_contents_file_u64")),
        }
    }

    /// The value of a one-number file that may be negative, as
    /// [`SysBlock::parse_contents_file_u64`] reads the unsigned ones.
    pub fn parse_contents_file_i64(contents: &str) -> (r: Result<i64, ProcSysParserError>)
        ensures
            dec_i64_of(trim_nl_of(contents@)) matches Some(v) ==> r == Ok::<
                i64,
                ProcSysParserError,
            >(v),
            dec_i64_of(trim_nl_of(contents@)) is None ==> (r matches Err(e) && e
                is ParseToIntegerError),
    {
        let cs = chars_vec(contents);
        let t = trim_nl_chars(cs.as_slice());
        match parse_i64_dec(t.as_slice()) {
            Some(v) => Ok(v),
            None => Err(crate::error_for(DecodeErr::NotANumber, "block parse_contents_file_i64")),
        }
    }

    /// The value of a one-number file that not every kernel provides:
    /// absent when the file is absent, and an error when a present file
    /// does not parse.
    pub fn parse_contents_file_option_u64(contents: Option<&str>) -> (r: Result<
        Option<u64>,
        ProcSysParserError,
    >)
        ensures
            contents is None ==> r == Ok::<Option<u64>, ProcSysParserError>(None),
            contents matches Some(c) ==> {
                &&& (dec_u64_of(trim_nl_of(c@)) matches Some(v) ==> r == Ok::<
                    Option<u64>,
                    ProcSysParserError,
                >(Some(v)))
                &&& (dec_u64_of(trim_nl_of(c@)) is None ==> (r matches Err(e) && e
                    is ParseToIntegerError))
            },
    {
        match contents {
            None => Ok(None),
            Some(c) => match SysBlock::parse_contents_file_u64(c) {
                Ok(v) => Ok(Some(v)),
                Err(e) => Err(e),
            },
        }
    }

    /// The text of a one-line file that not every kernel provides, without
    /// trailing newlines; absent when the file is absent.
    pub fn parse_contents_file_option_string(contents: Option<&str>) -> (r: Result<
        Option<String>,
        ProcSysParserError,
    >)
        ensures
            r is Ok,
            contents matches Some(c) ==> (r->Ok_0 matches Some(s) && s@ == trim_nl_of(c@)),
            contents is None ==> r->Ok_0 is None,
    {
        match contents {
            None => Ok(None),
            Some(c) => {
                let cs = chars_vec(c);
                let t = trim_nl_chars(cs.as_slice());
                Ok(Some(chars_to_string(t.as_slice())))
            },
        }
    }

    /// The text of a one-line file, without trailing newlines.
    pub fn parse_contents_file_string(contents: &str) -> (r: Result<String, ProcSysParserError>)
        ensures
            r matches Ok(s) && s@ == trim_nl_of(contents@),
    {
        let cs = chars_vec(contents);
        let t = trim_nl_chars(cs.as_slice());
        Ok(chars_to_string(t.as_slice()))
    }
}

/// Where the device tree is read from, and the filter for device
/// directories that are left out. The reading itself is left to the
/// caller.
#[derive(Default)]
pub struct Builder {
    pub sys_path: String,
    pub filter: String,
}

impl Builder {
    pub fn new() -> (b: Builder)
        ensures
            b.sys_path@ == "/sys"@,
            b.filter@ == "^dm-"@,
    {
        Builder { sys_path: "/sys".to_owned(), filter: "^dm-".to_owned() }
    }

    pub fn path(self, sys_path: &str) -> (b: Builder)
        ensures
            b.sys_path@ == sys_path@,
            b.filter@ == self.filter@,
    {
        Builder { sys_path: sys_path.to_owned(), filter: self.filter }
    }

    pub fn regex(self, filter: &str) -> (b: Builder)
        ensures
            b.sys_path@ == self.sys_path@,
            b.filter@ == filter@,
    {
        Builder { sys_path: self.sys_path, filter: filter.to_owned() }
    }

    /// The directory that holds the device directories.
    pub fn target(&self) -> (p: String)
        ensures
            p@ == self.sys_path@ + "/block"@,
    {
        let mut p = self.sys_path.clone();
        p.append("/block");
        p
    }
}

} // verus!
