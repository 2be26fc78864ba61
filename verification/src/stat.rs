//! Decoder for the kernel activity counters of `/proc/stat`.
//!
//! Cpu lines carry times in jiffies; the decoder converts them into
//! milliseconds by multiplying with 1000 and dividing by the clock tick
//! rate, queried from the OS once per decode and defaulting to 100 when the
//! query fails. Trailing cpu fields that older kernels do not report are
//! decoded as explicitly absent, never as zero.

use crate::scan::{
    chars_to_string, chars_vec, has_prefix, lines_of, parse_dec_fields, parse_scalar_field,
    parse_u64_dec, scalar_field_of, split_lines, dec_seq_of, dec_u64_of, token_eq,
    token_has_prefix, tokenize, tokens_of, DecodeErr,
};
use crate::{error_for, reflects, ProcSysParserError};
use vstd::prelude::*;
use vstd::string::StringExecFns;

verus! {

// ---------------------------------------------------------------------------
// the clock tick rate
// ---------------------------------------------------------------------------

/// Relies on `nix::unistd::sysconf(SysconfVar::CLK_TCK)`: the kernel's
/// clock tick rate. The value depends on the machine, so nothing is
/// promised of it.
#[verifier::external_body]
fn query_clock_ticks() -> (r: Option<i64>) {
    match nix::unistd::sysconf(nix::unistd::SysconfVar::CLK_TCK) {
        Ok(v) => v,
        Err(_) => None,
    }
}

/// The clock tick rate used for jiffy conversion: what the OS reports, or
/// 100 when the query fails or reports nothing usable. Always at least 1,
/// so conversion never divides by zero.
pub fn clock_ticks_per_second() -> (r: u64)
    ensures
        1 <= r,
{
    match query_clock_ticks() {
        Some(v) => if v >= 1 {
            v as u64
        } else {
            100
        },
        None => 100,
    }
}

/// A jiffy count as milliseconds: multiplied by 1000 and divided by the
/// clock tick rate, saturating at the range of `u64`.
pub open spec fn jiffies_to_ms(n: u64, clk: u64) -> u64
    recommends
        1 <= clk,
{
    if (n * 1000) / (clk as int) > u64::MAX {
        u64::MAX
    } else {
        ((n * 1000) / (clk as int)) as u64
    }
}

/// Convert a jiffy count, as [`jiffies_to_ms`] says.
fn convert_jiffies(n: u64, clk: u64) -> (r: u64)
    requires
        1 <= clk,
    ensures
        r == jiffies_to_ms(n, clk),
{
    let wide: u128 = (n as u128) * 1000u128 / (clk as u128);
    if wide > u64::MAX as u128 {
        u64::MAX
    } else {
        wide as u64
    }
}

// ---------------------------------------------------------------------------
// cpu lines
// ---------------------------------------------------------------------------

/// One decoded cpu line: the name token, four required times, and six
/// times that older kernels do not report, all in milliseconds.
#[derive(Debug, PartialEq, Default)]
pub struct CpuStat {
    pub name: String,
    pub user: u64,
    pub nice: u64,
    pub system: u64,
    pub idle: u64,
    pub iowait: Option<u64>,
    pub irq: Option<u64>,
    pub softirq: Option<u64>,
    pub steal: Option<u64>,
    pub guest: Option<u64>,
    pub guest_nice: Option<u64>,
}

/// The mathematical value of a [`CpuStat`].
#[verifier::ext_equal]
pub struct CpuStatView {
    pub name: Seq<char>,
    pub user: u64,
    pub nice: u64,
    pub system: u64,
    pub idle: u64,
    pub iowait: Option<u64>,
    pub irq: Option<u64>,
    pub softirq: Option<u64>,
    pub steal: Option<u64>,
    pub guest: Option<u64>,
    pub guest_nice: Option<u64>,
}

impl View for CpuStat {
    type V = CpuStatView;

    open spec fn view(&self) -> CpuStatView {
        CpuStatView {
            name: self.name@,
            user: self.user,
            nice: self.nice,
            system: self.system,
            idle: self.idle,
            iowait: self.iowait,
            irq: self.irq,
            softirq: self.softirq,
            steal: self.steal,
            guest: self.guest,
            guest_nice: self.guest_nice,
        }
    }
}

/// The field `ts[i]` as a required converted time: missing or unparsable
/// fields fail the line.
pub open spec fn req_ms_of(ts: Seq<Seq<char>>, i: int, clk: u64) -> Result<u64, DecodeErr> {
    if i >= ts.len() {
        Err(DecodeErr::MissingField)
    } else {
        match dec_u64_of(ts[i]) {
            Some(n) => Ok(jiffies_to_ms(n, clk)),
            None => Err(DecodeErr::NotANumber),
        }
    }
}

/// The field `ts[i]` as an optional converted time: missing and unparsable
/// fields are both explicitly absent.
pub open spec fn opt_ms_of(ts: Seq<Seq<char>>, i: int, clk: u64) -> Option<u64> {
    if i >= ts.len() {
        None
    } else {
        match dec_u64_of(ts[i]) {
            Some(n) => Some(jiffies_to_ms(n, clk)),
            None => None,
        }
    }
}

/// The decoded value of one cpu line under the clock tick rate `clk`.
pub open spec fn cpu_stat_of(l: Seq<char>, clk: u64) -> Result<CpuStatView, DecodeErr> {
    let ts = tokens_of(l);
    if ts.len() == 0 {
        Err(DecodeErr::MissingField)
    } else {
        match req_ms_of(ts, 1, clk) {
            Err(e) => Err(e),
            Ok(user) => match req_ms_of(ts, 2, clk) {
                Err(e) => Err(e),
                Ok(nice) => match req_ms_of(ts, 3, clk) {
                    Err(e) => Err(e),
                    Ok(system) => match req_ms_of(ts, 4, clk) {
                        Err(e) => Err(e),
                        Ok(idle) => Ok(
                            CpuStatView {
                                name: ts[0],
                                user,
                                nice,
                                system,
                                idle,
                                iowait: opt_ms_of(ts, 5, clk),
                                irq: opt_ms_of(ts, 6, clk),
                                softirq: opt_ms_of(ts, 7, clk),
                                steal: opt_ms_of(ts, 8, clk),
                                guest: opt_ms_of(ts, 9, clk),
                                guest_nice: opt_ms_of(ts, 10, clk),
                            },
                        ),
                    },
                },
            },
        }
    }
}

/// Decode the field `ts[i]` as a required converted time.
fn parse_req_ms(ts: &Vec<Vec<char>>, i: usize, clk: u64) -> (r: Result<u64, DecodeErr>)
    requires
        1 <= clk,
    ensures
        r == req_ms_of(ts.deep_view(), i as int, clk),
{
    if i >= ts.len() {
        return Err(DecodeErr::MissingField);
    }
    proof {
        assert(ts.deep_view()[i as int] =~= ts@[i as int]@);
    }
    match parse_u64_dec(ts[i].as_slice()) {
        Some(n) => Ok(convert_jiffies(n, clk)),
        None => Err(DecodeErr::NotANumber),
    }
}

/// Decode the field `ts[i]` as an optional converted time.
fn parse_opt_ms(ts: &Vec<Vec<char>>, i: usize, clk: u64) -> (r: Option<u64>)
    requires
        1 <= clk,
    ensures
        r == opt_ms_of(ts.deep_view(), i as int, clk),
{
    if i >= ts.len() {
        return None;
    }
    proof {
        assert(ts.deep_view()[i as int] =~= ts@[i as int]@);
    }
    match parse_u64_dec(ts[i].as_slice()) {
        Some(n) => Some(convert_jiffies(n, clk)),
        None => None,
    }
}

/// Decode a cpu line's token list under the clock tick rate `clk`, as
/// [`cpu_stat_of`] says.
fn cpu_stat_from_tokens(ts: &Vec<Vec<char>>, clk: u64, Ghost(l): Ghost<Seq<char>>) -> (r: Result<
    CpuStat,
    DecodeErr,
>)
    requires
        1 <= clk,
        ts.deep_view() == tokens_of(l),
    ensures
        cpu_stat_of(l, clk) matches Ok(v) ==> (r matches Ok(d) && d@ == v),
        cpu_stat_of(l, clk) matches Err(k) ==> (r matches Err(k2) && k2 == k),
{
    if ts.len() == 0 {
        return Err(DecodeErr::MissingField);
    }
    proof {
        assert(ts.deep_view()[0] =~= ts@[0]@);
    }
    let name = chars_to_string(ts[0].as_slice());
    let user = match parse_req_ms(ts, 1, clk) {
        Ok(v) => v,
        Err(k) => {
            return Err(k);
        },
    };
    let nice = match parse_req_ms(ts, 2, clk) {
        Ok(v) => v,
        Err(k) => {
            return Err(k);
        },
    };
    let system = match parse_req_ms(ts, 3, clk) {
        Ok(v) => v,
        Err(k) => {
            return Err(k);
        },
    };
    let idle = match parse_req_ms(ts, 4, clk) {
        Ok(v) => v,
        Err(k) => {
            return Err(k);
        },
    };
    let d = CpuStat {
        name,
        user,
        nice,
        system,
        idle,
        iowait: parse_opt_ms(ts, 5, clk),
        irq: parse_opt_ms(ts, 6, clk),
        softirq: parse_opt_ms(ts, 7, clk),
        steal: parse_opt_ms(ts, 8, clk),
        guest: parse_opt_ms(ts, 9, clk),
        guest_nice: parse_opt_ms(ts, 10, clk),
    };
    proof {
        assert(d@ =~~= cpu_stat_of(l, clk)->Ok_0);
    }
    Ok(d)
}

/// The decoded value `m` and the returned value `r` agree: the same
/// success, the same record, and errors of the same kind.
pub open spec fn cpu_result_matches(
    r: Result<CpuStat, ProcSysParserError>,
    m: Result<CpuStatView, DecodeErr>,
) -> bool {
    &&& (r is Ok) == (m is Ok)
    &&& (r matches Ok(d) ==> m matches Ok(v) && d@ == v)
    &&& (r matches Err(e) ==> m matches Err(k) && reflects(e, k))
}

impl CpuStat {
    /// Decode one cpu line under an explicit clock tick rate, exactly as
    /// [`cpu_stat_of`] says. This makes the jiffy conversion a visible,
    /// caller-chosen parameter.
    pub fn cpu_times_with_ticks(proc_stat_cpu_line: &str, clock_time: u64) -> (r: Result<
        CpuStat,
        ProcSysParserError,
    >)
        requires
            1 <= clock_time,
        ensures
            cpu_result_matches(r, cpu_stat_of(proc_stat_cpu_line@, clock_time)),
    {
        let cs = chars_vec(proc_stat_cpu_line);
        let ts = tokenize(cs.as_slice());
        match cpu_stat_from_tokens(&ts, clock_time, Ghost(proc_stat_cpu_line@)) {
            Ok(d) => Ok(d),
            Err(k) => Err(error_for(k, "stat generate_cpu_times")),
        }
    }

    /// Decode one cpu line under the clock tick rate the OS reports now,
    /// as [`cpu_stat_of`] says for that rate.
    pub fn generate_cpu_times(proc_stat_cpu_line: &str) -> (r: Result<CpuStat, ProcSysParserError>)
        ensures
            exists|clk: u64|
                1 <= clk && #[trigger] cpu_result_matches(
                    r,
                    cpu_stat_of(proc_stat_cpu_line@, clk),
                ),
    {
        let clk = clock_ticks_per_second();
        let r = CpuStat::cpu_times_with_ticks(proc_stat_cpu_line, clk);
        proof {
            assert(cpu_result_matches(r, cpu_stat_of(proc_stat_cpu_line@, clk)));
        }
        r
    }
}

// ---------------------------------------------------------------------------
// the whole document
// ---------------------------------------------------------------------------

/// The decoded `/proc/stat` document.
#[derive(Debug, PartialEq, Default)]
pub struct ProcStat {
    pub cpu_total: CpuStat,
    pub cpu_individual: Vec<CpuStat>,
    pub interrupts: Vec<u64>,
    pub context_switches: u64,
    pub boot_time: u64,
    pub processes: u64,
    pub processes_running: u64,
    pub processes_blocked: u64,
    pub softirq: Vec<u64>,
}

/// The mathematical value of a [`ProcStat`].
#[verifier::ext_equal]
pub struct StatView {
    pub cpu_total: CpuStatView,
    pub cpu_individual: Seq<CpuStatView>,
    pub interrupts: Seq<u64>,
    pub context_switches: u64,
    pub boot_time: u64,
    pub processes: u64,
    pub processes_running: u64,
    pub processes_blocked: u64,
    pub softirq: Seq<u64>,
}

pub open spec fn cpu_stat_views(s: Seq<CpuStat>) -> Seq<CpuStatView> {
    Seq::new(s.len(), |i: int| s[i]@)
}

impl View for ProcStat {
    type V = StatView;

    open spec fn view(&self) -> StatView {
        StatView {
            cpu_total: self.cpu_total@,
            cpu_individual: cpu_stat_views(self.cpu_individual@),
            interrupts: self.interrupts@,
            context_switches: self.context_switches,
            boot_time: self.boot_time,
            processes: self.processes,
            processes_running: self.processes_running,
            processes_blocked: self.processes_blocked,
            softirq: self.softirq@,
        }
    }
}

/// The kind of one `/proc/stat` line, by its leading token: `cpu` alone is
/// the total, `cpu` with an index one cpu, and the named counter lines
/// literally. Anything else is unrecognized and skipped.
#[derive(PartialEq, Eq, Structural, Clone, Copy, Debug)]
pub enum StatLineKind {
    CpuTotal,
    CpuSingle,
    Interrupts,
    ContextSwitches,
    BootTime,
    Processes,
    ProcessesRunning,
    ProcessesBlocked,
    SoftIrq,
    Unrecognized,
}

pub open spec fn classify_stat_tokens(ts: Seq<Seq<char>>) -> StatLineKind {
    if ts.len() == 0 {
        StatLineKind::Unrecognized
    } else if ts[0] == "cpu"@ {
        StatLineKind::CpuTotal
    } else if has_prefix(ts[0], "cpu"@) {
        StatLineKind::CpuSingle
    } else if ts[0] == "intr"@ {
        StatLineKind::Interrupts
    } else if ts[0] == "ctxt"@ {
        StatLineKind::ContextSwitches
    } else if ts[0] == "btime"@ {
        StatLineKind::BootTime
    } else if ts[0] == "processes"@ {
        StatLineKind::Processes
    } else if ts[0] == "procs_running"@ {
        StatLineKind::ProcessesRunning
    } else if ts[0] == "procs_blocked"@ {
        StatLineKind::ProcessesBlocked
    } else if ts[0] == "softirq"@ {
        StatLineKind::SoftIrq
    } else {
        StatLineKind::Unrecognized
    }
}

/// Executable classification, as [`classify_stat_tokens`] says.
pub fn classify_stat_line(ts: &Vec<Vec<char>>) -> (k: StatLineKind)
    ensures
        k == classify_stat_tokens(ts.deep_view()),
{
    if ts.len() == 0 {
        return StatLineKind::Unrecognized;
    }
    proof {
        assert(ts.deep_view()[0] =~= ts@[0]@);
    }
    let t0 = ts[0].as_slice();
    if token_eq(t0, "cpu") {
        StatLineKind::CpuTotal
    } else if token_has_prefix(t0, "cpu") {
        StatLineKind::CpuSingle
    } else if token_eq(t0, "intr") {
        StatLineKind::Interrupts
    } else if token_eq(t0, "ctxt") {
        StatLineKind::ContextSwitches
    } else if token_eq(t0, "btime") {
        StatLineKind::BootTime
    } else if token_eq(t0, "processes") {
        StatLineKind::Processes
    } else if token_eq(t0, "procs_running") {
        StatLineKind::ProcessesRunning
    } else if token_eq(t0, "procs_blocked") {
        StatLineKind::ProcessesBlocked
    } else if token_eq(t0, "softirq") {
        StatLineKind::SoftIrq
    } else {
        StatLineKind::Unrecognized
    }
}

/// The counter vector of a line: every field after the keyword, as a
/// decimal integer.
pub open spec fn number_vector_of(l: Seq<char>) -> Result<Seq<u64>, DecodeErr> {
    let ts = tokens_of(l);
    if ts.len() == 0 {
        Ok(Seq::<u64>::empty())
    } else {
        dec_seq_of(ts.skip(1))
    }
}

/// One step of the fold: decode one line into the document under the clock
/// tick rate `clk`.
pub open spec fn stat_step(st: StatView, l: Seq<char>, clk: u64) -> Result<StatView, DecodeErr> {
    let ts = tokens_of(l);
    match classify_stat_tokens(ts) {
        StatLineKind::CpuTotal => match cpu_stat_of(l, clk) {
            Ok(v) => Ok(StatView { cpu_total: v, ..st }),
            Err(e) => Err(e),
        },
        StatLineKind::CpuSingle => match cpu_stat_of(l, clk) {
            Ok(v) => Ok(StatView { cpu_individual: st.cpu_individual.push(v), ..st }),
            Err(e) => Err(e),
        },
        StatLineKind::Interrupts => match number_vector_of(l) {
            Ok(v) => Ok(StatView { interrupts: v, ..st }),
            Err(e) => Err(e),
        },
        StatLineKind::ContextSwitches => match scalar_field_of(ts) {
            Ok(v) => Ok(StatView { context_switches: v, ..st }),
            Err(e) => Err(e),
        },
        StatLineKind::BootTime => match scalar_field_of(ts) {
            Ok(v) => Ok(StatView { boot_time: v, ..st }),
            Err(e) => Err(e),
        },
        StatLineKind::Processes => match scalar_field_of(ts) {
            Ok(v) => Ok(StatView { processes: v, ..st }),
            Err(e) => Err(e),
        },
        StatLineKind::ProcessesRunning => match scalar_field_of(ts) {
            Ok(v) => Ok(StatView { processes_running: v, ..st }),
            Err(e) => Err(e),
        },
        StatLineKind::ProcessesBlocked => match scalar_field_of(ts) {
            Ok(v) => Ok(StatView { processes_blocked: v, ..st }),
            Err(e) => Err(e),
        },
        StatLineKind::SoftIrq => match number_vector_of(l) {
            Ok(v) => Ok(StatView { softirq: v, ..st }),
            Err(e) => Err(e),
        },
        StatLineKind::Unrecognized => Ok(st),
    }
}

pub open spec fn empty_cpu_stat() -> CpuStatView {
    CpuStatView {
        name: Seq::<char>::empty(),
        user: 0,
        nice: 0,
        system: 0,
        idle: 0,
        iowait: None,
        irq: None,
        softirq: None,
        steal: None,
        guest: None,
        guest_nice: None,
    }
}

pub open spec fn init_stat() -> StatView {
    StatView {
        cpu_total: empty_cpu_stat(),
        cpu_individual: Seq::<CpuStatView>::empty(),
        interrupts: Seq::<u64>::empty(),
        context_switches: 0,
        boot_time: 0,
        processes: 0,
        processes_running: 0,
        processes_blocked: 0,
        softirq: Seq::<u64>::empty(),
    }
}

/// One unfolding of [`stat_fold`].
pub proof fn lemma_stat_fold_step(st: StatView, ls: Seq<Seq<char>>, clk: u64)
    requires
        ls.len() > 0,
    ensures
        stat_fold(st, ls, clk) == match stat_step(st, ls[0], clk) {
            Ok(m2) => stat_fold(m2, ls.skip(1), clk),
            Err(e) => Err(e),
        },
{
}

/// Fold the lines through the document, aborting at the first failing line.
pub open spec fn stat_fold(st: StatView, ls: Seq<Seq<char>>, clk: u64) -> Result<
    StatView,
    DecodeErr,
>
    decreases ls.len(),
{
    if ls.len() == 0 {
        Ok(st)
    } else {
        match stat_step(st, ls[0], clk) {
            Ok(st2) => stat_fold(st2, ls.skip(1), clk),
            Err(e) => Err(e),
        }
    }
}

/// The decoded value of a whole `/proc/stat` document under the clock tick
/// rate `clk`.
pub open spec fn stat_of(s: Seq<char>, clk: u64) -> Result<StatView, DecodeErr> {
    stat_fold(init_stat(), lines_of(s), clk)
}

/// The decoded value `m` and the returned value `r` agree: the same
/// success, the same document, and errors of the same kind.
pub open spec fn stat_result_matches(
    r: Result<ProcStat, ProcSysParserError>,
    m: Result<StatView, DecodeErr>,
) -> bool {
    &&& (r is Ok) == (m is Ok)
    &&& (r matches Ok(d) ==> m matches Ok(v) && d@ == v)
    &&& (r matches Err(e) ==> m matches Err(k) && reflects(e, k))
}

impl ProcStat {
    /// An empty document record.
    pub fn new() -> (r: ProcStat)
        ensures
            r@ == init_stat(),
    {
        let r = ProcStat {
            cpu_total: CpuStat {
                name: String::new(),
                user: 0,
                nice: 0,
                system: 0,
                idle: 0,
                iowait: None,
                irq: None,
                softirq: None,
                steal: None,
                guest: None,
                guest_nice: None,
            },
            cpu_individual: Vec::new(),
            interrupts: Vec::new(),
            context_switches: 0,
            boot_time: 0,
            processes: 0,
            processes_running: 0,
            processes_blocked: 0,
            softirq: Vec::new(),
        };
        proof {
            assert(r@ =~~= init_stat());
        }
        r
    }

    /// Decode the counter vector of an `intr` or `softirq` line: every
    /// field after the keyword, as [`number_vector_of`] says.
    pub fn generate_number_vector(proc_stat_line: &str) -> (r: Result<Vec<u64>, ProcSysParserError>)
        ensures
            number_vector_of(proc_stat_line@) matches Ok(v) ==> (r matches Ok(rv) && rv@ == v),
            number_vector_of(proc_stat_line@) matches Err(k) ==> (r matches Err(e) && reflects(
                e,
                k,
            )),
    {
        let cs = chars_vec(proc_stat_line);
        let ts = tokenize(cs.as_slice());
        if ts.len() == 0 {
            let empty: Vec<u64> = Vec::new();
            proof {
                assert(empty@ =~= Seq::<u64>::empty());
            }
            return Ok(empty);
        }
        proof {
            assert(ts.deep_view().subrange(1, ts@.len() as int) =~= ts.deep_view().skip(1));
        }
        match parse_dec_fields(&ts, 1) {
            Ok(v) => Ok(v),
            Err(k) => Err(error_for(k, "stat generate_number_vector")),
        }
    }

    /// Decode the second field of a counter line as a decimal integer, as
    /// [`scalar_field_of`] says of the line's tokens.
    pub fn generate_number_unsigned(proc_stat_line: &str) -> (r: Result<u64, ProcSysParserError>)
        ensures
            scalar_field_of(tokens_of(proc_stat_line@)) matches Ok(v) ==> r == Ok::<
                u64,
                ProcSysParserError,
            >(v),
            scalar_field_of(tokens_of(proc_stat_line@)) matches Err(k) ==> (r matches Err(e)
                && reflects(e, k)),
    {
        let cs = chars_vec(proc_stat_line);
        let ts = tokenize(cs.as_slice());
        match parse_scalar_field(&ts) {
            Ok(v) => Ok(v),
            Err(k) => Err(error_for(k, "stat generate_number_unsigned")),
        }
    }

    /// Decode a whole `/proc/stat` document under the clock tick rate the
    /// OS reports now: the value is exactly the line fold of
    /// [`stat_of`] for that rate.
    #[verifier::rlimit(100)]
    pub fn parse_proc_stat_output(proc_stat: &str) -> (r: Result<ProcStat, ProcSysParserError>)
        ensures
            exists|clk: u64|
                1 <= clk && #[trigger] stat_result_matches(r, stat_of(proc_stat@, clk)),
    {
        let clk = clock_ticks_per_second();
        let ghost doc = proc_stat@;
        let ghost ls = lines_of(doc);
        let cs = chars_vec(proc_stat);
        let lines = split_lines(cs.as_slice());
        let mut st = ProcStat::new();
        proof {
            assert(ls.skip(0) =~= ls);
        }
        let mut i: usize = 0;
        while i < lines.len()
            invariant
                i <= lines@.len(),
                1 <= clk,
                doc == proc_stat@,
                ls == lines_of(doc),
                lines.deep_view() == ls,
                stat_fold(init_stat(), ls, clk) == stat_fold(st@, ls.skip(i as int), clk),
            decreases lines@.len() - i,
        {
            let ghost m = st@;
            proof {
                assert(ls.skip(i as int).len() > 0);
                assert(ls.skip(i as int)[0] == ls[i as int]);
                assert(ls.skip(i as int).skip(1) =~= ls.skip(i + 1 as int));
                assert(lines@[i as int].deep_view() =~= lines@[i as int]@);
                assert(lines.deep_view()[i as int] == ls[i as int]);
                lemma_stat_fold_step(st@, ls.skip(i as int), clk);
            }
            let ts = tokenize(lines[i].as_slice());
            let ghost stepped = stat_step(m, ls[i as int], clk);
            let kind = classify_stat_line(&ts);
            match kind {
                StatLineKind::CpuTotal => {
                    match cpu_stat_from_tokens(&ts, clk, Ghost(ls[i as int])) {
                        Ok(d) => {
                            st.cpu_total = d;
                            proof {
                                assert(st@ =~~= stepped->Ok_0);
                            }
                        },
                        Err(k) => {
                            let e = error_for(k, "stat generate_cpu_times");
                            proof {
                                assert(stat_result_matches(Err(e), stat_of(doc, clk)));
                            }
                            return Err(e);
                        },
                    }
                },
                StatLineKind::CpuSingle => {
                    match cpu_stat_from_tokens(&ts, clk, Ghost(ls[i as int])) {
                        Ok(d) => {
                            st.cpu_individual.push(d);
                            proof {
                                assert(st@ =~~= stepped->Ok_0);
                            }
                        },
                        Err(k) => {
                            let e = error_for(k, "stat generate_cpu_times");
                            proof {
                                assert(stat_result_matches(Err(e), stat_of(doc, clk)));
                            }
                            return Err(e);
                        },
                    }
                },
                StatLineKind::Interrupts => {
                    proof {
                        assert(ts.deep_view().subrange(1, ts@.len() as int) =~= ts.deep_view().skip(
                            1,
                        ));
                    }
                    match parse_dec_fields(&ts, 1) {
                        Ok(v) => {
                            st.interrupts = v;
                            proof {
                                assert(st@ =~~= stepped->Ok_0);
                            }
                        },
                        Err(k) => {
                            let e = error_for(k, "stat generate_number_vector");
                            proof {
                                assert(stat_result_matches(Err(e), stat_of(doc, clk)));
                            }
                            return Err(e);
                        },
                    }
                },
                StatLineKind::ContextSwitches => {
                    match parse_scalar_field(&ts) {
                        Ok(v) => {
                            st.context_switches = v;
                            proof {
                                assert(st@ =~~= stepped->Ok_0);
                            }
                        },
                        Err(k) => {
                            let e = error_for(k, "stat generate_number_unsigned");
                            proof {
                                assert(stat_result_matches(Err(e), stat_of(doc, clk)));
                            }
                            return Err(e);
                        },
                    }
                },
                StatLineKind::BootTime => {
                    match parse_scalar_field(&ts) {
                        Ok(v) => {
                            st.boot_time = v;
                            proof {
                                assert(st@ =~~= stepped->Ok_0);
                            }
                        },
                        Err(k) => {
                            let e = error_for(k, "stat generate_number_unsigned");
                            proof {
                                assert(stat_result_matches(Err(e), stat_of(doc, clk)));
                            }
                            return Err(e);
                        },
                    }
                },
                StatLineKind::Processes => {
                    match parse_scalar_field(&ts) {
                        Ok(v) => {
                            st.processes = v;
                            proof {
                                assert(st@ =~~= stepped->Ok_0);
                            }
                        },
                        Err(k) => {
                            let e = error_for(k, "stat generate_number_unsigned");
                            proof {
                                assert(stat_result_matches(Err(e), stat_of(doc, clk)));
                            }
                            return Err(e);
                        },
                    }
                },
                StatLineKind::ProcessesRunning => {
                    match parse_scalar_field(&ts) {
                        Ok(v) => {
                            st.processes_running = v;
                            proof {
                                assert(st@ =~~= stepped->Ok_0);
                            }
                        },
                        Err(k) => {
                            let e = error_for(k, "stat generate_number_unsigned");
                            proof {
                                assert(stat_result_matches(Err(e), stat_of(doc, clk)));
                            }
                            return Err(e);
                        },
                    }
                },
                StatLineKind::ProcessesBlocked => {
                    match parse_scalar_field(&ts) {
                        Ok(v) => {
                            st.processes_blocked = v;
                            proof {
                                assert(st@ =~~= stepped->Ok_0);
                            }
                        },
                        Err(k) => {
                            let e = error_for(k, "stat generate_number_unsigned");
                            proof {
                                assert(stat_result_matches(Err(e), stat_of(doc, clk)));
                            }
                            return Err(e);
                        },
                    }
                },
                StatLineKind::SoftIrq => {
                    proof {
                        assert(ts.deep_view().subrange(1, ts@.len() as int) =~= ts.deep_view().skip(
                            1,
                        ));
                    }
                    match parse_dec_fields(&ts, 1) {
                        Ok(v) => {
                            st.softirq = v;
                            proof {
                                assert(st@ =~~= stepped->Ok_0);
                            }
                        },
                        Err(k) => {
                            let e = error_for(k, "stat generate_number_vector");
                            proof {
                                assert(stat_result_matches(Err(e), stat_of(doc, clk)));
                            }
                            return Err(e);
                        },
                    }
                },
                StatLineKind::Unrecognized => {
                    proof {
                        assert(st@ =~~= stepped->Ok_0);
                    }
                },
            }
            i += 1;
        }
        proof {
            assert(ls.skip(i as int) =~= Seq::<Seq<char>>::empty());
            assert(stat_result_matches(Ok(st), stat_of(doc, clk)));
        }
        Ok(st)
    }
}

/// Where the document is read from: a directory path and a file name,
/// joined by [`Builder::target`]. The reading itself is left to the caller.
#[derive(Default)]
pub struct Builder {
    pub proc_path: String,
    pub proc_file: String,
}

impl Builder {
    pub fn new() -> (b: Builder)
        ensures
            b.proc_path@ == "/proc"@,
            b.proc_file@ == "stat"@,
    {
        Builder { proc_path: "/proc".to_owned(), proc_file: "stat".to_owned() }
    }

    pub fn path(self, proc_path: &str) -> (b: Builder)
        ensures
            b.proc_path@ == proc_path@,
            b.proc_file@ == self.proc_file@,
    {
        Builder { proc_path: proc_path.to_owned(), proc_file: self.proc_file }
    }

    pub fn file(self, proc_file: &str) -> (b: Builder)
        ensures
            b.proc_path@ == self.proc_path@,
            b.proc_file@ == proc_file@,
    {
        Builder { proc_path: self.proc_path, proc_file: proc_file.to_owned() }
    }

    /// The full path of the file this builder reads.
    pub fn target(&self) -> (p: String)
        ensures
            p@ == self.proc_path@ + "/"@ + self.proc_file@,
    {
        let mut p = self.proc_path.clone();
        p.append("/");
        p.append(self.proc_file.as_str());
        p
    }
}

} // verus!
