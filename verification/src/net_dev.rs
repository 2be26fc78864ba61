//! Decoder for the network interface statistics of `/proc/net/dev`.
//!
//! The two header lines are skipped, and interfaces whose name matches a
//! caller-supplied filter pattern are left out; every other line carries an
//! interface name followed by sixteen counters.

use crate::scan::{
    chars_to_string, chars_vec, lines_of, parse_req_u64, req_u64_of, split_lines, has_prefix,
    token_has_prefix, tokenize, tokens_of, trim_end_ch_of, trim_end_ch_chars, trim_start_chars,
    trim_start_of, DecodeErr,
};
use crate::{error_for, ProcSysParserError};
use vstd::prelude::*;
use vstd::string::StringExecFns;

verus! {

// ---------------------------------------------------------------------------
// the filter pattern
// ---------------------------------------------------------------------------

/// Whether `pattern` is a valid regular expression: what `regex::Regex::new`
/// accepts. The answer depends on the pattern alone.
pub uninterp spec fn regex_valid(pattern: Seq<char>) -> bool;

/// Whether the regular expression `pattern` matches somewhere in `text`:
/// what `regex::Regex::is_match` reports. The answer depends on the pattern
/// and the text alone.
pub uninterp spec fn regex_match(pattern: Seq<char>, text: Seq<char>) -> bool;

/// Relies on `regex::Regex::new`: whether a pattern compiles depends on the
/// pattern alone.
#[verifier::external_body]
fn regex_compiles(pattern: &str) -> (r: bool)
    ensures
        r == regex_valid(pattern@),
{
    regex::Regex::new(pattern).is_ok()
}

/// Relies on `regex::Regex::new` and `regex::Regex::is_match`: whether a
/// valid pattern matches a text depends on the pattern and the text alone.
#[verifier::external_body]
fn regex_text_match(pattern: &str, text: &str) -> (r: bool)
    requires
        regex_valid(pattern@),
    ensures
        r == regex_match(pattern@, text@),
{
    match regex::Regex::new(pattern) {
        Ok(re) => re.is_match(text),
        Err(_) => false,
    }
}

// ---------------------------------------------------------------------------
// interface lines
// ---------------------------------------------------------------------------

/// One decoded interface line: the interface name with its trailing colon
/// removed, and sixteen counters.
#[derive(Debug, PartialEq)]
pub struct InterfaceStats {
    pub name: String,
    pub receive_bytes: u64,
    pub receive_packets: u64,
    pub receive_errors: u64,
    pub receive_drop: u64,
    pub receive_fifo: u64,
    pub receive_frame: u64,
    pub receive_compressed: u64,
    pub receive_multicast: u64,
    pub transmit_bytes: u64,
    pub transmit_packets: u64,
    pub transmit_errors: u64,
    pub transmit_drop: u64,
    pub transmit_fifo: u64,
    pub transmit_collisions: u64,
    pub transmit_carrier: u64,
    pub transmit_compressed: u64,
}

/// The mathematical value of an [`InterfaceStats`].
#[verifier::ext_equal]
pub struct InterfaceStatsView {
    pub name: Seq<char>,
    pub receive_bytes: u64,
    pub receive_packets: u64,
    pub receive_errors: u64,
    pub receive_drop: u64,
    pub receive_fifo: u64,
    pub receive_frame: u64,
    pub receive_compressed: u64,
    pub receive_multicast: u64,
    pub transmit_bytes: u64,
    pub transmit_packets: u64,
    pub transmit_errors: u64,
    pub transmit_drop: u64,
    pub transmit_fifo: u64,
    pub transmit_collisions: u64,
    pub transmit_carrier: u64,
    pub transmit_compressed: u64,
}

impl View for InterfaceStats {
    type V = InterfaceStatsView;

    open spec fn view(&self) -> InterfaceStatsView {
        InterfaceStatsView {
            name: self.name@,
            receive_bytes: self.receive_bytes,
            receive_packets: self.receive_packets,
            receive_errors: self.receive_errors,
            receive_drop: self.receive_drop,
            receive_fifo: self.receive_fifo,
            receive_frame: self.receive_frame,
            receive_compressed: self.receive_compressed,
            receive_multicast: self.receive_multicast,
            transmit_bytes: self.transmit_bytes,
            transmit_packets: self.transmit_packets,
            transmit_errors: self.transmit_errors,
            transmit_drop: self.transmit_drop,
            transmit_fifo: self.transmit_fifo,
            transmit_collisions: self.transmit_collisions,
            transmit_carrier: self.transmit_carrier,
            transmit_compressed: self.transmit_compressed,
        }
    }
}

/// The decoded value of one interface line: the first field with trailing
/// colons removed as the name, then sixteen decimal counters in order.
pub open spec fn iface_line_of(l: Seq<char>) -> Result<InterfaceStatsView, DecodeErr> {
    let ts = tokens_of(l);
    if ts.len() == 0 {
        Err(DecodeErr::MissingField)
    } else if iface_counters_ok(ts) {
        Ok(
            InterfaceStatsView {
                name: trim_end_ch_of(ts[0], ':'),
                receive_bytes: req_u64_of(ts, 1)->Ok_0,
                receive_packets: req_u64_of(ts, 2)->Ok_0,
                receive_errors: req_u64_of(ts, 3)->Ok_0,
                receive_drop: req_u64_of(ts, 4)->Ok_0,
                receive_fifo: req_u64_of(ts, 5)->Ok_0,
                receive_frame: req_u64_of(ts, 6)->Ok_0,
                receive_compressed: req_u64_of(ts, 7)->Ok_0,
                receive_multicast: req_u64_of(ts, 8)->Ok_0,
                transmit_bytes: req_u64_of(ts, 9)->Ok_0,
                transmit_packets: req_u64_of(ts, 10)->Ok_0,
                transmit_errors: req_u64_of(ts, 11)->Ok_0,
                transmit_drop: req_u64_of(ts, 12)->Ok_0,
                transmit_fifo: req_u64_of(ts, 13)->Ok_0,
                transmit_collisions: req_u64_of(ts, 14)->Ok_0,
                transmit_carrier: req_u64_of(ts, 15)->Ok_0,
                transmit_compressed: req_u64_of(ts, 16)->Ok_0,
            },
        )
    } else {
        Err(iface_line_err(ts))
    }
}

/// Every counter field of an interface line is present and numeric.
pub open spec fn iface_counters_ok(ts: Seq<Seq<char>>) -> bool {
    forall|i: int| 1 <= i < 17 ==> #[trigger] req_u64_of(ts, i) is Ok
}

/// The failure of a malformed interface line: its first missing or
/// non-numeric counter, in field order.
pub open spec fn iface_line_err(ts: Seq<Seq<char>>) -> DecodeErr {
    iface_first_err(ts, 1)
}

pub open spec fn iface_first_err(ts: Seq<Seq<char>>, i: int) -> DecodeErr
    decreases 17 - i,
{
    if i >= 16 {
        req_u64_of(ts, 16)->Err_0
    } else if req_u64_of(ts, i) is Err {
        req_u64_of(ts, i)->Err_0
    } else {
        iface_first_err(ts, i + 1)
    }
}

/// Decode one interface line's token list, as [`iface_line_of`] says.
fn iface_from_tokens(ts: &Vec<Vec<char>>, Ghost(l): Ghost<Seq<char>>) -> (r: Result<
    InterfaceStats,
    DecodeErr,
>)
    requires
        ts.deep_view() == tokens_of(l),
    ensures
        iface_line_of(l) matches Ok(v) ==> (r matches Ok(d) && d@ == v),
        iface_line_of(l) is Err ==> r is Err,
        r matches Err(k) ==> (k == DecodeErr::MissingField || k == DecodeErr::NotANumber),
{
    if ts.len() == 0 {
        return Err(DecodeErr::MissingField);
    }
    proof {
        assert(ts.deep_view()[0] =~= ts@[0]@);
    }
    let trimmed = trim_end_ch_chars(ts[0].as_slice(), ':');
    let name = chars_to_string(trimmed.as_slice());
    let c1 = match parse_req_u64(ts, 1) {
        Ok(v) => v,
        Err(k) => {
            return Err(k);
        },
    };
    let c2 = match parse_req_u64(ts, 2) {
        Ok(v) => v,
        Err(k) => {
            return Err(k);
        },
    };
    let c3 = match parse_req_u64(ts, 3) {
        Ok(v) => v,
        Err(k) => {
            return Err(k);
        },
    };
    let c4 = match parse_req_u64(ts, 4) {
        Ok(v) => v,
        Err(k) => {
            return Err(k);
        },
    };
    let c5 = match parse_req_u64(ts, 5) {
        Ok(v) => v,
        Err(k) => {
            return Err(k);
        },
    };
    let c6 = match parse_req_u64(ts, 6) {
        Ok(v) => v,
        Err(k) => {
            return Err(k);
        },
    };
    let c7 = match parse_req_u64(ts, 7) {
        Ok(v) => v,
        Err(k) => {
            return Err(k);
        },
    };
    let c8 = match parse_req_u64(ts, 8) {
        Ok(v) => v,
        Err(k) => {
            return Err(k);
        },
    };
    let c9 = match parse_req_u64(ts, 9) {
        Ok(v) => v,
        Err(k) => {
            return Err(k);
        },
    };
    let c10 = match parse_req_u64(ts, 10) {
        Ok(v) => v,
        Err(k) => {
            return Err(k);
        },
    };
    let c11 = match parse_req_u64(ts, 11) {
        Ok(v) => v,
        Err(k) => {
            return Err(k);
        },
    };
    let c12 = match parse_req_u64(ts, 12) {
        Ok(v) => v,
        Err(k) => {
            return Err(k);
        },
    };
    let c13 = match parse_req_u64(ts, 13) {
        Ok(v) => v,
        Err(k) => {
            return Err(k);
        },
    };
    let c14 = match parse_req_u64(ts, 14) {
        Ok(v) => v,
        Err(k) => {
            return Err(k);
        },
    };
    let c15 = match parse_req_u64(ts, 15) {
        Ok(v) => v,
        Err(k) => {
            return Err(k);
        },
    };
    let c16 = match parse_req_u64(ts, 16) {
        Ok(v) => v,
        Err(k) => {
            return Err(k);
        },
    };
    let d = InterfaceStats {
        name,
        receive_bytes: c1,
        receive_packets: c2,
        receive_errors: c3,
        receive_drop: c4,
        receive_fifo: c5,
        receive_frame: c6,
        receive_compressed: c7,
        receive_multicast: c8,
        transmit_bytes: c9,
        transmit_packets: c10,
        transmit_errors: c11,
        transmit_drop: c12,
        transmit_fifo: c13,
        transmit_collisions: c14,
        transmit_carrier: c15,
        transmit_compressed: c16,
    };
    proof {
        assert(d@ =~~= iface_line_of(l)->Ok_0);
    }
    Ok(d)
}

// ---------------------------------------------------------------------------
// the whole document
// ---------------------------------------------------------------------------

/// The decoded `/proc/net/dev` document.
#[derive(Debug, PartialEq)]
pub struct ProcNetDev {
    pub interface: Vec<InterfaceStats>,
}

pub open spec fn iface_views(s: Seq<InterfaceStats>) -> Seq<InterfaceStatsView> {
    Seq::new(s.len(), |i: int| s[i]@)
}

impl View for ProcNetDev {
    type V = Seq<InterfaceStatsView>;

    open spec fn view(&self) -> Seq<InterfaceStatsView> {
        iface_views(self.interface@)
    }
}

/// A line the decoder passes over: one of the two column headers, or a
/// line whose text, with leading whitespace removed, matches the non-empty
/// filter pattern.
pub open spec fn net_dev_skipped(l: Seq<char>, filter: Seq<char>) -> bool {
    ||| has_prefix(l, "Inter-|   Receive"@)
    ||| has_prefix(l, " face |bytes"@)
    ||| (filter.len() > 0 && regex_match(filter, trim_start_of(l)))
}

/// The decoded records of the lines that are not skipped, in order; one
/// malformed line fails the whole document.
pub open spec fn ifaces_of(ls: Seq<Seq<char>>, filter: Seq<char>) -> Result<
    Seq<InterfaceStatsView>,
    DecodeErr,
>
    decreases ls.len(),
{
    if ls.len() == 0 {
        Ok(Seq::<InterfaceStatsView>::empty())
    } else {
        match ifaces_of(ls.drop_last(), filter) {
            Ok(pre) => if net_dev_skipped(ls.last(), filter) {
                Ok(pre)
            } else {
                match iface_line_of(ls.last()) {
                    Ok(d) => Ok(pre.push(d)),
                    Err(e) => Err(e),
                }
            },
            Err(e) => Err(e),
        }
    }
}

/// The decoded value of a whole `/proc/net/dev` document under the filter
/// pattern: an invalid pattern fails, a valid one keeps every interface
/// whose line it does not match.
pub open spec fn net_dev_of(s: Seq<char>, filter: Seq<char>) -> Result<
    Seq<InterfaceStatsView>,
    DecodeErr,
> {
    if !regex_valid(filter) {
        Err(DecodeErr::BadPattern)
    } else {
        ifaces_of(lines_of(s), filter)
    }
}

impl ProcNetDev {
    /// An empty document record.
    pub fn new() -> (r: ProcNetDev)
        ensures
            r.interface@.len() == 0,
    {
        ProcNetDev { interface: Vec::new() }
    }

    /// Decode one interface line, as [`iface_line_of`] says: the exact
    /// record on a well-formed line, and an error of the same kind on a
    /// line with missing or non-numeric counters.
    pub fn parse_proc_net_dev_line(proc_net_dev_line: &str) -> (r: Result<
        InterfaceStats,
        ProcSysParserError,
    >)
        ensures
            iface_line_of(proc_net_dev_line@) matches Ok(v) ==> (r matches Ok(d) && d@ == v),
            iface_line_of(proc_net_dev_line@) is Err ==> (r matches Err(e) && (e
                is IteratorItemError || e is ParseToIntegerError)),
    {
        let cs = chars_vec(proc_net_dev_line);
        let ts = tokenize(cs.as_slice());
        match iface_from_tokens(&ts, Ghost(proc_net_dev_line@)) {
            Ok(d) => Ok(d),
            Err(k) => Err(error_for(k, "net_dev parse_proc_net_dev_line")),
        }
    }

    /// Decode a whole `/proc/net/dev` document, as [`net_dev_of`] says:
    /// headers and filtered interfaces are skipped, every other line must
    /// decode, and an invalid filter pattern is reported as such.
    #[verifier::rlimit(60)]
    pub fn parse_proc_net_dev(proc_net_dev: &str, filter: &str) -> (r: Result<
        ProcNetDev,
        ProcSysParserError,
    >)
        ensures
            net_dev_of(proc_net_dev@, filter@) matches Ok(v) ==> (r matches Ok(d) && d@ == v),
            net_dev_of(proc_net_dev@, filter@) is Err ==> r is Err,
            !regex_valid(filter@) ==> (r matches Err(e) && e is RegexCompileError),
    {
        let ghost doc = proc_net_dev@;
        let ghost ls = lines_of(doc);
        if !regex_compiles(filter) {
            return Err(
                ProcSysParserError::RegexCompileError { regex: filter.to_owned() },
            );
        }
        let filter_is_empty = filter.unicode_len() == 0;
        let cs = chars_vec(proc_net_dev);
        let lines = split_lines(cs.as_slice());
        let mut out = ProcNetDev::new();
        proof {
            assert(ls.subrange(0, 0) =~= Seq::<Seq<char>>::empty());
            assert(iface_views(out.interface@) =~~= Seq::<InterfaceStatsView>::empty());
        }
        let mut i: usize = 0;
        while i < lines.len()
            invariant
                i <= lines@.len(),
                doc == proc_net_dev@,
                ls == lines_of(doc),
                lines.deep_view() == ls,
                regex_valid(filter@),
                filter_is_empty == (filter@.len() == 0),
                ifaces_of(ls.subrange(0, i as int), filter@) == Ok::<
                    Seq<InterfaceStatsView>,
                    DecodeErr,
                >(iface_views(out.interface@)),
            decreases lines@.len() - i,
        {
            proof {
                assert(ls.subrange(0, i + 1 as int).drop_last() =~= ls.subrange(0, i as int));
                assert(ls.subrange(0, i + 1 as int).last() == ls[i as int]);
                assert(lines@[i as int].deep_view() =~= lines@[i as int]@);
                assert(lines.deep_view()[i as int] == ls[i as int]);
            }
            let line = lines[i].as_slice();
            if token_has_prefix(line, "Inter-|   Receive") || token_has_prefix(
                line,
                " face |bytes",
            ) {
                i += 1;
                continue;
            }
            if !filter_is_empty {
                let trimmed = trim_start_chars(line);
                let trimmed_str = chars_to_string(trimmed.as_slice());
                if regex_text_match(filter, trimmed_str.as_str()) {
                    i += 1;
                    continue;
                }
            }
            proof {
                assert(!net_dev_skipped(ls[i as int], filter@));
            }
            let ts = tokenize(line);
            match iface_from_tokens(&ts, Ghost(ls[i as int])) {
                Ok(d) => {
                    out.interface.push(d);
                    proof {
                        assert(iface_views(out.interface@) =~~= ifaces_of(
                            ls.subrange(0, i as int),
                            filter@,
                        )->Ok_0.push(d@));
                    }
                },
                Err(k) => {
                    proof {
                        lemma_ifaces_err_extends(ls, i + 1, filter@);
                    }
                    return Err(error_for(k, "net_dev parse_proc_net_dev_line"));
                },
            }
            i += 1;
        }
        proof {
            assert(ls.subrange(0, i as int) =~= ls);
        }
        Ok(out)
    }
}

/// Once a line fails to decode, the whole document fails.
proof fn lemma_ifaces_err_extends(ls: Seq<Seq<char>>, k: int, filter: Seq<char>)
    requires
        0 <= k <= ls.len(),
        ifaces_of(ls.subrange(0, k), filter) is Err,
    ensures
        ifaces_of(ls, filter) == ifaces_of(ls.subrange(0, k), filter),
    decreases ls.len() - k,
{
    if k < ls.len() {
        assert(ls.subrange(0, k + 1).drop_last() =~= ls.subrange(0, k));
        lemma_ifaces_err_extends(ls, k + 1, filter);
    } else {
        assert(ls.subrange(0, k) =~= ls);
    }
}

/// Where the document is read from, and the filter for interfaces that are
/// left out. The reading itself is left to the caller.
#[derive(Default)]
pub struct Builder {
    pub proc_path: String,
    pub proc_file: String,
    pub proc_filter: String,
}

impl Builder {
    pub fn new() -> (b: Builder)
        ensures
            b.proc_path@ == "/proc"@,
            b.proc_file@ == "net/dev"@,
            b.proc_filter@ == "^lo"@,
    {
        Builder {
            proc_path: "/proc".to_owned(),
            proc_file: "net/dev".to_owned(),
            proc_filter: "^lo".to_owned(),
        }
    }

    pub fn path(self, proc_path: &str) -> (b: Builder)
        ensures
            b.proc_path@ == proc_path@,
            b.proc_file@ == self.proc_file@,
            b.proc_filter@ == self.proc_filter@,
    {
        Builder { proc_path: proc_path.to_owned(), ..self }
    }

    pub fn file(self, proc_file: &str) -> (b: Builder)
        ensures
            b.proc_path@ == self.proc_path@,
            b.proc_file@ == proc_file@,
            b.proc_filter@ == self.proc_filter@,
    {
        Builder { proc_file: proc_file.to_owned(), ..self }
    }

    pub fn filter(self, proc_filter: &str) -> (b: Builder)
        ensures
            b.proc_path@ == self.proc_path@,
            b.proc_file@ == self.proc_file@,
            b.proc_filter@ == proc_filter@,
    {
        Builder { proc_filter: proc_filter.to_owned(), ..self }
    }

    /// The full path of the file this builder reads.
    pub fn target(&self) -> (p: String)
        ensures
            p@ == self.proc_path@ + "/"@ + self.proc_file@,
    {
        let mut p = self.proc_path.clone();
        p.append("/");
        p.append(self.proc_file.as_str());
        p
    }
}

} // verus!
