//! Decoder for the load averages of `/proc/loadavg`.
//!
//! The file holds five whitespace-separated fields: three load averages,
//! a `runnable/total` process pair, and the last process id. The three
//! load averages are decimal fractions; this decoder hands them out as
//! text, together with the three integer fields, so that a caller can
//! convert the averages in whatever number form it uses.

use crate::scan::{
    chars_to_string, chars_vec, split_on, dec_u64_of, tokenize, tokens_of, DecodeErr,
};
use crate::{error_for, reflects, ProcSysParserError};
use vstd::prelude::*;
use vstd::string::StringExecFns;

verus! {

/// The raw fields of a `/proc/loadavg` document: the three load averages
/// as text, and the three integer fields decoded.
#[derive(Debug, PartialEq)]
pub struct LoadavgFields {
    pub load_1: String,
    pub load_5: String,
    pub load_15: String,
    pub current_runnable: u64,
    pub total: u64,
    pub last_pid: u64,
}

/// The mathematical value of a [`LoadavgFields`].
#[verifier::ext_equal]
pub struct LoadavgFieldsView {
    pub load_1: Seq<char>,
    pub load_5: Seq<char>,
    pub load_15: Seq<char>,
    pub current_runnable: u64,
    pub total: u64,
    pub last_pid: u64,
}

impl View for LoadavgFields {
    type V = LoadavgFieldsView;

    open spec fn view(&self) -> LoadavgFieldsView {
        LoadavgFieldsView {
            load_1: self.load_1@,
            load_5: self.load_5@,
            load_15: self.load_15@,
            current_runnable: self.current_runnable,
            total: self.total,
            last_pid: self.last_pid,
        }
    }
}

/// The decoded fields of a `/proc/loadavg` document: five fields, of which
/// the fourth is a `runnable/total` pair split on `/`.
pub open spec fn loadavg_fields_of(s: Seq<char>) -> Result<LoadavgFieldsView, DecodeErr> {
    let ts = tokens_of(s);
    if ts.len() < 5 {
        Err(DecodeErr::MissingField)
    } else {
        let parts = split_on(ts[3], '/');
        match dec_u64_of(parts[0]) {
            None => Err(DecodeErr::NotANumber),
            Some(cur) => if parts.len() < 2 {
                Err(DecodeErr::MissingField)
            } else {
                match dec_u64_of(parts[1]) {
                    None => Err(DecodeErr::NotANumber),
                    Some(tot) => match dec_u64_of(ts[4]) {
                        None => Err(DecodeErr::NotANumber),
                        Some(pid) => Ok(
                            LoadavgFieldsView {
                                load_1: ts[0],
                                load_5: ts[1],
                                load_15: ts[2],
                                current_runnable: cur,
                                total: tot,
                                last_pid: pid,
                            },
                        ),
                    },
                }
            },
        }
    }
}

impl LoadavgFields {
    /// Decode the raw fields of a `/proc/loadavg` document, as
    /// [`loadavg_fields_of`] says: the exact fields when the document has
    /// its five fields with a well-formed process pair, and an error of
    /// the same kind otherwise.
    pub fn parse_proc_loadavg_fields(proc_loadavg: &str) -> (r: Result<
        LoadavgFields,
        ProcSysParserError,
    >)
        ensures
            loadavg_fields_of(proc_loadavg@) matches Ok(v) ==> (r matches Ok(d) && d@ == v),
            loadavg_fields_of(proc_loadavg@) matches Err(k) ==> (r matches Err(e) && reflects(
                e,
                k,
            )),
    {
        let cs = chars_vec(proc_loadavg);
        let ts = tokenize(cs.as_slice());
        if ts.len() < 5 {
            return Err(error_for(DecodeErr::MissingField, "loadavg current_runnable"));
        }
        proof {
            assert(ts.deep_view()[0] =~= ts@[0]@);
            assert(ts.deep_view()[1] =~= ts@[1]@);
            assert(ts.deep_view()[2] =~= ts@[2]@);
            assert(ts.deep_view()[3] =~= ts@[3]@);
            assert(ts.deep_view()[4] =~= ts@[4]@);
        }
        let parts = crate::scan::split_char(ts[3].as_slice(), '/');
        proof {
            crate::scan::lemma_split_on_len(ts.deep_view()[3], '/');
            assert(parts.deep_view()[0] =~= parts@[0]@);
        }
        let cur = match crate::scan::parse_u64_dec(parts[0].as_slice()) {
            Some(v) => v,
            None => {
                return Err(error_for(DecodeErr::NotANumber, "loadavg current_runnable"));
            },
        };
        if parts.len() < 2 {
            return Err(error_for(DecodeErr::MissingField, "loadavg total split"));
        }
        proof {
            assert(parts.deep_view()[1] =~= parts@[1]@);
        }
        let tot = match crate::scan::parse_u64_dec(parts[1].as_slice()) {
            Some(v) => v,
            None => {
                return Err(error_for(DecodeErr::NotANumber, "loadavg total"));
            },
        };
        let pid = match crate::scan::parse_u64_dec(ts[4].as_slice()) {
            Some(v) => v,
            None => {
                return Err(error_for(DecodeErr::NotANumber, "loadavg last_pid"));
            },
        };
        let d = LoadavgFields {
            load_1: chars_to_string(ts[0].as_slice()),
            load_5: chars_to_string(ts[1].as_slice()),
            load_15: chars_to_string(ts[2].as_slice()),
            current_runnable: cur,
            total: tot,
            last_pid: pid,
        };
        proof {
            assert(d@ =~~= loadavg_fields_of(proc_loadavg@)->Ok_0);
        }
        Ok(d)
    }
}

/// Where the document is read from: a directory path and a file name,
/// joined by [`Builder::target`]. The reading itself is left to the caller.
#[derive(Default)]
pub struct Builder {
    pub proc_path: String,
    pub proc_file: String,
}

impl Builder {
    pub fn new() -> (b: Builder)
        ensures
            b.proc_path@ == "/proc"@,
            b.proc_file@ == "loadavg"@,
    {
        Builder { proc_path: "/proc".to_owned(), proc_file: "loadavg".to_owned() }
    }

    pub fn path(self, proc_path: &str) -> (b: Builder)
        ensures
            b.proc_path@ == proc_path@,
            b.proc_file@ == self.proc_file@,
    {
        Builder { proc_path: proc_path.to_owned(), proc_file: self.proc_file }
    }

    pub fn file(self, proc_file: &str) -> (b: Builder)
        ensures
            b.proc_path@ == self.proc_path@,
            b.proc_file@ == proc_file@,
    {
        Builder { proc_path: self.proc_path, proc_file: proc_file.to_owned() }
    }

    /// The full path of the file this builder reads.
    pub fn target(&self) -> (p: String)
        ensures
            p@ == self.proc_path@ + "/"@ + self.proc_file@,
    {
        let mut p = self.proc_path.clone();
        p.append("/");
        p.append(self.proc_file.as_str());
        p
    }
}

} // verus!
