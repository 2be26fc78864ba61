//! Decoder for the pressure-stall lines of the `/proc/pressure` files.
//!
//! Each file holds a `some` line and possibly a `full` line of the shape
//! `some avg10=0.00 avg60=0.00 avg300=0.00 total=0`. The three averages
//! are decimal fractions; this decoder hands them out as text, together
//! with the decoded total, so that a caller can convert the averages in
//! whatever number form it uses. Which file a line came from — cpu, io or
//! memory — is the caller's knowledge, not the line's.

use crate::scan::{
    chars_to_string, chars_vec, split_char, split_on, dec_u64_of, tokenize, tokens_of, DecodeErr,
};
use crate::{error_for, reflects, ProcSysParserError};
use vstd::prelude::*;
use vstd::string::StringExecFns;

verus! {

/// The raw fields of one pressure line: the leading keyword (`some` or
/// `full`), the three averages as text, and the decoded total.
#[derive(Debug, PartialEq)]
pub struct PressureLine {
    pub kind: String,
    pub avg10: String,
    pub avg60: String,
    pub avg300: String,
    pub total: u64,
}

/// The mathematical value of a [`PressureLine`].
#[verifier::ext_equal]
pub struct PressureLineView {
    pub kind: Seq<char>,
    pub avg10: Seq<char>,
    pub avg60: Seq<char>,
    pub avg300: Seq<char>,
    pub total: u64,
}

impl View for PressureLine {
    type V = PressureLineView;

    open spec fn view(&self) -> PressureLineView {
        PressureLineView {
            kind: self.kind@,
            avg10: self.avg10@,
            avg60: self.avg60@,
            avg300: self.avg300@,
            total: self.total,
        }
    }
}

/// The text after the first `=` of a field, as `split('=').nth(1)` finds
/// it: absent when the field holds no `=` at all.
pub open spec fn eq_value_of(t: Seq<char>) -> Option<Seq<char>> {
    let parts = split_on(t, '=');
    if parts.len() < 2 {
        None
    } else {
        Some(parts[1])
    }
}

/// The decoded value of one pressure line: five fields, of which the
/// middle three carry their value after an `=`, and the fifth a decimal
/// total after an `=`.
pub open spec fn pressure_line_of(l: Seq<char>) -> Result<PressureLineView, DecodeErr> {
    let ts = tokens_of(l);
    if ts.len() < 5 {
        Err(DecodeErr::MissingField)
    } else {
        match eq_value_of(ts[1]) {
            None => Err(DecodeErr::MissingField),
            Some(a10) => match eq_value_of(ts[2]) {
                None => Err(DecodeErr::MissingField),
                Some(a60) => match eq_value_of(ts[3]) {
                    None => Err(DecodeErr::MissingField),
                    Some(a300) => match eq_value_of(ts[4]) {
                        None => Err(DecodeErr::MissingField),
                        Some(tot_txt) => match dec_u64_of(tot_txt) {
                            None => Err(DecodeErr::NotANumber),
                            Some(tot) => Ok(
                                PressureLineView {
                                    kind: ts[0],
                                    avg10: a10,
                                    avg60: a60,
                                    avg300: a300,
                                    total: tot,
                                },
                            ),
                        },
                    },
                },
            },
        }
    }
}

/// Decode the `=`-value of the token `ts[i]`, as [`eq_value_of`] says.
fn parse_eq_value(ts: &Vec<Vec<char>>, i: usize) -> (r: Option<Vec<char>>)
    requires
        i < ts@.len(),
    ensures
        r matches Some(v) ==> eq_value_of(ts.deep_view()[i as int]) == Some(v@),
        r is None ==> eq_value_of(ts.deep_view()[i as int]) is None,
{
    proof {
        assert(ts.deep_view()[i as int] =~= ts@[i as int]@);
    }
    let parts = split_char(ts[i].as_slice(), '=');
    if parts.len() < 2 {
        return None;
    }
    proof {
        assert(parts.deep_view()[1] =~= parts@[1]@);
    }
    let mut parts = parts;
    let second = parts.swap_remove(1);
    Some(second)
}

impl PressureLine {
    /// Decode one pressure line, as [`pressure_line_of`] says: the exact
    /// fields when the line holds its five fields with an `=` in each
    /// value field and a numeric total, and a typed failure of the same
    /// kind on any other line.
    pub fn parse_pressure_line(pressure_line: &str) -> (r: Result<
        PressureLine,
        ProcSysParserError,
    >)
        ensures
            pressure_line_of(pressure_line@) matches Ok(v) ==> (r matches Ok(d) && d@ == v),
            pressure_line_of(pressure_line@) matches Err(k) ==> (r matches Err(e) && reflects(
                e,
                k,
            )),
    {
        let cs = chars_vec(pressure_line);
        let ts = tokenize(cs.as_slice());
        if ts.len() < 5 {
            return Err(error_for(DecodeErr::MissingField, "pressure fields"));
        }
        proof {
            assert(ts.deep_view()[0] =~= ts@[0]@);
        }
        let a10 = match parse_eq_value(&ts, 1) {
            Some(v) => v,
            None => {
                return Err(error_for(DecodeErr::MissingField, "pressure avg10"));
            },
        };
        let a60 = match parse_eq_value(&ts, 2) {
            Some(v) => v,
            None => {
                return Err(error_for(DecodeErr::MissingField, "pressure avg60"));
            },
        };
        let a300 = match parse_eq_value(&ts, 3) {
            Some(v) => v,
            None => {
                return Err(error_for(DecodeErr::MissingField, "pressure avg300"));
            },
        };
        let tot_txt = match parse_eq_value(&ts, 4) {
            Some(v) => v,
            None => {
                return Err(error_for(DecodeErr::MissingField, "pressure total"));
            },
        };
        let tot = match crate::scan::parse_u64_dec(tot_txt.as_slice()) {
            Some(v) => v,
            None => {
                return Err(error_for(DecodeErr::NotANumber, "pressure total"));
            },
        };
        let d = PressureLine {
            kind: chars_to_string(ts[0].as_slice()),
            avg10: chars_to_string(a10.as_slice()),
            avg60: chars_to_string(a60.as_slice()),
            avg300: chars_to_string(a300.as_slice()),
            total: tot,
        };
        proof {
            assert(d@ =~~= pressure_line_of(pressure_line@)->Ok_0);
        }
        Ok(d)
    }
}

/// Where the pressure files are read from: the directory that holds the
/// `cpu`, `io` and `memory` files. The reading itself is left to the
/// caller.
#[derive(Default)]
pub struct Builder {
    pub proc_path: String,
}

impl Builder {
    pub fn new() -> (b: Builder)
        ensures
            b.proc_path@ == "/proc"@,
    {
        Builder { proc_path: "/proc".to_owned() }
    }

    pub fn path(self, proc_path: &str) -> (b: Builder)
        ensures
            b.proc_path@ == proc_path@,
    {
        Builder { proc_path: proc_path.to_owned() }
    }

    /// The directory that holds the pressure files.
    pub fn target(&self) -> (p: String)
        ensures
            p@ == self.proc_path@ + "/pressure"@,
    {
        let mut p = self.proc_path.clone();
        p.append("/pressure");
        p
    }
}

} // verus!
