//! Decoder for the XFS filesystem statistics of `/proc/fs/xfs/stat`.
//!
//! Only the `rw` line (write and read calls) and the `xpc` line (write and
//! read bytes) are decoded; every other line is skipped. A counter whose
//! field does not parse is explicitly absent, and so is every counter of a
//! line the file does not hold. An `rw` or `xpc` line with fewer fields
//! than its counters need fails the whole decode with a typed error.

use crate::scan::{
    chars_vec, dec_u64_of, lines_of, split_lines, token_eq, tokenize, tokens_of, DecodeErr,
};
use crate::{error_for, reflects, ProcSysParserError};
use vstd::prelude::*;
use vstd::string::StringExecFns;

verus! {

/// The decoded `/proc/fs/xfs/stat` document. Every counter is absent until
/// its line is seen.
#[derive(Debug, PartialEq, Default)]
pub struct ProcFsXfsStat {
    pub xs_write_calls: Option<u64>,
    pub xs_read_calls: Option<u64>,
    pub xs_write_bytes: Option<u64>,
    pub xs_read_bytes: Option<u64>,
}

/// The document every decode starts from: all counters absent.
pub open spec fn init_fs_xfs_stat() -> ProcFsXfsStat {
    ProcFsXfsStat {
        xs_write_calls: None,
        xs_read_calls: None,
        xs_write_bytes: None,
        xs_read_bytes: None,
    }
}

/// One step of the fold: an `rw` line must carry at least three fields and
/// sets the call counters, an `xpc` line must carry at least four and sets
/// the byte counters; a field that does not parse leaves its counter
/// absent. Any other line is skipped.
pub open spec fn fs_xfs_step(st: ProcFsXfsStat, l: Seq<char>) -> Result<ProcFsXfsStat, DecodeErr> {
    let ts = tokens_of(l);
    if ts.len() == 0 {
        Ok(st)
    } else if ts[0] == "rw"@ {
        if ts.len() < 3 {
            Err(DecodeErr::MissingField)
        } else {
            Ok(
                ProcFsXfsStat {
                    xs_write_calls: dec_u64_of(ts[1]),
                    xs_read_calls: dec_u64_of(ts[2]),
                    ..st
                },
            )
        }
    } else if ts[0] == "xpc"@ {
        if ts.len() < 4 {
            Err(DecodeErr::MissingField)
        } else {
            Ok(
                ProcFsXfsStat {
                    xs_write_bytes: dec_u64_of(ts[2]),
                    xs_read_bytes: dec_u64_of(ts[3]),
                    ..st
                },
            )
        }
    } else {
        Ok(st)
    }
}

/// Fold the lines through the document, aborting at the first `rw` or
/// `xpc` line that is too short for its counters.
pub open spec fn fs_xfs_fold(st: ProcFsXfsStat, ls: Seq<Seq<char>>) -> Result<
    ProcFsXfsStat,
    DecodeErr,
>
    decreases ls.len(),
{
    if ls.len() == 0 {
        Ok(st)
    } else {
        match fs_xfs_step(st, ls[0]) {
            Ok(st2) => fs_xfs_fold(st2, ls.skip(1)),
            Err(e) => Err(e),
        }
    }
}

/// One unfolding of [`fs_xfs_fold`].
pub proof fn lemma_fs_xfs_fold_step(st: ProcFsXfsStat, ls: Seq<Seq<char>>)
    requires
        ls.len() > 0,
    ensures
        fs_xfs_fold(st, ls) == match fs_xfs_step(st, ls[0]) {
            Ok(m2) => fs_xfs_fold(m2, ls.skip(1)),
            Err(e) => Err(e),
        },
{
}

/// The decoded value of a whole `/proc/fs/xfs/stat` document.
pub open spec fn fs_xfs_stat_of(s: Seq<char>) -> Result<ProcFsXfsStat, DecodeErr> {
    fs_xfs_fold(init_fs_xfs_stat(), lines_of(s))
}

impl ProcFsXfsStat {
    /// An empty document record, as [`init_fs_xfs_stat`] says.
    pub fn new() -> (r: ProcFsXfsStat)
        ensures
            r == init_fs_xfs_stat(),
    {
        ProcFsXfsStat {
            xs_write_calls: None,
            xs_read_calls: None,
            xs_write_bytes: None,
            xs_read_bytes: None,
        }
    }

    /// Decode a whole `/proc/fs/xfs/stat` document, as [`fs_xfs_stat_of`]
    /// says: the value is exactly the line fold, and an `rw` or `xpc` line
    /// too short for its counters reports a typed failure.
    pub fn parse_proc_fs_xfs_stat(proc_fs_xfs_stat: &str) -> (r: Result<
        ProcFsXfsStat,
        ProcSysParserError,
    >)
        ensures
            (r is Ok) == (fs_xfs_stat_of(proc_fs_xfs_stat@) is Ok),
            r matches Ok(d) ==> fs_xfs_stat_of(proc_fs_xfs_stat@) == Ok::<ProcFsXfsStat, DecodeErr>(
                d,
            ),
            r matches Err(e) ==> (fs_xfs_stat_of(proc_fs_xfs_stat@) matches Err(k) && reflects(
                e,
                k,
            )),
    {
        let ghost doc = proc_fs_xfs_stat@;
        let ghost ls = lines_of(doc);
        let cs = chars_vec(proc_fs_xfs_stat);
        let lines = split_lines(cs.as_slice());
        let mut st = ProcFsXfsStat::new();
        proof {
            assert(ls.skip(0) =~= ls);
        }
        let mut i: usize = 0;
        while i < lines.len()
            invariant
                i <= lines@.len(),
                doc == proc_fs_xfs_stat@,
                ls == lines_of(doc),
                lines.deep_view() == ls,
                fs_xfs_fold(init_fs_xfs_stat(), ls) == fs_xfs_fold(st, ls.skip(i as int)),
            decreases lines@.len() - i,
        {
            let ghost m = st;
            proof {
                assert(ls.skip(i as int).len() > 0);
                assert(ls.skip(i as int)[0] == ls[i as int]);
                assert(ls.skip(i as int).skip(1) =~= ls.skip(i + 1 as int));
                assert(lines@[i as int].deep_view() =~= lines@[i as int]@);
                assert(lines.deep_view()[i as int] == ls[i as int]);
                lemma_fs_xfs_fold_step(st, ls.skip(i as int));
            }
            let ts = tokenize(lines[i].as_slice());
            let ghost stepped = fs_xfs_step(m, ls[i as int]);
            if ts.len() > 0 {
                proof {
                    assert(ts.deep_view()[0] =~= ts@[0]@);
                }
                let t0 = ts[0].as_slice();
                if token_eq(t0, "rw") {
                    if ts.len() < 3 {
                        return Err(
                            error_for(DecodeErr::MissingField, "fs_xfs_stat rw fields"),
                        );
                    }
                    proof {
                        assert(ts.deep_view()[1] =~= ts@[1]@);
                        assert(ts.deep_view()[2] =~= ts@[2]@);
                    }
                    st.xs_write_calls = crate::scan::parse_u64_dec(ts[1].as_slice());
                    st.xs_read_calls = crate::scan::parse_u64_dec(ts[2].as_slice());
                } else if token_eq(t0, "xpc") {
                    if ts.len() < 4 {
                        return Err(
                            error_for(DecodeErr::MissingField, "fs_xfs_stat xpc fields"),
                        );
                    }
                    proof {
                        assert(ts.deep_view()[2] =~= ts@[2]@);
                        assert(ts.deep_view()[3] =~= ts@[3]@);
                    }
                    st.xs_write_bytes = crate::scan::parse_u64_dec(ts[2].as_slice());
                    st.xs_read_bytes = crate::scan::parse_u64_dec(ts[3].as_slice());
                }
            }
            proof {
                assert(st == stepped->Ok_0);
            }
            i += 1;
        }
        proof {
            assert(ls.skip(i as int) =~= Seq::<Seq<char>>::empty());
        }
        Ok(st)
    }
}

/// Where the document is read from: a directory path and a file name,
/// joined by [`Builder::target`]. The reading itself is left to the caller.
#[derive(Default)]
pub struct Builder {
    pub proc_path: String,
    pub proc_file: String,
}

impl Builder {
    pub fn new() -> (b: Builder)
        ensures
            b.proc_path@ == "/proc"@,
            b.proc_file@ == "fs/xfs/stat"@,
    {
        Builder { proc_path: "/proc".to_owned(), proc_file: "fs/xfs/stat".to_owned() }
    }

    pub fn path(self, proc_path: &str) -> (b: Builder)
        ensures
            b.proc_path@ == proc_path@,
            b.proc_file@ == self.proc_file@,
    {
        Builder { proc_path: proc_path.to_owned(), proc_file: self.proc_file }
    }

    pub fn file(self, proc_file: &str) -> (b: Builder)
        ensures
            b.proc_path@ == self.proc_path@,
            b.proc_file@ == proc_file@,
    {
        Builder { proc_path: self.proc_path, proc_file: proc_file.to_owned() }
    }

    /// The full path of the file this builder reads.
    pub fn target(&self) -> (p: String)
        ensures
            p@ == self.proc_path@ + "/"@ + self.proc_file@,
    {
        let mut p = self.proc_path.clone();
        p.append("/");
        p.append(self.proc_file.as_str());
        p
    }
}

} // verus!
