//! Parsers for the Linux `/proc` and `/sys` virtual text files.
//!
//! Each module decodes one kernel-exposed text format into a typed record:
//! line classification by leading token, per-line scalar and vector decoding,
//! and, for the scheduler statistics, correlation of interleaved multi-line
//! records. Unknown lines are skipped so that newer kernels do not break the
//! decoding of known lines. All decoding works on in-memory text; reading the
//! files themselves is left to the caller.

use vstd::prelude::*;

pub mod net_dev;
pub mod pressure;
pub mod scan;
pub mod block;
pub mod diskstats;
pub mod fs_xfs_stat;
pub mod loadavg;
pub mod meminfo;
pub mod schedstat;
pub mod stat;
pub mod vmstat;

verus! {

use crate::scan::DecodeErr;

/// Failure modes of the decoders. Decoding never panics: every failure is
/// returned as a value of this type.
#[derive(Debug, PartialEq, Eq, Clone)]
pub enum ProcSysParserError {
    /// A line holds fewer fields than its format requires.
    IteratorItemError { item: String },
    /// An expected character cannot be found.
    FindItemError { item: String },
    /// A field that should be a floating-point number does not parse.
    ParseToFloatError { item: String },
    /// A field that should be an integer does not parse in its base.
    ParseToIntegerError { item: String },
    /// The file to be read cannot be found or is unreadable.
    FileReadError { file: String, error: String },
    /// The directory to be read cannot be found or is unreadable.
    DirectoryReadError { directory: String, error: String },
    /// The filter regex cannot be compiled.
    RegexCompileError { regex: String },
    /// A domain line stands before any cpu line, so no cpu owns it.
    MalformedDocument { item: String },
}

/// The error value `e` reports the decode failure `k`: a missing field as
/// [`ProcSysParserError::IteratorItemError`], an unparsable number as
/// [`ProcSysParserError::ParseToIntegerError`], and a domain line without an
/// owning cpu as [`ProcSysParserError::MalformedDocument`].
pub open spec fn reflects(e: ProcSysParserError, k: DecodeErr) -> bool {
    match k {
        DecodeErr::MissingField => e is IteratorItemError,
        DecodeErr::NotANumber => e is ParseToIntegerError,
        DecodeErr::MalformedDocument => e is MalformedDocument,
        DecodeErr::BadPattern => e is RegexCompileError,
    }
}

/// The error value reporting the decode failure `kind`, carrying `item` as
/// its diagnostic text.
pub fn error_for(kind: DecodeErr, item: &str) -> (e: ProcSysParserError)
    ensures
        reflects(e, kind),
{
    match kind {
        DecodeErr::MissingField => ProcSysParserError::IteratorItemError { item: item.to_owned() },
        DecodeErr::NotANumber => ProcSysParserError::ParseToIntegerError { item: item.to_owned() },
        DecodeErr::MalformedDocument => ProcSysParserError::MalformedDocument {
            item: item.to_owned(),
        },
        DecodeErr::BadPattern => ProcSysParserError::RegexCompileError { regex: item.to_owned() },
    }
}

impl ProcSysParserError {
    /// A short description of the failure, for diagnostics.
    pub fn message(&self) -> String {
        match self {
            ProcSysParserError::IteratorItemError { item } => item.clone(),
            ProcSysParserError::FindItemError { item } => item.clone(),
            ProcSysParserError::ParseToFloatError { item } => item.clone(),
            ProcSysParserError::ParseToIntegerError { item } => item.clone(),
            ProcSysParserError::FileReadError { file, error: _ } => file.clone(),
            ProcSysParserError::DirectoryReadError { directory, error: _ } => directory.clone(),
            ProcSysParserError::RegexCompileError { regex } => regex.clone(),
            ProcSysParserError::MalformedDocument { item } => item.clone(),
        }
    }
}

} // verus!
