//! Decoder for the scheduler statistics of `/proc/schedstat`.
//!
//! The document interleaves multi-line records: a `cpu` line opens a record
//! and every following `domain` line implicitly belongs to the most recently
//! seen cpu. The decoder folds the classified lines through a correlator
//! state that carries that cpu index; a `domain` line before any `cpu` line
//! makes the document malformed. Cpu mask fields are comma-separated
//! hexadecimal groups of arbitrary width, most-significant group first.
//!
//! The run and wait counters of a `cpu` line (the 8th and 9th number of the
//! decoded vector) are reported by current kernels in nanoseconds and are
//! passed through unconverted.

use crate::scan::{
    chars_vec, has_prefix, lines_of, parse_dec_fields, parse_hex_fields, parse_scalar_field,
    parse_u64_dec_suffix, scalar_field_of, split_char, split_lines, split_on, dec_seq_of,
    dec_u64_of, hex_u64_of,
    hex_seq_of, token_eq, token_has_prefix, tokenize, tokens_of, DecodeErr,
};
use crate::{error_for, reflects, ProcSysParserError};
use vstd::prelude::*;
use vstd::string::StringExecFns;

verus! {

/// Where the document is read from: a directory path and a file name,
/// joined by [`Builder::target`]. The reading itself is left to the caller.
#[derive(Default)]
pub struct Builder {
    pub proc_path: String,
    pub proc_file: String,
}

impl Builder {
    pub fn new() -> (b: Builder)
        ensures
            b.proc_path@ == "/proc"@,
            b.proc_file@ == "schedstat"@,
    {
        Builder { proc_path: "/proc".to_owned(), proc_file: "schedstat".to_owned() }
    }

    pub fn path(self, proc_path: &str) -> (b: Builder)
        ensures
            b.proc_path@ == proc_path@,
            b.proc_file@ == self.proc_file@,
    {
        Builder { proc_path: proc_path.to_owned(), proc_file: self.proc_file }
    }

    pub fn file(self, proc_file: &str) -> (b: Builder)
        ensures
            b.proc_path@ == self.proc_path@,
            b.proc_file@ == proc_file@,
    {
        Builder { proc_path: self.proc_path, proc_file: proc_file.to_owned() }
    }

    /// The full path of the file this builder reads.
    pub fn target(&self) -> (p: String)
        ensures
            p@ == self.proc_path@ + "/"@ + self.proc_file@,
    {
        let mut p = self.proc_path.clone();
        p.append("/");
        p.append(self.proc_file.as_str());
        p
    }
}

/// One scheduling-domain record. `cpu_nr` is the index of the owning cpu,
/// assigned by the correlator, not read from the domain line itself.
#[derive(Debug, PartialEq, Default)]
pub struct Domain {
    pub cpu_nr: u64,
    pub domain_nr: u64,
    pub cpu_masks: Vec<u64>,
    pub statistics: Vec<u64>,
}

/// The decoded `/proc/schedstat` document.
#[derive(Debug, PartialEq, Default)]
pub struct ProcSchedStat {
    pub version: u64,
    pub timestamp: u64,
    pub cpu: Vec<Vec<u64>>,
    pub domain: Vec<Domain>,
}

/// The mathematical value of a [`Domain`].
#[verifier::ext_equal]
pub struct DomainView {
    pub cpu_nr: u64,
    pub domain_nr: u64,
    pub cpu_masks: Seq<u64>,
    pub statistics: Seq<u64>,
}

impl View for Domain {
    type V = DomainView;

    open spec fn view(&self) -> DomainView {
        DomainView {
            cpu_nr: self.cpu_nr,
            domain_nr: self.domain_nr,
            cpu_masks: self.cpu_masks@,
            statistics: self.statistics@,
        }
    }
}

pub open spec fn domain_views(s: Seq<Domain>) -> Seq<DomainView> {
    Seq::new(s.len(), |i: int| s[i]@)
}

/// The mathematical value of a [`ProcSchedStat`].
#[verifier::ext_equal]
pub struct SchedView {
    pub version: u64,
    pub timestamp: u64,
    pub cpu: Seq<Seq<u64>>,
    pub domain: Seq<DomainView>,
}

impl View for ProcSchedStat {
    type V = SchedView;

    open spec fn view(&self) -> SchedView {
        SchedView {
            version: self.version,
            timestamp: self.timestamp,
            cpu: self.cpu.deep_view(),
            domain: domain_views(self.domain@),
        }
    }
}

// ---------------------------------------------------------------------------
// line classification
// ---------------------------------------------------------------------------

/// The kind of one `/proc/schedstat` line, by its leading token.
#[derive(PartialEq, Eq, Structural, Clone, Copy, Debug)]
pub enum LineKind {
    Version,
    Timestamp,
    Cpu,
    Domain,
    Unrecognized,
}

/// Classify a line by its leading token: `version` and `timestamp`
/// literally, `cpu` and `domain` as prefixes that carry an index. Anything
/// else is unrecognized and skipped.
pub open spec fn classify_tokens(ts: Seq<Seq<char>>) -> LineKind {
    if ts.len() == 0 {
        LineKind::Unrecognized
    } else if ts[0] == "version"@ {
        LineKind::Version
    } else if ts[0] == "timestamp"@ {
        LineKind::Timestamp
    } else if has_prefix(ts[0], "cpu"@) {
        LineKind::Cpu
    } else if has_prefix(ts[0], "domain"@) {
        LineKind::Domain
    } else {
        LineKind::Unrecognized
    }
}

/// Executable classification, as [`classify_tokens`] says.
pub fn classify_line(ts: &Vec<Vec<char>>) -> (k: LineKind)
    ensures
        k == classify_tokens(ts.deep_view()),
{
    if ts.len() == 0 {
        return LineKind::Unrecognized;
    }
    proof {
        assert(ts.deep_view()[0] =~= ts@[0]@);
    }
    let t0 = ts[0].as_slice();
    if token_eq(t0, "version") {
        LineKind::Version
    } else if token_eq(t0, "timestamp") {
        LineKind::Timestamp
    } else if token_has_prefix(t0, "cpu") {
        LineKind::Cpu
    } else if token_has_prefix(t0, "domain") {
        LineKind::Domain
    } else {
        LineKind::Unrecognized
    }
}

// ---------------------------------------------------------------------------
// line decoders
// ---------------------------------------------------------------------------

/// The decoded vector of a cpu line: the cpu index read from the first
/// token with its `cpu` prefix stripped, followed by every remaining field
/// as a decimal integer.
pub open spec fn cpu_vec_of(ts: Seq<Seq<char>>) -> Result<Seq<u64>, DecodeErr> {
    match dec_u64_of(ts[0].skip(3)) {
        Some(idx) => match dec_seq_of(ts.skip(1)) {
            Ok(rest) => Ok(seq![idx] + rest),
            Err(e) => Err(e),
        },
        None => Err(DecodeErr::NotANumber),
    }
}

/// What [`ProcSchedStat::generate_number_vector`] returns: a line whose
/// first token does not carry the `cpu` prefix decodes to the empty vector.
pub open spec fn cpu_line_vec_of(l: Seq<char>) -> Result<Seq<u64>, DecodeErr> {
    let ts = tokens_of(l);
    if ts.len() > 0 && has_prefix(ts[0], "cpu"@) {
        cpu_vec_of(ts)
    } else {
        Ok(Seq::<u64>::empty())
    }
}

/// The decoded record of a domain line owned by cpu `cpu`: the domain index
/// read from the first token with its `domain` prefix stripped, the comma
/// separated hexadecimal mask groups of the second token, and every
/// remaining field as a decimal statistic.
pub open spec fn domain_rec_of(ts: Seq<Seq<char>>, cpu: u64) -> Result<DomainView, DecodeErr> {
    if ts.len() == 0 {
        Err(DecodeErr::MissingField)
    } else {
        let nr_txt = if has_prefix(ts[0], "domain"@) {
            ts[0].skip(6)
        } else {
            Seq::<char>::empty()
        };
        match dec_u64_of(nr_txt) {
            None => Err(DecodeErr::NotANumber),
            Some(dn) => if ts.len() < 2 {
                Err(DecodeErr::MissingField)
            } else {
                match hex_seq_of(split_on(ts[1], ',')) {
                    Err(e) => Err(e),
                    Ok(masks) => match dec_seq_of(ts.skip(2)) {
                        Err(e) => Err(e),
                        Ok(stats) => Ok(
                            DomainView {
                                cpu_nr: cpu,
                                domain_nr: dn,
                                cpu_masks: masks,
                                statistics: stats,
                            },
                        ),
                    },
                }
            },
        }
    }
}

// ---------------------------------------------------------------------------
// the correlator fold
// ---------------------------------------------------------------------------

/// The state the fold threads through the document: the fields decoded so
/// far and the index of the most recently seen cpu, `None` until the first
/// cpu line.
#[verifier::ext_equal]
pub struct CorrState {
    pub version: u64,
    pub timestamp: u64,
    pub cpu: Seq<Seq<u64>>,
    pub domain: Seq<DomainView>,
    pub cur_cpu: Option<u64>,
}

pub open spec fn init_state() -> CorrState {
    CorrState {
        version: 0,
        timestamp: 0,
        cpu: Seq::<Seq<u64>>::empty(),
        domain: Seq::<DomainView>::empty(),
        cur_cpu: None,
    }
}

/// One step of the fold: decode one line into the state. A version or
/// timestamp line sets its field, a cpu line appends its vector and becomes
/// the current cpu, a domain line appends a record owned by the current cpu
/// and fails the document if there is none, and an unrecognized line leaves
/// the state as it is.
pub open spec fn sched_step(st: CorrState, l: Seq<char>) -> Result<CorrState, DecodeErr> {
    let ts = tokens_of(l);
    match classify_tokens(ts) {
        LineKind::Version => match scalar_field_of(ts) {
            Ok(v) => Ok(CorrState { version: v, ..st }),
            Err(e) => Err(e),
        },
        LineKind::Timestamp => match scalar_field_of(ts) {
            Ok(v) => Ok(CorrState { timestamp: v, ..st }),
            Err(e) => Err(e),
        },
        LineKind::Cpu => match cpu_vec_of(ts) {
            Ok(v) => Ok(CorrState { cpu: st.cpu.push(v), cur_cpu: Some(v[0]), ..st }),
            Err(e) => Err(e),
        },
        LineKind::Domain => match st.cur_cpu {
            None => Err(DecodeErr::MalformedDocument),
            Some(c) => match domain_rec_of(ts, c) {
                Ok(d) => Ok(CorrState { domain: st.domain.push(d), ..st }),
                Err(e) => Err(e),
            },
        },
        LineKind::Unrecognized => Ok(st),
    }
}

/// Fold the lines through the correlator, aborting at the first failing
/// line.
pub open spec fn sched_fold(st: CorrState, ls: Seq<Seq<char>>) -> Result<CorrState, DecodeErr>
    decreases ls.len(),
{
    if ls.len() == 0 {
        Ok(st)
    } else {
        match sched_step(st, ls[0]) {
            Ok(st2) => sched_fold(st2, ls.skip(1)),
            Err(e) => Err(e),
        }
    }
}

/// One unfolding of [`sched_fold`]: the first line steps the state, and the
/// rest of the lines fold from there.
pub proof fn lemma_fold_step(st: CorrState, ls: Seq<Seq<char>>)
    requires
        ls.len() > 0,
    ensures
        sched_fold(st, ls) == match sched_step(st, ls[0]) {
            Ok(m2) => sched_fold(m2, ls.skip(1)),
            Err(e) => Err(e),
        },
{
}

/// The decoded value of a whole `/proc/schedstat` document.
pub open spec fn schedstat_of(s: Seq<char>) -> Result<SchedView, DecodeErr> {
    match sched_fold(init_state(), lines_of(s)) {
        Ok(st) => Ok(
            SchedView {
                version: st.version,
                timestamp: st.timestamp,
                cpu: st.cpu,
                domain: st.domain,
            },
        ),
        Err(e) => Err(e),
    }
}

// ---------------------------------------------------------------------------
// what the fold guarantees
// ---------------------------------------------------------------------------

/// Folding a concatenation folds the first part, then the second from the
/// state the first part reached; an error in the first part is final.
pub proof fn lemma_fold_app(st: CorrState, a: Seq<Seq<char>>, b: Seq<Seq<char>>)
    ensures
        sched_fold(st, a + b) == match sched_fold(st, a) {
            Ok(m) => sched_fold(m, b),
            Err(e) => Err::<CorrState, DecodeErr>(e),
        },
    decreases a.len(),
{
    if a.len() == 0 {
        assert(a + b =~= b);
    } else {
        assert((a + b)[0] == a[0]);
        assert((a + b).len() > 0);
        assert((a + b).skip(1) =~= a.skip(1) + b);
        match sched_step(st, a[0]) {
            Ok(m2) => {
                lemma_fold_app(m2, a.skip(1), b);
            },
            Err(e) => {},
        }
    }
}

/// The number of domain lines of a line sequence.
pub open spec fn domain_line_count(ls: Seq<Seq<char>>) -> nat
    decreases ls.len(),
{
    if ls.len() == 0 {
        0
    } else {
        (if classify_tokens(tokens_of(ls[0])) == LineKind::Domain {
            1nat
        } else {
            0nat
        }) + domain_line_count(ls.skip(1))
    }
}

/// A successful fold appends one domain record per domain line and never
/// touches the records already present.
pub proof fn lemma_fold_records(st: CorrState, ls: Seq<Seq<char>>, st2: CorrState)
    requires
        sched_fold(st, ls) == Ok::<CorrState, DecodeErr>(st2),
    ensures
        st2.domain.len() == st.domain.len() + domain_line_count(ls),
        st2.domain.subrange(0, st.domain.len() as int) == st.domain,
    decreases ls.len(),
{
    if ls.len() == 0 {
        assert(st2 == st);
        assert(st2.domain.subrange(0, st.domain.len() as int) =~= st.domain);
    } else {
        match sched_step(st, ls[0]) {
            Ok(m2) => {
                lemma_fold_records(m2, ls.skip(1), st2);
                assert(m2.domain.len() >= st.domain.len());
                assert(m2.domain.subrange(0, st.domain.len() as int) =~= st.domain);
                assert(st2.domain.subrange(0, st.domain.len() as int) =~= st.domain);
            },
            Err(e) => {
                assert(false);
            },
        }
    }
}

/// A fold over lines none of which is a cpu line leaves the current cpu of
/// the correlator unchanged.
pub proof fn lemma_fold_no_cpu_keeps_cur(st: CorrState, ls: Seq<Seq<char>>, st2: CorrState)
    requires
        sched_fold(st, ls) == Ok::<CorrState, DecodeErr>(st2),
        forall|i: int|
            0 <= i < ls.len() ==> classify_tokens(tokens_of(#[trigger] ls[i])) != LineKind::Cpu,
    ensures
        st2.cur_cpu == st.cur_cpu,
    decreases ls.len(),
{
    if ls.len() > 0 {
        match sched_step(st, ls[0]) {
            Ok(m2) => {
                assert(classify_tokens(tokens_of(ls[0])) != LineKind::Cpu);
                assert(m2.cur_cpu == st.cur_cpu);
                assert(forall|i: int|
                    0 <= i < ls.skip(1).len() ==> classify_tokens(
                        tokens_of(#[trigger] ls.skip(1)[i]),
                    ) != LineKind::Cpu);
                lemma_fold_no_cpu_keeps_cur(m2, ls.skip(1), st2);
            },
            Err(e) => {
                assert(false);
            },
        }
    }
}

/// Every line of a sequence of domain lines counts as a domain line.
pub proof fn lemma_all_domain_count(ls: Seq<Seq<char>>)
    requires
        forall|i: int|
            0 <= i < ls.len() ==> classify_tokens(tokens_of(#[trigger] ls[i])) == LineKind::Domain,
    ensures
        domain_line_count(ls) == ls.len(),
    decreases ls.len(),
{
    if ls.len() > 0 {
        assert(forall|i: int|
            0 <= i < ls.skip(1).len() ==> classify_tokens(tokens_of(#[trigger] ls.skip(1)[i]))
                == LineKind::Domain);
        lemma_all_domain_count(ls.skip(1));
    }
}

/// The decoded cpu list of a successful fold is non-empty exactly when it
/// started non-empty or some folded line is a cpu line.
pub proof fn lemma_fold_cpu_nonempty(st: CorrState, ls: Seq<Seq<char>>, st2: CorrState)
    requires
        sched_fold(st, ls) == Ok::<CorrState, DecodeErr>(st2),
    ensures
        st2.cpu.len() > 0 <==> (st.cpu.len() > 0 || exists|i: int|
            0 <= i < ls.len() && classify_tokens(tokens_of(#[trigger] ls[i])) == LineKind::Cpu),
    decreases ls.len(),
{
    if ls.len() == 0 {
        assert(st2 == st);
    } else {
        match sched_step(st, ls[0]) {
            Ok(m2) => {
                lemma_fold_cpu_nonempty(m2, ls.skip(1), st2);
                if classify_tokens(tokens_of(ls[0])) == LineKind::Cpu {
                    assert(m2.cpu.len() > 0);
                    assert(st2.cpu.len() > 0);
                    assert(classify_tokens(tokens_of(ls[0])) == LineKind::Cpu);
                } else {
                    assert(m2.cpu == st.cpu);
                    if st2.cpu.len() > 0 {
                        if m2.cpu.len() == 0 {
                            let j = choose|j: int|
                                0 <= j < ls.skip(1).len() && classify_tokens(
                                    tokens_of(#[trigger] ls.skip(1)[j]),
                                ) == LineKind::Cpu;
                            assert(ls.skip(1)[j] == ls[j + 1]);
                            assert(classify_tokens(tokens_of(ls[j + 1])) == LineKind::Cpu);
                        }
                    }
                    if exists|i: int|
                        0 <= i < ls.len() && classify_tokens(tokens_of(#[trigger] ls[i]))
                            == LineKind::Cpu {
                        let i = choose|i: int|
                            0 <= i < ls.len() && classify_tokens(tokens_of(#[trigger] ls[i]))
                                == LineKind::Cpu;
                        assert(i != 0);
                        assert(ls.skip(1)[i - 1] == ls[i]);
                        assert(st2.cpu.len() > 0);
                    }
                }
            },
            Err(e) => {
                assert(false);
            },
        }
    }
}

// ---------------------------------------------------------------------------
// the decoder's laws
// ---------------------------------------------------------------------------

/// The decoded cpu list of a well-formed document is non-empty exactly when
/// the document holds at least one cpu line.
pub proof fn lemma_per_cpu_nonempty_iff(s: Seq<char>, v: SchedView)
    requires
        schedstat_of(s) == Ok::<SchedView, DecodeErr>(v),
    ensures
        v.cpu.len() > 0 <==> exists|i: int|
            0 <= i < lines_of(s).len() && classify_tokens(
                tokens_of(#[trigger] lines_of(s)[i]),
            ) == LineKind::Cpu,
{
    let r = sched_fold(init_state(), lines_of(s));
    match r {
        Ok(st2) => {
            lemma_fold_cpu_nonempty(init_state(), lines_of(s), st2);
        },
        Err(e) => {
            assert(false);
        },
    }
}

/// Every domain record carries the index of the cpu line most recently
/// before it: in a document whose lines are `pre`, then a cpu line, then
/// domain lines `mid`, then a domain line, then anything, the record
/// decoded from that domain line is owned by that cpu line's index.
pub proof fn lemma_domain_owned_by_preceding_cpu(
    s: Seq<char>,
    v: SchedView,
    pre: Seq<Seq<char>>,
    cl: Seq<char>,
    mid: Seq<Seq<char>>,
    dl: Seq<char>,
    post: Seq<Seq<char>>,
)
    requires
        schedstat_of(s) == Ok::<SchedView, DecodeErr>(v),
        lines_of(s) == pre + seq![cl] + mid + seq![dl] + post,
        classify_tokens(tokens_of(cl)) == LineKind::Cpu,
        classify_tokens(tokens_of(dl)) == LineKind::Domain,
        forall|i: int|
            0 <= i < mid.len() ==> classify_tokens(tokens_of(#[trigger] mid[i]))
                == LineKind::Domain,
    ensures
        cpu_vec_of(tokens_of(cl)) is Ok,
        domain_line_count(pre) + mid.len() < v.domain.len(),
        v.domain[domain_line_count(pre) + mid.len() as int].cpu_nr == cpu_vec_of(
            tokens_of(cl),
        )->Ok_0[0],
{
    let ls = lines_of(s);
    let init = init_state();
    let whole = sched_fold(init, ls);
    let stv = whole->Ok_0;
    assert(v.domain == stv.domain);

    // peel pre
    assert(ls =~= pre + (seq![cl] + mid + seq![dl] + post));
    lemma_fold_app(init, pre, seq![cl] + mid + seq![dl] + post);
    let st1 = sched_fold(init, pre)->Ok_0;
    assert(sched_fold(init, pre) == Ok::<CorrState, DecodeErr>(st1));
    lemma_fold_records(init, pre, st1);
    assert(st1.domain.len() == domain_line_count(pre));

    // peel the cpu line
    let rest1 = seq![cl] + mid + seq![dl] + post;
    assert(rest1[0] == cl);
    assert(rest1.skip(1) =~= mid + seq![dl] + post);
    let step1 = sched_step(st1, cl);
    assert(sched_fold(st1, rest1) == whole);
    match step1 {
        Ok(st2) => {
            assert(cpu_vec_of(tokens_of(cl)) is Ok);
            let idx = cpu_vec_of(tokens_of(cl))->Ok_0[0];
            assert(st2.cur_cpu == Some(idx));
            assert(st2.domain == st1.domain);

            // peel mid
            assert(mid + seq![dl] + post =~= mid + (seq![dl] + post));
            lemma_fold_app(st2, mid, seq![dl] + post);
            let st3 = sched_fold(st2, mid)->Ok_0;
            assert(sched_fold(st2, mid) == Ok::<CorrState, DecodeErr>(st3));
            assert(forall|i: int|
                0 <= i < mid.len() ==> classify_tokens(tokens_of(#[trigger] mid[i]))
                    != LineKind::Cpu);
            lemma_fold_no_cpu_keeps_cur(st2, mid, st3);
            assert(st3.cur_cpu == Some(idx));
            lemma_fold_records(st2, mid, st3);
            lemma_all_domain_count(mid);
            assert(st3.domain.len() == domain_line_count(pre) + mid.len());

            // peel the domain line
            let rest3 = seq![dl] + post;
            assert(rest3[0] == dl);
            assert(rest3.skip(1) =~= post);
            let step3 = sched_step(st3, dl);
            match step3 {
                Ok(st4) => {
                    let k = st3.domain.len() as int;
                    assert(st4.domain == st3.domain.push(
                        domain_rec_of(tokens_of(dl), idx)->Ok_0,
                    ));
                    assert(st4.domain[k].cpu_nr == idx);
                    // the rest of the document keeps the record
                    lemma_fold_records(st4, post, stv);
                    assert(stv.domain.subrange(0, st4.domain.len() as int) == st4.domain);
                    assert(stv.domain[k] == st4.domain[k]);
                },
                Err(e) => {
                    assert(false);
                },
            }
        },
        Err(e) => {
            assert(false);
        },
    }
}

/// A single ungrouped hexadecimal mask token decodes exactly as its
/// one-group comma form: splitting it on commas yields the token itself,
/// so the mask list is the single decoded group.
pub proof fn lemma_single_mask_group(t: Seq<char>)
    requires
        forall|i: int| 0 <= i < t.len() ==> #[trigger] t[i] != ',',
    ensures
        split_on(t, ',') == seq![t],
        hex_u64_of(t) matches Some(m) ==> hex_seq_of(split_on(t, ',')) == Ok::<
            Seq<u64>,
            DecodeErr,
        >(seq![m]),
        hex_u64_of(t) is None ==> hex_seq_of(split_on(t, ',')) == Err::<Seq<u64>, DecodeErr>(
            DecodeErr::NotANumber,
        ),
    decreases t.len(),
{
    if t.len() == 0 {
        assert(split_on(t, ',') =~~= seq![t]);
    } else {
        assert(forall|i: int| 0 <= i < t.drop_last().len() ==> #[trigger] t.drop_last()[i] != ',');
        lemma_single_mask_group(t.drop_last());
        assert(t.last() != ',');
        assert(split_on(t, ',') =~~= seq![t]);
    }
    let parts = split_on(t, ',');
    assert(parts.drop_last() =~~= Seq::<Seq<char>>::empty());
    assert(parts.last() == t);
    assert(hex_seq_of(Seq::<Seq<char>>::empty()) == Ok::<Seq<u64>, DecodeErr>(
        Seq::<u64>::empty(),
    ));
    match hex_u64_of(t) {
        Some(m) => {
            assert(Seq::<u64>::empty().push(m) =~= seq![m]);
        },
        None => {},
    }
}

/// A domain line that no cpu line precedes fails the whole decode as a
/// malformed document, provided the lines before it decode; no record with
/// a guessed owner is ever produced.
pub proof fn lemma_domain_before_cpu_fails(
    s: Seq<char>,
    pre: Seq<Seq<char>>,
    dl: Seq<char>,
    post: Seq<Seq<char>>,
)
    requires
        lines_of(s) == pre + seq![dl] + post,
        classify_tokens(tokens_of(dl)) == LineKind::Domain,
        forall|i: int|
            0 <= i < pre.len() ==> classify_tokens(tokens_of(#[trigger] pre[i])) != LineKind::Cpu,
        sched_fold(init_state(), pre) is Ok,
    ensures
        schedstat_of(s) == Err::<SchedView, DecodeErr>(DecodeErr::MalformedDocument),
{
    let ls = lines_of(s);
    let init = init_state();
    assert(ls =~= pre + (seq![dl] + post));
    lemma_fold_app(init, pre, seq![dl] + post);
    let st1 = sched_fold(init, pre)->Ok_0;
    assert(sched_fold(init, pre) == Ok::<CorrState, DecodeErr>(st1));
    lemma_fold_no_cpu_keeps_cur(init, pre, st1);
    assert(st1.cur_cpu is None);
    let rest = seq![dl] + post;
    assert(rest[0] == dl);
    assert(sched_step(st1, dl) == Err::<CorrState, DecodeErr>(DecodeErr::MalformedDocument));
}

/// An unrecognized line is skipped without aborting: folding a line
/// sequence with such a line inserted gives exactly the fold without it.
pub proof fn lemma_unrecognized_skipped(
    st: CorrState,
    a: Seq<Seq<char>>,
    g: Seq<char>,
    b: Seq<Seq<char>>,
)
    requires
        classify_tokens(tokens_of(g)) == LineKind::Unrecognized,
    ensures
        sched_fold(st, a + seq![g] + b) == sched_fold(st, a + b),
{
    assert(a + seq![g] + b =~= a + (seq![g] + b));
    lemma_fold_app(st, a, seq![g] + b);
    lemma_fold_app(st, a, b);
    match sched_fold(st, a) {
        Ok(m) => {
            let rest = seq![g] + b;
            assert(rest[0] == g);
            assert(sched_step(m, g) == Ok::<CorrState, DecodeErr>(m));
            assert(rest.skip(1) =~= b);
        },
        Err(e) => {},
    }
}

// ---------------------------------------------------------------------------
// executable decoding
// ---------------------------------------------------------------------------

/// Decode a cpu line's token list, as [`cpu_vec_of`] says.
fn cpu_vec_from_tokens(ts: &Vec<Vec<char>>) -> (r: Result<Vec<u64>, DecodeErr>)
    requires
        ts@.len() >= 1,
        has_prefix(ts.deep_view()[0], "cpu"@),
    ensures
        cpu_vec_of(ts.deep_view()) matches Ok(v) ==> (r matches Ok(rv) && rv@ == v),
        cpu_vec_of(ts.deep_view()) matches Err(k) ==> (r matches Err(k2) && k2 == k),
{
    proof {
        reveal_strlit("cpu");
        assert(ts.deep_view()[0] =~= ts@[0]@);
    }
    let t0 = ts[0].as_slice();
    match parse_u64_dec_suffix(t0, 3) {
        None => Err(DecodeErr::NotANumber),
        Some(idx) => {
            match parse_dec_fields(ts, 1) {
                Err(k) => {
                    proof {
                        assert(ts.deep_view().skip(1) =~= ts.deep_view().subrange(
                            1,
                            ts@.len() as int,
                        ));
                    }
                    Err(k)
                },
                Ok(mut rest) => {
                    proof {
                        assert(ts.deep_view().skip(1) =~= ts.deep_view().subrange(
                            1,
                            ts@.len() as int,
                        ));
                    }
                    let ghost rest0 = rest@;
                    let mut v: Vec<u64> = Vec::new();
                    v.push(idx);
                    v.append(&mut rest);
                    proof {
                        assert(v@ =~= seq![idx] + rest0);
                    }
                    Ok(v)
                },
            }
        },
    }
}

/// Decode a domain line's token list, as [`domain_rec_of`] says.
fn domain_from_tokens(ts: &Vec<Vec<char>>, cpu: u64) -> (r: Result<Domain, DecodeErr>)
    ensures
        domain_rec_of(ts.deep_view(), cpu) matches Ok(dv) ==> (r matches Ok(d) && d@ == dv),
        domain_rec_of(ts.deep_view(), cpu) matches Err(k) ==> (r matches Err(k2) && k2 == k),
{
    if ts.len() == 0 {
        return Err(DecodeErr::MissingField);
    }
    proof {
        reveal_strlit("domain");
        assert(ts.deep_view()[0] =~= ts@[0]@);
    }
    let t0 = ts[0].as_slice();
    let nr_opt = if token_has_prefix(t0, "domain") {
        parse_u64_dec_suffix(t0, 6)
    } else {
        None
    };
    match nr_opt {
        None => Err(DecodeErr::NotANumber),
        Some(dn) => {
            if ts.len() < 2 {
                return Err(DecodeErr::MissingField);
            }
            proof {
                assert(ts.deep_view()[1] =~= ts@[1]@);
            }
            let groups = split_char(ts[1].as_slice(), ',');
            proof {
                assert(groups.deep_view().subrange(0, groups@.len() as int) =~= groups.deep_view());
            }
            match parse_hex_fields(&groups, 0) {
                Err(k) => Err(k),
                Ok(masks) => {
                    proof {
                        assert(ts.deep_view().skip(2) =~= ts.deep_view().subrange(
                            2,
                            ts@.len() as int,
                        ));
                    }
                    match parse_dec_fields(ts, 2) {
                        Err(k) => Err(k),
                        Ok(stats) => Ok(
                            Domain {
                                cpu_nr: cpu,
                                domain_nr: dn,
                                cpu_masks: masks,
                                statistics: stats,
                            },
                        ),
                    }
                },
            }
        },
    }
}

impl ProcSchedStat {
    /// An empty document record: zero version and timestamp, no cpu or
    /// domain records.
    pub fn new() -> (r: ProcSchedStat)
        ensures
            r.version == 0,
            r.timestamp == 0,
            r.cpu@.len() == 0,
            r.domain@.len() == 0,
    {
        ProcSchedStat { version: 0, timestamp: 0, cpu: Vec::new(), domain: Vec::new() }
    }

    /// Decode the second field of a `version` or `timestamp` line as a
    /// decimal integer, as [`scalar_field_of`] says of the line's tokens.
    pub fn generate_number_unsigned(proc_stat_line: &str) -> (r: Result<u64, ProcSysParserError>)
        ensures
            scalar_field_of(tokens_of(proc_stat_line@)) matches Ok(v) ==> r == Ok::<
                u64,
                ProcSysParserError,
            >(v),
            scalar_field_of(tokens_of(proc_stat_line@)) matches Err(k) ==> (r matches Err(e)
                && reflects(e, k)),
    {
        let cs = chars_vec(proc_stat_line);
        let ts = tokenize(cs.as_slice());
        match parse_scalar_field(&ts) {
            Ok(v) => Ok(v),
            Err(k) => Err(error_for(k, "schedstat generate_number_unsigned")),
        }
    }

    /// Decode a cpu line into its number vector, as [`cpu_line_vec_of`]
    /// says: the cpu index first, then every statistic field. A line whose
    /// first token does not start with `cpu` yields the empty vector.
    pub fn generate_number_vector(proc_schedstat_line: &str) -> (r: Result<
        Vec<u64>,
        ProcSysParserError,
    >)
        ensures
            cpu_line_vec_of(proc_schedstat_line@) matches Ok(v) ==> (r matches Ok(rv) && rv@ == v),
            cpu_line_vec_of(proc_schedstat_line@) matches Err(k) ==> (r matches Err(e) && reflects(
                e,
                k,
            )),
    {
        let cs = chars_vec(proc_schedstat_line);
        let ts = tokenize(cs.as_slice());
        if ts.len() > 0 {
            proof {
                assert(ts.deep_view()[0] =~= ts@[0]@);
            }
            if token_has_prefix(ts[0].as_slice(), "cpu") {
                return match cpu_vec_from_tokens(&ts) {
                    Ok(v) => Ok(v),
                    Err(k) => Err(error_for(k, "schedstat generate_number_vector")),
                };
            }
        }
        let empty: Vec<u64> = Vec::new();
        proof {
            assert(empty@ =~= Seq::<u64>::empty());
        }
        Ok(empty)
    }

    /// Decode a domain line into a [`Domain`] owned by `current_cpu`, as
    /// [`domain_rec_of`] says of the line's tokens.
    pub fn generate_domain_struct(proc_schedstat_line: &str, current_cpu: &u64) -> (r: Result<
        Domain,
        ProcSysParserError,
    >)
        ensures
            domain_rec_of(tokens_of(proc_schedstat_line@), *current_cpu) matches Ok(dv) ==> (
            r matches Ok(d) && d@ == dv),
            domain_rec_of(tokens_of(proc_schedstat_line@), *current_cpu) matches Err(k) ==> (
            r matches Err(e) && reflects(e, k)),
    {
        let cs = chars_vec(proc_schedstat_line);
        let ts = tokenize(cs.as_slice());
        match domain_from_tokens(&ts, *current_cpu) {
            Ok(d) => Ok(d),
            Err(k) => Err(error_for(k, "schedstat generate_domain_struct")),
        }
    }

    /// Decode a whole `/proc/schedstat` document, as [`schedstat_of`] says:
    /// the value is exactly the correlator fold of the classified lines,
    /// and a failing document reports the same failure kind.
    #[verifier::rlimit(100)]
    pub fn parse_proc_schedstat_output(proc_schedstat: &str) -> (r: Result<
        ProcSchedStat,
        ProcSysParserError,
    >)
        ensures
            (r is Ok) == (schedstat_of(proc_schedstat@) is Ok),
            r matches Ok(d) ==> (schedstat_of(proc_schedstat@) matches Ok(v) && d@ == v),
            r matches Err(e) ==> (schedstat_of(proc_schedstat@) matches Err(k) && reflects(e, k)),
    {
        let ghost doc = proc_schedstat@;
        let ghost ls = lines_of(doc);
        let cs = chars_vec(proc_schedstat);
        let lines = split_lines(cs.as_slice());
        let mut st = ProcSchedStat::new();
        let mut cur_cpu: Option<u64> = None;
        proof {
            assert(CorrState {
                version: st.version,
                timestamp: st.timestamp,
                cpu: st.cpu.deep_view(),
                domain: domain_views(st.domain@),
                cur_cpu: cur_cpu,
            } =~~= init_state());
            assert(ls.skip(0) =~= ls);
        }
        let mut i: usize = 0;
        while i < lines.len()
            invariant
                i <= lines@.len(),
                doc == proc_schedstat@,
                ls == lines_of(doc),
                lines.deep_view() == ls,
                sched_fold(init_state(), ls) == sched_fold(
                    CorrState {
                        version: st.version,
                        timestamp: st.timestamp,
                        cpu: st.cpu.deep_view(),
                        domain: domain_views(st.domain@),
                        cur_cpu: cur_cpu,
                    },
                    ls.skip(i as int),
                ),
            decreases lines@.len() - i,
        {
            let ghost m = CorrState {
                version: st.version,
                timestamp: st.timestamp,
                cpu: st.cpu.deep_view(),
                domain: domain_views(st.domain@),
                cur_cpu: cur_cpu,
            };
            proof {
                assert(ls.skip(i as int).len() > 0);
                assert(ls.skip(i as int)[0] == ls[i as int]);
                assert(ls.skip(i as int).skip(1) =~= ls.skip(i + 1 as int));
                assert(lines@[i as int].deep_view() =~= lines@[i as int]@);
                assert(lines.deep_view()[i as int] == ls[i as int]);
                lemma_fold_step(
                    CorrState {
                        version: st.version,
                        timestamp: st.timestamp,
                        cpu: st.cpu.deep_view(),
                        domain: domain_views(st.domain@),
                        cur_cpu: cur_cpu,
                    },
                    ls.skip(i as int),
                );
            }
            let ts = tokenize(lines[i].as_slice());
            let ghost stepped = sched_step(m, ls[i as int]);
            let kind = classify_line(&ts);
            match kind {
                LineKind::Version => {
                    match parse_scalar_field(&ts) {
                        Ok(v) => {
                            st.version = v;
                            proof {
                                assert(CorrState {
                                    version: st.version,
                                    timestamp: st.timestamp,
                                    cpu: st.cpu.deep_view(),
                                    domain: domain_views(st.domain@),
                                    cur_cpu: cur_cpu,
                                } =~~= stepped->Ok_0);
                            }
                        },
                        Err(k) => {
                            return Err(error_for(k, "schedstat generate_number_unsigned"));
                        },
                    }
                },
                LineKind::Timestamp => {
                    match parse_scalar_field(&ts) {
                        Ok(v) => {
                            st.timestamp = v;
                            proof {
                                assert(CorrState {
                                    version: st.version,
                                    timestamp: st.timestamp,
                                    cpu: st.cpu.deep_view(),
                                    domain: domain_views(st.domain@),
                                    cur_cpu: cur_cpu,
                                } =~~= stepped->Ok_0);
                            }
                        },
                        Err(k) => {
                            return Err(error_for(k, "schedstat generate_number_unsigned"));
                        },
                    }
                },
                LineKind::Cpu => {
                    match cpu_vec_from_tokens(&ts) {
                        Ok(v) => {
                            let idx = v[0];
                            st.cpu.push(v);
                            cur_cpu = Some(idx);
                            proof {
                                assert(CorrState {
                                    version: st.version,
                                    timestamp: st.timestamp,
                                    cpu: st.cpu.deep_view(),
                                    domain: domain_views(st.domain@),
                                    cur_cpu: cur_cpu,
                                } =~~= stepped->Ok_0);
                            }
                        },
                        Err(k) => {
                            return Err(error_for(k, "schedstat generate_number_vector"));
                        },
                    }
                },
                LineKind::Domain => {
                    match cur_cpu {
                        None => {
                            return Err(
                                error_for(
                                    DecodeErr::MalformedDocument,
                                    "schedstat domain line before any cpu line",
                                ),
                            );
                        },
                        Some(c) => {
                            match domain_from_tokens(&ts, c) {
                                Ok(d) => {
                                    st.domain.push(d);
                                    proof {
                                        assert(CorrState {
                                            version: st.version,
                                            timestamp: st.timestamp,
                                            cpu: st.cpu.deep_view(),
                                            domain: domain_views(st.domain@),
                                            cur_cpu: cur_cpu,
                                        } =~~= stepped->Ok_0);
                                    }
                                },
                                Err(k) => {
                                    return Err(error_for(k, "schedstat generate_domain_struct"));
                                },
                            }
                        },
                    }
                },
                LineKind::Unrecognized => {
                    proof {
                        assert(CorrState {
                            version: st.version,
                            timestamp: st.timestamp,
                            cpu: st.cpu.deep_view(),
                            domain: domain_views(st.domain@),
                            cur_cpu: cur_cpu,
                        } =~~= stepped->Ok_0);
                    }
                },
            }
            i += 1;
        }
        proof {
            assert(ls.skip(i as int) =~= Seq::<Seq<char>>::empty());
            assert(st@ =~~= (schedstat_of(doc))->Ok_0);
        }
        Ok(st)
    }
}

} // verus!
