//! Text-scanning primitives shared by every decoder: splitting a document
//! into lines, whitespace tokenization, and decoding of decimal and
//! hexadecimal integer fields.
//!
//! All specifications are stated over `Seq<char>`, the view of `&str` and of
//! the character vectors the decoders work on.

use vstd::prelude::*;

verus! {

/// The ways a decoder can fail. `MissingField` stands for a line with
/// fewer fields than its format requires, `NotANumber` for a field that does
/// not parse in its expected base, `MalformedDocument` for a domain line
/// that no cpu line precedes, and `BadPattern` for a device filter that is
/// no valid regular expression.
#[derive(PartialEq, Eq, Structural, Clone, Copy, Debug)]
pub enum DecodeErr {
    MissingField,
    NotANumber,
    MalformedDocument,
    BadPattern,
}

// ---------------------------------------------------------------------------
// character classes
// ---------------------------------------------------------------------------

/// ASCII whitespace, as the field separators of the `/proc` formats.
pub open spec fn is_ws(c: char) -> bool {
    c == ' ' || c == '\t' || c == '\n' || c == '\r' || c == '\u{b}' || c == '\u{c}'
}

/// Executable test for [`is_ws`].
pub fn is_ws_char(c: char) -> (r: bool)
    ensures
        r == is_ws(c),
{
    c == ' ' || c == '\t' || c == '\n' || c == '\r' || c == '\u{b}' || c == '\u{c}'
}

pub open spec fn is_dec_digit(c: char) -> bool {
    48 <= c as u32 <= 57
}

pub open spec fn dec_digit_val(c: char) -> nat {
    (c as u32 - 48) as nat
}

pub open spec fn is_hex_digit(c: char) -> bool {
    48 <= c as u32 <= 57 || 97 <= c as u32 <= 102 || 65 <= c as u32 <= 70
}

pub open spec fn hex_digit_val(c: char) -> nat {
    if 48 <= c as u32 <= 57 {
        (c as u32 - 48) as nat
    } else if 97 <= c as u32 <= 102 {
        (c as u32 - 87) as nat
    } else {
        (c as u32 - 55) as nat
    }
}

// ---------------------------------------------------------------------------
// splitting: separator splits, lines, whitespace tokens
// ---------------------------------------------------------------------------

/// Split `s` on every occurrence of `sep`, keeping empty parts, as
/// `str::split` does. The result always holds at least one part.
pub open spec fn split_on(s: Seq<char>, sep: char) -> Seq<Seq<char>>
    decreases s.len(),
{
    if s.len() == 0 {
        seq![Seq::<char>::empty()]
    } else {
        let pre = split_on(s.drop_last(), sep);
        if s.last() == sep {
            pre.push(Seq::<char>::empty())
        } else {
            pre.drop_last().push(pre.last().push(s.last()))
        }
    }
}

pub proof fn lemma_split_on_len(s: Seq<char>, sep: char)
    ensures
        split_on(s, sep).len() >= 1,
    decreases s.len(),
{
    if s.len() > 0 {
        lemma_split_on_len(s.drop_last(), sep);
    }
}

/// The maximal runs of non-whitespace characters of `s`, in order, as
/// `str::split_whitespace` yields them.
pub open spec fn tokens_of(s: Seq<char>) -> Seq<Seq<char>>
    decreases s.len(),
{
    if s.len() == 0 {
        Seq::<Seq<char>>::empty()
    } else {
        let pre = tokens_of(s.drop_last());
        if is_ws(s.last()) {
            pre
        } else if s.len() == 1 || is_ws(s[s.len() - 2]) {
            pre.push(seq![s.last()])
        } else {
            pre.drop_last().push(pre.last().push(s.last()))
        }
    }
}

/// A line as `str::lines` reports it: a part between newlines, with one
/// carriage return stripped from its end if the part ended before a newline.
pub open spec fn strip_cr(l: Seq<char>) -> Seq<char> {
    if l.len() > 0 && l.last() == '\r' {
        l.drop_last()
    } else {
        l
    }
}

/// The lines of a document, as `str::lines` yields them: split on `'\n'`,
/// strip a `'\r'` from every part that a newline ended, and drop the final
/// part if it is empty (a trailing newline opens no new line).
pub open spec fn lines_of(s: Seq<char>) -> Seq<Seq<char>> {
    let parts = split_on(s, '\n');
    let main = parts.drop_last().map_values(|l: Seq<char>| strip_cr(l));
    if parts.last().len() == 0 {
        main
    } else {
        main.push(parts.last())
    }
}

// ---------------------------------------------------------------------------
// numeric fields
// ---------------------------------------------------------------------------

/// The value of a digit string read most-significant first in base 10.
pub open spec fn dec_val(s: Seq<char>) -> nat
    decreases s.len(),
{
    if s.len() == 0 {
        0
    } else {
        dec_val(s.drop_last()) * 10 + dec_digit_val(s.last())
    }
}

pub open spec fn all_dec_digits(s: Seq<char>) -> bool {
    forall|i: int| 0 <= i < s.len() ==> is_dec_digit(#[trigger] s[i])
}

/// The value of a digit string read most-significant first in base 16.
pub open spec fn hex_val(s: Seq<char>) -> nat
    decreases s.len(),
{
    if s.len() == 0 {
        0
    } else {
        hex_val(s.drop_last()) * 16 + hex_digit_val(s.last())
    }
}

pub open spec fn all_hex_digits(s: Seq<char>) -> bool {
    forall|i: int| 0 <= i < s.len() ==> is_hex_digit(#[trigger] s[i])
}

/// `u64::from_str` and `u64::from_str_radix` accept an optional leading `+`.
pub open spec fn unsigned_body(s: Seq<char>) -> Seq<char> {
    if s.len() > 0 && s[0] == '+' {
        s.drop_first()
    } else {
        s
    }
}

/// The value of an unsigned run of decimal digits, `None` if it is empty,
/// holds a non-digit, or overflows `u64`.
pub open spec fn dec_mag_of(b: Seq<char>) -> Option<u64> {
    if b.len() > 0 && all_dec_digits(b) && dec_val(b) <= u64::MAX {
        Some(dec_val(b) as u64)
    } else {
        None
    }
}

/// As [`dec_mag_of`], in base 16.
pub open spec fn hex_mag_of(b: Seq<char>) -> Option<u64> {
    if b.len() > 0 && all_hex_digits(b) && hex_val(b) <= u64::MAX {
        Some(hex_val(b) as u64)
    } else {
        None
    }
}

/// What `token.parse::<u64>()` returns: `Some` exactly when the token is an
/// optional `+` followed by one or more decimal digits whose value fits.
pub open spec fn dec_u64_of(s: Seq<char>) -> Option<u64> {
    dec_mag_of(unsigned_body(s))
}

/// What `u64::from_str_radix(token, 16)` returns: `Some` exactly when the
/// token is an optional `+` followed by one or more hexadecimal digits whose
/// value fits.
pub open spec fn hex_u64_of(s: Seq<char>) -> Option<u64> {
    hex_mag_of(unsigned_body(s))
}

/// What `token.parse::<i64>()` returns: an optional sign followed by one or
/// more decimal digits, with the value in the range of `i64`.
pub open spec fn dec_i64_of(s: Seq<char>) -> Option<i64> {
    if s.len() > 0 && s[0] == '-' {
        match dec_mag_of(s.drop_first()) {
            Some(m) => if m <= 0x8000_0000_0000_0000u64 {
                Some((-(m as int)) as i64)
            } else {
                None
            },
            None => None,
        }
    } else {
        match dec_mag_of(unsigned_body(s)) {
            Some(m) => if m <= i64::MAX as u64 {
                Some(m as i64)
            } else {
                None
            },
            None => None,
        }
    }
}

/// `p` is a prefix of `s`.
pub open spec fn has_prefix(s: Seq<char>, p: Seq<char>) -> bool {
    p.len() <= s.len() && s.subrange(0, p.len() as int) == p
}

/// A digit string's value never shrinks when more digits follow it.
pub proof fn lemma_dec_val_prefix_le(s: Seq<char>, k: int)
    requires
        0 <= k <= s.len(),
    ensures
        dec_val(s.subrange(0, k)) <= dec_val(s),
    decreases s.len() - k,
{
    if k < s.len() {
        lemma_dec_val_prefix_le(s, k + 1);
        assert(s.subrange(0, k + 1).drop_last() =~= s.subrange(0, k));
        assert(dec_val(s.subrange(0, k)) <= dec_val(s.subrange(0, k + 1)));
    } else {
        assert(s.subrange(0, k) =~= s);
    }
}

pub proof fn lemma_hex_val_prefix_le(s: Seq<char>, k: int)
    requires
        0 <= k <= s.len(),
    ensures
        hex_val(s.subrange(0, k)) <= hex_val(s),
    decreases s.len() - k,
{
    if k < s.len() {
        lemma_hex_val_prefix_le(s, k + 1);
        assert(s.subrange(0, k + 1).drop_last() =~= s.subrange(0, k));
        assert(hex_val(s.subrange(0, k)) <= hex_val(s.subrange(0, k + 1)));
    } else {
        assert(s.subrange(0, k) =~= s);
    }
}

// ---------------------------------------------------------------------------
// executable scanning
// ---------------------------------------------------------------------------

/// The characters of `s`, in order.
pub fn chars_vec(s: &str) -> (r: Vec<char>)
    ensures
        r@ == s@,
{
    let n = s.unicode_len();
    let mut v: Vec<char> = Vec::new();
    let mut i: usize = 0;
    while i < n
        invariant
            n == s@.len(),
            i <= n,
            v@ == s@.subrange(0, i as int),
        decreases n - i,
    {
        let c = s.get_char(i);
        v.push(c);
        i += 1;
        proof {
            assert(v@ =~= s@.subrange(0, i as int));
        }
    }
    proof {
        assert(v@ =~= s@);
    }
    v
}

/// Whether the token `t` holds exactly the text of `k`.
pub fn token_eq(t: &[char], k: &str) -> (r: bool)
    ensures
        r == (t@ == k@),
{
    let n = k.unicode_len();
    if t.len() != n {
        return false;
    }
    let mut i: usize = 0;
    while i < n
        invariant
            i <= n,
            n == k@.len(),
            t@.len() == n,
            forall|j: int| 0 <= j < i ==> t@[j] == k@[j],
        decreases n - i,
    {
        if t[i] != k.get_char(i) {
            return false;
        }
        i += 1;
    }
    proof {
        assert(t@ =~= k@);
    }
    true
}

/// Whether the token `t` starts with the text of `k`.
pub fn token_has_prefix(t: &[char], k: &str) -> (r: bool)
    ensures
        r == has_prefix(t@, k@),
{
    let n = k.unicode_len();
    if t.len() < n {
        return false;
    }
    let mut i: usize = 0;
    while i < n
        invariant
            i <= n,
            n == k@.len(),
            n <= t@.len(),
            forall|j: int| 0 <= j < i ==> t@[j] == k@[j],
        decreases n - i,
    {
        if t[i] != k.get_char(i) {
            assert(t@.subrange(0, n as int)[i as int] != k@[i as int]);
            return false;
        }
        i += 1;
    }
    proof {
        assert(t@.subrange(0, n as int) =~= k@);
    }
    true
}

/// Split `t` on every occurrence of `sep`, keeping empty parts.
pub fn split_char(t: &[char], sep: char) -> (r: Vec<Vec<char>>)
    ensures
        r.deep_view() == split_on(t@, sep),
{
    let mut out: Vec<Vec<char>> = Vec::new();
    let mut cur: Vec<char> = Vec::new();
    let mut i: usize = 0;
    proof {
        assert(t@.subrange(0, 0) =~= Seq::<char>::empty());
        assert(split_on(t@.subrange(0, 0), sep) =~~= out.deep_view().push(cur.deep_view()));
    }
    while i < t.len()
        invariant
            i <= t@.len(),
            split_on(t@.subrange(0, i as int), sep) == out.deep_view().push(cur.deep_view()),
        decreases t@.len() - i,
    {
        let c = t[i];
        proof {
            assert(t@.subrange(0, i + 1 as int).drop_last() =~= t@.subrange(0, i as int));
            assert(t@.subrange(0, i + 1 as int).last() == t@[i as int]);
        }
        let ghost pre = split_on(t@.subrange(0, i as int), sep);
        if c == sep {
            out.push(cur);
            cur = Vec::new();
            proof {
                assert(out.deep_view() =~~= pre);
                assert(split_on(t@.subrange(0, i + 1 as int), sep) =~~= out.deep_view().push(
                    cur.deep_view(),
                ));
            }
        } else {
            cur.push(c);
            proof {
                assert(pre.drop_last() =~~= out.deep_view());
                assert(pre.last() =~= cur.deep_view().drop_last());
                assert(split_on(t@.subrange(0, i + 1 as int), sep) =~~= out.deep_view().push(
                    cur.deep_view(),
                ));
            }
        }
        i += 1;
    }
    proof {
        assert(t@.subrange(0, t@.len() as int) =~= t@);
    }
    out.push(cur);
    proof {
        assert(out.deep_view() =~~= split_on(t@, sep));
    }
    out
}

/// The lines of a document, as `str::lines` yields them.
pub fn split_lines(t: &[char]) -> (r: Vec<Vec<char>>)
    ensures
        r.deep_view() == lines_of(t@),
{
    let mut out: Vec<Vec<char>> = Vec::new();
    let mut cur: Vec<char> = Vec::new();
    let mut i: usize = 0;
    proof {
        assert(t@.subrange(0, 0) =~= Seq::<char>::empty());
        assert(out.deep_view() =~~= split_on(t@.subrange(0, 0), '\n').drop_last().map_values(
            |l: Seq<char>| strip_cr(l),
        ));
        assert(cur.deep_view() =~= split_on(t@.subrange(0, 0), '\n').last());
    }
    while i < t.len()
        invariant
            i <= t@.len(),
            out.deep_view() == split_on(t@.subrange(0, i as int), '\n').drop_last().map_values(
                |l: Seq<char>| strip_cr(l),
            ),
            cur.deep_view() == split_on(t@.subrange(0, i as int), '\n').last(),
        decreases t@.len() - i,
    {
        let c = t[i];
        proof {
            assert(t@.subrange(0, i + 1 as int).drop_last() =~= t@.subrange(0, i as int));
            assert(t@.subrange(0, i + 1 as int).last() == t@[i as int]);
            lemma_split_on_len(t@.subrange(0, i as int), '\n');
        }
        let ghost pre = split_on(t@.subrange(0, i as int), '\n');
        if c == '\n' {
            if cur.len() > 0 && cur[cur.len() - 1] == '\r' {
                cur.pop();
            }
            proof {
                assert(cur.deep_view() =~= strip_cr(pre.last()));
            }
            out.push(cur);
            cur = Vec::new();
            proof {
                let post = split_on(t@.subrange(0, i + 1 as int), '\n');
                assert(post == pre.push(Seq::<char>::empty()));
                assert(post.drop_last() =~~= pre);
                assert(post.drop_last().map_values(|l: Seq<char>| strip_cr(l)) =~~=
                    pre.drop_last().map_values(|l: Seq<char>| strip_cr(l)).push(
                    strip_cr(pre.last()),
                ));
                assert(out.deep_view() =~~= pre.drop_last().map_values(
                    |l: Seq<char>| strip_cr(l),
                ).push(strip_cr(pre.last())));
                assert(cur.deep_view() =~= post.last());
            }
        } else {
            cur.push(c);
            proof {
                let post = split_on(t@.subrange(0, i + 1 as int), '\n');
                assert(post == pre.drop_last().push(pre.last().push(t@[i as int])));
                assert(post.drop_last() =~~= pre.drop_last());
                assert(post.drop_last().map_values(|l: Seq<char>| strip_cr(l)) =~~=
                    pre.drop_last().map_values(|l: Seq<char>| strip_cr(l)));
                assert(post.last() == pre.last().push(t@[i as int]));
                assert(cur.deep_view() =~= post.last());
            }
        }
        i += 1;
    }
    proof {
        assert(t@.subrange(0, t@.len() as int) =~= t@);
        lemma_split_on_len(t@, '\n');
    }
    if cur.len() > 0 {
        out.push(cur);
        proof {
            assert(out.deep_view() =~~= lines_of(t@));
        }
    } else {
        proof {
            assert(out.deep_view() =~~= lines_of(t@));
        }
    }
    out
}

/// The whitespace-separated tokens of `t`, in order.
pub fn tokenize(t: &[char]) -> (r: Vec<Vec<char>>)
    ensures
        r.deep_view() == tokens_of(t@),
{
    let mut out: Vec<Vec<char>> = Vec::new();
    let mut cur: Vec<char> = Vec::new();
    let mut i: usize = 0;
    proof {
        assert(t@.subrange(0, 0) =~= Seq::<char>::empty());
        assert(tokens_of(t@.subrange(0, 0)) =~~= out.deep_view());
    }
    while i < t.len()
        invariant
            i <= t@.len(),
            cur.deep_view().len() == 0 ==> {
                &&& tokens_of(t@.subrange(0, i as int)) == out.deep_view()
                &&& (i == 0 || is_ws(t@[i - 1]))
            },
            cur.deep_view().len() > 0 ==> {
                &&& tokens_of(t@.subrange(0, i as int)) == out.deep_view().push(cur.deep_view())
                &&& i > 0
                &&& !is_ws(t@[i - 1])
            },
        decreases t@.len() - i,
    {
        let c = t[i];
        proof {
            let p = t@.subrange(0, i + 1 as int);
            assert(p.drop_last() =~= t@.subrange(0, i as int));
            assert(p.last() == t@[i as int]);
            assert(p.len() >= 2 ==> p[p.len() - 2] == t@[i - 1]);
        }
        let ghost pre = tokens_of(t@.subrange(0, i as int));
        let ghost oldout = out.deep_view();
        let ghost oldcur = cur.deep_view();
        if is_ws_char(c) {
            if cur.len() > 0 {
                out.push(cur);
                cur = Vec::new();
                proof {
                    assert(out.deep_view() =~~= oldout.push(oldcur));
                    assert(out.deep_view() =~~= pre);
                }
            }
            proof {
                assert(tokens_of(t@.subrange(0, i + 1 as int)) == pre);
            }
        } else {
            if cur.len() == 0 {
                cur.push(c);
                proof {
                    assert(cur.deep_view() =~= seq![t@[i as int]]);
                    assert(tokens_of(t@.subrange(0, i + 1 as int)) =~~= pre.push(
                        cur.deep_view(),
                    ));
                }
            } else {
                cur.push(c);
                proof {
                    assert(pre.drop_last() =~~= oldout);
                    assert(pre.last() == oldcur);
                    assert(cur.deep_view() =~= oldcur.push(t@[i as int]));
                    assert(tokens_of(t@.subrange(0, i + 1 as int)) =~~= out.deep_view().push(
                        cur.deep_view(),
                    ));
                }
            }
        }
        i += 1;
    }
    proof {
        assert(t@.subrange(0, t@.len() as int) =~= t@);
    }
    if cur.len() > 0 {
        out.push(cur);
        proof {
            assert(out.deep_view() =~~= tokens_of(t@));
        }
    }
    out
}

/// The value of the decimal digit run `t[start..]`, `None` on a non-digit,
/// an empty run, or overflow.
pub fn parse_dec_mag(t: &[char], start: usize) -> (r: Option<u64>)
    requires
        start <= t@.len(),
    ensures
        r == dec_mag_of(t@.subrange(start as int, t@.len() as int)),
{
    let ghost b = t@.subrange(start as int, t@.len() as int);
    if t.len() == start {
        return None;
    }
    let mut acc: u64 = 0;
    let mut i: usize = start;
    while i < t.len()
        invariant
            start <= i <= t@.len(),
            start < t@.len(),
            b == t@.subrange(start as int, t@.len() as int),
            acc == dec_val(b.subrange(0, i - start)),
            all_dec_digits(b.subrange(0, i - start)),
        decreases t@.len() - i,
    {
        let c = t[i];
        let u = c as u32;
        proof {
            assert(b[i - start] == t@[i as int]);
        }
        if !(48 <= u && u <= 57) {
            proof {
                assert(!is_dec_digit(b[i - start]));
                assert(!all_dec_digits(b));
            }
            return None;
        }
        let d = (u - 48) as u64;
        proof {
            assert(c == t@[i as int]);
            assert(is_dec_digit(b[i - start]));
            assert(d == dec_digit_val(b[i - start]));
            assert(b.subrange(0, i - start + 1).drop_last() =~= b.subrange(0, i - start));
            assert(b.subrange(0, i - start + 1).last() == b[i - start]);
            assert(dec_val(b.subrange(0, i - start + 1)) == acc * 10 + d);
            assert(all_dec_digits(b.subrange(0, i - start + 1)));
        }
        let step = match acc.checked_mul(10) {
            Some(m) => m.checked_add(d),
            None => None,
        };
        match step {
            Some(n) => {
                acc = n;
                proof {
                    assert(acc == dec_val(b.subrange(0, i - start + 1)));
                }
            },
            None => {
                proof {
                    assert(dec_val(b.subrange(0, i - start + 1)) > u64::MAX);
                    lemma_dec_val_prefix_le(b, i - start + 1);
                }
                return None;
            },
        }
        i += 1;
    }
    proof {
        assert(b.subrange(0, t@.len() - start) =~= b);
    }
    Some(acc)
}

/// As [`parse_dec_mag`], in base 16.
pub fn parse_hex_mag(t: &[char], start: usize) -> (r: Option<u64>)
    requires
        start <= t@.len(),
    ensures
        r == hex_mag_of(t@.subrange(start as int, t@.len() as int)),
{
    let ghost b = t@.subrange(start as int, t@.len() as int);
    if t.len() == start {
        return None;
    }
    let mut acc: u64 = 0;
    let mut i: usize = start;
    while i < t.len()
        invariant
            start <= i <= t@.len(),
            start < t@.len(),
            b == t@.subrange(start as int, t@.len() as int),
            acc == hex_val(b.subrange(0, i - start)),
            all_hex_digits(b.subrange(0, i - start)),
        decreases t@.len() - i,
    {
        let c = t[i];
        let u = c as u32;
        proof {
            assert(b[i - start] == t@[i as int]);
        }
        let d: u64 = if 48 <= u && u <= 57 {
            (u - 48) as u64
        } else if 97 <= u && u <= 102 {
            (u - 87) as u64
        } else if 65 <= u && u <= 70 {
            (u - 55) as u64
        } else {
            proof {
                assert(!is_hex_digit(b[i - start]));
                assert(!all_hex_digits(b));
            }
            return None;
        };
        proof {
            assert(d == hex_digit_val(b[i - start]));
            assert(b.subrange(0, i - start + 1).drop_last() =~= b.subrange(0, i - start));
            assert(b.subrange(0, i - start + 1).last() == b[i - start]);
        }
        let step = match acc.checked_mul(16) {
            Some(m) => m.checked_add(d),
            None => None,
        };
        match step {
            Some(n) => {
                acc = n;
                proof {
                    assert(acc == hex_val(b.subrange(0, i - start + 1)));
                }
            },
            None => {
                proof {
                    assert(hex_val(b.subrange(0, i - start + 1)) > u64::MAX);
                    lemma_hex_val_prefix_le(b, i - start + 1);
                }
                return None;
            },
        }
        i += 1;
    }
    proof {
        assert(b.subrange(0, t@.len() - start) =~= b);
    }
    Some(acc)
}

/// What `token.parse::<u64>()` returns for the token `t`.
pub fn parse_u64_dec(t: &[char]) -> (r: Option<u64>)
    ensures
        r == dec_u64_of(t@),
{
    let start: usize = if t.len() > 0 && t[0] == '+' {
        1
    } else {
        0
    };
    proof {
        assert(unsigned_body(t@) =~= t@.subrange(start as int, t@.len() as int));
    }
    parse_dec_mag(t, start)
}

/// What `u64::from_str_radix(token, 16)` returns for the token `t`.
pub fn parse_u64_hex(t: &[char]) -> (r: Option<u64>)
    ensures
        r == hex_u64_of(t@),
{
    let start: usize = if t.len() > 0 && t[0] == '+' {
        1
    } else {
        0
    };
    proof {
        assert(unsigned_body(t@) =~= t@.subrange(start as int, t@.len() as int));
    }
    parse_hex_mag(t, start)
}

/// What `token[start..].parse::<u64>()` returns: the decimal value of the
/// suffix of `t` from `start`, with an optional leading `+`.
pub fn parse_u64_dec_suffix(t: &[char], start: usize) -> (r: Option<u64>)
    requires
        start <= t@.len(),
    ensures
        r == dec_u64_of(t@.skip(start as int)),
{
    let from: usize = if start < t.len() && t[start] == '+' {
        start + 1
    } else {
        start
    };
    proof {
        assert(t@.skip(start as int) =~= t@.subrange(start as int, t@.len() as int));
        assert(unsigned_body(t@.skip(start as int)) =~= t@.subrange(
            from as int,
            t@.len() as int,
        ));
    }
    parse_dec_mag(t, from)
}

/// What `token.parse::<i64>()` returns for the token `t`.
pub fn parse_i64_dec(t: &[char]) -> (r: Option<i64>)
    ensures
        r == dec_i64_of(t@),
{
    if t.len() > 0 && t[0] == '-' {
        proof {
            assert(t@.drop_first() =~= t@.subrange(1, t@.len() as int));
        }
        match parse_dec_mag(t, 1) {
            Some(m) => {
                if m <= 9223372036854775808u64 {
                    if m == 9223372036854775808u64 {
                        Some(i64::MIN)
                    } else {
                        Some(-(m as i64))
                    }
                } else {
                    None
                }
            },
            None => None,
        }
    } else {
        let start: usize = if t.len() > 0 && t[0] == '+' {
            1
        } else {
            0
        };
        proof {
            assert(unsigned_body(t@) =~= t@.subrange(start as int, t@.len() as int));
        }
        match parse_dec_mag(t, start) {
            Some(m) => {
                if m <= 9223372036854775807u64 {
                    Some(m as i64)
                } else {
                    None
                }
            },
            None => None,
        }
    }
}

// ---------------------------------------------------------------------------
// trimming
// ---------------------------------------------------------------------------

/// `s` with its leading whitespace removed, as `str::trim_start` leaves it
/// for ASCII text.
pub open spec fn trim_start_of(s: Seq<char>) -> Seq<char>
    decreases s.len(),
{
    if s.len() > 0 && is_ws(s[0]) {
        trim_start_of(s.drop_first())
    } else {
        s
    }
}

/// `s` with every trailing newline removed, as
/// `str::trim_end_matches('\n')` leaves it.
pub open spec fn trim_nl_of(s: Seq<char>) -> Seq<char>
    decreases s.len(),
{
    if s.len() > 0 && s.last() == '\n' {
        trim_nl_of(s.drop_last())
    } else {
        s
    }
}

/// The characters of `t` with leading whitespace removed.
pub fn trim_start_chars(t: &[char]) -> (r: Vec<char>)
    ensures
        r@ == trim_start_of(t@),
{
    let mut j: usize = 0;
    while j < t.len() && is_ws_char(t[j])
        invariant
            j <= t@.len(),
            forall|k: int| 0 <= k < j ==> is_ws(#[trigger] t@[k]),
        decreases t@.len() - j,
    {
        j += 1;
    }
    proof {
        lemma_trim_start_at(t@, j as int);
    }
    let mut out: Vec<char> = Vec::new();
    let mut i: usize = j;
    while i < t.len()
        invariant
            j <= i <= t@.len(),
            out@ == t@.subrange(j as int, i as int),
        decreases t@.len() - i,
    {
        out.push(t[i]);
        i += 1;
        proof {
            assert(out@ =~= t@.subrange(j as int, i as int));
        }
    }
    proof {
        assert(out@ =~= t@.subrange(j as int, t@.len() as int));
    }
    out
}

proof fn lemma_trim_start_at(s: Seq<char>, j: int)
    requires
        0 <= j <= s.len(),
        forall|k: int| 0 <= k < j ==> is_ws(#[trigger] s[k]),
        j == s.len() || !is_ws(s[j]),
    ensures
        trim_start_of(s) == s.subrange(j, s.len() as int),
    decreases j,
{
    if j == 0 {
        assert(s.subrange(0, s.len() as int) =~= s);
    } else {
        assert(is_ws(s[0]));
        lemma_trim_start_at(s.drop_first(), j - 1);
        assert(s.drop_first().subrange(j - 1, s.drop_first().len() as int) =~= s.subrange(
            j,
            s.len() as int,
        ));
    }
}

/// `s` with every trailing occurrence of `c` removed, as
/// `str::trim_end_matches` leaves it for a one-character pattern.
pub open spec fn trim_end_ch_of(s: Seq<char>, c: char) -> Seq<char>
    decreases s.len(),
{
    if s.len() > 0 && s.last() == c {
        trim_end_ch_of(s.drop_last(), c)
    } else {
        s
    }
}

/// The characters of `t` with every trailing `c` removed.
pub fn trim_end_ch_chars(t: &[char], c: char) -> (r: Vec<char>)
    ensures
        r@ == trim_end_ch_of(t@, c),
{
    let mut out: Vec<char> = Vec::new();
    let mut i: usize = 0;
    while i < t.len()
        invariant
            i <= t@.len(),
            out@ == t@.subrange(0, i as int),
        decreases t@.len() - i,
    {
        out.push(t[i]);
        i += 1;
        proof {
            assert(out@ =~= t@.subrange(0, i as int));
        }
    }
    proof {
        assert(out@ =~= t@);
    }
    while out.len() > 0 && out[out.len() - 1] == c
        invariant
            trim_end_ch_of(out@, c) == trim_end_ch_of(t@, c),
        decreases out@.len(),
    {
        out.pop();
    }
    out
}

/// The characters of `t` with trailing newlines removed.
pub fn trim_nl_chars(t: &[char]) -> (r: Vec<char>)
    ensures
        r@ == trim_nl_of(t@),
{
    let mut out: Vec<char> = Vec::new();
    let mut i: usize = 0;
    while i < t.len()
        invariant
            i <= t@.len(),
            out@ == t@.subrange(0, i as int),
        decreases t@.len() - i,
    {
        out.push(t[i]);
        i += 1;
        proof {
            assert(out@ =~= t@.subrange(0, i as int));
        }
    }
    proof {
        assert(out@ =~= t@);
    }
    while out.len() > 0 && out[out.len() - 1] == '\n'
        invariant
            trim_nl_of(out@) == trim_nl_of(t@),
        decreases out@.len(),
    {
        out.pop();
    }
    out
}

// ---------------------------------------------------------------------------
// searching
// ---------------------------------------------------------------------------

/// The index of the first occurrence of `c` in `s`, as `str::find` reports
/// it for a one-character pattern of ASCII text.
pub open spec fn find_ch(s: Seq<char>, c: char) -> Option<int>
    decreases s.len(),
{
    if s.len() == 0 {
        None
    } else if s[0] == c {
        Some(0)
    } else {
        match find_ch(s.drop_first(), c) {
            Some(i) => Some(i + 1),
            None => None,
        }
    }
}

proof fn lemma_find_ch_at(s: Seq<char>, j: int, c: char)
    requires
        0 <= j <= s.len(),
        forall|k: int| 0 <= k < j ==> s[k] != c,
        j == s.len() || s[j] == c,
    ensures
        j == s.len() ==> find_ch(s, c) is None,
        j < s.len() ==> find_ch(s, c) == Some(j),
    decreases j,
{
    if s.len() == 0 {
    } else if j == 0 {
    } else {
        assert(s[0] != c);
        assert(forall|k: int| 0 <= k < j - 1 ==> s.drop_first()[k] == s[k + 1]);
        lemma_find_ch_at(s.drop_first(), j - 1, c);
    }
}

/// The position of the first `c` in `t`, as [`find_ch`] says.
pub fn find_char(t: &[char], c: char) -> (r: Option<usize>)
    ensures
        r matches Some(j) ==> (find_ch(t@, c) == Some(j as int) && j < t@.len() && t@[
            j as int
        ] == c),
        r is None ==> find_ch(t@, c) is None,
{
    let mut j: usize = 0;
    while j < t.len() && t[j] != c
        invariant
            j <= t@.len(),
            forall|k: int| 0 <= k < j ==> t@[k] != c,
        decreases t@.len() - j,
    {
        j += 1;
    }
    proof {
        lemma_find_ch_at(t@, j as int, c);
    }
    if j < t.len() {
        Some(j)
    } else {
        None
    }
}

/// The characters `t[from..to]`, copied out.
pub fn copy_range(t: &[char], from: usize, to: usize) -> (r: Vec<char>)
    requires
        from <= to <= t@.len(),
    ensures
        r@ == t@.subrange(from as int, to as int),
{
    let mut out: Vec<char> = Vec::new();
    let mut i: usize = from;
    proof {
        assert(out@ =~= t@.subrange(from as int, from as int));
    }
    while i < to
        invariant
            from <= i <= to <= t@.len(),
            out@ == t@.subrange(from as int, i as int),
        decreases to - i,
    {
        out.push(t[i]);
        i += 1;
        proof {
            assert(out@ =~= t@.subrange(from as int, i as int));
        }
    }
    out
}

// ---------------------------------------------------------------------------
// strings
// ---------------------------------------------------------------------------

/// Relies on `String`'s `FromIterator` over `&char`: collecting yields the
/// characters in order.
#[verifier::external_body]
pub fn chars_to_string(t: &[char]) -> (r: String)
    ensures
        r@ == t@,
{
    t.iter().collect()
}

// ---------------------------------------------------------------------------
// whole-line field decoders shared by the formats
// ---------------------------------------------------------------------------

/// The second whitespace-separated field of a token list, decoded as a
/// decimal integer: the shape of `version`, `timestamp`, `ctxt` and every
/// other scalar line.
pub open spec fn scalar_field_of(ts: Seq<Seq<char>>) -> Result<u64, DecodeErr> {
    if ts.len() < 2 {
        Err(DecodeErr::MissingField)
    } else {
        match dec_u64_of(ts[1]) {
            Some(v) => Ok(v),
            None => Err(DecodeErr::NotANumber),
        }
    }
}

/// Every token of `ts`, decoded as a decimal integer, in order; an
/// undecodable token fails the whole list.
pub open spec fn dec_seq_of(ts: Seq<Seq<char>>) -> Result<Seq<u64>, DecodeErr>
    decreases ts.len(),
{
    if ts.len() == 0 {
        Ok(Seq::<u64>::empty())
    } else {
        match dec_seq_of(ts.drop_last()) {
            Ok(pre) => match dec_u64_of(ts.last()) {
                Some(v) => Ok(pre.push(v)),
                None => Err(DecodeErr::NotANumber),
            },
            Err(e) => Err(e),
        }
    }
}

/// Every token of `ts`, decoded as a hexadecimal integer, in order.
pub open spec fn hex_seq_of(ts: Seq<Seq<char>>) -> Result<Seq<u64>, DecodeErr>
    decreases ts.len(),
{
    if ts.len() == 0 {
        Ok(Seq::<u64>::empty())
    } else {
        match hex_seq_of(ts.drop_last()) {
            Ok(pre) => match hex_u64_of(ts.last()) {
                Some(v) => Ok(pre.push(v)),
                None => Err(DecodeErr::NotANumber),
            },
            Err(e) => Err(e),
        }
    }
}

/// The field `ts[i]` as a required decimal integer: a missing field and an
/// unparsable field both fail.
pub open spec fn req_u64_of(ts: Seq<Seq<char>>, i: int) -> Result<u64, DecodeErr> {
    if i >= ts.len() {
        Err(DecodeErr::MissingField)
    } else {
        match dec_u64_of(ts[i]) {
            Some(v) => Ok(v),
            None => Err(DecodeErr::NotANumber),
        }
    }
}

/// The field `ts[i]` as an optional decimal integer: a missing field and an
/// unparsable field are both explicitly absent.
pub open spec fn opt_u64_of(ts: Seq<Seq<char>>, i: int) -> Option<u64> {
    if i >= ts.len() {
        None
    } else {
        dec_u64_of(ts[i])
    }
}

/// Decode the field `ts[i]` as a required decimal integer, as
/// [`req_u64_of`] says.
pub fn parse_req_u64(ts: &Vec<Vec<char>>, i: usize) -> (r: Result<u64, DecodeErr>)
    ensures
        r == req_u64_of(ts.deep_view(), i as int),
{
    if i >= ts.len() {
        return Err(DecodeErr::MissingField);
    }
    proof {
        assert(ts.deep_view()[i as int] =~= ts@[i as int]@);
    }
    match parse_u64_dec(ts[i].as_slice()) {
        Some(v) => Ok(v),
        None => Err(DecodeErr::NotANumber),
    }
}

/// Decode the field `ts[i]` as an optional decimal integer, as
/// [`opt_u64_of`] says.
pub fn parse_opt_u64(ts: &Vec<Vec<char>>, i: usize) -> (r: Option<u64>)
    ensures
        r == opt_u64_of(ts.deep_view(), i as int),
{
    if i >= ts.len() {
        return None;
    }
    proof {
        assert(ts.deep_view()[i as int] =~= ts@[i as int]@);
    }
    parse_u64_dec(ts[i].as_slice())
}

/// Decode the second field of the token list, as [`scalar_field_of`] says.
pub fn parse_scalar_field(ts: &Vec<Vec<char>>) -> (r: Result<u64, DecodeErr>)
    ensures
        r == scalar_field_of(ts.deep_view()),
{
    if ts.len() < 2 {
        return Err(DecodeErr::MissingField);
    }
    proof {
        assert(ts.deep_view()[1] =~= ts@[1]@);
    }
    match parse_u64_dec(ts[1].as_slice()) {
        Some(v) => Ok(v),
        None => Err(DecodeErr::NotANumber),
    }
}

/// Decode the tokens `ts[start..]` as decimal integers, as [`dec_seq_of`]
/// says of that token list.
pub fn parse_dec_fields(ts: &Vec<Vec<char>>, start: usize) -> (r: Result<Vec<u64>, DecodeErr>)
    requires
        start <= ts@.len(),
    ensures
        r matches Ok(v) ==> dec_seq_of(ts.deep_view().subrange(start as int, ts@.len() as int))
            == Ok::<Seq<u64>, DecodeErr>(v@),
        r matches Err(e) ==> dec_seq_of(ts.deep_view().subrange(start as int, ts@.len() as int))
            == Err::<Seq<u64>, DecodeErr>(e),
{
    let ghost whole = ts.deep_view().subrange(start as int, ts@.len() as int);
    let mut out: Vec<u64> = Vec::new();
    let mut i: usize = start;
    proof {
        assert(whole.subrange(0, 0) =~= Seq::<Seq<char>>::empty());
        assert(out@ =~= Seq::<u64>::empty());
    }
    while i < ts.len()
        invariant
            start <= i <= ts@.len(),
            whole == ts.deep_view().subrange(start as int, ts@.len() as int),
            dec_seq_of(whole.subrange(0, i - start)) == Ok::<Seq<u64>, DecodeErr>(out@),
        decreases ts@.len() - i,
    {
        proof {
            assert(whole.subrange(0, i - start + 1).drop_last() =~= whole.subrange(0, i - start));
            assert(whole.subrange(0, i - start + 1).last() == ts.deep_view()[i as int]);
            assert(ts.deep_view()[i as int] =~= ts@[i as int]@);
        }
        match parse_u64_dec(ts[i].as_slice()) {
            Some(v) => {
                out.push(v);
            },
            None => {
                proof {
                    lemma_dec_seq_err_extends(whole, i - start + 1);
                }
                return Err(DecodeErr::NotANumber);
            },
        }
        i += 1;
    }
    proof {
        assert(whole.subrange(0, ts@.len() - start) =~= whole);
    }
    Ok(out)
}

/// Decode the tokens `ts[start..]` as hexadecimal integers, as
/// [`hex_seq_of`] says of that token list.
pub fn parse_hex_fields(ts: &Vec<Vec<char>>, start: usize) -> (r: Result<Vec<u64>, DecodeErr>)
    requires
        start <= ts@.len(),
    ensures
        r matches Ok(v) ==> hex_seq_of(ts.deep_view().subrange(start as int, ts@.len() as int))
            == Ok::<Seq<u64>, DecodeErr>(v@),
        r matches Err(e) ==> hex_seq_of(ts.deep_view().subrange(start as int, ts@.len() as int))
            == Err::<Seq<u64>, DecodeErr>(e),
{
    let ghost whole = ts.deep_view().subrange(start as int, ts@.len() as int);
    let mut out: Vec<u64> = Vec::new();
    let mut i: usize = start;
    proof {
        assert(whole.subrange(0, 0) =~= Seq::<Seq<char>>::empty());
        assert(out@ =~= Seq::<u64>::empty());
    }
    while i < ts.len()
        invariant
            start <= i <= ts@.len(),
            whole == ts.deep_view().subrange(start as int, ts@.len() as int),
            hex_seq_of(whole.subrange(0, i - start)) == Ok::<Seq<u64>, DecodeErr>(out@),
        decreases ts@.len() - i,
    {
        proof {
            assert(whole.subrange(0, i - start + 1).drop_last() =~= whole.subrange(0, i - start));
            assert(whole.subrange(0, i - start + 1).last() == ts.deep_view()[i as int]);
            assert(ts.deep_view()[i as int] =~= ts@[i as int]@);
        }
        match parse_u64_hex(ts[i].as_slice()) {
            Some(v) => {
                out.push(v);
            },
            None => {
                proof {
                    lemma_hex_seq_err_extends(whole, i - start + 1);
                }
                return Err(DecodeErr::NotANumber);
            },
        }
        i += 1;
    }
    proof {
        assert(whole.subrange(0, ts@.len() - start) =~= whole);
    }
    Ok(out)
}

/// Once a prefix of the token list fails to decode, the whole list fails
/// with the same error.
pub proof fn lemma_dec_seq_err_extends(ts: Seq<Seq<char>>, k: int)
    requires
        0 <= k <= ts.len(),
        dec_seq_of(ts.subrange(0, k)) is Err,
    ensures
        dec_seq_of(ts) == dec_seq_of(ts.subrange(0, k)),
    decreases ts.len() - k,
{
    if k < ts.len() {
        assert(ts.subrange(0, k + 1).drop_last() =~= ts.subrange(0, k));
        lemma_dec_seq_err_extends(ts, k + 1);
    } else {
        assert(ts.subrange(0, k) =~= ts);
    }
}

pub proof fn lemma_hex_seq_err_extends(ts: Seq<Seq<char>>, k: int)
    requires
        0 <= k <= ts.len(),
        hex_seq_of(ts.subrange(0, k)) is Err,
    ensures
        hex_seq_of(ts) == hex_seq_of(ts.subrange(0, k)),
    decreases ts.len() - k,
{
    if k < ts.len() {
        assert(ts.subrange(0, k + 1).drop_last() =~= ts.subrange(0, k));
        lemma_hex_seq_err_extends(ts, k + 1);
    } else {
        assert(ts.subrange(0, k) =~= ts);
    }
}

} // verus!

