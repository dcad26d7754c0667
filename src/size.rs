//! Reading the human-readable sizes that the container runtime prints
//! ("1.5MB", "0B", "512kB") as byte counts.
//!
//! A numeral is read exactly in decimal, so "0.1KB" is 102 bytes: the product of
//! the numeral and the unit, rounded down, saturating at `u64::MAX`. A negative
//! numeral counts as zero bytes.
use vstd::prelude::*;
use vstd::arithmetic::div_mod::{
    lemma_div_denominator,
    lemma_div_is_ordered,
    lemma_hoist_over_denominator,
};
use crate::text::{
    chars_of, lines, lines_of, same_chars, slice_chars, split, split_chars, trim, trim_chars, views,
};

verus! {

pub open spec fn is_digit(c: char) -> bool {
    48 <= (c as u32) && (c as u32) <= 57
}

pub open spec fn digit_value(c: char) -> nat {
    ((c as u32) - 48) as nat
}

pub open spec fn all_digits(s: Seq<char>) -> bool {
    forall|i: int| 0 <= i < s.len() ==> is_digit(#[trigger] s[i])
}

/// The number that a string of decimal digits denotes.
pub open spec fn digits_value(s: Seq<char>) -> nat
    decreases s.len(),
{
    if s.len() == 0 {
        0
    } else {
        digits_value(s.drop_last()) * 10 + digit_value(s.last())
    }
}

pub open spec fn pow10(k: nat) -> nat
    decreases k,
{
    if k == 0 {
        1
    } else {
        10 * pow10((k - 1) as nat)
    }
}

pub open spec fn ascii_letter(c: char) -> bool {
    (65 <= (c as u32) && (c as u32) <= 90) || (97 <= (c as u32) && (c as u32) <= 122)
}


/// The index of the first ASCII letter of `s`, or its length if there is none.
pub open spec fn letter_index(s: Seq<char>) -> int
    decreases s.len(),
{
    if s.len() == 0 {
        0
    } else if ascii_letter(s[0]) {
        0
    } else {
        1 + letter_index(s.drop_first())
    }
}

/// What one unit of `u` is in bytes; the units are B, KB, MB, GB and TB, in any case.
pub open spec fn unit_multiplier(u: Seq<char>) -> Option<u64> {
    if u.len() == 1 && (u[0] == 'B' || u[0] == 'b') {
        Some(1)
    } else if u.len() == 2 && (u[1] == 'B' || u[1] == 'b') {
        if u[0] == 'K' || u[0] == 'k' {
            Some(1024)
        } else if u[0] == 'M' || u[0] == 'm' {
            Some(1048576)
        } else if u[0] == 'G' || u[0] == 'g' {
            Some(1073741824)
        } else if u[0] == 'T' || u[0] == 't' {
            Some(1099511627776)
        } else {
            None
        }
    } else {
        None
    }
}

/// `b` is digits, a point at `p`, and digits, with at least one digit in all.
pub open spec fn point_split(b: Seq<char>, p: int) -> bool {
    &&& 0 <= p < b.len()
    &&& b[p] == '.'
    &&& all_digits(b.take(p))
    &&& all_digits(b.skip(p + 1))
    &&& b.len() >= 2
}

/// An unsigned decimal numeral, as its whole and fraction digits.
pub open spec fn unsigned_numeral(b: Seq<char>) -> Option<(Seq<char>, Seq<char>)> {
    if b.len() > 0 && all_digits(b) {
        Some((b, Seq::empty()))
    } else if exists|p: int| point_split(b, p) {
        let p = choose|p: int| point_split(b, p);
        Some((b.take(p), b.skip(p + 1)))
    } else {
        None
    }
}

/// A decimal numeral with an optional sign: whether it is negative, and its
/// whole and fraction digits. These are the numerals that `f64`'s parser takes
/// from a string without letters.
pub open spec fn numeral(s: Seq<char>) -> Option<(bool, Seq<char>, Seq<char>)> {
    let signed = s.len() > 0 && (s[0] == '+' || s[0] == '-');
    let body = if signed {
        s.drop_first()
    } else {
        s
    };
    match unsigned_numeral(body) {
        Some((w, f)) => Some((signed && s[0] == '-', w, f)),
        None => None,
    }
}

/// The numeral with whole digits `w` and fraction digits `f`, times `m`, rounded down.
pub open spec fn floor_product(w: Seq<char>, f: Seq<char>, m: nat) -> nat {
    digits_value(w) * m + (digits_value(f) * m) / pow10(f.len())
}

pub open spec fn saturate(n: nat) -> u64 {
    if n > u64::MAX {
        u64::MAX
    } else {
        n as u64
    }
}

/// `s` with every space character left out.
pub open spec fn without_spaces(s: Seq<char>) -> Seq<char>
    decreases s.len(),
{
    if s.len() == 0 {
        s
    } else if s.last() == ' ' {
        without_spaces(s.drop_last())
    } else {
        without_spaces(s.drop_last()).push(s.last())
    }
}

/// The size that a compact token (no spaces, not blank) denotes: a numeral up to its
/// first letter, then a unit.
pub open spec fn token_size(t: Seq<char>) -> Option<u64> {
    let p = letter_index(t);
    match (numeral(t.take(p)), unit_multiplier(t.skip(p))) {
        (Some((negative, w, f)), Some(m)) => Some(
            if negative {
                0
            } else {
                saturate(floor_product(w, f, m as nat))
            },
        ),
        _ => None,
    }
}

/// The byte count that a size string denotes, if any. Surrounding whitespace is
/// ignored; "0B" and "0" are zero outright; otherwise spaces are dropped and the
/// rest is read as a numeral followed by a unit.
pub open spec fn docker_size(text: Seq<char>) -> Option<u64> {
    let t = trim(text);
    if t == seq!['0', 'B'] || t == seq!['0'] {
        Some(0)
    } else {
        token_size(without_spaces(t))
    }
}

proof fn lemma_letter_index_at(s: Seq<char>, i: int)
    requires
        0 <= i <= s.len(),
        forall|k: int| 0 <= k < i ==> !ascii_letter(#[trigger] s[k]),
        i == s.len() || ascii_letter(s[i]),
    ensures
        letter_index(s) == i,
    decreases i,
{
    if i > 0 {
        let t = s.drop_first();
        assert forall|k: int| 0 <= k < i - 1 implies !ascii_letter(#[trigger] t[k]) by {
            assert(t[k] == s[k + 1]);
        }
        if i < s.len() {
            assert(t[i - 1] == s[i]);
        }
        assert(!ascii_letter(s[0]));
        lemma_letter_index_at(t, i - 1);
    }
}

proof fn lemma_digits_value_concat(a: Seq<char>, b: Seq<char>)
    ensures
        digits_value(a + b) == digits_value(a) * pow10(b.len()) + digits_value(b),
    decreases b.len(),
{
    if b.len() == 0 {
        assert(a + b =~= a);
        assert(pow10(0) == 1);
        assert(digits_value(b) == 0);
    } else {
        let b1 = b.drop_last();
        assert((a + b).drop_last() =~= a + b1);
        assert((a + b).last() == b.last());
        lemma_digits_value_concat(a, b1);
        let x = digits_value(a);
        let p = pow10(b1.len());
        let y = digits_value(b1);
        let d = digit_value(b.last());
        assert(pow10(b.len()) == 10 * p);
        assert(digits_value(b) == y * 10 + d);
        assert(digits_value(a + b) == digits_value(a + b1) * 10 + d);
        assert((x * p + y) * 10 + d == x * (10 * p) + (y * 10 + d)) by (nonlinear_arith);
    }
}

proof fn lemma_pow10_positive(k: nat)
    ensures
        pow10(k) >= 1,
    decreases k,
{
    if k > 0 {
        lemma_pow10_positive((k - 1) as nat);
    }
}

/// One step of long multiplication from the last fraction digit towards the first.
proof fn lemma_fraction_step(d: nat, g: nat, j: nat, m: nat)
    ensures
        (d * m + (g * m) / pow10(j)) / 10 == ((d * pow10(j) + g) * m) / pow10(j + 1),
{
    let p = pow10(j);
    lemma_pow10_positive(j);
    lemma_hoist_over_denominator((g * m) as int, (d * m) as int, p);
    assert((g * m) + (d * m) * p == (d * p + g) * m) by (nonlinear_arith);
    lemma_div_denominator(((d * p + g) * m) as int, p as int, 10);
    assert(pow10(j + 1) == 10 * p);
    assert(p * 10 == 10 * p);
}

/// Whether `c` is an ASCII digit.
fn digit(c: char) -> (r: bool)
    ensures
        r == is_digit(c),
{
    '0' <= c && c <= '9'
}

/// Whether every character of `v` from `lo` up to `hi` is a digit.
fn digits_between(v: &Vec<char>, lo: usize, hi: usize) -> (r: bool)
    requires
        lo <= hi <= v.len(),
    ensures
        r == (forall|k: int| lo <= k < hi ==> is_digit(#[trigger] v@[k])),
{
    let mut i: usize = lo;
    while i < hi
        invariant
            lo <= i <= hi <= v.len(),
            forall|k: int| lo <= k < i ==> is_digit(#[trigger] v@[k]),
        decreases hi - i,
    {
        if !digit(v[i]) {
            return false;
        }
        i = i + 1;
    }
    true
}

/// Splits an unsigned numeral into its whole and fraction digits.
fn unsigned_numeral_parts(b: &Vec<char>) -> (r: Option<(Vec<char>, Vec<char>)>)
    ensures
        match r {
            Some((w, f)) => unsigned_numeral(b@) == Some((w@, f@)),
            None => unsigned_numeral(b@) is None,
        },
{
    let n = b.len();
    let mut p: usize = 0;
    while p < n && b[p] != '.'
        invariant
            p <= n == b.len(),
            forall|k: int| 0 <= k < p ==> b@[k] != '.',
        decreases n - p,
    {
        p = p + 1;
    }
    let ghost s = b@;
    if p == n {
        let ok = n > 0 && digits_between(b, 0, n);
        proof {
            assert forall|q: int| !point_split(s, q) by {
                if 0 <= q < s.len() {
                    assert(s[q] != '.');
                }
            }
        }
        if ok {
            Some((slice_chars(b, 0, n), Vec::new()))
        } else {
            None
        }
    } else {
        let whole_ok = digits_between(b, 0, p);
        let frac_ok = digits_between(b, p + 1, n);
        proof {
            assert(!is_digit(s[p as int]));
            assert(!all_digits(s));
            assert(all_digits(s.take(p as int)) == whole_ok) by {
                if whole_ok {
                    assert forall|i: int| 0 <= i < s.take(p as int).len() implies is_digit(
                        #[trigger] s.take(p as int)[i],
                    ) by {
                        assert(s.take(p as int)[i] == s[i]);
                    }
                } else {
                    let k = choose|k: int| 0 <= k < p && !is_digit(#[trigger] s[k]);
                    assert(s.take(p as int)[k] == s[k]);
                }
            }
            assert(all_digits(s.skip(p + 1)) == frac_ok) by {
                if frac_ok {
                    assert forall|i: int| 0 <= i < s.skip(p + 1).len() implies is_digit(
                        #[trigger] s.skip(p + 1)[i],
                    ) by {
                        assert(s.skip(p + 1)[i] == s[i + p + 1]);
                    }
                } else {
                    let k = choose|k: int| p + 1 <= k < n && !is_digit(#[trigger] s[k]);
                    assert(s.skip(p + 1)[k - p - 1] == s[k]);
                }
            }
            assert forall|q: int| #[trigger] point_split(s, q) implies q == p by {
                if q < p {
                    assert(s[q] != '.');
                } else if q > p {
                    assert(s.take(q)[p as int] == s[p as int]);
                }
            }
        }
        if whole_ok && frac_ok && n >= 2 {
            assert(point_split(s, p as int));
            Some((slice_chars(b, 0, p), slice_chars(b, p + 1, n)))
        } else {
            None
        }
    }
}

/// Splits a numeral into its sign and its whole and fraction digits.
fn numeral_parts(v: &Vec<char>) -> (r: Option<(bool, Vec<char>, Vec<char>)>)
    ensures
        match r {
            Some((negative, w, f)) => numeral(v@) == Some((negative, w@, f@)),
            None => numeral(v@) is None,
        },
{
    let signed = v.len() > 0 && (v[0] == '+' || v[0] == '-');
    let body = if signed {
        slice_chars(v, 1, v.len())
    } else {
        slice_chars(v, 0, v.len())
    };
    assert(v@.subrange(1, v.len() as int) =~= v@.drop_first());
    assert(v@.subrange(0, v.len() as int) =~= v@);
    match unsigned_numeral_parts(&body) {
        Some((w, f)) => Some((signed && v[0] == '-', w, f)),
        None => None,
    }
}

/// The whole number that the digits `w` denote, capped at 2^64.
fn capped_digits_value(w: &Vec<char>) -> (r: u128)
    requires
        all_digits(w@),
    ensures
        r == if digits_value(w@) > 0x1_0000_0000_0000_0000 {
            0x1_0000_0000_0000_0000
        } else {
            digits_value(w@)
        },
{
    let cap: u128 = 0x1_0000_0000_0000_0000;
    let mut acc: u128 = 0;
    let mut i: usize = 0;
    assert(w@.take(0) =~= Seq::<char>::empty());
    while i < w.len()
        invariant
            i <= w.len(),
            all_digits(w@),
            cap == 0x1_0000_0000_0000_0000,
            acc == if digits_value(w@.take(i as int)) > cap {
                cap as nat
            } else {
                digits_value(w@.take(i as int))
            },
        decreases w.len() - i,
    {
        let ghost before = digits_value(w@.take(i as int));
        assert(w@.take(i + 1).drop_last() =~= w@.take(i as int));
        assert(w@.take(i + 1).last() == w@[i as int]);
        assert(is_digit(w@[i as int]));
        let d = (w[i] as u32 - 48) as u128;
        assert(digits_value(w@.take(i + 1)) == before * 10 + d);
        if acc >= cap {
            assert(before * 10 + d >= cap) by (nonlinear_arith)
                requires
                    before >= cap,
                    cap > 0,
            ;
            acc = cap;
        } else {
            acc = acc * 10 + d;
            if acc > cap {
                acc = cap;
            }
        }
        i = i + 1;
    }
    assert(w@.take(w.len() as int) =~= w@);
    acc
}

/// The fraction with digits `f`, times `m`, rounded down, by long multiplication
/// from the last digit to the first.
fn fraction_times(f: &Vec<char>, m: u64) -> (r: u64)
    requires
        all_digits(f@),
        1 <= m <= 1099511627776,
    ensures
        r == (digits_value(f@) * (m as nat)) / pow10(f@.len()),
{
    let n = f.len();
    let mut c: u64 = 0;
    let mut i: usize = n;
    assert(f@.skip(n as int) =~= Seq::<char>::empty());
    while i > 0
        invariant
            i <= n == f.len(),
            all_digits(f@),
            1 <= m <= 1099511627776,
            c <= m,
            c == (digits_value(f@.skip(i as int)) * (m as nat)) / pow10((n - i) as nat),
        decreases i,
    {
        let ghost g = digits_value(f@.skip(i as int));
        let ghost j = (n - i) as nat;
        assert(is_digit(f@[i - 1]));
        let d = (f[i - 1] as u32 - 48) as u64;
        proof {
            let head = seq![f@[i - 1]];
            assert(head + f@.skip(i as int) =~= f@.skip(i - 1));
            lemma_digits_value_concat(head, f@.skip(i as int));
            assert(head.drop_last() =~= Seq::<char>::empty());
            assert(digits_value(head.drop_last()) == 0);
            assert(head.last() == f@[i - 1]);
            assert(digits_value(head) == d);
            lemma_fraction_step(d as nat, g, j, m as nat);
            assert(d * m + c <= 10 * m) by (nonlinear_arith)
                requires
                    d <= 9,
                    c <= m,
            ;
            lemma_div_is_ordered((d * m + c) as int, (10 * m) as int, 10);
            assert((10 * m) / 10 == m as int);
        }
        c = (d * m + c) / 10;
        i = i - 1;
    }
    assert(f@.skip(0) =~= f@);
    c
}

/// What one unit of `u` is in bytes.
fn unit_bytes(u: &Vec<char>) -> (r: Option<u64>)
    ensures
        r == unit_multiplier(u@),
{
    if u.len() == 1 && (u[0] == 'B' || u[0] == 'b') {
        Some(1)
    } else if u.len() == 2 && (u[1] == 'B' || u[1] == 'b') {
        let c = u[0];
        if c == 'K' || c == 'k' {
            Some(1024)
        } else if c == 'M' || c == 'm' {
            Some(1048576)
        } else if c == 'G' || c == 'g' {
            Some(1073741824)
        } else if c == 'T' || c == 't' {
            Some(1099511627776)
        } else {
            None
        }
    } else {
        None
    }
}

fn is_ascii_letter(c: char) -> (r: bool)
    ensures
        r == ascii_letter(c),
{
    ('A' <= c && c <= 'Z') || ('a' <= c && c <= 'z')
}

/// `v` with every space character left out.
fn drop_spaces(v: &Vec<char>) -> (r: Vec<char>)
    ensures
        r@ == without_spaces(v@),
{
    let mut r: Vec<char> = Vec::new();
    let mut i: usize = 0;
    assert(v@.take(0) =~= Seq::<char>::empty());
    while i < v.len()
        invariant
            i <= v.len(),
            r@ == without_spaces(v@.take(i as int)),
        decreases v.len() - i,
    {
        assert(v@.take(i + 1).drop_last() =~= v@.take(i as int));
        if v[i] != ' ' {
            r.push(v[i]);
        }
        i = i + 1;
    }
    assert(v@.take(v.len() as int) =~= v@);
    r
}

/// The size of a compact token: a numeral up to its first letter, then a unit.
fn token_bytes(t: &Vec<char>) -> (r: Option<u64>)
    ensures
        r == token_size(t@),
{
    let mut p: usize = 0;
    while p < t.len() && !is_ascii_letter(t[p])
        invariant
            p <= t.len(),
            forall|k: int| 0 <= k < p ==> !ascii_letter(#[trigger] t@[k]),
        decreases t.len() - p,
    {
        p = p + 1;
    }
    proof {
        lemma_letter_index_at(t@, p as int);
    }
    let number = slice_chars(t, 0, p);
    let unit = slice_chars(t, p, t.len());
    assert(number@ =~= t@.take(p as int));
    assert(unit@ =~= t@.skip(p as int));
    let m = match unit_bytes(&unit) {
        Some(m) => m,
        None => return None,
    };
    match numeral_parts(&number) {
        Some((negative, w, f)) => {
            if negative {
                Some(0)
            } else {
                proof {
                    let b = if number@.len() > 0 && (number@[0] == '+' || number@[0] == '-') {
                        number@.drop_first()
                    } else {
                        number@
                    };
                    if b.len() > 0 && all_digits(b) {
                        assert(f@ =~= Seq::<char>::empty());
                        assert(w@ == b);
                    } else {
                        let q = choose|q: int| point_split(b, q);
                        assert(w@ == b.take(q));
                        assert(f@ == b.skip(q + 1));
                    }
                }
                let whole = capped_digits_value(&w);
                let frac = fraction_times(&f, m);
                assert(whole * m <= 0x1_0000_0000_0000_0000 * 1099511627776) by (nonlinear_arith)
                    requires
                        whole <= 0x1_0000_0000_0000_0000,
                        m <= 1099511627776,
                ;
                let total: u128 = whole * (m as u128) + (frac as u128);
                proof {
                    let cap: nat = 0x1_0000_0000_0000_0000;
                    if digits_value(w@) > cap {
                        assert(digits_value(w@) * m >= digits_value(w@)) by (nonlinear_arith)
                            requires
                                m >= 1,
                        ;
                        assert(whole * m >= cap) by (nonlinear_arith)
                            requires
                                whole == cap,
                                m >= 1,
                        ;
                    }
                }
                if total > u64::MAX as u128 {
                    Some(u64::MAX)
                } else {
                    Some(total as u64)
                }
            }
        },
        None => None,
    }
}

/// Reads a size string such as "1.5MB", "0B" or "512kB" as a byte count; `None`
/// where it is no numeral followed by a known unit.
pub fn parse_docker_size(size_str: &str) -> (r: Option<u64>)
    ensures
        r == docker_size(size_str@),
{
    size_of_chars(&chars_of(size_str))
}

/// The byte count that the characters `v` denote, if any.
pub fn size_of_chars(v: &Vec<char>) -> (r: Option<u64>)
    ensures
        r == docker_size(v@),
{
    let t = trim_chars(v);
    if (t.len() == 2 && t[0] == '0' && t[1] == 'B') || (t.len() == 1 && t[0] == '0') {
        assert(t@ =~= seq!['0', 'B'] || t@ =~= seq!['0']);
        return Some(0);
    }
    proof {
        if t@ == seq!['0', 'B'] {
            assert(t@[0] == '0' && t@[1] == 'B');
        }
        if t@ == seq!['0'] {
            assert(t@[0] == '0');
        }
    }
    let compact = drop_spaces(&t);
    token_bytes(&compact)
}

/// In a tab-separated report, the fourth field (trimmed) of the first row that has
/// at least four fields and whose first field, trimmed, is `label`.
pub open spec fn labelled_cell(rows: Seq<Seq<char>>, label: Seq<char>) -> Option<Seq<char>>
    decreases rows.len(),
{
    if rows.len() == 0 {
        None
    } else {
        let fields = split(rows[0], '\t');
        if fields.len() >= 4 && trim(fields[0]) == label {
            Some(trim(fields[3]))
        } else {
            labelled_cell(rows.drop_first(), label)
        }
    }
}

/// The reclaimable size that a usage report gives on its "Local Volumes" row.
pub open spec fn volume_reclaimable(report: Seq<char>) -> Option<u64> {
    match labelled_cell(lines(report), "Local Volumes"@) {
        Some(cell) => docker_size(cell),
        None => None,
    }
}

/// The fourth field of the first row of `report` labelled `label`.
pub fn report_cell(report: &Vec<char>, label: &str) -> (r: Option<Vec<char>>)
    ensures
        match r {
            Some(c) => labelled_cell(lines(report@), label@) == Some(c@),
            None => labelled_cell(lines(report@), label@) is None,
        },
{
    let rows = lines_of(report);
    let ghost all = lines(report@);
    let mut i: usize = 0;
    assert(all.skip(0) =~= all);
    while i < rows.len()
        invariant
            i <= rows.len(),
            views(rows@) == all,
            all == lines(report@),
            labelled_cell(all, label@) == labelled_cell(all.skip(i as int), label@),
        decreases rows.len() - i,
    {
        let ghost rest = all.skip(i as int);
        assert(all.len() == rows.len());
        assert(rest.len() > 0);
        assert(rest[0] == rows@[i as int]@);
        assert(rest.drop_first() =~= all.skip(i + 1));
        let fields = split_chars(&rows[i], '\t');
        assert(views(fields@) == split(rest[0], '\t'));
        if fields.len() >= 4 {
            let first = trim_chars(&fields[0]);
            assert(first@ == trim(split(rest[0], '\t')[0]));
            if same_chars(&first, label) {
                let cell = trim_chars(&fields[3]);
                assert(cell@ == trim(split(rest[0], '\t')[3]));
                assert(labelled_cell(rest, label@) == Some(cell@));
                return Some(cell);
            }
        }
        i = i + 1;
    }
    None
}

/// Reads the reclaimable size of local volumes from a tab-separated usage report;
/// `None` where no row is labelled "Local Volumes" or its size cannot be read.
pub fn parse_docker_volume_size(df_output: &str) -> (r: Option<u64>)
    ensures
        r == volume_reclaimable(df_output@),
{
    match report_cell(&chars_of(df_output), "Local Volumes") {
        Some(cell) => size_of_chars(&cell),
        None => None,
    }
}

} // verus!
