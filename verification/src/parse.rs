//! Chart-file ingestion: text-format adapters that turn tabulated chart
//! data into [`LoadChart`] values.
//!
//! Two formats are read: comma-separated rows of boom length, radius and
//! capacity, and a manufacturer-style table of sections headed by a boom
//! length.  Rows are grouped into one chart per 0.1 m boom-length key.
//! Numbers are strict unsigned fixed-point decimals (digits, optionally a
//! point and more digits); malformed comma-separated rows are reported with
//! their 1-based line number.

use vstd::prelude::*;
use crate::capacity::{find_key_idx, key_dm, lemma_find_key_scan};
use crate::chart::{chart_wf, count_le, CapacityPoint, LoadChart, MAX_CAPACITY_KG, MAX_RADIUS_MM};
use crate::text::{spec_udec, udec_string};

verus! {

/// A whitespace character of the chart formats: space, tab or carriage
/// return.
pub open spec fn spec_is_ws(c: char) -> bool {
    c == ' ' || c == '\t' || c == '\r'
}

/// A decimal digit.
pub open spec fn spec_is_digit(c: char) -> bool {
    48 <= c as u32 <= 57
}

/// The value of a decimal digit.
pub open spec fn spec_digit_val(c: char) -> int {
    c as u32 - 48
}

/// The pieces completed and the piece in progress after scanning the first
/// `n` characters of `s`, splitting at `sep`.
pub open spec fn spec_split_upto(s: Seq<char>, sep: char, n: int) -> (Seq<Seq<char>>, Seq<char>)
    decreases n,
{
    if n <= 0 {
        (Seq::empty(), Seq::empty())
    } else {
        let prev = spec_split_upto(s, sep, n - 1);
        if s[n - 1] == sep {
            (prev.0.push(prev.1), Seq::empty())
        } else {
            (prev.0, prev.1.push(s[n - 1]))
        }
    }
}

/// `s` split at every occurrence of `sep`; one more piece than separators.
pub open spec fn spec_split(s: Seq<char>, sep: char) -> Seq<Seq<char>> {
    let done = spec_split_upto(s, sep, s.len() as int);
    done.0.push(done.1)
}

/// A line with any trailing carriage return removed.
pub open spec fn spec_strip_cr(l: Seq<char>) -> Seq<char> {
    if l.len() > 0 && l.last() == '\r' {
        l.drop_last()
    } else {
        l
    }
}

/// The lines of a text: pieces split at newlines, with a final empty piece
/// after a trailing newline dropped, and carriage returns stripped.
pub open spec fn spec_lines(s: Seq<char>) -> Seq<Seq<char>> {
    if s.len() == 0 {
        Seq::empty()
    } else {
        let p = spec_split(s, '\n');
        let q = if s.last() == '\n' {
            p.drop_last()
        } else {
            p
        };
        q.map_values(|l: Seq<char>| spec_strip_cr(l))
    }
}

/// How many leading whitespace characters `s` carries.
pub open spec fn spec_ws_prefix(s: Seq<char>) -> int
    decreases s.len(),
{
    if s.len() == 0 || !spec_is_ws(s[0]) {
        0
    } else {
        1 + spec_ws_prefix(s.drop_first())
    }
}

/// How many trailing whitespace characters `s` carries.
pub open spec fn spec_ws_suffix(s: Seq<char>) -> int
    decreases s.len(),
{
    if s.len() == 0 || !spec_is_ws(s.last()) {
        0
    } else {
        1 + spec_ws_suffix(s.drop_last())
    }
}

/// `s` with leading and trailing whitespace removed.
pub open spec fn spec_trim(s: Seq<char>) -> Seq<char> {
    if spec_ws_prefix(s) == s.len() {
        Seq::empty()
    } else {
        s.subrange(spec_ws_prefix(s), s.len() - spec_ws_suffix(s))
    }
}

/// A whitespace prefix count is witnessed by a scan that stopped at the
/// first non-whitespace character.
pub proof fn lemma_ws_prefix_scan(s: Seq<char>, i: int)
    requires
        0 <= i <= s.len(),
        forall|j: int| 0 <= j < i ==> spec_is_ws(#[trigger] s[j]),
        i < s.len() ==> !spec_is_ws(s[i]),
    ensures
        spec_ws_prefix(s) == i,
    decreases s.len(),
{
    if s.len() == 0 {
    } else {
        let t = s.drop_first();
        assert(forall|j: int| 0 <= j < t.len() ==> t[j] == s[j + 1]);
        if spec_is_ws(s[0]) {
            assert(i >= 1);
            lemma_ws_prefix_scan(t, i - 1);
        } else {
            assert(i == 0);
        }
    }
}

/// A whitespace suffix count is witnessed by a scan from the back that
/// stopped at the last non-whitespace character.
pub proof fn lemma_ws_suffix_scan(s: Seq<char>, i: int)
    requires
        0 <= i <= s.len(),
        forall|j: int| s.len() - i <= j < s.len() ==> spec_is_ws(#[trigger] s[j]),
        i < s.len() ==> !spec_is_ws(s[s.len() - i - 1]),
    ensures
        spec_ws_suffix(s) == i,
    decreases s.len(),
{
    if s.len() == 0 {
    } else {
        let t = s.drop_last();
        assert(forall|j: int| 0 <= j < t.len() ==> t[j] == s[j]);
        if spec_is_ws(s.last()) {
            assert(i >= 1);
            lemma_ws_suffix_scan(t, i - 1);
        } else {
            assert(i == 0);
        }
    }
}

/// Split a text into its lines.
pub fn split_lines(s: &str) -> (r: Vec<String>)
    ensures
        r@.len() == spec_lines(s@).len(),
        forall|i: int| 0 <= i < r@.len() ==> (#[trigger] r@[i])@ == spec_lines(s@)[i],
{
    let n = s.unicode_len();
    let mut pieces: Vec<String> = Vec::new();
    let mut start: usize = 0;
    let mut i: usize = 0;
    while i < n
        invariant
            0 <= start <= i <= n,
            n == s@.len(),
            pieces@.len() == spec_split_upto(s@, '\n', i as int).0.len(),
            forall|k: int| 0 <= k < pieces@.len() ==> (#[trigger] pieces@[k])@
                == spec_split_upto(s@, '\n', i as int).0[k],
            spec_split_upto(s@, '\n', i as int).1 =~= s@.subrange(start as int, i as int),
        decreases n - i,
    {
        let c = s.get_char(i);
        if c == '\n' {
            let piece = substring_string(s, start, i);
            pieces.push(piece);
            start = i + 1;
            proof {
                assert(spec_split_upto(s@, '\n', i as int + 1).1 =~= s@.subrange(
                    start as int, i as int + 1));
            }
        } else {
            proof {
                assert(spec_split_upto(s@, '\n', i as int + 1).1 =~= s@.subrange(start as int,
                    i as int + 1));
            }
        }
        i = i + 1;
    }
    if n > 0 && s.get_char(n - 1) != '\n' {
        let piece = substring_string(s, start, n);
        pieces.push(piece);
        proof {
            assert(piece@ =~= spec_split(s@, '\n').last());
            assert(pieces@.len() == spec_pieces_model(s@).len());
            assert(forall|k: int| 0 <= k < pieces@.len() ==> (#[trigger] pieces@[k])@
                == spec_pieces_model(s@)[k]);
        }
    } else {
        proof {
            if n > 0 {
                assert(pieces@.len() == spec_pieces_model(s@).len());
                assert(forall|k: int| 0 <= k < pieces@.len() ==> (#[trigger] pieces@[k])@
                    == spec_pieces_model(s@)[k]);
            }
        }
    }
    // strip carriage returns
    let m = pieces.len();
    let mut out: Vec<String> = Vec::new();
    let mut j: usize = 0;
    while j < m
        invariant
            0 <= j <= m,
            m == pieces@.len(),
            out@.len() == j,
            forall|k: int| 0 <= k < m ==> (#[trigger] pieces@[k])@ == spec_pieces_model(s@)[k],
            forall|k: int| 0 <= k < j ==> (#[trigger] out@[k])@ == spec_strip_cr(
                spec_pieces_model(s@)[k]),
            m == spec_pieces_model(s@).len(),
        decreases m - j,
    {
        let line = &pieces[j];
        let len = line.as_str().unicode_len();
        if len > 0 && line.as_str().get_char(len - 1) == '\r' {
            let stripped = substring_string(line.as_str(), 0, len - 1);
            proof {
                assert(stripped@ =~= spec_strip_cr(pieces@[j as int]@));
            }
            out.push(stripped);
        } else {
            let copy = clone_str(line);
            proof {
                assert(copy@ =~= spec_strip_cr(pieces@[j as int]@));
            }
            out.push(copy);
        }
        j = j + 1;
    }
    proof {
        assert(spec_lines(s@) =~= spec_pieces_model(s@).map_values(
            |l: Seq<char>| spec_strip_cr(l)));
        assert(forall|k: int| 0 <= k < out@.len() ==> (#[trigger] out@[k])@ == spec_lines(
            s@)[k]);
    }
    out
}

/// The line pieces of a text before carriage-return stripping.
pub open spec fn spec_pieces_model(s: Seq<char>) -> Seq<Seq<char>> {
    if s.len() == 0 {
        Seq::empty()
    } else {
        let p = spec_split(s, '\n');
        if s.last() == '\n' {
            p.drop_last()
        } else {
            p
        }
    }
}

/// The substring of `s` from `from` to `to`, as an owned string.
fn substring_string(s: &str, from: usize, to: usize) -> (r: String)
    requires
        from <= to <= s@.len(),
    ensures
        r@ == s@.subrange(from as int, to as int),
{
    let sub = s.substring_char(from, to);
    String::from_str(sub)
}

/// Clone a string, keeping its view.
fn clone_str(s: &String) -> (r: String)
    ensures
        r@ == s@,
{
    String::from_str(s.as_str())
}

/// Trim leading and trailing whitespace from a string.
pub fn trim_string(s: &str) -> (r: String)
    ensures
        r@ == spec_trim(s@),
{
    let n = s.unicode_len();
    let mut a: usize = 0;
    loop
        invariant
            0 <= a <= n,
            n == s@.len(),
            forall|j: int| 0 <= j < a ==> spec_is_ws(#[trigger] s@[j]),
        ensures
            0 <= a <= n,
            forall|j: int| 0 <= j < a ==> spec_is_ws(#[trigger] s@[j]),
            a == n || !spec_is_ws(s@[a as int]),
        decreases n - a,
    {
        if a == n {
            break;
        }
        let c = s.get_char(a);
        if !(c == ' ' || c == '\t' || c == '\r') {
            break;
        }
        a = a + 1;
    }
    proof {
        lemma_ws_prefix_scan(s@, a as int);
    }
    if a == n {
        return String::new();
    }
    let mut b: usize = 0;
    loop
        invariant
            0 <= b <= n,
            n == s@.len(),
            forall|j: int| n - b <= j < n ==> spec_is_ws(#[trigger] s@[j]),
        ensures
            0 <= b <= n,
            forall|j: int| n - b <= j < n ==> spec_is_ws(#[trigger] s@[j]),
            b == n || !spec_is_ws(s@[n - b - 1]),
        decreases n - b,
    {
        if b == n {
            break;
        }
        let c = s.get_char(n - b - 1);
        if !(c == ' ' || c == '\t' || c == '\r') {
            break;
        }
        b = b + 1;
    }
    proof {
        lemma_ws_suffix_scan(s@, b as int);
        assert(a + b < n) by {
            if a + b >= n {
                assert(spec_is_ws(s@[a as int]));
            }
        };
    }
    substring_string(s, a, n - b)
}

/// The index of the first decimal point in `s`, or the length if none.
pub open spec fn spec_dot_idx(s: Seq<char>) -> int
    decreases s.len(),
{
    if s.len() == 0 {
        0
    } else if s[0] == '.' {
        0
    } else {
        1 + spec_dot_idx(s.drop_first())
    }
}

/// The dot index never exceeds the sequence's length.
pub proof fn lemma_dot_idx_range(s: Seq<char>)
    ensures
        0 <= spec_dot_idx(s) <= s.len(),
    decreases s.len(),
{
    if s.len() > 0 && s[0] != '.' {
        lemma_dot_idx_range(s.drop_first());
    }
}

/// A dot index is witnessed by a scan that stopped at the first point.
pub proof fn lemma_dot_scan(s: Seq<char>, i: int)
    requires
        0 <= i <= s.len(),
        forall|j: int| 0 <= j < i ==> (#[trigger] s[j]) != '.',
        i < s.len() ==> s[i] == '.',
    ensures
        spec_dot_idx(s) == i,
    decreases s.len(),
{
    if s.len() == 0 {
    } else {
        let t = s.drop_first();
        assert(forall|j: int| 0 <= j < t.len() ==> t[j] == s[j + 1]);
        if s[0] == '.' {
            assert(i == 0);
        } else {
            lemma_dot_scan(t, i - 1);
        }
    }
}

/// The value of a sequence of decimal digits, most significant first.
pub open spec fn spec_digits_val(s: Seq<char>) -> int
    decreases s.len(),
{
    if s.len() == 0 {
        0
    } else {
        spec_digits_val(s.drop_last()) * 10 + spec_digit_val(s.last())
    }
}

/// A digit sequence's value is nonnegative.
pub proof fn lemma_digits_val_nonneg(s: Seq<char>)
    requires
        forall|i: int| 0 <= i < s.len() ==> spec_is_digit(#[trigger] s[i]),
    ensures
        spec_digits_val(s) >= 0,
    decreases s.len(),
{
    if s.len() > 0 {
        let t = s.drop_last();
        assert(forall|i: int| 0 <= i < t.len() ==> t[i] == s[i]);
        lemma_digits_val_nonneg(t);
        assert(spec_digits_val(t) * 10 >= 0) by (nonlinear_arith)
            requires spec_digits_val(t) >= 0;
    }
}

/// A digit sequence's value never shrinks as the sequence grows.
pub proof fn lemma_digits_val_mono(s: Seq<char>, i: int, j: int)
    requires
        0 <= i <= j <= s.len(),
        forall|k: int| 0 <= k < s.len() ==> spec_is_digit(#[trigger] s[k]),
    ensures
        spec_digits_val(s.take(i)) <= spec_digits_val(s.take(j)),
    decreases j - i,
{
    if i < j {
        lemma_digits_val_mono(s, i, j - 1);
        let p = s.take(j);
        assert(p.drop_last() =~= s.take(j - 1));
        assert(forall|k: int| 0 <= k < p.len() ==> p[k] == s[k]);
        lemma_digits_val_nonneg(s.take(j - 1));
        assert(spec_digits_val(s.take(j - 1)) * 10 >= spec_digits_val(s.take(j - 1)))
            by (nonlinear_arith)
            requires spec_digits_val(s.take(j - 1)) >= 0;
    }
}

/// A well-shaped fixed-point token: a nonempty run of digits, optionally
/// followed by a point and more digits, with the whole part at most `limit`.
pub open spec fn spec_token_ok(s: Seq<char>, limit: int) -> bool {
    let d = spec_dot_idx(s);
    &&& 1 <= d
    &&& (forall|i: int| 0 <= i < d ==> spec_is_digit(#[trigger] s[i]))
    &&& (forall|i: int| d < i < s.len() ==> spec_is_digit(#[trigger] s[i]))
    &&& spec_digits_val(s.take(d)) <= limit
}

/// The token's value scaled by one thousand: the whole part in thousandths
/// plus the first three fraction digits.
pub open spec fn spec_token_milli(s: Seq<char>) -> int {
    let d = spec_dot_idx(s);
    let f0: int = if d + 1 < s.len() {
        spec_digit_val(s[d + 1]) * 100
    } else {
        0
    };
    let f1: int = if d + 2 < s.len() {
        spec_digit_val(s[d + 2]) * 10
    } else {
        0
    };
    let f2: int = if d + 3 < s.len() {
        spec_digit_val(s[d + 3])
    } else {
        0
    };
    spec_digits_val(s.take(d)) * 1000 + f0 + f1 + f2
}

/// The token's whole part, the fraction truncated.
pub open spec fn spec_token_unit(s: Seq<char>) -> int {
    spec_digits_val(s.take(spec_dot_idx(s)))
}

/// Parse a fixed-point token into thousandths (millimetres from metres).
/// `Some` if and only if the token is well shaped with a whole part of at
/// most 999 999.
pub fn parse_token_milli(s: &str) -> (r: Option<i64>)
    ensures
        r is Some <==> spec_token_ok(s@, 999_999),
        r is Some ==> r->0 == spec_token_milli(s@) && 0 <= r->0 <= 999_999_999,
{
    match parse_token_parts(s, 999_999) {
        Some(t) => {
            proof {
                let d = spec_dot_idx(s@);
                lemma_dot_idx_range(s@);
                assert(forall|k: int| 0 <= k < d ==> s@.take(d)[k] == s@[k]);
                lemma_digits_val_nonneg(s@.take(d));
            }
            Some(t.0 * 1000 + t.1 * 100 + t.2 * 10 + t.3)
        },
        None => None,
    }
}

/// Parse a fixed-point token into whole units (kilograms), truncating any
/// fraction.  `Some` if and only if the token is well shaped with a whole
/// part of at most 1 000 000 000.
pub fn parse_token_unit(s: &str) -> (r: Option<i64>)
    ensures
        r is Some <==> spec_token_ok(s@, 1_000_000_000),
        r is Some ==> r->0 == spec_token_unit(s@) && 0 <= r->0 <= 1_000_000_000,
{
    match parse_token_parts(s, 1_000_000_000) {
        Some(t) => Some(t.0),
        None => None,
    }
}

/// Parse a token into its whole part and first three fraction digits.
fn parse_token_parts(s: &str, limit: i64) -> (r: Option<(i64, i64, i64, i64)>)
    requires
        0 < limit <= 1_000_000_000,
    ensures
        r is Some <==> spec_token_ok(s@, limit as int),
        r is Some ==> ({
            let d = spec_dot_idx(s@);
            let t = r->0;
            &&& t.0 == spec_digits_val(s@.take(d))
            &&& 0 <= t.0 <= limit
            &&& t.1 == (if d + 1 < s@.len() { spec_digit_val(s@[d + 1]) } else { 0 })
            &&& t.2 == (if d + 2 < s@.len() { spec_digit_val(s@[d + 2]) } else { 0 })
            &&& t.3 == (if d + 3 < s@.len() { spec_digit_val(s@[d + 3]) } else { 0 })
            &&& 0 <= t.1 <= 9 && 0 <= t.2 <= 9 && 0 <= t.3 <= 9
        }),
{
    let n = s.unicode_len();
    // find the decimal point
    let mut d: usize = 0;
    loop
        invariant
            0 <= d <= n,
            n == s@.len(),
            forall|j: int| 0 <= j < d ==> (#[trigger] s@[j]) != '.',
        ensures
            0 <= d <= n,
            forall|j: int| 0 <= j < d ==> (#[trigger] s@[j]) != '.',
            d == n || s@[d as int] == '.',
        decreases n - d,
    {
        if d == n {
            break;
        }
        if s.get_char(d) == '.' {
            break;
        }
        d = d + 1;
    }
    proof {
        lemma_dot_scan(s@, d as int);
    }
    if d == 0 {
        return None;
    }
    // whole part: digits, bounded by the limit
    let mut acc: i64 = 0;
    let mut i: usize = 0;
    while i < d
        invariant
            0 <= i <= d <= n,
            n == s@.len(),
            spec_dot_idx(s@) == d as int,
            0 < limit <= 1_000_000_000,
            forall|j: int| 0 <= j < i ==> spec_is_digit(#[trigger] s@[j]),
            acc == spec_digits_val(s@.take(i as int)),
            0 <= acc <= limit,
        decreases d - i,
    {
        let c = s.get_char(i);
        let cv = c as u32;
        if !(48 <= cv && cv <= 57) {
            proof {
                assert(!spec_is_digit(s@[i as int]));
            }
            return None;
        }
        let dv: i64 = (cv - 48) as i64;
        let next: i64 = acc * 10 + dv;
        proof {
            assert(s@.take(i as int + 1).drop_last() =~= s@.take(i as int));
        }
        if next > limit {
            proof {
                assert(spec_digits_val(s@.take(i as int + 1)) > limit);
                if spec_token_ok(s@, limit as int) {
                    assert(forall|k: int| 0 <= k < d ==> s@.take(d as int)[k] == s@[k]);
                    lemma_digits_val_mono(s@.take(d as int), i as int + 1, d as int);
                    assert(s@.take(d as int).take(i as int + 1) =~= s@.take(i as int + 1));
                    assert(s@.take(d as int).take(d as int) =~= s@.take(d as int));
                }
            }
            return None;
        }
        acc = next;
        i = i + 1;
    }
    // fraction digits, all checked, first three kept
    let mut f0: i64 = 0;
    let mut f1: i64 = 0;
    let mut f2: i64 = 0;
    if d < n {
        let mut j: usize = d + 1;
        while j < n
            invariant
                d + 1 <= j <= n,
                n == s@.len(),
                d < n,
                spec_dot_idx(s@) == d as int,
                forall|k: int| d < k < j ==> spec_is_digit(#[trigger] s@[k]),
            decreases n - j,
        {
            let c = s.get_char(j);
            let cv = c as u32;
            if !(48 <= cv && cv <= 57) {
                proof {
                    assert(!spec_is_digit(s@[j as int]));
                }
                return None;
            }
            j = j + 1;
        }
        let rem = n - (d + 1);
        if rem >= 1 {
            f0 = ((s.get_char(d + 1) as u32) - 48) as i64;
        }
        if rem >= 2 {
            f1 = ((s.get_char(d + 2) as u32) - 48) as i64;
        }
        if rem >= 3 {
            f2 = ((s.get_char(d + 3) as u32) - 48) as i64;
        }
    }
    Some((acc, f0, f1, f2))
}

/// Split a string at every separator; one more piece than separators.
pub fn split_fields(s: &str, sep: char) -> (r: Vec<String>)
    ensures
        r@.len() == spec_split(s@, sep).len(),
        forall|i: int| 0 <= i < r@.len() ==> (#[trigger] r@[i])@ == spec_split(s@, sep)[i],
{
    let n = s.unicode_len();
    let mut pieces: Vec<String> = Vec::new();
    let mut start: usize = 0;
    let mut i: usize = 0;
    while i < n
        invariant
            0 <= start <= i <= n,
            n == s@.len(),
            pieces@.len() == spec_split_upto(s@, sep, i as int).0.len(),
            forall|k: int| 0 <= k < pieces@.len() ==> (#[trigger] pieces@[k])@
                == spec_split_upto(s@, sep, i as int).0[k],
            spec_split_upto(s@, sep, i as int).1 =~= s@.subrange(start as int, i as int),
        decreases n - i,
    {
        let c = s.get_char(i);
        if c == sep {
            let piece = substring_string(s, start, i);
            pieces.push(piece);
            start = i + 1;
            proof {
                assert(spec_split_upto(s@, sep, i as int + 1).1 =~= s@.subrange(start as int,
                    i as int + 1));
            }
        } else {
            proof {
                assert(spec_split_upto(s@, sep, i as int + 1).1 =~= s@.subrange(start as int,
                    i as int + 1));
            }
        }
        i = i + 1;
    }
    let last = substring_string(s, start, n);
    pieces.push(last);
    pieces
}

/// A line that holds only whitespace.
pub open spec fn spec_blank(l: Seq<char>) -> bool {
    spec_trim(l).len() == 0
}

/// A well-formed comma-separated data row: at least three fields whose first
/// three, trimmed, spell a boom length, a radius and a capacity.
pub open spec fn spec_csv_line_ok(l: Seq<char>) -> bool {
    let fs = spec_split(l, ',');
    &&& fs.len() >= 3
    &&& spec_token_ok(spec_trim(fs[0]), 999_999)
    &&& spec_token_ok(spec_trim(fs[1]), 999_999)
    &&& spec_token_ok(spec_trim(fs[2]), 1_000_000_000)
}

/// A well-formed comma-separated chart text: every line after the header
/// that is not blank is a well-formed data row.
pub open spec fn spec_csv_wf(s: Seq<char>) -> bool {
    let lines = spec_lines(s);
    forall|i: int| 1 <= i < lines.len() ==> spec_blank(#[trigger] lines[i]) || spec_csv_line_ok(
        lines[i])
}

/// The message reported for a malformed data row, with its 1-based line
/// number: the first failing check of column count, boom length, radius and
/// capacity names itself and the offending text.
pub open spec fn spec_csv_line_err(l: Seq<char>, lineno: int) -> Seq<char> {
    let fs = spec_split(l, ',');
    if fs.len() < 3 {
        "Line "@ + spec_udec(lineno) + ": Expected 3 columns, got "@ + spec_udec(
            fs.len() as int)
    } else if !spec_token_ok(spec_trim(fs[0]), 999_999) {
        "Line "@ + spec_udec(lineno) + ": Invalid boom length '"@ + spec_trim(fs[0]) + "'"@
    } else if !spec_token_ok(spec_trim(fs[1]), 999_999) {
        "Line "@ + spec_udec(lineno) + ": Invalid radius '"@ + spec_trim(fs[1]) + "'"@
    } else {
        "Line "@ + spec_udec(lineno) + ": Invalid capacity '"@ + spec_trim(fs[2]) + "'"@
    }
}


/// The parsed triples of the non-blank data rows after the header, in
/// order: boom length, radius and capacity.
pub open spec fn spec_csv_rows(lines: Seq<Seq<char>>, n: int) -> Seq<(int, int, int)>
    decreases n,
{
    if n <= 1 {
        Seq::empty()
    } else {
        let prev = spec_csv_rows(lines, n - 1);
        let l = lines[n - 1];
        if spec_blank(l) {
            prev
        } else {
            let fs = spec_split(l, ',');
            prev.push((spec_token_milli(spec_trim(fs[0])), spec_token_milli(spec_trim(fs[1])),
                spec_token_unit(spec_trim(fs[2]))))
        }
    }
}

/// The first group carrying the 0.1 m key, if any.
pub open spec fn spec_group_idx(g: Seq<(int, Seq<CapacityPoint>)>, key: int) -> Option<int>
    decreases g.len(),
{
    if g.len() == 0 {
        None
    } else if key_dm(g[0].0) == key {
        Some(0)
    } else {
        match spec_group_idx(g.drop_first(), key) {
            None => None,
            Some(i) => Some(i + 1),
        }
    }
}

/// The parsed rows grouped into one chart per 0.1 m boom-length key, each
/// chart's points held sorted by radius with later equal radii after
/// earlier ones; the chart keeps the boom length of its first row.
pub open spec fn spec_csv_groups(rows: Seq<(int, int, int)>, n: int) -> Seq<
    (int, Seq<CapacityPoint>),
>
    decreases n,
{
    if n <= 0 {
        Seq::empty()
    } else {
        let g = spec_csv_groups(rows, n - 1);
        let row = rows[n - 1];
        let p = CapacityPoint { radius_mm: row.1 as i64, capacity_kg: row.2 as i64 };
        match spec_group_idx(g, key_dm(row.0)) {
            Some(k) => g.update(k, (g[k].0, g[k].1.insert(count_le(g[k].1, row.1), p))),
            None => g.push((row.0, seq![p])),
        }
    }
}

/// The grouped charts a well-formed comma-separated text parses to.
pub open spec fn spec_csv_charts(s: Seq<char>) -> Seq<(int, Seq<CapacityPoint>)> {
    let lines = spec_lines(s);
    let rows = spec_csv_rows(lines, lines.len() as int);
    spec_csv_groups(rows, rows.len() as int)
}

/// A chart list realizes a group list when they agree pointwise on boom
/// lengths and points.
pub open spec fn spec_charts_match(
    charts: Seq<LoadChart>,
    g: Seq<(int, Seq<CapacityPoint>)>,
) -> bool {
    &&& charts.len() == g.len()
    &&& forall|i: int| 0 <= i < g.len() ==> (#[trigger] charts[i]).boom_length_mm == g[i].0
        && charts[i].points@ == g[i].1
}

/// A found group index is in range and carries the key.
proof fn lemma_group_idx_range(g: Seq<(int, Seq<CapacityPoint>)>, key: int)
    ensures
        match spec_group_idx(g, key) {
            Some(i) => 0 <= i < g.len() && key_dm(g[i].0) == key,
            None => forall|i: int| 0 <= i < g.len() ==> key_dm((#[trigger] g[i]).0) != key,
        },
    decreases g.len(),
{
    if g.len() > 0 {
        let t = g.drop_first();
        lemma_group_idx_range(t, key);
        assert(forall|i: int| 0 <= i < t.len() ==> t[i] == g[i + 1]);
        if key_dm(g[0].0) != key && spec_group_idx(t, key) is None {
            assert forall|i: int| 1 <= i < g.len() implies key_dm((#[trigger] g[i]).0) != key by {
                assert(t[i - 1] == g[i]);
                assert(key_dm(t[i - 1].0) != key);
            };
        }
    }
}

/// Pointwise-matching charts find the same first key index as their groups.
proof fn lemma_group_find_agree(
    g: Seq<(int, Seq<CapacityPoint>)>,
    charts: Seq<LoadChart>,
    key: int,
)
    requires
        charts.len() == g.len(),
        forall|i: int| 0 <= i < g.len() ==> (#[trigger] charts[i]).boom_length_mm == g[i].0,
    ensures
        spec_group_idx(g, key) == find_key_idx(charts, key),
    decreases g.len(),
{
    if g.len() > 0 {
        let gt = g.drop_first();
        let ct = charts.drop_first();
        assert(forall|i: int| 0 <= i < gt.len() ==> gt[i] == g[i + 1] && #[trigger] ct[i]
            == charts[i + 1]);
        lemma_group_find_agree(gt, ct, key);
    }
}

/// Load chart parser for the comma-separated and manufacturer table
/// formats.
pub struct LoadChartParser;

impl LoadChartParser {
    /// Parse a comma-separated chart text: the header row is ignored, each
    /// following non-blank row is boom length, radius and capacity, and
    /// rows are grouped into one chart per 0.1 m boom-length key.
    ///
    /// Succeeds if and only if every data row is well formed
    /// ([`spec_csv_wf`]); a malformed row is reported with its 1-based line
    /// number ([`spec_csv_line_err`]), and the first bad row decides.
    pub fn parse_csv(csv_data: &str) -> (r: Result<Vec<LoadChart>, String>)
        ensures
            r is Ok <==> spec_csv_wf(csv_data@),
            r is Ok ==> spec_charts_match(r->Ok_0@, spec_csv_charts(csv_data@)),
            r is Ok ==> forall|i: int| 0 <= i < r->Ok_0@.len() ==> chart_wf(
                #[trigger] r->Ok_0@[i]),
            r is Ok ==> forall|i: int, j: int| 0 <= i < j < r->Ok_0@.len() ==> key_dm(
                r->Ok_0@[i].boom_length_mm as int) != key_dm(r->Ok_0@[j].boom_length_mm as int),
            r is Err ==> ({
                let lines = spec_lines(csv_data@);
                exists|i: int|
                    1 <= i < lines.len() && !spec_blank(#[trigger] lines[i]) && !spec_csv_line_ok(
                        lines[i]) && (forall|j: int|
                        1 <= j < i ==> spec_blank(#[trigger] lines[j]) || spec_csv_line_ok(
                            lines[j])) && r->Err_0@ == spec_csv_line_err(lines[i], i + 1)
            }),
    {
        let lines = split_lines(csv_data);
        let m = lines.len();
        let mut charts: Vec<LoadChart> = Vec::new();
        let mut i: usize = 1;
        while i < m
            invariant
                1 <= i <= m || (m == 0 && i == 1),
                m == lines@.len(),
                m == spec_lines(csv_data@).len(),
                forall|k: int| 0 <= k < m ==> (#[trigger] lines@[k])@ == spec_lines(
                    csv_data@)[k],
                forall|j: int| 1 <= j < i ==> spec_blank(#[trigger] spec_lines(csv_data@)[j])
                    || spec_csv_line_ok(spec_lines(csv_data@)[j]),
                forall|k: int| 0 <= k < charts@.len() ==> chart_wf(#[trigger] charts@[k]),
                forall|k: int, l: int| 0 <= k < l < charts@.len() ==> key_dm(
                    charts@[k].boom_length_mm as int) != key_dm(charts@[l].boom_length_mm as int),
                spec_charts_match(charts@, spec_csv_groups(
                    spec_csv_rows(spec_lines(csv_data@), i as int),
                    spec_csv_rows(spec_lines(csv_data@), i as int).len() as int)),
            decreases m - i,
        {
            let line = &lines[i];
            let trimmed = trim_string(line.as_str());
            if trimmed.as_str().unicode_len() > 0 {
                let fields = split_fields(line.as_str(), ',');
                if fields.len() < 3 {
                    let mut msg = String::from_str("Line ");
                    msg.append(udec_string((i + 1) as u64).as_str());
                    msg.append(": Expected 3 columns, got ");
                    msg.append(udec_string(fields.len() as u64).as_str());
                    proof {
                        assert(msg@ =~= spec_csv_line_err(spec_lines(csv_data@)[i as int],
                            i as int + 1));
                    }
                    return Err(msg);
                }
                let boom_text = trim_string(fields[0].as_str());
                let boom = match parse_token_milli(boom_text.as_str()) {
                    Some(v) => v,
                    None => {
                        let mut msg = String::from_str("Line ");
                        msg.append(udec_string((i + 1) as u64).as_str());
                        msg.append(": Invalid boom length '");
                        msg.append(boom_text.as_str());
                        msg.append("'");
                        proof {
                            assert(msg@ =~= spec_csv_line_err(spec_lines(csv_data@)[i as int],
                                i as int + 1));
                        }
                        return Err(msg);
                    },
                };
                let radius_text = trim_string(fields[1].as_str());
                let radius = match parse_token_milli(radius_text.as_str()) {
                    Some(v) => v,
                    None => {
                        let mut msg = String::from_str("Line ");
                        msg.append(udec_string((i + 1) as u64).as_str());
                        msg.append(": Invalid radius '");
                        msg.append(radius_text.as_str());
                        msg.append("'");
                        proof {
                            assert(msg@ =~= spec_csv_line_err(spec_lines(csv_data@)[i as int],
                                i as int + 1));
                        }
                        return Err(msg);
                    },
                };
                let capacity_text = trim_string(fields[2].as_str());
                let capacity = match parse_token_unit(capacity_text.as_str()) {
                    Some(v) => v,
                    None => {
                        let mut msg = String::from_str("Line ");
                        msg.append(udec_string((i + 1) as u64).as_str());
                        msg.append(": Invalid capacity '");
                        msg.append(capacity_text.as_str());
                        msg.append("'");
                        proof {
                            assert(msg@ =~= spec_csv_line_err(spec_lines(csv_data@)[i as int],
                                i as int + 1));
                        }
                        return Err(msg);
                    },
                };
                proof {
                    let lns0 = spec_lines(csv_data@);
                    assert(lines@[i as int]@ == lns0[i as int]);
                    assert(trimmed@ == spec_trim(lns0[i as int]));
                    assert(!spec_blank(lns0[i as int]));
                    assert(fields@[0]@ == spec_split(lns0[i as int], ',')[0]);
                    assert(fields@[1]@ == spec_split(lns0[i as int], ',')[1]);
                    assert(fields@[2]@ == spec_split(lns0[i as int], ',')[2]);
                    assert(boom_text@ == spec_trim(spec_split(lns0[i as int], ',')[0]));
                    assert(radius_text@ == spec_trim(spec_split(lns0[i as int], ',')[1]));
                    assert(capacity_text@ == spec_trim(spec_split(lns0[i as int], ',')[2]));
                    lemma_csv_step(csv_data@, i as int, boom as int, radius as int,
                        capacity as int);
                    let lns = spec_lines(csv_data@);
                    let rows_next = spec_csv_rows(lns, i as int + 1);
                    let g = spec_csv_groups(spec_csv_rows(lns, i as int),
                        spec_csv_rows(lns, i as int).len() as int);
                    lemma_group_find_agree(g, charts@, key_dm(boom as int));
                    lemma_group_idx_range(g, key_dm(boom as int));
                }
                let ghost g_before = spec_csv_groups(
                    spec_csv_rows(spec_lines(csv_data@), i as int),
                    spec_csv_rows(spec_lines(csv_data@), i as int).len() as int);
                add_grouped_point(&mut charts, boom, radius, capacity);
                proof {
                    lemma_csv_group_step(charts@, g_before, boom as int, radius as int,
                        capacity as int, spec_lines(csv_data@), i as int);
                }
            }
            i = i + 1;
        }
        Ok(charts)
    }
}

/// Add one parsed row to the chart whose 0.1 m key matches the boom length,
/// creating the chart on first sight of its key.
fn add_grouped_point(charts: &mut Vec<LoadChart>, boom_mm: i64, radius_mm: i64, capacity_kg: i64)
    requires
        0 <= boom_mm <= MAX_RADIUS_MM,
        0 <= radius_mm <= MAX_RADIUS_MM,
        0 <= capacity_kg <= MAX_CAPACITY_KG,
        forall|k: int| 0 <= k < old(charts)@.len() ==> chart_wf(#[trigger] old(charts)@[k]),
        forall|k: int, l: int| 0 <= k < l < old(charts)@.len() ==> key_dm(
            old(charts)@[k].boom_length_mm as int) != key_dm(
            old(charts)@[l].boom_length_mm as int),
    ensures
        forall|k: int| 0 <= k < final(charts)@.len() ==> chart_wf(#[trigger] final(charts)@[k]),
        forall|k: int, l: int| 0 <= k < l < final(charts)@.len() ==> key_dm(
            final(charts)@[k].boom_length_mm as int) != key_dm(
            final(charts)@[l].boom_length_mm as int),
        match find_key_idx(old(charts)@, key_dm(boom_mm as int)) {
            Some(k) => final(charts)@.len() == old(charts)@.len() && (forall|j: int|
                0 <= j < old(charts)@.len() && j != k ==> #[trigger] final(charts)@[j] == old(
                charts)@[j]) && final(charts)@[k].boom_length_mm == old(
                charts)@[k].boom_length_mm && final(charts)@[k].points@ == old(
                charts)@[k].points@.insert(
                count_le(old(charts)@[k].points@, radius_mm as int),
                (CapacityPoint { radius_mm, capacity_kg }),
            ),
            None => final(charts)@.len() == old(charts)@.len() + 1 && (forall|j: int|
                0 <= j < old(charts)@.len() ==> #[trigger] final(charts)@[j] == old(
                charts)@[j]) && final(charts)@[old(charts)@.len() as int].boom_length_mm
                == boom_mm && final(charts)@[old(charts)@.len() as int].points@ == seq![
                (CapacityPoint { radius_mm, capacity_kg }),
            ],
        },
{
    let key = crate::capacity::chart_key(boom_mm);
    let n = charts.len();
    let mut k: usize = 0;
    loop
        invariant
            0 <= k <= n,
            n == charts@.len(),
            charts == old(charts),
            key == key_dm(boom_mm as int),
            0 <= boom_mm <= MAX_RADIUS_MM,
            forall|j: int| 0 <= j < k ==> key_dm(
                (#[trigger] charts@[j]).boom_length_mm as int) != key,
            forall|j: int| 0 <= j < charts@.len() ==> chart_wf(#[trigger] charts@[j]),
        ensures
            0 <= k <= n,
            charts == old(charts),
            forall|j: int| 0 <= j < k ==> key_dm(
                (#[trigger] charts@[j]).boom_length_mm as int) != key,
            k == n || key_dm(charts@[k as int].boom_length_mm as int) == key,
        decreases n - k,
    {
        if k == n {
            break;
        }
        proof {
            assert(chart_wf(charts@[k as int]));
        }
        if crate::capacity::chart_key(charts[k].boom_length_mm) == key {
            break;
        }
        k = k + 1;
    }
    proof {
        lemma_find_key_scan(charts@, key as int, k as int);
    }
    if k < n {
        let ghost before = charts@;
        proof {
            assert(chart_wf(charts@[k as int]));
        }
        let chart = &mut charts[k];
        chart.add_point(radius_mm, capacity_kg);
        proof {
            assert(final(charts)@ =~= before.update(k as int, final(charts)@[k as int]));
        }
    } else {
        let mut chart = LoadChart::new(boom_mm);
        chart.add_point(radius_mm, capacity_kg);
        proof {
            assert(chart.points@ =~= seq![(CapacityPoint { radius_mm, capacity_kg })]);
        }
        charts.push(chart);
    }
}

/// The character's code with a lower-case letter raised to upper case.
pub open spec fn spec_upper_int(c: char) -> int {
    if 97 <= c as int <= 122 {
        c as int - 32
    } else {
        c as int
    }
}

/// A section header: the trimmed line starts, case-insensitively, with the
/// boom-length heading.
pub open spec fn spec_is_header(t: Seq<char>) -> bool {
    &&& t.len() >= 12
    &&& spec_upper_int(t[0]) == 66
    &&& spec_upper_int(t[1]) == 79
    &&& spec_upper_int(t[2]) == 79
    &&& spec_upper_int(t[3]) == 77
    &&& spec_upper_int(t[4]) == 32
    &&& spec_upper_int(t[5]) == 76
    &&& spec_upper_int(t[6]) == 69
    &&& spec_upper_int(t[7]) == 78
    &&& spec_upper_int(t[8]) == 71
    &&& spec_upper_int(t[9]) == 84
    &&& spec_upper_int(t[10]) == 72
    &&& spec_upper_int(t[11]) == 58
}

/// Whether the radius sub-header word occurs anywhere in the line,
/// case-insensitively.
pub open spec fn spec_contains_radius(t: Seq<char>) -> bool {
    exists|i: int|
        0 <= i && i + 6 <= t.len() && spec_upper_int(#[trigger] t[i]) == 82 && spec_upper_int(
            t[i + 1]) == 65 && spec_upper_int(t[i + 2]) == 68 && spec_upper_int(t[i + 3]) == 73
            && spec_upper_int(t[i + 4]) == 85 && spec_upper_int(t[i + 5]) == 83
}

/// How many trailing metre marks a token carries.
pub open spec fn spec_m_suffix(s: Seq<char>) -> int
    decreases s.len(),
{
    if s.len() == 0 || s.last() != 'm' {
        0
    } else {
        1 + spec_m_suffix(s.drop_last())
    }
}

/// A metre-mark suffix count is witnessed by a scan from the back.
pub proof fn lemma_m_suffix_scan(s: Seq<char>, i: int)
    requires
        0 <= i <= s.len(),
        forall|j: int| s.len() - i <= j < s.len() ==> (#[trigger] s[j]) == 'm',
        i < s.len() ==> s[s.len() - i - 1] != 'm',
    ensures
        spec_m_suffix(s) == i,
    decreases s.len(),
{
    if s.len() == 0 {
    } else {
        let t = s.drop_last();
        assert(forall|j: int| 0 <= j < t.len() ==> t[j] == s[j]);
        if s.last() == 'm' {
            assert(i >= 1);
            lemma_m_suffix_scan(t, i - 1);
        } else {
            assert(i == 0);
        }
    }
}

/// The boom-length token of a section header: the text between the first
/// two colons, trimmed, with trailing metre marks removed.
pub open spec fn spec_header_boom(t: Seq<char>) -> Seq<char> {
    let seg = spec_trim(spec_split(t, ':')[1]);
    seg.take(seg.len() - spec_m_suffix(seg))
}

/// A well-formed manufacturer table: every section header carries a
/// readable boom length.  Data rows never fail; a row that does not read as
/// two numbers is skipped.
pub open spec fn spec_table_wf(s: Seq<char>) -> bool {
    let lines = spec_lines(s);
    forall|i: int|
        0 <= i < lines.len() && spec_is_header(spec_trim(#[trigger] lines[i]))
            ==> spec_token_ok(spec_header_boom(spec_trim(lines[i])), 999_999)
}


/// One line's effect on the table parse: a header banks the current chart
/// (if it has points) and opens a new one; a radius sub-header or blank
/// line changes nothing; inside a section, a row whose first two
/// whitespace-separated tokens read as numbers adds a point, and any other
/// row is skipped.
pub open spec fn spec_table_step(
    state: (Seq<(int, Seq<CapacityPoint>)>, Option<(int, Seq<CapacityPoint>)>),
    t: Seq<char>,
) -> (Seq<(int, Seq<CapacityPoint>)>, Option<(int, Seq<CapacityPoint>)>) {
    let done = state.0;
    let cur = state.1;
    if spec_is_header(t) {
        let banked = match cur {
            Some(c) => if c.1.len() > 0 {
                done.push(c)
            } else {
                done
            },
            None => done,
        };
        (banked, Some((spec_token_milli(spec_header_boom(t)), Seq::empty())))
    } else if spec_contains_radius(t) || t.len() == 0 {
        (done, cur)
    } else {
        match cur {
            Some(c) => {
                let parts = spec_ws_split(t);
                if parts.len() >= 2 && spec_token_ok(parts[0], 999_999) && spec_token_ok(
                    parts[1], 1_000_000_000) {
                    let p = CapacityPoint {
                        radius_mm: spec_token_milli(parts[0]) as i64,
                        capacity_kg: spec_token_unit(parts[1]) as i64,
                    };
                    (done, Some((c.0, c.1.insert(count_le(c.1, p.radius_mm as int), p))))
                } else {
                    (done, cur)
                }
            },
            None => (done, cur),
        }
    }
}

/// The banked charts and open section after the first `n` lines.
pub open spec fn spec_table_state(lines: Seq<Seq<char>>, n: int) -> (
    Seq<(int, Seq<CapacityPoint>)>,
    Option<(int, Seq<CapacityPoint>)>,
)
    decreases n,
{
    if n <= 0 {
        (Seq::empty(), None)
    } else {
        spec_table_step(spec_table_state(lines, n - 1), spec_trim(lines[n - 1]))
    }
}

/// The charts a well-formed manufacturer table parses to: the banked
/// sections plus the final open one if it has points.
pub open spec fn spec_table_charts(s: Seq<char>) -> Seq<(int, Seq<CapacityPoint>)> {
    let lines = spec_lines(s);
    let st = spec_table_state(lines, lines.len() as int);
    match st.1 {
        Some(c) => if c.1.len() > 0 {
            st.0.push(c)
        } else {
            st.0
        },
        None => st.0,
    }
}

/// A chart realizes an open section when boom length and points agree.
pub open spec fn spec_cur_match(
    cur: Option<LoadChart>,
    m: Option<(int, Seq<CapacityPoint>)>,
) -> bool {
    match m {
        Some(t) => cur is Some && cur->0.boom_length_mm == t.0 && cur->0.points@ == t.1,
        None => cur is None,
    }
}

impl LoadChartParser {
    /// Parse a manufacturer-style table: sections are headed by a
    /// case-insensitive boom-length line, whitespace-separated numeric rows
    /// are radius and capacity pairs, lines naming the radius sub-header or
    /// blank lines are skipped, and rows that do not read as two numbers
    /// are skipped silently.  Sections with no readable row are dropped.
    ///
    /// Succeeds if and only if every section header carries a readable boom
    /// length ([`spec_table_wf`]); the first unreadable header decides.
    pub fn parse_table(table_data: &str) -> (r: Result<Vec<LoadChart>, String>)
        ensures
            r is Ok <==> spec_table_wf(table_data@),
            r is Ok ==> spec_charts_match(r->Ok_0@, spec_table_charts(table_data@)),
            r is Ok ==> forall|i: int| 0 <= i < r->Ok_0@.len() ==> chart_wf(
                #[trigger] r->Ok_0@[i]),
            r is Err ==> ({
                let lines = spec_lines(table_data@);
                exists|i: int|
                    0 <= i < lines.len() && spec_is_header(spec_trim(#[trigger] lines[i]))
                        && !spec_token_ok(spec_header_boom(spec_trim(lines[i])), 999_999) && (
                    forall|j: int|
                        0 <= j < i && spec_is_header(spec_trim(#[trigger] lines[j]))
                            ==> spec_token_ok(spec_header_boom(spec_trim(lines[j])), 999_999))
                        && r->Err_0@ == "Invalid boom length: "@ + spec_header_boom(spec_trim(
                        lines[i]))
            }),
    {
        let lines = split_lines(table_data);
        let m = lines.len();
        let mut charts: Vec<LoadChart> = Vec::new();
        let mut current: Option<LoadChart> = None;
        let mut i: usize = 0;
        while i < m
            invariant
                0 <= i <= m,
                m == lines@.len(),
                m == spec_lines(table_data@).len(),
                forall|k: int| 0 <= k < m ==> (#[trigger] lines@[k])@ == spec_lines(
                    table_data@)[k],
                forall|j: int| 0 <= j < i && spec_is_header(spec_trim(#[trigger] spec_lines(
                    table_data@)[j])) ==> spec_token_ok(spec_header_boom(spec_trim(spec_lines(
                    table_data@)[j])), 999_999),
                forall|k: int| 0 <= k < charts@.len() ==> chart_wf(#[trigger] charts@[k]),
                current is Some ==> chart_wf(current->0),
                spec_charts_match(charts@, spec_table_state(spec_lines(table_data@),
                    i as int).0),
                spec_cur_match(current, spec_table_state(spec_lines(table_data@), i as int).1),
            decreases m - i,
        {
            let line = &lines[i];
            let trimmed = trim_string(line.as_str());
            proof {
                assert(trimmed@ == spec_trim(spec_lines(table_data@)[i as int]));
            }
            if is_header(trimmed.as_str()) {
                match current {
                    Some(c) => {
                        if c.points.len() > 0 {
                            charts.push(c);
                        }
                    },
                    None => {},
                }
                let segs = split_fields(trimmed.as_str(), ':');
                proof {
                    lemma_header_has_two_segments(trimmed@);
                }
                let seg = trim_string(segs[1].as_str());
                let boom_text = strip_m_suffix(seg.as_str());
                proof {
                    assert(segs@[1]@ == spec_split(trimmed@, ':')[1]);
                    assert(boom_text@ == spec_header_boom(trimmed@));
                }
                let boom = match parse_token_milli(boom_text.as_str()) {
                    Some(v) => v,
                    None => {
                        let mut msg = String::from_str("Invalid boom length: ");
                        msg.append(boom_text.as_str());
                        proof {
                            assert(msg@ =~= "Invalid boom length: "@ + spec_header_boom(
                                spec_trim(spec_lines(table_data@)[i as int])));
                        }
                        return Err(msg);
                    },
                };
                current = Some(LoadChart::new(boom));
                proof {
                    assert(current->0.points@ =~= Seq::<CapacityPoint>::empty());
                    assert(spec_cur_match(current, spec_table_state(spec_lines(table_data@),
                        i as int + 1).1));
                }
            } else if contains_radius(trimmed.as_str()) || trimmed.as_str().unicode_len() == 0 {
                // sub-header or blank line: skipped
                proof {
                    assert(spec_cur_match(current, spec_table_state(spec_lines(table_data@),
                        i as int + 1).1));
                }
            } else {
                let taken = current;
                match taken {
                    Some(mut c) => {
                        let parts = split_whitespace(trimmed.as_str());
                        if parts.len() >= 2 {
                            proof {
                                assert(parts@[0]@ == spec_ws_split(trimmed@)[0]);
                                assert(parts@[1]@ == spec_ws_split(trimmed@)[1]);
                            }
                            let radius = parse_token_milli(parts[0].as_str());
                            let capacity = parse_token_unit(parts[1].as_str());
                            match (radius, capacity) {
                                (Some(rv), Some(cv)) => {
                                    c.add_point(rv, cv);
                                    proof {
                                        assert(spec_token_ok(spec_ws_split(trimmed@)[0],
                                            999_999));
                                        assert(spec_token_ok(spec_ws_split(trimmed@)[1],
                                            1_000_000_000));
                                    }
                                },
                                _ => {
                                    proof {
                                        assert(!(spec_token_ok(spec_ws_split(trimmed@)[0],
                                            999_999) && spec_token_ok(spec_ws_split(trimmed@)[1],
                                            1_000_000_000)));
                                    }
                                },
                            }
                        }
                        current = Some(c);
                    },
                    None => {
                        current = None;
                    },
                }
                proof {
                    assert(spec_cur_match(current, spec_table_state(spec_lines(table_data@),
                        i as int + 1).1));
                }
            }
            i = i + 1;
        }
        match current {
            Some(c) => {
                if c.points.len() > 0 {
                    charts.push(c);
                }
            },
            None => {},
        }
        Ok(charts)
    }
}

/// A section header has a colon, so splitting at colons yields at least two
/// segments.
proof fn lemma_header_has_two_segments(t: Seq<char>)
    requires
        spec_is_header(t),
    ensures
        spec_split(t, ':').len() >= 2,
{
    lemma_split_counts_seps(t, ':', t.len() as int, 11);
}

/// A separator seen before position `n` guarantees at least one completed
/// piece after scanning `n` characters.
proof fn lemma_split_counts_seps(s: Seq<char>, sep: char, n: int, w: int)
    requires
        0 <= w < n <= s.len(),
        s[w] == sep,
    ensures
        spec_split_upto(s, sep, n).0.len() >= 1,
    decreases n,
{
    if n - 1 > w {
        lemma_split_counts_seps(s, sep, n - 1, w);
    }
}

/// Whether a trimmed line is a section header.
fn is_header(t: &str) -> (r: bool)
    ensures
        r == spec_is_header(t@),
{
    let n = t.unicode_len();
    if n < 12 {
        return false;
    }
    let ok = upper_eq(t, 0, 66) && upper_eq(t, 1, 79) && upper_eq(t, 2, 79) && upper_eq(t, 3, 77)
        && upper_eq(t, 4, 32) && upper_eq(t, 5, 76) && upper_eq(t, 6, 69) && upper_eq(t, 7, 78)
        && upper_eq(t, 8, 71) && upper_eq(t, 9, 84) && upper_eq(t, 10, 72) && upper_eq(t, 11, 58);
    ok
}

/// Whether the character at `i`, raised to upper case, has code `code`.
fn upper_eq(t: &str, i: usize, code: u32) -> (r: bool)
    requires
        i < t@.len(),
    ensures
        r == (spec_upper_int(t@[i as int]) == code as int),
{
    let c = t.get_char(i);
    let cv = c as u32;
    let up = if 97 <= cv && cv <= 122 {
        cv - 32
    } else {
        cv
    };
    up == code
}

/// Whether the radius sub-header word occurs in the line.
fn contains_radius(t: &str) -> (r: bool)
    ensures
        r == spec_contains_radius(t@),
{
    let n = t.unicode_len();
    if n < 6 {
        proof {
            assert(!spec_contains_radius(t@));
        }
        return false;
    }
    let mut i: usize = 0;
    while i <= n - 6
        invariant
            0 <= i,
            i <= n - 5,
            n == t@.len(),
            n >= 6,
            forall|j: int| 0 <= j < i && j + 6 <= n ==> !(spec_upper_int(#[trigger] t@[j]) == 82
                && spec_upper_int(t@[j + 1]) == 65 && spec_upper_int(t@[j + 2]) == 68
                && spec_upper_int(t@[j + 3]) == 73 && spec_upper_int(t@[j + 4]) == 85
                && spec_upper_int(t@[j + 5]) == 83),
        decreases n - i,
    {
        let hit = upper_eq(t, i, 82) && upper_eq(t, i + 1, 65) && upper_eq(t, i + 2, 68)
            && upper_eq(t, i + 3, 73) && upper_eq(t, i + 4, 85) && upper_eq(t, i + 5, 83);
        if hit {
            return true;
        }
        i = i + 1;
    }
    proof {
        assert(!spec_contains_radius(t@));
    }
    false
}

/// Remove the trailing metre marks from a token.
fn strip_m_suffix(s: &str) -> (r: String)
    ensures
        r@ == s@.take(s@.len() - spec_m_suffix(s@)),
{
    let n = s.unicode_len();
    let mut b: usize = 0;
    loop
        invariant
            0 <= b <= n,
            n == s@.len(),
            forall|j: int| n - b <= j < n ==> (#[trigger] s@[j]) == 'm',
        ensures
            0 <= b <= n,
            forall|j: int| n - b <= j < n ==> (#[trigger] s@[j]) == 'm',
            b == n || s@[n - b - 1] != 'm',
        decreases n - b,
    {
        if b == n {
            break;
        }
        if s.get_char(n - b - 1) != 'm' {
            break;
        }
        b = b + 1;
    }
    proof {
        lemma_m_suffix_scan(s@, b as int);
        assert(s@.subrange(0, n - b as int) =~= s@.take(s@.len() - spec_m_suffix(s@)));
    }
    substring_string(s, 0, n - b)
}

/// The completed whitespace-separated tokens and the token in progress
/// after scanning the first `n` characters.
pub open spec fn spec_ws_split_upto(s: Seq<char>, n: int) -> (Seq<Seq<char>>, Seq<char>)
    decreases n,
{
    if n <= 0 {
        (Seq::empty(), Seq::empty())
    } else {
        let prev = spec_ws_split_upto(s, n - 1);
        if spec_is_ws(s[n - 1]) {
            if prev.1.len() > 0 {
                (prev.0.push(prev.1), Seq::empty())
            } else {
                prev
            }
        } else {
            (prev.0, prev.1.push(s[n - 1]))
        }
    }
}

/// The nonempty whitespace-separated tokens of a line.
pub open spec fn spec_ws_split(s: Seq<char>) -> Seq<Seq<char>> {
    let done = spec_ws_split_upto(s, s.len() as int);
    if done.1.len() > 0 {
        done.0.push(done.1)
    } else {
        done.0
    }
}

/// Split a line at runs of whitespace into its nonempty tokens.
fn split_whitespace(s: &str) -> (r: Vec<String>)
    ensures
        r@.len() == spec_ws_split(s@).len(),
        forall|i: int| 0 <= i < r@.len() ==> (#[trigger] r@[i])@ == spec_ws_split(s@)[i],
{
    let n = s.unicode_len();
    let mut parts: Vec<String> = Vec::new();
    let mut start: usize = 0;
    let mut in_token = false;
    let mut i: usize = 0;
    while i < n
        invariant
            0 <= i <= n,
            n == s@.len(),
            in_token ==> start < i || start == i,
            in_token ==> start <= i,
            parts@.len() == spec_ws_split_upto(s@, i as int).0.len(),
            forall|k: int| 0 <= k < parts@.len() ==> (#[trigger] parts@[k])@
                == spec_ws_split_upto(s@, i as int).0[k],
            in_token ==> spec_ws_split_upto(s@, i as int).1 =~= s@.subrange(start as int,
                i as int) && start < i,
            !in_token ==> spec_ws_split_upto(s@, i as int).1 =~= Seq::<char>::empty(),
        decreases n - i,
    {
        let c = s.get_char(i);
        let ws = c == ' ' || c == '\t' || c == '\r';
        if ws {
            if in_token {
                parts.push(substring_string(s, start, i));
                in_token = false;
            }
        } else {
            if !in_token {
                start = i;
                in_token = true;
            }
            proof {
                assert(spec_ws_split_upto(s@, i as int + 1).1 =~= s@.subrange(start as int,
                    i as int + 1));
            }
        }
        i = i + 1;
    }
    if in_token {
        parts.push(substring_string(s, start, n));
        proof {
            assert(parts@.last()@ =~= spec_ws_split(s@).last());
        }
    }
    parts
}


/// Charts folded into a chart system one by one: each parsed chart replaces
/// the chart already stored under its 0.1 m key, or is appended.
pub open spec fn spec_add_fold(
    base: Seq<(int, Seq<CapacityPoint>)>,
    gs: Seq<(int, Seq<CapacityPoint>)>,
    n: int,
) -> Seq<(int, Seq<CapacityPoint>)>
    decreases n,
{
    if n <= 0 {
        base
    } else {
        let prev = spec_add_fold(base, gs, n - 1);
        let c = gs[n - 1];
        match spec_group_idx(prev, key_dm(c.0)) {
            Some(k) => prev.update(k, c),
            None => prev.push(c),
        }
    }
}

/// One added chart keeps the chart-system model in step with the fold.
proof fn lemma_builder_step(
    before: Seq<LoadChart>,
    after: Seq<LoadChart>,
    c: LoadChart,
    base: Seq<(int, Seq<CapacityPoint>)>,
    gs: Seq<(int, Seq<CapacityPoint>)>,
    n: int,
)
    requires
        0 <= n < gs.len(),
        spec_charts_model(before) == spec_add_fold(base, gs, n),
        gs[n].0 == c.boom_length_mm as int,
        gs[n].1 == c.points@,
        match find_key_idx(before, key_dm(c.boom_length_mm as int)) {
            Some(i) => after == before.update(i, c),
            None => after == before.push(c),
        },
    ensures
        spec_charts_model(after) == spec_add_fold(base, gs, n + 1),
{
    let prev = spec_add_fold(base, gs, n);
    lemma_group_find_agree(prev, before, key_dm(c.boom_length_mm as int));
    lemma_group_idx_range(prev, key_dm(c.boom_length_mm as int));
    match spec_group_idx(prev, key_dm(c.boom_length_mm as int)) {
        Some(k) => {
            assert(spec_charts_model(after) =~= prev.update(k, gs[n as int]));
        },
        None => {
            assert(spec_charts_model(after) =~= prev.push(gs[n as int]));
        },
    }
}

/// Builder for creating capacity charts programmatically or from chart
/// texts.
pub struct CapacityChartBuilder {
    /// The chart system under construction; the contracts speak of it.
    pub chart: crate::capacity::CapacityChart,
}

impl CapacityChartBuilder {
    /// A builder over an empty chart system with the default factors.
    pub fn new() -> (b: CapacityChartBuilder)
        ensures
            crate::capacity::capacity_chart_wf(b.chart),
            b.chart.charts@.len() == 0,
            b.chart.over_side_factor_pm == 850,
            b.chart.over_rear_factor_pm == 750,
            b.chart.dynamic_factor_pm == 850,
    {
        CapacityChartBuilder { chart: crate::capacity::CapacityChart::new() }
    }

    /// Replace the over-side de-rating factor.
    pub fn with_over_side_factor(self, factor_pm: i64) -> (b: CapacityChartBuilder)
        requires
            crate::capacity::capacity_chart_wf(self.chart),
            0 <= factor_pm <= 1000,
        ensures
            crate::capacity::capacity_chart_wf(b.chart),
            b.chart == (crate::capacity::CapacityChart { over_side_factor_pm: factor_pm,
                ..self.chart }),
    {
        let mut chart = self.chart;
        chart.over_side_factor_pm = factor_pm;
        CapacityChartBuilder { chart }
    }

    /// Replace the over-rear de-rating factor.
    pub fn with_over_rear_factor(self, factor_pm: i64) -> (b: CapacityChartBuilder)
        requires
            crate::capacity::capacity_chart_wf(self.chart),
            0 <= factor_pm <= 1000,
        ensures
            crate::capacity::capacity_chart_wf(b.chart),
            b.chart == (crate::capacity::CapacityChart { over_rear_factor_pm: factor_pm,
                ..self.chart }),
    {
        let mut chart = self.chart;
        chart.over_rear_factor_pm = factor_pm;
        CapacityChartBuilder { chart }
    }

    /// Replace the dynamic de-rating factor.
    pub fn with_dynamic_factor(self, factor_pm: i64) -> (b: CapacityChartBuilder)
        requires
            crate::capacity::capacity_chart_wf(self.chart),
            0 <= factor_pm <= 1000,
        ensures
            crate::capacity::capacity_chart_wf(b.chart),
            b.chart == (crate::capacity::CapacityChart { dynamic_factor_pm: factor_pm,
                ..self.chart }),
    {
        let mut chart = self.chart;
        chart.dynamic_factor_pm = factor_pm;
        CapacityChartBuilder { chart }
    }

    /// Add one load chart under its 0.1 m key.
    pub fn add_chart(self, chart: LoadChart) -> (b: CapacityChartBuilder)
        requires
            crate::capacity::capacity_chart_wf(self.chart),
            chart_wf(chart),
        ensures
            crate::capacity::capacity_chart_wf(b.chart),
    {
        let mut c = self.chart;
        c.add_chart(chart);
        CapacityChartBuilder { chart: c }
    }

    /// Add every chart parsed from a comma-separated text; fails if and
    /// only if the text is malformed, with the parser's line-numbered
    /// message.
    pub fn add_charts_from_csv(self, csv_data: &str) -> (r: Result<CapacityChartBuilder, String>)
        requires
            crate::capacity::capacity_chart_wf(self.chart),
        ensures
            r is Ok <==> spec_csv_wf(csv_data@),
            r is Ok ==> crate::capacity::capacity_chart_wf(r->Ok_0.chart),
            r is Ok ==> spec_charts_model(r->Ok_0.chart.charts@) == spec_add_fold(
                spec_charts_model(self.chart.charts@), spec_csv_charts(csv_data@),
                spec_csv_charts(csv_data@).len() as int),
            r is Ok ==> r->Ok_0.chart.over_side_factor_pm == self.chart.over_side_factor_pm
                && r->Ok_0.chart.over_rear_factor_pm == self.chart.over_rear_factor_pm
                && r->Ok_0.chart.dynamic_factor_pm == self.chart.dynamic_factor_pm
                && r->Ok_0.chart.outrigger_intermediate_factor_pm
                == self.chart.outrigger_intermediate_factor_pm
                && r->Ok_0.chart.on_tires_factor_pm == self.chart.on_tires_factor_pm,
    {
        let charts = match LoadChartParser::parse_csv(csv_data) {
            Ok(cs) => cs,
            Err(e) => {
                return Err(e);
            },
        };
        let mut chart = self.chart;
        let n = charts.len();
        let mut i: usize = 0;
        let mut it = charts;
        let ghost gs = spec_csv_charts(csv_data@);
        let ghost base = spec_charts_model(self.chart.charts@);
        proof {
            assert(gs =~= spec_charts_model(it@));
        }
        while i < n
            invariant
                0 <= i <= n,
                n == it@.len(),
                n == gs.len(),
                crate::capacity::capacity_chart_wf(chart),
                forall|k: int| 0 <= k < n ==> chart_wf(#[trigger] it@[k]),
                forall|k: int| 0 <= k < n ==> (#[trigger] gs[k]).0 == it@[k].boom_length_mm as int
                    && gs[k].1 == it@[k].points@,
                spec_charts_model(chart.charts@) == spec_add_fold(base, gs, i as int),
                chart.over_side_factor_pm == self.chart.over_side_factor_pm,
                chart.over_rear_factor_pm == self.chart.over_rear_factor_pm,
                chart.dynamic_factor_pm == self.chart.dynamic_factor_pm,
                chart.outrigger_intermediate_factor_pm
                    == self.chart.outrigger_intermediate_factor_pm,
                chart.on_tires_factor_pm == self.chart.on_tires_factor_pm,
            decreases n - i,
        {
            let c = clone_chart(&it[i]);
            let ghost before = chart.charts@;
            chart.add_chart(c);
            proof {
                lemma_builder_step(before, chart.charts@, c, base, gs, i as int);
            }
            i = i + 1;
        }
        Ok(CapacityChartBuilder { chart })
    }

    /// Add every chart parsed from a chart text in the documented object
    /// shape; fails if and only if the text does not match it.
    pub fn add_charts_from_json(self, json_data: &str) -> (r: Result<CapacityChartBuilder, String>)
        requires
            crate::capacity::capacity_chart_wf(self.chart),
        ensures
            r is Ok <==> spec_json_wf(json_data@),
            r is Ok ==> crate::capacity::capacity_chart_wf(r->Ok_0.chart),
            r is Ok ==> spec_charts_model(r->Ok_0.chart.charts@) == spec_add_fold(
                spec_charts_model(self.chart.charts@), spec_json_charts(json_data@),
                spec_json_charts(json_data@).len() as int),
            r is Ok ==> r->Ok_0.chart.over_side_factor_pm == self.chart.over_side_factor_pm
                && r->Ok_0.chart.over_rear_factor_pm == self.chart.over_rear_factor_pm
                && r->Ok_0.chart.dynamic_factor_pm == self.chart.dynamic_factor_pm
                && r->Ok_0.chart.outrigger_intermediate_factor_pm
                == self.chart.outrigger_intermediate_factor_pm
                && r->Ok_0.chart.on_tires_factor_pm == self.chart.on_tires_factor_pm,
    {
        let charts = match LoadChartParser::parse_json(json_data) {
            Ok(cs) => cs,
            Err(e) => {
                return Err(e);
            },
        };
        let mut chart = self.chart;
        let n = charts.len();
        let mut i: usize = 0;
        let it = charts;
        let ghost gs = spec_json_charts(json_data@);
        let ghost base = spec_charts_model(self.chart.charts@);
        proof {
            assert(gs =~= spec_charts_model(it@));
        }
        while i < n
            invariant
                0 <= i <= n,
                n == it@.len(),
                n == gs.len(),
                crate::capacity::capacity_chart_wf(chart),
                forall|k: int| 0 <= k < n ==> chart_wf(#[trigger] it@[k]),
                forall|k: int| 0 <= k < n ==> (#[trigger] gs[k]).0 == it@[k].boom_length_mm as int
                    && gs[k].1 == it@[k].points@,
                spec_charts_model(chart.charts@) == spec_add_fold(base, gs, i as int),
                chart.over_side_factor_pm == self.chart.over_side_factor_pm,
                chart.over_rear_factor_pm == self.chart.over_rear_factor_pm,
                chart.dynamic_factor_pm == self.chart.dynamic_factor_pm,
                chart.outrigger_intermediate_factor_pm
                    == self.chart.outrigger_intermediate_factor_pm,
                chart.on_tires_factor_pm == self.chart.on_tires_factor_pm,
            decreases n - i,
        {
            let c = clone_chart(&it[i]);
            let ghost before = chart.charts@;
            chart.add_chart(c);
            proof {
                lemma_builder_step(before, chart.charts@, c, base, gs, i as int);
            }
            i = i + 1;
        }
        Ok(CapacityChartBuilder { chart })
    }

    /// Add every chart parsed from a manufacturer-style table; fails if and
    /// only if a section header is unreadable.
    pub fn add_charts_from_table(self, table_data: &str) -> (r: Result<
        CapacityChartBuilder,
        String,
    >)
        requires
            crate::capacity::capacity_chart_wf(self.chart),
        ensures
            r is Ok <==> spec_table_wf(table_data@),
            r is Ok ==> crate::capacity::capacity_chart_wf(r->Ok_0.chart),
            r is Ok ==> spec_charts_model(r->Ok_0.chart.charts@) == spec_add_fold(
                spec_charts_model(self.chart.charts@), spec_table_charts(table_data@),
                spec_table_charts(table_data@).len() as int),
            r is Ok ==> r->Ok_0.chart.over_side_factor_pm == self.chart.over_side_factor_pm
                && r->Ok_0.chart.over_rear_factor_pm == self.chart.over_rear_factor_pm
                && r->Ok_0.chart.dynamic_factor_pm == self.chart.dynamic_factor_pm
                && r->Ok_0.chart.outrigger_intermediate_factor_pm
                == self.chart.outrigger_intermediate_factor_pm
                && r->Ok_0.chart.on_tires_factor_pm == self.chart.on_tires_factor_pm,
    {
        let charts = match LoadChartParser::parse_table(table_data) {
            Ok(cs) => cs,
            Err(e) => {
                return Err(e);
            },
        };
        let mut chart = self.chart;
        let n = charts.len();
        let mut i: usize = 0;
        let it = charts;
        let ghost gs = spec_table_charts(table_data@);
        let ghost base = spec_charts_model(self.chart.charts@);
        proof {
            assert(gs =~= spec_charts_model(it@));
        }
        while i < n
            invariant
                0 <= i <= n,
                n == it@.len(),
                n == gs.len(),
                crate::capacity::capacity_chart_wf(chart),
                forall|k: int| 0 <= k < n ==> chart_wf(#[trigger] it@[k]),
                forall|k: int| 0 <= k < n ==> (#[trigger] gs[k]).0 == it@[k].boom_length_mm as int
                    && gs[k].1 == it@[k].points@,
                spec_charts_model(chart.charts@) == spec_add_fold(base, gs, i as int),
                chart.over_side_factor_pm == self.chart.over_side_factor_pm,
                chart.over_rear_factor_pm == self.chart.over_rear_factor_pm,
                chart.dynamic_factor_pm == self.chart.dynamic_factor_pm,
                chart.outrigger_intermediate_factor_pm
                    == self.chart.outrigger_intermediate_factor_pm,
                chart.on_tires_factor_pm == self.chart.on_tires_factor_pm,
            decreases n - i,
        {
            let c = clone_chart(&it[i]);
            let ghost before = chart.charts@;
            chart.add_chart(c);
            proof {
                lemma_builder_step(before, chart.charts@, c, base, gs, i as int);
            }
            i = i + 1;
        }
        Ok(CapacityChartBuilder { chart })
    }

    /// The finished chart system.
    pub fn build(self) -> (r: crate::capacity::CapacityChart)
        ensures
            r == self.chart,
    {
        self.chart
    }
}

/// Copy a load chart, point by point.
fn clone_chart(c: &LoadChart) -> (r: LoadChart)
    ensures
        r.boom_length_mm == c.boom_length_mm,
        r.points@ == c.points@,
        chart_wf(*c) ==> chart_wf(r),
{
    let n = c.points.len();
    let mut points: Vec<crate::chart::CapacityPoint> = Vec::new();
    let mut i: usize = 0;
    while i < n
        invariant
            0 <= i <= n,
            n == c.points@.len(),
            points@ == c.points@.take(i as int),
        decreases n - i,
    {
        points.push(c.points[i]);
        proof {
            assert(c.points@.take(i as int).push(c.points@[i as int]) =~= c.points@.take(
                i as int + 1));
        }
        i = i + 1;
    }
    proof {
        assert(c.points@.take(n as int) =~= c.points@);
    }
    let notes: Option<String> = match &c.notes {
        Some(s) => Some(clone_str(s)),
        None => None,
    };
    LoadChart { boom_length_mm: c.boom_length_mm, points, notes }
}

/// A JSON whitespace character.
pub open spec fn spec_is_json_ws(c: char) -> bool {
    c == ' ' || c == '\t' || c == '\r' || c == '\n'
}

/// The text with every whitespace character removed.  The chart shape holds
/// only fixed keys and numbers, so whitespace carries no information.
pub open spec fn spec_strip_json_ws(s: Seq<char>) -> Seq<char>
    decreases s.len(),
{
    if s.len() == 0 {
        Seq::empty()
    } else if spec_is_json_ws(s.last()) {
        spec_strip_json_ws(s.drop_last())
    } else {
        spec_strip_json_ws(s.drop_last()).push(s.last())
    }
}

/// The literal `l` occurs at position `i` of `t`.
pub open spec fn spec_lit_at(t: Seq<char>, i: int, l: Seq<char>) -> bool {
    0 <= i && i + l.len() <= t.len() && (forall|k: int| 0 <= k < l.len() ==> t[i + k] == (
    #[trigger] l[k]))
}

/// The position after the literal, if it occurs here.
pub open spec fn sp_lit(t: Seq<char>, i: int, l: Seq<char>) -> Option<int> {
    if spec_lit_at(t, i, l) {
        Some(i + l.len() as int)
    } else {
        None
    }
}

/// The end of the run of digits and points starting at `i`.
pub open spec fn spec_num_end(t: Seq<char>, i: int) -> int
    decreases t.len() - i
        when 0 <= i <= t.len()
{
    if i < 0 || i >= t.len() || !(spec_is_digit(t[i]) || t[i] == '.') {
        i
    } else {
        spec_num_end(t, i + 1)
    }
}

/// The position after a number token whose whole part fits `limit`, if one
/// starts here.
pub open spec fn sp_num(t: Seq<char>, i: int, limit: int) -> Option<int> {
    let e = spec_num_end(t, i);
    if 0 <= i <= t.len() && spec_token_ok(t.subrange(i, e), limit) {
        Some(e)
    } else {
        None
    }
}

/// The position after one point object: a radius and a capacity.
pub open spec fn sp_point(t: Seq<char>, i: int) -> Option<(int, int, int)> {
    match sp_lit(t, i, "{\"radius_m\":"@) {
        None => None,
        Some(j) => match sp_num(t, j, 999_999) {
            None => None,
            Some(j2) => {
                let radius = spec_token_milli(t.subrange(j, j2));
                match sp_lit(t, j2, ",\"capacity_kg\":"@) {
                    None => None,
                    Some(j3) => match sp_num(t, j3, 1_000_000_000) {
                        None => None,
                        Some(j4) => {
                            let capacity = spec_token_unit(t.subrange(j3, j4));
                            match sp_lit(t, j4, "}"@) {
                                None => None,
                                Some(j5) => Some((j5, radius, capacity)),
                            }
                        },
                    },
                }
            },
        },
    }
}

/// The position after a comma-separated run of point objects, and the
/// accumulated points, each inserted in radius order.
pub open spec fn sp_points(t: Seq<char>, i: int, fuel: nat, pts: Seq<CapacityPoint>) -> Option<
    (int, Seq<CapacityPoint>),
>
    decreases fuel,
{
    match sp_point(t, i) {
        None => None,
        Some(jrc) => {
            let j = jrc.0;
            let p = CapacityPoint { radius_mm: jrc.1 as i64, capacity_kg: jrc.2 as i64 };
            let pts2 = pts.insert(count_le(pts, jrc.1), p);
            if j < t.len() && t[j] == ',' {
                if fuel == 0 {
                    None
                } else {
                    sp_points(t, j + 1, (fuel - 1) as nat, pts2)
                }
            } else {
                Some((j, pts2))
            }
        },
    }
}

/// The position after one chart object, with its boom length and points.
pub open spec fn sp_chart(t: Seq<char>, i: int, fuel: nat) -> Option<
    (int, int, Seq<CapacityPoint>),
> {
    match sp_lit(t, i, "{\"boom_length_m\":"@) {
        None => None,
        Some(j) => match sp_num(t, j, 999_999) {
            None => None,
            Some(j2) => {
                let boom = spec_token_milli(t.subrange(j, j2));
                match sp_lit(t, j2, ",\"points\":["@) {
                    None => None,
                    Some(j3) => {
                        let k = if j3 < t.len() && t[j3] == ']' {
                            Some((j3, Seq::<CapacityPoint>::empty()))
                        } else {
                            sp_points(t, j3, fuel, Seq::empty())
                        };
                        match k {
                            None => None,
                            Some(kp) => match sp_lit(t, kp.0, "]}"@) {
                                None => None,
                                Some(end) => Some((end, boom, kp.1)),
                            },
                        }
                    },
                }
            },
        },
    }
}

/// The position after a comma-separated run of chart objects, and the
/// accumulated charts in order.
pub open spec fn sp_charts(t: Seq<char>, i: int, fuel: nat, acc: Seq<(int, Seq<CapacityPoint>)>) -> Option<
    (int, Seq<(int, Seq<CapacityPoint>)>),
>
    decreases fuel,
{
    match sp_chart(t, i, fuel) {
        None => None,
        Some(jbp) => {
            let j = jbp.0;
            let acc2 = acc.push((jbp.1, jbp.2));
            if j < t.len() && t[j] == ',' {
                if fuel == 0 {
                    None
                } else {
                    sp_charts(t, j + 1, (fuel - 1) as nat, acc2)
                }
            } else {
                Some((j, acc2))
            }
        },
    }
}

/// A well-formed chart text in the documented shape: an object holding a
/// `charts` array of chart objects, each a `boom_length_m` number and a
/// `points` array of `radius_m`/`capacity_kg` objects, keys in that order,
/// whitespace anywhere between tokens.
pub open spec fn spec_json_wf(s: Seq<char>) -> bool {
    let t = spec_strip_json_ws(s);
    match sp_lit(t, 0, "{\"charts\":["@) {
        None => false,
        Some(j) => {
            let k = if j < t.len() && t[j] == ']' {
                Some((j, Seq::<(int, Seq<CapacityPoint>)>::empty()))
            } else {
                sp_charts(t, j, t.len(), Seq::empty())
            };
            match k {
                None => false,
                Some(kc) => sp_lit(t, kc.0, "]}"@) == Some(t.len() as int),
            }
        },
    }
}

/// The charts a well-formed text in the documented shape parses to.
pub open spec fn spec_json_charts(s: Seq<char>) -> Seq<(int, Seq<CapacityPoint>)> {
    let t = spec_strip_json_ws(s);
    match sp_lit(t, 0, "{\"charts\":["@) {
        None => Seq::empty(),
        Some(j) => {
            if j < t.len() && t[j] == ']' {
                Seq::empty()
            } else {
                match sp_charts(t, j, t.len(), Seq::empty()) {
                    None => Seq::empty(),
                    Some(kc) => kc.1,
                }
            }
        },
    }
}

/// The characters of a string as a vector.
fn str_chars(s: &str) -> (v: Vec<char>)
    ensures
        v@ == s@,
{
    let n = s.unicode_len();
    let mut v: Vec<char> = Vec::new();
    let mut i: usize = 0;
    while i < n
        invariant
            0 <= i <= n,
            n == s@.len(),
            v@ == s@.take(i as int),
        decreases n - i,
    {
        v.push(s.get_char(i));
        proof {
            assert(s@.take(i as int).push(s@[i as int]) =~= s@.take(i as int + 1));
        }
        i = i + 1;
    }
    proof {
        assert(s@.take(n as int) =~= s@);
    }
    v
}

/// Remove every whitespace character.
fn strip_json_ws(v: &Vec<char>) -> (out: Vec<char>)
    ensures
        out@ == spec_strip_json_ws(v@),
{
    let n = v.len();
    let mut out: Vec<char> = Vec::new();
    let mut i: usize = 0;
    while i < n
        invariant
            0 <= i <= n,
            n == v@.len(),
            out@ == spec_strip_json_ws(v@.take(i as int)),
        decreases n - i,
    {
        let c = v[i];
        proof {
            assert(v@.take(i as int + 1).drop_last() =~= v@.take(i as int));
        }
        if !(c == ' ' || c == '\t' || c == '\r' || c == '\n') {
            out.push(c);
        }
        i = i + 1;
    }
    proof {
        assert(v@.take(n as int) =~= v@);
    }
    out
}

/// Match a literal at a position.
fn e_lit(t: &Vec<char>, i: usize, l: &str) -> (r: Option<usize>)
    ensures
        match r {
            Some(u) => sp_lit(t@, i as int, l@) == Some(u as int),
            None => sp_lit(t@, i as int, l@) is None,
        },
        r is Some ==> i <= r->0 <= t@.len(),
{
    let ll = l.unicode_len();
    let tn = t.len();
    if tn < ll || i > tn - ll {
        return None;
    }
    let mut k: usize = 0;
    loop
        invariant
            0 <= k <= ll,
            ll == l@.len(),
            tn == t@.len(),
            i + ll <= tn,
            forall|m: int| 0 <= m < k ==> t@[i + m] == l@[m],
        ensures
            0 <= k <= ll,
            forall|m: int| 0 <= m < k ==> t@[i + m] == l@[m],
            k == ll || t@[i as int + k as int] != l@[k as int],
        decreases ll - k,
    {
        if k == ll {
            break;
        }
        if t[i + k] != l.get_char(k) {
            break;
        }
        k = k + 1;
    }
    if k == ll {
        Some(i + ll)
    } else {
        None
    }
}

/// The end of the digit-and-point run starting at a scan position.
pub proof fn lemma_num_end_scan(t: Seq<char>, i: int, e: int)
    requires
        0 <= i <= e <= t.len(),
        forall|j: int| i <= j < e ==> spec_is_digit(#[trigger] t[j]) || t[j] == '.',
        e < t.len() ==> !(spec_is_digit(t[e]) || t[e] == '.'),
    ensures
        spec_num_end(t, i) == e,
    decreases e - i,
{
    if i < e {
        lemma_num_end_scan(t, i + 1, e);
    }
}

/// Parse the number token in `t[from..to]`; mirrors the token grammar over
/// that range.
fn parse_range_parts(t: &Vec<char>, from: usize, to: usize, limit: i64) -> (r: Option<
    (i64, i64, i64, i64),
>)
    requires
        from <= to <= t@.len(),
        0 < limit <= 1_000_000_000,
    ensures
        r is Some <==> spec_token_ok(t@.subrange(from as int, to as int), limit as int),
        r is Some ==> ({
            let sub = t@.subrange(from as int, to as int);
            let d = spec_dot_idx(sub);
            let p = r->0;
            &&& p.0 == spec_digits_val(sub.take(d))
            &&& 0 <= p.0 <= limit
            &&& p.1 == (if d + 1 < sub.len() { spec_digit_val(sub[d + 1]) } else { 0 })
            &&& p.2 == (if d + 2 < sub.len() { spec_digit_val(sub[d + 2]) } else { 0 })
            &&& p.3 == (if d + 3 < sub.len() { spec_digit_val(sub[d + 3]) } else { 0 })
            &&& 0 <= p.1 <= 9 && 0 <= p.2 <= 9 && 0 <= p.3 <= 9
        }),
{
    let ghost sub = t@.subrange(from as int, to as int);
    let tn = t.len();
    let n = to - from;
    let mut d: usize = 0;
    loop
        invariant
            0 <= d <= n,
            n == to - from,
            tn == t@.len(),
            from <= to <= tn,
            sub == t@.subrange(from as int, to as int),
            forall|j: int| 0 <= j < d ==> (#[trigger] sub[j]) != '.',
        ensures
            0 <= d <= n,
            forall|j: int| 0 <= j < d ==> (#[trigger] sub[j]) != '.',
            d == n || sub[d as int] == '.',
        decreases n - d,
    {
        if d == n {
            break;
        }
        if t[from + d] == '.' {
            proof {
                assert(sub[d as int] == t@[from + d]);
            }
            break;
        }
        proof {
            assert(sub[d as int] == t@[from + d]);
        }
        d = d + 1;
    }
    proof {
        lemma_dot_scan(sub, d as int);
    }
    if d == 0 {
        return None;
    }
    let mut acc: i64 = 0;
    let mut i: usize = 0;
    while i < d
        invariant
            0 <= i <= d <= n,
            n == to - from,
            tn == t@.len(),
            from <= to <= tn,
            sub == t@.subrange(from as int, to as int),
            spec_dot_idx(sub) == d as int,
            0 < limit <= 1_000_000_000,
            forall|j: int| 0 <= j < i ==> spec_is_digit(#[trigger] sub[j]),
            acc == spec_digits_val(sub.take(i as int)),
            0 <= acc <= limit,
        decreases d - i,
    {
        let c = t[from + i];
        proof {
            assert(sub[i as int] == t@[from + i]);
        }
        let cv = c as u32;
        if !(48 <= cv && cv <= 57) {
            proof {
                assert(!spec_is_digit(sub[i as int]));
            }
            return None;
        }
        proof {
            assert(spec_is_digit(sub[i as int]));
        }
        let dv: i64 = (cv - 48) as i64;
        let next: i64 = acc * 10 + dv;
        proof {
            assert(sub.take(i as int + 1).drop_last() =~= sub.take(i as int));
        }
        if next > limit {
            proof {
                assert(spec_digits_val(sub.take(i as int + 1)) > limit);
                if spec_token_ok(sub, limit as int) {
                    assert(forall|k: int| 0 <= k < d ==> sub.take(d as int)[k] == sub[k]);
                    lemma_digits_val_mono(sub.take(d as int), i as int + 1, d as int);
                    assert(sub.take(d as int).take(i as int + 1) =~= sub.take(i as int + 1));
                    assert(sub.take(d as int).take(d as int) =~= sub.take(d as int));
                }
            }
            return None;
        }
        acc = next;
        i = i + 1;
    }
    let mut f0: i64 = 0;
    let mut f1: i64 = 0;
    let mut f2: i64 = 0;
    if d < n {
        let mut j: usize = d + 1;
        while j < n
            invariant
                d + 1 <= j <= n,
                n == to - from,
                tn == t@.len(),
                from <= to <= tn,
                sub == t@.subrange(from as int, to as int),
                spec_dot_idx(sub) == d as int,
                d < n,
                forall|k: int| d < k < j ==> spec_is_digit(#[trigger] sub[k]),
            decreases n - j,
        {
            let c = t[from + j];
            proof {
                assert(sub[j as int] == t@[from + j]);
            }
            let cv = c as u32;
            if !(48 <= cv && cv <= 57) {
                proof {
                    assert(!spec_is_digit(sub[j as int]));
                }
                return None;
            }
            proof {
                assert(spec_is_digit(sub[j as int]));
            }
            j = j + 1;
        }
        let rem = n - (d + 1);
        if rem >= 1 {
            proof {
                assert(sub[d as int + 1] == t@[from + d + 1]);
                assert(spec_is_digit(sub[d as int + 1]));
            }
            f0 = ((t[from + d + 1] as u32) - 48) as i64;
        }
        if rem >= 2 {
            proof {
                assert(sub[d as int + 2] == t@[from + d + 2]);
                assert(spec_is_digit(sub[d as int + 2]));
            }
            f1 = ((t[from + d + 2] as u32) - 48) as i64;
        }
        if rem >= 3 {
            proof {
                assert(sub[d as int + 3] == t@[from + d + 3]);
                assert(spec_is_digit(sub[d as int + 3]));
            }
            f2 = ((t[from + d + 3] as u32) - 48) as i64;
        }
    }
    Some((acc, f0, f1, f2))
}

/// Parse a number at a position: its value at the requested scale and the
/// position after it.
fn e_num(t: &Vec<char>, i: usize, milli: bool) -> (r: Option<(i64, usize)>)
    requires
        i <= t@.len(),
    ensures
        ({
            let limit: int = if milli { 999_999 } else { 1_000_000_000 };
            match r {
                Some(p) => sp_num(t@, i as int, limit) == Some(p.1 as int) && 0 <= p.0
                    <= 1_000_000_000 && i <= p.1 <= t@.len() && p.0 == (if milli {
                    spec_token_milli(t@.subrange(i as int, p.1 as int))
                } else {
                    spec_token_unit(t@.subrange(i as int, p.1 as int))
                }),
                None => sp_num(t@, i as int, limit) is None,
            }
        }),
{
    let n = t.len();
    let mut e: usize = i;
    loop
        invariant
            i <= e <= n,
            n == t@.len(),
            forall|j: int| i <= j < e ==> spec_is_digit(#[trigger] t@[j]) || t@[j] == '.',
        ensures
            i <= e <= n,
            forall|j: int| i <= j < e ==> spec_is_digit(#[trigger] t@[j]) || t@[j] == '.',
            e == n || !(spec_is_digit(t@[e as int]) || t@[e as int] == '.'),
        decreases n - e,
    {
        if e == n {
            break;
        }
        let c = t[e];
        let cv = c as u32;
        if !((48 <= cv && cv <= 57) || c == '.') {
            proof {
                assert(!spec_is_digit(t@[e as int]) && t@[e as int] != '.');
            }
            break;
        }
        proof {
            assert(spec_is_digit(t@[e as int]) || t@[e as int] == '.');
        }
        e = e + 1;
    }
    proof {
        lemma_num_end_scan(t@, i as int, e as int);
    }
    if milli {
        match parse_range_parts(t, i, e, 999_999) {
            Some(p) => {
                proof {
                    let sub = t@.subrange(i as int, e as int);
                    lemma_dot_idx_range(sub);
                    assert(forall|k: int| 0 <= k < spec_dot_idx(sub) ==> sub.take(spec_dot_idx(
                        sub))[k] == sub[k]);
                    lemma_digits_val_nonneg(sub.take(spec_dot_idx(sub)));
                }
                Some((p.0 * 1000 + p.1 * 100 + p.2 * 10 + p.3, e))
            },
            None => None,
        }
    } else {
        match parse_range_parts(t, i, e, 1_000_000_000) {
            Some(p) => Some((p.0, e)),
            None => None,
        }
    }
}

/// The boom lengths and point lists of a chart list.
pub open spec fn spec_charts_model(cs: Seq<LoadChart>) -> Seq<(int, Seq<CapacityPoint>)> {
    Seq::new(cs.len(), |i: int| (cs[i].boom_length_mm as int, cs[i].points@))
}

/// Parse one point object into the chart.
fn e_point(t: &Vec<char>, i: usize, chart: &mut LoadChart) -> (r: Option<usize>)
    requires
        i <= t@.len(),
        chart_wf(*old(chart)),
    ensures
        chart_wf(*final(chart)),
        final(chart).boom_length_mm == old(chart).boom_length_mm,
        match r {
            Some(u) => sp_point(t@, i as int) is Some && ({
                let jrc = sp_point(t@, i as int)->0;
                &&& jrc.0 == u as int
                &&& i <= u <= t@.len()
                &&& final(chart).points@ == old(chart).points@.insert(
                    count_le(old(chart).points@, jrc.1),
                    (CapacityPoint { radius_mm: jrc.1 as i64, capacity_kg: jrc.2 as i64 }),
                )
            }),
            None => sp_point(t@, i as int) is None && *final(chart) == *old(chart),
        },
{
    let j = match e_lit(t, i, "{\"radius_m\":") {
        Some(j) => j,
        None => {
            return None;
        },
    };
    let ghost j_r = j as int;
    let (radius, j) = match e_num(t, j, true) {
        Some(p) => p,
        None => {
            return None;
        },
    };
    let ghost j_r2 = j as int;
    let j = match e_lit(t, j, ",\"capacity_kg\":") {
        Some(j) => j,
        None => {
            return None;
        },
    };
    let ghost j_c = j as int;
    let (capacity, j) = match e_num(t, j, false) {
        Some(p) => p,
        None => {
            return None;
        },
    };
    let ghost j_c2 = j as int;
    let j = match e_lit(t, j, "}") {
        Some(j) => j,
        None => {
            return None;
        },
    };
    proof {
        assert(radius == spec_token_milli(t@.subrange(j_r, j_r2)));
        assert(capacity == spec_token_unit(t@.subrange(j_c, j_c2)));
    }
    chart.add_point(radius, capacity);
    Some(j)
}

/// Parse a comma-separated run of point objects into the chart.
fn e_points(t: &Vec<char>, i: usize, fuel: usize, chart: &mut LoadChart) -> (r: Option<usize>)
    requires
        i <= t@.len(),
        chart_wf(*old(chart)),
    ensures
        chart_wf(*final(chart)),
        final(chart).boom_length_mm == old(chart).boom_length_mm,
        match r {
            Some(u) => sp_points(t@, i as int, fuel as nat, old(chart).points@) is Some && ({
                let kp = sp_points(t@, i as int, fuel as nat, old(chart).points@)->0;
                kp.0 == u as int && final(chart).points@ == kp.1 && i <= u <= t@.len()
            }),
            None => sp_points(t@, i as int, fuel as nat, old(chart).points@) is None,
        },
    decreases fuel,
{
    let j = match e_point(t, i, chart) {
        Some(j) => j,
        None => {
            return None;
        },
    };
    if j < t.len() {
        let c = t[j];
        if c == ',' {
            if fuel == 0 {
                return None;
            }
            return e_points(t, j + 1, fuel - 1, chart);
        }
    }
    Some(j)
}

/// Parse one chart object and push it.
fn e_chart(t: &Vec<char>, i: usize, fuel: usize, charts: &mut Vec<LoadChart>) -> (r: Option<
    usize,
>)
    requires
        i <= t@.len(),
        forall|k: int| 0 <= k < old(charts)@.len() ==> chart_wf(#[trigger] old(charts)@[k]),
    ensures
        forall|k: int| 0 <= k < final(charts)@.len() ==> chart_wf(#[trigger] final(charts)@[k]),
        match r {
            Some(u) => sp_chart(t@, i as int, fuel as nat) is Some && ({
                let jbp = sp_chart(t@, i as int, fuel as nat)->0;
                &&& jbp.0 == u as int
                &&& i <= u <= t@.len()
                &&& final(charts)@.len() == old(charts)@.len() + 1
                &&& (forall|k: int| 0 <= k < old(charts)@.len() ==> #[trigger] final(
                    charts)@[k] == old(charts)@[k])
                &&& final(charts)@.last().boom_length_mm == jbp.1
                &&& final(charts)@.last().points@ == jbp.2
            }),
            None => sp_chart(t@, i as int, fuel as nat) is None && final(charts)@ == old(
                charts)@,
        },
{
    let j = match e_lit(t, i, "{\"boom_length_m\":") {
        Some(j) => j,
        None => {
            return None;
        },
    };
    let ghost b_from = j as int;
    let (boom, j) = match e_num(t, j, true) {
        Some(p) => p,
        None => {
            return None;
        },
    };
    let ghost b_to = j as int;
    let j = match e_lit(t, j, ",\"points\":[") {
        Some(j) => j,
        None => {
            return None;
        },
    };
    let mut chart = LoadChart::new(boom);
    proof {
        assert(boom == spec_token_milli(t@.subrange(b_from, b_to)));
        assert(chart.points@ =~= Seq::<CapacityPoint>::empty());
    }
    let k: usize = if j < t.len() && t[j] == ']' {
        j
    } else {
        match e_points(t, j, fuel, &mut chart) {
            Some(k) => k,
            None => {
                return None;
            },
        }
    };
    let end = match e_lit(t, k, "]}") {
        Some(e) => e,
        None => {
            return None;
        },
    };
    charts.push(chart);
    Some(end)
}

/// Parse a comma-separated run of chart objects.
fn e_charts(t: &Vec<char>, i: usize, fuel: usize, charts: &mut Vec<LoadChart>) -> (r: Option<
    usize,
>)
    requires
        i <= t@.len(),
        forall|k: int| 0 <= k < old(charts)@.len() ==> chart_wf(#[trigger] old(charts)@[k]),
    ensures
        forall|k: int| 0 <= k < final(charts)@.len() ==> chart_wf(#[trigger] final(charts)@[k]),
        match r {
            Some(u) => sp_charts(t@, i as int, fuel as nat, spec_charts_model(old(charts)@))
                is Some && ({
                let kc = sp_charts(t@, i as int, fuel as nat, spec_charts_model(old(charts)@))->0;
                kc.0 == u as int && spec_charts_model(final(charts)@) == kc.1 && i <= u
                    <= t@.len()
            }),
            None => sp_charts(t@, i as int, fuel as nat, spec_charts_model(old(charts)@))
                is None,
        },
    decreases fuel,
{
    let j = match e_chart(t, i, fuel, charts) {
        Some(j) => j,
        None => {
            return None;
        },
    };
    proof {
        let jbp = sp_chart(t@, i as int, fuel as nat)->0;
        assert(spec_charts_model(charts@) =~= spec_charts_model(old(charts)@).push(
            (jbp.1, jbp.2)));
    }
    if j < t.len() {
        let c = t[j];
        if c == ',' {
            if fuel == 0 {
                return None;
            }
            return e_charts(t, j + 1, fuel - 1, charts);
        }
    }
    Some(j)
}

impl LoadChartParser {
    /// Parse a chart text in the documented object shape: a `charts` array
    /// of chart objects, each with a `boom_length_m` number and a `points`
    /// array of `radius_m` and `capacity_kg` objects.  Keys are expected in
    /// that order; whitespace may stand anywhere between tokens.
    ///
    /// Succeeds if and only if the text matches that shape
    /// ([`spec_json_wf`]).
    pub fn parse_json(json_data: &str) -> (r: Result<Vec<LoadChart>, String>)
        ensures
            r is Ok <==> spec_json_wf(json_data@),
            r is Ok ==> spec_charts_match(r->Ok_0@, spec_json_charts(json_data@)),
            r is Ok ==> forall|i: int| 0 <= i < r->Ok_0@.len() ==> chart_wf(
                #[trigger] r->Ok_0@[i]),
            r is Err ==> r->Err_0@ == "JSON parse error"@,
    {
        let raw = str_chars(json_data);
        let t = strip_json_ws(&raw);
        let mut charts: Vec<LoadChart> = Vec::new();
        let j = match e_lit(&t, 0, "{\"charts\":[") {
            Some(j) => j,
            None => {
                return Err(String::from_str("JSON parse error"));
            },
        };
        let fuel = t.len();
        proof {
            assert(spec_charts_model(charts@) =~= Seq::<(int, Seq<CapacityPoint>)>::empty());
        }
        let k: usize = if j < t.len() && t[j] == ']' {
            j
        } else {
            match e_charts(&t, j, fuel, &mut charts) {
                Some(k) => k,
                None => {
                    return Err(String::from_str("JSON parse error"));
                },
            }
        };
        let end = match e_lit(&t, k, "]}") {
            Some(e) => e,
            None => {
                return Err(String::from_str("JSON parse error"));
            },
        };
        if end != t.len() {
            return Err(String::from_str("JSON parse error"));
        }
        proof {
            assert(spec_charts_model(charts@).len() == charts@.len());
            assert(spec_charts_match(charts@, spec_json_charts(json_data@)));
        }
        Ok(charts)
    }
}

/// A non-blank data row extends the parsed rows by its parsed triple.
proof fn lemma_csv_step(s: Seq<char>, i: int, boom: int, radius: int, capacity: int)
    requires
        0 <= i < spec_lines(s).len(),
        !spec_blank(spec_lines(s)[i]),
        boom == spec_token_milli(spec_trim(spec_split(spec_lines(s)[i], ',')[0])),
        radius == spec_token_milli(spec_trim(spec_split(spec_lines(s)[i], ',')[1])),
        capacity == spec_token_unit(spec_trim(spec_split(spec_lines(s)[i], ',')[2])),
    ensures
        i >= 1 ==> ({
            let rows = spec_csv_rows(spec_lines(s), i + 1);
            &&& rows == spec_csv_rows(spec_lines(s), i).push((boom, radius, capacity))
            &&& rows.len() == spec_csv_rows(spec_lines(s), i).len() + 1
            &&& rows.last() == (boom, radius, capacity)
            &&& rows.drop_last() == spec_csv_rows(spec_lines(s), i)
        }),
{
    if i >= 1 {
        let prev = spec_csv_rows(spec_lines(s), i);
        let rows = spec_csv_rows(spec_lines(s), i + 1);
        assert(rows == prev.push((boom, radius, capacity)));
        assert(rows.drop_last() =~= prev);
    }
}

/// After one grouped insertion the charts still realize the group model.
proof fn lemma_csv_group_step(
    charts: Seq<LoadChart>,
    g: Seq<(int, Seq<CapacityPoint>)>,
    boom: int,
    radius: int,
    capacity: int,
    lines: Seq<Seq<char>>,
    i: int,
)
    requires
        0 <= radius <= MAX_RADIUS_MM,
        0 <= boom <= MAX_RADIUS_MM,
        0 <= capacity <= MAX_CAPACITY_KG,
        ({
            let rows = spec_csv_rows(lines, i + 1);
            &&& 1 <= i + 1
            &&& rows.len() >= 1
            &&& rows.last() == (boom, radius, capacity)
            &&& rows.drop_last() == spec_csv_rows(lines, i)
        }),
        ({
            let p = CapacityPoint { radius_mm: radius as i64, capacity_kg: capacity as i64 };
            match spec_group_idx(g, key_dm(boom)) {
                Some(k) => charts.len() == g.len() && 0 <= k < g.len() && (forall|j: int|
                    0 <= j < g.len() && j != k ==> (#[trigger] charts[j]).boom_length_mm == g[j].0
                        && charts[j].points@ == g[j].1) && charts[k].boom_length_mm == g[k].0
                    && charts[k].points@ == g[k].1.insert(count_le(g[k].1, radius), p),
                None => charts.len() == g.len() + 1 && (forall|j: int| 0 <= j < g.len()
                    ==> (#[trigger] charts[j]).boom_length_mm == g[j].0 && charts[j].points@
                    == g[j].1) && charts[g.len() as int].boom_length_mm == boom
                    && charts[g.len() as int].points@ == seq![p],
            }
        }),
        g == spec_csv_groups(spec_csv_rows(lines, i), spec_csv_rows(lines, i).len() as int),
    ensures
        spec_charts_match(charts, spec_csv_groups(spec_csv_rows(lines, i + 1),
            spec_csv_rows(lines, i + 1).len() as int)),
{
    let rows = spec_csv_rows(lines, i + 1);
    let n = rows.len() as int;
    assert(spec_csv_groups(rows, n - 1) == g) by {
        assert(spec_csv_rows(lines, i) == rows.drop_last());
        lemma_csv_groups_prefix(rows, n - 1);
    };
    let p = CapacityPoint { radius_mm: radius as i64, capacity_kg: capacity as i64 };
    let gn = spec_csv_groups(rows, n);
    match spec_group_idx(g, key_dm(boom)) {
        Some(k) => {
            assert(gn == g.update(k, (g[k].0, g[k].1.insert(count_le(g[k].1, radius), p))));
            assert forall|j: int| 0 <= j < gn.len() implies (#[trigger] charts[j]).boom_length_mm
                == gn[j].0 && charts[j].points@ == gn[j].1 by {
                if j != k {
                    assert(gn[j] == g[j]);
                }
            };
        },
        None => {
            assert(gn == g.push((boom, seq![p])));
            assert forall|j: int| 0 <= j < gn.len() implies (#[trigger] charts[j]).boom_length_mm
                == gn[j].0 && charts[j].points@ == gn[j].1 by {
                if j < g.len() {
                    assert(gn[j] == g[j]);
                }
            };
        },
    }
}

/// Group folding only reads the prefix it is given.
proof fn lemma_csv_groups_prefix(rows: Seq<(int, int, int)>, n: int)
    requires
        0 <= n <= rows.len(),
    ensures
        spec_csv_groups(rows, n) == spec_csv_groups(rows.drop_last(), n) || n == rows.len(),
        n < rows.len() ==> spec_csv_groups(rows, n) == spec_csv_groups(rows.drop_last(), n),
    decreases n,
{
    if n > 0 && n < rows.len() {
        lemma_csv_groups_prefix(rows, n - 1);
        assert(rows.drop_last()[n - 1] == rows[n - 1]);
    }
}

} // verus!
