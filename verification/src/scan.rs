//! Scanning of text as sequences of `char`: searching, trimming, splitting
//! into lines and fields, and reading numbers, each with the meaning that
//! the standard library's string methods give it.

use vstd::prelude::*;

verus! {

/// `n` occurs in `h` at position `i`.
pub open spec fn occurs_at(h: Seq<char>, n: Seq<char>, i: int) -> bool {
    0 <= i && i + n.len() <= h.len() && h.subrange(i, i + n.len()) == n
}

/// `n` occurs somewhere in `h` (the empty sequence occurs everywhere).
pub open spec fn contains_seq(h: Seq<char>, n: Seq<char>) -> bool {
    exists|i: int| occurs_at(h, n, i)
}

/// `i` is the first position at which `n` occurs in `h`.
pub open spec fn first_occurrence(h: Seq<char>, n: Seq<char>, i: int) -> bool {
    &&& occurs_at(h, n, i)
    &&& forall|j: int| 0 <= j < i ==> !occurs_at(h, n, j)
}

/// The first position at which `n` occurs in `h`, if it occurs (`str::find`).
pub open spec fn find_spec(h: Seq<char>, n: Seq<char>) -> Option<int> {
    if contains_seq(h, n) {
        Some(choose|i: int| first_occurrence(h, n, i))
    } else {
        None
    }
}

/// The first occurrence is unique, so it is what [`find_spec`] names.
pub proof fn lemma_find_spec(h: Seq<char>, n: Seq<char>, i: int)
    requires
        first_occurrence(h, n, i),
    ensures
        find_spec(h, n) == Some(i),
{
    assert(contains_seq(h, n));
    let k = choose|k: int| first_occurrence(h, n, k);
    assert(first_occurrence(h, n, k));
    if k < i {
        assert(!occurs_at(h, n, k));
    } else if k > i {
        assert(!occurs_at(h, n, i));
    }
}

/// Whether `n` occurs in `h` at `i`.
fn matches_at(h: &Vec<char>, n: &Vec<char>, i: usize) -> (r: bool)
    requires
        i + n@.len() <= h@.len(),
    ensures
        r == occurs_at(h@, n@, i as int),
{
    let h_len = h.len();
    let mut k: usize = 0;
    while k < n.len()
        invariant
            k <= n@.len(),
            h_len == h@.len(),
            i + n@.len() <= h@.len(),
            forall|j: int| 0 <= j < k ==> h@[i + j] == n@[j],
        decreases n@.len() - k,
    {
        if h[i + k] != n[k] {
            assert(h@.subrange(i as int, i + n@.len())[k as int] != n@[k as int]);
            return false;
        }
        k += 1;
    }
    assert(h@.subrange(i as int, i + n@.len()) =~= n@);
    true
}

/// The first position at which `n` occurs in `h` (`str::find`).
pub fn find_chars(h: &Vec<char>, n: &Vec<char>) -> (r: Option<usize>)
    ensures
        match r {
            Some(i) => first_occurrence(h@, n@, i as int) && find_spec(h@, n@) == Some(i as int),
            None => !contains_seq(h@, n@) && find_spec(h@, n@) is None,
        },
{
    if n.len() > h.len() {
        assert forall|j: int| !occurs_at(h@, n@, j) by {}
        return None;
    }
    let last = h.len() - n.len();
    let mut i: usize = 0;
    while i <= last
        invariant
            last + n@.len() == h@.len(),
            forall|j: int| 0 <= j < i ==> !occurs_at(h@, n@, j),
        decreases last + 1 - i,
    {
        if matches_at(h, n, i) {
            proof {
                lemma_find_spec(h@, n@, i as int);
            }
            return Some(i);
        }
        if i == last {
            assert forall|j: int| !occurs_at(h@, n@, j) by {
                if 0 <= j && j < i {
                } else if j == i {
                } else {
                }
            }
            return None;
        }
        i += 1;
    }
    None
}

/// Whether `n` occurs in `h` (`str::contains`).
pub fn contains_chars(h: &Vec<char>, n: &Vec<char>) -> (r: bool)
    ensures
        r == contains_seq(h@, n@),
{
    match find_chars(h, n) {
        Some(_) => true,
        None => false,
    }
}

/// Whether `n` occurs in `h`, for a literal `n`.
pub fn contains_str(h: &Vec<char>, n: &str) -> (r: bool)
    ensures
        r == contains_seq(h@, n@),
{
    let nc = crate::text::chars_of(n);
    contains_chars(h, &nc)
}

/// `h` begins with `p`.
pub open spec fn starts_with_seq(h: Seq<char>, p: Seq<char>) -> bool {
    p.len() <= h.len() && h.subrange(0, p.len() as int) == p
}

/// Whether `h` begins with `p` (`str::starts_with`).
pub fn starts_with_str(h: &Vec<char>, p: &str) -> (r: bool)
    ensures
        r == starts_with_seq(h@, p@),
{
    let pc = crate::text::chars_of(p);
    if pc.len() > h.len() {
        return false;
    }
    matches_at(h, &pc, 0)
}

/// The characters that `char::is_whitespace` accepts (Unicode White_Space).
pub open spec fn is_ws(c: char) -> bool {
    ||| c == ' ' || c == '\t' || c == '\n' || c == '\r'
    ||| c == '\u{0B}' || c == '\u{0C}' || c == '\u{85}' || c == '\u{A0}' || c == '\u{1680}'
    ||| ('\u{2000}' <= c && c <= '\u{200A}')
    ||| c == '\u{2028}' || c == '\u{2029}' || c == '\u{202F}' || c == '\u{205F}' || c == '\u{3000}'
}

/// Executable form of [`is_ws`].
pub fn is_whitespace(c: char) -> (r: bool)
    ensures
        r == is_ws(c),
{
    c == ' ' || c == '\t' || c == '\n' || c == '\r' || c == '\u{0B}' || c == '\u{0C}' || c == '\u{85}'
        || c == '\u{A0}' || c == '\u{1680}' || ('\u{2000}' <= c && c <= '\u{200A}') || c == '\u{2028}'
        || c == '\u{2029}' || c == '\u{202F}' || c == '\u{205F}' || c == '\u{3000}'
}

/// Leading whitespace removed.
pub open spec fn trim_start_seq(s: Seq<char>) -> Seq<char>
    decreases s.len(),
{
    if s.len() > 0 && is_ws(s[0]) {
        trim_start_seq(s.drop_first())
    } else {
        s
    }
}

/// Trailing whitespace removed.
pub open spec fn trim_end_seq(s: Seq<char>) -> Seq<char>
    decreases s.len(),
{
    if s.len() > 0 && is_ws(s.last()) {
        trim_end_seq(s.drop_last())
    } else {
        s
    }
}

/// Whitespace removed at both ends (`str::trim`).
pub open spec fn trim_seq(s: Seq<char>) -> Seq<char> {
    trim_end_seq(trim_start_seq(s))
}

/// A copy of `v[lo..hi]`.
pub fn slice_chars(v: &Vec<char>, lo: usize, hi: usize) -> (r: Vec<char>)
    requires
        lo <= hi <= v@.len(),
    ensures
        r@ == v@.subrange(lo as int, hi as int),
{
    let mut out: Vec<char> = Vec::new();
    let mut i: usize = lo;
    while i < hi
        invariant
            lo <= i <= hi <= v@.len(),
            out@ == v@.subrange(lo as int, i as int),
        decreases hi - i,
    {
        out.push(v[i]);
        assert(v@.subrange(lo as int, i + 1) =~= v@.subrange(lo as int, i as int).push(v@[i as int]));
        i += 1;
    }
    out
}

/// `s` without its leading and trailing whitespace.
pub fn trim_chars(s: &Vec<char>) -> (r: Vec<char>)
    ensures
        r@ == trim_seq(s@),
{
    let mut lo: usize = 0;
    assert(s@.subrange(0, s@.len() as int) =~= s@);
    while lo < s.len() && is_whitespace(s[lo])
        invariant
            lo <= s@.len(),
            trim_start_seq(s@) == trim_start_seq(s@.subrange(lo as int, s@.len() as int)),
        decreases s@.len() - lo,
    {
        assert(s@.subrange(lo as int, s@.len() as int).drop_first() =~= s@.subrange(lo + 1, s@.len() as int));
        lo += 1;
    }
    let ghost t = s@.subrange(lo as int, s@.len() as int);
    assert(trim_start_seq(s@) == t);
    let mut hi: usize = s.len();
    assert(t.subrange(0, t.len() as int) =~= t);
    while hi > lo && is_whitespace(s[hi - 1])
        invariant
            lo <= hi <= s@.len(),
            t == s@.subrange(lo as int, s@.len() as int),
            trim_end_seq(t) == trim_end_seq(s@.subrange(lo as int, hi as int)),
        decreases hi,
    {
        assert(s@.subrange(lo as int, hi as int).drop_last() =~= s@.subrange(lo as int, hi - 1));
        hi -= 1;
    }
    slice_chars(s, lo, hi)
}


/// The view of a list of character vectors.
pub open spec fn pieces_view(v: Seq<Vec<char>>) -> Seq<Seq<char>> {
    v.map_values(|p: Vec<char>| p@)
}

/// `str::split` on one character, as a fold: the pieces closed so far and
/// the piece still open.
pub open spec fn split_acc(s: Seq<char>, c: char) -> (Seq<Seq<char>>, Seq<char>)
    decreases s.len(),
{
    if s.len() == 0 {
        (Seq::empty(), Seq::empty())
    } else {
        let (ps, cur) = split_acc(s.drop_last(), c);
        if s.last() == c {
            (ps.push(cur), Seq::empty())
        } else {
            (ps, cur.push(s.last()))
        }
    }
}

/// The pieces of `s` between occurrences of `c` (`str::split`).
pub open spec fn split_seq(s: Seq<char>, c: char) -> Seq<Seq<char>> {
    split_acc(s, c).0.push(split_acc(s, c).1)
}

/// Executable form of [`split_seq`].
pub fn split_chars(s: &Vec<char>, c: char) -> (r: Vec<Vec<char>>)
    ensures
        pieces_view(r@) == split_seq(s@, c),
{
    let mut out: Vec<Vec<char>> = Vec::new();
    let mut cur: Vec<char> = Vec::new();
    let mut i: usize = 0;
    while i < s.len()
        invariant
            i <= s@.len(),
            (pieces_view(out@), cur@) == split_acc(s@.take(i as int), c),
        decreases s@.len() - i,
    {
        assert(s@.take(i + 1).drop_last() =~= s@.take(i as int));
        if s[i] == c {
            let done = cur;
            out.push(done);
            cur = Vec::new();
            assert(pieces_view(out@) =~= split_acc(s@.take(i as int), c).0.push(split_acc(s@.take(i as int), c).1));
        } else {
            cur.push(s[i]);
        }
        i += 1;
    }
    assert(s@.take(s@.len() as int) =~= s@);
    out.push(cur);
    assert(pieces_view(out@) =~= split_seq(s@, c));
    out
}

/// A line without the carriage return of a CRLF ending.
pub open spec fn strip_cr(l: Seq<char>) -> Seq<char> {
    if l.len() > 0 && l.last() == '\r' { l.drop_last() } else { l }
}

/// `str::lines` as a fold: the lines ended so far and the line still open.
pub open spec fn lines_acc(s: Seq<char>) -> (Seq<Seq<char>>, Seq<char>)
    decreases s.len(),
{
    if s.len() == 0 {
        (Seq::empty(), Seq::empty())
    } else {
        let (ls, cur) = lines_acc(s.drop_last());
        if s.last() == '\n' {
            (ls.push(strip_cr(cur)), Seq::empty())
        } else {
            (ls, cur.push(s.last()))
        }
    }
}

/// The lines of `s` (`str::lines`): split at `\n`, a `\r` before it
/// dropped, and no empty line after a final line ending.
pub open spec fn lines_seq(s: Seq<char>) -> Seq<Seq<char>> {
    let (ls, cur) = lines_acc(s);
    if cur.len() > 0 { ls.push(cur) } else { ls }
}

/// `cur` without a final carriage return.
fn strip_cr_exec(cur: Vec<char>) -> (r: Vec<char>)
    ensures
        r@ == strip_cr(cur@),
{
    let mut cur = cur;
    if cur.len() > 0 && cur[cur.len() - 1] == '\r' {
        cur.pop();
    }
    cur
}

/// Executable form of [`lines_seq`].
pub fn lines_of(s: &Vec<char>) -> (r: Vec<Vec<char>>)
    ensures
        pieces_view(r@) == lines_seq(s@),
{
    let mut out: Vec<Vec<char>> = Vec::new();
    let mut cur: Vec<char> = Vec::new();
    let mut i: usize = 0;
    while i < s.len()
        invariant
            i <= s@.len(),
            (pieces_view(out@), cur@) == lines_acc(s@.take(i as int)),
        decreases s@.len() - i,
    {
        assert(s@.take(i + 1).drop_last() =~= s@.take(i as int));
        if s[i] == '\n' {
            let line = strip_cr_exec(cur);
            out.push(line);
            cur = Vec::new();
            assert(pieces_view(out@) =~= lines_acc(s@.take(i + 1)).0);
        } else {
            cur.push(s[i]);
        }
        i += 1;
    }
    assert(s@.take(s@.len() as int) =~= s@);
    if cur.len() > 0 {
        out.push(cur);
        assert(pieces_view(out@) =~= lines_seq(s@));
    }
    out
}

/// `str::split_whitespace` as a fold: the words ended so far and the word
/// still open.
pub open spec fn words_acc(s: Seq<char>) -> (Seq<Seq<char>>, Seq<char>)
    decreases s.len(),
{
    if s.len() == 0 {
        (Seq::empty(), Seq::empty())
    } else {
        let (ws, cur) = words_acc(s.drop_last());
        if is_ws(s.last()) {
            (if cur.len() > 0 { ws.push(cur) } else { ws }, Seq::empty())
        } else {
            (ws, cur.push(s.last()))
        }
    }
}

/// The whitespace-separated words of `s` (`str::split_whitespace`).
pub open spec fn words_seq(s: Seq<char>) -> Seq<Seq<char>> {
    let (ws, cur) = words_acc(s);
    if cur.len() > 0 { ws.push(cur) } else { ws }
}

/// Executable form of [`words_seq`].
pub fn words_of(s: &Vec<char>) -> (r: Vec<Vec<char>>)
    ensures
        pieces_view(r@) == words_seq(s@),
{
    let mut out: Vec<Vec<char>> = Vec::new();
    let mut cur: Vec<char> = Vec::new();
    let mut i: usize = 0;
    while i < s.len()
        invariant
            i <= s@.len(),
            (pieces_view(out@), cur@) == words_acc(s@.take(i as int)),
        decreases s@.len() - i,
    {
        assert(s@.take(i + 1).drop_last() =~= s@.take(i as int));
        if is_whitespace(s[i]) {
            if cur.len() > 0 {
                let w = cur;
                out.push(w);
                assert(pieces_view(out@) =~= words_acc(s@.take(i + 1)).0);
            }
            cur = Vec::new();
        } else {
            cur.push(s[i]);
        }
        i += 1;
    }
    assert(s@.take(s@.len() as int) =~= s@);
    if cur.len() > 0 {
        out.push(cur);
        assert(pieces_view(out@) =~= words_seq(s@));
    }
    out
}

/// A decimal digit.
pub open spec fn is_digit(c: char) -> bool {
    '0' <= c && c <= '9'
}

/// A hexadecimal digit, in either case.
pub open spec fn is_hex_digit(c: char) -> bool {
    is_digit(c) || ('a' <= c && c <= 'f') || ('A' <= c && c <= 'F')
}

/// The value of a digit in base 16 (which covers base 10).
pub open spec fn hex_val(c: char) -> int {
    if is_digit(c) {
        c as int - '0' as int
    } else if 'a' <= c && c <= 'f' {
        c as int - 'a' as int + 10
    } else {
        c as int - 'A' as int + 10
    }
}

/// Every character of `d` is a digit of `base` (10 or 16).
pub open spec fn all_digits(d: Seq<char>, base: int) -> bool {
    forall|i: int| 0 <= i < d.len() ==> if base == 16 { is_hex_digit(#[trigger] d[i]) } else { is_digit(d[i]) }
}

/// The value of the digits `d` in `base`.
pub open spec fn digits_value(d: Seq<char>, base: int) -> int
    decreases d.len(),
{
    if d.len() == 0 {
        0
    } else {
        digits_value(d.drop_last(), base) * base + hex_val(d.last())
    }
}

/// The digits of an unsigned number: a leading `+` is allowed.
pub open spec fn unsigned_digits(s: Seq<char>) -> Seq<char> {
    if s.len() > 0 && s[0] == '+' { s.drop_first() } else { s }
}

/// What `from_str_radix(s, base)` gives for an unsigned type whose largest
/// value is `max`.
pub open spec fn parse_unsigned(s: Seq<char>, base: int, max: int) -> Option<int> {
    let d = unsigned_digits(s);
    if d.len() == 0 || !all_digits(d, base) || digits_value(d, base) > max {
        None
    } else {
        Some(digits_value(d, base))
    }
}

proof fn lemma_digits_value_mono(d: Seq<char>, base: int, i: int)
    requires
        0 <= i <= d.len(),
        base == 10 || base == 16,
        all_digits(d, base),
    ensures
        0 <= digits_value(d.take(i), base) <= digits_value(d, base),
    decreases d.len(),
{
    if d.len() > 0 {
        let p = d.drop_last();
        assert(all_digits(p, base)) by {
            assert forall|k: int| 0 <= k < p.len() implies (if base == 16 { is_hex_digit(#[trigger] p[k]) } else { is_digit(p[k]) }) by {
                assert(p[k] == d[k]);
            }
        }
        if i == d.len() {
            assert(d.take(i) =~= d);
            lemma_digits_value_mono(p, base, p.len() as int);
            assert(p.take(p.len() as int) =~= p);
        } else {
            lemma_digits_value_mono(p, base, i);
            assert(p.take(i) =~= d.take(i));
            lemma_digits_value_mono(p, base, p.len() as int);
            assert(p.take(p.len() as int) =~= p);
        }
        let last = d.last();
        assert(if base == 16 { is_hex_digit(d[d.len() - 1]) } else { is_digit(d[d.len() - 1]) });
        assert(hex_val(last) >= 0);
        assert(digits_value(p, base) * base >= digits_value(p, base)) by (nonlinear_arith)
            requires
                digits_value(p, base) >= 0,
                base >= 1,
        ;
    } else {
        assert(d.take(i) =~= d);
    }
}

/// The value of one digit of `base`, or `None` if `c` is not one.
fn digit_of(c: char, base: u32) -> (r: Option<u32>)
    requires
        base == 10 || base == 16,
    ensures
        match r {
            Some(v) => (if base == 16 { is_hex_digit(c) } else { is_digit(c) }) && v == hex_val(c) && v < base,
            None => !(if base == 16 { is_hex_digit(c) } else { is_digit(c) }),
        },
{
    if '0' <= c && c <= '9' {
        Some((c as u32) - ('0' as u32))
    } else if base == 16 && 'a' <= c && c <= 'f' {
        Some((c as u32) - ('a' as u32) + 10)
    } else if base == 16 && 'A' <= c && c <= 'F' {
        Some((c as u32) - ('A' as u32) + 10)
    } else {
        None
    }
}

/// Reads an unsigned number in `base` no larger than `max`, as
/// `from_str_radix` does.
fn parse_unsigned_chars(s: &Vec<char>, base: u32, max: u32) -> (r: Option<u32>)
    requires
        base == 10 || base == 16,
    ensures
        match parse_unsigned(s@, base as int, max as int) {
            Some(v) => r == Some(v as u32) && 0 <= v <= max,
            None => r is None,
        },
{
    let start: usize = if s.len() > 0 && s[0] == '+' { 1 } else { 0 };
    let ghost d = unsigned_digits(s@);
    assert(d =~= s@.subrange(start as int, s@.len() as int));
    if start >= s.len() {
        assert(d.len() == 0);
        return None;
    }
    let mut i: usize = start;
    while i < s.len()
        invariant
            start <= i <= s@.len(),
            d == s@.subrange(start as int, s@.len() as int),
            d == unsigned_digits(s@),
            base == 10 || base == 16,
            forall|k: int| 0 <= k < i - start ==> if base == 16 { is_hex_digit(#[trigger] d[k]) } else { is_digit(d[k]) },
        decreases s@.len() - i,
    {
        match digit_of(s[i], base) {
            Some(_) => {},
            None => {
                assert(!all_digits(d, base as int)) by {
                    assert(d[i - start] == s@[i as int]);
                }
                return None;
            },
        }
        i += 1;
    }
    assert(all_digits(d, base as int));
    let mut value: u64 = 0;
    let mut j: usize = start;
    assert(d.take(0) =~= Seq::<char>::empty());
    while j < s.len()
        invariant
            start <= j <= s@.len(),
            d == s@.subrange(start as int, s@.len() as int),
            d == unsigned_digits(s@),
            base == 10 || base == 16,
            all_digits(d, base as int),
            value == digits_value(d.take(j - start), base as int),
            value <= max,
        decreases s@.len() - j,
    {
        let dv = match digit_of(s[j], base) {
            Some(v) => v,
            None => 0,
        };
        assert(d[j - start] == s@[j as int]);
        assert(d.take(j - start + 1).drop_last() =~= d.take(j - start));
        assert(value * (base as u64) <= 0xFFFF_FFFFu64 * 16) by (nonlinear_arith)
            requires
                value <= 0xFFFF_FFFFu64,
                base <= 16,
        ;
        value = value * (base as u64) + (dv as u64);
        assert(d.take(j - start + 1).last() == d[j - start]);
        assert(value == digits_value(d.take(j - start + 1), base as int));
        j += 1;
        if value > max as u64 {
            proof {
                lemma_digits_value_mono(d, base as int, j - start);
            }
            return None;
        }
    }
    assert(d.take(d.len() as int) =~= d);
    proof {
        lemma_digits_value_mono(d, base as int, 0);
    }
    Some(value as u32)
}

/// What `str::parse::<u32>` gives.
pub fn parse_u32(s: &Vec<char>) -> (r: Option<u32>)
    ensures
        match parse_unsigned(s@, 10, u32::MAX as int) {
            Some(v) => r == Some(v as u32),
            None => r is None,
        },
{
    parse_unsigned_chars(s, 10, u32::MAX)
}

/// What `u8::from_str_radix(s, 16)` gives.
pub fn parse_hex_u8(s: &Vec<char>) -> (r: Option<u8>)
    ensures
        match parse_unsigned(s@, 16, 255) {
            Some(v) => r == Some(v as u8),
            None => r is None,
        },
{
    match parse_unsigned_chars(s, 16, 255) {
        Some(v) => Some(v as u8),
        None => None,
    }
}

/// The character of a decimal digit.
pub open spec fn digit_char(d: int) -> char {
    if d == 0 { '0' } else if d == 1 { '1' } else if d == 2 { '2' } else if d == 3 { '3' }
    else if d == 4 { '4' } else if d == 5 { '5' } else if d == 6 { '6' } else if d == 7 { '7' }
    else if d == 8 { '8' } else { '9' }
}

/// The decimal digits of `n`, without leading zeros (what `{}` prints).
pub open spec fn decimal_seq(n: nat) -> Seq<char>
    decreases n,
{
    if n < 10 {
        seq![digit_char(n as int)]
    } else {
        decimal_seq(n / 10).push(digit_char((n % 10) as int))
    }
}

fn digit_char_exec(d: u32) -> (c: char)
    ensures
        c == digit_char(d as int),
{
    match d {
        0 => '0',
        1 => '1',
        2 => '2',
        3 => '3',
        4 => '4',
        5 => '5',
        6 => '6',
        7 => '7',
        8 => '8',
        _ => '9',
    }
}

/// The decimal digits of `n`.
pub fn decimal_chars(n: u32) -> (r: Vec<char>)
    ensures
        r@ == decimal_seq(n as nat),
    decreases n,
{
    if n < 10 {
        let mut v: Vec<char> = Vec::new();
        v.push(digit_char_exec(n));
        assert(v@ =~= seq![digit_char(n as int)]);
        v
    } else {
        let mut v = decimal_chars(n / 10);
        v.push(digit_char_exec(n % 10));
        v
    }
}

/// The decimal digits of a 64-bit `n`.
pub fn decimal_chars_u64(n: u64) -> (r: Vec<char>)
    ensures
        r@ == decimal_seq(n as nat),
    decreases n,
{
    if n < 10 {
        let mut v: Vec<char> = Vec::new();
        v.push(digit_char_exec(n as u32));
        assert(v@ =~= seq![digit_char(n as int)]);
        v
    } else {
        let mut v = decimal_chars_u64(n / 10);
        v.push(digit_char_exec((n % 10) as u32));
        v
    }
}

} // verus!
