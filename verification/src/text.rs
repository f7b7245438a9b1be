//! Character-level helpers shared by the parsers and formatters: whitespace
//! classification, ASCII case folding, decimal digits, and substring search.

use vstd::prelude::*;

verus! {

/// The white-space characters recognised by the grammars of this crate
/// (the Unicode `White_Space` set).
pub open spec fn is_space_char(c: char) -> bool {
    c == ' ' || c == '\t' || c == '\n' || c == '\r' || c == '\u{b}' || c == '\u{c}'
        || c == '\u{85}' || c == '\u{a0}' || c == '\u{1680}'
        || ('\u{2000}' <= c && c <= '\u{200a}')
        || c == '\u{2028}' || c == '\u{2029}' || c == '\u{202f}' || c == '\u{205f}'
        || c == '\u{3000}'
}

pub fn is_space(c: char) -> (r: bool)
    ensures
        r == is_space_char(c),
{
    c == ' ' || c == '\t' || c == '\n' || c == '\r' || c == '\u{b}' || c == '\u{c}'
        || c == '\u{85}' || c == '\u{a0}' || c == '\u{1680}'
        || ('\u{2000}' <= c && c <= '\u{200a}')
        || c == '\u{2028}' || c == '\u{2029}' || c == '\u{202f}' || c == '\u{205f}'
        || c == '\u{3000}'
}

pub open spec fn is_digit_char(c: char) -> bool {
    '0' <= c && c <= '9'
}

pub fn is_digit(c: char) -> (r: bool)
    ensures
        r == is_digit_char(c),
{
    '0' <= c && c <= '9'
}

pub open spec fn digit_val(c: char) -> int {
    c as int - '0' as int
}

/// The number denoted by a sequence of decimal digits, most significant first.
pub open spec fn digits_val(s: Seq<char>) -> int
    decreases s.len(),
{
    if s.len() == 0 {
        0
    } else {
        digits_val(s.drop_last()) * 10 + digit_val(s.last())
    }
}

/// The canonical decimal notation of `n`: no leading zeros except for 0 itself.
pub open spec fn dec_digits(n: int) -> Seq<char>
    decreases n,
{
    if n <= 0 {
        seq!['0']
    } else if n < 10 {
        seq![digit_char(n)]
    } else {
        dec_digits(n / 10).push(digit_char(n % 10))
    }
}

pub open spec fn digit_char(d: int) -> char {
    if d == 0 { '0' } else if d == 1 { '1' } else if d == 2 { '2' } else if d == 3 { '3' }
    else if d == 4 { '4' } else if d == 5 { '5' } else if d == 6 { '6' } else if d == 7 { '7' }
    else if d == 8 { '8' } else { '9' }
}

/// Collects the characters of a string slice into a vector.
pub fn chars_of(s: &str) -> (r: Vec<char>)
    ensures
        r@ == s@,
{
    let n = s.unicode_len();
    let mut r: Vec<char> = Vec::new();
    let mut i: usize = 0;
    while i < n
        invariant
            n == s@.len(),
            i <= n,
            r@ == s@.subrange(0, i as int),
        decreases n - i,
    {
        r.push(s.get_char(i));
        i = i + 1;
        proof {
            assert(r@ =~= s@.subrange(0, i as int));
        }
    }
    proof {
        assert(r@ =~= s@);
    }
    r
}

/// Relies on std's `String::push`: appends one character.
#[verifier::external_body]
pub fn push_char(s: &mut String, c: char)
    ensures
        final(s)@ == old(s)@ + seq![c],
{
    s.push(c)
}

/// Builds a string out of a character vector.
pub fn string_of(v: &Vec<char>) -> (r: String)
    ensures
        r@ == v@,
{
    let mut r = String::new();
    let mut i: usize = 0;
    while i < v.len()
        invariant
            i <= v@.len(),
            r@ == v@.subrange(0, i as int),
        decreases v@.len() - i,
    {
        push_char(&mut r, v[i]);
        i = i + 1;
        proof {
            assert(r@ =~= v@.subrange(0, i as int));
        }
    }
    proof {
        assert(r@ =~= v@);
    }
    r
}

proof fn lemma_digits_val_nonneg(s: Seq<char>)
    requires
        forall|i: int| 0 <= i < s.len() ==> is_digit_char(#[trigger] s[i]),
    ensures
        digits_val(s) >= 0,
    decreases s.len(),
{
    if s.len() > 0 {
        lemma_digits_val_nonneg(s.drop_last());
    }
}

/// Extending a digit string multiplies its value by at least ten.
proof fn lemma_digits_val_extend_ge(s: Seq<char>, k: int)
    requires
        0 <= k <= s.len(),
        forall|i: int| 0 <= i < s.len() ==> is_digit_char(#[trigger] s[i]),
    ensures
        digits_val(s) >= digits_val(s.subrange(0, k)),
    decreases s.len() - k,
{
    lemma_digits_val_nonneg(s.subrange(0, k));
    if k < s.len() {
        lemma_digits_val_extend_ge(s, k + 1);
        let t = s.subrange(0, k + 1);
        assert(t.drop_last() =~= s.subrange(0, k));
        assert(digits_val(t) == digits_val(s.subrange(0, k)) * 10 + digit_val(s[k]));
        lemma_digits_val_nonneg(s.subrange(0, k));
        assert(digits_val(s.subrange(0, k)) * 10 >= digits_val(s.subrange(0, k))) by (nonlinear_arith)
            requires digits_val(s.subrange(0, k)) >= 0;
    } else {
        assert(s.subrange(0, k) =~= s);
    }
}

/// Whether `s[from..to]` is a non-empty run of digits denoting a value
/// that fits in a `u64`.
pub open spec fn is_u64_digits(s: Seq<char>, from: int, to: int) -> bool {
    &&& 0 <= from < to <= s.len()
    &&& (forall|i: int| from <= i < to ==> is_digit_char(#[trigger] s[i]))
    &&& digits_val(s.subrange(from, to)) <= u64::MAX
}

/// Reads the decimal number in `s[from..to]`; `None` when the range is empty,
/// holds a non-digit, or denotes a value over `u64::MAX`.
pub fn parse_u64(s: &Vec<char>, from: usize, to: usize) -> (r: Option<u64>)
    requires
        from <= to <= s@.len(),
    ensures
        match r {
            Some(v) => is_u64_digits(s@, from as int, to as int)
                && v == digits_val(s@.subrange(from as int, to as int)),
            None => !is_u64_digits(s@, from as int, to as int),
        },
{
    if from == to {
        return None;
    }
    let mut v: u64 = 0;
    let mut i: usize = from;
    while i < to
        invariant
            from <= i <= to <= s@.len(),
            forall|j: int| from <= j < i ==> is_digit_char(#[trigger] s@[j]),
            v == digits_val(s@.subrange(from as int, i as int)),
        decreases to - i,
    {
        let c = s[i];
        if !is_digit(c) {
            return None;
        }
        let d: u64 = (c as u32 as u64) - 48;
        assert(d == digit_val(c) && d <= 9);
        if v > (u64::MAX - d) / 10 {
            proof {
                let ghost full = s@.subrange(from as int, to as int);
                let ghost pre1 = s@.subrange(from as int, i + 1);
                assert(pre1.drop_last() =~= s@.subrange(from as int, i as int));
                assert(digits_val(pre1) == v * 10 + d);
                assert(v * 10 + d > u64::MAX) by (nonlinear_arith)
                    requires v > (u64::MAX - d) / 10, d <= 9, v <= u64::MAX;
                if is_u64_digits(s@, from as int, to as int) {
                    lemma_digits_val_extend_ge(full, i + 1 - from);
                    assert(full.subrange(0, i + 1 - from) =~= pre1);
                }
            }
            return None;
        }
        proof {
            let ghost pre1 = s@.subrange(from as int, i + 1);
            assert(pre1.drop_last() =~= s@.subrange(from as int, i as int));
        }
        v = v * 10 + d;
        i = i + 1;
    }
    proof {
        assert(s@.subrange(from as int, to as int) =~= s@.subrange(from as int, i as int));
    }
    Some(v)
}

/// Writes `n` in decimal.
pub fn fmt_u64(n: u64) -> (r: String)
    ensures
        r@ == dec_digits(n as int),
{
    let mut digits: Vec<char> = Vec::new();
    let mut m: u64 = n;
    if m == 0 {
        digits.push('0');
    }
    while m > 0
        invariant
            n > 0 ==> m <= n && (m > 0 ==> dec_digits(n as int)
                =~= dec_digits(m as int) + digits@),
            n > 0 && m == 0 ==> dec_digits(n as int) =~= digits@,
            n == 0 ==> m == 0 && digits@ =~= dec_digits(0),
        decreases m,
    {
        let d = m % 10;
        let c: char = if d == 0 { '0' } else if d == 1 { '1' } else if d == 2 { '2' }
            else if d == 3 { '3' } else if d == 4 { '4' } else if d == 5 { '5' }
            else if d == 6 { '6' } else if d == 7 { '7' } else if d == 8 { '8' } else { '9' };
        assert(c == digit_char(d as int));
        proof {
            if m >= 10 {
                assert(dec_digits(m as int) =~= dec_digits(m as int / 10).push(digit_char(m as int % 10)));
            } else {
                assert(dec_digits(m as int) =~= seq![digit_char(m as int)]);
            }
        }
        digits.insert(0, c);
        m = m / 10;
    }
    string_of(&digits)
}

/// The ASCII lower-case fold of one character.
pub open spec fn lower_char(c: char) -> char {
    if c == 'A' { 'a' } else if c == 'B' { 'b' } else if c == 'C' { 'c' }
    else if c == 'D' { 'd' } else if c == 'E' { 'e' } else if c == 'F' { 'f' }
    else if c == 'G' { 'g' } else if c == 'H' { 'h' } else if c == 'I' { 'i' }
    else if c == 'J' { 'j' } else if c == 'K' { 'k' } else if c == 'L' { 'l' }
    else if c == 'M' { 'm' } else if c == 'N' { 'n' } else if c == 'O' { 'o' }
    else if c == 'P' { 'p' } else if c == 'Q' { 'q' } else if c == 'R' { 'r' }
    else if c == 'S' { 's' } else if c == 'T' { 't' } else if c == 'U' { 'u' }
    else if c == 'V' { 'v' } else if c == 'W' { 'w' } else if c == 'X' { 'x' }
    else if c == 'Y' { 'y' } else if c == 'Z' { 'z' } else { c }
}

pub fn lower_char_exec(c: char) -> (r: char)
    ensures
        r == lower_char(c),
{
    if c == 'A' { 'a' } else if c == 'B' { 'b' } else if c == 'C' { 'c' }
    else if c == 'D' { 'd' } else if c == 'E' { 'e' } else if c == 'F' { 'f' }
    else if c == 'G' { 'g' } else if c == 'H' { 'h' } else if c == 'I' { 'i' }
    else if c == 'J' { 'j' } else if c == 'K' { 'k' } else if c == 'L' { 'l' }
    else if c == 'M' { 'm' } else if c == 'N' { 'n' } else if c == 'O' { 'o' }
    else if c == 'P' { 'p' } else if c == 'Q' { 'q' } else if c == 'R' { 'r' }
    else if c == 'S' { 's' } else if c == 'T' { 't' } else if c == 'U' { 'u' }
    else if c == 'V' { 'v' } else if c == 'W' { 'w' } else if c == 'X' { 'x' }
    else if c == 'Y' { 'y' } else if c == 'Z' { 'z' } else { c }
}

/// The ASCII lower-case fold of a string.
pub open spec fn lower_seq(s: Seq<char>) -> Seq<char> {
    s.map_values(|c: char| lower_char(c))
}

pub fn lower_chars(s: &Vec<char>) -> (r: Vec<char>)
    ensures
        r@ == lower_seq(s@),
{
    let mut r: Vec<char> = Vec::new();
    let mut i: usize = 0;
    while i < s.len()
        invariant
            i <= s@.len(),
            r@ == lower_seq(s@.subrange(0, i as int)),
        decreases s@.len() - i,
    {
        r.push(lower_char_exec(s[i]));
        i = i + 1;
        proof {
            assert(r@ =~= lower_seq(s@.subrange(0, i as int)));
        }
    }
    proof {
        assert(r@ =~= lower_seq(s@));
    }
    r
}

/// Whether `needle` occurs as a contiguous run inside `hay`.
pub open spec fn contains_seq(hay: Seq<char>, needle: Seq<char>) -> bool {
    exists|i: int|
        0 <= i && i + needle.len() <= hay.len()
            && #[trigger] hay.subrange(i, i + needle.len()) =~= needle
}

pub fn contains_chars(hay: &Vec<char>, needle: &Vec<char>) -> (r: bool)
    ensures
        r == contains_seq(hay@, needle@),
{
    if needle.len() > hay.len() {
        proof {
            assert(!contains_seq(hay@, needle@));
        }
        return false;
    }
    if needle.len() == 0 {
        proof {
            let ghost w: int = 0;
            assert(hay@.subrange(w, w + needle@.len()) =~= needle@);
        }
        return true;
    }
    let hn: usize = hay.len();
    let nn: usize = needle.len();
    let mut i: usize = 0;
    while nn <= hn - i
        invariant
            hn == hay@.len(),
            nn == needle@.len(),
            0 < nn <= hn,
            i <= hn,
            forall|k: int| 0 <= k < i ==> !(#[trigger] hay@.subrange(k, k + needle@.len()) =~= needle@),
        decreases hn - i,
    {
        let mut j: usize = 0;
        let mut ok = true;
        while j < nn
            invariant
                hn == hay@.len(),
                nn == needle@.len(),
                ok ==> (forall|t: int| 0 <= t < j ==> hay@[i + t] == needle@[t]),
                i + nn <= hn,
                j <= nn,
                !ok ==> !(hay@.subrange(i as int, i + needle@.len()) =~= needle@),
            decreases nn - j,
        {
            if hay[i + j] != needle[j] {
                proof {
                    assert(hay@.subrange(i as int, i + needle@.len())[j as int] != needle@[j as int]);
                }
                ok = false;
                j = nn;
            } else {
                j = j + 1;
            }
        }
        if ok {
            proof {
                assert(hay@.subrange(i as int, i + needle@.len()) =~= needle@);
            }
            return true;
        }
        i = i + 1;
    }
    proof {
        assert forall|k: int| 0 <= k && k + needle@.len() <= hay@.len()
            implies !(#[trigger] hay@.subrange(k, k + needle@.len()) =~= needle@) by {
            assert(k < i);
        }
        assert(!contains_seq(hay@, needle@));
    }
    false
}

/// The first position at or after `i` that does not hold white space.
pub open spec fn skip_spaces(s: Seq<char>, i: int) -> int
    decreases s.len() - i,
{
    if i < 0 || i >= s.len() || !is_space_char(s[i]) {
        i
    } else {
        skip_spaces(s, i + 1)
    }
}

/// The position after the last non-space character before `hi`.
pub open spec fn rtrim_end(s: Seq<char>, hi: int) -> int
    decreases hi,
{
    if hi <= 0 || hi > s.len() || !is_space_char(s[hi - 1]) {
        hi
    } else {
        rtrim_end(s, hi - 1)
    }
}

/// `s` without leading and trailing white space.
pub open spec fn trim_seq(s: Seq<char>) -> Seq<char> {
    let lo = skip_spaces(s, 0);
    let hi = rtrim_end(s, s.len() as int);
    if lo <= hi {
        s.subrange(lo, hi)
    } else {
        Seq::empty()
    }
}

pub fn skip_spaces_exec(s: &Vec<char>, i: usize) -> (r: usize)
    requires
        i <= s@.len(),
    ensures
        r == skip_spaces(s@, i as int),
        i <= r <= s@.len(),
{
    let mut j = i;
    while j < s.len() && is_space(s[j])
        invariant
            i <= j <= s@.len(),
            skip_spaces(s@, i as int) == skip_spaces(s@, j as int),
        decreases s@.len() - j,
    {
        j = j + 1;
    }
    j
}

pub fn rtrim_end_exec(s: &Vec<char>, hi: usize) -> (r: usize)
    requires
        hi <= s@.len(),
    ensures
        r == rtrim_end(s@, hi as int),
        r <= hi,
{
    let mut j = hi;
    while j > 0 && is_space(s[j - 1])
        invariant
            j <= hi <= s@.len(),
            rtrim_end(s@, hi as int) == rtrim_end(s@, j as int),
        decreases j,
    {
        j = j - 1;
    }
    j
}

/// `s` without leading and trailing white space.
pub fn trim_str(s: &str) -> (r: String)
    ensures
        r@ == trim_seq(s@),
{
    let v = chars_of(s);
    let lo = skip_spaces_exec(&v, 0);
    let hi = rtrim_end_exec(&v, v.len());
    let mut piece: Vec<char> = Vec::new();
    if lo < hi {
        let mut k = lo;
        while k < hi
            invariant
                lo <= k <= hi <= v@.len(),
                piece@ == v@.subrange(lo as int, k as int),
            decreases hi - k,
        {
            piece.push(v[k]);
            k = k + 1;
            proof {
                assert(piece@ =~= v@.subrange(lo as int, k as int));
            }
        }
    }
    proof {
        if skip_spaces(v@, 0) <= rtrim_end(v@, v@.len() as int) && lo >= hi {
            assert(v@.subrange(lo as int, hi as int) =~= Seq::<char>::empty());
        }
        assert(piece@ =~= trim_seq(s@));
    }
    string_of(&piece)
}

/// Copies `s[from..to]` into a string.
pub fn substring_of(s: &Vec<char>, from: usize, to: usize) -> (r: String)
    requires
        from <= to <= s@.len(),
    ensures
        r@ == s@.subrange(from as int, to as int),
{
    let mut piece: Vec<char> = Vec::new();
    let mut k = from;
    while k < to
        invariant
            from <= k <= to <= s@.len(),
            piece@ == s@.subrange(from as int, k as int),
        decreases to - k,
    {
        piece.push(s[k]);
        k = k + 1;
        proof {
            assert(piece@ =~= s@.subrange(from as int, k as int));
        }
    }
    string_of(&piece)
}

/// Whether two string slices spell the same characters.
pub fn str_eq(a: &str, b: &str) -> (r: bool)
    ensures
        r == (a@ == b@),
{
    let va = chars_of(a);
    let vb = chars_of(b);
    if va.len() != vb.len() {
        proof {
            assert(a@.len() != b@.len());
        }
        return false;
    }
    let mut i: usize = 0;
    while i < va.len()
        invariant
            va@ == a@,
            vb@ == b@,
            va@.len() == vb@.len(),
            i <= va@.len(),
            forall|k: int| 0 <= k < i ==> a@[k] == b@[k],
        decreases va@.len() - i,
    {
        if va[i] != vb[i] {
            return false;
        }
        i = i + 1;
    }
    proof {
        assert(a@ =~= b@);
    }
    true
}

/// Every white-space character replaced by `+`, one for one.
pub open spec fn plus_for_whitespace(s: Seq<char>) -> Seq<char> {
    s.map_values(|c: char| if is_space_char(c) { '+' } else { c })
}

/// Replaces each white-space character by `+`.
pub fn replace_whitespace(s: &str) -> (r: String)
    ensures
        r@ == plus_for_whitespace(s@),
{
    let v = chars_of(s);
    let mut out: Vec<char> = Vec::new();
    let mut i: usize = 0;
    while i < v.len()
        invariant
            v@ == s@,
            i <= v@.len(),
            out@ == plus_for_whitespace(v@.subrange(0, i as int)),
        decreases v@.len() - i,
    {
        if is_space(v[i]) {
            out.push('+');
        } else {
            out.push(v[i]);
        }
        i = i + 1;
        proof {
            assert(out@ =~= plus_for_whitespace(v@.subrange(0, i as int)));
        }
    }
    proof {
        assert(out@ =~= plus_for_whitespace(s@));
    }
    string_of(&out)
}

/// Every maximal run of white space replaced by a single `+`: a character
/// is kept unless it is white space, in which case it becomes `+` when not
/// preceded by white space and vanishes otherwise.
pub open spec fn plus_for_space_runs(s: Seq<char>) -> Seq<char>
    decreases s.len(),
{
    if s.len() == 0 {
        s
    } else {
        let rest = plus_for_space_runs(s.drop_last());
        if !is_space_char(s.last()) {
            rest.push(s.last())
        } else if s.len() >= 2 && is_space_char(s[s.len() - 2]) {
            rest
        } else {
            rest.push('+')
        }
    }
}

/// Collapses each run of white space into a single `+`.
pub fn replace_space_runs(s: &str) -> (r: String)
    ensures
        r@ == plus_for_space_runs(s@),
{
    let v = chars_of(s);
    let mut out: Vec<char> = Vec::new();
    let mut i: usize = 0;
    while i < v.len()
        invariant
            v@ == s@,
            i <= v@.len(),
            out@ == plus_for_space_runs(v@.subrange(0, i as int)),
        decreases v@.len() - i,
    {
        proof {
            assert(v@.subrange(0, i + 1).drop_last() =~= v@.subrange(0, i as int));
        }
        if !is_space(v[i]) {
            out.push(v[i]);
        } else if i >= 1 && is_space(v[i - 1]) {
            // inside a run: nothing to add
        } else {
            out.push('+');
        }
        i = i + 1;
        proof {
            assert(out@ =~= plus_for_space_runs(v@.subrange(0, i as int)));
        }
    }
    proof {
        assert(v@.subrange(0, v@.len() as int) =~= v@);
    }
    string_of(&out)
}

/// Case-insensitive (ASCII fold) substring match, the sense in which the
/// store searches titles.
pub open spec fn contains_ci(hay: Seq<char>, needle: Seq<char>) -> bool {
    contains_seq(lower_seq(hay), lower_seq(needle))
}

pub fn contains_chars_ci(hay: &Vec<char>, needle: &Vec<char>) -> (r: bool)
    ensures
        r == contains_ci(hay@, needle@),
{
    let h = lower_chars(hay);
    let n = lower_chars(needle);
    contains_chars(&h, &n)
}

} // verus!
