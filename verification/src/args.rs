//! The shell-style argument splitter of the command grammar: tokens are
//! runs without white space, except that a pair of single or double quotes
//! groups one argument; no escape processing happens inside quotes.

use vstd::prelude::*;
use crate::text::{is_space_char, is_space, chars_of, string_of, fmt_u64, dec_digits};

verus! {

pub open spec fn is_quote_char(c: char) -> bool {
    c == '\'' || c == '"'
}

/// The first position in `[from, s.len())` holding `c`, or `s.len()`.
pub open spec fn find_char(s: Seq<char>, c: char, from: int) -> int
    decreases s.len() - from,
{
    if from < 0 || from >= s.len() {
        s.len() as int
    } else if s[from] == c {
        from
    } else {
        find_char(s, c, from + 1)
    }
}

/// The end (exclusive) of the token that starts at `i` (where `s[i]` is not
/// white space): a quoted group runs to its closing quote when one exists
/// beyond at least one inner character; otherwise the token is the maximal
/// run without white space.
pub open spec fn token_end(s: Seq<char>, i: int) -> int {
    let bare = bare_end(s, i);
    if s[i] == '"' || s[i] == '\'' {
        let q = find_char(s, s[i], i + 2);
        if i + 2 <= s.len() && q < s.len() && !has_char_between(s, s[i], i + 1, q) {
            q + 1
        } else {
            bare
        }
    } else {
        bare
    }
}

/// Whether `c` occurs in `s[lo..hi)`.
pub open spec fn has_char_between(s: Seq<char>, c: char, lo: int, hi: int) -> bool {
    exists|k: int| lo <= k < hi && s[k] == c
}

/// The end (exclusive) of the maximal run without white space from `i`.
pub open spec fn bare_end(s: Seq<char>, i: int) -> int
    decreases s.len() - i,
{
    if i < 0 || i >= s.len() || is_space_char(s[i]) {
        i
    } else {
        bare_end(s, i + 1)
    }
}

/// The start of the token after quote characters are trimmed from its front.
pub open spec fn trim_front(s: Seq<char>, lo: int, hi: int) -> int
    decreases hi - lo,
{
    if lo >= hi || !is_quote_char(s[lo]) {
        lo
    } else {
        trim_front(s, lo + 1, hi)
    }
}

/// The end of the token after quote characters are trimmed from its back.
pub open spec fn trim_back(s: Seq<char>, lo: int, hi: int) -> int
    decreases hi - lo,
{
    if lo >= hi || !is_quote_char(s[hi - 1]) {
        hi
    } else {
        trim_back(s, lo, hi - 1)
    }
}

/// The splitter from position `i` on: the arguments of the remaining text,
/// or the starting position of a badly quoted token. A token is badly
/// quoted when trimming quote characters from both of its ends removes a
/// number of characters other than zero or two.
pub open spec fn spec_split_from(s: Seq<char>, i: int) -> Result<Seq<Seq<char>>, int>
    decreases s.len() - i,
{
    if i < 0 || i >= s.len() {
        Ok(Seq::empty())
    } else if is_space_char(s[i]) {
        spec_split_from(s, i + 1)
    } else {
        let end0 = token_end(s, i);
        let end = if end0 <= i { i + 1 } else if end0 > s.len() { s.len() as int } else { end0 };
        let lo = trim_front(s, i, end);
        let hi = trim_back(s, lo, end);
        let removed = (end - i) - (hi - lo);
        if removed != 0 && removed != 2 {
            Err(i)
        } else {
            match spec_split_from(s, end) {
                Ok(rest) => Ok(seq![s.subrange(lo, hi)] + rest),
                Err(p) => Err(p),
            }
        }
    }
}

/// The arguments of `s`, or the position of its first badly quoted token.
pub open spec fn spec_shell_split(s: Seq<char>) -> Result<Seq<Seq<char>>, int> {
    spec_split_from(s, 0)
}

/// The report for a badly quoted token at position `p` (counted in
/// characters).
pub open spec fn bad_quote_message(p: int) -> Seq<char> {
    "Badly quoted arguments after position "@ + dec_digits(p)
}

fn find_char_exec(s: &Vec<char>, c: char, from: usize) -> (r: usize)
    requires
        from <= s@.len(),
    ensures
        r == find_char(s@, c, from as int),
        from <= r <= s@.len(),
        r < s@.len() ==> s@[r as int] == c,
{
    let mut i = from;
    while i < s.len()
        invariant
            from <= i <= s@.len(),
            find_char(s@, c, from as int) == find_char(s@, c, i as int),
        decreases s@.len() - i,
    {
        if s[i] == c {
            return i;
        }
        i = i + 1;
    }
    i
}

pub fn bare_end_exec(s: &Vec<char>, i: usize) -> (r: usize)
    requires
        i <= s@.len(),
    ensures
        r == bare_end(s@, i as int),
        i <= r <= s@.len(),
{
    let mut j = i;
    while j < s.len() && !is_space(s[j])
        invariant
            i <= j <= s@.len(),
            bare_end(s@, i as int) == bare_end(s@, j as int),
        decreases s@.len() - j,
    {
        j = j + 1;
    }
    j
}

fn trim_front_exec(s: &Vec<char>, lo: usize, hi: usize) -> (r: usize)
    requires
        lo <= hi <= s@.len(),
    ensures
        r == trim_front(s@, lo as int, hi as int),
        lo <= r <= hi,
{
    let mut a = lo;
    while a < hi && (s[a] == '\'' || s[a] == '"')
        invariant
            lo <= a <= hi <= s@.len(),
            trim_front(s@, lo as int, hi as int) == trim_front(s@, a as int, hi as int),
        decreases hi - a,
    {
        a = a + 1;
    }
    a
}

fn trim_back_exec(s: &Vec<char>, lo: usize, hi: usize) -> (r: usize)
    requires
        lo <= hi <= s@.len(),
    ensures
        r == trim_back(s@, lo as int, hi as int),
        lo <= r <= hi,
{
    let mut b = hi;
    while b > lo && (s[b - 1] == '\'' || s[b - 1] == '"')
        invariant
            lo <= b <= hi <= s@.len(),
            trim_back(s@, lo as int, hi as int) == trim_back(s@, lo as int, b as int),
        decreases b,
    {
        b = b - 1;
    }
    b
}

/// Splits `text` into arguments: white-space separated tokens, except that
/// balanced single or double quotes group one argument. A badly quoted
/// token is reported to the user with its position.
pub fn shell_split(text: &str) -> (r: Result<Vec<String>, String>)
    ensures
        match r {
            Ok(args) => {
                &&& spec_shell_split(text@) matches Ok(models)
                &&& args@.len() == spec_shell_split(text@)->Ok_0.len()
                &&& (forall|k: int| 0 <= k < args@.len()
                    ==> (#[trigger] args@[k])@ == spec_shell_split(text@)->Ok_0[k])
            },
            Err(msg) => {
                &&& spec_shell_split(text@) matches Err(p)
                &&& msg@ == bad_quote_message(spec_shell_split(text@)->Err_0)
            },
        },
{
    let s = chars_of(text);
    let n = s.len();
    let mut args: Vec<String> = Vec::new();
    let ghost mut done: Seq<Seq<char>> = Seq::empty();
    let mut i: usize = 0;
    while i < n
        invariant
            n == s@.len(),
            s@ == text@,
            i <= n,
            args@.map_values(|a: String| a@) == done,
            (spec_split_from(s@, i as int) matches Ok(rest)
                ==> spec_shell_split(s@) matches Ok(full) && full == done + rest),
            (spec_split_from(s@, i as int) matches Err(p)
                ==> spec_shell_split(s@) == spec_split_from(s@, i as int)),
        decreases n - i,
    {
        if is_space(s[i]) {
            i = i + 1;
            continue;
        }
        // work out where this token ends
        let c = s[i];
        let bare = bare_end_exec(&s, i);
        let mut end: usize = bare;
        if (c == '"' || c == '\'') && n >= 2 && i <= n - 2 {
            let q = find_char_exec(&s, c, i + 2);
            if q < n {
                proof {
                    assert forall|k: int| i + 1 < k < q implies s@[k] != c by {
                        lemma_find_char_first(s@, c, (i + 2) as int, k);
                    }
                }
                if s[i + 1] != c {
                    proof {
                        assert(!has_char_between(s@, c, i + 1, q as int));
                    }
                    end = q + 1;
                } else {
                    proof {
                        assert(s@[i + 1] == c && i + 1 < q);
                        assert(has_char_between(s@, c, i + 1, q as int));
                    }
                }
            }
        }
        proof {
            lemma_bare_end_advances(s@, i as int);
            assert(token_end(s@, i as int) == end);
        }
        let end1 = if end <= i { i + 1 } else { end };
        let lo = trim_front_exec(&s, i, end1);
        let hi = trim_back_exec(&s, lo, end1);
        let removed = (end1 - i) - (hi - lo);
        if removed != 0 && removed != 2 {
            proof {
                assert(spec_split_from(s@, i as int) == Err::<Seq<Seq<char>>, int>(i as int));
            }
            let mut msg = String::new();
            msg.append("Badly quoted arguments after position ");
            let num = fmt_u64(i as u64);
            msg.append(num.as_str());
            proof {
                assert(msg@ =~= bad_quote_message(i as int));
            }
            return Err(msg);
        }
        let mut piece: Vec<char> = Vec::new();
        let mut k = lo;
        while k < hi
            invariant
                lo <= k <= hi <= s@.len(),
                piece@ == s@.subrange(lo as int, k as int),
            decreases hi - k,
        {
            piece.push(s[k]);
            k = k + 1;
            proof {
                assert(piece@ =~= s@.subrange(lo as int, k as int));
            }
        }
        proof {
            assert(piece@ =~= s@.subrange(lo as int, hi as int));
        }
        let arg = string_of(&piece);
        args.push(arg);
        proof {
            let old_done = done;
            done = done.push(s@.subrange(lo as int, hi as int));
            assert(args@.map_values(|a: String| a@) =~= done);
            if spec_split_from(s@, end1 as int) is Ok {
                let rest = spec_split_from(s@, end1 as int)->Ok_0;
                assert(spec_split_from(s@, i as int)
                    == Ok::<Seq<Seq<char>>, int>(seq![s@.subrange(lo as int, hi as int)] + rest));
                assert(old_done + (seq![s@.subrange(lo as int, hi as int)] + rest)
                    =~= done + rest);
            } else {
                assert(spec_split_from(s@, i as int) == spec_split_from(s@, end1 as int));
            }
        }
        i = end1;
    }
    proof {
        assert(spec_split_from(s@, i as int) == Ok::<Seq<Seq<char>>, int>(Seq::empty()));
        assert(done + Seq::<Seq<char>>::empty() =~= done);
    }
    Ok(args)
}

/// Positions before the one `find_char` returns do not hold the character.
proof fn lemma_find_char_first(s: Seq<char>, c: char, from: int, k: int)
    requires
        0 <= from,
        from <= k < find_char(s, c, from),
    ensures
        k < s.len() ==> s[k] != c,
    decreases k - from,
{
    if from < s.len() {
        if k > from {
            lemma_find_char_first(s, c, from + 1, k);
        }
    }
}

/// `bare_end` never moves backwards.
proof fn lemma_bare_end_ge(s: Seq<char>, i: int)
    ensures
        bare_end(s, i) >= i,
    decreases s.len() - i,
{
    if 0 <= i < s.len() && !is_space_char(s[i]) {
        lemma_bare_end_ge(s, i + 1);
    }
}

/// A token that starts on a non-space character is non-empty.
proof fn lemma_bare_end_advances(s: Seq<char>, i: int)
    requires
        0 <= i < s.len(),
        !is_space_char(s[i]),
    ensures
        bare_end(s, i) > i,
{
    lemma_bare_end_ge(s, i + 1);
}

} // verus!
