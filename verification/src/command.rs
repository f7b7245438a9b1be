//! The chat command grammar: dot-prefixed verbs with shell-quoted
//! arguments, and the scanner that picks embedded references such as `v17`
//! or `vndb.org/v17` out of ordinary messages.

use vstd::prelude::*;
use crate::protocol::{Kind, kind_of_char};
use crate::text::{
    is_space_char, is_digit_char, is_u64_digits, digits_val, chars_of, skip_spaces,
    skip_spaces_exec, trim_seq, trim_str, is_space, is_digit, dec_digits, fmt_u64,
};
use crate::args::{shell_split, spec_shell_split, bad_quote_message};

verus! {

broadcast use vstd::string::group_string_axioms;

/// A reference to one remote object, as scanned out of a message. `url`
/// says whether the reference stood bare in the text (so a reply should
/// append the link) rather than inside a `vndb.org/` address.
#[derive(PartialEq, Eq, Structural, Clone, Copy, Debug)]
pub struct Ref {
    pub kind: Kind,
    pub id: u64,
    pub url: bool,
}

/// Up to five references scanned out of one message, in text order.
pub struct Refs {
    pub refs: [Option<Ref>; 5],
}

/// A reference match found at one position of the text.
pub struct RefMatch {
    pub kind: Kind,
    pub url: bool,
    /// The digit run `[dig_start, dig_end)`.
    pub dig_start: int,
    pub dig_end: int,
}

/// The end of the digit run that starts at `i`.
pub open spec fn digits_end(s: Seq<char>, i: int) -> int
    decreases s.len() - i,
{
    if i < 0 || i >= s.len() || !is_digit_char(s[i]) {
        i
    } else {
        digits_end(s, i + 1)
    }
}

/// A kind letter at `p` followed by at least one digit.
pub open spec fn kind_digits_at(s: Seq<char>, p: int) -> bool {
    &&& 0 <= p && p + 1 < s.len()
    &&& kind_of_char(s[p]) is Some
    &&& is_digit_char(s[p + 1])
}

/// The literal `vndb.org/` at position `p`.
pub open spec fn vndb_org_at(s: Seq<char>, p: int) -> bool {
    &&& 0 <= p && p + 9 <= s.len()
    &&& s[p] == 'v' && s[p + 1] == 'n' && s[p + 2] == 'd' && s[p + 3] == 'b'
    &&& s[p + 4] == '.' && s[p + 5] == 'o' && s[p + 6] == 'r' && s[p + 7] == 'g'
    &&& s[p + 8] == '/'
}

/// The reference pattern, tried at position `p`: an admissible prefix —
/// the start of the text, the literal `vndb.org/`, or one white-space
/// character — then a kind letter and a digit run. A match from an
/// address does not get the `url` flag.
pub open spec fn try_ref_match(s: Seq<char>, p: int) -> Option<RefMatch> {
    if p == 0 && kind_digits_at(s, 0) {
        Some(RefMatch {
            kind: kind_of_char(s[0])->0,
            url: true,
            dig_start: 1,
            dig_end: digits_end(s, 1),
        })
    } else if vndb_org_at(s, p) && kind_digits_at(s, p + 9) {
        Some(RefMatch {
            kind: kind_of_char(s[p + 9])->0,
            url: false,
            dig_start: p + 10,
            dig_end: digits_end(s, p + 10),
        })
    } else if 0 <= p < s.len() && is_space_char(s[p]) && kind_digits_at(s, p + 1) {
        Some(RefMatch {
            kind: kind_of_char(s[p + 1])->0,
            url: true,
            dig_start: p + 2,
            dig_end: digits_end(s, p + 2),
        })
    } else {
        None
    }
}

/// The reference a valid match denotes.
pub open spec fn ref_of_match(s: Seq<char>, m: RefMatch) -> Ref {
    Ref {
        kind: m.kind,
        id: digits_val(s.subrange(m.dig_start, m.dig_end)) as u64,
        url: m.url,
    }
}

/// The references of the text from position `p` on: matches are taken left
/// to right without overlap, and a match whose number is zero or too large
/// for a `u64` is skipped.
pub open spec fn spec_scan_refs(s: Seq<char>, p: int) -> Seq<Ref>
    decreases s.len() - p,
{
    if p < 0 || p >= s.len() {
        Seq::empty()
    } else {
        match try_ref_match(s, p) {
            None => spec_scan_refs(s, p + 1),
            Some(m) => {
                let e = if m.dig_end <= p {
                    p + 1
                } else if m.dig_end > s.len() {
                    s.len() as int
                } else {
                    m.dig_end
                };
                if is_u64_digits(s, m.dig_start, m.dig_end)
                    && digits_val(s.subrange(m.dig_start, m.dig_end)) > 0 {
                    seq![ref_of_match(s, m)] + spec_scan_refs(s, e)
                } else {
                    spec_scan_refs(s, e)
                }
            },
        }
    }
}

/// The reference pattern occurs somewhere in the text.
pub open spec fn spec_has_ref_match(s: Seq<char>) -> bool {
    exists|p: int| 0 <= p < s.len() && (#[trigger] try_ref_match(s, p)) is Some
}

fn digits_end_exec(s: &Vec<char>, i: usize) -> (r: usize)
    requires
        i <= s@.len(),
    ensures
        r == digits_end(s@, i as int),
        i <= r <= s@.len(),
{
    let mut j = i;
    while j < s.len() && is_digit(s[j])
        invariant
            i <= j <= s@.len(),
            digits_end(s@, i as int) == digits_end(s@, j as int),
        decreases s@.len() - j,
    {
        j = j + 1;
    }
    j
}

fn kind_digits_at_exec(s: &Vec<char>, p: usize) -> (r: Option<Kind>)
    ensures
        r is Some <==> kind_digits_at(s@, p as int),
        r matches Some(k) ==> kind_of_char(s@[p as int]) == Some(k),
{
    let n = s.len();
    if p < n && p < n - 1 {
        match Kind::from_prefix(s[p]) {
            Some(kind) => {
                if is_digit(s[p + 1]) {
                    Some(kind)
                } else {
                    None
                }
            },
            None => None,
        }
    } else {
        None
    }
}

fn vndb_org_at_exec(s: &Vec<char>, p: usize) -> (r: bool)
    ensures
        r == vndb_org_at(s@, p as int),
{
    if s.len() >= 9 && p <= s.len() - 9 {
        s[p] == 'v' && s[p + 1] == 'n' && s[p + 2] == 'd' && s[p + 3] == 'b'
            && s[p + 4] == '.' && s[p + 5] == 'o' && s[p + 6] == 'r' && s[p + 7] == 'g'
            && s[p + 8] == '/'
    } else {
        false
    }
}

/// Tries the reference pattern at `p`; returns the kind, the `url` flag and
/// the digit run.
fn try_ref_match_exec(s: &Vec<char>, p: usize) -> (r: Option<(Kind, bool, usize, usize)>)
    requires
        p < s@.len(),
    ensures
        match r {
            Some((kind, url, ds, de)) => try_ref_match(s@, p as int)
                == Some(RefMatch { kind, url, dig_start: ds as int, dig_end: de as int })
                && p < de <= s@.len() && ds <= de,
            None => try_ref_match(s@, p as int) is None,
        },
{
    if p == 0 {
        match kind_digits_at_exec(s, 0) {
            Some(kind) => {
                let de = digits_end_exec(s, 1);
                return Some((kind, true, 1, de));
            },
            None => (),
        }
    }
    let n = s.len();
    if vndb_org_at_exec(s, p) {
        match kind_digits_at_exec(s, p + 9) {
            Some(kind) => {
                let de = digits_end_exec(s, p + 10);
                return Some((kind, false, p + 10, de));
            },
            None => (),
        }
    }
    if is_space(s[p]) {
        match kind_digits_at_exec(s, p + 1) {
            Some(kind) => {
                let de = digits_end_exec(s, p + 2);
                return Some((kind, true, p + 2, de));
            },
            None => (),
        }
    }
    None
}

/// Scans the text for embedded references: up to five are kept, in order;
/// `None` when the pattern occurs nowhere.
pub fn extract_vndb_references(text: &str) -> (r: Option<Refs>)
    ensures
        match r {
            Some(refs) => spec_has_ref_match(text@) && ({
                let found = spec_scan_refs(text@, 0);
                forall|i: int| 0 <= i < 5 ==> #[trigger] refs.refs[i]
                    == if i < found.len() && i < 5 {
                        Some(found[i])
                    } else {
                        None::<Ref>
                    }
            }),
            None => !spec_has_ref_match(text@),
        },
{
    let s = chars_of(text);
    let mut out: Vec<Ref> = Vec::new();
    let ghost mut done: Seq<Ref> = Seq::empty();
    let mut matched = false;
    let mut p: usize = 0;
    while p < s.len()
        invariant
            s@ == text@,
            p <= s@.len(),
            out@.len() <= 5,
            done.len() >= out@.len(),
            out@ == done.take(out@.len() as int),
            out@.len() < 5 ==> done == out@,
            spec_scan_refs(s@, 0) == done + spec_scan_refs(s@, p as int),
            matched ==> spec_has_ref_match(s@),
            !matched ==> (forall|q: int| 0 <= q < p
                ==> (#[trigger] try_ref_match(s@, q)) is None) && done =~= Seq::<Ref>::empty(),
        decreases s@.len() - p,
    {
        match try_ref_match_exec(&s, p) {
            None => {
                p = p + 1;
            },
            Some((kind, url, ds, de)) => {
                matched = true;
                let id = crate::text::parse_u64(&s, ds, de);
                proof {
                    let m = RefMatch {
                        kind,
                        url,
                        dig_start: ds as int,
                        dig_end: de as int,
                    };
                    assert(try_ref_match(s@, p as int) == Some(m));
                }
                match id {
                    Some(v) if v > 0 => {
                        proof {
                            done = done.push(Ref { kind, id: v, url });
                        }
                        if out.len() < 5 {
                            out.push(Ref { kind, id: v, url });
                            proof {
                                assert(out@ =~= done.take(out@.len() as int));
                            }
                        }
                    },
                    _ => (),
                }
                p = de;
            },
        }
    }
    if !matched {
        proof {
            assert(!spec_has_ref_match(s@));
        }
        return None;
    }
    proof {
        assert(spec_scan_refs(s@, s@.len() as int) =~= Seq::<Ref>::empty());
        assert(spec_scan_refs(s@, 0) =~= done);
    }
    let r0 = ref_slot(&out, 0);
    let r1 = ref_slot(&out, 1);
    let r2 = ref_slot(&out, 2);
    let r3 = ref_slot(&out, 3);
    let r4 = ref_slot(&out, 4);
    let refs = Refs { refs: [r0, r1, r2, r3, r4] };
    Some(refs)
}

/// The `i`-th collected reference, if there is one.
fn ref_slot(out: &Vec<Ref>, i: usize) -> (r: Option<Ref>)
    ensures
        r == if i < out@.len() {
            Some(out@[i as int])
        } else {
            None::<Ref>
        },
{
    if i < out.len() {
        Some(out[i])
    } else {
        None
    }
}

/// Every scanned reference arises from the pattern at some position: it is
/// preceded by the start of the text, the literal `vndb.org/`, or white
/// space, and never taken from the middle of a word; and the scanner keeps
/// at most five.
pub proof fn lemma_scan_refs_sound(s: Seq<char>, p: int)
    ensures
        forall|i: int| 0 <= i < spec_scan_refs(s, p).len()
            ==> sound_at(s, p, #[trigger] spec_scan_refs(s, p)[i]),
    decreases s.len() - p,
{
    if 0 <= p < s.len() {
        match try_ref_match(s, p) {
            None => {
                lemma_scan_refs_sound(s, p + 1);
                assert forall|i: int| 0 <= i < spec_scan_refs(s, p).len()
                    implies sound_at(s, p, #[trigger] spec_scan_refs(s, p)[i]) by {
                    assert(spec_scan_refs(s, p) == spec_scan_refs(s, p + 1));
                    assert(sound_at(s, p + 1, spec_scan_refs(s, p + 1)[i]));
                    lemma_sound_at_widen(s, p + 1, p, spec_scan_refs(s, p)[i]);
                }
            },
            Some(m) => {
                let e = if m.dig_end <= p {
                    p + 1
                } else if m.dig_end > s.len() {
                    s.len() as int
                } else {
                    m.dig_end
                };
                lemma_scan_refs_sound(s, e);
                assert forall|i: int| 0 <= i < spec_scan_refs(s, p).len()
                    implies sound_at(s, p, #[trigger] spec_scan_refs(s, p)[i]) by {
                    if is_u64_digits(s, m.dig_start, m.dig_end)
                        && digits_val(s.subrange(m.dig_start, m.dig_end)) > 0 {
                        if i == 0 {
                            assert(match_yields(s, p, spec_scan_refs(s, p)[0]));
                        } else {
                            assert(spec_scan_refs(s, p)[i] == spec_scan_refs(s, e)[i - 1]);
                            assert(sound_at(s, e, spec_scan_refs(s, e)[i - 1]));
                            lemma_sound_at_widen(s, e, p, spec_scan_refs(s, p)[i]);
                        }
                    } else {
                        assert(spec_scan_refs(s, p)[i] == spec_scan_refs(s, e)[i]);
                        assert(sound_at(s, e, spec_scan_refs(s, e)[i]));
                        lemma_sound_at_widen(s, e, p, spec_scan_refs(s, p)[i]);
                    }
                }
            },
        }
    }
}

/// A reference arises from the pattern at some position at or after `lo`.
pub open spec fn sound_at(s: Seq<char>, lo: int, r: Ref) -> bool {
    exists|q: int| lo <= q < s.len() && #[trigger] match_yields(s, q, r)
}

proof fn lemma_sound_at_widen(s: Seq<char>, lo1: int, lo2: int, r: Ref)
    requires
        lo2 <= lo1,
        sound_at(s, lo1, r),
    ensures
        sound_at(s, lo2, r),
{
    let q = choose|q: int| lo1 <= q < s.len() && #[trigger] match_yields(s, q, r);
    assert(lo2 <= q < s.len() && match_yields(s, q, r));
}

/// The pattern matches at `q` with a valid id and denotes `r`.
pub open spec fn match_yields(s: Seq<char>, q: int, r: Ref) -> bool {
    &&& try_ref_match(s, q) is Some
    &&& ({
        let m = try_ref_match(s, q)->0;
        &&& is_u64_digits(s, m.dig_start, m.dig_end)
        &&& digits_val(s.subrange(m.dig_start, m.dig_end)) > 0
        &&& r == ref_of_match(s, m)
    })
}

/// `.vn`: look a VN up by title.
pub struct GetVn {
    pub title: String,
}

/// A plain text reply.
pub struct Text(pub String);

/// `.hook`: read the hooks of a VN.
pub struct GetHook {
    pub title: String,
}

/// `.set_hook`: write a hook code.
pub struct SetHook {
    pub title: String,
    pub version: String,
    pub code: String,
}

/// `.del_hook`: remove a hook code.
pub struct DelHook {
    pub title: String,
    pub version: String,
}

/// `.del_vn`: remove a VN with its hooks.
pub struct DelVn {
    pub title: String,
}

/// A parsed chat message.
pub enum Command {
    Text(Text),
    GetVn(GetVn),
    GetHook(GetHook),
    SetHook(SetHook),
    DelHook(DelHook),
    DelVn(DelVn),
    Refs(Refs),
    Ignore(String),
    IgnoreList,
}

/// The generic error reply.
pub open spec fn error_text(e: Seq<char>) -> Seq<char> {
    "ごめんなさい、エラー: "@ + e
}

impl Text {
    /// Wraps an error description in the generic error reply.
    pub fn error(error: &str) -> (r: Text)
        ensures
            r.0@ == error_text(error@),
    {
        let mut out = String::new();
        out.append("ごめんなさい、エラー: ");
        out.append(error);
        proof {
            assert(out@ =~= error_text(error@));
        }
        Text(out)
    }
}

/// The list of available commands.
pub open spec fn help_text() -> Seq<char> {
    "Available commands: .ping, .vn, .hook, .set_hook, .del_hook, .del_vn"@
}

pub open spec fn set_hook_usage_text() -> Seq<char> {
    "Usage: <title> <version> <code>"@
}

pub open spec fn del_hook_usage_text() -> Seq<char> {
    "Usage: <title> <version>"@
}

/// The complaint about a wrong argument count.
pub open spec fn invalid_args_text(n: int, expected: int) -> Seq<char> {
    "Invalid number of arguments "@ + dec_digits(n) + ". Expected "@ + dec_digits(expected)
}

/// The dot command of a message: after optional leading white space a dot,
/// a verb of at least one non-space character, and, separated by white
/// space, the rest of the message as its argument.
pub open spec fn spec_command_parts(s: Seq<char>) -> Option<(Seq<char>, Option<Seq<char>>)> {
    let i = skip_spaces(s, 0);
    if i < s.len() && s[i] == '.' && i + 1 < s.len() && !is_space_char(s[i + 1]) {
        let ve = crate::args::bare_end(s, i + 1);
        let we = skip_spaces(s, ve);
        let arg: Option<Seq<char>> = if we > ve && we < s.len() {
            Some(s.subrange(we, s.len() as int))
        } else {
            None
        };
        Some((s.subrange(i + 1, ve), arg))
    } else {
        None
    }
}

/// Whether `s[lo..hi]` spells the given word.
pub fn range_is(s: &Vec<char>, lo: usize, hi: usize, word: &str) -> (r: bool)
    requires
        lo <= hi <= s@.len(),
    ensures
        r == (s@.subrange(lo as int, hi as int) == word@),
{
    let w = chars_of(word);
    if hi - lo != w.len() {
        proof {
            assert(s@.subrange(lo as int, hi as int).len() != word@.len());
        }
        return false;
    }
    let mut k: usize = 0;
    while k < w.len()
        invariant
            w@ == word@,
            lo <= hi <= s@.len(),
            hi - lo == w@.len(),
            k <= w@.len(),
            forall|t: int| 0 <= t < k ==> s@[lo + t] == w@[t],
        decreases w@.len() - k,
    {
        if s[lo + k] != w[k] {
            proof {
                assert(s@.subrange(lo as int, hi as int)[k as int] != word@[k as int]);
            }
            return false;
        }
        k = k + 1;
    }
    proof {
        assert(s@.subrange(lo as int, hi as int) =~= word@);
    }
    true
}

fn text_reply(word: &str) -> (r: Command)
    ensures
        r matches Command::Text(t) && t.0@ == word@,
{
    let mut out = String::new();
    out.append(word);
    proof {
        assert(out@ =~= word@);
    }
    Command::Text(Text(out))
}

impl Command {
    /// Parses one chat message: a dot command by the grammar above, and any
    /// other message scanned for embedded references.
    pub fn from_str(text: &str) -> (r: Option<Command>)
        ensures
            ({
                let s = text@;
                match spec_command_parts(s) {
                    Some((verb, arg)) => {
                        &&& verb == "ping"@ ==> (r matches Some(c) && c matches Command::Text(t)
                            && t.0@ == "pong"@)
                        &&& verb == "help"@ ==> (r matches Some(c) && c matches Command::Text(t)
                            && t.0@ == help_text())
                        &&& verb == "ignore_list"@ ==> r == Some(Command::IgnoreList)
                        &&& verb == "ignore"@ ==> match arg {
                            Some(a) => r matches Some(c) && c matches Command::Ignore(n)
                                && n@ == a,
                            None => r matches Some(c) && c matches Command::Text(t)
                                && t.0@ == "Who to ignore?"@,
                        }
                        &&& verb == "vn"@ ==> match arg {
                            Some(a) => r matches Some(c) && c matches Command::GetVn(g)
                                && g.title@ == a,
                            None => r matches Some(c) && c matches Command::Text(t)
                                && t.0@ == "Which VN...?"@,
                        }
                        &&& verb == "hook"@ ==> match arg {
                            Some(a) => r matches Some(c) && c matches Command::GetHook(g)
                                && g.title@ == trim_seq(a),
                            None => r matches Some(c) && c matches Command::Text(t)
                                && t.0@ == "For which VN...?"@,
                        }
                        &&& verb == "del_vn"@ ==> match arg {
                            Some(a) => r matches Some(c) && c matches Command::DelVn(d)
                                && d.title@ == trim_seq(a),
                            None => r matches Some(c) && c matches Command::Text(t)
                                && t.0@ == "For which VN...?"@,
                        }
                        &&& verb == "set_hook"@ ==> match arg {
                            Some(a) => match spec_shell_split(a) {
                                Ok(parts) => {
                                    if parts.len() == 3 {
                                        r matches Some(c) && c matches Command::SetHook(h)
                                            && h.title@ == parts[0] && h.version@ == parts[1]
                                            && h.code@ == parts[2]
                                    } else {
                                        r matches Some(c) && c matches Command::Text(t)
                                            && t.0@ == invalid_args_text(parts.len() as int, 3)
                                    }
                                },
                                Err(p) => r matches Some(c) && c matches Command::Text(t)
                                    && t.0@ == error_text(bad_quote_message(p)),
                            },
                            None => r matches Some(c) && c matches Command::Text(t)
                                && t.0@ == set_hook_usage_text(),
                        }
                        &&& verb == "del_hook"@ ==> match arg {
                            Some(a) => match spec_shell_split(a) {
                                Ok(parts) => {
                                    if parts.len() == 2 {
                                        r matches Some(c) && c matches Command::DelHook(h)
                                            && h.title@ == parts[0] && h.version@ == parts[1]
                                    } else {
                                        r matches Some(c) && c matches Command::Text(t)
                                            && t.0@ == invalid_args_text(parts.len() as int, 2)
                                    }
                                },
                                Err(p) => r matches Some(c) && c matches Command::Text(t)
                                    && t.0@ == error_text(bad_quote_message(p)),
                            },
                            None => r matches Some(c) && c matches Command::Text(t)
                                && t.0@ == del_hook_usage_text(),
                        }
                        &&& (verb != "ping"@ && verb != "help"@ && verb != "ignore_list"@
                            && verb != "ignore"@ && verb != "vn"@ && verb != "hook"@
                            && verb != "del_vn"@ && verb != "set_hook"@ && verb != "del_hook"@)
                            ==> r is None
                    },
                    None => {
                        if spec_has_ref_match(s) {
                            r matches Some(c) && c matches Command::Refs(refs) && ({
                                let found = spec_scan_refs(s, 0);
                                forall|i: int| 0 <= i < 5 ==> #[trigger] refs.refs[i]
                                    == if i < found.len() && i < 5 {
                                        Some(found[i])
                                    } else {
                                        None::<Ref>
                                    }
                            })
                        } else {
                            r is None
                        }
                    },
                }
            }),
    {
        proof {
            reveal_strlit("ping");
            reveal_strlit("help");
            reveal_strlit("ignore_list");
            reveal_strlit("ignore");
            reveal_strlit("vn");
            reveal_strlit("hook");
            reveal_strlit("del_vn");
            reveal_strlit("set_hook");
            reveal_strlit("del_hook");
            // pin each verb's length and opening characters, so that the
            // verbs are known pairwise distinct
            assert("ping"@.len() == 4 && "ping"@[0] == 'p');
            assert("help"@.len() == 4 && "help"@[0] == 'h' && "help"@[1] == 'e');
            assert("hook"@.len() == 4 && "hook"@[0] == 'h' && "hook"@[1] == 'o');
            assert("ignore_list"@.len() == 11);
            assert("ignore"@.len() == 6 && "ignore"@[0] == 'i');
            assert("del_vn"@.len() == 6 && "del_vn"@[0] == 'd');
            assert("vn"@.len() == 2);
            assert("set_hook"@.len() == 8 && "set_hook"@[0] == 's');
            assert("del_hook"@.len() == 8 && "del_hook"@[0] == 'd');
        }
        let s = chars_of(text);
        let i = skip_spaces_exec(&s, 0);
        if i < s.len() && s[i] == '.' && i + 1 < s.len() && !is_space(s[i + 1]) {
            let ve = crate::args::bare_end_exec(&s, i + 1);
            let we = skip_spaces_exec(&s, ve);
            let has_arg = we > ve && we < s.len();
            if range_is(&s, i + 1, ve, "ping") {
                Some(text_reply("pong"))
            } else if range_is(&s, i + 1, ve, "help") {
                Some(text_reply(
                    "Available commands: .ping, .vn, .hook, .set_hook, .del_hook, .del_vn"))
            } else if range_is(&s, i + 1, ve, "ignore_list") {
                Some(Command::IgnoreList)
            } else if range_is(&s, i + 1, ve, "ignore") {
                if has_arg {
                    Some(Command::Ignore(crate::text::substring_of(&s, we, s.len())))
                } else {
                    Some(text_reply("Who to ignore?"))
                }
            } else if range_is(&s, i + 1, ve, "vn") {
                if has_arg {
                    let title = crate::text::substring_of(&s, we, s.len());
                    Some(Command::GetVn(GetVn { title }))
                } else {
                    Some(text_reply("Which VN...?"))
                }
            } else if range_is(&s, i + 1, ve, "hook") {
                if has_arg {
                    let raw = crate::text::substring_of(&s, we, s.len());
                    let title = trim_str(raw.as_str());
                    Some(Command::GetHook(GetHook { title }))
                } else {
                    Some(text_reply("For which VN...?"))
                }
            } else if range_is(&s, i + 1, ve, "del_vn") {
                if has_arg {
                    let raw = crate::text::substring_of(&s, we, s.len());
                    let title = trim_str(raw.as_str());
                    Some(Command::DelVn(DelVn { title }))
                } else {
                    Some(text_reply("For which VN...?"))
                }
            } else if range_is(&s, i + 1, ve, "set_hook") {
                if has_arg {
                    let raw = crate::text::substring_of(&s, we, s.len());
                    match shell_split(raw.as_str()) {
                        Ok(mut parts) => {
                            if parts.len() == 3 {
                                let title = parts.remove(0);
                                let version = parts.remove(0);
                                let code = parts.remove(0);
                                Some(Command::SetHook(SetHook { title, version, code }))
                            } else {
                                Some(Command::Text(Text(invalid_args_reply(parts.len(), 3))))
                            }
                        },
                        Err(e) => Some(Command::Text(Text::error(e.as_str()))),
                    }
                } else {
                    Some(text_reply("Usage: <title> <version> <code>"))
                }
            } else if range_is(&s, i + 1, ve, "del_hook") {
                if has_arg {
                    let raw = crate::text::substring_of(&s, we, s.len());
                    match shell_split(raw.as_str()) {
                        Ok(mut parts) => {
                            if parts.len() == 2 {
                                let title = parts.remove(0);
                                let version = parts.remove(0);
                                Some(Command::DelHook(DelHook { title, version }))
                            } else {
                                Some(Command::Text(Text(invalid_args_reply(parts.len(), 2))))
                            }
                        },
                        Err(e) => Some(Command::Text(Text::error(e.as_str()))),
                    }
                } else {
                    Some(text_reply("Usage: <title> <version>"))
                }
            } else {
                None
            }
        } else {
            proof {
                assert(spec_command_parts(s@) is None);
            }
            match extract_vndb_references(text) {
                Some(refs) => Some(Command::Refs(refs)),
                None => None,
            }
        }
    }
}

/// Skipping spaces in `w + t` lands right after `w` when `w` is all space
/// and `t` does not open with space.
proof fn lemma_skip_spaces_concat(w: Seq<char>, t: Seq<char>, i: int)
    requires
        forall|k: int| 0 <= k < w.len() ==> is_space_char(#[trigger] w[k]),
        t.len() > 0 && !is_space_char(t[0]),
        0 <= i <= w.len(),
    ensures
        skip_spaces(w + t, i) == w.len(),
    decreases w.len() - i,
{
    let s = w + t;
    if i < w.len() {
        assert(s[i] == w[i]);
        lemma_skip_spaces_concat(w, t, i + 1);
    } else {
        assert(s[i] == t[0]);
    }
}

/// A token in the appended part reaches the same end as in the part alone.
proof fn lemma_bare_end_concat(w: Seq<char>, t: Seq<char>, j: int)
    requires
        0 <= j <= t.len(),
    ensures
        crate::args::bare_end(w + t, w.len() + j) == w.len() + crate::args::bare_end(t, j),
    decreases t.len() - j,
{
    let s = w + t;
    if j < t.len() {
        assert(s[w.len() + j] == t[j]);
        if !is_space_char(t[j]) {
            lemma_bare_end_concat(w, t, j + 1);
        }
    }
}

/// Skipping spaces in the appended part lands where it lands in the part
/// alone.
proof fn lemma_skip_spaces_concat_inner(w: Seq<char>, t: Seq<char>, j: int)
    requires
        0 <= j <= t.len(),
    ensures
        skip_spaces(w + t, w.len() + j) == w.len() + skip_spaces(t, j),
    decreases t.len() - j,
{
    let s = w + t;
    if j < t.len() {
        assert(s[w.len() + j] == t[j]);
        if is_space_char(t[j]) {
            lemma_skip_spaces_concat_inner(w, t, j + 1);
        }
    }
}

proof fn lemma_bare_end_bounds(s: Seq<char>, i: int)
    requires
        0 <= i <= s.len(),
    ensures
        i <= crate::args::bare_end(s, i) <= s.len(),
    decreases s.len() - i,
{
    if i < s.len() && !is_space_char(s[i]) {
        lemma_bare_end_bounds(s, i + 1);
    }
}

proof fn lemma_skip_spaces_bounds(s: Seq<char>, i: int)
    requires
        0 <= i <= s.len(),
    ensures
        i <= skip_spaces(s, i) <= s.len(),
    decreases s.len() - i,
{
    if i < s.len() && is_space_char(s[i]) {
        lemma_skip_spaces_bounds(s, i + 1);
    }
}

/// A dot command reads the same under any amount of leading white space:
/// prepending white space to a message that opens with the command dot
/// changes neither the verb nor the argument.
pub proof fn lemma_command_parts_leading_ws(w: Seq<char>, t: Seq<char>)
    requires
        forall|k: int| 0 <= k < w.len() ==> is_space_char(#[trigger] w[k]),
        t.len() > 0 && t[0] == '.',
    ensures
        spec_command_parts(w + t) == spec_command_parts(t),
{
    let s = w + t;
    assert(!is_space_char('.')) by {
        assert('.' != ' ');
    }
    lemma_skip_spaces_concat(w, t, 0);
    let i = skip_spaces(s, 0);
    assert(i == w.len() && s[i] == t[0]);
    assert(skip_spaces(t, 0) == 0);
    if 1 < t.len() && !is_space_char(t[1]) {
        assert(s[i + 1] == t[1]);
        lemma_bare_end_concat(w, t, 1);
        let ve = crate::args::bare_end(t, 1);
        lemma_bare_end_bounds(t, 1);
        lemma_skip_spaces_concat_inner(w, t, ve);
        let we = skip_spaces(t, ve);
        lemma_skip_spaces_bounds(t, ve);
        assert(s.subrange(w.len() as int + 1, w.len() as int + ve) =~= t.subrange(1, ve));
        if we > ve && we < t.len() {
            assert(s.subrange(w.len() as int + we, s.len() as int) =~= t.subrange(we, t.len() as int));
        }
    } else {
        if 1 < t.len() {
            assert(s[i + 1] == t[1]);
        }
        assert(spec_command_parts(s) is None && spec_command_parts(t) is None);
    }
}

/// Renders the complaint about a wrong argument count.
pub fn invalid_args_reply(n: usize, expected: u64) -> (r: String)
    ensures
        r@ == invalid_args_text(n as int, expected as int),
{
    let mut out = String::new();
    out.append("Invalid number of arguments ");
    let digits = fmt_u64(n as u64);
    out.append(digits.as_str());
    out.append(". Expected ");
    let exp = fmt_u64(expected);
    out.append(exp.as_str());
    proof {
        assert(out@ =~= invalid_args_text(n as int, expected as int));
    }
    out
}

} // verus!
