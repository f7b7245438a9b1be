//! The web layer's verifiable pieces: the conditional-request check that
//! matches a file's entity tag against an `If-None-Match` header, and the
//! error body for bad requests. The entity tags themselves come from the
//! `etag` crate.

use vstd::prelude::*;
use crate::text::{chars_of, trim_seq, trim_str, substring_of};

verus! {

#[verifier::external_type_specification]
#[verifier::external_body]
pub struct ExEntityTag(etag::EntityTag);

#[verifier::external_type_specification]
#[verifier::external_body]
pub struct ExParseError(etag::ParseError);

/// The opaque tag text between the quotes of an entity tag.
pub uninterp spec fn etag_tag(t: etag::EntityTag) -> Seq<char>;

/// The weakness marker of an entity tag.
pub uninterp spec fn etag_weak(t: etag::EntityTag) -> bool;

/// Relies on `etag::EntityTag::weak_eq`: tags compare by their opaque text
/// alone, regardless of weakness.
pub assume_specification[ etag::EntityTag::weak_eq ](
    t: &etag::EntityTag,
    other: &etag::EntityTag,
) -> (r: bool)
    ensures
        r == (etag_tag(*t) == etag_tag(*other)),
;

/// The wire shape of an entity tag: `"<tag>"`, or `W/"<tag>"` for a weak
/// one.
pub open spec fn etag_text_shape(s: Seq<char>) -> Option<(bool, Seq<char>)> {
    if s.len() >= 2 && s[s.len() - 1] == '"' && s[0] == '"' {
        Some((false, s.subrange(1, s.len() - 1)))
    } else if s.len() >= 4 && s[s.len() - 1] == '"' && s[0] == 'W' && s[1] == '/'
        && s[2] == '"' {
        Some((true, s.subrange(3, s.len() - 1)))
    } else {
        None
    }
}

/// All characters are ASCII.
pub open spec fn ascii_seq(s: Seq<char>) -> bool {
    forall|i: int| 0 <= i < s.len() ==> #[trigger] (s[i] as int) < 128
}

/// A parse of this text succeeds: it has the tag shape, and its content is
/// ASCII and fits the tag buffer of 62 bytes.
pub open spec fn etag_parses(s: Seq<char>) -> bool {
    &&& etag_text_shape(s) is Some
    &&& ascii_seq((etag_text_shape(s)->0).1)
    &&& (etag_text_shape(s)->0).1.len() <= 62
}

/// Relies on `<etag::EntityTag as core::str::FromStr>::from_str`: a tag in
/// wire shape whose ASCII content fits the buffer parses into the tag with
/// that content and weakness; anything else is refused.
pub assume_specification[ <etag::EntityTag as core::str::FromStr>::from_str ](
    text: &str,
) -> (r: Result<etag::EntityTag, etag::ParseError>)
    ensures
        match r {
            Ok(t) => etag_parses(text@)
                && etag_weak(t) == (etag_text_shape(text@)->0).0
                && etag_tag(t) == (etag_text_shape(text@)->0).1,
            Err(_) => !etag_parses(text@),
        },
;

/// The comma-separated pieces of a header value.
pub open spec fn split_commas(s: Seq<char>) -> Seq<Seq<char>>
    decreases s.len(),
{
    let c = comma_at(s, 0);
    if c < 0 || c >= s.len() {
        seq![s]
    } else {
        seq![s.subrange(0, c)] + split_commas(s.subrange(c + 1, s.len() as int))
    }
}

/// The first comma at or after `i`, or the length.
pub open spec fn comma_at(s: Seq<char>, i: int) -> int
    decreases s.len() - i,
{
    if i < 0 || i >= s.len() {
        s.len() as int
    } else if s[i] == ',' {
        i
    } else {
        comma_at(s, i + 1)
    }
}

/// A header piece names the target tag: trimmed, it parses, and its opaque
/// text is the target.
pub open spec fn piece_matches(piece: Seq<char>, target: Seq<char>) -> bool {
    &&& etag_parses(trim_seq(piece))
    &&& (etag_text_shape(trim_seq(piece))->0).1 == target
}

/// Matches the given entity tag against an `If-None-Match` header value:
/// true exactly when one of the comma-separated tags in the header weakly
/// matches. With no such header, nothing matches.
pub fn if_none_match(tag: &etag::EntityTag, header: Option<&str>) -> (r: bool)
    ensures
        match header {
            Some(h) => r == exists|k: int| 0 <= k < split_commas(h@).len()
                && piece_matches(#[trigger] split_commas(h@)[k], etag_tag(*tag)),
            None => r == false,
        },
{
    let h = match header {
        Some(h) => h,
        None => {
            return false;
        },
    };
    let s = chars_of(h);
    let ghost pieces = split_commas(h@);
    let mut start: usize = 0;
    let ghost mut seen: int = 0;
    proof {
        assert(s@.subrange(0, s@.len() as int) =~= s@);
        assert(pieces.subrange(0, pieces.len() as int) =~= pieces);
    }
    loop
        invariant
            header matches Some(h0) && h0@ == h@,
            s@ == h@,
            pieces == split_commas(h@),
            start <= s@.len(),
            0 <= seen,
            split_commas(s@.subrange(start as int, s@.len() as int))
                =~= pieces.subrange(seen, pieces.len() as int),
            seen < pieces.len(),
            forall|k: int| 0 <= k < seen
                ==> !piece_matches(#[trigger] pieces[k], etag_tag(*tag)),
        decreases s@.len() - start,
    {
        let c = comma_exec(&s, start);
        let ghost rest = s@.subrange(start as int, s@.len() as int);
        proof {
            lemma_comma_shift(s@, start as int);
            assert(comma_at(rest, 0) == c - start);
            if c < s@.len() {
                assert(rest.subrange(0, c - start)
                    =~= s@.subrange(start as int, c as int));
                assert(rest.subrange(c - start + 1, rest.len() as int)
                    =~= s@.subrange(c + 1, s@.len() as int));
                assert(split_commas(rest) == seq![rest.subrange(0, c - start)]
                    + split_commas(rest.subrange(c - start + 1, rest.len() as int)));
                assert(split_commas(rest)[0] == rest.subrange(0, c - start));
            } else {
                assert(rest.subrange(0, c - start) =~= rest);
                assert(rest =~= s@.subrange(start as int, c as int));
                assert(split_commas(rest) == seq![rest]);
                assert(split_commas(rest)[0] == rest);
            }
            assert(pieces.subrange(seen, pieces.len() as int)[0] == split_commas(rest)[0]);
            assert(pieces[seen] == s@.subrange(start as int, c as int));
        }
        let piece = substring_of(&s, start, c);
        let trimmed = trim_str(piece.as_str());
        let parsed_res = <etag::EntityTag as core::str::FromStr>::from_str(trimmed.as_str());
        let hit = match &parsed_res {
            Ok(parsed) => tag.weak_eq(parsed),
            Err(_) => false,
        };
        proof {
            assert(trimmed@ == trim_seq(pieces[seen]));
        }
        if hit {
            proof {
                assert(parsed_res is Ok);
                assert(etag_parses(trimmed@));
                assert((etag_text_shape(trimmed@)->0).1 == etag_tag(*tag));
                assert(pieces =~= split_commas(h@));
                assert(0 <= seen < split_commas(h@).len());
                assert(split_commas(h@)[seen] == pieces[seen]);
                assert(piece_matches(pieces[seen], etag_tag(*tag)));
                assert(piece_matches(#[trigger] split_commas(h@)[seen], etag_tag(*tag)));
            }
            return true;
        }
        proof {
            assert(!piece_matches(pieces[seen], etag_tag(*tag))) by {
                if etag_parses(trimmed@) {
                    assert(parsed_res is Ok);
                    assert((etag_text_shape(trimmed@)->0).1 == etag_tag(parsed_res->Ok_0));
                    assert(etag_tag(parsed_res->Ok_0) != etag_tag(*tag));
                }
            }
        }
        if c >= s.len() {
            proof {
                assert(split_commas(rest).len() == 1);
                assert(seen + 1 == pieces.len());
                assert forall|k: int| 0 <= k < split_commas(h@).len()
                    implies !piece_matches(#[trigger] split_commas(h@)[k],
                        etag_tag(*tag)) by {
                    if k < seen {
                        assert(!piece_matches(pieces[k], etag_tag(*tag)));
                    } else {
                        assert(k == seen);
                        assert(!piece_matches(pieces[seen], etag_tag(*tag)));
                    }
                }
            }
            return false;
        }
        let ghost start0 = start as int;
        start = c + 1;
        proof {
            let seen0 = seen;
            seen = seen + 1;
            let piece0 = rest.subrange(0, c - start0);
            let tail = split_commas(s@.subrange(start as int, s@.len() as int));
            assert(split_commas(rest) == seq![piece0] + tail);
            assert(split_commas(rest).len() == pieces.len() - seen0);
            assert(tail.len() == pieces.len() - seen0 - 1);
            assert(tail =~= pieces.subrange(seen, pieces.len() as int)) by {
                assert forall|j: int| 0 <= j < tail.len()
                    implies tail[j] == #[trigger] pieces.subrange(seen,
                        pieces.len() as int)[j] by {
                    assert((seq![piece0] + tail)[j + 1] == tail[j]);
                    assert(pieces.subrange(seen0, pieces.len() as int)[j + 1]
                        == pieces[seen0 + 1 + j]);
                }
            }
            assert(tail.len() >= 1);
        }
    }
}

fn comma_exec(s: &Vec<char>, from: usize) -> (r: usize)
    requires
        from <= s@.len(),
    ensures
        r == comma_at(s@, from as int),
        from <= r <= s@.len(),
        r < s@.len() ==> s@[r as int] == ',',
{
    let mut i = from;
    while i < s.len()
        invariant
            from <= i <= s@.len(),
            comma_at(s@, from as int) == comma_at(s@, i as int),
        decreases s@.len() - i,
    {
        if s[i] == ',' {
            return i;
        }
        i = i + 1;
    }
    i
}

/// Finding a comma in a suffix mirrors finding it in the whole.
proof fn lemma_comma_shift(s: Seq<char>, start: int)
    requires
        0 <= start <= s.len(),
    ensures
        forall|j: int| 0 <= j <= s.len() - start
            ==> #[trigger] comma_at(s.subrange(start, s.len() as int), j)
                == comma_at(s, start + j) - start,
{
    let rest = s.subrange(start, s.len() as int);
    assert forall|j: int| 0 <= j <= s.len() - start
        implies #[trigger] comma_at(rest, j) == comma_at(s, start + j) - start by {
        lemma_comma_shift_one(s, start, j);
    }
}

proof fn lemma_comma_shift_one(s: Seq<char>, start: int, j: int)
    requires
        0 <= start <= s.len(),
        0 <= j <= s.len() - start,
    ensures
        comma_at(s.subrange(start, s.len() as int), j) == comma_at(s, start + j) - start,
    decreases s.len() - start - j,
{
    let rest = s.subrange(start, s.len() as int);
    if j < rest.len() {
        assert(rest[j] == s[start + j]);
        if rest[j] != ',' {
            lemma_comma_shift_one(s, start, j + 1);
        }
    }
}

/// The error body of a refused web request.
pub struct ClientError {
    pub message: &'static str,
}

impl ClientError {
    pub fn new(message: &'static str) -> (r: ClientError)
        ensures
            r.message@ == message@,
    {
        ClientError { message }
    }
}

} // verus!
