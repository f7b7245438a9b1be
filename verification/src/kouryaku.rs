//! The walkthrough catalogue: entries scraped from the walkthrough site are
//! cached with lower-cased titles, and a query finds the first entry whose
//! title contains it, case-insensitively. The page fetch and the scrape
//! stay with the surrounding runtime; this module owns the cache model and
//! the lookup.

use vstd::prelude::*;
use crate::text::{contains_seq, chars_of, contains_chars};

verus! {

/// The lower-case fold that `str::to_lowercase` computes.
pub uninterp spec fn lower_of(s: Seq<char>) -> Seq<char>;

/// Relies on std's `str::to_lowercase`: the result depends on the
/// characters alone.
#[verifier::external_body]
fn to_lowercase(s: &str) -> (r: String)
    ensures
        r@ == lower_of(s@),
{
    s.to_lowercase()
}

/// One cached walkthrough entry: the lower-cased title and the page's
/// address relative to the walkthrough root.
pub struct Entry {
    pub title: String,
    pub uri: String,
}

impl Entry {
    /// Caches an entry with its title lower-cased for matching.
    pub fn new(title: String, uri: String) -> (r: Entry)
        ensures
            r.title@ == lower_of(title@),
            r.uri@ == uri@,
    {
        let title = to_lowercase(title.as_str());
        Entry { title, uri }
    }
}

/// Looks up one walkthrough by title.
pub struct Find(pub String);

/// The entry at `i` matches the folded query.
pub open spec fn entry_matches(entries: Seq<Entry>, i: int, q: Seq<char>) -> bool {
    contains_seq(entries[i].title@, lower_of(q))
}

/// The walkthrough address of an entry: the site root followed by its
/// relative address.
pub open spec fn walk_address(uri: Seq<char>) -> Seq<char> {
    "http://seiya-saiga.com/game/"@ + uri
}

/// Finds the first cached entry whose title contains the query,
/// case-insensitively; the result pairs the cached title with the entry's
/// full address.
pub fn find_entry(entries: &Vec<Entry>, msg: &Find) -> (r: Option<(String, String)>)
    ensures
        match r {
            Some((title, addr)) => exists|i: int| 0 <= i < entries@.len()
                && #[trigger] entry_matches(entries@, i, msg.0@)
                && (forall|j: int| 0 <= j < i ==> !entry_matches(entries@, j, msg.0@))
                && title@ == entries@[i].title@ && addr@ == walk_address(entries@[i].uri@),
            None => forall|i: int| 0 <= i < entries@.len()
                ==> !entry_matches(entries@, i, msg.0@),
        },
{
    let folded = to_lowercase(msg.0.as_str());
    let needle = chars_of(folded.as_str());
    let mut i: usize = 0;
    while i < entries.len()
        invariant
            needle@ == lower_of(msg.0@),
            i <= entries@.len(),
            forall|j: int| 0 <= j < i ==> !entry_matches(entries@, j, msg.0@),
        decreases entries@.len() - i,
    {
        let hay = chars_of(entries[i].title.as_str());
        if contains_chars(&hay, &needle) {
            let title = entries[i].title.clone();
            let mut addr = String::new();
            addr.append("http://seiya-saiga.com/game/");
            addr.append(entries[i].uri.as_str());
            proof {
                assert(entry_matches(entries@, i as int, msg.0@));
                assert(addr@ =~= walk_address(entries@[i as int].uri@));
            }
            return Some((title, addr));
        }
        i = i + 1;
    }
    None
}

} // verus!
