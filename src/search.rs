use vstd::prelude::*;
use crate::cursor::names;

verus! {

/// The lower-case form of a string, as `str::to_lowercase` gives it.
pub uninterp spec fn lower_of(s: Seq<char>) -> Seq<char>;

/// Relies on `str::to_lowercase`: the result depends on the characters alone, and as
/// each character is mapped on its own, an empty string stays empty.
#[verifier::external_body]
fn lowercase(s: &str) -> (r: String)
    ensures
        r@ == lower_of(s@),
        s@.len() == 0 ==> r@.len() == 0,
{
    s.to_lowercase()
}

/// Whether `needle` occurs as a contiguous run of characters in `hay`.
pub open spec fn is_substring(needle: Seq<char>, hay: Seq<char>) -> bool {
    exists|i: int|
        0 <= i && i + needle.len() <= hay.len() && #[trigger] hay.subrange(i, i + needle.len()) == needle
}

/// Relies on `str::contains` with a string pattern: true exactly when `needle`
/// matches a sub-slice of `hay`.
#[verifier::external_body]
pub(crate) fn contains(hay: &str, needle: &str) -> (r: bool)
    ensures
        r == is_substring(needle@, hay@),
{
    hay.contains(needle)
}

/// A path matches a search when the query occurs in it, ignoring case.
pub open spec fn path_matches(path: Seq<char>, query: Seq<char>) -> bool {
    is_substring(lower_of(query), lower_of(path))
}

/// The entries of `s` that match `query`, in their order in `s`.
pub open spec fn matching(s: Seq<Seq<char>>, query: Seq<char>) -> Seq<Seq<char>>
    decreases s.len(),
{
    if s.len() == 0 {
        Seq::empty()
    } else {
        let init = matching(s.drop_last(), query);
        if path_matches(s.last(), query) {
            init.push(s.last())
        } else {
            init
        }
    }
}

/// Whether an already lower-cased path holds an already lower-cased query.
pub fn folded_matches(folded_path: &str, folded_query: &str) -> (r: bool)
    ensures
        r == is_substring(folded_query@, folded_path@),
{
    contains(folded_path, folded_query)
}

/// Whether `path` matches the search `query`, ignoring case.
pub fn matches_query(path: &str, query: &str) -> (r: bool)
    ensures
        r == path_matches(path@, query@),
{
    let p = lowercase(path);
    let q = lowercase(query);
    folded_matches(p.as_str(), q.as_str())
}

/// The entries of `playlist` that match `query`, in playlist order.
pub fn filter_playlist(playlist: &Vec<String>, query: &String) -> (r: Vec<String>)
    ensures
        names(r@) == matching(names(playlist@), query@),
        query@.len() == 0 ==> r@ == playlist@,
{
    let q = lowercase(query.as_str());
    let ghost s = names(playlist@);
    let mut r: Vec<String> = Vec::new();
    let mut i: usize = 0;
    while i < playlist.len()
        invariant
            i <= playlist.len(),
            s == names(playlist@),
            q@ == lower_of(query@),
            query@.len() == 0 ==> q@.len() == 0,
            names(r@) == matching(s.subrange(0, i as int), query@),
            query@.len() == 0 ==> r@ == playlist@.subrange(0, i as int),
        decreases playlist.len() - i,
    {
        let p = lowercase(playlist[i].as_str());
        let hit = folded_matches(p.as_str(), q.as_str());
        proof {
            if query@.len() == 0 {
                assert(p@.subrange(0, 0 + q@.len() as int) =~= q@);
                assert(is_substring(q@, p@));
            }
        }
        let ghost before = r@;
        if hit {
            r.push(playlist[i].clone());
            assert(names(r@) =~= names(before).push(s[i as int]));
            assert(r@ == before.push(playlist@[i as int]));
        }
        assert(s.subrange(0, i + 1).drop_last() =~= s.subrange(0, i as int));
        assert(playlist@.subrange(0, i + 1) =~= playlist@.subrange(0, i as int).push(playlist@[i as int]));
        i = i + 1;
    }
    assert(s.subrange(0, i as int) =~= s);
    assert(playlist@.subrange(0, i as int) =~= playlist@);
    r
}

} // verus!
