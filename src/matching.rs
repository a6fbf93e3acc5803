//! Fuzzy matching of a bookmark against a search filter.
#[allow(deprecated)]
use fuzzy_matcher::skim::fuzzy_indices;

use crate::types::{BookmarkFilter, BookmarkMatch, MatchDetails, SavedBookmark};
use vstd::prelude::*;

verus! {

/// What the skim fuzzy matcher finds of `pattern` in `text`: the quality of
/// the match and the positions of the matched characters, or nothing when the
/// pattern's characters do not all occur in order.
pub uninterp spec fn skim_match(text: Seq<char>, pattern: Seq<char>) -> Option<(i64, Seq<usize>)>;

/// The view of a match.
pub open spec fn details(d: Option<MatchDetails>) -> Option<(i64, Seq<usize>)> {
    match d {
        Some((q, idx)) => Some((q, idx@)),
        None => None,
    }
}

/// Whether a field was searched at all, and how it matched.
#[derive(Debug)]
pub enum MatchSuccess {
    /// The filter does not search this field.
    Unneeded,
    /// The filter searches this field, and it matched.
    Required(MatchDetails),
}

/// Relies on fuzzy_matcher's `skim::fuzzy_indices`, whose result depends on
/// the text and the pattern alone; an empty pattern matches with quality 0 and
/// no positions.
#[verifier::external_body]
#[allow(deprecated)]
fn fuzzy_match_string(testee: &str, search: &String) -> (r: Option<MatchDetails>)
    ensures
        details(r) == skim_match(testee@, search@),
        search@.len() == 0 ==> details(r) == Some((0i64, Seq::<usize>::empty())),
{
    fuzzy_indices(testee, search)
}

/// The best match of any of `searches`: the first of the highest quality.
pub open spec fn best_match(testee: Seq<char>, searches: Seq<String>) -> Option<(i64, Seq<usize>)>
    decreases searches.len(),
{
    if searches.len() == 0 {
        None
    } else {
        let acc = best_match(testee, searches.drop_last());
        let val = skim_match(testee, searches.last()@);
        match (acc, val) {
            (None, _) => val,
            (Some(a), None) => Some(a),
            (Some(a), Some(v)) => if v.0 > a.0 {
                Some(v)
            } else {
                Some(a)
            },
        }
    }
}

/// Tests `testee` against each of `searches` and keeps the best match.
pub fn fuzzy_match_string_multi(testee: &str, searches: &Vec<String>) -> (r: Option<MatchDetails>)
    ensures
        details(r) == best_match(testee@, searches@),
{
    let mut best: Option<MatchDetails> = None;
    let mut i: usize = 0;
    while i < searches.len()
        invariant
            i <= searches@.len(),
            details(best) == best_match(testee@, searches@.take(i as int)),
        decreases searches.len() - i,
    {
        let val = fuzzy_match_string(testee, &searches[i]);
        proof {
            let t = searches@.take(i + 1);
            assert(t.drop_last() == searches@.take(i as int));
            assert(t.last() == searches@[i as int]);
        }
        best = match best {
            None => val,
            Some(acc) => match val {
                None => Some(acc),
                Some(v) => if v.0 > acc.0 {
                    Some(v)
                } else {
                    Some(acc)
                },
            },
        };
        i += 1;
    }
    assert(searches@.take(searches@.len() as int) == searches@);
    best
}

/// The match of a field, when the field was searched.
pub fn deconstruct_success(success: MatchSuccess) -> (r: Option<MatchDetails>)
    ensures
        r == match success {
            MatchSuccess::Unneeded => None,
            MatchSuccess::Required(d) => Some(d),
        },
{
    match success {
        MatchSuccess::Unneeded => None,
        MatchSuccess::Required(dets) => Some(dets),
    }
}

/// How one field meets the filter: `None` when it was searched and did not
/// match; otherwise its match, if it was searched.
pub open spec fn field_outcome(want: Option<String>, text: Seq<char>) -> Option<
    Option<(i64, Seq<usize>)>,
> {
    match want {
        None => Some(None),
        Some(p) => match skim_match(text, p@) {
            Some(d) => Some(Some(d)),
            None => None,
        },
    }
}

fn match_field(want: &Option<String>, text: &String) -> (r: Option<MatchSuccess>)
    ensures
        match r {
            None => field_outcome(*want, text@) is None,
            Some(MatchSuccess::Unneeded) => field_outcome(*want, text@) == Some(
                None::<(i64, Seq<usize>)>,
            ),
            Some(MatchSuccess::Required(d)) => field_outcome(*want, text@) == Some(
                details(Some(d)),
            ),
        },
{
    match want {
        None => Some(MatchSuccess::Unneeded),
        Some(p) => match fuzzy_match_string(text.as_str(), p) {
            Some(d) => Some(MatchSuccess::Required(d)),
            None => None,
        },
    }
}

/// Matches a bookmark against a filter on its title, description and URL. The
/// bookmark matches when every field the filter searches matches; tags are not
/// searched.
pub fn match_bookmark(filter: &BookmarkFilter, bm: &SavedBookmark) -> (r: Option<BookmarkMatch>)
    ensures
        match r {
            None => {
                ||| field_outcome(filter.name, bm.metadata@) is None
                ||| field_outcome(filter.desc, bm.desc@) is None
                ||| field_outcome(filter.url, bm.url@) is None
            },
            Some(m) => {
                &&& field_outcome(filter.name, bm.metadata@) == Some(details(m.name))
                &&& field_outcome(filter.desc, bm.desc@) == Some(details(m.desc))
                &&& field_outcome(filter.url, bm.url@) == Some(details(m.url))
                &&& m.tags is None
            },
        },
{
    let name_match = match_field(&filter.name, &bm.metadata);
    let desc_match = match_field(&filter.desc, &bm.desc);
    let url_match = match_field(&filter.url, &bm.url);
    match (name_match, desc_match, url_match) {
        (Some(name), Some(desc), Some(url)) => Some(
            BookmarkMatch {
                name: deconstruct_success(name),
                desc: deconstruct_success(desc),
                url: deconstruct_success(url),
                tags: None,
            },
        ),
        _ => None,
    }
}

} // verus!
