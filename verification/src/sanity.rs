//! The smallest plugin logic there is, for trying out a service by hand: it
//! knows the single query `balls`.
use vstd::prelude::*;
use crate::action::{text_eq, Action};
use crate::model::{Match, MatchIcon, MatchType, RELEVANCE_ONE};

verus! {

/// Whether `matches` is what the plugin answers to `query`: one bare match
/// named `balls` for the query `balls`, nothing for any other.
pub open spec fn is_sanity_answer<A>(query: Seq<char>, matches: Seq<Match<A>>) -> bool {
    if query == "balls"@ {
        &&& matches.len() == 1
        &&& matches[0].id@ == "balls"@
        &&& matches[0].title@ == Seq::<char>::empty()
        &&& matches[0].subtitle is None
        &&& matches[0].icon matches MatchIcon::ByName(n) && n@ == Seq::<char>::empty()
        &&& matches[0].ty == MatchType::PossibleMatch
        &&& matches[0].relevance == RELEVANCE_ONE
        &&& matches[0].urls@.len() == 0
        &&& matches[0].category is None
        &&& !matches[0].multiline
        &&& matches[0].actions@.len() == 0
    } else {
        matches.len() == 0
    }
}

/// The matches for a query.
pub fn sanity_matches<A: Action>(query: &str) -> (matches: Vec<Match<A>>)
    ensures
        is_sanity_answer(query@, matches@),
{
    let mut matches: Vec<Match<A>> = Vec::new();
    if text_eq(query, "balls") {
        matches.push(Match::new("balls".to_owned()));
    }
    matches
}

} // verus!
