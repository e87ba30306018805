//! The keyword index that verified records are handed to.

use vstd::prelude::*;
use std::collections::HashMap;
use crate::primitives::{lower_of, lowercase, split_words, whitespace_words};

verus! {

/// Keyword index: each keyword maps to the ids of the records holding it.
pub struct SearchEngine {
    index: HashMap<String, Vec<String>>,
}

/// Keywords of a text: its whitespace-separated words, lower-cased.
pub open spec fn keywords(text: Seq<char>) -> Seq<Seq<char>> {
    whitespace_words(text).map_values(|w: Seq<char>| lower_of(w))
}

impl SearchEngine {
    /// The index's keyword entries.
    pub closed spec fn entries(&self) -> Map<String, Vec<String>> {
        self.index@
    }

    /// An engine with an empty index.
    pub fn new() -> (r: Self)
        ensures
            r.entries() == Map::<String, Vec<String>>::empty(),
    {
        SearchEngine { index: HashMap::new() }
    }

    /// Splits a text into its lower-cased words.
    pub fn tokenize(text: &str) -> (r: Vec<String>)
        ensures
            r.deep_view() == keywords(text@),
    {
        let words = split_words(text);
        let ghost w = words.deep_view();
        let mut out: Vec<String> = Vec::new();
        let mut i: usize = 0;
        while i < words.len()
            invariant
                w == words.deep_view(),
                i <= w.len(),
                out.deep_view() == keywords(text@).take(i as int),
                w == whitespace_words(text@),
            decreases w.len() - i,
        {
            let ghost prev = out.deep_view();
            let lw = lowercase(words[i].as_str());
            assert(w[i as int] == words@[i as int]@);
            assert(lw@ == keywords(text@)[i as int]);
            out.push(lw);
            assert(out.deep_view() =~= prev.push(keywords(text@)[i as int]));
            i += 1;
            assert(out.deep_view() =~= keywords(text@).take(i as int));
        }
        assert(keywords(text@).take(i as int) =~= keywords(text@));
        out
    }
}

} // verus!
