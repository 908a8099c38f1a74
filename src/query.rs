use vstd::prelude::*;

use crate::text::{find_space, space_index, trim_text, trimmed};

verus! {

/// User input split into an optional routing keyword and the text to search for.
#[derive(Debug, Clone, PartialEq, Eq)]
pub struct SearchQuery {
    pub keyword: Option<String>,
    pub search_text: String,
}

/// The keyword of an input: what precedes its first space, if it holds one.
pub open spec fn query_keyword(s: Seq<char>) -> Option<Seq<char>> {
    if space_index(s) < s.len() {
        Some(s.subrange(0, space_index(s)))
    } else {
        None
    }
}

/// The search text of an input: what follows its first space, or the whole input
/// when it holds none, trimmed.
pub open spec fn query_text(s: Seq<char>) -> Seq<char> {
    if space_index(s) < s.len() {
        trimmed(s.subrange(space_index(s) + 1, s.len() as int))
    } else {
        trimmed(s)
    }
}

/// Splits raw input at its first space into a keyword and a search text.
pub fn get_search_query(search_input: &str) -> (q: SearchQuery)
    ensures
        match q.keyword {
            Some(k) => query_keyword(search_input@) == Some(k@),
            None => query_keyword(search_input@) is None,
        },
        q.search_text@ == query_text(search_input@),
{
    let n = search_input.unicode_len();
    let k = find_space(search_input);
    if k < n {
        let keyword = search_input.substring_char(0, k);
        let rest = search_input.substring_char(k + 1, n);
        SearchQuery { keyword: Some(String::from_str(keyword)), search_text: trim_text(rest) }
    } else {
        SearchQuery { keyword: None, search_text: trim_text(search_input) }
    }
}

} // verus!
