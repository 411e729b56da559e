//! The site's own catalogue of endpoints and friend links.
use vstd::prelude::*;

verus! {

/// The query of the catalogue search.
pub struct SearchParams {
    pub q: Option<String>,
}

/// The term to search the catalogue for: the query when it is not empty; no term
/// (an empty answer) otherwise.
pub fn search_term(params: &SearchParams) -> (r: Option<&str>)
    ensures
        match params.q {
            Some(q) => if q@.len() > 0 {
                r matches Some(t) && t@ == q@
            } else {
                r is None
            },
            None => r is None,
        },
{
    match &params.q {
        Some(q) => if q.as_str().is_empty() {
            None
        } else {
            Some(q.as_str())
        },
        None => None,
    }
}

} // verus!
