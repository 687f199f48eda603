//! The per-request query value and the storage filter built from it.

use vstd::prelude::*;
use crate::matching::contains_sub;
use crate::task::{TaskView, task_matches};

verus! {

/// The raw search text of one request, as taken from the `q` parameter.
pub struct SearchQuery {
    pub q: String,
}

impl View for SearchQuery {
    type V = Seq<char>;

    open spec fn view(&self) -> Seq<char> {
        self.q@
    }
}

/// The filter handed to the storage engine: select the records whose title
/// or description contains `pattern`, ignoring letter case when
/// `case_insensitive` is set.
pub struct SearchFilter {
    pub pattern: String,
    pub case_insensitive: bool,
}

/// Model of a filter.
pub ghost struct FilterView {
    pub pattern: Seq<char>,
    pub case_insensitive: bool,
}

impl View for SearchFilter {
    type V = FilterView;

    open spec fn view(&self) -> FilterView {
        FilterView { pattern: self.pattern@, case_insensitive: self.case_insensitive }
    }
}

/// Which records a filter selects.
pub open spec fn filter_accepts(f: FilterView, t: TaskView) -> bool {
    if f.case_insensitive {
        task_matches(t, f.pattern)
    } else {
        contains_sub(t.title, f.pattern) || contains_sub(t.description, f.pattern)
    }
}

/// Builds the storage filter for a query: its pattern is the query text
/// itself, matched case-insensitively, so the filter selects exactly the
/// records the query matches.
pub fn build_filter(query: &SearchQuery) -> (f: SearchFilter)
    ensures
        f@.pattern == query@,
        f@.case_insensitive,
        forall|t: TaskView| filter_accepts(f@, t) == task_matches(t, query@),
{
    SearchFilter { pattern: query.q.clone(), case_insensitive: true }
}

} // verus!
