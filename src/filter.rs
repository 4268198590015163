//! The filter that the URL fragment selects.
use vstd::prelude::*;
use crate::todos::{TodoView, active_items, completed_items};

verus! {

/// Which items the list shows.
#[derive(Clone, Copy, Debug, PartialEq, Eq, Structural)]
pub enum Filter {
    All,
    Active,
    Completed,
}

/// The filter that the remaining parts of a URL's hash path select:
/// exactly `["active"]` or `["completed"]`, anything else selects all.
pub open spec fn filter_of_path(parts: Seq<Seq<char>>) -> Filter {
    if parts.len() == 1 && parts[0] == "active"@ {
        Filter::Active
    } else if parts.len() == 1 && parts[0] == "completed"@ {
        Filter::Completed
    } else {
        Filter::All
    }
}

/// Whether an item with this completed flag passes `f`.
pub open spec fn shows(f: Filter, completed: bool) -> bool {
    match f {
        Filter::All => true,
        Filter::Active => !completed,
        Filter::Completed => completed,
    }
}

/// The items of `s` that `f` shows, in their order.
pub open spec fn shown_items(s: Seq<TodoView>, f: Filter) -> Seq<TodoView> {
    match f {
        Filter::All => s,
        Filter::Active => active_items(s),
        Filter::Completed => completed_items(s),
    }
}

/// The link that selects `f`.
pub open spec fn href_of(f: Filter) -> Seq<char> {
    match f {
        Filter::All => "#/"@,
        Filter::Active => "#/active"@,
        Filter::Completed => "#/completed"@,
    }
}

/// The label of `f` on the page.
pub open spec fn title_of(f: Filter) -> Seq<char> {
    match f {
        Filter::All => "All"@,
        Filter::Active => "Active"@,
        Filter::Completed => "Completed"@,
    }
}

impl Filter {
    /// The filter for the remaining parts of a URL's hash path.
    pub fn from_hash_path(parts: &Vec<String>) -> (r: Filter)
        ensures
            r == filter_of_path(parts@.map_values(|p: String| p@)),
    {
        let ghost ps = parts@.map_values(|p: String| p@);
        if parts.len() != 1 {
            return Filter::All;
        }
        assert(ps[0] == parts@[0]@);
        let active = "active".to_owned();
        let completed = "completed".to_owned();
        if parts[0] == active {
            Filter::Active
        } else if parts[0] == completed {
            Filter::Completed
        } else {
            Filter::All
        }
    }

    /// Whether an item with this completed flag passes the filter.
    pub fn shows(&self, completed: bool) -> (r: bool)
        ensures
            r == shows(*self, completed),
    {
        match self {
            Filter::All => true,
            Filter::Active => !completed,
            Filter::Completed => completed,
        }
    }

    /// Every filter, in the order the page lists them.
    pub fn all_filters() -> (r: Vec<Filter>)
        ensures
            r@ == seq![Filter::All, Filter::Active, Filter::Completed],
    {
        let r = vec![Filter::All, Filter::Active, Filter::Completed];
        assert(r@ =~= seq![Filter::All, Filter::Active, Filter::Completed]);
        r
    }

    /// The link that selects the filter: `#/`, `#/active` or `#/completed`.
    pub fn href(&self) -> (r: String)
        ensures
            r@ == href_of(*self),
    {
        match self {
            Filter::All => "#/".to_owned(),
            Filter::Active => "#/active".to_owned(),
            Filter::Completed => "#/completed".to_owned(),
        }
    }

    /// The filter's label on the page.
    pub fn title(&self) -> (r: String)
        ensures
            r@ == title_of(*self),
    {
        match self {
            Filter::All => "All".to_owned(),
            Filter::Active => "Active".to_owned(),
            Filter::Completed => "Completed".to_owned(),
        }
    }
}

} // verus!
