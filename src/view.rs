//! What the page shows for a state, as plain values: the rows of the list,
//! the toggle-all box, the remaining count and the filter links.
use vstd::prelude::*;
use crate::filter::{Filter, href_of, shown_items, title_of};
use crate::model::{Model, SelectedTodo};
use crate::todos::{TodoList, TodoView, active_items, all_completed, completed_items};

verus! {

/// One row of the list.
pub struct TodoRow {
    pub id: u128,
    pub title: String,
    pub completed: bool,
    /// The row is the open edit session.
    pub editing: bool,
}

/// One link of the filter bar.
pub struct FilterLink {
    pub filter: Filter,
    pub href: String,
    pub title: String,
    pub selected: bool,
}

/// Everything the page shows besides the draft input.
pub struct Page {
    /// The list and the footer are shown only for a non-empty collection.
    pub show_main: bool,
    pub toggle_all_checked: bool,
    pub rows: Vec<TodoRow>,
    pub remaining_text: String,
    pub filter_links: Vec<FilterLink>,
    pub show_clear_completed: bool,
}

/// The decimal digit `d`.
pub open spec fn digit(d: nat) -> char {
    seq!['0', '1', '2', '3', '4', '5', '6', '7', '8', '9'][d as int]
}

/// The decimal notation of `n`, without leading zeros.
pub open spec fn decimal(n: nat) -> Seq<char>
    decreases n,
{
    if n < 10 {
        seq![digit(n)]
    } else {
        decimal(n / 10).push(digit(n % 10))
    }
}

/// The remaining-count text for `n` active items.
pub open spec fn remaining_text_of(n: nat) -> Seq<char> {
    decimal(n) + if n == 1 {
        " item left"@
    } else {
        " items left"@
    }
}

/// The row of item `t`, where `editing` is the identifier of the open edit
/// session, if any.
pub open spec fn row_of(t: TodoView, editing: Option<u128>) -> (u128, Seq<char>, bool, bool) {
    (t.id, t.title, t.completed, editing == Some(t.id))
}

/// The identifier of the open edit session, if any.
pub open spec fn editing_id(selected: Option<SelectedTodo>) -> Option<u128> {
    match selected {
        Some(s) => Some(s.id),
        None => None,
    }
}

/// `links` is the filter bar for the current filter `current`: all, active
/// and completed in that order, each with its link and label, the current
/// one marked as selected.
pub open spec fn filter_bar(links: Seq<FilterLink>, current: Filter) -> bool {
    &&& links.len() == 3
    &&& links[0].filter == Filter::All
    &&& links[1].filter == Filter::Active
    &&& links[2].filter == Filter::Completed
    &&& forall|k: int|
        0 <= k < 3 ==> links[k].href@ == href_of(#[trigger] links[k].filter) && links[k].title@
            == title_of(links[k].filter) && links[k].selected == (links[k].filter == current)
}

/// Relies on `format!` with `usize`'s `Display`: the decimal digits of `n`
/// followed by `suffix`.
#[verifier::external_body]
fn number_then(n: usize, suffix: &str) -> (r: String)
    ensures
        r@ == decimal(n as nat) + suffix@,
{
    format!("{}{}", n, suffix)
}

/// "1 item left" for one active item, "N items left" for any other number.
pub fn remaining_text(active: usize) -> (r: String)
    ensures
        r@ == remaining_text_of(active as nat),
{
    if active == 1 {
        number_then(active, " item left")
    } else {
        number_then(active, " items left")
    }
}

/// The rows of the list: the items that `filter` shows, in identifier order,
/// the one of the open edit session marked as editing.
pub fn todo_rows(todos: &TodoList, selected: &Option<SelectedTodo>, filter: Filter) -> (r: Vec<
    TodoRow,
>)
    requires
        todos.wf(),
    ensures
        r@.map_values(|w: TodoRow| (w.id, w.title@, w.completed, w.editing)) == shown_items(
            todos@,
            filter,
        ).map_values(
            |t: TodoView|
                row_of(t, editing_id(*selected)),
        ),
{
    let ghost s = todos@;
    let ghost editing = editing_id(*selected);
    let ghost pred = |t: TodoView| crate::filter::shows(filter, t.completed);
    let mut out: Vec<TodoRow> = Vec::new();
    let mut i: usize = 0;
    while i < todos.len()
        invariant
            i <= s.len(),
            s == todos@,
            editing == editing_id(*selected),
            pred == (|t: TodoView| crate::filter::shows(filter, t.completed)),
            out@.map_values(|w: TodoRow| (w.id, w.title@, w.completed, w.editing)) == s.take(
                i as int,
            ).filter(pred).map_values(|t: TodoView| row_of(t, editing)),
        decreases s.len() - i,
    {
        proof {
            crate::todos::lemma_filter_take_step(s, pred, i as int);
        }
        let ghost before = out@;
        let t = todos.get(i);
        if filter.shows(t.completed) {
            let editing_row = match selected {
                Some(x) => x.id == t.id,
                None => false,
            };
            let row = TodoRow {
                id: t.id,
                title: t.title.clone(),
                completed: t.completed,
                editing: editing_row,
            };
            assert((row.id, row.title@, row.completed, row.editing) == row_of(s[i as int], editing));
            out.push(row);
            assert(out@.map_values(|w: TodoRow| (w.id, w.title@, w.completed, w.editing)) =~= before.map_values(
                |w: TodoRow| (w.id, w.title@, w.completed, w.editing),
            ).push(row_of(s[i as int], editing)));
        }
        i = i + 1;
    }
    assert(s.take(s.len() as int) =~= s);
    proof {
        lemma_shown_items_filter(s, filter);
    }
    out
}

/// The filter bar: every filter in order, with its link and label, the one
/// of `current` marked as selected.
pub fn filter_links(current: Filter) -> (r: Vec<FilterLink>)
    ensures
        filter_bar(r@, current),
{
    let filters = Filter::all_filters();
    let mut out: Vec<FilterLink> = Vec::new();
    let mut i: usize = 0;
    while i < filters.len()
        invariant
            filters@ == seq![Filter::All, Filter::Active, Filter::Completed],
            i <= 3,
            out@.len() == i,
            forall|k: int|
                0 <= k < i ==> out@[k].filter == filters@[k] && out@[k].href@ == href_of(
                    out@[k].filter,
                ) && out@[k].title@ == title_of(out@[k].filter) && out@[k].selected == (
                out@[k].filter == current),
        decreases filters.len() - i,
    {
        let f = filters[i];
        out.push(FilterLink { filter: f, href: f.href(), title: f.title(), selected: f == current });
        i = i + 1;
    }
    out
}

/// What the page shows for `model`.
pub fn view(model: &Model) -> (r: Page)
    requires
        model.wf(),
    ensures
        r.show_main == (model@.todos.len() > 0),
        r.toggle_all_checked == all_completed(model@.todos),
        r.rows@.map_values(|w: TodoRow| (w.id, w.title@, w.completed, w.editing)) == shown_items(
            model@.todos,
            model@.filter,
        ).map_values(|t: TodoView| row_of(t, editing_id(model.selected_todo))),
        r.remaining_text@ == remaining_text_of(active_items(model@.todos).len()),
        filter_bar(r.filter_links@, model@.filter),
        r.show_clear_completed == (completed_items(model@.todos).len() > 0),
{
    Page {
        show_main: !model.todos.is_empty(),
        toggle_all_checked: model.todos.all_completed(),
        rows: todo_rows(&model.todos, &model.selected_todo, model.filter),
        remaining_text: remaining_text(model.todos.active_count()),
        filter_links: filter_links(model.filter),
        show_clear_completed: model.todos.completed_count() > 0,
    }
}

/// The items a filter shows are those that pass its predicate.
proof fn lemma_shown_items_filter(s: Seq<TodoView>, filter: Filter)
    ensures
        shown_items(s, filter) == s.filter(|t: TodoView| crate::filter::shows(filter, t.completed)),
{
    let pred = |t: TodoView| crate::filter::shows(filter, t.completed);
    match filter {
        Filter::All => {
            reveal(Seq::filter);
            lemma_filter_all(s, pred);
        },
        Filter::Active => {
            assert(pred =~= |t: TodoView| !t.completed);
        },
        Filter::Completed => {
            assert(pred =~= |t: TodoView| t.completed);
        },
    }
}

/// Filtering by a predicate that every element passes changes nothing.
proof fn lemma_filter_all(s: Seq<TodoView>, pred: spec_fn(TodoView) -> bool)
    requires
        forall|t: TodoView| #[trigger] pred(t),
    ensures
        s.filter(pred) == s,
    decreases s.len(),
{
    reveal(Seq::filter);
    if s.len() > 0 {
        lemma_filter_all(s.drop_last(), pred);
        assert(s.drop_last().push(s.last()) =~= s);
    }
}

} // verus!
