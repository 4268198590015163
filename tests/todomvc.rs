use todomvc::filter::Filter;
use todomvc::model::{update, Effect, Model, Msg, SelectedTodo};
use todomvc::text::trim;
use todomvc::todos::{Todo, TodoList};
use todomvc::view::{filter_links, remaining_text, todo_rows, view};

fn todo(id: u128, title: &str, completed: bool) -> Todo {
    Todo { id, title: title.to_string(), completed }
}

fn list(items: &[(u128, &str, bool)]) -> TodoList {
    let mut l = TodoList::new();
    for (id, title, completed) in items {
        l.insert(todo(*id, title, *completed));
    }
    l
}

fn flags(l: &TodoList) -> Vec<(u128, String, bool)> {
    (0..l.len()).map(|i| {
        let t = l.get(i);
        (t.id, t.title.clone(), t.completed)
    }).collect()
}

fn model_with(items: &[(u128, &str, bool)]) -> Model {
    Model::new(list(items), Filter::All)
}

#[test]
fn trim_removes_surrounding_white_space() {
    assert_eq!(trim("  Buy milk  "), "Buy milk");
    assert_eq!(trim("\t\n a b \u{3000}"), "a b");
    assert_eq!(trim("   "), "");
    assert_eq!(trim(""), "");
}

#[test]
fn create_trims_draft_and_clears_it() {
    let mut m = model_with(&[]);
    m.new_todo_title = "  Buy milk  ".to_string();
    m.create_todo(7);
    assert_eq!(flags(&m.todos), vec![(7, "Buy milk".to_string(), false)]);
    assert_eq!(m.new_todo_title, "");
}

#[test]
fn create_with_blank_draft_changes_nothing() {
    let mut m = model_with(&[]);
    m.new_todo_title = "   ".to_string();
    m.create_todo(7);
    assert_eq!(m.todos.len(), 0);
    assert_eq!(m.new_todo_title, "   ");
    let e = update(Msg::CreateTodo, &mut m);
    assert_eq!(e, Effect::Nothing);
    assert_eq!(m.todos.len(), 0);
    assert_eq!(m.new_todo_title, "   ");
}

#[test]
fn update_creates_with_a_fresh_identifier() {
    let mut m = model_with(&[]);
    update(Msg::NewTodoTitleChanged("  Buy milk  ".to_string()), &mut m);
    assert_eq!(m.new_todo_title, "  Buy milk  ");
    update(Msg::CreateTodo, &mut m);
    assert_eq!(m.todos.len(), 1);
    assert_eq!(m.todos.get(0).title, "Buy milk");
    assert!(!m.todos.get(0).completed);
    assert_eq!(m.new_todo_title, "");
    update(Msg::NewTodoTitleChanged("Walk dog".to_string()), &mut m);
    update(Msg::CreateTodo, &mut m);
    assert_eq!(m.todos.len(), 2);
    assert_ne!(m.todos.get(0).id, m.todos.get(1).id);
}

#[test]
fn insert_keeps_identifier_order_and_replaces_equal_ids() {
    let mut l = list(&[(5, "e", false), (1, "a", false), (3, "c", true)]);
    assert_eq!(
        flags(&l),
        vec![(1, "a".to_string(), false), (3, "c".to_string(), true), (5, "e".to_string(), false)]
    );
    l.insert(todo(3, "C", false));
    assert_eq!(
        flags(&l),
        vec![(1, "a".to_string(), false), (3, "C".to_string(), false), (5, "e".to_string(), false)]
    );
}

#[test]
fn toggle_flips_present_and_ignores_absent() {
    let mut m = model_with(&[(1, "A", false), (2, "B", true)]);
    update(Msg::ToggleTodo(1), &mut m);
    assert_eq!(flags(&m.todos), vec![(1, "A".to_string(), true), (2, "B".to_string(), true)]);
    update(Msg::ToggleTodo(9), &mut m);
    assert_eq!(flags(&m.todos), vec![(1, "A".to_string(), true), (2, "B".to_string(), true)]);
    update(Msg::ToggleTodo(1), &mut m);
    assert_eq!(flags(&m.todos), vec![(1, "A".to_string(), false), (2, "B".to_string(), true)]);
}

#[test]
fn remove_deletes_present_and_ignores_absent() {
    let mut m = model_with(&[(1, "A", false), (2, "B", true)]);
    update(Msg::RemoveTodo(9), &mut m);
    assert_eq!(m.todos.len(), 2);
    update(Msg::RemoveTodo(1), &mut m);
    assert_eq!(flags(&m.todos), vec![(2, "B".to_string(), true)]);
}

#[test]
fn check_or_uncheck_all_goes_to_opposite_of_unanimous() {
    let mut m = model_with(&[(1, "A", false), (2, "B", true)]);
    update(Msg::CheckOrUncheckAll, &mut m);
    assert_eq!(flags(&m.todos), vec![(1, "A".to_string(), true), (2, "B".to_string(), true)]);
    update(Msg::CheckOrUncheckAll, &mut m);
    assert_eq!(flags(&m.todos), vec![(1, "A".to_string(), false), (2, "B".to_string(), false)]);
}

#[test]
fn check_or_uncheck_all_on_empty_collection() {
    let mut m = model_with(&[]);
    update(Msg::CheckOrUncheckAll, &mut m);
    assert_eq!(m.todos.len(), 0);
}

#[test]
fn clear_completed_keeps_active_in_order() {
    let mut m = model_with(&[(1, "A", true), (2, "B", false), (3, "C", true)]);
    update(Msg::ClearCompleted, &mut m);
    assert_eq!(flags(&m.todos), vec![(2, "B".to_string(), false)]);
    let mut m = model_with(&[(1, "A", false), (2, "B", true), (3, "C", false)]);
    m.todos.clear_completed();
    assert_eq!(flags(&m.todos), vec![(1, "A".to_string(), false), (3, "C".to_string(), false)]);
}

fn parts(p: &[&str]) -> Vec<String> {
    p.iter().map(|s| s.to_string()).collect()
}

#[test]
fn filter_follows_url_fragment() {
    let mut m = model_with(&[]);
    update(Msg::UrlChanged(parts(&["active"])), &mut m);
    assert_eq!(m.filter, Filter::Active);
    update(Msg::UrlChanged(parts(&["completed"])), &mut m);
    assert_eq!(m.filter, Filter::Completed);
    update(Msg::UrlChanged(parts(&["unknownvalue"])), &mut m);
    assert_eq!(m.filter, Filter::All);
    assert_eq!(Filter::from_hash_path(&parts(&[])), Filter::All);
    assert_eq!(Filter::from_hash_path(&parts(&["active", "x"])), Filter::All);
}

#[test]
fn filter_links_and_labels() {
    assert_eq!(Filter::All.href(), "#/");
    assert_eq!(Filter::Active.href(), "#/active");
    assert_eq!(Filter::Completed.href(), "#/completed");
    let links = filter_links(Filter::Active);
    let got: Vec<(String, String, bool)> =
        links.iter().map(|l| (l.href.clone(), l.title.clone(), l.selected)).collect();
    assert_eq!(
        got,
        vec![
            ("#/".to_string(), "All".to_string(), false),
            ("#/active".to_string(), "Active".to_string(), true),
            ("#/completed".to_string(), "Completed".to_string(), false),
        ]
    );
}

#[test]
fn select_edit_and_save_replaces_title_only() {
    let mut m = model_with(&[(1, "A", true), (2, "B", false)]);
    assert_eq!(update(Msg::SelectTodo(Some(9)), &mut m), Effect::Nothing);
    assert!(m.selected_todo.is_none());
    assert_eq!(update(Msg::SelectTodo(Some(1)), &mut m), Effect::FocusEditInput);
    assert_eq!(m.selected_todo.as_ref().map(|s| (s.id, s.title.clone())), Some((1, "A".to_string())));
    update(Msg::SelectedTodoTitleChanged("  New A ".to_string()), &mut m);
    assert_eq!(m.selected_todo.as_ref().map(|s| s.title.clone()), Some("  New A ".to_string()));
    update(Msg::SaveSelectedTodo, &mut m);
    assert!(m.selected_todo.is_none());
    assert_eq!(flags(&m.todos), vec![(1, "New A".to_string(), true), (2, "B".to_string(), false)]);
}

#[test]
fn save_blank_edit_removes_item() {
    let mut m = model_with(&[(1, "A", true), (2, "B", false)]);
    m.selected_todo = Some(SelectedTodo { id: 2, title: "  ".to_string() });
    update(Msg::SaveSelectedTodo, &mut m);
    assert!(m.selected_todo.is_none());
    assert_eq!(flags(&m.todos), vec![(1, "A".to_string(), true)]);
}

#[test]
fn cancel_edit_discards_changes() {
    let mut m = model_with(&[(1, "A", false)]);
    update(Msg::SelectTodo(Some(1)), &mut m);
    update(Msg::SelectedTodoTitleChanged("Z".to_string()), &mut m);
    update(Msg::SelectTodo(None), &mut m);
    assert!(m.selected_todo.is_none());
    assert_eq!(flags(&m.todos), vec![(1, "A".to_string(), false)]);
}

#[test]
fn entries_round_trip() {
    let l = list(&[(3, "c", true), (1, "a", false), (2, "b", false)]);
    let saved = l.to_entries();
    let reloaded = TodoList::from_entries(saved);
    assert_eq!(flags(&reloaded), flags(&l));
    let unordered = vec![todo(9, "z", false), todo(4, "d", true)];
    let r = TodoList::from_entries(unordered);
    assert_eq!(flags(&r), vec![(4, "d".to_string(), true), (9, "z".to_string(), false)]);
}

#[test]
fn remaining_text_pluralizes() {
    assert_eq!(remaining_text(1), "1 item left");
    assert_eq!(remaining_text(0), "0 items left");
    assert_eq!(remaining_text(2), "2 items left");
    assert_eq!(remaining_text(105), "105 items left");
}

#[test]
fn rows_follow_filter_and_edit_session() {
    let l = list(&[(1, "A", true), (2, "B", false), (3, "C", true)]);
    let rows = todo_rows(&l, &None, Filter::Completed);
    assert_eq!(rows.iter().map(|r| r.id).collect::<Vec<_>>(), vec![1, 3]);
    let rows = todo_rows(&l, &None, Filter::Active);
    assert_eq!(rows.iter().map(|r| r.id).collect::<Vec<_>>(), vec![2]);
    let sel = Some(SelectedTodo { id: 3, title: "x".to_string() });
    let rows = todo_rows(&l, &sel, Filter::All);
    let got: Vec<(u128, bool, bool)> = rows.iter().map(|r| (r.id, r.completed, r.editing)).collect();
    assert_eq!(got, vec![(1, true, false), (2, false, false), (3, true, true)]);
}

#[test]
fn page_for_model() {
    let mut m = model_with(&[(1, "A", true), (2, "B", false)]);
    m.filter = Filter::Completed;
    let p = view(&m);
    assert!(p.show_main);
    assert!(!p.toggle_all_checked);
    assert_eq!(p.rows.len(), 1);
    assert_eq!(p.remaining_text, "1 item left");
    assert!(p.show_clear_completed);
    assert!(p.filter_links[2].selected);
    let p = view(&model_with(&[]));
    assert!(!p.show_main);
    assert!(p.toggle_all_checked);
    assert!(!p.show_clear_completed);
    assert_eq!(p.remaining_text, "0 items left");
}
