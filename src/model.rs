//! The application state and the update step that applies one message to it.
use vstd::prelude::*;
use crate::filter::{Filter, filter_of_path};
use crate::text::{trim, trimmed};
use crate::todos::{
    Todo,
    TodoList,
    TodoView,
    has_id,
    inserted,
    removed,
    retitled,
    toggled,
    set_all_completed,
    all_completed,
    active_items,
};

verus! {

/// The item whose title is being edited, with the edited text.
pub struct SelectedTodo {
    pub id: u128,
    pub title: String,
}

/// The application state.
pub struct Model {
    pub todos: TodoList,
    pub new_todo_title: String,
    pub selected_todo: Option<SelectedTodo>,
    pub filter: Filter,
}

/// What the application state is, mathematically.
pub ghost struct ModelView {
    pub todos: Seq<TodoView>,
    pub new_todo_title: Seq<char>,
    pub selected_todo: Option<(u128, Seq<char>)>,
    pub filter: Filter,
}

impl View for Model {
    type V = ModelView;

    open spec fn view(&self) -> ModelView {
        ModelView {
            todos: self.todos@,
            new_todo_title: self.new_todo_title@,
            selected_todo: match self.selected_todo {
                Some(s) => Some((s.id, s.title@)),
                None => None,
            },
            filter: self.filter,
        }
    }
}

/// The events that change the state.
pub enum Msg {
    NewTodoTitleChanged(String),
    /// The URL changed; it carries the remaining parts of the hash path.
    UrlChanged(Vec<String>),
    CreateTodo,
    ToggleTodo(u128),
    RemoveTodo(u128),
    CheckOrUncheckAll,
    ClearCompleted,
    SelectTodo(Option<u128>),
    SelectedTodoTitleChanged(String),
    SaveSelectedTodo,
}

/// Work to do after the next render.
#[derive(Clone, Copy, Debug, PartialEq, Eq, Structural)]
pub enum Effect {
    Nothing,
    /// Focus the edit input and put the cursor at the end of its text.
    FocusEditInput,
}

/// `new` is `old` after creating an item with identifier `id` from a draft
/// whose trimmed text is not empty: the item is added and the draft cleared.
pub open spec fn created(old: ModelView, new: ModelView, id: u128) -> bool {
    &&& inserted(
        old.todos,
        new.todos,
        TodoView { id, title: trimmed(old.new_todo_title), completed: false },
    )
    &&& new.new_todo_title == Seq::<char>::empty()
    &&& new.selected_todo == old.selected_todo
    &&& new.filter == old.filter
}

/// `new` is `old` after saving the edit session: an edit trimmed to nothing
/// removes the item, any other edit replaces its title; the session closes.
pub open spec fn saved(old: ModelView, new: ModelView) -> bool {
    &&& new.new_todo_title == old.new_todo_title
    &&& new.filter == old.filter
    &&& new.selected_todo.is_none()
    &&& match old.selected_todo {
        None => new.todos == old.todos,
        Some((id, title)) => if trimmed(title).len() == 0 {
            removed(old.todos, new.todos, id)
        } else {
            retitled(old.todos, new.todos, id, trimmed(title))
        },
    }
}

/// `new` is `old` after selecting the item `id` for editing, `effect` the
/// work scheduled: an item that is present opens an edit session seeded with
/// its title; an absent one changes nothing.
pub open spec fn selected(old: ModelView, new: ModelView, id: u128, effect: Effect) -> bool {
    &&& new.todos == old.todos
    &&& new.new_todo_title == old.new_todo_title
    &&& new.filter == old.filter
    &&& forall|i: int|
        0 <= i < old.todos.len() && old.todos[i].id == id ==> new.selected_todo == Some(
            (id, old.todos[i].title),
        ) && effect == Effect::FocusEditInput
    &&& !has_id(old.todos, id) ==> new == old && effect == Effect::Nothing
}

/// Relies on `ulid::Ulid::new`: a new identifier made of the current time and
/// random bits. Nothing is promised of its value.
#[verifier::external_body]
fn new_ulid() -> (r: u128) {
    ulid::Ulid::new().0
}

impl Model {
    /// The invariant: the collection is well formed.
    pub open spec fn wf(&self) -> bool {
        self.todos.wf()
    }

    /// The state at start: the loaded collection, an empty draft, no edit
    /// session, and the filter of the URL.
    pub fn new(todos: TodoList, filter: Filter) -> (r: Model)
        requires
            todos.wf(),
        ensures
            r.wf(),
            r@ == (ModelView {
                todos: todos@,
                new_todo_title: Seq::<char>::empty(),
                selected_todo: None,
                filter,
            }),
    {
        Model { todos, new_todo_title: String::new(), selected_todo: None, filter }
    }

    /// Creates an item with identifier `id` from the trimmed draft, unless
    /// the trimmed draft is empty, when nothing changes.
    pub fn create_todo(&mut self, id: u128)
        requires
            old(self).wf(),
        ensures
            final(self).wf(),
            trimmed(old(self)@.new_todo_title).len() == 0 ==> final(self)@ == old(self)@,
            trimmed(old(self)@.new_todo_title).len() > 0 ==> created(old(self)@, final(self)@, id),
    {
        let title = trim(self.new_todo_title.as_str());
        if !title.as_str().is_empty() {
            self.todos.insert(Todo { id, title, completed: false });
            self.new_todo_title = String::new();
        }
    }

    /// Opens an edit session on the item `id` if it is present, and says
    /// whether the edit input is to be focused after the next render.
    pub fn select_todo(&mut self, id: u128) -> (r: Effect)
        requires
            old(self).wf(),
        ensures
            final(self).wf(),
            selected(old(self)@, final(self)@, id, r),
    {
        match self.todos.position(id) {
            Some(i) => {
                let title = self.todos.get(i).title.clone();
                self.selected_todo = Some(SelectedTodo { id, title });
                Effect::FocusEditInput
            },
            None => Effect::Nothing,
        }
    }

    /// Replaces the text of the open edit session, if there is one.
    pub fn change_selected_title(&mut self, title: String)
        requires
            old(self).wf(),
        ensures
            final(self).wf(),
            final(self)@ == (ModelView {
                selected_todo: match old(self)@.selected_todo {
                    Some((id, _)) => Some((id, title@)),
                    None => None,
                },
                ..old(self)@
            }),
    {
        match &mut self.selected_todo {
            Some(s) => {
                s.title = title;
            },
            None => {},
        }
    }

    /// Closes the edit session, writing its trimmed text back to the item, or
    /// removing the item where that text is empty.
    pub fn save_selected_todo(&mut self)
        requires
            old(self).wf(),
        ensures
            final(self).wf(),
            saved(old(self)@, final(self)@),
    {
        let selected = self.selected_todo.take();
        match selected {
            Some(s) => {
                let title = trim(s.title.as_str());
                if title.as_str().is_empty() {
                    self.todos.remove(s.id);
                } else {
                    self.todos.set_title(s.id, title);
                }
            },
            None => {},
        }
    }
}

/// Applies one message to the state and returns the work to do after the
/// next render. A new item gets an identifier drawn only when the trimmed
/// draft is not empty.
pub fn update(msg: Msg, model: &mut Model) -> (r: Effect)
    requires
        old(model).wf(),
    ensures
        final(model).wf(),
        match msg {
            Msg::SelectTodo(Some(id)) => selected(old(model)@, final(model)@, id, r),
            _ => r == Effect::Nothing,
        },
        match msg {
            Msg::NewTodoTitleChanged(title) => final(model)@ == (ModelView {
                new_todo_title: title@,
                ..old(model)@
            }),
            Msg::UrlChanged(parts) => final(model)@ == (ModelView {
                filter: filter_of_path(parts@.map_values(|p: String| p@)),
                ..old(model)@
            }),
            Msg::CreateTodo => {
                &&& trimmed(old(model)@.new_todo_title).len() == 0 ==> final(model)@ == old(
                    model,
                )@
                &&& trimmed(old(model)@.new_todo_title).len() > 0 ==> exists|id: u128|
                    created(old(model)@, final(model)@, id)
            },
            Msg::ToggleTodo(id) => toggled(old(model)@.todos, final(model)@.todos, id)
                && final(model)@ == (ModelView { todos: final(model)@.todos, ..old(model)@ }),
            Msg::RemoveTodo(id) => removed(old(model)@.todos, final(model)@.todos, id)
                && final(model)@ == (ModelView { todos: final(model)@.todos, ..old(model)@ }),
            Msg::CheckOrUncheckAll => final(model)@ == (ModelView {
                todos: set_all_completed(old(model)@.todos, !all_completed(old(model)@.todos)),
                ..old(model)@
            }),
            Msg::ClearCompleted => final(model)@ == (ModelView {
                todos: active_items(old(model)@.todos),
                ..old(model)@
            }),
            Msg::SelectTodo(None) => final(model)@ == (ModelView {
                selected_todo: None,
                ..old(model)@
            }),
            Msg::SelectTodo(Some(_)) => true,
            Msg::SelectedTodoTitleChanged(title) => final(model)@ == (ModelView {
                selected_todo: match old(model)@.selected_todo {
                    Some((id, _)) => Some((id, title@)),
                    None => None,
                },
                ..old(model)@
            }),
            Msg::SaveSelectedTodo => saved(old(model)@, final(model)@),
        },
{
    match msg {
        Msg::NewTodoTitleChanged(title) => {
            model.new_todo_title = title;
        },
        Msg::UrlChanged(parts) => {
            model.filter = Filter::from_hash_path(&parts);
        },
        Msg::CreateTodo => {
            let title = trim(model.new_todo_title.as_str());
            if !title.as_str().is_empty() {
                let id = new_ulid();
                model.create_todo(id);
            }
        },
        Msg::ToggleTodo(id) => {
            model.todos.toggle(id);
        },
        Msg::RemoveTodo(id) => {
            model.todos.remove(id);
        },
        Msg::CheckOrUncheckAll => {
            model.todos.check_or_uncheck_all();
        },
        Msg::ClearCompleted => {
            model.todos.clear_completed();
        },
        Msg::SelectTodo(Some(id)) => {
            return model.select_todo(id);
        },
        Msg::SelectTodo(None) => {
            model.selected_todo = None;
        },
        Msg::SelectedTodoTitleChanged(title) => {
            model.change_selected_title(title);
        },
        Msg::SaveSelectedTodo => {
            model.save_selected_todo();
        },
    }
    Effect::Nothing
}

} // verus!
