//! Todo items and the collection that holds them in identifier order.
use vstd::prelude::*;

verus! {

/// One todo item.
pub struct Todo {
    pub id: u128,
    pub title: String,
    pub completed: bool,
}

/// What a todo item is, mathematically.
pub ghost struct TodoView {
    pub id: u128,
    pub title: Seq<char>,
    pub completed: bool,
}

impl View for Todo {
    type V = TodoView;

    open spec fn view(&self) -> TodoView {
        TodoView { id: self.id, title: self.title@, completed: self.completed }
    }
}

impl Todo {
    /// A copy of the item with its completed flag set to `completed`.
    pub fn with_completed(&self, completed: bool) -> (r: Todo)
        ensures
            r@ == (TodoView { completed, ..self@ }),
    {
        Todo { id: self.id, title: self.title.clone(), completed }
    }

    /// A copy of the item.
    pub fn copy(&self) -> (r: Todo)
        ensures
            r@ == self@,
    {
        self.with_completed(self.completed)
    }
}

/// Identifiers strictly increase along `s`: each is unique and the items stand
/// in identifier order.
pub open spec fn ids_increasing(s: Seq<TodoView>) -> bool {
    forall|i: int, j: int| 0 <= i < j < s.len() ==> s[i].id < s[j].id
}

/// Some item of `s` has identifier `id`.
pub open spec fn has_id(s: Seq<TodoView>, id: u128) -> bool {
    exists|i: int| 0 <= i < s.len() && s[i].id == id
}

/// Every item of `s` is completed.
pub open spec fn all_completed(s: Seq<TodoView>) -> bool {
    forall|i: int| 0 <= i < s.len() ==> s[i].completed
}

/// `s` with the completed flag of every item set to `completed`.
pub open spec fn set_all_completed(s: Seq<TodoView>, completed: bool) -> Seq<TodoView> {
    s.map_values(|t: TodoView| TodoView { completed, ..t })
}

/// The items of `s` that are not completed, in their order.
pub open spec fn active_items(s: Seq<TodoView>) -> Seq<TodoView> {
    s.filter(|t: TodoView| !t.completed)
}

/// The items of `s` that are completed, in their order.
pub open spec fn completed_items(s: Seq<TodoView>) -> Seq<TodoView> {
    s.filter(|t: TodoView| t.completed)
}

/// `new` is `old` with `t` added in identifier order, or with the item of the
/// same identifier replaced by `t`.
pub open spec fn inserted(old: Seq<TodoView>, new: Seq<TodoView>, t: TodoView) -> bool {
    &&& forall|i: int| 0 <= i < old.len() && old[i].id == t.id ==> new == old.update(i, t)
    &&& !has_id(old, t.id) ==> exists|k: int| 0 <= k <= old.len() && new == old.insert(k, t)
}

/// `new` is `old` without the item with identifier `id`, if there was one.
pub open spec fn removed(old: Seq<TodoView>, new: Seq<TodoView>, id: u128) -> bool {
    &&& forall|i: int| 0 <= i < old.len() && old[i].id == id ==> new == old.remove(i)
    &&& !has_id(old, id) ==> new == old
}

/// `new` is `old` with the completed flag of the item with identifier `id`
/// flipped, if there was one.
pub open spec fn toggled(old: Seq<TodoView>, new: Seq<TodoView>, id: u128) -> bool {
    &&& forall|i: int|
        0 <= i < old.len() && old[i].id == id ==> new == old.update(
            i,
            TodoView { completed: !old[i].completed, ..old[i] },
        )
    &&& !has_id(old, id) ==> new == old
}

/// `new` is `old` with the title of the item with identifier `id` replaced by
/// `title`, if there was one.
pub open spec fn retitled(old: Seq<TodoView>, new: Seq<TodoView>, id: u128, title: Seq<char>) -> bool {
    &&& forall|i: int|
        0 <= i < old.len() && old[i].id == id ==> new == old.update(
            i,
            TodoView { title, ..old[i] },
        )
    &&& !has_id(old, id) ==> new == old
}

/// `r` is a collection loaded from the saved entries `e`: it is in
/// identifier order, and entries that already were stay exactly as saved.
pub open spec fn loaded_from(e: Seq<TodoView>, r: Seq<TodoView>) -> bool {
    &&& ids_increasing(r)
    &&& ids_increasing(e) ==> r == e
}

/// The todo collection: a map from identifier to item, kept as a vector in
/// identifier order.
pub struct TodoList {
    items: Vec<Todo>,
}

impl View for TodoList {
    type V = Seq<TodoView>;

    closed spec fn view(&self) -> Seq<TodoView> {
        self.items@.map_values(|t: Todo| t@)
    }
}

impl TodoList {
    /// The collection's invariant: identifiers strictly increase.
    pub open spec fn wf(&self) -> bool {
        ids_increasing(self@)
    }

    /// An empty collection.
    pub fn new() -> (r: TodoList)
        ensures
            r.wf(),
            r@ == Seq::<TodoView>::empty(),
    {
        let r = TodoList { items: Vec::new() };
        assert(r@ =~= Seq::<TodoView>::empty());
        r
    }

    /// The number of items.
    pub fn len(&self) -> (r: usize)
        ensures
            r == self@.len(),
    {
        self.items.len()
    }

    /// Whether there are no items.
    pub fn is_empty(&self) -> (r: bool)
        ensures
            r == (self@.len() == 0),
    {
        self.items.len() == 0
    }

    /// The item at position `i` in identifier order.
    pub fn get(&self, i: usize) -> (r: &Todo)
        requires
            i < self@.len(),
        ensures
            r@ == self@[i as int],
    {
        &self.items[i]
    }

    /// The position of the item with identifier `id`, if there is one.
    pub fn position(&self, id: u128) -> (r: Option<usize>)
        ensures
            match r {
                Some(i) => i < self@.len() && self@[i as int].id == id,
                None => !has_id(self@, id),
            },
    {
        let mut i: usize = 0;
        while i < self.items.len()
            invariant
                i <= self@.len(),
                self@.len() == self.items@.len(),
                forall|k: int| 0 <= k < i ==> self@[k].id != id,
            decreases self.items.len() - i,
        {
            if self.items[i].id == id {
                return Some(i);
            }
            i = i + 1;
        }
        None
    }

    /// Adds `todo`, in identifier order. An item with the same identifier is
    /// replaced, as a map would do.
    pub fn insert(&mut self, todo: Todo)
        requires
            old(self).wf(),
        ensures
            final(self).wf(),
            inserted(old(self)@, final(self)@, todo@),
    {
        let mut k: usize = 0;
        while k < self.items.len() && self.items[k].id < todo.id
            invariant
                k <= self@.len(),
                self@ == old(self)@,
                self.wf(),
                self@.len() == self.items@.len(),
                forall|j: int| 0 <= j < k ==> self@[j].id < todo.id,
            decreases self.items.len() - k,
        {
            k = k + 1;
        }
        let ghost s = self@;
        if k < self.items.len() && self.items[k].id == todo.id {
            self.items.set(k, todo);
            assert(self@ =~= s.update(k as int, todo@));
        } else {
            assert(forall|j: int| k <= j < s.len() ==> todo.id < s[j].id) by {
                if k < s.len() {
                    assert(todo.id < s[k as int].id);
                }
            }
            self.items.insert(k, todo);
            assert(self@ =~= s.insert(k as int, todo@));
            assert(!has_id(s, todo@.id) ==> self@ == s.insert(k as int, todo@));
        }
    }

    /// Removes the item with identifier `id`, if there is one.
    pub fn remove(&mut self, id: u128)
        requires
            old(self).wf(),
        ensures
            final(self).wf(),
            removed(old(self)@, final(self)@, id),
    {
        match self.position(id) {
            Some(i) => {
                let ghost s = self@;
                self.items.remove(i);
                assert(self@ =~= s.remove(i as int));
            },
            None => {},
        }
    }

    /// Flips the completed flag of the item with identifier `id`, if there is
    /// one.
    pub fn toggle(&mut self, id: u128)
        requires
            old(self).wf(),
        ensures
            final(self).wf(),
            toggled(old(self)@, final(self)@, id),
    {
        match self.position(id) {
            Some(i) => {
                let ghost s = self@;
                let t = self.items[i].with_completed(!self.items[i].completed);
                self.items.set(i, t);
                assert(self@ =~= s.update(i as int, TodoView { completed: !s[i as int].completed, ..s[i as int] }));
            },
            None => {},
        }
    }

    /// Replaces the title of the item with identifier `id`, if there is one.
    pub fn set_title(&mut self, id: u128, title: String)
        requires
            old(self).wf(),
        ensures
            final(self).wf(),
            retitled(old(self)@, final(self)@, id, title@),
    {
        match self.position(id) {
            Some(i) => {
                let ghost s = self@;
                let t = Todo { id, title, completed: self.items[i].completed };
                self.items.set(i, t);
                assert(self@ =~= s.update(i as int, TodoView { title: title@, ..s[i as int] }));
            },
            None => {},
        }
    }

    /// Whether every item is completed (true of an empty collection).
    pub fn all_completed(&self) -> (r: bool)
        ensures
            r == all_completed(self@),
    {
        let mut i: usize = 0;
        while i < self.items.len()
            invariant
                i <= self@.len(),
                self@.len() == self.items@.len(),
                forall|k: int| 0 <= k < i ==> self@[k].completed,
            decreases self.items.len() - i,
        {
            if !self.items[i].completed {
                assert(!self@[i as int].completed);
                return false;
            }
            i = i + 1;
        }
        true
    }

    /// Marks every item completed, unless all of them already are: then marks
    /// every item not completed.
    pub fn check_or_uncheck_all(&mut self)
        requires
            old(self).wf(),
        ensures
            final(self).wf(),
            final(self)@ == set_all_completed(old(self)@, !all_completed(old(self)@)),
    {
        let completed = !self.all_completed();
        let ghost s = self@;
        let mut out: Vec<Todo> = Vec::new();
        let mut i: usize = 0;
        while i < self.items.len()
            invariant
                i <= self@.len(),
                s == self@,
                self@.len() == self.items@.len(),
                out@.len() == i,
                forall|k: int| 0 <= k < i ==> out@[k]@ == (TodoView { completed, ..s[k] }),
            decreases self.items.len() - i,
        {
            out.push(self.items[i].with_completed(completed));
            i = i + 1;
        }
        self.items = out;
        assert(self@ =~= set_all_completed(s, completed));
    }

    /// Keeps only the items that are not completed, in their order.
    pub fn clear_completed(&mut self)
        requires
            old(self).wf(),
        ensures
            final(self).wf(),
            final(self)@ == active_items(old(self)@),
    {
        let ghost s = self@;
        let mut out: Vec<Todo> = Vec::new();
        let mut i: usize = 0;
        while i < self.items.len()
            invariant
                i <= s.len(),
                s == self@,
                ids_increasing(s),
                s.len() == self.items@.len(),
                out@.map_values(|t: Todo| t@) == active_items(s.take(i as int)),
                forall|k: int, j: int| 0 <= k < out@.len() && i <= j < s.len() ==> out@[k].id < s[j].id,
                ids_increasing(out@.map_values(|t: Todo| t@)),
            decreases self.items.len() - i,
        {
            proof {
                lemma_filter_take_step(s, |t: TodoView| !t.completed, i as int);
            }
            let ghost before = out@;
            if !self.items[i].completed {
                out.push(self.items[i].copy());
                assert(out@.map_values(|t: Todo| t@) =~= before.map_values(|t: Todo| t@).push(s[i as int]));
            }
        i = i + 1;
        }
        assert(s.take(s.len() as int) =~= s);
        self.items = out;
    }

    /// The number of items that are not completed.
    pub fn active_count(&self) -> (r: usize)
        ensures
            r == active_items(self@).len(),
    {
        let ghost s = self@;
        let mut n: usize = 0;
        let mut i: usize = 0;
        while i < self.items.len()
            invariant
                i <= s.len(),
                s == self@,
                s.len() == self.items@.len(),
                n == active_items(s.take(i as int)).len(),
                n <= i,
            decreases self.items.len() - i,
        {
            proof {
                lemma_filter_take_step(s, |t: TodoView| !t.completed, i as int);
            }
            if !self.items[i].completed {
                n = n + 1;
            }
            i = i + 1;
        }
        assert(s.take(s.len() as int) =~= s);
        n
    }

    /// The number of items that are completed.
    pub fn completed_count(&self) -> (r: usize)
        ensures
            r == completed_items(self@).len(),
    {
        let ghost s = self@;
        let mut n: usize = 0;
        let mut i: usize = 0;
        while i < self.items.len()
            invariant
                i <= s.len(),
                s == self@,
                s.len() == self.items@.len(),
                n == completed_items(s.take(i as int)).len(),
                n <= i,
            decreases self.items.len() - i,
        {
            proof {
                lemma_filter_take_step(s, |t: TodoView| t.completed, i as int);
            }
            if self.items[i].completed {
                n = n + 1;
            }
            i = i + 1;
        }
        assert(s.take(s.len() as int) =~= s);
        n
    }

    /// Copies of the items, in identifier order: what is saved to storage.
    pub fn to_entries(&self) -> (r: Vec<Todo>)
        requires
            self.wf(),
        ensures
            r@.map_values(|t: Todo| t@) == self@,
            ids_increasing(r@.map_values(|t: Todo| t@)),
    {
        let mut out: Vec<Todo> = Vec::new();
        let mut i: usize = 0;
        while i < self.items.len()
            invariant
                i <= self@.len(),
                self@.len() == self.items@.len(),
                out@.len() == i,
                forall|k: int| 0 <= k < i ==> out@[k]@ == self@[k],
            decreases self.items.len() - i,
        {
            out.push(self.items[i].copy());
            i = i + 1;
        }
        assert(out@.map_values(|t: Todo| t@) =~= self@);
        out
    }

    /// The collection made of `entries`, as loaded from storage. Entries
    /// that already stand in identifier order are kept exactly as they are.
    pub fn from_entries(entries: Vec<Todo>) -> (r: TodoList)
        ensures
            r.wf(),
            loaded_from(entries@.map_values(|t: Todo| t@), r@),
    {
        let ghost e = entries@.map_values(|t: Todo| t@);
        let mut r = TodoList::new();
        let mut i: usize = 0;
        while i < entries.len()
            invariant
                i <= entries@.len(),
                e == entries@.map_values(|t: Todo| t@),
                r.wf(),
                ids_increasing(e) ==> r@ == e.take(i as int),
            decreases entries.len() - i,
        {
            let t = entries[i].copy();
            let ghost before = r@;
            r.insert(t);
            proof {
                if ids_increasing(e) {
                    assert(forall|j: int| 0 <= j < before.len() ==> before[j].id < e[i as int].id);
                    assert(!has_id(before, e[i as int].id));
                    let k = choose|k: int|
                        0 <= k <= before.len() && r@ == before.insert(k, e[i as int]);
                    if k < before.len() {
                        assert(r@[k] == e[i as int]);
                        assert(r@[k + 1] == before[k]);
                    }
                    assert(r@ =~= e.take(i + 1));
                }
            }
            i = i + 1;
        }
        assert(e.take(entries@.len() as int) =~= e);
        r
    }
}

/// Filtering a prefix one element longer adds that element exactly when it
/// passes the predicate.
pub proof fn lemma_filter_take_step(s: Seq<TodoView>, pred: spec_fn(TodoView) -> bool, i: int)
    requires
        0 <= i < s.len(),
    ensures
        s.take(i + 1).filter(pred) == (if pred(s[i]) {
            s.take(i).filter(pred).push(s[i])
        } else {
            s.take(i).filter(pred)
        }),
{
    reveal(Seq::filter);
    assert(s.take(i + 1).drop_last() =~= s.take(i));
}

/// Saving a collection and loading it back gives the same items, with the
/// same identifiers, titles and flags, in the same order.
pub proof fn lemma_save_load_round_trip(saved: Seq<TodoView>, reloaded: Seq<TodoView>)
    requires
        ids_increasing(saved),
        loaded_from(saved, reloaded),
    ensures
        reloaded == saved,
{
}

/// Checking or unchecking all twice leaves every item with the flag that
/// was unanimous before, or unchecked where there was none: the first call
/// makes the flags unanimous, the second turns them to the opposite.
pub proof fn lemma_check_or_uncheck_all_twice(s: Seq<TodoView>)
    ensures
        all_completed(set_all_completed(s, !all_completed(s))) == (s.len() == 0 || !all_completed(
            s,
        )),
        set_all_completed(
            set_all_completed(s, !all_completed(s)),
            !all_completed(set_all_completed(s, !all_completed(s))),
        ) == set_all_completed(s, all_completed(s)),
{
    let once = set_all_completed(s, !all_completed(s));
    if s.len() > 0 && all_completed(s) {
        assert(!once[0].completed);
    }
    let twice = set_all_completed(once, !all_completed(once));
    assert(twice =~= set_all_completed(s, all_completed(s)));
}

/// Toggling an item flips its flag exactly once: toggling the same
/// identifier twice gives back the collection as it was.
pub proof fn lemma_toggle_twice(s: Seq<TodoView>, mid: Seq<TodoView>, fin: Seq<TodoView>, id: u128)
    requires
        ids_increasing(s),
        toggled(s, mid, id),
        toggled(mid, fin, id),
    ensures
        fin == s,
{
    if has_id(s, id) {
        let i = choose|i: int| 0 <= i < s.len() && s[i].id == id;
        assert(mid[i].id == id);
        assert(fin =~= s);
    } else {
        assert(!has_id(mid, id));
    }
}

} // verus!
