use vstd::prelude::*;

verus! {

/// One entry of a to-do list.
#[derive(Clone, Debug, Hash)]
pub struct TodoEntry {
    pub done: bool,
    pub text: String,
}

/// A titled, ordered sequence of entries.
#[derive(Clone, Debug, Hash)]
pub struct TodoList {
    pub title: String,
    pub entries: Vec<TodoEntry>,
}

/// The mathematical value of a `TodoEntry`.
pub ghost struct TodoEntryView {
    pub done: bool,
    pub text: Seq<char>,
}

/// The mathematical value of a `TodoList`.
pub ghost struct TodoListView {
    pub title: Seq<char>,
    pub entries: Seq<TodoEntryView>,
}

impl View for TodoEntry {
    type V = TodoEntryView;

    open spec fn view(&self) -> TodoEntryView {
        TodoEntryView { done: self.done, text: self.text@ }
    }
}

impl View for TodoList {
    type V = TodoListView;

    open spec fn view(&self) -> TodoListView {
        TodoListView { title: self.title@, entries: self.entries@.map_values(|e: TodoEntry| e@) }
    }
}

impl TodoEntry {
    /// An independent copy of this entry.
    pub fn copy(&self) -> (r: TodoEntry)
        ensures
            r@ == self@,
    {
        TodoEntry { done: self.done, text: self.text.clone() }
    }
}

impl TodoList {
    /// A list with the given title and no entries.
    pub fn titled(title: String) -> (r: TodoList)
        ensures
            r@.title == title@,
            r@.entries == Seq::<TodoEntryView>::empty(),
    {
        let r = TodoList { title, entries: Vec::new() };
        assert(r@.entries =~= Seq::<TodoEntryView>::empty());
        r
    }

    /// An independent copy of this list: the same title and the same entries,
    /// in the same order.
    pub fn copy(&self) -> (r: TodoList)
        ensures
            r@ == self@,
    {
        let mut entries: Vec<TodoEntry> = Vec::new();
        let n: usize = self.entries.len();
        let mut i: usize = 0;
        while i < n
            invariant
                n == self.entries@.len(),
                i <= n,
                entries@.len() == i,
                forall|j: int| 0 <= j < i ==> #[trigger] entries@[j]@ == self.entries@[j]@,
            decreases n - i,
        {
            entries.push(self.entries[i].copy());
            i = i + 1;
        }
        let r = TodoList { title: self.title.clone(), entries };
        assert(r@.entries =~= self@.entries);
        r
    }
}

} // verus!
