use crate::todo_list::{TodoList, TodoListView};
use std::collections::HashMap;
use vstd::prelude::*;

verus! {

broadcast use vstd::std_specs::hash::group_hash_axioms;

/// An id used to reference a `TodoList` in a `TodoListStore`.
#[derive(Clone, Copy, Debug, PartialEq, Eq, Structural, Hash, PartialOrd, Ord)]
pub struct TodoListId(pub u64);

/// Why a store operation failed.
#[derive(Clone, Copy, Debug, PartialEq, Eq, Structural, Hash, PartialOrd, Ord)]
pub enum TodoListStoreError {
    /// The id does not reference a live record.
    IdNotFound,
    /// A limit of the store was reached: every id has been handed out.
    Other,
}

/// The abstract state of a store: the live records, and the id that the next
/// successful `create` hands out.
pub ghost struct StoreModel {
    pub lists: Map<u64, TodoListView>,
    pub next_id: u64,
}

impl StoreModel {
    /// The state of a fresh store.
    pub open spec fn empty() -> StoreModel {
        StoreModel { lists: Map::empty(), next_id: 0 }
    }

    /// Every live record carries an id that has already been handed out.
    pub open spec fn wf(self) -> bool {
        forall|k: u64| #[trigger] self.lists.contains_key(k) ==> k < self.next_id
    }

    /// `create`: the counter's value becomes the new record's id, unless it is
    /// the largest id, which is never handed out.
    pub open spec fn create(self, list: TodoListView) -> (StoreModel, Result<TodoListId, TodoListStoreError>) {
        if self.next_id == u64::MAX {
            (self, Err(TodoListStoreError::Other))
        } else {
            (
                StoreModel {
                    lists: self.lists.insert(self.next_id, list),
                    next_id: (self.next_id + 1) as u64,
                },
                Ok(TodoListId(self.next_id)),
            )
        }
    }

    /// `getone`: the record at `id`, if it is live.
    pub open spec fn getone(self, id: TodoListId) -> Result<TodoListView, TodoListStoreError> {
        if self.lists.contains_key(id.0) {
            Ok(self.lists[id.0])
        } else {
            Err(TodoListStoreError::IdNotFound)
        }
    }

    /// `update`: the live record at `id` is replaced whole; a missing one is
    /// not created.
    pub open spec fn update(self, id: TodoListId, list: TodoListView) -> (StoreModel, Result<(), TodoListStoreError>) {
        if self.lists.contains_key(id.0) {
            (StoreModel { lists: self.lists.insert(id.0, list), next_id: self.next_id }, Ok(()))
        } else {
            (self, Err(TodoListStoreError::IdNotFound))
        }
    }

    /// `delete`: the live record at `id` is removed.
    pub open spec fn delete(self, id: TodoListId) -> (StoreModel, Result<(), TodoListStoreError>) {
        if self.lists.contains_key(id.0) {
            (StoreModel { lists: self.lists.remove(id.0), next_id: self.next_id }, Ok(()))
        } else {
            (self, Err(TodoListStoreError::IdNotFound))
        }
    }
}

/// Represents an abstract datastore for `TodoList`s. Implementations of this
/// are used for long-term storage of lists; each operation acts on its
/// `model` as the `StoreModel` operation of the same name does.
pub trait TodoListStore {
    /// The abstract state of this store.
    spec fn model(&self) -> StoreModel;

    fn create(&mut self, todo_list: &TodoList) -> (r: Result<TodoListId, TodoListStoreError>)
        ensures
            (final(self).model(), r) == old(self).model().create(todo_list@),
    ;

    fn getone(&self, id: TodoListId) -> (r: Result<TodoList, TodoListStoreError>)
        ensures
            match r {
                Ok(l) => self.model().getone(id) == Ok::<TodoListView, TodoListStoreError>(l@),
                Err(e) => self.model().getone(id) == Err::<TodoListView, TodoListStoreError>(e),
            },
    ;

    fn update(&mut self, id: TodoListId, todo_list: &TodoList) -> (r: Result<(), TodoListStoreError>)
        ensures
            (final(self).model(), r) == old(self).model().update(id, todo_list@),
    ;

    fn delete(&mut self, id: TodoListId) -> (r: Result<(), TodoListStoreError>)
        ensures
            (final(self).model(), r) == old(self).model().delete(id),
    ;
}

/// A simple in-memory `TodoListStore` implemented using a `HashMap`.
pub struct InMemoryStore {
    cur_id: TodoListId,
    list_map: HashMap<u64, TodoList>,
}

impl InMemoryStore {
    /// The live records, each as its mathematical value.
    pub closed spec fn lists_view(&self) -> Map<u64, TodoListView> {
        self.list_map@.map_values(|l: TodoList| l@)
    }

    /// An empty store whose first id is 0.
    pub fn new() -> (r: InMemoryStore)
        ensures
            r.model() == StoreModel::empty(),
    {
        let r = InMemoryStore { cur_id: TodoListId(0), list_map: HashMap::new() };
        assert(r.lists_view() =~= Map::<u64, TodoListView>::empty());
        r
    }

    /// An empty store whose first id is `first_id`: the ids below it count as
    /// handed out already.
    pub fn starting_at(first_id: TodoListId) -> (r: InMemoryStore)
        ensures
            r.model() == (StoreModel { lists: Map::empty(), next_id: first_id.0 }),
            r.model().wf(),
    {
        let r = InMemoryStore { cur_id: first_id, list_map: HashMap::new() };
        assert(r.lists_view() =~= Map::<u64, TodoListView>::empty());
        r
    }
}

impl TodoListStore for InMemoryStore {
    closed spec fn model(&self) -> StoreModel {
        StoreModel { lists: self.lists_view(), next_id: self.cur_id.0 }
    }

    fn create(&mut self, todo_list: &TodoList) -> (r: Result<TodoListId, TodoListStoreError>) {
        let id = self.cur_id;
        if id.0 == u64::MAX {
            return Err(TodoListStoreError::Other);
        }
        self.cur_id = TodoListId(id.0 + 1);
        self.list_map.insert(id.0, todo_list.copy());
        assert(self.lists_view() =~= old(self).lists_view().insert(id.0, todo_list@));
        Ok(id)
    }

    fn getone(&self, id: TodoListId) -> (r: Result<TodoList, TodoListStoreError>) {
        match self.list_map.get(&id.0) {
            Some(l) => Ok(l.copy()),
            None => Err(TodoListStoreError::IdNotFound),
        }
    }

    fn update(&mut self, id: TodoListId, todo_list: &TodoList) -> (r: Result<(), TodoListStoreError>) {
        if self.list_map.contains_key(&id.0) {
            self.list_map.insert(id.0, todo_list.copy());
            assert(self.lists_view() =~= old(self).lists_view().insert(id.0, todo_list@));
            Ok(())
        } else {
            Err(TodoListStoreError::IdNotFound)
        }
    }

    fn delete(&mut self, id: TodoListId) -> (r: Result<(), TodoListStoreError>) {
        match self.list_map.remove(&id.0) {
            Some(_) => {
                assert(self.lists_view() =~= old(self).lists_view().remove(id.0));
                Ok(())
            },
            None => {
                assert(self.lists_view() =~= old(self).lists_view());
                Err(TodoListStoreError::IdNotFound)
            },
        }
    }
}

} // verus!
