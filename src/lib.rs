//! An in-memory store of to-do lists with checked id allocation.
//!
//! The store hands out ids in strictly increasing order from 0, keeps exactly
//! the lists that were created and not yet deleted, and reports a missing id as
//! `IdNotFound` and an exhausted id space as `Other`.

pub mod todo_list;
pub mod todo_list_store;
pub mod store_lemmas;

pub use todo_list::{TodoEntry, TodoList};
pub use todo_list_store::{InMemoryStore, TodoListId, TodoListStore, TodoListStoreError};
