use crate::todo_list::TodoListView;
use crate::todo_list_store::{StoreModel, TodoListId, TodoListStoreError};
use vstd::prelude::*;

verus! {

/// A fresh store is well formed, and every operation keeps a store well
/// formed: no live record ever carries an id that was not handed out.
pub proof fn lemma_operations_preserve_wf(m: StoreModel, id: TodoListId, list: TodoListView)
    requires
        m.wf(),
    ensures
        StoreModel::empty().wf(),
        m.create(list).0.wf(),
        m.update(id, list).0.wf(),
        m.delete(id).0.wf(),
{
}

/// A list that `create` stores is what `getone` then returns under the new id,
/// title included, whenever the id space is not yet exhausted.
pub proof fn lemma_create_then_getone(m: StoreModel, list: TodoListView)
    requires
        m.next_id < u64::MAX,
    ensures
        m.create(list).1 is Ok,
        m.create(list).0.getone(m.create(list).1->Ok_0) == Ok::<TodoListView, TodoListStoreError>(list),
        m.create(list).0.getone(m.create(list).1->Ok_0)->Ok_0.title == list.title,
{
}

/// An id that `create` returns is larger than every id returned before it, so
/// it was never returned before; and no later operation lowers the counter.
pub proof fn lemma_create_fresh_and_increasing(m: StoreModel, id: TodoListId, list: TodoListView, other: TodoListView)
    requires
        m.wf(),
    ensures
        m.create(list).1 is Ok ==> {
            let new_id = m.create(list).1->Ok_0;
            &&& new_id.0 == m.next_id
            &&& !m.lists.contains_key(new_id.0)
            &&& new_id.0 < m.create(list).0.next_id
        },
        m.create(list).0.next_id >= m.next_id,
        m.update(id, list).0.next_id == m.next_id,
        m.delete(id).0.next_id == m.next_id,
        ({
            let (m1, r1) = m.create(list);
            let (m2, r2) = m1.create(other);
            r1 is Ok && r2 is Ok ==> r1->Ok_0.0 < r2->Ok_0.0
        }),
{
}

/// `getone`, `update` and `delete` on an id that was never handed out fail
/// with `IdNotFound` and leave the store as it was.
pub proof fn lemma_unissued_id_not_found(m: StoreModel, id: TodoListId, list: TodoListView)
    requires
        m.wf(),
        id.0 >= m.next_id,
    ensures
        m.getone(id) == Err::<TodoListView, TodoListStoreError>(TodoListStoreError::IdNotFound),
        m.update(id, list) == (m, Err::<(), TodoListStoreError>(TodoListStoreError::IdNotFound)),
        m.delete(id) == (m, Err::<(), TodoListStoreError>(TodoListStoreError::IdNotFound)),
{
}

/// After a successful `delete`, `getone` and a second `delete` of the same id
/// fail with `IdNotFound`.
pub proof fn lemma_delete_then_not_found(m: StoreModel, id: TodoListId)
    requires
        m.delete(id).1 is Ok,
    ensures
        m.delete(id).0.getone(id) == Err::<TodoListView, TodoListStoreError>(TodoListStoreError::IdNotFound),
        m.delete(id).0.delete(id).1 == Err::<(), TodoListStoreError>(TodoListStoreError::IdNotFound),
{
}

/// After a successful `update`, `getone` returns exactly the new list.
pub proof fn lemma_update_then_getone(m: StoreModel, id: TodoListId, list: TodoListView)
    requires
        m.update(id, list).1 is Ok,
    ensures
        m.update(id, list).0.getone(id) == Ok::<TodoListView, TodoListStoreError>(list),
        m.update(id, list).0.getone(id)->Ok_0.title == list.title,
{
}

/// The store after `create` is called on each list of `lists` in turn, and
/// the results in order.
pub open spec fn create_all(m: StoreModel, lists: Seq<TodoListView>) -> (StoreModel, Seq<Result<TodoListId, TodoListStoreError>>)
    decreases lists.len(),
{
    if lists.len() == 0 {
        (m, Seq::empty())
    } else {
        let (m1, r) = m.create(lists[0]);
        let (m2, rs) = create_all(m1, lists.drop_first());
        (m2, seq![r] + rs)
    }
}

/// Calls of `create` that the store's lock puts in any order hand out
/// distinct, increasing ids, and lose no list: each list is stored under its
/// own id, and the records that were there before are untouched. While the
/// id space lasts, every call succeeds.
pub proof fn lemma_create_all_distinct(m: StoreModel, lists: Seq<TodoListView>)
    ensures
        ({
            let (m2, rs) = create_all(m, lists);
            &&& rs.len() == lists.len()
            &&& m2.next_id >= m.next_id
            &&& forall|i: int, j: int|
                0 <= i < j < rs.len() && #[trigger] rs[i] is Ok && #[trigger] rs[j] is Ok
                    ==> rs[i]->Ok_0.0 < rs[j]->Ok_0.0
            &&& forall|i: int|
                0 <= i < rs.len() && #[trigger] rs[i] is Ok ==> {
                    &&& m.next_id <= rs[i]->Ok_0.0 < m2.next_id
                    &&& m2.lists.contains_key(rs[i]->Ok_0.0)
                    &&& m2.lists[rs[i]->Ok_0.0] == lists[i]
                }
            &&& forall|k: u64|
                k < m.next_id ==> (#[trigger] m2.lists.contains_key(k) == m.lists.contains_key(k)
                    && m2.lists[k] == m.lists[k])
            &&& m.next_id + lists.len() <= u64::MAX ==> forall|i: int| 0 <= i < rs.len() ==> #[trigger] rs[i] is Ok
        }),
    decreases lists.len(),
{
    if lists.len() > 0 {
        let (m1, r) = m.create(lists[0]);
        lemma_create_all_distinct(m1, lists.drop_first());
        let (m2, rs1) = create_all(m1, lists.drop_first());
        let rs = seq![r] + rs1;
        assert(create_all(m, lists) == (m2, rs));
        assert forall|i: int| 0 < i < rs.len() implies rs[i] == rs1[i - 1] by {}
        assert forall|i: int| 0 < i < rs.len() implies lists[i] == lists.drop_first()[i - 1] by {}
    }
}

} // verus!
