use vstd::prelude::*;
use crate::item::{decode_item, item_to_task, Item, ItemView, MappingError};
use crate::models::{created_message, success_status, TaskDetails, TaskRecord, TaskResponse};

verus! {

/// A store call that did not succeed; the cause is logged, never shown.
#[derive(Debug, Clone, Copy)]
pub struct StoreFailure;

/// The result of a create, from the store's answer to the write of the
/// task's item: the fixed success payload, or the failure passed on.
pub fn create_task_async(written: Result<(), StoreFailure>) -> (r: Result<TaskResponse, StoreFailure>)
    ensures
        written is Ok <==> r is Ok,
        r is Ok ==> r->Ok_0.status@ == success_status() && r->Ok_0.message@ == created_message(),
{
    match written {
        Ok(()) => Ok(TaskResponse::created()),
        Err(e) => Err(e),
    }
}

/// The result of a delete, from the store's answer: any answer that is not
/// a failure is success, whether or not an item was there.
pub fn delete_task_by_id(deleted: Result<(), StoreFailure>) -> (r: Result<bool, StoreFailure>)
    ensures
        deleted is Ok <==> r == Ok::<bool, StoreFailure>(true),
        deleted is Err ==> r is Err,
{
    match deleted {
        Ok(()) => Ok(true),
        Err(e) => Err(e),
    }
}

/// The items of a store answer, as views; an absent list is empty.
pub open spec fn items_view(items: Option<Vec<Item>>) -> Seq<ItemView> {
    match items {
        Some(v) => v@.map_values(|i: Item| i@),
        None => Seq::empty(),
    }
}

/// Every item reads as a task.
pub open spec fn all_decode(s: Seq<ItemView>) -> bool {
    forall|i: int| 0 <= i < s.len() ==> (#[trigger] decode_item(s[i])) is Some
}

/// Reads every item of a full-table answer as a task. An absent list is
/// an empty table. One item that does not read fails the whole call.
pub fn get_tasks(items: Option<Vec<Item>>) -> (r: Result<Vec<TaskDetails>, MappingError>)
    ensures
        r is Ok <==> all_decode(items_view(items)),
        r is Ok ==> r->Ok_0@.len() == items_view(items).len() && forall|i: int|
            0 <= i < r->Ok_0@.len() ==> (#[trigger] r->Ok_0@[i])@ == decode_item(
                items_view(items)[i],
            )->0,
{
    let ghost s = items_view(items);
    match &items {
        None => Ok(Vec::new()),
        Some(v) => {
            let mut tasks: Vec<TaskDetails> = Vec::new();
            let n = v.len();
            let mut i: usize = 0;
            while i < n
                invariant
                    n == v@.len(),
                    s == items_view(items),
                    items == Some(*v),
                    i <= n,
                    tasks@.len() == i,
                    forall|k: int| 0 <= k < i ==> (#[trigger] decode_item(s[k])) is Some,
                    forall|k: int| 0 <= k < i ==> (#[trigger] tasks@[k])@ == decode_item(s[k])->0,
                decreases n - i,
            {
                match item_to_task(&v[i]) {
                    Ok(task) => tasks.push(task),
                    Err(e) => {
                        assert(decode_item(s[i as int]) is None);
                        assert(!all_decode(s));
                        return Err(e);
                    },
                }
                i = i + 1;
            }
            Ok(tasks)
        },
    }
}

/// The task a by-key answer holds: `None` when no item matched,
/// the first item read as a task otherwise.
pub open spec fn first_task(s: Seq<ItemView>) -> Result<Option<TaskRecord>, ()> {
    if s.len() == 0 {
        Ok(None)
    } else {
        match decode_item(s[0]) {
            Some(t) => Ok(Some(t)),
            None => Err(()),
        }
    }
}

/// Reads the answer of a by-key query: the first matching item as a task,
/// or `None` when nothing matched.
pub fn get_task_by_id(items: Option<Vec<Item>>) -> (r: Result<Option<TaskDetails>, MappingError>)
    ensures
        first_task(items_view(items)) is Err <==> r is Err,
        first_task(items_view(items)) == Ok::<Option<TaskRecord>, ()>(None) <==> r == Ok::<
            Option<TaskDetails>,
            MappingError,
        >(None),
        r is Ok && r->Ok_0 is Some ==> first_task(items_view(items)) == Ok::<
            Option<TaskRecord>,
            (),
        >(Some(r->Ok_0->0@)),
{
    match items {
        None => Ok(None),
        Some(items) => {
            if items.len() == 0 {
                Ok(None)
            } else {
                match item_to_task(&items[0]) {
                    Ok(task) => Ok(Some(task)),
                    Err(e) => Err(e),
                }
            }
        },
    }
}

} // verus!
