use vstd::prelude::*;
use crate::errors::{bad_id_message, internal_message, not_found_message, ErrorType, GqlError};
use crate::item::{encode_task, task_to_item, Item, ItemView};
use crate::models::{created_message, success_status, TaskDetails, TaskInput, TaskRecord, TaskResponse};
use crate::services::{self, first_task, items_view, StoreFailure};
use crate::task_id::{parse_task_id, parse_task_id_spec, TaskKey};

verus! {

/// The fixed message that goes with each category.
pub open spec fn message_of(k: ErrorType) -> Seq<char> {
    match k {
        ErrorType::NotFound => not_found_message(),
        ErrorType::BadRequest => bad_id_message(),
        _ => internal_message(),
    }
}

/// An error of category `k` with its fixed message.
pub open spec fn is_error(r: GqlError, k: ErrorType) -> bool {
    r.kind_spec() == k && r.message_spec() == message_of(k)
}

/// What a store answer holds, as views: `Err` for a failed call.
pub open spec fn answer_view(a: Result<Option<Vec<Item>>, StoreFailure>) -> Result<Seq<ItemView>, ()> {
    match a {
        Ok(items) => Ok(items_view(items)),
        Err(_) => Err(()),
    }
}

/// The store key that a by-id request addresses, or the category of its
/// refusal: no store handle first, then a malformed id.
pub open spec fn key_outcome(connected: bool, task_id: Seq<char>) -> Result<(Seq<char>, Seq<char>), ErrorType> {
    if !connected {
        Err(ErrorType::InternalServerError)
    } else {
        match parse_task_id_spec(task_id) {
            Some(k) => Ok(k),
            None => Err(ErrorType::BadRequest),
        }
    }
}

/// The result of a by-id lookup given the store's answer.
pub open spec fn by_id_outcome(answer: Result<Seq<ItemView>, ()>) -> Result<TaskRecord, ErrorType> {
    match answer {
        Err(_) => Err(ErrorType::InternalServerError),
        Ok(s) => match first_task(s) {
            Ok(Some(t)) => Ok(t),
            Ok(None) => Err(ErrorType::NotFound),
            Err(_) => Err(ErrorType::InternalServerError),
        },
    }
}

/// The key request of the by-id resolvers.
fn key_request(connected: bool, task_id: &str) -> (r: Result<TaskKey, GqlError>)
    ensures
        match key_outcome(connected, task_id@) {
            Ok(k) => r is Ok && (r->Ok_0.user_uuid@, r->Ok_0.task_uuid@) == k,
            Err(kind) => r is Err && is_error(r->Err_0, kind),
        },
{
    if !connected {
        return Err(GqlError::internal());
    }
    match parse_task_id(task_id) {
        Some(k) => Ok(k),
        None => Err(GqlError::bad_id()),
    }
}

/// The store handle must be there before any store call.
fn connection(connected: bool) -> (r: Result<(), GqlError>)
    ensures
        connected <==> r is Ok,
        r is Err ==> is_error(r->Err_0, ErrorType::InternalServerError),
{
    if connected {
        Ok(())
    } else {
        Err(GqlError::internal())
    }
}

/// Resolvers that read tasks.
#[derive(Debug, Clone, Copy, Default)]
pub struct TaskQuery;

/// The query root.
#[derive(Debug, Clone, Copy, Default)]
pub struct Query(pub TaskQuery);

impl TaskQuery {
    /// Before listing all tasks: only the store handle is needed.
    pub fn get_tasks_request(&self, connected: bool) -> (r: Result<(), GqlError>)
        ensures
            connected <==> r is Ok,
            r is Err ==> is_error(r->Err_0, ErrorType::InternalServerError),
    {
        connection(connected)
    }

    /// All tasks of the table, from the store's full-table answer. A failed
    /// call or an item that does not read gives the internal error; an
    /// empty table gives an empty list.
    pub fn get_tasks(&self, answer: Result<Option<Vec<Item>>, StoreFailure>) -> (r: Result<
        Vec<TaskDetails>,
        GqlError,
    >)
        ensures
            match answer_view(answer) {
                Err(_) => r is Err && is_error(r->Err_0, ErrorType::InternalServerError),
                Ok(s) => {
                    &&& r is Ok <==> services::all_decode(s)
                    &&& r is Err ==> is_error(r->Err_0, ErrorType::InternalServerError)
                    &&& r is Ok ==> r->Ok_0@.len() == s.len() && forall|i: int|
                        0 <= i < s.len() ==> (#[trigger] r->Ok_0@[i])@
                            == crate::item::decode_item(s[i])->0
                    &&& s.len() == 0 ==> r is Ok && r->Ok_0@.len() == 0
                },
            },
    {
        match answer {
            Err(_) => Err(GqlError::internal()),
            Ok(items) => match services::get_tasks(items) {
                Ok(tasks) => Ok(tasks),
                Err(_) => Err(GqlError::internal()),
            },
        }
    }

    /// The store key of a by-id lookup, refused without a store handle or
    /// for an id without a separator.
    pub fn get_task_by_id_request(&self, connected: bool, task_id: &str) -> (r: Result<
        TaskKey,
        GqlError,
    >)
        ensures
            match key_outcome(connected, task_id@) {
                Ok(k) => r is Ok && (r->Ok_0.user_uuid@, r->Ok_0.task_uuid@) == k,
                Err(kind) => r is Err && is_error(r->Err_0, kind),
            },
    {
        key_request(connected, task_id)
    }

    /// The task of a by-id lookup, from the store's answer to the key query:
    /// no matching item is not-found, a failed call or an item that does not
    /// read is the internal error.
    pub fn get_task_by_id(&self, answer: Result<Option<Vec<Item>>, StoreFailure>) -> (r: Result<
        TaskDetails,
        GqlError,
    >)
        ensures
            match by_id_outcome(answer_view(answer)) {
                Ok(t) => r is Ok && r->Ok_0@ == t,
                Err(kind) => r is Err && is_error(r->Err_0, kind),
            },
    {
        match answer {
            Err(_) => Err(GqlError::internal()),
            Ok(items) => match services::get_task_by_id(items) {
                Ok(Some(task)) => Ok(task),
                Ok(None) => Err(GqlError::not_found()),
                Err(_) => Err(GqlError::internal()),
            },
        }
    }
}

/// Resolvers that change tasks.
#[derive(Debug, Clone, Copy, Default)]
pub struct TaskMutation;

pub open spec fn soon() -> Seq<char> {
    seq!['s', 'o', 'o', 'n']
}

impl TaskMutation {
    /// The item to write for a new task; the write overwrites any item
    /// under the same key.
    pub fn create_task_request(&self, connected: bool, task: &TaskInput) -> (r: Result<
        Item,
        GqlError,
    >)
        ensures
            connected <==> r is Ok,
            r is Ok ==> r->Ok_0@ == encode_task(task@),
            r is Err ==> is_error(r->Err_0, ErrorType::InternalServerError),
    {
        connection(connected)?;
        Ok(task_to_item(task))
    }

    /// The result of a create, from the store's answer to the write.
    pub fn create_task(&self, written: Result<(), StoreFailure>) -> (r: Result<
        TaskResponse,
        GqlError,
    >)
        ensures
            written is Ok <==> r is Ok,
            r is Ok ==> r->Ok_0.status@ == success_status() && r->Ok_0.message@
                == created_message(),
            r is Err ==> is_error(r->Err_0, ErrorType::InternalServerError),
    {
        match services::create_task_async(written) {
            Ok(response) => Ok(response),
            Err(_) => Err(GqlError::internal()),
        }
    }

    /// The store key of a delete, refused without a store handle or for an
    /// id without a separator.
    pub fn delete_task_request(&self, connected: bool, task_id: &str) -> (r: Result<
        TaskKey,
        GqlError,
    >)
        ensures
            match key_outcome(connected, task_id@) {
                Ok(k) => r is Ok && (r->Ok_0.user_uuid@, r->Ok_0.task_uuid@) == k,
                Err(kind) => r is Err && is_error(r->Err_0, kind),
            },
    {
        key_request(connected, task_id)
    }

    /// The result of a delete, from the store's answer: every answer that is
    /// not a failure is success, whether or not an item was there.
    pub fn delete_task(&self, deleted: Result<(), StoreFailure>) -> (r: Result<bool, GqlError>)
        ensures
            deleted is Ok <==> r == Ok::<bool, GqlError>(true),
            r is Err ==> is_error(r->Err_0, ErrorType::InternalServerError),
    {
        match services::delete_task_by_id(deleted) {
            Ok(done) => Ok(done),
            Err(_) => Err(GqlError::internal()),
        }
    }

    /// Updating is not implemented: with a store handle the answer is
    /// `"soon"` whatever the id, and nothing is changed.
    pub fn update_task(&self, connected: bool, id: &str) -> (r: Result<String, GqlError>)
        ensures
            connected <==> r is Ok,
            r is Ok ==> r->Ok_0@ == soon(),
            r is Err ==> is_error(r->Err_0, ErrorType::InternalServerError),
    {
        connection(connected)?;
        proof {
            reveal_strlit("soon");
        }
        let s = String::from_str("soon");
        proof {
            assert(s@ =~= soon());
        }
        Ok(s)
    }
}

/// The subscription root.
#[derive(Debug, Clone, Copy, Default)]
pub struct SubscriptionRoot;

impl SubscriptionRoot {
    /// The value of each emission of the unread-notification stream.
    pub fn get_unread_notification_count(&self) -> (r: i32)
        ensures
            r == 1,
    {
        1
    }

    /// The pause before each emission, in seconds.
    pub fn notification_interval_secs(&self) -> (r: u64)
        ensures
            r == 1,
    {
        1
    }
}

} // verus!
