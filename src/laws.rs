use vstd::prelude::*;
use crate::errors::ErrorType;
use crate::graph::{by_id_outcome, key_outcome};
use crate::item::{
    decode_item, encode_task, key_description, key_name, key_pk, key_sk, key_source_file, key_type,
    lookup, string_at, Item,
};
use crate::models::{TaskInput, TaskRecord};
use crate::services::items_view;
use crate::task_id::{composite_id, lemma_parse_composite_id, lemma_single_token_refused, no_sep};

verus! {

/// The item written for a task reads back as that same task.
pub proof fn lemma_decode_encode(r: TaskRecord)
    ensures
        decode_item(encode_task(r)) == Some(r),
        string_at(encode_task(r), key_pk()) == Some(r.user_uuid),
        string_at(encode_task(r), key_sk()) == Some(r.task_uuid),
{
    let v = encode_task(r);
    assert(key_pk()[0] != key_sk()[0]);
    assert(key_pk()[0] != key_name()[0]);
    assert(key_pk()[0] != key_description()[0]);
    assert(key_pk()[0] != key_type()[0]);
    assert(key_pk()[0] != key_source_file()[0]);
    assert(key_sk()[0] != key_name()[0]);
    assert(key_sk()[0] != key_description()[0]);
    assert(key_sk()[0] != key_type()[0]);
    assert(key_sk().len() != key_source_file().len());
    assert(key_name()[0] != key_description()[0]);
    assert(key_name()[0] != key_type()[0]);
    assert(key_name()[0] != key_source_file()[0]);
    assert(key_description()[0] != key_type()[0]);
    assert(key_description()[0] != key_source_file()[0]);
    assert(key_type()[0] != key_source_file()[0]);
    reveal_with_fuel(lookup, 7);
    assert(lookup(v, key_pk()) == Some(Some(r.user_uuid)));
    assert(lookup(v, key_sk()) == Some(Some(r.task_uuid)));
    assert(lookup(v, key_name()) == Some(Some(r.task_name)));
    assert(lookup(v, key_description()) == Some(Some(r.task_description)));
    assert(lookup(v, key_type()) == Some(Some(r.task_type)));
    assert(lookup(v, key_source_file()) == Some(Some(r.source_file)));
}

/// Creating a task and then looking it up by `"{user_uuid}_{task_uuid}"`
/// gives back the six fields that were written: the lookup addresses the
/// key the create wrote, and the item stored there reads as the input.
/// Ids that hold the separator themselves do not survive the round trip.
pub proof fn lemma_create_then_get(task: TaskInput)
    requires
        no_sep(task.user_uuid@),
        no_sep(task.task_uuid@),
    ensures
        key_outcome(true, composite_id(task.user_uuid@, task.task_uuid@)) == Ok::<
            (Seq<char>, Seq<char>),
            ErrorType,
        >(
            (
                string_at(encode_task(task@), key_pk())->0,
                string_at(encode_task(task@), key_sk())->0,
            ),
        ),
        by_id_outcome(Ok(seq![encode_task(task@)])) == Ok::<TaskRecord, ErrorType>(task@),
{
    lemma_parse_composite_id(task.user_uuid@, task.task_uuid@);
    lemma_decode_encode(task@);
}

/// A lookup whose key matches no stored item is not-found, never the
/// internal error.
pub proof fn lemma_no_match_not_found(items: Option<Vec<Item>>)
    requires
        items_view(items).len() == 0,
    ensures
        by_id_outcome(Ok(items_view(items))) == Err::<TaskRecord, ErrorType>(ErrorType::NotFound),
{
}

/// An id that holds no separator has a single token: the lookup is refused
/// before any store call, as a bad request when the store handle is there.
pub proof fn lemma_single_token_id_refused(connected: bool, task_id: Seq<char>)
    requires
        no_sep(task_id),
    ensures
        key_outcome(connected, task_id) is Err,
        connected ==> key_outcome(connected, task_id) == Err::<(Seq<char>, Seq<char>), ErrorType>(
            ErrorType::BadRequest,
        ),
{
    lemma_single_token_refused(task_id);
}

} // verus!
