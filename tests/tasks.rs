use task_api::errors::{get_gql_error, Error, ErrorType, GqlError};
use task_api::graph::{Query, SubscriptionRoot, TaskMutation, TaskQuery};
use task_api::item::{item_to_task, item_value, required_item_value, task_to_item, AttrValue, Item, MappingError};
use task_api::models::{TaskDetails, TaskInput, TaskResponse};
use task_api::services::{self, StoreFailure};
use task_api::task_id::parse_task_id;

fn input(user: &str, task: &str) -> TaskInput {
    TaskInput {
        user_uuid: user.to_string(),
        task_uuid: task.to_string(),
        task_name: "write report".to_string(),
        task_type: "work".to_string(),
        task_description: "quarterly numbers".to_string(),
        source_file: "report.xlsx".to_string(),
    }
}

fn s(key: &str, value: &str) -> (String, AttrValue) {
    (key.to_string(), AttrValue::S(value.to_string()))
}

fn full_item() -> Item {
    Item {
        attrs: vec![
            s("pK", "u1"),
            s("sK", "t1"),
            s("name", "n"),
            s("description", "d"),
            s("type", "ty"),
            s("source_file", "f"),
        ],
    }
}

fn same_fields(d: &TaskDetails, i: &TaskInput) -> bool {
    d.user_uuid == i.user_uuid
        && d.task_uuid == i.task_uuid
        && d.task_name == i.task_name
        && d.task_type == i.task_type
        && d.task_description == i.task_description
        && d.source_file == i.source_file
}

#[test]
fn create_then_get_returns_same_fields() {
    let m = TaskMutation;
    let q = TaskQuery;
    let inp = input("user42", "task7");
    let item = m.create_task_request(true, &inp).unwrap();
    let resp = m.create_task(Ok(())).unwrap();
    assert_eq!(resp.status, "success");
    assert_eq!(resp.message, "Task created successfully.");
    let key = q.get_task_by_id_request(true, "user42_task7").unwrap();
    assert_eq!(key.user_uuid, "user42");
    assert_eq!(key.task_uuid, "task7");
    let details = q.get_task_by_id(Ok(Some(vec![item]))).unwrap();
    assert!(same_fields(&details, &inp));
}

#[test]
fn task_to_item_writes_six_string_attributes() {
    let inp = input("u", "t");
    let item = task_to_item(&inp);
    assert_eq!(item.attrs.len(), 6);
    assert_eq!(item.attrs[0].0, "pK");
    assert!(matches!(&item.attrs[0].1, AttrValue::S(v) if v == "u"));
    assert_eq!(item.attrs[1].0, "sK");
    assert_eq!(item.attrs[2].0, "name");
    assert!(matches!(&item.attrs[2].1, AttrValue::S(v) if v == "write report"));
    assert_eq!(item.attrs[3].0, "description");
    assert_eq!(item.attrs[4].0, "type");
    assert!(matches!(&item.attrs[4].1, AttrValue::S(v) if v == "work"));
    assert_eq!(item.attrs[5].0, "source_file");
}

#[test]
fn get_by_id_with_no_match_is_not_found() {
    let q = TaskQuery;
    let e = q.get_task_by_id(Ok(Some(vec![]))).unwrap_err();
    assert_eq!(e.error_type(), ErrorType::NotFound);
    assert_eq!(e.code(), "404");
    assert_eq!(e.message(), "Not found");
    let e = q.get_task_by_id(Ok(None)).unwrap_err();
    assert_eq!(e.error_type(), ErrorType::NotFound);
}

#[test]
fn get_by_id_store_failure_is_internal() {
    let q = TaskQuery;
    let e = q.get_task_by_id(Err(StoreFailure)).unwrap_err();
    assert_eq!(e.error_type(), ErrorType::InternalServerError);
    assert_eq!(e.code(), "500");
    assert_eq!(e.message(), "Internal server error");
}

#[test]
fn get_by_id_bad_item_is_internal() {
    let q = TaskQuery;
    let mut item = full_item();
    item.attrs.remove(3);
    let e = q.get_task_by_id(Ok(Some(vec![item]))).unwrap_err();
    assert_eq!(e.error_type(), ErrorType::InternalServerError);
}

#[test]
fn single_token_id_is_bad_request() {
    let q = TaskQuery;
    let e = q.get_task_by_id_request(true, "justone").unwrap_err();
    assert_eq!(e.error_type(), ErrorType::BadRequest);
    assert_eq!(e.code(), "400");
    let e = q.get_task_by_id_request(true, "").unwrap_err();
    assert_eq!(e.error_type(), ErrorType::BadRequest);
    let m = TaskMutation;
    let e = m.delete_task_request(true, "nounderscore").unwrap_err();
    assert_eq!(e.error_type(), ErrorType::BadRequest);
}

#[test]
fn missing_connection_is_internal_before_parsing() {
    let q = TaskQuery;
    let e = q.get_task_by_id_request(false, "justone").unwrap_err();
    assert_eq!(e.error_type(), ErrorType::InternalServerError);
    assert!(q.get_tasks_request(false).is_err());
    assert!(q.get_tasks_request(true).is_ok());
    let m = TaskMutation;
    let e = m.create_task_request(false, &input("a", "b")).unwrap_err();
    assert_eq!(e.error_type(), ErrorType::InternalServerError);
    assert!(m.update_task(false, "a_b").is_err());
}

#[test]
fn parse_takes_first_two_tokens() {
    let k = parse_task_id("a_b_c").unwrap();
    assert_eq!(k.user_uuid, "a");
    assert_eq!(k.task_uuid, "b");
    let k = parse_task_id("_x").unwrap();
    assert_eq!(k.user_uuid, "");
    assert_eq!(k.task_uuid, "x");
    let k = parse_task_id("ü1_ß2").unwrap();
    assert_eq!(k.user_uuid, "ü1");
    assert_eq!(k.task_uuid, "ß2");
    assert!(parse_task_id("abc").is_none());
}

#[test]
fn delete_of_missing_item_is_true() {
    let m = TaskMutation;
    let key = m.delete_task_request(true, "nobody_nothing").unwrap();
    assert_eq!(key.user_uuid, "nobody");
    assert!(matches!(m.delete_task(Ok(())), Ok(true)));
    let e = m.delete_task(Err(StoreFailure)).unwrap_err();
    assert_eq!(e.error_type(), ErrorType::InternalServerError);
}

#[test]
fn get_tasks_on_empty_table_is_empty() {
    let q = TaskQuery;
    assert_eq!(q.get_tasks(Ok(None)).unwrap().len(), 0);
    assert_eq!(q.get_tasks(Ok(Some(vec![]))).unwrap().len(), 0);
    assert_eq!(services::get_tasks(None).unwrap().len(), 0);
}

#[test]
fn get_tasks_reads_every_item() {
    let q = TaskQuery;
    let mut second = full_item();
    second.attrs[1] = s("sK", "t2");
    let tasks = q.get_tasks(Ok(Some(vec![full_item(), second]))).unwrap();
    assert_eq!(tasks.len(), 2);
    assert_eq!(tasks[0].task_uuid, "t1");
    assert_eq!(tasks[1].task_uuid, "t2");
    assert_eq!(tasks[1].task_type, "ty");
}

#[test]
fn get_tasks_fails_whole_on_one_bad_item() {
    let q = TaskQuery;
    let mut bad = full_item();
    bad.attrs[5] = ("source_file".to_string(), AttrValue::Other);
    let e = q.get_tasks(Ok(Some(vec![full_item(), bad]))).unwrap_err();
    assert_eq!(e.error_type(), ErrorType::InternalServerError);
    assert!(q.get_tasks(Err(StoreFailure)).is_err());
}

#[test]
fn update_task_is_soon_for_any_id() {
    let m = TaskMutation;
    assert_eq!(m.update_task(true, "a_b").unwrap(), "soon");
    assert_eq!(m.update_task(true, "").unwrap(), "soon");
    assert_eq!(m.update_task(true, "no-separator").unwrap(), "soon");
}

#[test]
fn create_failure_is_internal() {
    let m = TaskMutation;
    let e = m.create_task(Err(StoreFailure)).unwrap_err();
    assert_eq!(e.error_type(), ErrorType::InternalServerError);
}

#[test]
fn notification_stream_emits_one_every_second() {
    let sub = SubscriptionRoot;
    assert_eq!(sub.get_unread_notification_count(), 1);
    assert_eq!(sub.notification_interval_secs(), 1);
    // Over three seconds at one emission per second, three values come out.
    let emitted = 3 / sub.notification_interval_secs();
    assert!(emitted >= 2 && emitted <= 4);
}

#[test]
fn item_value_distinguishes_absent_and_non_string() {
    let mut item = full_item();
    item.attrs.push(("count".to_string(), AttrValue::Other));
    assert_eq!(item_value("name", &item).unwrap(), Some("n".to_string()));
    assert_eq!(item_value("missing", &item).unwrap(), None);
    assert!(matches!(item_value("count", &item), Err(MappingError::NotAString)));
    assert!(matches!(required_item_value("missing", &item), Err(MappingError::Missing)));
    assert_eq!(required_item_value("pK", &item).unwrap(), "u1");
}

#[test]
fn first_occurrence_of_a_name_wins() {
    let mut item = full_item();
    item.attrs.push(s("name", "later"));
    assert_eq!(item_to_task(&item).unwrap().task_name, "n");
}

#[test]
fn item_to_task_maps_each_attribute() {
    let d = item_to_task(&full_item()).unwrap();
    assert_eq!(d.user_uuid, "u1");
    assert_eq!(d.task_uuid, "t1");
    assert_eq!(d.task_name, "n");
    assert_eq!(d.task_description, "d");
    assert_eq!(d.task_type, "ty");
    assert_eq!(d.source_file, "f");
}

#[test]
fn gql_error_by_status() {
    let mk = |status: u16| Error {
        title: "why".to_string(),
        status,
        error_type: ErrorType::BadRequest,
    };
    let e = get_gql_error(mk(403));
    assert!(matches!(&e, GqlError::Unauthorized(m) if m == "why"));
    assert_eq!(e.code(), "403");
    assert!(matches!(get_gql_error(mk(400)), GqlError::BadRequest(m) if m == "why"));
    assert!(matches!(get_gql_error(mk(404)), GqlError::NotFound(m) if m == "why"));
    let e = get_gql_error(mk(418));
    assert!(matches!(&e, GqlError::InternalServerError(m) if m == "Internal server error"));
    assert_eq!(e.error_type(), ErrorType::InternalServerError);
}

#[test]
fn error_type_names_and_statuses() {
    assert_eq!(ErrorType::Unauthorized.to_string(), "Unauthorized");
    assert_eq!(ErrorType::BadRequest.name(), "BadRequest");
    assert_eq!(ErrorType::NotFound.name(), "NotFound");
    assert_eq!(ErrorType::InternalServerError.name(), "InternalServerError");
    assert_eq!(ErrorType::Unauthorized.status(), 403);
    assert_eq!(ErrorType::NotFound.status(), 404);
    assert!(ErrorType::NotFound == ErrorType::NotFound);
    assert!(ErrorType::NotFound != ErrorType::BadRequest);
}

#[test]
fn response_and_roots_construct() {
    let r = TaskResponse::created();
    assert_eq!(r.status, "success");
    let _q = Query::default();
}

#[test]
fn service_outcomes() {
    let r = services::create_task_async(Ok(())).unwrap();
    assert_eq!(r.message, "Task created successfully.");
    assert!(services::create_task_async(Err(StoreFailure)).is_err());
    assert!(matches!(services::delete_task_by_id(Ok(())), Ok(true)));
    assert!(services::delete_task_by_id(Err(StoreFailure)).is_err());
    let found = services::get_task_by_id(Some(vec![full_item()])).unwrap().unwrap();
    assert_eq!(found.source_file, "f");
    assert!(services::get_task_by_id(Some(vec![])).unwrap().is_none());
}
