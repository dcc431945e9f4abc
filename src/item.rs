use vstd::prelude::*;
use crate::models::{TaskDetails, TaskInput, TaskRecord};

verus! {

/// A stored attribute value: a string, or a value of any other kind.
#[derive(Debug, Clone)]
pub enum AttrValue {
    S(String),
    Other,
}

impl View for AttrValue {
    /// `Some` of the text for a string, `None` for any other kind.
    type V = Option<Seq<char>>;

    open spec fn view(&self) -> Option<Seq<char>> {
        match self {
            AttrValue::S(s) => Some(s@),
            AttrValue::Other => None,
        }
    }
}

/// The attributes of a stored item, as name and value.
pub type ItemView = Seq<(Seq<char>, Option<Seq<char>>)>;

/// A stored item: its attributes in the order the store handed them out.
/// Names are looked up by their first occurrence.
#[derive(Debug, Clone)]
pub struct Item {
    pub attrs: Vec<(String, AttrValue)>,
}

impl View for Item {
    type V = ItemView;

    open spec fn view(&self) -> ItemView {
        self.attrs@.map_values(|p: (String, AttrValue)| (p.0@, p.1@))
    }
}

/// The value stored under `key`: `None` when the item has no such attribute.
pub open spec fn lookup(v: ItemView, key: Seq<char>) -> Option<Option<Seq<char>>>
    decreases v.len(),
{
    if v.len() == 0 {
        None
    } else if v[0].0 == key {
        Some(v[0].1)
    } else {
        lookup(v.drop_first(), key)
    }
}

pub open spec fn key_pk() -> Seq<char> {
    seq!['p', 'K']
}

pub open spec fn key_sk() -> Seq<char> {
    seq!['s', 'K']
}

pub open spec fn key_name() -> Seq<char> {
    seq!['n', 'a', 'm', 'e']
}

pub open spec fn key_description() -> Seq<char> {
    seq!['d', 'e', 's', 'c', 'r', 'i', 'p', 't', 'i', 'o', 'n']
}

pub open spec fn key_type() -> Seq<char> {
    seq!['t', 'y', 'p', 'e']
}

pub open spec fn key_source_file() -> Seq<char> {
    seq!['s', 'o', 'u', 'r', 'c', 'e', '_', 'f', 'i', 'l', 'e']
}

/// The text stored under `key`, when it is there and is a string.
pub open spec fn string_at(v: ItemView, key: Seq<char>) -> Option<Seq<char>> {
    match lookup(v, key) {
        Some(Some(s)) => Some(s),
        _ => None,
    }
}

/// The task an item holds: all six attributes must be present strings.
pub open spec fn decode_item(v: ItemView) -> Option<TaskRecord> {
    if string_at(v, key_pk()) is Some && string_at(v, key_sk()) is Some
        && string_at(v, key_name()) is Some && string_at(v, key_description()) is Some
        && string_at(v, key_type()) is Some && string_at(v, key_source_file()) is Some {
        Some(
            TaskRecord {
                user_uuid: string_at(v, key_pk())->0,
                task_uuid: string_at(v, key_sk())->0,
                task_name: string_at(v, key_name())->0,
                task_type: string_at(v, key_type())->0,
                task_description: string_at(v, key_description())->0,
                source_file: string_at(v, key_source_file())->0,
            },
        )
    } else {
        None
    }
}

/// The item that stores a task: each field becomes a string attribute.
pub open spec fn encode_task(r: TaskRecord) -> ItemView {
    seq![
        (key_pk(), Some(r.user_uuid)),
        (key_sk(), Some(r.task_uuid)),
        (key_name(), Some(r.task_name)),
        (key_description(), Some(r.task_description)),
        (key_type(), Some(r.task_type)),
        (key_source_file(), Some(r.source_file)),
    ]
}

/// Why an item could not be read as a task.
#[derive(Debug, Clone, Copy)]
pub enum MappingError {
    /// A required attribute is absent.
    Missing,
    /// An attribute holds a value that is not a string.
    NotAString,
}

/// Looks up `key`: `Ok(None)` when the item has no such attribute,
/// `Ok(Some(text))` for a string, an error for a value of another kind.
pub fn item_value(key: &str, item: &Item) -> (r: Result<Option<String>, MappingError>)
    ensures
        match lookup(item@, key@) {
            None => r == Ok::<Option<String>, MappingError>(None),
            Some(None) => r == Err::<Option<String>, MappingError>(MappingError::NotAString),
            Some(Some(s)) => r is Ok && r->Ok_0 is Some && r->Ok_0->0@ == s,
        },
{
    let k = String::from_str(key);
    let n = item.attrs.len();
    let mut i: usize = 0;
    assert(item@.subrange(0, n as int) =~= item@);
    while i < n
        invariant
            n == item.attrs@.len(),
            i <= n,
            k@ == key@,
            lookup(item@, key@) == lookup(item@.subrange(i as int, n as int), key@),
        decreases n - i,
    {
        let ghost rest = item@.subrange(i as int, n as int);
        assert(rest.drop_first() =~= item@.subrange(i + 1, n as int));
        if item.attrs[i].0 == k {
            return match &item.attrs[i].1 {
                AttrValue::S(s) => Ok(Some(s.clone())),
                AttrValue::Other => Err(MappingError::NotAString),
            };
        }
        i = i + 1;
    }
    assert(item@.subrange(n as int, n as int).len() == 0);
    Ok(None)
}

/// The text stored under `key`; an absent attribute is an error too.
pub fn required_item_value(key: &str, item: &Item) -> (r: Result<String, MappingError>)
    ensures
        match lookup(item@, key@) {
            None => r == Err::<String, MappingError>(MappingError::Missing),
            Some(None) => r == Err::<String, MappingError>(MappingError::NotAString),
            Some(Some(s)) => r is Ok && r->Ok_0@ == s,
        },
{
    match item_value(key, item) {
        Ok(Some(value)) => Ok(value),
        Ok(None) => Err(MappingError::Missing),
        Err(e) => Err(e),
    }
}

/// Reads an item as a task; fails as a whole when any of the six attributes
/// is missing or not a string.
pub fn item_to_task(item: &Item) -> (r: Result<TaskDetails, MappingError>)
    ensures
        r is Ok <==> decode_item(item@) is Some,
        r is Ok ==> r->Ok_0@ == decode_item(item@)->0,
{
    proof {
        reveal_strlit("pK");
        reveal_strlit("sK");
        reveal_strlit("name");
        reveal_strlit("description");
        reveal_strlit("type");
        reveal_strlit("source_file");
        assert("pK"@ =~= key_pk());
        assert("sK"@ =~= key_sk());
        assert("name"@ =~= key_name());
        assert("description"@ =~= key_description());
        assert("type"@ =~= key_type());
        assert("source_file"@ =~= key_source_file());
    }
    let user_uuid = required_item_value("pK", item)?;
    let task_uuid = required_item_value("sK", item)?;
    let task_name = required_item_value("name", item)?;
    let task_description = required_item_value("description", item)?;
    let task_type = required_item_value("type", item)?;
    let source_file = required_item_value("source_file", item)?;
    Ok(TaskDetails { user_uuid, task_uuid, task_name, task_type, task_description, source_file })
}

fn string_attr(key: &str, value: &String) -> (r: (String, AttrValue))
    ensures
        r.0@ == key@,
        r.1@ == Some(value@),
{
    (String::from_str(key), AttrValue::S(value.clone()))
}

/// The item that stores a task: the six fields as string attributes.
pub fn task_to_item(task: &TaskInput) -> (r: Item)
    ensures
        r@ == encode_task(task@),
{
    proof {
        reveal_strlit("pK");
        reveal_strlit("sK");
        reveal_strlit("name");
        reveal_strlit("description");
        reveal_strlit("type");
        reveal_strlit("source_file");
        assert("pK"@ =~= key_pk());
        assert("sK"@ =~= key_sk());
        assert("name"@ =~= key_name());
        assert("description"@ =~= key_description());
        assert("type"@ =~= key_type());
        assert("source_file"@ =~= key_source_file());
    }
    let mut attrs: Vec<(String, AttrValue)> = Vec::new();
    attrs.push(string_attr("pK", &task.user_uuid));
    attrs.push(string_attr("sK", &task.task_uuid));
    attrs.push(string_attr("name", &task.task_name));
    attrs.push(string_attr("description", &task.task_description));
    attrs.push(string_attr("type", &task.task_type));
    attrs.push(string_attr("source_file", &task.source_file));
    let r = Item { attrs };
    assert(r@ =~= encode_task(task@));
    r
}

} // verus!
