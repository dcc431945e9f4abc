use vstd::prelude::*;

verus! {

/// The six string fields of a task, as mathematical sequences.
pub struct TaskRecord {
    pub user_uuid: Seq<char>,
    pub task_uuid: Seq<char>,
    pub task_name: Seq<char>,
    pub task_type: Seq<char>,
    pub task_description: Seq<char>,
    pub source_file: Seq<char>,
}

/// What a caller sends to create a task.
#[derive(Debug, Clone)]
pub struct TaskInput {
    pub user_uuid: String,
    pub task_uuid: String,
    pub task_name: String,
    pub task_type: String,
    pub task_description: String,
    pub source_file: String,
}

impl View for TaskInput {
    type V = TaskRecord;

    open spec fn view(&self) -> TaskRecord {
        TaskRecord {
            user_uuid: self.user_uuid@,
            task_uuid: self.task_uuid@,
            task_name: self.task_name@,
            task_type: self.task_type@,
            task_description: self.task_description@,
            source_file: self.source_file@,
        }
    }
}

/// A stored task as a read returns it.
#[derive(Debug, Clone)]
pub struct TaskDetails {
    pub user_uuid: String,
    pub task_uuid: String,
    pub task_name: String,
    pub task_type: String,
    pub task_description: String,
    pub source_file: String,
}

impl View for TaskDetails {
    type V = TaskRecord;

    open spec fn view(&self) -> TaskRecord {
        TaskRecord {
            user_uuid: self.user_uuid@,
            task_uuid: self.task_uuid@,
            task_name: self.task_name@,
            task_type: self.task_type@,
            task_description: self.task_description@,
            source_file: self.source_file@,
        }
    }
}

/// The payload of a successful create.
#[derive(Debug, Clone)]
pub struct TaskResponse {
    pub status: String,
    pub message: String,
}

pub open spec fn success_status() -> Seq<char> {
    seq!['s', 'u', 'c', 'c', 'e', 's', 's']
}

pub open spec fn created_message() -> Seq<char> {
    seq![
        'T', 'a', 's', 'k', ' ', 'c', 'r', 'e', 'a', 't', 'e', 'd', ' ', 's', 'u', 'c', 'c', 'e',
        's', 's', 'f', 'u', 'l', 'l', 'y', '.',
    ]
}

impl TaskResponse {
    /// The fixed payload of a successful create.
    pub fn created() -> (r: TaskResponse)
        ensures
            r.status@ == success_status(),
            r.message@ == created_message(),
    {
        proof {
            reveal_strlit("success");
            reveal_strlit("Task created successfully.");
        }
        let status = String::from_str("success");
        let message = String::from_str("Task created successfully.");
        proof {
            assert(status@ =~= success_status());
            assert(message@ =~= created_message());
        }
        TaskResponse { status, message }
    }
}

} // verus!
