use vstd::prelude::*;
use crate::models::{Task, CreateTask, UpdateTask};
use crate::store::Store;

verus! {

/// The fixed texts that replies carry.
#[derive(Clone, Copy, Debug, PartialEq, Eq, Structural)]
pub enum Notice {
    Welcome,
    TaskCreated,
    TaskUpdated,
    TaskDeleted,
    TaskNotFound,
    InvalidTaskId,
    InvalidBody,
    Internal,
}

pub open spec fn notice_text(n: Notice) -> Seq<char> {
    match n {
        Notice::Welcome => "Welcome to the Rust Web Server"@,
        Notice::TaskCreated => "Task created successfully"@,
        Notice::TaskUpdated => "Task updated successfully"@,
        Notice::TaskDeleted => "Task deleted successfully"@,
        Notice::TaskNotFound => "Task not found"@,
        Notice::InvalidTaskId => "Invalid task ID"@,
        Notice::InvalidBody => "Invalid request body"@,
        Notice::Internal => "Internal Server Error"@,
    }
}

impl Notice {
    /// The words of this notice.
    pub fn text(&self) -> (r: &'static str)
        ensures
            r@ == notice_text(*self),
    {
        match self {
            Notice::Welcome => "Welcome to the Rust Web Server",
            Notice::TaskCreated => "Task created successfully",
            Notice::TaskUpdated => "Task updated successfully",
            Notice::TaskDeleted => "Task deleted successfully",
            Notice::TaskNotFound => "Task not found",
            Notice::InvalidTaskId => "Invalid task ID",
            Notice::InvalidBody => "Invalid request body",
            Notice::Internal => "Internal Server Error",
        }
    }
}

/// The machine's memory figures that the health reply reports.
#[derive(Clone, Copy, Debug, PartialEq, Eq, Structural)]
pub struct MemoryUsage {
    pub total: u64,
    pub free: u64,
    pub available: u64,
    pub buffers: u64,
    pub cached: u64,
    pub swap_total: u64,
    pub swap_free: u64,
}

/// What a reply says, before the request id, the time stamp and the
/// processing time are added around it.
#[derive(Debug)]
pub enum Body {
    /// `message`
    Message(Notice),
    /// `error`
    Error(Notice),
    /// `id` and `message`
    Created { id: u64, message: Notice },
    /// `task`
    Task(Task),
    /// `tasks`
    Tasks(Vec<Task>),
    /// `status` and `memory_usage`
    Health(MemoryUsage),
    /// The plain text `Not Found`, with no envelope.
    NotFound,
}

/// A status code and a body.
#[derive(Debug)]
pub struct Reply {
    pub status: u16,
    pub body: Body,
}

impl Reply {
    /// Whether the reply goes out as a JSON envelope; only the reply to an
    /// unknown route is plain text.
    pub fn is_json(&self) -> (r: bool)
        ensures
            r == !(self.body is NotFound),
    {
        match self.body {
            Body::NotFound => false,
            _ => true,
        }
    }
}

pub open spec fn is_message(r: Reply, status: u16, n: Notice) -> bool {
    r.status == status && r.body == Body::Message(n)
}

pub open spec fn is_error(r: Reply, status: u16, n: Notice) -> bool {
    r.status == status && r.body == Body::Error(n)
}

/// `GET /`
pub fn handle_root() -> (r: Reply)
    ensures
        is_message(r, 200, Notice::Welcome),
{
    Reply { status: 200, body: Body::Message(Notice::Welcome) }
}

/// `GET /health`, with the memory figures read for this request.
pub fn handle_health(memory: MemoryUsage) -> (r: Reply)
    ensures
        r.status == 200,
        r.body == Body::Health(memory),
{
    Reply { status: 200, body: Body::Health(memory) }
}

/// Any request that no route takes.
pub fn handle_not_found() -> (r: Reply)
    ensures
        r.status == 404,
        r.body == Body::NotFound,
{
    Reply { status: 404, body: Body::NotFound }
}

/// A failure that the service did not expect, such as a reply that could
/// not be encoded. It says nothing of the cause.
pub fn internal_error() -> (r: Reply)
    ensures
        is_error(r, 500, Notice::Internal),
{
    Reply { status: 500, body: Body::Error(Notice::Internal) }
}

/// `POST /tasks`. `body` is `None` where the request body was not a valid
/// creation request. With the id counter spent, nothing is created.
pub fn handle_create_task(store: &mut Store, body: Option<CreateTask>) -> (r: Reply)
    requires
        old(store).wf(),
    ensures
        final(store).wf(),
        match body {
            None => is_error(r, 400, Notice::InvalidBody) && final(store)@ == old(store)@,
            Some(c) => if old(store)@.next_id < u64::MAX {
                &&& r.status == 201
                &&& r.body == (Body::Created { id: old(store)@.next_id, message: Notice::TaskCreated })
                &&& final(store)@ == old(store)@.created(c)
            } else {
                is_error(r, 500, Notice::Internal) && final(store)@ == old(store)@
            },
        },
{
    match body {
        None => Reply { status: 400, body: Body::Error(Notice::InvalidBody) },
        Some(c) => {
            if store.next_id() == u64::MAX {
                internal_error()
            } else {
                let id = store.create_task(c);
                Reply { status: 201, body: Body::Created { id, message: Notice::TaskCreated } }
            }
        },
    }
}

/// `PUT /tasks/<id>`. An id that did not parse is refused before the body
/// is looked at.
pub fn handle_update_task(store: &mut Store, task_id: Option<u64>, body: Option<UpdateTask>) -> (r: Reply)
    requires
        old(store).wf(),
    ensures
        final(store).wf(),
        match (task_id, body) {
            (None, _) => is_error(r, 400, Notice::InvalidTaskId) && final(store)@ == old(store)@,
            (Some(_), None) => is_error(r, 400, Notice::InvalidBody) && final(store)@ == old(store)@,
            (Some(id), Some(u)) => {
                &&& final(store)@ == old(store)@.updated(id, u)
                &&& if old(store)@.has(id) {
                    is_message(r, 200, Notice::TaskUpdated)
                } else {
                    is_error(r, 404, Notice::TaskNotFound)
                }
            },
        },
{
    let id = match task_id {
        Some(id) => id,
        None => return Reply { status: 400, body: Body::Error(Notice::InvalidTaskId) },
    };
    let u = match body {
        Some(u) => u,
        None => return Reply { status: 400, body: Body::Error(Notice::InvalidBody) },
    };
    match store.update_task(id, u) {
        Some(_) => Reply { status: 200, body: Body::Message(Notice::TaskUpdated) },
        None => Reply { status: 404, body: Body::Error(Notice::TaskNotFound) },
    }
}

/// `DELETE /tasks/<id>`
pub fn handle_delete_task(store: &mut Store, task_id: Option<u64>) -> (r: Reply)
    requires
        old(store).wf(),
    ensures
        final(store).wf(),
        match task_id {
            None => is_error(r, 400, Notice::InvalidTaskId) && final(store)@ == old(store)@,
            Some(id) => {
                &&& final(store)@ == old(store)@.deleted(id)
                &&& if old(store)@.has(id) {
                    is_message(r, 200, Notice::TaskDeleted)
                } else {
                    is_error(r, 404, Notice::TaskNotFound)
                }
            },
        },
{
    let id = match task_id {
        Some(id) => id,
        None => return Reply { status: 400, body: Body::Error(Notice::InvalidTaskId) },
    };
    match store.delete_task(id) {
        Some(_) => Reply { status: 200, body: Body::Message(Notice::TaskDeleted) },
        None => Reply { status: 404, body: Body::Error(Notice::TaskNotFound) },
    }
}

/// `GET /tasks`
pub fn handle_list_tasks(store: &Store) -> (r: Reply)
    requires
        store.wf(),
    ensures
        r.status == 200,
        match r.body {
            Body::Tasks(v) => v@ == store@.tasks,
            _ => false,
        },
{
    Reply { status: 200, body: Body::Tasks(store.list_tasks()) }
}

/// `GET /tasks/<id>`
pub fn handle_get_task(store: &Store, task_id: Option<u64>) -> (r: Reply)
    requires
        store.wf(),
    ensures
        match task_id {
            None => is_error(r, 400, Notice::InvalidTaskId),
            Some(id) => match store@.lookup(id) {
                Some(t) => r.status == 200 && r.body == Body::Task(t),
                None => is_error(r, 404, Notice::TaskNotFound),
            },
        },
{
    let id = match task_id {
        Some(id) => id,
        None => return Reply { status: 400, body: Body::Error(Notice::InvalidTaskId) },
    };
    match store.get_task(id) {
        Some(t) => Reply { status: 200, body: Body::Task(t) },
        None => Reply { status: 404, body: Body::Error(Notice::TaskNotFound) },
    }
}

} // verus!
