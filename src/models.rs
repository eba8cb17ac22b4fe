use vstd::prelude::*;

verus! {

/// A to-do record. The id is issued by the store and never changes.
#[derive(Clone, Debug)]
pub struct Task {
    pub id: u64,
    pub title: String,
    pub description: String,
    pub completed: bool,
}

/// What a client sends to create a task.
#[derive(Debug)]
pub struct CreateTask {
    pub title: String,
    pub description: String,
}

/// A partial change: a field left `None` keeps its current value.
#[derive(Debug)]
pub struct UpdateTask {
    pub title: Option<String>,
    pub description: Option<String>,
    pub completed: Option<bool>,
}

/// The task that `create` turns into, under the given id.
pub open spec fn task_from(id: u64, c: CreateTask) -> Task {
    Task { id, title: c.title, description: c.description, completed: false }
}

/// The task `t` after the partial change `u`: each field that `u` holds is
/// replaced, every other field is kept.
pub open spec fn apply_update(t: Task, u: UpdateTask) -> Task {
    Task {
        id: t.id,
        title: match u.title {
            Some(x) => x,
            None => t.title,
        },
        description: match u.description {
            Some(x) => x,
            None => t.description,
        },
        completed: match u.completed {
            Some(x) => x,
            None => t.completed,
        },
    }
}

impl Task {
    /// A new, not yet completed task under the id `id`.
    pub fn new(id: u64, create_task: CreateTask) -> (r: Task)
        ensures
            r == task_from(id, create_task),
    {
        Task {
            id,
            title: create_task.title,
            description: create_task.description,
            completed: false,
        }
    }

    /// Overwrites the fields that `update` holds and keeps the others.
    pub fn update(&mut self, update: UpdateTask)
        ensures
            *final(self) == apply_update(*old(self), update),
    {
        if let Some(title) = update.title {
            self.title = title;
        }
        if let Some(description) = update.description {
            self.description = description;
        }
        if let Some(completed) = update.completed {
            self.completed = completed;
        }
    }

    /// A field-by-field copy, equal to `self`.
    pub fn duplicate(&self) -> (r: Task)
        ensures
            r == *self,
    {
        Task {
            id: self.id,
            title: self.title.clone(),
            description: self.description.clone(),
            completed: self.completed,
        }
    }
}

} // verus!
