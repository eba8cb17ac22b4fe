use vstd::prelude::*;
use crate::models::{Task, CreateTask, UpdateTask, task_from, apply_update};

verus! {

/// Task ids strictly increase along the sequence, so no id occurs twice.
pub open spec fn ids_increasing(s: Seq<Task>) -> bool {
    forall|i: int, j: int| 0 <= i < j < s.len() ==> s[i].id < s[j].id
}

/// The abstract state of a store: the live tasks in the order in which
/// they were issued, and the id that the next `create` hands out.
pub struct StoreModel {
    pub tasks: Seq<Task>,
    pub next_id: u64,
}

impl StoreModel {
    /// Ids are unique, increasing, and all below the next id to issue,
    /// which starts at 1.
    pub open spec fn wf(self) -> bool {
        &&& ids_increasing(self.tasks)
        &&& forall|i: int| 0 <= i < self.tasks.len() ==> self.tasks[i].id < self.next_id
        &&& self.next_id >= 1
    }

    pub open spec fn has(self, id: u64) -> bool {
        exists|i: int| 0 <= i < self.tasks.len() && self.tasks[i].id == id
    }

    pub open spec fn index_of(self, id: u64) -> int {
        choose|i: int| 0 <= i < self.tasks.len() && self.tasks[i].id == id
    }

    /// The live task with this id, if there is one.
    pub open spec fn lookup(self, id: u64) -> Option<Task> {
        if self.has(id) {
            Some(self.tasks[self.index_of(id)])
        } else {
            None
        }
    }

    /// The state after `create`: a new task under the next id.
    pub open spec fn created(self, c: CreateTask) -> StoreModel {
        StoreModel {
            tasks: self.tasks.push(task_from(self.next_id, c)),
            next_id: (self.next_id + 1) as u64,
        }
    }

    /// The state after `update`: the task with this id changed in place,
    /// or no change where there is none.
    pub open spec fn updated(self, id: u64, u: UpdateTask) -> StoreModel {
        if self.has(id) {
            StoreModel {
                tasks: self.tasks.update(
                    self.index_of(id),
                    apply_update(self.tasks[self.index_of(id)], u),
                ),
                next_id: self.next_id,
            }
        } else {
            self
        }
    }

    /// The state after `delete`: the task with this id gone, or no change
    /// where there is none.
    pub open spec fn deleted(self, id: u64) -> StoreModel {
        if self.has(id) {
            StoreModel { tasks: self.tasks.remove(self.index_of(id)), next_id: self.next_id }
        } else {
            self
        }
    }
}

/// In a sequence of increasing ids, position `i` is the one position of
/// its task's id.
pub proof fn lemma_index_unique(m: StoreModel, i: int)
    requires
        ids_increasing(m.tasks),
        0 <= i < m.tasks.len(),
    ensures
        m.has(m.tasks[i].id),
        m.index_of(m.tasks[i].id) == i,
        m.lookup(m.tasks[i].id) == Some(m.tasks[i]),
{
    let id = m.tasks[i].id;
    assert(m.tasks[i].id == id);
    let j = m.index_of(id);
    assert(0 <= j < m.tasks.len() && m.tasks[j].id == id);
    if j < i {
        assert(m.tasks[j].id < m.tasks[i].id);
    } else if i < j {
        assert(m.tasks[i].id < m.tasks[j].id);
    }
}

/// The state of a store that has just been made.
pub open spec fn empty_model() -> StoreModel {
    StoreModel { tasks: Seq::empty(), next_id: 1 }
}

/// The state after the creation requests `reqs`, made one after another.
pub open spec fn create_all(s: StoreModel, reqs: Seq<CreateTask>) -> StoreModel
    decreases reqs.len(),
{
    if reqs.len() == 0 {
        s
    } else {
        create_all(s, reqs.drop_last()).created(reqs.last())
    }
}

/// The ids that the creation requests `reqs`, made one after another,
/// return: each is the next id of the state that the call meets.
pub open spec fn ids_issued(s: StoreModel, reqs: Seq<CreateTask>) -> Seq<u64>
    decreases reqs.len(),
{
    if reqs.len() == 0 {
        Seq::empty()
    } else {
        ids_issued(s, reqs.drop_last()).push(create_all(s, reqs.drop_last()).next_id)
    }
}

/// A creation keeps a state well formed while ids remain.
pub proof fn lemma_created_wf(s: StoreModel, c: CreateTask)
    requires
        s.wf(),
        s.next_id < u64::MAX,
    ensures
        s.created(c).wf(),
{
}

/// Creations made one after another return the ids `next, next + 1, ...`
/// in call order: pairwise distinct, strictly increasing and without gaps.
pub proof fn lemma_create_ids(s: StoreModel, reqs: Seq<CreateTask>)
    requires
        s.wf(),
        s.next_id + reqs.len() <= u64::MAX,
    ensures
        create_all(s, reqs).wf(),
        create_all(s, reqs).next_id == s.next_id + reqs.len(),
        ids_issued(s, reqs).len() == reqs.len(),
        forall|i: int| 0 <= i < reqs.len() ==> ids_issued(s, reqs)[i] == s.next_id + i,
        forall|i: int, j: int|
            0 <= i < j < reqs.len() ==> ids_issued(s, reqs)[i] < ids_issued(s, reqs)[j],
    decreases reqs.len(),
{
    if reqs.len() > 0 {
        lemma_create_ids(s, reqs.drop_last());
        lemma_created_wf(create_all(s, reqs.drop_last()), reqs.last());
    }
}

/// Reading the id that a creation returned gives the submitted title and
/// description, not completed.
pub proof fn lemma_get_after_create(s: StoreModel, c: CreateTask)
    requires
        s.wf(),
        s.next_id < u64::MAX,
    ensures
        s.created(c).lookup(s.next_id) == Some(task_from(s.next_id, c)),
{
    let t = s.created(c);
    lemma_created_wf(s, c);
    lemma_index_unique(t, s.tasks.len() as int);
}

/// After an update, the task reads as the old task with the change applied.
pub proof fn lemma_lookup_after_update(s: StoreModel, id: u64, u: UpdateTask)
    requires
        s.wf(),
        s.has(id),
    ensures
        s.updated(id, u).wf(),
        s.updated(id, u).lookup(id) == Some(apply_update(s.lookup(id).unwrap(), u)),
{
    let k = s.index_of(id);
    let t = s.updated(id, u);
    assert(t.tasks[k].id == id);
    lemma_index_unique(t, k);
}

/// Updating only the title leaves the description and the completion flag
/// as they were.
pub proof fn lemma_update_title_only(s: StoreModel, id: u64, title: String)
    requires
        s.wf(),
        s.has(id),
    ensures
        ({
            let before = s.lookup(id).unwrap();
            let u = UpdateTask { title: Some(title), description: None, completed: None };
            s.updated(id, u).lookup(id) == Some(
                Task {
                    id,
                    title,
                    description: before.description,
                    completed: before.completed,
                },
            )
        }),
{
    let u = UpdateTask { title: Some(title), description: None, completed: None };
    lemma_lookup_after_update(s, id, u);
    lemma_index_unique(s, s.index_of(id));
}

/// An id that was never issued reads as absent, and updating or deleting
/// it changes nothing.
pub proof fn lemma_never_issued(s: StoreModel, id: u64, u: UpdateTask)
    requires
        s.wf(),
        id >= s.next_id,
    ensures
        s.lookup(id) is None,
        s.updated(id, u) == s,
        s.deleted(id) == s,
{
}

/// After a delete the id reads as absent, and deleting it again changes
/// nothing.
pub proof fn lemma_delete_twice(s: StoreModel, id: u64)
    requires
        s.wf(),
    ensures
        s.deleted(id).wf(),
        s.deleted(id).lookup(id) is None,
        s.deleted(id).deleted(id) == s.deleted(id),
{
    if s.has(id) {
        let k = s.index_of(id);
        let d = s.deleted(id);
        assert forall|j: int| 0 <= j < d.tasks.len() implies d.tasks[j].id != id by {
            if j < k {
                assert(d.tasks[j] == s.tasks[j]);
            } else {
                assert(d.tasks[j] == s.tasks[j + 1]);
            }
        }
    }
}

/// After `n` creations on a new store, the listing holds exactly `n` tasks:
/// the `i`-th is the `i`-th request under id `i + 1`, not completed.
pub proof fn lemma_list_after_creates(reqs: Seq<CreateTask>)
    requires
        reqs.len() < u64::MAX,
    ensures
        create_all(empty_model(), reqs).tasks.len() == reqs.len(),
        forall|i: int|
            0 <= i < reqs.len() ==> create_all(empty_model(), reqs).tasks[i] == task_from(
                (i + 1) as u64,
                reqs[i],
            ),
    decreases reqs.len(),
{
    if reqs.len() > 0 {
        let p = reqs.drop_last();
        lemma_list_after_creates(p);
        lemma_create_ids(empty_model(), p);
        assert forall|i: int| 0 <= i < p.len() implies reqs[i] == p[i] by {}
    }
}

/// The task collection and the id counter. Writers take `&mut self`, so
/// they exclude each other and every reader; readers share `&self`.
pub struct Store {
    tasks: Vec<Task>,
    next_id: u64,
}

impl View for Store {
    type V = StoreModel;

    closed spec fn view(&self) -> StoreModel {
        StoreModel { tasks: self.tasks@, next_id: self.next_id }
    }
}

impl Store {
    pub open spec fn wf(&self) -> bool {
        self@.wf()
    }

    /// An empty store whose first id is 1.
    pub fn new() -> (r: Store)
        ensures
            r.wf(),
            r@ == empty_model(),
    {
        Store { tasks: Vec::new(), next_id: 1 }
    }

    /// The id that the next `create_task` will issue.
    pub fn next_id(&self) -> (r: u64)
        ensures
            r == self@.next_id,
    {
        self.next_id
    }

    /// Where the task with this id stands in the collection.
    fn position(&self, id: u64) -> (r: Option<usize>)
        requires
            self.wf(),
        ensures
            match r {
                Some(i) => i < self@.tasks.len() && self@.has(id) && self@.index_of(id) == i,
                None => !self@.has(id),
            },
    {
        let n = self.tasks.len();
        let mut i: usize = 0;
        while i < n
            invariant
                self.wf(),
                n == self@.tasks.len(),
                0 <= i <= n,
                forall|j: int| 0 <= j < i ==> self@.tasks[j].id != id,
            decreases n - i,
        {
            if self.tasks[i].id == id {
                proof {
                    lemma_index_unique(self@, i as int);
                }
                return Some(i);
            }
            i = i + 1;
        }
        None
    }

    /// Issues the next id to a new, not yet completed task and returns it.
    pub fn create_task(&mut self, create_task: CreateTask) -> (r: u64)
        requires
            old(self).wf(),
            old(self)@.next_id < u64::MAX,
        ensures
            final(self).wf(),
            final(self)@ == old(self)@.created(create_task),
            r == old(self)@.next_id,
    {
        let id = self.next_id;
        let task = Task::new(id, create_task);
        self.tasks.push(task);
        self.next_id = id + 1;
        id
    }

    /// A copy of the task with this id, if there is one.
    pub fn get_task(&self, id: u64) -> (r: Option<Task>)
        requires
            self.wf(),
        ensures
            r == self@.lookup(id),
    {
        match self.position(id) {
            Some(i) => Some(self.tasks[i].duplicate()),
            None => None,
        }
    }

    /// Applies `update` to the task with this id and returns a copy of the
    /// result; with no such task, changes nothing and returns `None`.
    pub fn update_task(&mut self, id: u64, update: UpdateTask) -> (r: Option<Task>)
        requires
            old(self).wf(),
        ensures
            final(self).wf(),
            final(self)@ == old(self)@.updated(id, update),
            r == match old(self)@.lookup(id) {
                Some(t) => Some(apply_update(t, update)),
                None => None,
            },
    {
        match self.position(id) {
            Some(i) => {
                let mut task = self.tasks[i].duplicate();
                task.update(update);
                let out = task.duplicate();
                self.tasks.set(i, task);
                Some(out)
            },
            None => None,
        }
    }

    /// Removes the task with this id and returns it; with no such task,
    /// changes nothing and returns `None`.
    pub fn delete_task(&mut self, id: u64) -> (r: Option<Task>)
        requires
            old(self).wf(),
        ensures
            final(self).wf(),
            final(self)@ == old(self)@.deleted(id),
            r == old(self)@.lookup(id),
    {
        match self.position(id) {
            Some(i) => {
                let task = self.tasks.remove(i);
                Some(task)
            },
            None => None,
        }
    }

    /// Copies of all live tasks, in the order in which they were issued.
    pub fn list_tasks(&self) -> (r: Vec<Task>)
        requires
            self.wf(),
        ensures
            r@ == self@.tasks,
    {
        let n = self.tasks.len();
        let mut out: Vec<Task> = Vec::new();
        let mut i: usize = 0;
        while i < n
            invariant
                n == self@.tasks.len(),
                0 <= i <= n,
                out@ == self@.tasks.subrange(0, i as int),
            decreases n - i,
        {
            out.push(self.tasks[i].duplicate());
            i = i + 1;
        }
        assert(out@ =~= self@.tasks);
        out
    }
}

impl Default for Store {
    /// The same as `Store::new`.
    fn default() -> (r: Store)
        ensures
            r.wf(),
            r@ == empty_model(),
    {
        Store::new()
    }
}

} // verus!
