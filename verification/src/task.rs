//! The task store and its operations. Every task is owned by exactly one
//! user, and no operation may read, mutate or delete a task whose owner
//! differs from the requesting identity — such a task is reported as not
//! found, never as forbidden, so that its existence does not leak.

use vstd::prelude::*;

use crate::error::ServiceError;
use crate::text::{trim_spec, trim_str, seq_contains, contains_substr};
use crate::user::{UserStore, UserPublic, UserPublicView, UserView, owner_projection};

verus! {

/// A stored task record.
#[derive(Debug)]
pub struct Task {
    /// Unique id, assigned at creation from a counter starting at 1.
    pub id: i32,
    /// Task name, 2 to 20 characters after trimming.
    pub name: String,
    /// Task description, 5 to 200 characters after trimming.
    pub description: String,
    /// Caller-controlled flag; no lifecycle is attached to it.
    pub is_active: bool,
    /// The id of the owning user; immutable after creation.
    pub user_id: i32,
}

/// Spec-level image of a task record.
pub ghost struct TaskView {
    pub id: i32,
    pub name: Seq<char>,
    pub description: Seq<char>,
    pub is_active: bool,
    pub user_id: i32,
}

impl View for Task {
    type V = TaskView;

    open spec fn view(&self) -> TaskView {
        TaskView {
            id: self.id,
            name: self.name@,
            description: self.description@,
            is_active: self.is_active,
            user_id: self.user_id,
        }
    }
}

/// A name is valid when, after trimming, it has 2 to 20 characters.
pub open spec fn valid_name(name: Seq<char>) -> bool {
    2 <= name.len() <= 20
}

/// A description is valid when, after trimming, it has 5 to 200 characters.
pub open spec fn valid_description(description: Seq<char>) -> bool {
    5 <= description.len() <= 200
}

/// Payload for creating or updating a task.
pub struct TaskPayload {
    /// The (untrimmed) name.
    pub name: String,
    /// The (untrimmed) description.
    pub description: String,
    /// Whether the task is active.
    pub is_active: bool,
    /// The requesting identity, recorded as owner on creation and required
    /// to match the owner on update.
    pub user_id: i32,
}

/// The index of the first task with id `id`, or `tasks.len()` if there is
/// none.
pub open spec fn task_index_of(tasks: Seq<TaskView>, id: i32) -> int
    decreases tasks.len(),
{
    if tasks.len() == 0 {
        0
    } else if tasks[0].id == id {
        0
    } else {
        1 + task_index_of(tasks.drop_first(), id)
    }
}

/// The first task with id `id`.
pub open spec fn find_task(tasks: Seq<TaskView>, id: i32) -> Option<TaskView> {
    let i = task_index_of(tasks, id);
    if i < tasks.len() {
        Option::Some(tasks[i])
    } else {
        Option::None
    }
}

/// The predicate "owned by `uid`".
pub open spec fn owned_by(uid: i32) -> spec_fn(TaskView) -> bool {
    |t: TaskView| t.user_id == uid
}

/// The predicate "owned by `uid` and named with a name that contains `q`".
pub open spec fn matches_query(uid: i32, q: Seq<char>) -> spec_fn(TaskView) -> bool {
    |t: TaskView| t.user_id == uid && seq_contains(t.name, q)
}

/// The task with id `id` as seen by identity `uid`: present only when it
/// exists and `uid` owns it.
pub open spec fn find_task_owned(tasks: Seq<TaskView>, id: i32, uid: i32) -> Option<TaskView> {
    match find_task(tasks, id) {
        Option::Some(t) => if t.user_id == uid {
            Option::Some(t)
        } else {
            Option::None
        },
        Option::None => Option::None,
    }
}

/// `task_index_of` lies in range, points at a task with the id when one
/// exists, and nothing before it has the id.
pub proof fn lemma_task_index_of(tasks: Seq<TaskView>, id: i32)
    ensures
        0 <= task_index_of(tasks, id) <= tasks.len(),
        task_index_of(tasks, id) < tasks.len() ==> tasks[task_index_of(tasks, id)].id == id,
        forall|k: int| 0 <= k < task_index_of(tasks, id) ==> tasks[k].id != id,
    decreases tasks.len(),
{
    if tasks.len() == 0 {
    } else if tasks[0].id == id {
    } else {
        lemma_task_index_of(tasks.drop_first(), id);
        assert forall|k: int| 0 <= k < task_index_of(tasks, id) implies tasks[k].id != id by {
            if k > 0 {
                assert(tasks.drop_first()[k - 1] == tasks[k]);
            }
        }
    }
}

/// The spec-level image of the task store: the records in insertion order,
/// and the id the next creation will receive.
pub ghost struct TaskStoreView {
    pub tasks: Seq<TaskView>,
    pub next_id: i32,
}

/// Well-formedness of the task store: ids are unique, positive and below
/// the insertion counter.
pub open spec fn task_store_wf(v: TaskStoreView) -> bool {
    &&& 1 <= v.next_id
    &&& forall|i: int| 0 <= i < v.tasks.len() ==> 1 <= (#[trigger] v.tasks[i]).id < v.next_id
    &&& forall|i: int, j: int| 0 <= i < j < v.tasks.len() ==> v.tasks[i].id != v.tasks[j].id
}

/// The task store: task records in insertion order.
pub struct TaskStore {
    tasks: Vec<Task>,
    next_id: i32,
}

impl View for TaskStore {
    type V = TaskStoreView;

    closed spec fn view(&self) -> TaskStoreView {
        TaskStoreView { tasks: self.tasks@.map_values(|t: Task| t@), next_id: self.next_id }
    }
}

fn copy_task(t: &Task) -> (r: Task)
    ensures
        r@ == t@,
{
    Task {
        id: t.id,
        name: t.name.clone(),
        description: t.description.clone(),
        is_active: t.is_active,
        user_id: t.user_id,
    }
}

impl TaskStore {
    /// An empty task store; the first task created receives id 1.
    pub fn new() -> (s: TaskStore)
        ensures
            s@.tasks.len() == 0,
            s@.next_id == 1,
            task_store_wf(s@),
    {
        TaskStore { tasks: Vec::new(), next_id: 1 }
    }

    /// How many tasks the store holds, over all owners.
    pub fn count(&self) -> (n: usize)
        ensures
            n == self@.tasks.len(),
    {
        self.tasks.len()
    }

    /// The position of the task with id `id`, if one exists.
    fn position_of(&self, id: i32) -> (r: Option<usize>)
        ensures
            match r {
                Option::Some(i) => i == task_index_of(self@.tasks, id) && i < self@.tasks.len()
                    && self@.tasks[i as int].id == id,
                Option::None => task_index_of(self@.tasks, id) == self@.tasks.len(),
            },
    {
        let n = self.tasks.len();
        let mut i: usize = 0;
        while i < n
            invariant
                i <= n,
                n == self.tasks.len(),
                self@.tasks.len() == n,
                forall|k: int| 0 <= k < i ==> self@.tasks[k].id != id,
            decreases n - i,
        {
            if self.tasks[i].id == id {
                proof {
                    lemma_task_index_of(self@.tasks, id);
                    let idx = task_index_of(self@.tasks, id);
                    if idx < i {
                        assert(self@.tasks[idx].id != id);
                    }
                    if idx > i {
                        assert(self@.tasks[i as int].id != id);
                    }
                }
                return Option::Some(i);
            }
            i = i + 1;
        }
        proof {
            lemma_task_index_of(self@.tasks, id);
            let idx = task_index_of(self@.tasks, id);
            if idx < n {
                assert(self@.tasks[idx].id != id);
            }
        }
        Option::None
    }

    /// All tasks owned by `uid`, in insertion order.
    pub fn tasks_of(&self, uid: i32) -> (v: Vec<Task>)
        ensures
            v@.map_values(|t: Task| t@) == self@.tasks.filter(owned_by(uid)),
    {
        let n = self.tasks.len();
        let mut out: Vec<Task> = Vec::new();
        let mut i: usize = 0;
        proof {
            assert(self@.tasks.take(0) =~= Seq::<TaskView>::empty());
            assert(out@.map_values(|t: Task| t@) =~= Seq::<TaskView>::empty());
        }
        while i < n
            invariant
                i <= n,
                n == self.tasks.len(),
                self@.tasks.len() == n,
                out@.map_values(|t: Task| t@) == self@.tasks.take(i as int).filter(owned_by(uid)),
            decreases n - i,
        {
            proof {
                assert(self@.tasks.take(i + 1) =~= self@.tasks.take(i as int).push(
                    self@.tasks[i as int],
                ));
                self@.tasks.take(i as int).lemma_filter_push(self@.tasks[i as int], owned_by(uid));
            }
            let ghost prev = out@.map_values(|t: Task| t@);
            if self.tasks[i].user_id == uid {
                let t = copy_task(&self.tasks[i]);
                out.push(t);
                proof {
                    assert(out@.map_values(|t: Task| t@) =~= prev.push(self@.tasks[i as int]));
                }
            }
            i = i + 1;
        }
        proof {
            assert(self@.tasks.take(n as int) =~= self@.tasks);
        }
        out
    }
}

/// Mutations on the task store: create, update, delete.
pub struct TaskMutation;

impl TaskMutation {
    /// Creates a task for `payload.user_id`: trims the name and description,
    /// validates the length constraints, and appends the record under a
    /// fresh id. Succeeds exactly when the trimmed fields are valid and the
    /// id space is not exhausted.
    pub fn create(store: &mut TaskStore, payload: TaskPayload) -> (r: Result<Task, ServiceError>)
        requires
            task_store_wf(old(store)@),
        ensures
            task_store_wf(final(store)@),
            r is Ok <==> (valid_name(trim_spec(payload.name@)) && valid_description(
                trim_spec(payload.description@),
            ) && old(store)@.next_id < i32::MAX),
            match r {
                Result::Ok(t) => {
                    &&& t@.id == old(store)@.next_id
                    &&& t@.name == trim_spec(payload.name@)
                    &&& t@.description == trim_spec(payload.description@)
                    &&& t@.is_active == payload.is_active
                    &&& t@.user_id == payload.user_id
                    &&& final(store)@.tasks == old(store)@.tasks.push(t@)
                    &&& final(store)@.next_id == old(store)@.next_id + 1
                },
                Result::Err(e) => {
                    &&& final(store)@ == old(store)@
                    &&& (e == ServiceError::Validation <==> !(valid_name(trim_spec(payload.name@))
                        && valid_description(trim_spec(payload.description@))))
                    &&& (e == ServiceError::Validation || e == ServiceError::Internal)
                },
            },
    {
        let name = trim_str(payload.name.as_str());
        let description = trim_str(payload.description.as_str());
        let name_len = name.as_str().unicode_len();
        let description_len = description.as_str().unicode_len();
        if name_len < 2 || name_len > 20 || description_len < 5 || description_len > 200 {
            return Result::Err(ServiceError::Validation);
        }
        if store.next_id == i32::MAX {
            return Result::Err(ServiceError::Internal);
        }
        let id = store.next_id;
        let t = Task {
            id,
            name,
            description,
            is_active: payload.is_active,
            user_id: payload.user_id,
        };
        let t_out = copy_task(&t);
        store.tasks.push(t);
        store.next_id = id + 1;
        proof {
            assert(final(store)@.tasks =~= old(store)@.tasks.push(t_out@));
        }
        Result::Ok(t_out)
    }

    /// Updates the task with id `id` on behalf of `payload.user_id`: trims
    /// and validates the new fields, then overwrites name, description and
    /// active flag — the owner is untouched. A task that does not exist or
    /// belongs to someone else is reported as `NotFound`.
    pub fn update(store: &mut TaskStore, payload: TaskPayload, id: i32) -> (r: Result<
        Task,
        ServiceError,
    >)
        requires
            task_store_wf(old(store)@),
        ensures
            task_store_wf(final(store)@),
            r is Ok <==> (valid_name(trim_spec(payload.name@)) && valid_description(
                trim_spec(payload.description@),
            ) && find_task_owned(old(store)@.tasks, id, payload.user_id) is Some),
            match r {
                Result::Ok(t) => {
                    &&& find_task_owned(old(store)@.tasks, id, payload.user_id)
                        matches Option::Some(ot)
                    &&& t@.id == id
                    &&& t@.user_id == ot.user_id
                    &&& t@.name == trim_spec(payload.name@)
                    &&& t@.description == trim_spec(payload.description@)
                    &&& t@.is_active == payload.is_active
                    &&& final(store)@.tasks == old(store)@.tasks.update(
                        task_index_of(old(store)@.tasks, id),
                        t@,
                    )
                    &&& final(store)@.next_id == old(store)@.next_id
                },
                Result::Err(e) => {
                    &&& final(store)@ == old(store)@
                    &&& (e == ServiceError::Validation <==> !(valid_name(trim_spec(payload.name@))
                        && valid_description(trim_spec(payload.description@))))
                    &&& (e == ServiceError::NotFound <==> (valid_name(trim_spec(payload.name@))
                        && valid_description(trim_spec(payload.description@)) && find_task_owned(
                        old(store)@.tasks,
                        id,
                        payload.user_id,
                    ) is None))
                    &&& (e == ServiceError::Validation || e == ServiceError::NotFound)
                },
            },
    {
        let name = trim_str(payload.name.as_str());
        let description = trim_str(payload.description.as_str());
        let name_len = name.as_str().unicode_len();
        let description_len = description.as_str().unicode_len();
        if name_len < 2 || name_len > 20 || description_len < 5 || description_len > 200 {
            return Result::Err(ServiceError::Validation);
        }
        let i = match store.position_of(id) {
            Option::None => {
                return Result::Err(ServiceError::NotFound);
            },
            Option::Some(i) => i,
        };
        if store.tasks[i].user_id != payload.user_id {
            return Result::Err(ServiceError::NotFound);
        }
        let t = Task {
            id,
            name,
            description,
            is_active: payload.is_active,
            user_id: payload.user_id,
        };
        let t_out = copy_task(&t);
        store.tasks.set(i, t);
        proof {
            assert(final(store)@.tasks =~= old(store)@.tasks.update(
                task_index_of(old(store)@.tasks, id),
                t_out@,
            ));
        }
        Result::Ok(t_out)
    }

    /// Deletes the task with id `id` on behalf of `user_id`, reporting how
    /// many records were removed. A task that does not exist or belongs to
    /// someone else is reported as `NotFound`.
    pub fn delete(store: &mut TaskStore, id: i32, user_id: i32) -> (r: Result<u64, ServiceError>)
        requires
            task_store_wf(old(store)@),
        ensures
            task_store_wf(final(store)@),
            r is Ok <==> find_task_owned(old(store)@.tasks, id, user_id) is Some,
            match r {
                Result::Ok(n) => {
                    &&& n == 1
                    &&& final(store)@.tasks == old(store)@.tasks.remove(
                        task_index_of(old(store)@.tasks, id),
                    )
                    &&& final(store)@.next_id == old(store)@.next_id
                },
                Result::Err(e) => {
                    &&& e == ServiceError::NotFound
                    &&& final(store)@ == old(store)@
                },
            },
    {
        let i = match store.position_of(id) {
            Option::None => {
                return Result::Err(ServiceError::NotFound);
            },
            Option::Some(i) => i,
        };
        if store.tasks[i].user_id != user_id {
            return Result::Err(ServiceError::NotFound);
        }
        store.tasks.remove(i);
        proof {
            assert(final(store)@.tasks =~= old(store)@.tasks.remove(
                task_index_of(old(store)@.tasks, id),
            ));
        }
        Result::Ok(1)
    }

    /// Removes every task, over all owners; the id counter is not reset.
    pub fn delete_all(store: &mut TaskStore) -> (n: u64)
        ensures
            final(store)@.tasks.len() == 0,
            final(store)@.next_id == old(store)@.next_id,
            task_store_wf(old(store)@) ==> task_store_wf(final(store)@),
            n == old(store)@.tasks.len(),
    {
        let removed = store.tasks.len();
        store.tasks.clear();
        proof {
            assert(final(store)@.tasks =~= Seq::<TaskView>::empty());
        }
        removed as u64
    }
}

/// A task merged with the public projection of its owner.
#[derive(Debug)]
pub struct TaskModel {
    pub id: i32,
    pub name: String,
    pub description: String,
    pub is_active: bool,
    pub user_id: i32,
    /// The owner's public projection, when the owner is on record.
    pub user: Option<UserPublic>,
}

/// Spec-level image of a task-with-owner.
pub ghost struct TaskModelView {
    pub id: i32,
    pub name: Seq<char>,
    pub description: Seq<char>,
    pub is_active: bool,
    pub user_id: i32,
    pub user: Option<UserPublicView>,
}

impl View for TaskModel {
    type V = TaskModelView;

    open spec fn view(&self) -> TaskModelView {
        TaskModelView {
            id: self.id,
            name: self.name@,
            description: self.description@,
            is_active: self.is_active,
            user_id: self.user_id,
            user: match self.user {
                Option::Some(p) => Option::Some(p@),
                Option::None => Option::None,
            },
        }
    }
}

/// The task-with-owner model for `t`, its owner looked up among `users`.
pub open spec fn model_view_of(t: TaskView, users: Seq<UserView>) -> TaskModelView {
    TaskModelView {
        id: t.id,
        name: t.name,
        description: t.description,
        is_active: t.is_active,
        user_id: t.user_id,
        user: owner_projection(users, t.user_id),
    }
}

impl TaskModel {
    /// Merges a task with the public projection of its owner.
    pub fn from_task(t: &Task, users: &UserStore) -> (m: TaskModel)
        ensures
            m@ == model_view_of(t@, users@.users),
    {
        let user = users.public_of(t.user_id);
        TaskModel {
            id: t.id,
            name: t.name.clone(),
            description: t.description.clone(),
            is_active: t.is_active,
            user_id: t.user_id,
            user,
        }
    }
}

/// The tasks `uid` owns whose name contains the query `q`, in insertion
/// order.
pub open spec fn matching_tasks(tasks: Seq<TaskView>, uid: i32, q: Seq<char>) -> Seq<TaskView> {
    tasks.filter(matches_query(uid, q))
}

/// Ceiling division: how many pages `total` rows fill at `size` rows per
/// page.
pub open spec fn spec_num_pages(total: int, size: int) -> int {
    if total % size == 0 {
        total / size
    } else {
        total / size + 1
    }
}

/// The rows of page `page` (1-indexed) at `size` rows per page: a page past
/// the end is empty.
pub open spec fn page_slice(m: Seq<TaskView>, page: int, size: int) -> Seq<TaskView> {
    let lo = (page - 1) * size;
    if lo >= m.len() {
        Seq::empty()
    } else if lo + size <= m.len() {
        m.subrange(lo, lo + size)
    } else {
        m.subrange(lo, m.len() as int)
    }
}

/// The effective name filter: an absent query means the empty string, which
/// every name contains.
pub open spec fn effective_query(q: Option<String>) -> Seq<char> {
    match q {
        Option::Some(s) => s@,
        Option::None => Seq::empty(),
    }
}

/// Pagination and filtering parameters for listing tasks.
pub struct PaginationPayload {
    /// 1-indexed page to fetch; at least 1.
    pub page: u64,
    /// Rows per page; at least 1.
    pub size: u64,
    /// Optional case-sensitive substring filter on the task name.
    pub query: Option<String>,
    /// The requesting identity; only tasks it owns are listed.
    pub user_id: i32,
}

/// One page of tasks, with the pagination bookkeeping echoed back.
#[derive(Debug)]
pub struct GetAllTasks {
    /// The rows of the requested page, each with its owner attached.
    pub items: Vec<TaskModel>,
    /// How many pages the matching rows fill.
    pub num_pages: u64,
    /// Rows per page, echoed from the request.
    pub size: u64,
    /// The requested page, echoed from the request.
    pub page: u64,
}

/// Queries on the task store.
pub struct TaskQueries;

impl TaskQueries {
    /// The task with id `id`, merged with its owner's public projection, as
    /// seen by `user_id`. A task that does not exist or belongs to someone
    /// else is reported as `NotFound`.
    pub fn get_task_by_id(store: &TaskStore, users: &UserStore, id: i32, user_id: i32) -> (r:
        Result<TaskModel, ServiceError>)
        ensures
            r is Ok <==> find_task_owned(store@.tasks, id, user_id) is Some,
            match r {
                Result::Ok(m) => {
                    &&& find_task_owned(store@.tasks, id, user_id) matches Option::Some(t)
                    &&& m@ == model_view_of(t, users@.users)
                },
                Result::Err(e) => e == ServiceError::NotFound,
            },
    {
        let i = match store.position_of(id) {
            Option::None => {
                return Result::Err(ServiceError::NotFound);
            },
            Option::Some(i) => i,
        };
        if store.tasks[i].user_id != user_id {
            return Result::Err(ServiceError::NotFound);
        }
        Result::Ok(TaskModel::from_task(&store.tasks[i], users))
    }

    /// One page of the tasks `payload.user_id` owns, optionally filtered by
    /// a case-sensitive substring of the name. Pages are 1-indexed;
    /// `num_pages` is the ceiling of matching rows over page size; a page
    /// past the last yields an empty row list, not an error.
    pub fn get_tasks(store: &TaskStore, users: &UserStore, payload: PaginationPayload) -> (r:
        GetAllTasks)
        requires
            payload.page >= 1,
            payload.size >= 1,
        ensures
            ({
                let q = effective_query(payload.query);
                let m = matching_tasks(store@.tasks, payload.user_id, q);
                &&& r.page == payload.page
                &&& r.size == payload.size
                &&& r.num_pages == spec_num_pages(m.len() as int, payload.size as int)
                &&& r.items@.map_values(|tm: TaskModel| tm@) == page_slice(
                    m,
                    payload.page as int,
                    payload.size as int,
                ).map_values(|t: TaskView| model_view_of(t, users@.users))
                &&& r.items@.len() <= payload.size
                &&& (payload.page - 1) * payload.size >= m.len() ==> r.items@.len() == 0
            }),
    {
        let uid = payload.user_id;
        let q: String = match payload.query {
            Option::Some(s) => s,
            Option::None => String::new(),
        };
        let ghost qv = effective_query(payload.query);
        let ghost m = matching_tasks(store@.tasks, uid, qv);

        // Collect the matching tasks in insertion order.
        let n = store.tasks.len();
        let mut matched: Vec<Task> = Vec::new();
        let mut i: usize = 0;
        proof {
            assert(store@.tasks.take(0) =~= Seq::<TaskView>::empty());
            assert(matched@.map_values(|t: Task| t@) =~= Seq::<TaskView>::empty());
        }
        while i < n
            invariant
                i <= n,
                n == store.tasks.len(),
                store@.tasks.len() == n,
                q@ == qv,
                matched@.map_values(|t: Task| t@) == matching_tasks(
                    store@.tasks.take(i as int),
                    uid,
                    qv,
                ),
            decreases n - i,
        {
            proof {
                assert(store@.tasks.take(i + 1) =~= store@.tasks.take(i as int).push(
                    store@.tasks[i as int],
                ));
                store@.tasks.take(i as int).lemma_filter_push(
                    store@.tasks[i as int],
                    matches_query(uid, qv),
                );
            }
            let ghost prev = matched@.map_values(|t: Task| t@);
            let t = &store.tasks[i];
            if t.user_id == uid && contains_substr(t.name.as_str(), q.as_str()) {
                let c = copy_task(t);
                matched.push(c);
                proof {
                    assert(matched@.map_values(|t: Task| t@) =~= prev.push(
                        store@.tasks[i as int],
                    ));
                }
            }
            i = i + 1;
        }
        proof {
            assert(store@.tasks.take(n as int) =~= store@.tasks);
            assert(matched@.map_values(|t: Task| t@) == m);
        }

        // The page count: ceiling division of the matching total.
        let total = matched.len();
        let total64 = total as u64;
        let num_pages = if total64 % payload.size == 0 {
            total64 / payload.size
        } else {
            proof {
                assert(total64 / payload.size < u64::MAX) by (nonlinear_arith)
                    requires
                        payload.size >= 2 || total64 % payload.size == 0,
                        total64 % payload.size != 0,
                        total64 <= u64::MAX,
                ;
            }
            total64 / payload.size + 1
        };

        // The requested window of the matching rows.
        let mut items: Vec<TaskModel> = Vec::new();
        let lo_opt = (payload.page - 1).checked_mul(payload.size);
        if let Option::Some(lo64) = lo_opt {
            if lo64 < total64 {
                let lo = lo64 as usize;
                let hi: usize = match lo64.checked_add(payload.size) {
                    Option::None => total,
                    Option::Some(h) => if h < total64 {
                        h as usize
                    } else {
                        total
                    },
                };
                let mut j = lo;
                proof {
                    assert(m.subrange(lo as int, lo as int) =~= Seq::<TaskView>::empty());
                    assert(items@.map_values(|tm: TaskModel| tm@) =~= Seq::<
                        TaskModelView,
                    >::empty());
                }
                while j < hi
                    invariant
                        lo <= j <= hi <= total,
                        total == matched.len(),
                        m == matched@.map_values(|t: Task| t@),
                        items@.map_values(|tm: TaskModel| tm@) == m.subrange(
                            lo as int,
                            j as int,
                        ).map_values(|t: TaskView| model_view_of(t, users@.users)),
                    decreases hi - j,
                {
                    let ghost prev = items@.map_values(|tm: TaskModel| tm@);
                    let tm = TaskModel::from_task(&matched[j], users);
                    items.push(tm);
                    proof {
                        assert(m.subrange(lo as int, j + 1) =~= m.subrange(lo as int, j as int)
                            .push(m[j as int]));
                        assert(m.subrange(lo as int, j as int).push(m[j as int]).map_values(
                            |t: TaskView| model_view_of(t, users@.users),
                        ) =~= m.subrange(lo as int, j as int).map_values(
                            |t: TaskView| model_view_of(t, users@.users),
                        ).push(model_view_of(m[j as int], users@.users)));
                        assert(items@.map_values(|tm: TaskModel| tm@) =~= prev.push(
                            model_view_of(m[j as int], users@.users),
                        ));
                    }
                    j = j + 1;
                }
                proof {
                    assert(page_slice(m, payload.page as int, payload.size as int) =~= m.subrange(
                        lo as int,
                        hi as int,
                    ));
                }
            }
        }
        proof {
            if items@.len() == 0 {
                let lo_spec = (payload.page - 1) * (payload.size as int);
                if lo_spec >= m.len() {
                    assert(page_slice(m, payload.page as int, payload.size as int) =~= Seq::<
                        TaskView,
                    >::empty());
                }
                assert(items@.map_values(|tm: TaskModel| tm@) =~= Seq::<TaskModelView>::empty());
            }
        }
        GetAllTasks { items, num_pages, size: payload.size, page: payload.page }
    }
}

/// Ownership isolation: a task owned by some other user is invisible — a
/// lookup of its id under a different identity yields nothing, so the read,
/// update and delete operations, whose outcomes are all governed by
/// `find_task_owned`, answer `NotFound` for it.
pub proof fn lemma_cross_owner_access_denied(v: TaskStoreView, i: int, uid: i32)
    requires
        task_store_wf(v),
        0 <= i < v.tasks.len(),
        v.tasks[i].user_id != uid,
    ensures
        find_task_owned(v.tasks, v.tasks[i].id, uid) is None,
{
    let id = v.tasks[i].id;
    lemma_task_index_of(v.tasks, id);
    let idx = task_index_of(v.tasks, id);
    if idx < i {
        assert(v.tasks[idx].id != v.tasks[i].id);
    }
    if idx > i {
        assert(v.tasks[i].id != id);
    }
    assert(idx == i);
}

/// Round trip: after an owner updates a task, the same owner's lookup finds
/// exactly the updated record — same id, same owner, new fields.
pub proof fn lemma_update_then_get(v: TaskStoreView, id: i32, uid: i32, nt: TaskView)
    requires
        task_store_wf(v),
        find_task_owned(v.tasks, id, uid) is Some,
        nt.id == id,
        nt.user_id == uid,
    ensures
        find_task_owned(
            v.tasks.update(task_index_of(v.tasks, id), nt),
            id,
            uid,
        ) == Option::Some(nt),
{
    lemma_task_index_of(v.tasks, id);
    let idx = task_index_of(v.tasks, id);
    let w = v.tasks.update(idx, nt);
    lemma_task_index_of(w, id);
    let idx2 = task_index_of(w, id);
    assert(w[idx].id == id);
    if idx2 < idx {
        assert(w[idx2] == v.tasks[idx2]);
        assert(v.tasks[idx2].id != id);
        assert(w[idx2].id != id);
    }
    if idx2 > idx {
        assert(w[idx].id != id);
    }
    assert(idx2 == idx);
}

} // verus!
