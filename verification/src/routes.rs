//! The route cores: plain-value functions that validate request payloads,
//! run the service operations, and wrap each outcome in the response
//! envelope with its numeric HTTP status. The transport layer around them
//! only parses requests into these payloads and serialises the envelopes.

use vstd::prelude::*;

use crate::error::ServiceError;
use crate::task::{
    GetAllTasks, PaginationPayload, Task, TaskModel, TaskMutation, TaskPayload, TaskQueries,
    TaskStore, TaskView, effective_query, find_task_owned, matching_tasks, model_view_of,
    owned_by, page_slice, spec_num_pages, task_index_of, task_store_wf, valid_description,
    valid_name,
};
use crate::text::trim_spec;
use crate::token::JWT;
use crate::user::{
    SignIn, UserModel, UserMutations, UserPublic, UserQueries, UserStore, UserView, find_user,
    find_user_by_id, pw_matches, user_store_wf, username_taken,
};

verus! {

/// The response envelope: every response body is an optional message, the
/// numeric HTTP status, and the data.
pub struct ResponseRequest<T> {
    /// A human-readable note, when one is worth sending.
    pub message: Option<String>,
    /// The HTTP status the transport layer should answer with.
    pub status: u16,
    /// The payload.
    pub data: T,
}

/// Form payload for sign-up and sign-in.
pub struct SignInPayload {
    pub username: String,
    pub password: String,
}

/// Username and password must each have at least 5 characters.
pub open spec fn valid_credentials(username: Seq<char>, password: Seq<char>) -> bool {
    username.len() >= 5 && password.len() >= 5
}

/// Form payload for creating or updating a task.
pub struct ManageTodo {
    /// The task name; 2 to 20 characters after trimming.
    pub name: String,
    /// The task description; 5 to 200 characters after trimming.
    pub description: String,
    /// Whether the task is active; callers default it to false.
    pub is_active: bool,
}

/// Query parameters for listing tasks.
pub struct FilterTasks {
    /// 1-indexed page; absent means 1.
    pub page: Option<i32>,
    /// Rows per page; absent means 10.
    pub size: Option<i32>,
    /// Optional case-sensitive substring filter on the task name.
    pub query: Option<String>,
}

/// Validates that an optional page or size parameter, when present, is at
/// least 1. On failure the offending field's name is handed back for the
/// transport layer to phrase its message around.
pub fn validate_min_params(value: &Option<i32>, field_name: String) -> (r: Result<(), String>)
    ensures
        r is Ok <==> (match *value {
            Option::Some(v) => v >= 1,
            Option::None => true,
        }),
        r matches Err(f) ==> f@ == field_name@,
{
    if let Option::Some(v) = value {
        if *v < 1 {
            return Result::Err(field_name);
        }
    }
    Result::Ok(())
}

/// Sign-up: validates the payload lengths, then registers the user. A
/// duplicate username never succeeds, whatever the password, and answers
/// 401; the created user is echoed without any password material.
pub fn sign_up(store: &mut UserStore, payload: SignInPayload) -> (r: ResponseRequest<
    Option<UserPublic>,
>)
    requires
        user_store_wf(old(store)@),
    ensures
        user_store_wf(final(store)@),
        r.status == 200 || r.status == 400 || r.status == 401 || r.status == 500,
        (r.status == 400 <==> !valid_credentials(payload.username@, payload.password@)),
        (r.status == 401 <==> valid_credentials(payload.username@, payload.password@)
            && username_taken(old(store)@.users, payload.username@)),
        username_taken(old(store)@.users, payload.username@) ==> r.status != 200,
        r.status != 200 ==> final(store)@ == old(store)@,
        (r.status == 200 <==> r.data is Some),
        r.data matches Some(p) ==> {
            &&& p@.id == old(store)@.next_id
            &&& p@.username == payload.username@
            &&& final(store)@.next_id == old(store)@.next_id + 1
            &&& exists|u: UserView|
                {
                    &&& #[trigger] final(store)@.users == old(store)@.users.push(u)
                    &&& u.id == old(store)@.next_id
                    &&& u.username == payload.username@
                    &&& pw_matches(payload.password@, u.password)
                }
        },
{
    if payload.username.as_str().unicode_len() < 5 || payload.password.as_str().unicode_len() < 5 {
        return ResponseRequest {
            message: Option::Some("The username and password must be at least 5 characters long.".to_owned()),
            status: 400,
            data: Option::None,
        };
    }
    let ghost pw = payload.password@;
    match UserMutations::create(store, payload.username, payload.password) {
        Result::Ok(u) => {
            proof {
                assert(final(store)@.users == old(store)@.users.push(u@) && u@.id == old(
                    store,
                )@.next_id && pw_matches(pw, u@.password));
            }
            ResponseRequest {
                message: Option::Some("Sign up successful".to_owned()),
                status: 200,
                data: Option::Some(UserPublic { id: u.id, username: u.username }),
            }
        },
        Result::Err(e) => {
            let status = if matches!(e, ServiceError::Conflict) {
                401
            } else {
                500
            };
            ResponseRequest {
                message: Option::Some("Sign up failed".to_owned()),
                status,
                data: Option::None,
            }
        },
    }
}

/// Sign-in: validates the payload lengths, then checks the credentials and
/// issues a bearer token. Succeeds exactly when a user bears the username
/// and the password matches that user's stored digest.
pub fn sign_in(store: &UserStore, payload: SignInPayload, secret: &str, now: u64) -> (r:
    ResponseRequest<Option<SignIn>>)
    requires
        user_store_wf(store@),
        now + crate::token::TOKEN_DURATION_SECS <= u64::MAX,
    ensures
        r.status == 200 || r.status == 400 || r.status == 401,
        (r.status == 400 <==> !valid_credentials(payload.username@, payload.password@)),
        (r.status == 200 <==> valid_credentials(payload.username@, payload.password@) && (find_user(
            store@.users,
            payload.username@,
        ) matches Option::Some(u) && pw_matches(payload.password@, u.password))),
        (r.status == 200 <==> r.data is Some),
        r.data matches Some(s) ==> {
            &&& find_user(store@.users, payload.username@) matches Option::Some(u)
            &&& s.user_id == u.id
            &&& s.username@ == u.username
            &&& s.token@ == crate::token::jwt_token(
                secret@,
                u.id,
                (now + crate::token::TOKEN_DURATION_SECS) as u64,
            )
            &&& s.token_type@ == "Bearer"@
        },
{
    if payload.username.as_str().unicode_len() < 5 || payload.password.as_str().unicode_len() < 5 {
        return ResponseRequest {
            message: Option::Some("The username and password must be at least 5 characters long.".to_owned()),
            status: 400,
            data: Option::None,
        };
    }
    match UserMutations::sign_in(store, payload.username, payload.password, secret, now) {
        Result::Ok(s) => ResponseRequest {
            message: Option::Some("Sign in successful".to_owned()),
            status: 200,
            data: Option::Some(s),
        },
        Result::Err(_) => ResponseRequest {
            message: Option::Some("Cannot find an user with these credentials.".to_owned()),
            status: 401,
            data: Option::None,
        },
    }
}

/// The current user's profile: id, username and owned tasks; answers 401
/// when the token's subject is no longer on record.
pub fn me(users: &UserStore, tasks: &TaskStore, user: JWT) -> (r: ResponseRequest<
    Option<UserModel>,
>)
    ensures
        r.status == 200 || r.status == 401,
        (r.status == 200 <==> find_user_by_id(users@.users, user.claims.sub) is Some),
        (r.status == 200 <==> r.data is Some),
        r.data matches Some(m) ==> {
            &&& find_user_by_id(users@.users, user.claims.sub) matches Option::Some(u)
            &&& m.id == u.id
            &&& m.username@ == u.username
            &&& m.tasks@.map_values(|t: Task| t@) == tasks@.tasks.filter(owned_by(u.id))
        },
{
    match UserQueries::get_current_user(user, users, tasks) {
        Result::Ok(m) => ResponseRequest {
            message: Option::None,
            status: 200,
            data: Option::Some(m),
        },
        Result::Err(_) => ResponseRequest {
            message: Option::Some("Cannot find the current user.".to_owned()),
            status: 401,
            data: Option::None,
        },
    }
}

/// Creates a task owned by the authenticated user: trims and validates the
/// form fields, then stores the record under a fresh id.
pub fn create_task(store: &mut TaskStore, user: JWT, todo: ManageTodo) -> (r: ResponseRequest<
    Option<Task>,
>)
    requires
        task_store_wf(old(store)@),
    ensures
        task_store_wf(final(store)@),
        r.status == 200 || r.status == 400 || r.status == 500,
        (r.status == 400 <==> !(valid_name(trim_spec(todo.name@)) && valid_description(
            trim_spec(todo.description@),
        ))),
        (r.status == 200 <==> valid_name(trim_spec(todo.name@)) && valid_description(
            trim_spec(todo.description@),
        ) && old(store)@.next_id < i32::MAX),
        (r.status == 200 <==> r.data is Some),
        r.status != 200 ==> final(store)@ == old(store)@,
        r.data matches Some(t) ==> {
            &&& t@.id == old(store)@.next_id
            &&& t@.name == trim_spec(todo.name@)
            &&& t@.description == trim_spec(todo.description@)
            &&& t@.is_active == todo.is_active
            &&& t@.user_id == user.claims.sub
            &&& final(store)@.tasks == old(store)@.tasks.push(t@)
            &&& final(store)@.next_id == old(store)@.next_id + 1
        },
{
    let payload = TaskPayload {
        name: todo.name,
        description: todo.description,
        is_active: todo.is_active,
        user_id: user.claims.sub,
    };
    match TaskMutation::create(store, payload) {
        Result::Ok(t) => ResponseRequest {
            message: Option::Some("Task created successfully".to_owned()),
            status: 200,
            data: Option::Some(t),
        },
        Result::Err(e) => {
            let status = if matches!(e, ServiceError::Validation) {
                400
            } else {
                500
            };
            ResponseRequest {
                message: Option::Some("Failed to create task".to_owned()),
                status,
                data: Option::None,
            }
        },
    }
}

/// Updates the task with id `id` on behalf of the authenticated user. A
/// task that does not exist or belongs to someone else answers 404; the
/// owner recorded on the task never changes.
pub fn update_task(store: &mut TaskStore, user: JWT, todo: ManageTodo, id: i32) -> (r:
    ResponseRequest<Option<Task>>)
    requires
        task_store_wf(old(store)@),
    ensures
        task_store_wf(final(store)@),
        r.status == 200 || r.status == 400 || r.status == 404,
        (r.status == 400 <==> !(valid_name(trim_spec(todo.name@)) && valid_description(
            trim_spec(todo.description@),
        ))),
        (r.status == 200 <==> valid_name(trim_spec(todo.name@)) && valid_description(
            trim_spec(todo.description@),
        ) && find_task_owned(old(store)@.tasks, id, user.claims.sub) is Some),
        (r.status == 200 <==> r.data is Some),
        r.status != 200 ==> final(store)@ == old(store)@,
        r.data matches Some(t) ==> {
            &&& find_task_owned(old(store)@.tasks, id, user.claims.sub) matches Option::Some(ot)
            &&& t@.id == id
            &&& t@.user_id == ot.user_id
            &&& t@.name == trim_spec(todo.name@)
            &&& t@.description == trim_spec(todo.description@)
            &&& t@.is_active == todo.is_active
            &&& final(store)@.tasks == old(store)@.tasks.update(
                task_index_of(old(store)@.tasks, id),
                t@,
            )
            &&& final(store)@.next_id == old(store)@.next_id
        },
{
    let payload = TaskPayload {
        name: todo.name,
        description: todo.description,
        is_active: todo.is_active,
        user_id: user.claims.sub,
    };
    match TaskMutation::update(store, payload, id) {
        Result::Ok(t) => ResponseRequest {
            message: Option::Some("Task updated successfully".to_owned()),
            status: 200,
            data: Option::Some(t),
        },
        Result::Err(e) => {
            let status = if matches!(e, ServiceError::Validation) {
                400
            } else {
                404
            };
            ResponseRequest {
                message: Option::Some("Failed to update task".to_owned()),
                status,
                data: Option::None,
            }
        },
    }
}

/// Deletes the task with id `id` on behalf of the authenticated user,
/// reporting how many records were removed. A task that does not exist or
/// belongs to someone else answers 404.
pub fn delete_task(store: &mut TaskStore, id: i32, user: JWT) -> (r: ResponseRequest<u64>)
    requires
        task_store_wf(old(store)@),
    ensures
        task_store_wf(final(store)@),
        r.status == 200 || r.status == 404,
        (r.status == 200 <==> find_task_owned(old(store)@.tasks, id, user.claims.sub) is Some),
        r.status == 200 ==> r.data == 1 && final(store)@.tasks == old(store)@.tasks.remove(
            task_index_of(old(store)@.tasks, id),
        ) && final(store)@.next_id == old(store)@.next_id,
        r.status == 404 ==> r.data == 0 && final(store)@ == old(store)@,
{
    match TaskMutation::delete(store, id, user.claims.sub) {
        Result::Ok(n) => ResponseRequest {
            message: Option::Some("Task deleted successfully".to_owned()),
            status: 200,
            data: n,
        },
        Result::Err(_) => ResponseRequest {
            message: Option::Some("Failed to delete the task".to_owned()),
            status: 404,
            data: 0,
        },
    }
}

/// Lists one page of the authenticated user's tasks. Page and size default
/// to 1 and 10 and must each be at least 1; a page past the last yields an
/// empty list, not an error.
pub fn get_tasks(tasks: &TaskStore, users: &UserStore, user: JWT, filter: FilterTasks) -> (r:
    ResponseRequest<Option<GetAllTasks>>)
    ensures
        r.status == 200 || r.status == 400,
        (r.status == 400 <==> ((filter.page matches Some(p) && p < 1) || (filter.size
            matches Some(s) && s < 1))),
        (r.status == 200 <==> r.data is Some),
        r.data matches Some(g) ==> ({
            let page = match filter.page {
                Option::Some(p) => p as int,
                Option::None => 1,
            };
            let size = match filter.size {
                Option::Some(s) => s as int,
                Option::None => 10,
            };
            let q = effective_query(filter.query);
            let m = matching_tasks(tasks@.tasks, user.claims.sub, q);
            &&& g.page == page
            &&& g.size == size
            &&& g.num_pages == spec_num_pages(m.len() as int, size)
            &&& g.items@.map_values(|tm: TaskModel| tm@) == page_slice(m, page, size).map_values(
                |t: TaskView| model_view_of(t, users@.users),
            )
            &&& g.items@.len() <= size
            &&& (page - 1) * size >= m.len() ==> g.items@.len() == 0
        }),
{
    if validate_min_params(&filter.page, "page".to_owned()).is_err() || validate_min_params(
        &filter.size,
        "size".to_owned(),
    ).is_err() {
        return ResponseRequest {
            message: Option::Some("The page and size numbers must be greater than 0.".to_owned()),
            status: 400,
            data: Option::None,
        };
    }
    let page: i32 = match filter.page {
        Option::Some(p) => p,
        Option::None => 1,
    };
    let size: i32 = match filter.size {
        Option::Some(s) => s,
        Option::None => 10,
    };
    let payload = PaginationPayload {
        page: page as u64,
        size: size as u64,
        query: filter.query,
        user_id: user.claims.sub,
    };
    let g = TaskQueries::get_tasks(tasks, users, payload);
    ResponseRequest { message: Option::None, status: 200, data: Option::Some(g) }
}

/// A single task with its owner attached, as seen by the authenticated
/// user. A task that does not exist or belongs to someone else answers 404.
pub fn get_task(tasks: &TaskStore, users: &UserStore, id: i32, user: JWT) -> (r: ResponseRequest<
    Option<TaskModel>,
>)
    ensures
        r.status == 200 || r.status == 404,
        (r.status == 200 <==> find_task_owned(tasks@.tasks, id, user.claims.sub) is Some),
        (r.status == 200 <==> r.data is Some),
        r.data matches Some(m) ==> {
            &&& find_task_owned(tasks@.tasks, id, user.claims.sub) matches Option::Some(t)
            &&& m@ == model_view_of(t, users@.users)
        },
{
    match TaskQueries::get_task_by_id(tasks, users, id, user.claims.sub) {
        Result::Ok(m) => ResponseRequest {
            message: Option::None,
            status: 200,
            data: Option::Some(m),
        },
        Result::Err(_) => ResponseRequest {
            message: Option::Some("Task not found.".to_owned()),
            status: 404,
            data: Option::None,
        },
    }
}

/// The liveness payload: database reachability, the task count over all
/// owners, and the process memory label the caller measured.
pub struct PingApi {
    /// Whether the last database ping succeeded.
    pub db_status: bool,
    /// How many tasks the store holds, over all owners.
    pub tasks_total: usize,
    /// The process memory usage, already formatted by the caller.
    pub memory_usage: String,
}

/// The liveness route: echoes database reachability and memory usage and
/// counts the stored tasks; always answers 200.
pub fn ping_route(tasks: &TaskStore, db_status: bool, memory_usage: String) -> (r: ResponseRequest<
    PingApi,
>)
    ensures
        r.status == 200,
        r.data.db_status == db_status,
        r.data.tasks_total == tasks@.tasks.len(),
        r.data.memory_usage@ == memory_usage@,
{
    ResponseRequest {
        message: Option::None,
        status: 200,
        data: PingApi { db_status, tasks_total: tasks.count(), memory_usage },
    }
}

} // verus!
