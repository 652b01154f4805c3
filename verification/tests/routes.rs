//! The route cores end to end: envelope statuses and the full scenario.

use task_api::routes::{
    create_task, delete_task, get_task, get_tasks, me, ping_route, sign_in, sign_up,
    update_task, validate_min_params, FilterTasks, ManageTodo, SignInPayload,
};
use task_api::task::{TaskMutation, TaskPayload, TaskStore};
use task_api::token::authorize;
use task_api::user::UserStore;

const SECRET: &str = "unit-test-signing-secret";

fn credentials(username: &str, password: &str) -> SignInPayload {
    SignInPayload { username: username.to_string(), password: password.to_string() }
}

fn todo(name: &str, description: &str, is_active: bool) -> ManageTodo {
    ManageTodo { name: name.to_string(), description: description.to_string(), is_active }
}

#[test]
fn end_to_end_scenario() {
    let mut users = UserStore::new();
    let mut tasks = TaskStore::new();
    let now: u64 = 1_000;

    // Sign up alice.
    let r = sign_up(&mut users, credentials("alice", "secret1"));
    assert_eq!(r.status, 200);
    let alice = r.data.unwrap();

    // Sign in alice.
    let r = sign_in(&users, credentials("alice", "secret1"), SECRET, now);
    assert_eq!(r.status, 200);
    let session = r.data.unwrap();
    assert_eq!(session.token_type, "Bearer");
    assert_eq!(session.user_id, alice.id);

    // Authenticate with the issued token, as a transport layer would.
    let header = format!("Bearer {}", session.token);
    let jwt = authorize(Some(header.as_str()), SECRET, now + 1).unwrap();
    assert_eq!(jwt.claims.sub, alice.id);

    // Create a task with that identity.
    let r = create_task(&mut tasks, jwt, todo("Buy milk", "2% milk, 1 gallon", false));
    assert_eq!(r.status, 200);
    let task = r.data.unwrap();
    assert_eq!(task.id, 1);
    assert_eq!(task.user_id, alice.id);
    assert!(!task.is_active);

    // Read it back with the owner's token: task plus owner projection.
    let r = get_task(&tasks, &users, 1, jwt);
    assert_eq!(r.status, 200);
    let model = r.data.unwrap();
    assert_eq!(model.id, 1);
    assert_eq!(model.name, "Buy milk");
    let owner = model.user.unwrap();
    assert_eq!(owner.id, alice.id);
    assert_eq!(owner.username, "alice");

    // A different user's token sees it as missing.
    let r = sign_up(&mut users, credentials("bobby", "secret2"));
    assert_eq!(r.status, 200);
    let r = sign_in(&users, credentials("bobby", "secret2"), SECRET, now);
    let bob_session = r.data.unwrap();
    let bob_header = format!("Bearer {}", bob_session.token);
    let bob_jwt = authorize(Some(bob_header.as_str()), SECRET, now + 1).unwrap();
    let r = get_task(&tasks, &users, 1, bob_jwt);
    assert_eq!(r.status, 404);
    assert!(r.data.is_none());
}

#[test]
fn me_lists_the_profile_with_owned_tasks() {
    let mut users = UserStore::new();
    let mut tasks = TaskStore::new();
    let r = sign_up(&mut users, credentials("alice", "secret1"));
    let alice = r.data.unwrap();
    let jwt = {
        let r = sign_in(&users, credentials("alice", "secret1"), SECRET, 1_000);
        let session = r.data.unwrap();
        authorize(Some(session.token.as_str()), SECRET, 1_001).unwrap()
    };
    create_task(&mut tasks, jwt, todo("Buy milk", "2% milk, 1 gallon", false));
    create_task(&mut tasks, jwt, todo("Walk dog", "around the block", true));
    // Another owner's task stays out of the profile.
    TaskMutation::create(
        &mut tasks,
        TaskPayload {
            name: "Not mine".to_string(),
            description: "someone else's".to_string(),
            is_active: false,
            user_id: alice.id + 1,
        },
    )
    .unwrap();

    let r = me(&users, &tasks, jwt);
    assert_eq!(r.status, 200);
    let profile = r.data.unwrap();
    assert_eq!(profile.id, alice.id);
    assert_eq!(profile.username, "alice");
    assert_eq!(profile.tasks.len(), 2);
    assert_eq!(profile.tasks[0].name, "Buy milk");
    assert_eq!(profile.tasks[1].name, "Walk dog");
}

#[test]
fn me_with_unknown_subject_answers_401() {
    let users = UserStore::new();
    let tasks = TaskStore::new();
    let jwt = task_api::token::JWT {
        claims: task_api::token::Claims { sub: 42, exp: 9_999 },
    };
    let r = me(&users, &tasks, jwt);
    assert_eq!(r.status, 401);
    assert!(r.data.is_none());
}

#[test]
fn update_route_statuses() {
    let mut tasks = TaskStore::new();
    let jwt = task_api::token::JWT {
        claims: task_api::token::Claims { sub: 1, exp: 9_999 },
    };
    let r = create_task(&mut tasks, jwt, todo("Buy milk", "2% milk, 1 gallon", false));
    let id = r.data.unwrap().id;

    // Validation failures answer 400 and change nothing.
    let r = update_task(&mut tasks, jwt, todo("x", "2% milk, 1 gallon", false), id);
    assert_eq!(r.status, 400);

    // A missing task answers 404.
    let r = update_task(&mut tasks, jwt, todo("Buy bread", "whole grain, sliced", true), 999);
    assert_eq!(r.status, 404);

    // The owner updates successfully.
    let r = update_task(&mut tasks, jwt, todo("Buy bread", "whole grain, sliced", true), id);
    assert_eq!(r.status, 200);
    let t = r.data.unwrap();
    assert_eq!(t.name, "Buy bread");
    assert_eq!(t.user_id, 1);

    // A stranger's update answers 404, not 403.
    let stranger = task_api::token::JWT {
        claims: task_api::token::Claims { sub: 2, exp: 9_999 },
    };
    let r = update_task(&mut tasks, stranger, todo("Hijack", "should not happen", false), id);
    assert_eq!(r.status, 404);
}

#[test]
fn delete_route_statuses() {
    let mut tasks = TaskStore::new();
    let jwt = task_api::token::JWT {
        claims: task_api::token::Claims { sub: 1, exp: 9_999 },
    };
    let r = create_task(&mut tasks, jwt, todo("Buy milk", "2% milk, 1 gallon", false));
    let id = r.data.unwrap().id;

    let stranger = task_api::token::JWT {
        claims: task_api::token::Claims { sub: 2, exp: 9_999 },
    };
    let r = delete_task(&mut tasks, id, stranger);
    assert_eq!(r.status, 404);
    assert_eq!(r.data, 0);

    let r = delete_task(&mut tasks, id, jwt);
    assert_eq!(r.status, 200);
    assert_eq!(r.data, 1);

    let r = delete_task(&mut tasks, id, jwt);
    assert_eq!(r.status, 404);
}

#[test]
fn create_route_validates() {
    let mut tasks = TaskStore::new();
    let jwt = task_api::token::JWT {
        claims: task_api::token::Claims { sub: 1, exp: 9_999 },
    };
    let r = create_task(&mut tasks, jwt, todo(" x ", "2% milk, 1 gallon", false));
    assert_eq!(r.status, 400);
    assert!(r.data.is_none());
}

#[test]
fn list_route_defaults_and_validation() {
    let mut tasks = TaskStore::new();
    let users = UserStore::new();
    let jwt = task_api::token::JWT {
        claims: task_api::token::Claims { sub: 1, exp: 9_999 },
    };
    for i in 0..12 {
        create_task(
            &mut tasks,
            jwt,
            todo(&format!("Task {}", i), "a valid description", false),
        );
    }

    // Defaults: page 1, size 10.
    let r = get_tasks(&tasks, &users, jwt, FilterTasks { page: None, size: None, query: None });
    assert_eq!(r.status, 200);
    let g = r.data.unwrap();
    assert_eq!(g.page, 1);
    assert_eq!(g.size, 10);
    assert_eq!(g.num_pages, 2);
    assert_eq!(g.items.len(), 10);

    // A page or size below 1 answers 400.
    let r = get_tasks(
        &tasks,
        &users,
        jwt,
        FilterTasks { page: Some(0), size: None, query: None },
    );
    assert_eq!(r.status, 400);
    let r = get_tasks(
        &tasks,
        &users,
        jwt,
        FilterTasks { page: None, size: Some(-3), query: None },
    );
    assert_eq!(r.status, 400);
}

#[test]
fn validate_min_params_accepts_only_positive_values() {
    assert!(validate_min_params(&None, "page".to_string()).is_ok());
    assert!(validate_min_params(&Some(1), "page".to_string()).is_ok());
    assert!(validate_min_params(&Some(10), "size".to_string()).is_ok());
    assert_eq!(validate_min_params(&Some(0), "page".to_string()).unwrap_err(), "page");
    assert_eq!(validate_min_params(&Some(-7), "size".to_string()).unwrap_err(), "size");
}

#[test]
fn ping_route_reports_the_task_count() {
    let mut tasks = TaskStore::new();
    let jwt = task_api::token::JWT {
        claims: task_api::token::Claims { sub: 1, exp: 9_999 },
    };
    create_task(&mut tasks, jwt, todo("Buy milk", "2% milk, 1 gallon", false));
    create_task(&mut tasks, jwt, todo("Walk dog", "around the block", true));

    let r = ping_route(&tasks, true, "12 Mb".to_string());
    assert_eq!(r.status, 200);
    assert!(r.data.db_status);
    assert_eq!(r.data.tasks_total, 2);
    assert_eq!(r.data.memory_usage, "12 Mb");

    let r = ping_route(&tasks, false, "13 Mb".to_string());
    assert!(!r.data.db_status);
}
