use task_api::handlers::{
    handle_create_task, handle_delete_task, handle_get_task, handle_health, handle_list_tasks,
    handle_not_found, handle_root, handle_update_task, internal_error, Body, MemoryUsage, Notice,
};
use task_api::models::{CreateTask, UpdateTask};
use task_api::routing::{parse_task_id, route, Method, Route};
use task_api::store::Store;

fn request(title: &str, description: &str) -> CreateTask {
    CreateTask { title: title.to_string(), description: description.to_string() }
}

fn full_update() -> UpdateTask {
    UpdateTask {
        title: Some("Updated Task".to_string()),
        description: Some("Updated Description".to_string()),
        completed: Some(true),
    }
}

#[test]
fn test_handle_root() {
    let reply = handle_root();
    assert_eq!(reply.status, 200);
    assert!(matches!(reply.body, Body::Message(Notice::Welcome)));
    assert_eq!(Notice::Welcome.text(), "Welcome to the Rust Web Server");
}

#[test]
fn test_handle_health() {
    let mem = MemoryUsage {
        total: 16,
        free: 8,
        available: 10,
        buffers: 1,
        cached: 2,
        swap_total: 4,
        swap_free: 3,
    };
    let reply = handle_health(mem);
    assert_eq!(reply.status, 200);
    match reply.body {
        Body::Health(m) => assert_eq!(m, mem),
        _ => panic!("expected the memory figures"),
    }
}

#[test]
fn test_handle_get_nonexistent_task() {
    let mut store = Store::new();
    let id = store.create_task(request("Test Task", "Test Description"));
    let reply = handle_get_task(&store, Some(id));
    assert_eq!(reply.status, 200);
    match reply.body {
        Body::Task(t) => {
            assert_eq!(t.id, id);
            assert_eq!(t.title, "Test Task");
            assert_eq!(t.description, "Test Description");
        }
        _ => panic!("expected a task"),
    }
}

#[test]
fn test_handle_get_task() {
    let store = Store::new();
    let r = route(Method::Get, "/tasks/nonexistent".as_bytes());
    assert_eq!(r, Route::GetTask(None));
    let reply = handle_get_task(&store, None);
    assert_eq!(reply.status, 400);
    assert!(matches!(reply.body, Body::Error(Notice::InvalidTaskId)));
    let reply = handle_get_task(&store, Some(42));
    assert_eq!(reply.status, 404);
    assert!(matches!(reply.body, Body::Error(Notice::TaskNotFound)));
    assert_eq!(Notice::TaskNotFound.text(), "Task not found");
}

#[test]
fn test_handle_create_task_invalid_body() {
    let mut store = Store::new();
    let reply = handle_create_task(&mut store, None);
    assert_eq!(reply.status, 400);
    assert!(matches!(reply.body, Body::Error(Notice::InvalidBody)));
    assert_eq!(Notice::InvalidBody.text(), "Invalid request body");
    assert!(store.list_tasks().is_empty());
}

#[test]
fn test_handle_create_task() {
    let mut store = Store::new();
    let reply = handle_create_task(&mut store, Some(request("Test Task", "Test Description")));
    assert_eq!(reply.status, 201);
    match reply.body {
        Body::Created { id, message } => {
            assert_eq!(id, 1);
            assert_eq!(message.text(), "Task created successfully");
        }
        _ => panic!("expected an id"),
    }
}

#[test]
fn test_handle_update_task() {
    let mut store = Store::new();
    let id = store.create_task(request("Test Task", "Test Description"));
    let r = route(Method::Put, format!("/tasks/{}", id).as_bytes());
    assert_eq!(r, Route::UpdateTask(Some(id)));
    let reply = handle_update_task(&mut store, Some(id), Some(full_update()));
    assert_eq!(reply.status, 200);
    assert!(matches!(reply.body, Body::Message(Notice::TaskUpdated)));
    assert_eq!(Notice::TaskUpdated.text(), "Task updated successfully");
    let t = store.get_task(id).unwrap();
    assert_eq!(t.title, "Updated Task");
    assert_eq!(t.description, "Updated Description");
    assert!(t.completed);
}

#[test]
fn test_handle_delete_task() {
    let mut store = Store::new();
    let id = store.create_task(request("Test Task", "Test Description"));
    let reply = handle_delete_task(&mut store, Some(id));
    assert_eq!(reply.status, 200);
    assert!(matches!(reply.body, Body::Message(Notice::TaskDeleted)));
    assert_eq!(Notice::TaskDeleted.text(), "Task deleted successfully");
    let reply = handle_delete_task(&mut store, Some(id));
    assert_eq!(reply.status, 404);
}

#[test]
fn test_handle_list_tasks() {
    let mut store = Store::new();
    store.create_task(request("Test Task 1", "Test Description 1"));
    store.create_task(request("Test Task 2", "Test Description 2"));
    let reply = handle_list_tasks(&store);
    assert_eq!(reply.status, 200);
    match reply.body {
        Body::Tasks(v) => assert_eq!(v.len(), 2),
        _ => panic!("expected tasks"),
    }
}

#[test]
fn test_invalid_task_id() {
    let mut store = Store::new();
    let id = parse_task_id("invalid".as_bytes());
    assert_eq!(id, None);
    let reply = handle_update_task(&mut store, id, Some(full_update()));
    assert_eq!(reply.status, 400);
    let reply = handle_delete_task(&mut store, id);
    assert_eq!(reply.status, 400);
    assert_eq!(Notice::InvalidTaskId.text(), "Invalid task ID");
}

#[test]
fn post_tasks_end_to_end() {
    let mut store = Store::new();
    assert_eq!(route(Method::Post, "/tasks".as_bytes()), Route::CreateTask);
    let reply = handle_create_task(&mut store, Some(request("T", "D")));
    assert_eq!(reply.status, 201);
    assert!(matches!(reply.body, Body::Created { id: 1, message: Notice::TaskCreated }));
}

#[test]
fn put_with_bad_id_end_to_end() {
    let mut store = Store::new();
    let r = route(Method::Put, "/tasks/abc".as_bytes());
    assert_eq!(r, Route::UpdateTask(None));
    let reply = handle_update_task(&mut store, None, None);
    assert_eq!(reply.status, 400);
    assert!(matches!(reply.body, Body::Error(Notice::InvalidTaskId)));
}

#[test]
fn unknown_path_end_to_end() {
    assert_eq!(route(Method::Get, "/unknown/path".as_bytes()), Route::NotFound);
    let reply = handle_not_found();
    assert_eq!(reply.status, 404);
    assert!(matches!(reply.body, Body::NotFound));
}

#[test]
fn absent_id_gives_not_found_on_every_operation() {
    let mut store = Store::new();
    let r = handle_get_task(&store, Some(999999));
    assert_eq!(r.status, 404);
    assert!(matches!(r.body, Body::Error(Notice::TaskNotFound)));
    let r = handle_update_task(&mut store, Some(999999), Some(full_update()));
    assert_eq!(r.status, 404);
    assert!(matches!(r.body, Body::Error(Notice::TaskNotFound)));
    let r = handle_delete_task(&mut store, Some(999999));
    assert_eq!(r.status, 404);
    assert!(matches!(r.body, Body::Error(Notice::TaskNotFound)));
}

#[test]
fn update_checks_id_before_body() {
    let mut store = Store::new();
    let id = store.create_task(request("T", "D"));
    let r = handle_update_task(&mut store, Some(id), None);
    assert_eq!(r.status, 400);
    assert!(matches!(r.body, Body::Error(Notice::InvalidBody)));
    let r = handle_update_task(&mut store, None, None);
    assert!(matches!(r.body, Body::Error(Notice::InvalidTaskId)));
}

#[test]
fn internal_error_is_generic() {
    let r = internal_error();
    assert_eq!(r.status, 500);
    assert!(matches!(r.body, Body::Error(Notice::Internal)));
    assert_eq!(Notice::Internal.text(), "Internal Server Error");
}

#[test]
fn routes_of_the_dispatch_table() {
    assert_eq!(route(Method::Get, "/".as_bytes()), Route::Root);
    assert_eq!(route(Method::Get, "/health".as_bytes()), Route::Health);
    assert_eq!(route(Method::Get, "/tasks".as_bytes()), Route::ListTasks);
    assert_eq!(route(Method::Get, "/tasks/12".as_bytes()), Route::GetTask(Some(12)));
    assert_eq!(route(Method::Delete, "/tasks/3".as_bytes()), Route::DeleteTask(Some(3)));
    assert_eq!(route(Method::Post, "/".as_bytes()), Route::NotFound);
    assert_eq!(route(Method::Put, "/tasks".as_bytes()), Route::NotFound);
    assert_eq!(route(Method::Put, "/tasks/".as_bytes()), Route::NotFound);
    assert_eq!(route(Method::Post, "/tasks/1".as_bytes()), Route::NotFound);
    assert_eq!(route(Method::Other, "/tasks/1".as_bytes()), Route::NotFound);
    assert_eq!(route(Method::Get, "/healthz".as_bytes()), Route::NotFound);
    assert_eq!(route(Method::Get, "/tasks/1/2".as_bytes()), Route::GetTask(None));
}

#[test]
fn task_ids_parse_as_unsigned_64_bit_integers() {
    assert_eq!(parse_task_id("0".as_bytes()), Some(0));
    assert_eq!(parse_task_id("+17".as_bytes()), Some(17));
    assert_eq!(parse_task_id("007".as_bytes()), Some(7));
    assert_eq!(parse_task_id("18446744073709551615".as_bytes()), Some(u64::MAX));
    assert_eq!(parse_task_id("18446744073709551616".as_bytes()), None);
    assert_eq!(parse_task_id("99999999999999999999x".as_bytes()), None);
    assert_eq!(parse_task_id("".as_bytes()), None);
    assert_eq!(parse_task_id("+".as_bytes()), None);
    assert_eq!(parse_task_id("-1".as_bytes()), None);
    assert_eq!(parse_task_id("1 ".as_bytes()), None);
    for s in ["0", "+17", "007", "18446744073709551615", "18446744073709551616", "-1", "", "+", "++1", "1a"] {
        assert_eq!(parse_task_id(s.as_bytes()), s.parse::<u64>().ok(), "{}", s);
    }
}

#[test]
fn only_the_unknown_route_reply_is_plain_text() {
    assert!(!handle_not_found().is_json());
    assert!(handle_root().is_json());
    assert!(internal_error().is_json());
}
