use todo_service::handler::{
    create_todo_handler, create_todo_with, delete_todo_handler, edit_todo_at, edit_todo_handler,
    get_todo_handler, health_checker_handler, todos_list_handler,
};
use todo_service::model::{QueryOptions, Timestamp, Todo, UpdateTodoSchema};
use todo_service::response::{
    STATUS_CONFLICT, STATUS_CREATED, STATUS_NOT_FOUND, STATUS_NO_CONTENT, STATUS_OK,
};
use todo_service::store::{todo_db, TodoStore};

fn request(title: &str, content: &str) -> Todo {
    Todo {
        id: None,
        title: title.to_string(),
        content: content.to_string(),
        completed: None,
        createdAt: None,
        updatedAt: None,
    }
}

fn at(secs: i64) -> Timestamp {
    Timestamp { secs, nanos: 0 }
}

fn bits_of(todo: &Todo) -> u128 {
    uuid::Uuid::parse_str(todo.id.as_ref().unwrap()).unwrap().as_u128()
}

fn filled(n: u128) -> TodoStore {
    let mut db = todo_db();
    for k in 1..=n {
        let r = create_todo_with(&mut db, request(&format!("T{}", k), "c"), k, at(k as i64));
        assert!(r.is_ok());
    }
    db
}

fn titles(todos: &[Todo]) -> Vec<String> {
    todos.iter().map(|t| t.title.clone()).collect()
}

#[test]
fn health_check_is_fixed() {
    let r = health_checker_handler();
    assert_eq!(r.status, "success");
    assert_eq!(r.message, "Build Simple CRUD API in Rust using Axum");
}

#[test]
fn end_to_end() {
    let mut db = todo_db();
    let (code, created) = create_todo_handler(&mut db, request("A", "x")).unwrap();
    assert_eq!(code, STATUS_CREATED);
    assert_eq!(created.status, "success");
    let todo = created.data.todo;
    assert!(todo.id.is_some());
    assert_eq!(todo.title, "A");
    assert_eq!(todo.content, "x");
    assert_eq!(todo.completed, Some(false));
    assert!(todo.createdAt.is_some());
    assert_eq!(todo.createdAt, todo.updatedAt);
    let id = bits_of(&todo);

    let (code, fetched) = get_todo_handler(id, &db).unwrap();
    assert_eq!(code, STATUS_OK);
    assert_eq!(fetched.status, "success");
    assert_eq!(fetched.data.todo, todo);

    let patch = UpdateTodoSchema { title: Some("B".to_string()), content: None, completed: None };
    let (code, edited) = edit_todo_handler(id, &mut db, patch).unwrap();
    assert_eq!(code, STATUS_OK);
    assert_eq!(edited.data.todo.title, "B");
    assert_eq!(edited.data.todo.content, "x");
    assert_eq!(edited.data.todo.id, todo.id);
    assert_eq!(edited.data.todo.completed, Some(false));
    assert_eq!(edited.data.todo.createdAt, todo.createdAt);

    assert_eq!(delete_todo_handler(id, &mut db), Ok(STATUS_NO_CONTENT));
    assert_eq!(db.len(), 0);

    let (code, failure) = get_todo_handler(id, &db).unwrap_err();
    assert_eq!(code, STATUS_NOT_FOUND);
    assert_eq!(failure.status, "fail");
}

#[test]
fn pagination_of_fifteen() {
    let db = filled(15);
    let second = todos_list_handler(Some(QueryOptions { page: Some(2), limit: Some(10) }), &db);
    assert_eq!(second.status, "success");
    assert_eq!(second.results, 5);
    assert_eq!(titles(&second.todos), vec!["T11", "T12", "T13", "T14", "T15"]);

    let first = todos_list_handler(None, &db);
    assert_eq!(first.results, 10);
    assert_eq!(
        titles(&first.todos),
        vec!["T1", "T2", "T3", "T4", "T5", "T6", "T7", "T8", "T9", "T10"]
    );
    let defaults = todos_list_handler(Some(QueryOptions::default()), &db);
    assert_eq!(defaults.todos, first.todos);
}

#[test]
fn pagination_edges() {
    let db = filled(7);
    let page = |p: usize, l: usize| {
        todos_list_handler(Some(QueryOptions { page: Some(p), limit: Some(l) }), &db)
    };
    assert_eq!(titles(&page(1, 3).todos), vec!["T1", "T2", "T3"]);
    assert_eq!(titles(&page(2, 3).todos), vec!["T4", "T5", "T6"]);
    assert_eq!(titles(&page(3, 3).todos), vec!["T7"]);
    assert_eq!(page(4, 3).results, 0);
    assert_eq!(page(1, 0).results, 0);
    assert_eq!(page(5, 0).results, 0);
    assert_eq!(page(1, 7).results, 7);
    assert_eq!(page(1, usize::MAX).results, 7);
    assert_eq!(page(2, usize::MAX).results, 0);
    assert_eq!(page(usize::MAX, usize::MAX).results, 0);
    assert_eq!(page(usize::MAX, 1).results, 0);
    let only_limit = todos_list_handler(Some(QueryOptions { page: None, limit: Some(2) }), &db);
    assert_eq!(titles(&only_limit.todos), vec!["T1", "T2"]);
    let only_page = todos_list_handler(Some(QueryOptions { page: Some(2), limit: None }), &db);
    assert_eq!(only_page.results, 0);
    let empty = todo_db();
    assert_eq!(todos_list_handler(None, &empty).results, 0);
}

#[test]
fn list_returns_whole_records() {
    let mut db = todo_db();
    let (_, a) = create_todo_with(&mut db, request("A", "x"), 1, at(10)).unwrap();
    let (_, b) = create_todo_with(&mut db, request("B", "y"), 2, at(20)).unwrap();
    let all = todos_list_handler(None, &db);
    assert_eq!(all.results, 2);
    assert_eq!(all.todos, vec![a.data.todo, b.data.todo]);
}

#[test]
fn create_with_given_id_and_time() {
    let mut db = todo_db();
    let now = Timestamp { secs: 1_700_000_000, nanos: 123_456_789 };
    let id = 0xa1a2a3a4_b1b2_c1c2_d1d2_d3d4d5d6d7d8u128;
    let (code, r) = create_todo_with(&mut db, request("A", "x"), id, now).unwrap();
    assert_eq!(code, 201);
    assert_eq!(
        r.data.todo,
        Todo {
            id: Some("a1a2a3a4-b1b2-c1c2-d1d2-d3d4d5d6d7d8".to_string()),
            title: "A".to_string(),
            content: "x".to_string(),
            completed: Some(false),
            createdAt: Some(now),
            updatedAt: Some(now),
        }
    );
    assert_eq!(db.len(), 1);
    assert_eq!(db.record(0), r.data.todo);
}

#[test]
fn create_overwrites_server_fields() {
    let mut db = todo_db();
    let body = Todo {
        id: Some("mine".to_string()),
        title: "A".to_string(),
        content: "x".to_string(),
        completed: Some(true),
        createdAt: Some(at(1)),
        updatedAt: Some(at(2)),
    };
    let (_, r) = create_todo_with(&mut db, body, 7, at(50)).unwrap();
    let todo = r.data.todo;
    assert_eq!(todo.id.as_deref(), Some("00000000-0000-0000-0000-000000000007"));
    assert_eq!(todo.completed, Some(false));
    assert_eq!(todo.createdAt, Some(at(50)));
    assert_eq!(todo.updatedAt, Some(at(50)));
}

#[test]
fn create_twice_same_title_conflicts() {
    let mut db = todo_db();
    let (code, _) = create_todo_handler(&mut db, request("A", "first")).unwrap();
    assert_eq!(code, STATUS_CREATED);
    let (code, failure) = create_todo_handler(&mut db, request("A", "second")).unwrap_err();
    assert_eq!(code, STATUS_CONFLICT);
    assert_eq!(code, 409);
    assert_eq!(failure.status, "fail");
    assert_eq!(failure.message, "Todo with title: 'A' already exists");
    assert_eq!(db.len(), 1);
    assert_eq!(db.record(0).content, "first");
}

#[test]
fn create_titles_are_case_sensitive() {
    let mut db = todo_db();
    assert!(create_todo_handler(&mut db, request("Task", "x")).is_ok());
    assert!(create_todo_handler(&mut db, request("task", "x")).is_ok());
    assert!(create_todo_handler(&mut db, request("Task ", "x")).is_ok());
    assert!(create_todo_handler(&mut db, request("Task", "y")).is_err());
    assert_eq!(db.len(), 3);
}

#[test]
fn create_same_content_is_allowed() {
    let mut db = todo_db();
    assert!(create_todo_handler(&mut db, request("A", "same")).is_ok());
    assert!(create_todo_handler(&mut db, request("B", "same")).is_ok());
    assert_eq!(db.len(), 2);
}

#[test]
fn title_is_free_again_after_delete() {
    let mut db = todo_db();
    assert!(create_todo_with(&mut db, request("A", "x"), 1, at(1)).is_ok());
    assert_eq!(delete_todo_handler(1, &mut db), Ok(204));
    assert!(create_todo_with(&mut db, request("A", "x"), 2, at(2)).is_ok());
    assert_eq!(db.len(), 1);
}

#[test]
fn generated_ids_are_random_identifiers() {
    let mut db = todo_db();
    let (_, a) = create_todo_handler(&mut db, request("A", "x")).unwrap();
    let (_, b) = create_todo_handler(&mut db, request("B", "x")).unwrap();
    for todo in [&a.data.todo, &b.data.todo] {
        let text: Vec<char> = todo.id.as_ref().unwrap().chars().collect();
        assert_eq!(text.len(), 36);
        for (p, c) in text.iter().enumerate() {
            if p == 8 || p == 13 || p == 18 || p == 23 {
                assert_eq!(*c, '-');
            } else {
                assert!(matches!(*c, '0'..='9' | 'a'..='f'));
            }
        }
        assert_eq!(text[14], '4');
        assert!(matches!(text[19], '8' | '9' | 'a' | 'b'));
    }
    assert_ne!(a.data.todo.id, b.data.todo.id);
}

#[test]
fn created_time_is_the_current_time() {
    let mut db = todo_db();
    let (_, r) = create_todo_handler(&mut db, request("A", "x")).unwrap();
    let created = r.data.todo.createdAt.unwrap();
    assert!(created.secs > 1_600_000_000);
    assert!(created.nanos < 1_000_000_000);
    assert_eq!(r.data.todo.updatedAt, Some(created));
}

#[test]
fn fetch_is_repeatable() {
    let db = filled(3);
    let first = get_todo_handler(2, &db);
    let second = get_todo_handler(2, &db);
    let third = get_todo_handler(2, &db);
    assert!(first.is_ok());
    assert_eq!(first, second);
    assert_eq!(second, third);
    assert_eq!(first.unwrap().1.data.todo.title, "T2");
    let absent = get_todo_handler(9, &db);
    assert!(absent.is_err());
    assert_eq!(absent, get_todo_handler(9, &db));
}

#[test]
fn fetch_sees_updates() {
    let mut db = filled(3);
    let patch = UpdateTodoSchema { title: None, content: Some("new".to_string()), completed: None };
    let (_, edited) = edit_todo_at(2, &mut db, &patch, at(100)).unwrap();
    let (_, fetched) = get_todo_handler(2, &db).unwrap();
    assert_eq!(fetched.data.todo, edited.data.todo);
    assert_eq!(fetched.data.todo.content, "new");
    let (_, other) = get_todo_handler(3, &db).unwrap();
    assert_eq!(other.data.todo.content, "c");
    assert_eq!(other.data.todo.updatedAt, Some(at(3)));
}

#[test]
fn edit_completed_only_keeps_texts() {
    let mut db = todo_db();
    let (_, created) = create_todo_with(&mut db, request("A", "x"), 5, at(10)).unwrap();
    let patch = UpdateTodoSchema { title: None, content: None, completed: Some(true) };
    let (code, edited) = edit_todo_at(5, &mut db, &patch, at(20)).unwrap();
    assert_eq!(code, 200);
    let before = created.data.todo;
    let after = edited.data.todo;
    assert_eq!(after.title, "A");
    assert_eq!(after.content, "x");
    assert_eq!(after.completed, Some(true));
    assert_eq!(after.id, before.id);
    assert_eq!(after.createdAt, Some(at(10)));
    assert_eq!(after.updatedAt, Some(at(20)));
    assert!(before.updatedAt.unwrap().not_after(&after.updatedAt.unwrap()));
    assert!(after.createdAt.unwrap().not_after(&after.updatedAt.unwrap()));
    assert_eq!(db.record(0), after);
}

#[test]
fn edit_completed_only_at_the_current_time() {
    let mut db = todo_db();
    let (_, created) = create_todo_handler(&mut db, request("A", "x")).unwrap();
    let id = bits_of(&created.data.todo);
    let patch = UpdateTodoSchema { title: None, content: None, completed: Some(true) };
    let (_, edited) = edit_todo_handler(id, &mut db, patch).unwrap();
    assert_eq!(edited.data.todo.title, "A");
    assert_eq!(edited.data.todo.content, "x");
    assert_eq!(edited.data.todo.completed, Some(true));
    assert_eq!(edited.data.todo.createdAt, created.data.todo.createdAt);
    assert!(edited.data.todo.updatedAt.unwrap().secs >= created.data.todo.updatedAt.unwrap().secs);
}

#[test]
fn edit_empty_text_is_no_change() {
    let mut db = todo_db();
    assert!(create_todo_with(&mut db, request("A", "x"), 5, at(10)).is_ok());
    let patch = UpdateTodoSchema {
        title: Some(String::new()),
        content: Some(String::new()),
        completed: None,
    };
    let (_, edited) = edit_todo_at(5, &mut db, &patch, at(20)).unwrap();
    assert_eq!(edited.data.todo.title, "A");
    assert_eq!(edited.data.todo.content, "x");
    assert_eq!(edited.data.todo.completed, Some(false));
    assert_eq!(edited.data.todo.updatedAt, Some(at(20)));
}

#[test]
fn edit_all_fields() {
    let mut db = filled(2);
    let patch = UpdateTodoSchema {
        title: Some("B".to_string()),
        content: Some("y".to_string()),
        completed: Some(true),
    };
    let (_, edited) = edit_todo_at(1, &mut db, &patch, at(20)).unwrap();
    assert_eq!(edited.data.todo.title, "B");
    assert_eq!(edited.data.todo.content, "y");
    assert_eq!(edited.data.todo.completed, Some(true));
    let back = UpdateTodoSchema { title: None, content: None, completed: Some(false) };
    let (_, again) = edit_todo_at(1, &mut db, &back, at(30)).unwrap();
    assert_eq!(again.data.todo.completed, Some(false));
    assert_eq!(again.data.todo.title, "B");
    assert_eq!(db.len(), 2);
    assert_eq!(db.record(1).title, "T2");
}

#[test]
fn edit_does_not_check_titles() {
    let mut db = filled(2);
    let patch = UpdateTodoSchema { title: Some("T1".to_string()), content: None, completed: None };
    let (code, edited) = edit_todo_at(2, &mut db, &patch, at(20)).unwrap();
    assert_eq!(code, STATUS_OK);
    assert_eq!(edited.data.todo.title, "T1");
    assert_eq!(db.record(0).title, "T1");
    assert_eq!(db.record(1).title, "T1");
}

#[test]
fn edit_takes_the_time_it_is_given() {
    let mut db = todo_db();
    assert!(create_todo_with(&mut db, request("A", "x"), 5, at(100)).is_ok());
    let patch = UpdateTodoSchema { title: None, content: None, completed: Some(true) };
    let (_, edited) = edit_todo_at(5, &mut db, &patch, at(50)).unwrap();
    assert_eq!(edited.data.todo.createdAt, Some(at(100)));
    assert_eq!(edited.data.todo.updatedAt, Some(at(50)));
}

#[test]
fn delete_then_get_is_not_found() {
    let mut db = filled(3);
    assert_eq!(delete_todo_handler(2, &mut db), Ok(STATUS_NO_CONTENT));
    let (code, failure) = get_todo_handler(2, &db).unwrap_err();
    assert_eq!(code, 404);
    assert_eq!(failure.message, "Todo with ID: 00000000-0000-0000-0000-000000000002 not found");
    let (code, _) = delete_todo_handler(2, &mut db).unwrap_err();
    assert_eq!(code, 404);
}

#[test]
fn delete_keeps_the_order_of_the_rest() {
    let mut db = filled(5);
    assert_eq!(delete_todo_handler(3, &mut db), Ok(204));
    assert_eq!(titles(&todos_list_handler(None, &db).todos), vec!["T1", "T2", "T4", "T5"]);
    assert_eq!(delete_todo_handler(1, &mut db), Ok(204));
    assert_eq!(delete_todo_handler(5, &mut db), Ok(204));
    assert_eq!(titles(&todos_list_handler(None, &db).todos), vec!["T2", "T4"]);
}

#[test]
fn absent_id_is_named_in_the_message() {
    let mut db = filled(2);
    let id = 0x936da01f_9abd_4d9d_80c7_02af85c822a8u128;
    let text = "936da01f-9abd-4d9d-80c7-02af85c822a8";
    let expected = format!("Todo with ID: {} not found", text);

    let (code, failure) = get_todo_handler(id, &db).unwrap_err();
    assert_eq!(code, STATUS_NOT_FOUND);
    assert_eq!(failure.status, "fail");
    assert_eq!(failure.message, expected);
    assert!(failure.message.contains(text));

    let patch = UpdateTodoSchema { title: Some("Z".to_string()), content: None, completed: None };
    let (code, failure) = edit_todo_handler(id, &mut db, patch).unwrap_err();
    assert_eq!(code, STATUS_NOT_FOUND);
    assert_eq!(failure.message, expected);

    let patch = UpdateTodoSchema { title: Some("Z".to_string()), content: None, completed: None };
    let (code, failure) = edit_todo_at(id, &mut db, &patch, at(9)).unwrap_err();
    assert_eq!(code, STATUS_NOT_FOUND);
    assert_eq!(failure.message, expected);

    let (code, failure) = delete_todo_handler(id, &mut db).unwrap_err();
    assert_eq!(code, STATUS_NOT_FOUND);
    assert_eq!(failure.message, expected);

    assert_eq!(titles(&todos_list_handler(None, &db).todos), vec!["T1", "T2"]);
}

#[test]
fn identifier_text_is_hyphenated_lower_case() {
    let db = todo_db();
    let message = |id: u128| get_todo_handler(id, &db).unwrap_err().1.message;
    assert_eq!(message(0), "Todo with ID: 00000000-0000-0000-0000-000000000000 not found");
    assert_eq!(message(u128::MAX), "Todo with ID: ffffffff-ffff-ffff-ffff-ffffffffffff not found");
    assert_eq!(
        message(0x0123456789abcdef_fedcba9876543210),
        "Todo with ID: 01234567-89ab-cdef-fedc-ba9876543210 not found"
    );
}

#[test]
fn first_of_equal_ids_is_served() {
    let mut db = todo_db();
    assert!(create_todo_with(&mut db, request("A", "x"), 1, at(1)).is_ok());
    assert!(create_todo_with(&mut db, request("B", "y"), 1, at(2)).is_ok());
    assert_eq!(get_todo_handler(1, &db).unwrap().1.data.todo.title, "A");
    assert_eq!(delete_todo_handler(1, &mut db), Ok(204));
    assert_eq!(get_todo_handler(1, &db).unwrap().1.data.todo.title, "B");
}

#[test]
fn store_scans() {
    let db = filled(3);
    assert_eq!(db.len(), 3);
    assert_eq!(db.position_of_id(&"00000000-0000-0000-0000-000000000003".to_string()), Some(2));
    assert_eq!(db.position_of_id(&"00000000-0000-0000-0000-000000000004".to_string()), None);
    assert!(db.contains_title(&"T2".to_string()));
    assert!(!db.contains_title(&"t2".to_string()));
    assert_eq!(TodoStore::new().len(), 0);
}

#[test]
fn timestamps_are_ordered_by_seconds_then_nanoseconds() {
    let a = Timestamp { secs: 5, nanos: 900 };
    let b = Timestamp { secs: 6, nanos: 0 };
    let c = Timestamp { secs: 6, nanos: 1 };
    assert!(a.not_after(&b));
    assert!(b.not_after(&c));
    assert!(a.not_after(&a));
    assert!(!b.not_after(&a));
    assert!(!c.not_after(&b));
    assert!(Timestamp { secs: -1, nanos: 999 }.not_after(&Timestamp { secs: 0, nanos: 0 }));
}
