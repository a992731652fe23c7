use next_core::db::{RoutineDb, TodoDb};
use next_core::json::Json;
use next_core::ops;
use next_core::todo::{Quadrant, Tab, Todo, TodoUpdate};
use next_core::DbError;

fn kv(k: &str, v: Json) -> (String, Json) {
    (k.to_string(), v)
}

fn s(v: &str) -> Json {
    Json::Str(v.to_string())
}

fn minimal_todo_doc() -> Json {
    let item = Json::Obj(vec![
        kv("id", s("test1234")),
        kv("text", s("任务1")),
        kv("content", s("")),
        kv("tab", s("today")),
        kv("quadrant", s("important-urgent")),
        kv("progress", Json::Num("0".to_string())),
        kv("completed", Json::Bool(false)),
        kv("assignee", s("")),
        kv("tags", Json::Arr(vec![])),
        kv("created_at", s("2026-01-01T00:00:00Z")),
        kv("updated_at", s("2026-01-01T00:00:00Z")),
        kv("changelog", Json::Arr(vec![])),
        kv("deleted", Json::Bool(false)),
    ]);
    Json::Obj(vec![kv("items", Json::Arr(vec![item]))])
}

#[test]
fn test_todo_db_crud() {
    let mut db = TodoDb::from_doc("todos.json".to_string(), None).unwrap();

    // Create
    let todo = Todo::new("测试任务".to_string(), Tab::Today, Quadrant::ImportantUrgent);
    let id = todo.id.clone();
    db.insert(todo);

    // Read
    let todo = db.get(&id).unwrap();
    assert_eq!(todo.text, "测试任务");

    // Update
    {
        let todo = db.get_mut(&id).unwrap();
        todo.set_progress(50);
    }
    assert_eq!(db.get(&id).unwrap().progress, 50);

    // the same through a patch
    {
        let mut up = TodoUpdate::default();
        up.progress = Some(75);
        db.apply_update(&id, up, "2026-01-02T00:00:00Z").unwrap();
    }
    assert_eq!(db.get(&id).unwrap().progress, 75);

    // Delete
    db.remove(&id);
    assert!(db.get(&id).is_none());
}

#[test]
fn test_load_existing_json() {
    let db = TodoDb::from_doc("todos.json".to_string(), Some(&minimal_todo_doc())).unwrap();
    assert_eq!(db.len(), 1);

    let todo = db.get("test1234").unwrap();
    assert_eq!(todo.text, "任务1");
}

#[test]
fn test_missing_file_load_gives_empty_store() {
    let db = TodoDb::from_doc("does/not/exist.json".to_string(), None).unwrap();
    assert_eq!(db.len(), 0);
    assert!(db.all().is_empty());
    let doc = db.to_doc();
    let items = next_core::codec::todos_of_doc(&doc).unwrap();
    assert!(items.is_empty());

    let rdb = RoutineDb::from_doc_on("r.json".to_string(), None, "2026-10-11").unwrap();
    assert!(rdb.all().is_empty());
}

#[test]
fn test_parse_error_on_bad_document() {
    let r = TodoDb::from_doc("todos.json".to_string(), Some(&Json::Null));
    assert!(matches!(r, Err(DbError::Parse(_))));

    // a well-formed object whose progress has the wrong type
    let item = Json::Obj(vec![
        kv("id", s("a")),
        kv("text", s("t")),
        kv("progress", s("not a number")),
        kv("created_at", s("2026-01-01T00:00:00Z")),
        kv("updated_at", s("2026-01-01T00:00:00Z")),
    ]);
    let doc = Json::Obj(vec![kv("items", Json::Arr(vec![item]))]);
    let r = TodoDb::from_doc("todos.json".to_string(), Some(&doc));
    assert!(matches!(r, Err(DbError::Parse(_))));
}

#[test]
fn test_error_messages() {
    assert_eq!(
        DbError::NotFound("abc".to_string()).message(),
        "Item not found: abc"
    );
    assert_eq!(DbError::Io("denied".to_string()).message(), "IO error: denied");
    assert_eq!(DbError::Parse("bad".to_string()).message(), "JSON error: bad");
}

#[test]
fn test_changelog_legacy_fields_tolerated() {
    let entry = Json::Obj(vec![
        kv("field", s("progress")),
        kv("from", Json::Num("5".to_string())),
        kv("to", Json::Bool(true)),
        kv("time", s("2025-12-31T00:00:00Z")),
    ]);
    let item = Json::Obj(vec![
        kv("id", s("legacy01")),
        kv("text", s("old")),
        kv("created_at", s("2026-01-01T00:00:00Z")),
        kv("updated_at", s("2026-01-01T00:00:00Z")),
        kv("changelog", Json::Arr(vec![entry])),
    ]);
    let doc = Json::Obj(vec![kv("items", Json::Arr(vec![item]))]);
    let db = TodoDb::from_doc("todos.json".to_string(), Some(&doc)).unwrap();
    let todo = db.get("legacy01").unwrap();
    let entries = todo.changelog.entries();
    assert_eq!(entries.len(), 1);
    assert_eq!(entries[0].field, "progress");
    assert_eq!(entries[0].old_value, "5");
    assert_eq!(entries[0].new_value, "true");
    assert_eq!(entries[0].timestamp, "2025-12-31T00:00:00Z");
    // defaults fill what the file leaves out
    assert_eq!(todo.progress, 0);
    assert_eq!(todo.tab, Tab::Today);
    assert!(!todo.deleted);
}

fn fixed_todo(id: &str, created: &str, completed: bool) -> Todo {
    let mut t = Todo::new_at(
        id.to_string(),
        format!("task {}", id),
        Tab::Today,
        Quadrant::ImportantUrgent,
        created.to_string(),
    );
    if completed {
        t.set_completed_at(true, created);
    }
    t
}

#[test]
fn test_save_load_round_trip() {
    let mut db = TodoDb::from_doc("todos.json".to_string(), None).unwrap();
    db.insert(fixed_todo("id_aaaaa", "2026-01-03T00:00:00Z", false));
    db.insert(fixed_todo("id_bbbbb", "2026-01-01T00:00:00Z", true));
    db.insert(fixed_todo("id_ccccc", "2026-01-02T00:00:00Z", false));

    let doc = db.to_doc();
    let db2 = TodoDb::from_doc("todos.json".to_string(), Some(&doc)).unwrap();

    for id in ["id_aaaaa", "id_bbbbb", "id_ccccc"] {
        let a = db.get(id).unwrap();
        let b = db2.get(id).unwrap();
        assert_eq!(a.text, b.text);
        assert_eq!(a.created_at, b.created_at);
        assert_eq!(a.completed, b.completed);
        assert_eq!(a.progress, b.progress);
        assert_eq!(a.tab, b.tab);
        assert_eq!(a.quadrant, b.quadrant);
        assert_eq!(a.changelog.len(), b.changelog.len());
    }
    assert_eq!(db2.len(), db.len());
}

#[test]
fn test_save_ordering() {
    let mut db = TodoDb::from_doc("todos.json".to_string(), None).unwrap();
    db.insert(fixed_todo("id_aaaaa", "2026-01-03T00:00:00Z", false));
    db.insert(fixed_todo("id_bbbbb", "2026-01-01T00:00:00Z", true));
    db.insert(fixed_todo("id_ccccc", "2026-01-02T00:00:00Z", false));
    db.insert(fixed_todo("id_ddddd", "2026-01-04T00:00:00Z", true));

    let doc = db.to_doc();
    let raw = next_core::codec::todos_of_doc(&doc).unwrap();
    let ids: Vec<&str> = raw.iter().map(|t| t.id.as_str()).collect();
    // incomplete first, ascending by creation time; then completed likewise
    assert_eq!(ids, vec!["id_ccccc", "id_aaaaa", "id_bbbbb", "id_ddddd"]);
}

#[test]
fn test_soft_delete_exclusion() {
    let mut db = TodoDb::from_doc("todos.json".to_string(), None).unwrap();
    db.insert(fixed_todo("id_aaaaa", "2026-01-01T00:00:00Z", false));
    db.insert(fixed_todo("id_bbbbb", "2026-01-02T00:00:00Z", false));

    ops::delete_todo(&mut db, "id_aaaaa".to_string()).unwrap();

    let shown: Vec<String> = db.all().iter().map(|t| t.id.clone()).collect();
    assert_eq!(shown, vec!["id_bbbbb".to_string()]);
    let by_tab: Vec<String> = db
        .filter_by_tab(&Tab::Today)
        .iter()
        .map(|t| t.id.clone())
        .collect();
    assert_eq!(by_tab, vec!["id_bbbbb".to_string()]);
    assert_eq!(db.len(), 1);

    // still addressable
    let hidden = db.get("id_aaaaa").unwrap();
    assert!(hidden.deleted);
    assert!(hidden.deleted_at.is_some());

    // restore puts it back
    ops::restore_todo(&mut db, "id_aaaaa".to_string()).unwrap();
    let mut shown: Vec<String> = db.all().iter().map(|t| t.id.clone()).collect();
    shown.sort();
    assert_eq!(shown, vec!["id_aaaaa".to_string(), "id_bbbbb".to_string()]);
    assert!(!db.get("id_aaaaa").unwrap().deleted);
}

#[test]
fn test_quadrant_counts() {
    let mut db = TodoDb::from_doc("todos.json".to_string(), None).unwrap();
    let a = Todo::new_at(
        "id_aaaaa".to_string(),
        "a".to_string(),
        Tab::Today,
        Quadrant::ImportantUrgent,
        "2026-01-01T00:00:00Z".to_string(),
    );
    let b = Todo::new_at(
        "id_bbbbb".to_string(),
        "b".to_string(),
        Tab::Today,
        Quadrant::ImportantNotUrgent,
        "2026-01-02T00:00:00Z".to_string(),
    );
    let mut c = Todo::new_at(
        "id_ccccc".to_string(),
        "c".to_string(),
        Tab::Today,
        Quadrant::NotImportantUrgent,
        "2026-01-03T00:00:00Z".to_string(),
    );
    c.set_completed_at(true, "2026-01-03T00:00:00Z");
    db.insert(a);
    db.insert(b);
    db.insert(c);

    let resp = ops::get_todo_counts(&db, "today".to_string());
    assert!(resp.success);
    let counts = resp.counts;
    assert_eq!(counts[0], ("important-urgent".to_string(), 1));
    assert_eq!(counts[1], ("important-not-urgent".to_string(), 1));
    assert_eq!(counts[2], ("not-important-urgent".to_string(), 0)); // completed excluded
    assert_eq!(counts[3], ("not-important-not-urgent".to_string(), 0)); // untouched
}

#[test]
fn test_unknown_id_update() {
    let mut db = TodoDb::from_doc("todos.json".to_string(), None).unwrap();
    db.insert(fixed_todo("id_aaaaa", "2026-01-01T00:00:00Z", false));

    let mut request = ops::UpdateTodoRequest {
        text: None,
        content: None,
        tab: None,
        quadrant: None,
        progress: None,
        completed: None,
        due_date: None,
        assignee: None,
        tags: None,
    };
    request.progress = Some(10);
    let r = ops::update_todo(&mut db, "doesnotexist".to_string(), request);
    match r {
        Err(DbError::NotFound(id)) => {
            assert_eq!(id, "doesnotexist");
            assert!(DbError::NotFound(id).message().contains("doesnotexist"));
        }
        _ => panic!("expected a not-found failure"),
    }
    // nothing changed
    assert_eq!(db.len(), 1);
    assert_eq!(db.get("id_aaaaa").unwrap().progress, 0);
}

#[test]
fn test_batch_update_skips_unknown() {
    let mut db = TodoDb::from_doc("todos.json".to_string(), None).unwrap();
    db.insert(fixed_todo("id_aaaaa", "2026-01-01T00:00:00Z", false));

    let updates = vec![
        ops::BatchUpdateItem {
            id: "id_aaaaa".to_string(),
            tab: Some("week".to_string()),
            quadrant: None,
            progress: Some(30),
            completed: None,
        },
        ops::BatchUpdateItem {
            id: "ghost".to_string(),
            tab: None,
            quadrant: None,
            progress: Some(10),
            completed: None,
        },
    ];
    let resp = ops::batch_update_todos_at(&mut db, updates, "2026-01-05T00:00:00Z");
    assert!(resp.success);
    assert_eq!(resp.message.as_deref(), Some("已更新 1 个任务"));
    let t = db.get("id_aaaaa").unwrap();
    assert_eq!(t.tab, Tab::Week);
    assert_eq!(t.progress, 30);
}

#[test]
fn test_create_and_get_ops() {
    let mut db = TodoDb::from_doc("todos.json".to_string(), None).unwrap();
    let req = ops::CreateTodoRequest {
        text: "新任务".to_string(),
        tab: ops::default_tab(),
        quadrant: ops::default_quadrant(),
        content: Some("body".to_string()),
        progress: Some(40),
        due_date: Some("2026-06-01".to_string()),
        assignee: Some("me".to_string()),
    };
    let resp = ops::create_todo_at(
        &mut db,
        req,
        "id_fresh1".to_string(),
        "2026-01-01T00:00:00Z".to_string(),
    );
    assert!(resp.success);
    let made = resp.item.unwrap();
    assert_eq!(made.text, "新任务");
    assert_eq!(made.tab, Tab::Today);
    assert_eq!(made.quadrant, Quadrant::NotImportantNotUrgent);
    assert_eq!(made.content, "body");
    assert_eq!(made.progress, 40);
    assert_eq!(made.due_date.as_deref(), Some("2026-06-01"));
    assert_eq!(made.assignee, "me");
    assert_eq!(made.changelog.len(), 1); // the progress change

    let got = ops::get_todo(&db, "id_fresh1".to_string());
    assert!(got.success);
    assert_eq!(got.item.unwrap().text, "新任务");

    let missing = ops::get_todo(&db, "nope".to_string());
    assert!(!missing.success);
    assert_eq!(missing.message.as_deref(), Some("任务不存在: nope"));

    let listed = ops::get_todos(&db, Some("today".to_string()));
    assert_eq!(listed.items.len(), 1);
}

#[test]
fn test_routine_store_daily_reset_on_load() {
    let item = Json::Obj(vec![
        kv("id", s("routine1")),
        kv("text", s("晨跑")),
        kv("completed_today", Json::Bool(true)),
        kv("last_completed_date", s("2026-10-10")),
        kv("created_at", s("2026-01-01T00:00:00Z")),
    ]);
    let doc = Json::Obj(vec![kv("items", Json::Arr(vec![item]))]);

    let db = RoutineDb::from_doc_on("routines.json".to_string(), Some(&doc), "2026-10-11").unwrap();
    let r = db.get("routine1").unwrap();
    assert!(!r.completed_today);
    assert_eq!(r.last_completed_date.as_deref(), Some("2026-10-10"));

    // loaded on the recorded day itself, the flag stands
    let db2 = RoutineDb::from_doc_on("routines.json".to_string(), Some(&doc), "2026-10-10").unwrap();
    assert!(db2.get("routine1").unwrap().completed_today);
}

#[test]
fn test_routine_ops() {
    let mut db = RoutineDb::from_doc_on("routines.json".to_string(), None, "2026-10-11").unwrap();
    let resp = ops::create_routine_at(
        &mut db,
        ops::CreateRoutineRequest { text: "喝水".to_string() },
        "routine1".to_string(),
        "2026-01-01T00:00:00Z".to_string(),
    );
    assert!(resp.success);
    assert_eq!(resp.message.as_deref(), Some("日常任务创建成功"));

    let toggled = ops::toggle_routine_on(&mut db, "routine1".to_string(), "2026-10-11").unwrap();
    assert!(toggled.item.as_ref().unwrap().completed_today);
    assert_eq!(toggled.message.as_deref(), Some("已完成"));
    let toggled = ops::toggle_routine_on(&mut db, "routine1".to_string(), "2026-10-11").unwrap();
    assert!(!toggled.item.as_ref().unwrap().completed_today);
    assert_eq!(toggled.message.as_deref(), Some("已取消完成"));

    let gone = ops::toggle_routine_on(&mut db, "ghost".to_string(), "2026-10-11");
    assert!(matches!(gone, Err(DbError::NotFound(_))));

    let listed = ops::get_routines(&db);
    assert_eq!(listed.items.len(), 1);

    ops::delete_routine(&mut db, "routine1".to_string()).unwrap();
    assert!(ops::get_routines(&db).items.is_empty());

    let round = db.to_doc();
    let back = RoutineDb::from_doc_on("routines.json".to_string(), Some(&round), "2026-10-11").unwrap();
    assert!(back.all().is_empty());
}

#[test]
fn test_duplicate_ids_last_wins() {
    let mk = |text: &str| {
        Json::Obj(vec![
            kv("id", s("same0001")),
            kv("text", s(text)),
            kv("created_at", s("2026-01-01T00:00:00Z")),
            kv("updated_at", s("2026-01-01T00:00:00Z")),
        ])
    };
    let doc = Json::Obj(vec![kv("items", Json::Arr(vec![mk("first"), mk("second")]))]);
    let db = TodoDb::from_doc("todos.json".to_string(), Some(&doc)).unwrap();
    assert_eq!(db.len(), 1);
    assert_eq!(db.get("same0001").unwrap().text, "second");
}
