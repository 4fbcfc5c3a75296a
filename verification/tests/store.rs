use todo_app::CreateTodo;
use todo_app::DeleteTodo;
use todo_app::EditTodo;
use todo_app::Identity;
use todo_app::Initialize;
use todo_app::TodoApp;
use todo_app::TodoError;
use todo_app::MAX_DESCRIPTION_BYTES;
use todo_app::MAX_TITLE_BYTES;
use todo_app::TODO_SPACE;

fn ident(n: u64) -> Identity {
    Identity { w0: n, w1: 2 * n, w2: 3 * n, w3: 4 * n }
}

fn create_req(title: &[u8], description: &[u8], start: u64, end: u64, user: Identity) -> CreateTodo {
    CreateTodo {
        title: title.to_vec(),
        description: description.to_vec(),
        started_at: start,
        completed_at: end,
        user,
    }
}

fn blank_edit(todo: u64, user: Identity) -> EditTodo {
    EditTodo {
        todo,
        user,
        title: None,
        description: None,
        completed: None,
        started_at: None,
        completed_at: None,
    }
}

fn initialized() -> TodoApp {
    let mut app = TodoApp::new();
    app.initialize(Initialize { user: ident(1) }).unwrap();
    app
}

#[test]
fn initialize_sets_count_to_zero() {
    let mut app = TodoApp::new();
    assert_eq!(app.get_counter(), Err(TodoError::NotFound));
    assert_eq!(app.initialize(Initialize { user: ident(1) }), Ok(()));
    assert_eq!(app.get_counter(), Ok(0));
}

#[test]
fn second_initialize_fails() {
    let mut app = initialized();
    assert_eq!(
        app.initialize(Initialize { user: ident(2) }),
        Err(TodoError::AlreadyInitialized)
    );
    assert_eq!(app.get_counter(), Ok(0));
}

#[test]
fn create_before_initialize_fails() {
    let mut app = TodoApp::new();
    let r = app.create_todo(create_req(b"a", b"b", 1, 2, ident(1)));
    assert_eq!(r, Err(TodoError::NotFound));
}

#[test]
fn create_title_at_bound_succeeds() {
    let mut app = initialized();
    let title = vec![b'x'; MAX_TITLE_BYTES];
    let r = app.create_todo(create_req(&title, b"d", 1, 2, ident(1)));
    assert_eq!(r, Ok(0));
    let t = app.get_todo(0).unwrap();
    assert_eq!(t.title.len(), 100);
}

#[test]
fn create_title_over_bound_fails() {
    let mut app = initialized();
    let title = vec![b'x'; MAX_TITLE_BYTES + 1];
    let r = app.create_todo(create_req(&title, b"d", 1, 2, ident(1)));
    assert_eq!(r, Err(TodoError::FieldTooLong));
    assert_eq!(app.get_counter(), Ok(0));
    assert!(app.get_todo(0).is_err());
}

#[test]
fn create_description_bounds() {
    let mut app = initialized();
    let long = vec![b'y'; MAX_DESCRIPTION_BYTES + 1];
    assert_eq!(
        app.create_todo(create_req(b"t", &long, 1, 2, ident(1))),
        Err(TodoError::FieldTooLong)
    );
    let exact = vec![b'y'; MAX_DESCRIPTION_BYTES];
    assert_eq!(app.create_todo(create_req(b"t", &exact, 1, 2, ident(1))), Ok(0));
}

#[test]
fn created_ids_are_distinct_and_increasing() {
    let mut app = initialized();
    let mut ids = Vec::new();
    for k in 0..5u64 {
        let id = app
            .create_todo(create_req(b"t", b"d", k, k + 1, ident(k + 1)))
            .unwrap();
        ids.push(id);
    }
    for i in 0..ids.len() {
        for j in (i + 1)..ids.len() {
            assert!(ids[i] < ids[j]);
        }
    }
    // deletion does not make an id come back
    assert_eq!(app.delete_todo(DeleteTodo { todo: 2, user: ident(3) }), Ok(TODO_SPACE));
    let next = app.create_todo(create_req(b"t", b"d", 9, 10, ident(9))).unwrap();
    assert_eq!(next, 5);
}

#[test]
fn edit_by_non_owner_fails_and_changes_nothing() {
    let mut app = initialized();
    let owner = ident(1);
    let intruder = ident(2);
    app.create_todo(create_req(b"title", b"descr", 10, 20, owner)).unwrap();
    let mut req = blank_edit(0, intruder);
    req.title = Some(b"hacked".to_vec());
    req.completed = Some(true);
    assert_eq!(app.edit_todo(req), Err(TodoError::Unauthorized));
    let t = app.get_todo(0).unwrap();
    assert_eq!(t.title, b"title".to_vec());
    assert_eq!(t.description, b"descr".to_vec());
    assert!(!t.completed);
    assert_eq!(t.started_at, 10);
    assert_eq!(t.completed_at, 20);
    assert_eq!(t.owner, owner);
}

#[test]
fn edit_only_completed_leaves_other_fields() {
    let mut app = initialized();
    let owner = ident(7);
    app.create_todo(create_req(b"title", b"descr", 10, 20, owner)).unwrap();
    let mut req = blank_edit(0, owner);
    req.completed = Some(true);
    assert_eq!(app.edit_todo(req), Ok(()));
    let t = app.get_todo(0).unwrap();
    assert!(t.completed);
    assert_eq!(t.title, b"title".to_vec());
    assert_eq!(t.description, b"descr".to_vec());
    assert_eq!(t.started_at, 10);
    assert_eq!(t.completed_at, 20);
    assert_eq!(t.owner, owner);
    assert_eq!(t.id, 0);
}

#[test]
fn edit_all_fields() {
    let mut app = initialized();
    let owner = ident(7);
    app.create_todo(create_req(b"a", b"b", 1, 2, owner)).unwrap();
    let req = EditTodo {
        todo: 0,
        user: owner,
        title: Some(b"new title".to_vec()),
        description: Some(b"new descr".to_vec()),
        completed: Some(true),
        started_at: Some(11),
        completed_at: Some(22),
    };
    assert_eq!(app.edit_todo(req), Ok(()));
    let t = app.get_todo(0).unwrap();
    assert_eq!(t.title, b"new title".to_vec());
    assert_eq!(t.description, b"new descr".to_vec());
    assert!(t.completed);
    assert_eq!(t.started_at, 11);
    assert_eq!(t.completed_at, 22);
    assert_eq!(t.owner, owner);
}

#[test]
fn edit_oversized_title_fails_whole_edit() {
    let mut app = initialized();
    let owner = ident(7);
    app.create_todo(create_req(b"a", b"b", 1, 2, owner)).unwrap();
    let mut req = blank_edit(0, owner);
    req.title = Some(vec![b'x'; MAX_TITLE_BYTES + 1]);
    req.completed = Some(true);
    assert_eq!(app.edit_todo(req), Err(TodoError::FieldTooLong));
    let t = app.get_todo(0).unwrap();
    assert_eq!(t.title, b"a".to_vec());
    assert!(!t.completed);
}

#[test]
fn edit_missing_record_fails() {
    let mut app = initialized();
    assert_eq!(app.edit_todo(blank_edit(3, ident(1))), Err(TodoError::NotFound));
}

#[test]
fn delete_removes_record_and_keeps_counter() {
    let mut app = initialized();
    let owner = ident(4);
    app.create_todo(create_req(b"a", b"b", 1, 2, owner)).unwrap();
    assert_eq!(app.get_counter(), Ok(1));
    assert_eq!(app.delete_todo(DeleteTodo { todo: 0, user: owner }), Ok(TODO_SPACE));
    assert_eq!(app.get_todo(0).err(), Some(TodoError::NotFound));
    assert_eq!(app.get_counter(), Ok(1));
}

#[test]
fn delete_by_non_owner_fails() {
    let mut app = initialized();
    let owner = ident(4);
    app.create_todo(create_req(b"a", b"b", 1, 2, owner)).unwrap();
    assert_eq!(
        app.delete_todo(DeleteTodo { todo: 0, user: ident(5) }),
        Err(TodoError::Unauthorized)
    );
    assert!(app.get_todo(0).is_ok());
}

#[test]
fn delete_missing_record_fails() {
    let mut app = initialized();
    assert_eq!(
        app.delete_todo(DeleteTodo { todo: 0, user: ident(1) }),
        Err(TodoError::NotFound)
    );
}

#[test]
fn end_to_end_lifecycle() {
    let a = ident(1);
    let b = ident(2);
    let mut app = TodoApp::new();
    assert_eq!(app.initialize(Initialize { user: a }), Ok(()));

    let id0 = app.create_todo(create_req(b"Buy milk", b"2%", 100, 200, a)).unwrap();
    assert_eq!(id0, 0);
    let t0 = app.get_todo(0).unwrap();
    assert_eq!(t0.id, 0);
    assert_eq!(t0.owner, a);
    assert!(!t0.completed);
    assert_eq!(t0.title, b"Buy milk".to_vec());
    assert_eq!(t0.description, b"2%".to_vec());
    assert_eq!(t0.started_at, 100);
    assert_eq!(t0.completed_at, 200);

    let id1 = app.create_todo(create_req(b"Walk dog", b"", 50, 60, b)).unwrap();
    assert_eq!(id1, 1);
    let t1 = app.get_todo(1).unwrap();
    assert_eq!(t1.id, 1);
    assert_eq!(t1.owner, b);

    let mut req = blank_edit(0, a);
    req.completed = Some(true);
    assert_eq!(app.edit_todo(req), Ok(()));
    let t0 = app.get_todo(0).unwrap();
    assert!(t0.completed);
    assert_eq!(t0.title, b"Buy milk".to_vec());
    assert_eq!(t0.description, b"2%".to_vec());
    assert_eq!(t0.started_at, 100);
    assert_eq!(t0.completed_at, 200);
    assert_eq!(t0.owner, a);

    assert_eq!(app.delete_todo(DeleteTodo { todo: 1, user: b }), Ok(TODO_SPACE));
    assert_eq!(app.get_todo(1).err(), Some(TodoError::NotFound));
    let t0 = app.get_todo(0).unwrap();
    assert_eq!(t0.id, 0);
    assert!(t0.completed);
}

#[test]
fn edit_targets_only_the_addressed_record() {
    let mut app = initialized();
    for k in 0..4u64 {
        app.create_todo(create_req(b"t", b"d", k, k, ident(k + 1))).unwrap();
    }
    let mut req = blank_edit(2, ident(3));
    req.title = Some(b"picked".to_vec());
    assert_eq!(app.edit_todo(req), Ok(()));
    assert_eq!(app.get_todo(2).unwrap().title, b"picked".to_vec());
    for k in [0u64, 1, 3] {
        assert_eq!(app.get_todo(k).unwrap().title, b"t".to_vec());
        assert_eq!(app.get_todo(k).unwrap().id, k);
    }
}
